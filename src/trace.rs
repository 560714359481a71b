//! The control of the colour integrator: how a traced path spends its bounce budget
//! and how it ends.
//!
//! A path starts with a budget of bounces. While it is unfinished the caller queries
//! the scene with the current ray and records what came back. A scatter spends one
//! bounce and continues with the scattered ray; a miss ends the path in the sky; an
//! absorption, or a budget spent before the ray escapes, ends it in black. The
//! colour of a finished path is its shade times the attenuations of its scatters.

use vstd::prelude::*;

verus! {

/// What the scene reported for the ray being traced.
#[derive(Clone, Copy, Debug, PartialEq, Eq, Structural)]
pub enum Surface {
    /// The ray hit nothing.
    Miss,
    /// The ray hit an object whose material absorbed it.
    Absorbed,
    /// The ray hit an object whose material scattered it into a new ray.
    Scattered,
}

/// Where the colour of a finished path comes from.
#[derive(Clone, Copy, Debug, PartialEq, Eq, Structural)]
pub enum Shade {
    /// No light: the ray was absorbed or ran out of bounces.
    Black,
    /// The background gradient, seen along the last ray.
    Sky,
}

/// What the caller does next with a path.
#[derive(Clone, Copy, Debug, PartialEq, Eq, Structural)]
pub enum Action {
    /// Query the scene with the current ray and record the answer.
    Query,
    /// The path is finished with this shade.
    Finish(Shade),
}

/// The state of one traced path.
#[derive(Clone, Copy, Debug, PartialEq, Eq, Structural)]
pub struct Path {
    /// Bounces that may still be spent.
    pub remaining: u16,
    /// How the path ended, once it has.
    pub ending: Option<Shade>,
}

/// A path about to trace its first ray with a budget of `bounces`.
pub open spec fn initial(bounces: u16) -> Path {
    Path { remaining: bounces, ending: None }
}

/// The path after recording `surfaces` in turn, each while the path asks for a query;
/// answers given after it has finished are not recorded.
pub open spec fn run(p: Path, surfaces: Seq<Surface>) -> Path
    decreases surfaces.len(),
{
    if surfaces.len() == 0 || !(p.next() is Query) {
        p
    } else {
        run(p.after(surfaces[0]), surfaces.skip(1))
    }
}

impl Path {
    /// What the caller does next: a path finishes at its ending, or in black once its
    /// budget is spent, and asks for a query otherwise.
    pub open spec fn next(self) -> Action {
        match self.ending {
            Some(shade) => Action::Finish(shade),
            None => if self.remaining == 0 {
                Action::Finish(Shade::Black)
            } else {
                Action::Query
            },
        }
    }

    /// The path after the scene reported `surface` for its current ray.
    pub open spec fn after(self, surface: Surface) -> Path {
        match surface {
            Surface::Miss => Path { ending: Some(Shade::Sky), ..self },
            Surface::Absorbed => Path { ending: Some(Shade::Black), ..self },
            Surface::Scattered => Path { remaining: (self.remaining - 1) as u16, ..self },
        }
    }

    /// Starts a path with a budget of `bounces`.
    pub fn new(bounces: u16) -> (p: Path)
        ensures
            p == initial(bounces),
    {
        Path { remaining: bounces, ending: None }
    }

    /// What the caller does next with this path.
    pub fn action(&self) -> (a: Action)
        ensures
            a == self.next(),
    {
        match self.ending {
            Some(shade) => Action::Finish(shade),
            None => if self.remaining == 0 {
                Action::Finish(Shade::Black)
            } else {
                Action::Query
            },
        }
    }

    /// Records what the scene reported for the current ray of an unfinished path.
    pub fn record(&mut self, surface: Surface)
        requires
            old(self).next() is Query,
        ensures
            *final(self) == old(self).after(surface),
    {
        match surface {
            Surface::Miss => self.ending = Some(Shade::Sky),
            Surface::Absorbed => self.ending = Some(Shade::Black),
            Surface::Scattered => self.remaining = self.remaining - 1,
        }
    }
}

/// With no bounces to spend, a path is black whatever the ray and the scene: it
/// finishes before the scene is queried.
pub proof fn lemma_no_bounces_is_black(surfaces: Seq<Surface>)
    ensures
        initial(0).next() == Action::Finish(Shade::Black),
        run(initial(0), surfaces) == initial(0),
{
    if surfaces.len() > 0 {
        assert(!(initial(0).next() is Query));
    }
}

/// A path whose budget is `n` bounces is finished after at most `n` answers of the
/// scene, whatever they are.
pub proof fn lemma_budget_bounds_path(p: Path, surfaces: Seq<Surface>)
    requires
        surfaces.len() >= p.remaining,
    ensures
        run(p, surfaces).next() is Finish,
    decreases surfaces.len(),
{
    if surfaces.len() > 0 && p.next() is Query {
        let q = p.after(surfaces[0]);
        if surfaces[0] == Surface::Scattered {
            lemma_budget_bounds_path(q, surfaces.skip(1));
        } else {
            assert(run(q, surfaces.skip(1)) == q);
        }
    }
}

} // verus!
