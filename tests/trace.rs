use raytracer::trace::{Action, Path, Shade, Surface};

#[test]
fn no_bounces_is_black() {
    let p = Path::new(0);
    assert_eq!(p.action(), Action::Finish(Shade::Black));
}

#[test]
fn single_bounce_spent_on_a_scatter_is_black() {
    let mut p = Path::new(1);
    assert_eq!(p.action(), Action::Query);
    p.record(Surface::Scattered);
    assert_eq!(p.action(), Action::Finish(Shade::Black));
}

#[test]
fn miss_shows_the_sky() {
    let mut p = Path::new(1);
    p.record(Surface::Miss);
    assert_eq!(p.action(), Action::Finish(Shade::Sky));
}

#[test]
fn absorption_is_black() {
    let mut p = Path::new(50);
    p.record(Surface::Scattered);
    p.record(Surface::Absorbed);
    assert_eq!(p.action(), Action::Finish(Shade::Black));
    assert_eq!(p.remaining, 49);
}

#[test]
fn sky_after_scatters() {
    let mut p = Path::new(3);
    p.record(Surface::Scattered);
    p.record(Surface::Scattered);
    assert_eq!(p.action(), Action::Query);
    p.record(Surface::Miss);
    assert_eq!(p.action(), Action::Finish(Shade::Sky));
    assert_eq!(p.remaining, 1);
}

#[test]
fn budget_ends_path_after_that_many_scatters() {
    let mut p = Path::new(3);
    let mut queries = 0;
    while p.action() == Action::Query {
        p.record(Surface::Scattered);
        queries += 1;
    }
    assert_eq!(queries, 3);
    assert_eq!(p.action(), Action::Finish(Shade::Black));
}

#[test]
fn largest_budget() {
    let mut p = Path::new(u16::MAX);
    p.record(Surface::Scattered);
    assert_eq!(p.remaining, u16::MAX - 1);
    assert_eq!(p.action(), Action::Query);
}
