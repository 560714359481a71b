use raytracer::pixel::{pack_rgb, preview_word};

#[test]
fn packs_channels_red_high() {
    assert_eq!(pack_rgb(0x12, 0x34, 0x56), 0x0012_3456);
    assert_eq!(pack_rgb(255, 255, 255), 0x00ff_ffff);
    assert_eq!(pack_rgb(0, 0, 0), 0);
    assert_eq!(pack_rgb(1, 0, 0), 0x0001_0000);
}

#[test]
fn outside_the_image_is_black() {
    assert_eq!(preview_word(None), 0);
    assert_eq!(preview_word(Some((0, 128, 255))), 0x0000_80ff);
}
