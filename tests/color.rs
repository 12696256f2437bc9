use hyperbolic_maze::color::RGBColor;

#[test]
fn named_colors() {
    assert_eq!(RGBColor::red(), RGBColor::new(255, 0, 0));
    assert_eq!(RGBColor::green(), RGBColor::new(0, 255, 0));
    assert_eq!(RGBColor::blue(), RGBColor::new(0, 0, 255));
    assert_eq!(RGBColor::yellow(), RGBColor::new(255, 255, 0));
    assert_eq!(RGBColor::black(), RGBColor::new(0, 0, 0));
    assert_eq!(RGBColor::dark_gray(), RGBColor::new(64, 64, 64));
}

#[test]
fn light_intensity_halves_channels() {
    let c = RGBColor::new(255, 100, 1);
    assert_eq!(c.adjust_light_intensity(1, 2), RGBColor::new(127, 50, 0));
}

#[test]
fn full_and_no_light() {
    let c = RGBColor::new(10, 20, 30);
    assert_eq!(c.adjust_light_intensity(7, 7), c);
    assert_eq!(c.adjust_light_intensity(0, 7), RGBColor::black());
}

#[test]
fn brighter_light_is_clamped_to_channel_range() {
    let c = RGBColor::new(200, 100, 0);
    assert_eq!(c.adjust_light_intensity(3, 2), RGBColor::new(255, 150, 0));
}

#[test]
fn stronger_light_never_darkens() {
    let c = RGBColor::new(255, 128, 3);
    let weak = c.adjust_light_intensity(1, 4);
    let strong = c.adjust_light_intensity(3, 4);
    assert!(weak.r <= strong.r && weak.g <= strong.g && weak.b <= strong.b);
    assert_eq!(weak, RGBColor::new(63, 32, 0));
    assert_eq!(strong, RGBColor::new(191, 96, 2));
}
