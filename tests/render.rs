use hyperbolic_maze::color::RGBColor;
use hyperbolic_maze::render::{
    column_pixels, nearest_hit, nearest_wall_hit, pixel_color, wall_band, wall_rows, Lighting,
    UNIT, WALL_HEIGHT,
};

fn lighting() -> Lighting {
    Lighting::new(UNIT, 250_000).unwrap()
}

#[test]
fn lighting_rejects_zero_radius() {
    assert_eq!(Lighting::new(0, 250_000), None);
    let l = Lighting::new(3, 4).unwrap();
    assert_eq!(l.illumination_radius, 3);
    assert_eq!(l.minimum_light, 4);
}

#[test]
fn light_fades_linearly_with_distance() {
    let l = lighting();
    assert_eq!(l.light_intensity(0), UNIT);
    assert_eq!(l.light_intensity(UNIT / 2), 500_000);
    assert_eq!(l.light_intensity(UNIT / 4), 750_000);
}

#[test]
fn light_never_drops_below_the_minimum() {
    let l = lighting();
    assert_eq!(l.light_intensity(900_000), 250_000);
    assert_eq!(l.light_intensity(UNIT), 250_000);
    assert_eq!(l.light_intensity(u64::MAX), 250_000);
}

#[test]
fn light_never_exceeds_full() {
    let l = Lighting::new(UNIT, 2 * UNIT).unwrap();
    assert_eq!(l.light_intensity(0), UNIT);
    assert_eq!(l.light_intensity(UNIT), UNIT);
}

#[test]
fn nearer_hit_is_shaded_at_least_as_bright() {
    let l = lighting();
    let c = RGBColor::new(255, 200, 17);
    let distances = [0u64, 100_000, 300_000, 600_000, 800_000, UNIT, 5 * UNIT];
    for pair in distances.windows(2) {
        let near = l.shade(c, pair[0]);
        let far = l.shade(c, pair[1]);
        assert!(near.r >= far.r && near.g >= far.g && near.b >= far.b);
    }
    assert_eq!(l.shade(c, UNIT / 2), RGBColor::new(127, 100, 8));
    assert_eq!(l.shade(c, 5 * UNIT), RGBColor::new(63, 50, 4));
}

#[test]
fn wall_band_is_centered() {
    assert_eq!(wall_band(600, 60), (270, 330));
    assert_eq!(wall_band(600, 600), (0, 600));
    assert_eq!(wall_band(600, 0), (300, 300));
    assert_eq!(wall_band(5, 2), (1, 3));
}

#[test]
fn wall_rows_shrink_with_distance() {
    assert_eq!(wall_rows(600, UNIT), 60);
    assert_eq!(wall_rows(600, 2 * UNIT), 30);
    assert_eq!(wall_rows(600, WALL_HEIGHT), 600);
    assert_eq!(wall_rows(600, WALL_HEIGHT / 2), 600);
    assert_eq!(wall_rows(600, 0), 600);
    let mut previous = usize::MAX;
    for p in [0u64, 1, 50_000, 100_000, 150_000, 400_000, UNIT, 10 * UNIT] {
        let rows = wall_rows(600, p);
        assert!(rows <= previous);
        assert!(rows <= 600);
        previous = rows;
    }
}

#[test]
fn pixel_rows_are_ceiling_wall_and_floor() {
    let red = RGBColor::red();
    assert_eq!(pixel_color(0, 10, 3, 6, red), RGBColor::black());
    assert_eq!(pixel_color(3, 10, 3, 6, red), red);
    assert_eq!(pixel_color(5, 10, 3, 6, red), red);
    assert_eq!(pixel_color(6, 10, 3, 6, red), RGBColor::new(38, 38, 38));
    assert_eq!(pixel_color(9, 10, 3, 6, red), RGBColor::new(57, 57, 57));
}

#[test]
fn column_is_painted_top_to_bottom() {
    let red = RGBColor::red();
    let pixels = column_pixels(4, 2, red);
    assert_eq!(
        pixels,
        vec![RGBColor::black(), red, red, RGBColor::new(48, 48, 48)]
    );
    assert_eq!(column_pixels(0, 0, red), Vec::<RGBColor>::new());
}

#[test]
fn empty_column_has_only_ceiling_and_floor() {
    let pixels = lighting().render_column(4, None);
    assert_eq!(
        pixels,
        vec![
            RGBColor::black(),
            RGBColor::black(),
            RGBColor::new(32, 32, 32),
            RGBColor::new(48, 48, 48)
        ]
    );
}

#[test]
fn column_of_a_hit_shows_the_shaded_wall() {
    let l = lighting();
    let pixels = l.render_column(10, Some((RGBColor::new(200, 0, 100), UNIT / 2)));
    // Half a unit away: 10 * 0.1 / 0.5 = 2 rows, lit at one half.
    let wall = RGBColor::new(100, 0, 50);
    assert_eq!(pixels.len(), 10);
    assert_eq!(pixels[3], RGBColor::black());
    assert_eq!(pixels[4], wall);
    assert_eq!(pixels[5], wall);
    assert_eq!(pixels[6], RGBColor::new(38, 38, 38));
}

#[test]
fn nearest_hit_takes_the_smallest_distance() {
    assert_eq!(nearest_hit(&vec![None, Some(5), Some(3), Some(4)]), Some(2));
    assert_eq!(nearest_hit(&vec![Some(9)]), Some(0));
}

#[test]
fn nearest_hit_breaks_ties_by_wall_order() {
    assert_eq!(nearest_hit(&vec![Some(7), Some(3), None, Some(3)]), Some(1));
}

#[test]
fn nearest_hit_without_hits() {
    assert_eq!(nearest_hit(&vec![]), None);
    assert_eq!(nearest_hit(&vec![None, None]), None);
}

#[test]
fn nearest_wall_hit_reports_color_and_distance() {
    let colors = vec![RGBColor::red(), RGBColor::green(), RGBColor::blue()];
    assert_eq!(
        nearest_wall_hit(&colors, &vec![Some(900), None, Some(400)]),
        Some((RGBColor::blue(), 400))
    );
    assert_eq!(nearest_wall_hit(&colors, &vec![None, None, None]), None);
}
