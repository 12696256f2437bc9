use vstd::prelude::*;

use crate::color::{lemma_light_monotone, scaled_color, RGBColor};

verus! {

/// Distances, and light intensities, are fixed-point numbers: this many units
/// make one.
pub const UNIT: u64 = 1_000_000;

/// The height of a wall seen from distance one, as a fraction of the screen
/// height, in `UNIT`s.
pub const WALL_HEIGHT: u64 = 100_000;

/// How a hit is lit: full light at the observer, fading linearly to none at
/// the illumination radius, but never below the ambient minimum.
#[derive(Clone, Copy, Debug, PartialEq, Eq, Structural)]
pub struct Lighting {
    /// The distance at which the light has faded out, in `UNIT`s.
    pub illumination_radius: u64,
    /// The ambient light intensity, in `UNIT`s (`UNIT` is full light).
    pub minimum_light: u64,
}

/// The light intensity (in `UNIT`s) of a hit at projected distance
/// `projected`: `1 - projected / radius`, clamped to `[minimum, 1]`.
pub open spec fn light_level(projected: nat, radius: nat, minimum: nat) -> nat
    recommends
        radius > 0,
{
    let linear: nat = if projected >= radius {
        0
    } else {
        (UNIT - (UNIT as nat) * projected / radius) as nat
    };
    let lit: nat = if linear < minimum {
        minimum
    } else {
        linear
    };
    if lit > UNIT as nat {
        UNIT as nat
    } else {
        lit
    }
}

/// The color of a wall of color `c` hit at projected distance `projected`.
pub open spec fn shaded(c: RGBColor, projected: nat, l: Lighting) -> RGBColor {
    scaled_color(
        c,
        light_level(projected, l.illumination_radius as nat, l.minimum_light as nat),
        UNIT as nat,
    )
}

/// The number of rows of a column of `window_height` rows that a wall at
/// projected distance `projected` covers: `WALL_HEIGHT / projected` of the
/// screen, at most all of it.
pub open spec fn wall_rows_spec(window_height: nat, projected: nat) -> nat {
    if projected == 0 {
        window_height
    } else {
        let rows = window_height * (WALL_HEIGHT as nat) / projected;
        if rows > window_height {
            window_height
        } else {
            rows
        }
    }
}

proof fn lemma_fall_below_unit(projected: nat, radius: nat)
    requires
        projected < radius,
    ensures
        (UNIT as nat) * projected / radius < UNIT as nat,
{
    assert((UNIT as nat) * projected < (UNIT as nat) * radius) by (nonlinear_arith)
        requires
            projected < radius,
    ;
    vstd::arithmetic::div_mod::lemma_div_by_multiple_is_strongly_ordered(
        ((UNIT as nat) * projected) as int,
        ((UNIT as nat) * radius) as int,
        UNIT as int,
        radius as int,
    );
    vstd::arithmetic::div_mod::lemma_div_by_multiple(UNIT as int, radius as int);
}

/// The light fades with distance: a nearer hit is never darker.
pub proof fn lemma_light_level_monotone(near: nat, far: nat, radius: nat, minimum: nat)
    requires
        radius > 0,
        near <= far,
    ensures
        light_level(far, radius, minimum) <= light_level(near, radius, minimum),
{
    assert((UNIT as nat) * near <= (UNIT as nat) * far) by (nonlinear_arith)
        requires
            near <= far,
    ;
    vstd::arithmetic::div_mod::lemma_div_is_ordered(
        ((UNIT as nat) * near) as int,
        ((UNIT as nat) * far) as int,
        radius as int,
    );
    if near < radius {
        lemma_fall_below_unit(near, radius);
    }
    if far < radius {
        lemma_fall_below_unit(far, radius);
    }
}

/// Of two hits on walls of the same color, the nearer one is shaded with
/// every channel at least as bright as the farther one.
pub proof fn lemma_shading_monotone(c: RGBColor, near: nat, far: nat, l: Lighting)
    requires
        l.illumination_radius > 0,
        near <= far,
    ensures
        shaded(c, far, l).r <= shaded(c, near, l).r,
        shaded(c, far, l).g <= shaded(c, near, l).g,
        shaded(c, far, l).b <= shaded(c, near, l).b,
{
    lemma_light_level_monotone(near, far, l.illumination_radius as nat, l.minimum_light as nat);
    lemma_light_monotone(
        c,
        light_level(far, l.illumination_radius as nat, l.minimum_light as nat),
        light_level(near, l.illumination_radius as nat, l.minimum_light as nat),
        UNIT as nat,
    );
}

/// A nearer wall never covers fewer rows than a farther one.
pub proof fn lemma_wall_rows_monotone(window_height: nat, near: nat, far: nat)
    requires
        near <= far,
    ensures
        wall_rows_spec(window_height, far) <= wall_rows_spec(window_height, near),
        wall_rows_spec(window_height, far) <= window_height,
{
    if near > 0 {
        vstd::arithmetic::div_mod::lemma_div_is_ordered_by_denominator(
            (window_height * (WALL_HEIGHT as nat)) as int,
            near as int,
            far as int,
        );
    }
}

impl Lighting {
    /// A lighting with the given radius and ambient minimum; `None` where the
    /// radius is zero, which would make every hit's light meaningless.
    pub fn new(illumination_radius: u64, minimum_light: u64) -> (l: Option<Lighting>)
        ensures
            illumination_radius == 0 <==> l is None,
            l matches Some(v) ==> v == (Lighting { illumination_radius, minimum_light }),
    {
        if illumination_radius == 0 {
            None
        } else {
            Some(Lighting { illumination_radius, minimum_light })
        }
    }

    /// The light intensity, in `UNIT`s, of a hit at projected distance
    /// `projected` (in `UNIT`s).
    pub fn light_intensity(&self, projected: u64) -> (level: u64)
        requires
            self.illumination_radius > 0,
        ensures
            level == light_level(
                projected as nat,
                self.illumination_radius as nat,
                self.minimum_light as nat,
            ),
    {
        let linear: u64 = if projected >= self.illumination_radius {
            0
        } else {
            let r = self.illumination_radius;
            assert((UNIT as nat) * (projected as nat) <= (UNIT as nat) * 0xffff_ffff_ffff_ffff)
                by (nonlinear_arith)
                requires
                    projected <= 0xffff_ffff_ffff_ffff,
            ;
            let prod: u128 = (UNIT as u128) * (projected as u128);
            let fall: u128 = prod / (r as u128);
            proof {
                lemma_fall_below_unit(projected as nat, r as nat);
            }
            UNIT - (fall as u64)
        };
        let lit: u64 = if linear < self.minimum_light {
            self.minimum_light
        } else {
            linear
        };
        if lit > UNIT {
            UNIT
        } else {
            lit
        }
    }

    /// The color of a wall of color `color` hit at projected distance
    /// `projected`: the color darkened by the hit's light intensity.
    pub fn shade(&self, color: RGBColor, projected: u64) -> (c: RGBColor)
        requires
            self.illumination_radius > 0,
        ensures
            c == shaded(color, projected as nat, *self),
    {
        let level = self.light_intensity(projected);
        color.adjust_light_intensity(level, UNIT)
    }

    /// The pixels of one screen column, top to bottom, for the nearest hit of
    /// its ray: the wall's color and projected distance, or `None` where the
    /// ray meets no wall, which leaves the column empty (ceiling and floor).
    pub fn render_column(&self, window_height: usize, hit: Option<(RGBColor, u64)>) -> (pixels:
        Vec<RGBColor>)
        requires
            self.illumination_radius > 0,
        ensures
            pixels@.len() == window_height,
            forall|row: int|
                0 <= row < window_height ==> #[trigger] pixels@[row] == column_row_color(
                    row as nat,
                    window_height as nat,
                    *self,
                    hit,
                ),
    {
        match hit {
            None => column_pixels(window_height, 0, RGBColor::black()),
            Some((color, projected)) => {
                let rows = wall_rows(window_height, projected);
                column_pixels(window_height, rows, self.shade(color, projected))
            },
        }
    }
}

/// The color of row `row` of a column of `window_height` rows whose ray
/// hit `hit` (see `Lighting::render_column`).
pub open spec fn column_row_color(
    row: nat,
    window_height: nat,
    l: Lighting,
    hit: Option<(RGBColor, u64)>,
) -> RGBColor {
    match hit {
        None => row_color(
            row,
            window_height,
            band_top(window_height, 0),
            band_top(window_height, 0),
            RGBColor { r: 0, g: 0, b: 0 },
        ),
        Some((color, projected)) => {
            let rows = wall_rows_spec(window_height, projected as nat);
            row_color(
                row,
                window_height,
                band_top(window_height, rows),
                band_top(window_height, rows) + rows,
                shaded(color, projected as nat, l),
            )
        },
    }
}

/// The number of rows that a wall at projected distance `projected` covers
/// in a column of `window_height` rows.
pub fn wall_rows(window_height: usize, projected: u64) -> (rows: usize)
    ensures
        rows == wall_rows_spec(window_height as nat, projected as nat),
        rows <= window_height,
{
    if projected == 0 {
        window_height
    } else {
        assert((window_height as nat) * (WALL_HEIGHT as nat) <= 0xffff_ffff_ffff_ffff * (
        WALL_HEIGHT as nat)) by (nonlinear_arith)
            requires
                window_height <= 0xffff_ffff_ffff_ffff,
        ;
        let rows: u128 = (window_height as u128) * (WALL_HEIGHT as u128) / (projected as u128);
        if rows > window_height as u128 {
            window_height
        } else {
            rows as usize
        }
    }
}

/// The rows `[top, bottom)` of a column of height `window_height` that show a
/// wall `view_wall_height` rows high, centered vertically.
pub open spec fn band_top(window_height: nat, view_wall_height: nat) -> nat {
    ((window_height - view_wall_height) as nat) / 2
}

/// The color of row `row` in a column of `window_height` rows whose wall band
/// is `[top, bottom)`: black ceiling above, the wall's color inside, and a
/// floor below that fades from black at the top of the column towards dark
/// gray at its bottom.
pub open spec fn row_color(
    row: nat,
    window_height: nat,
    top: nat,
    bottom: nat,
    wall: RGBColor,
) -> RGBColor {
    if row < top {
        RGBColor { r: 0, g: 0, b: 0 }
    } else if row < bottom {
        wall
    } else {
        scaled_color(RGBColor { r: 64, g: 64, b: 64 }, row, window_height)
    }
}

/// The rows that the wall occupies in a column: `view_wall_height` rows,
/// centered in a column of `window_height` rows.
pub fn wall_band(window_height: usize, view_wall_height: usize) -> (band: (usize, usize))
    requires
        view_wall_height <= window_height,
    ensures
        band.0 == band_top(window_height as nat, view_wall_height as nat),
        band.1 == band.0 + view_wall_height,
        band.1 <= window_height,
{
    let top = (window_height - view_wall_height) / 2;
    (top, top + view_wall_height)
}

/// The color of a single row of a column; see `row_color`.
pub fn pixel_color(row: usize, window_height: usize, top: usize, bottom: usize, wall: RGBColor) -> (c:
    RGBColor)
    requires
        window_height > 0,
        row < window_height,
    ensures
        c == row_color(row as nat, window_height as nat, top as nat, bottom as nat, wall),
{
    if row < top {
        RGBColor::black()
    } else if row < bottom {
        wall
    } else {
        RGBColor::dark_gray().adjust_light_intensity(row as u64, window_height as u64)
    }
}

/// The pixels of one screen column, top to bottom: ceiling, a wall band of
/// `view_wall_height` rows centered vertically, and a floor gradient.
pub fn column_pixels(window_height: usize, view_wall_height: usize, wall: RGBColor) -> (pixels:
    Vec<RGBColor>)
    requires
        view_wall_height <= window_height,
    ensures
        pixels@.len() == window_height,
        forall|row: int|
            0 <= row < window_height ==> #[trigger] pixels@[row] == row_color(
                row as nat,
                window_height as nat,
                band_top(window_height as nat, view_wall_height as nat),
                band_top(window_height as nat, view_wall_height as nat) + view_wall_height as nat,
                wall,
            ),
{
    let (top, bottom) = wall_band(window_height, view_wall_height);
    let mut pixels: Vec<RGBColor> = Vec::new();
    let mut row: usize = 0;
    while row < window_height
        invariant
            row <= window_height,
            top == band_top(window_height as nat, view_wall_height as nat),
            bottom == top + view_wall_height,
            pixels@.len() == row,
            forall|i: int|
                0 <= i < row ==> #[trigger] pixels@[i] == row_color(
                    i as nat,
                    window_height as nat,
                    top as nat,
                    bottom as nat,
                    wall,
                ),
        decreases window_height - row,
    {
        pixels.push(pixel_color(row, window_height, top, bottom, wall));
        row = row + 1;
    }
    pixels
}

/// `i` is the first position of a smallest key among the present ones.
pub open spec fn is_nearest(keys: Seq<Option<u64>>, i: int) -> bool {
    &&& 0 <= i < keys.len()
    &&& keys[i] is Some
    &&& forall|j: int|
        0 <= j < keys.len() && #[trigger] keys[j] is Some ==> keys[i]->0 <= keys[j]->0
    &&& forall|j: int| 0 <= j < i && #[trigger] keys[j] is Some ==> keys[i]->0 < keys[j]->0
}

/// Picks the nearest hit of a ray among the walls: `distances[k]` is the
/// projected distance (in `UNIT`s) at which the ray meets wall `k`, or `None`
/// where it misses it. Of equally near hits the earliest wins;
/// `None` where the ray meets no wall at all.
pub fn nearest_hit(distances: &Vec<Option<u64>>) -> (r: Option<usize>)
    ensures
        r is None <==> forall|j: int| 0 <= j < distances@.len() ==> #[trigger] distances@[j] is None,
        r matches Some(i) ==> is_nearest(distances@, i as int),
{
    let mut best: Option<usize> = None;
    let mut k: usize = 0;
    while k < distances.len()
        invariant
            k <= distances@.len(),
            best is None <==> forall|j: int| 0 <= j < k ==> #[trigger] distances@[j] is None,
            best matches Some(i) ==> {
                &&& i < k
                &&& distances@[i as int] is Some
                &&& forall|j: int|
                    0 <= j < k && #[trigger] distances@[j] is Some ==> distances@[i as int]->0
                        <= distances@[j]->0
                &&& forall|j: int|
                    0 <= j < i && #[trigger] distances@[j] is Some ==> distances@[i as int]->0
                        < distances@[j]->0
            },
        decreases distances@.len() - k,
    {
        match distances[k] {
            Some(d) => {
                match best {
                    Some(i) => {
                        match distances[i] {
                            Some(b) => {
                                if d < b {
                                    best = Some(k);
                                }
                            },
                            None => {},
                        }
                    },
                    None => {
                        best = Some(k);
                    },
                }
            },
            None => {},
        }
        k = k + 1;
    }
    best
}

/// The nearest hit of a ray, as the hit wall's color and projected distance:
/// `colors[k]` is the color of wall `k` and `distances[k]` what `nearest_hit`
/// takes. `None` where the ray meets no wall.
pub fn nearest_wall_hit(colors: &Vec<RGBColor>, distances: &Vec<Option<u64>>) -> (hit: Option<
    (RGBColor, u64),
>)
    requires
        colors@.len() == distances@.len(),
    ensures
        hit is None <==> forall|j: int| 0 <= j < distances@.len() ==> #[trigger] distances@[j] is None,
        hit matches Some((c, d)) ==> exists|i: int|
            is_nearest(distances@, i) && c == colors@[i] && distances@[i] == Some(d),
{
    match nearest_hit(distances) {
        None => None,
        Some(i) => {
            match distances[i] {
                Some(d) => Some((colors[i], d)),
                None => None,
            }
        },
    }
}

} // verus!
