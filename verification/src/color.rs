//! Perceptual color sources and concrete colors.
//!
//! A [`ColorSource`] is a hue and saturation in a perceptual
//! hue/saturation/lightness cylinder; combining it with a lightness yields a
//! concrete [`Color`]. The crate keeps colors in this cylindrical form, held
//! as exact fixed-point values: hue in millidegrees, saturation, lightness
//! and alpha as unit fractions. Converting a color to a display-ready sRGB
//! triple is the rendering layer's work.

use crate::animation::{clamp_unit, ZeroToOne, UNIT};
use vstd::prelude::*;

verus! {

/// Millidegrees in a full turn of the hue circle.
pub const TURN: i64 = 360000;

/// Half a turn of the hue circle, in millidegrees.
pub const HALF_TURN: i64 = 180000;

/// A hue angle in millidegrees, normalized to lie in the half-open interval
/// above `-HALF_TURN` up to and including `HALF_TURN`.
#[derive(Clone, Copy, Debug, PartialEq, Eq, Structural)]
pub struct Hue {
    /// The normalized angle in millidegrees.
    pub md: i64,
}

/// The value of `x` reduced to the normalized hue interval.
pub open spec fn norm_hue(x: int) -> int {
    let m = x % (TURN as int);
    if m > HALF_TURN {
        m - TURN
    } else {
        m
    }
}

/// Reduces `x` modulo a full turn, into the half-open interval from zero up
/// to a full turn, matching the spec-level Euclidean `%`.
fn euclid_mod_turn(x: i64) -> (r: i64)
    requires
        -0x4000_0000_0000_0000 <= x <= 0x4000_0000_0000_0000,
    ensures
        r == x as int % (TURN as int),
{
    if x >= 0 {
        x % TURN
    } else {
        let n = -x;
        let q = n / TURN;
        let m = n % TURN;
        proof {
            let ni = n as int;
            let t = TURN as int;
            vstd::arithmetic::div_mod::lemma_fundamental_div_mod(ni, t);
            vstd::arithmetic::div_mod::lemma_mod_bound(ni, t);
            assert(ni == t * q + m);
            if m == 0 {
                assert(t * (-q) == -(t * q)) by (nonlinear_arith);
                vstd::arithmetic::div_mod::lemma_fundamental_div_mod_converse(x as int, t, -q, 0);
            } else {
                assert(t * (-q - 1) == -(t * q) - t) by (nonlinear_arith);
                vstd::arithmetic::div_mod::lemma_fundamental_div_mod_converse(
                    x as int,
                    t,
                    -q - 1,
                    t - m,
                );
            }
        }
        if m == 0 {
            0
        } else {
            TURN - m
        }
    }
}

impl Hue {
    /// A hue is well formed when its angle is normalized.
    pub open spec fn wf(self) -> bool {
        -HALF_TURN < self.md <= HALF_TURN
    }

    /// Returns the hue at `millidegrees`, normalized into the canonical
    /// interval.
    pub fn new(millidegrees: i64) -> (r: Hue)
        requires
            -0x4000_0000_0000_0000 <= millidegrees <= 0x4000_0000_0000_0000,
        ensures
            r.md == norm_hue(millidegrees as int),
            r.wf(),
    {
        let m = euclid_mod_turn(millidegrees);
        if m > HALF_TURN {
            Hue { md: m - TURN }
        } else {
            Hue { md: m }
        }
    }

    /// Returns the hue at a whole number of degrees.
    pub fn from_degrees(degrees: i64) -> (r: Hue)
        requires
            -0x0010_0000_0000_0000 <= degrees <= 0x0010_0000_0000_0000,
        ensures
            r.md == norm_hue(degrees as int * 1000),
            r.wf(),
    {
        Hue::new(degrees * 1000)
    }

    /// The hue expressed as a non-negative angle below a full turn.
    pub open spec fn positive_spec(self) -> int {
        if self.md < 0 {
            self.md + TURN
        } else {
            self.md as int
        }
    }

    /// Returns the angle measured from zero, in millidegrees from zero up
    /// to (but excluding) a full turn.
    pub fn positive_md(self) -> (r: i64)
        requires
            self.wf(),
        ensures
            r == self.positive_spec(),
            0 <= r < TURN,
    {
        if self.md < 0 {
            self.md + TURN
        } else {
            self.md
        }
    }

    /// Returns the hue advanced by `other`, normalized.
    pub fn plus(self, other: Hue) -> (r: Hue)
        requires
            self.wf(),
            other.wf(),
        ensures
            r.md == norm_hue(self.md + other.md),
            r.wf(),
    {
        Hue::new(self.md + other.md)
    }

    /// Returns the hue moved back by `other`, normalized.
    pub fn minus(self, other: Hue) -> (r: Hue)
        requires
            self.wf(),
            other.wf(),
        ensures
            r.md == norm_hue(self.md - other.md),
            r.wf(),
    {
        Hue::new(self.md - other.md)
    }
}

/// A source for colors: a hue and a saturation which generate a concrete
/// color at any lightness.
#[derive(Clone, Copy, Debug, PartialEq, Eq, Structural)]
pub struct ColorSource {
    /// The hue angle.
    pub hue: Hue,
    /// The saturation: zero is a shade of gray, one a fully saturated color.
    pub saturation: ZeroToOne,
}

/// The shortest arc between two hues on the circle, in millidegrees.
pub open spec fn hue_arc_md(a: Hue, b: Hue) -> int {
    let pa = a.positive_spec();
    let pb = b.positive_spec();
    let d = if pa >= pb {
        pa - pb
    } else {
        pb - pa
    };
    if d <= TURN - d {
        d
    } else {
        TURN - d
    }
}

/// The shortest hue arc as a fraction of half a turn, in fixed point.
pub open spec fn hue_delta_bp(a: Hue, b: Hue) -> int {
    hue_arc_md(a, b) / 18
}

/// The absolute saturation difference between two sources, in fixed point.
pub open spec fn saturation_delta_bp(a: ColorSource, b: ColorSource) -> int {
    if a.saturation.0 >= b.saturation.0 {
        a.saturation.0 - b.saturation.0
    } else {
        b.saturation.0 - a.saturation.0
    }
}

/// The contrast between two color sources, in fixed point: the average of
/// the saturation difference and the shortest hue arc as a fraction of
/// half a turn. Both terms raise contrast, so perfect contrast is two
/// sources on opposite sides of the hue circle, one fully desaturated and
/// the other fully saturated.
pub open spec fn source_contrast_bp(a: ColorSource, b: ColorSource) -> int {
    (saturation_delta_bp(a, b) + hue_delta_bp(a.hue, b.hue)) / 2
}

impl ColorSource {
    /// A source is well formed when both parts are.
    pub open spec fn wf(self) -> bool {
        self.hue.wf() && self.saturation.wf()
    }

    /// Returns a new source with the given hue and saturation.
    pub fn new(hue: Hue, saturation: ZeroToOne) -> (r: ColorSource)
        requires
            hue.wf(),
            saturation.wf(),
        ensures
            r == (ColorSource { hue, saturation }),
            r.wf(),
    {
        ColorSource { hue, saturation }
    }

    /// Generates a new color by combining the hue and saturation with
    /// `lightness`, at full opacity.
    pub fn color<L: Lightness>(self, lightness: L) -> (r: Color)
        requires
            self.wf(),
            lightness.lightness_wf(),
        ensures
            r == (Color {
                source: self,
                lightness: lightness.into_lightness_spec(),
                alpha: ZeroToOne(UNIT),
            }),
            r.wf(),
    {
        Color { source: self, lightness: lightness.into_lightness(), alpha: ZeroToOne::one() }
    }

    /// Calculates an approximate ratio between zero and one of how
    /// contrasting these sources are, with perfect contrast being two
    /// sources that are opposite of each other on the hue circle and one
    /// fully desaturated while the other is fully saturated.
    pub fn contrast_between(self, other: ColorSource) -> (r: ZeroToOne)
        requires
            self.wf(),
            other.wf(),
        ensures
            r.0 == source_contrast_bp(self, other),
            r.wf(),
    {
        let saturation_delta = self.saturation.difference_between(other.saturation);

        let self_hue = self.hue.positive_md();
        let other_hue = other.hue.positive_md();
        // The shortest distance between the hues: the direct gap or the gap
        // around the far side of the circle, whichever is smaller.
        let arc = if self_hue < other_hue {
            let arc_a = other_hue - self_hue;
            let arc_b = self_hue + TURN - other_hue;
            if arc_a <= arc_b {
                arc_a
            } else {
                arc_b
            }
        } else {
            let arc_a = self_hue - other_hue;
            let arc_b = other_hue + TURN - self_hue;
            if arc_a <= arc_b {
                arc_a
            } else {
                arc_b
            }
        };
        let hue_delta = ZeroToOne::new(arc / 18);
        proof {
            assert(0 <= arc / 18 <= UNIT) by (nonlinear_arith)
                requires
                    0 <= arc <= HALF_TURN,
            ;
        }

        ZeroToOne((saturation_delta.0 + hue_delta.0) / 2)
    }
}

/// The contrast between two color sources lies in the unit interval and
/// does not depend on the order of its arguments.
pub proof fn lemma_source_contrast_symmetric_and_bounded(a: ColorSource, b: ColorSource)
    requires
        a.wf(),
        b.wf(),
    ensures
        source_contrast_bp(a, b) == source_contrast_bp(b, a),
        0 <= source_contrast_bp(a, b) <= UNIT,
{
    assert(hue_arc_md(a.hue, b.hue) == hue_arc_md(b.hue, a.hue));
    assert(saturation_delta_bp(a, b) == saturation_delta_bp(b, a));
    let arc = hue_arc_md(a.hue, b.hue);
    assert(0 <= arc <= HALF_TURN);
    assert(0 <= arc / 18 <= UNIT) by (nonlinear_arith)
        requires
            0 <= arc <= HALF_TURN,
    ;
}

/// A value that can represent the lightness of a color.
pub trait Lightness: Sized {
    /// When the value is an acceptable lightness.
    spec fn lightness_wf(self) -> bool;

    /// The unit fraction the value stands for.
    spec fn into_lightness_spec(self) -> ZeroToOne;

    /// Returns this value as a unit fraction.
    fn into_lightness(self) -> (r: ZeroToOne)
        requires
            self.lightness_wf(),
        ensures
            r == self.into_lightness_spec(),
            r.wf(),
    ;
}

impl Lightness for ZeroToOne {
    open spec fn lightness_wf(self) -> bool {
        self.wf()
    }

    open spec fn into_lightness_spec(self) -> ZeroToOne {
        self
    }

    fn into_lightness(self) -> (r: ZeroToOne) {
        self
    }
}

impl Lightness for u8 {
    open spec fn lightness_wf(self) -> bool {
        true
    }

    /// A whole percentage: values above one hundred clamp to one.
    open spec fn into_lightness_spec(self) -> ZeroToOne {
        ZeroToOne(clamp_unit(self as int * 100) as i64)
    }

    fn into_lightness(self) -> (r: ZeroToOne) {
        ZeroToOne::new(self as i64 * 100)
    }
}

/// A concrete color: a source combined with a lightness and an opacity.
#[derive(Clone, Copy, Debug, PartialEq, Eq, Structural)]
pub struct Color {
    /// The hue and saturation of the color.
    pub source: ColorSource,
    /// The perceptual lightness of the color.
    pub lightness: ZeroToOne,
    /// The opacity of the color: one is fully opaque.
    pub alpha: ZeroToOne,
}

impl Color {
    /// A color is well formed when all three parts are.
    pub open spec fn wf(self) -> bool {
        self.source.wf() && self.lightness.wf() && self.alpha.wf()
    }

    /// Returns the color with the given parts.
    pub fn new(source: ColorSource, lightness: ZeroToOne, alpha: ZeroToOne) -> (r: Color)
        requires
            source.wf(),
            lightness.wf(),
            alpha.wf(),
        ensures
            r == (Color { source, lightness, alpha }),
            r.wf(),
    {
        Color { source, lightness, alpha }
    }
}

/// The perceived lightness of a color: its lightness weighted by its
/// opacity, in fixed point.
pub open spec fn effective_lightness_bp(c: Color) -> int {
    (c.lightness.0 * c.alpha.0) / (UNIT as int)
}

/// The contrast between the color `c` and the decomposed parts of another
/// color, in fixed point: the lightness difference, together with the
/// source and alpha differences weighted by the average lightness, averaged
/// over the three terms. The weighting is a heuristic: differences in hue
/// or opacity count for less between two dark colors.
pub open spec fn color_contrast_bp(
    c: Color,
    check_source: ColorSource,
    check_lightness: ZeroToOne,
    check_alpha: ZeroToOne,
) -> int {
    let other_lightness = effective_lightness_bp(c);
    let lightness_delta = if other_lightness >= check_lightness.0 {
        other_lightness - check_lightness.0
    } else {
        check_lightness.0 - other_lightness
    };
    let average_lightness = (check_lightness.0 + other_lightness) / 2;
    let source_change = source_contrast_bp(check_source, c.source);
    let alpha_delta = if check_alpha.0 >= c.alpha.0 {
        check_alpha.0 - c.alpha.0
    } else {
        c.alpha.0 - check_alpha.0
    };
    (lightness_delta + (average_lightness * source_change) / (UNIT as int) + (average_lightness
        * alpha_delta) / (UNIT as int)) / 3
}

/// Extra functionality for concrete colors.
pub trait ColorExt: Copy + Sized {
    /// When the color value is well formed.
    spec fn color_wf(self) -> bool;

    /// The hue/saturation source and perceived lightness of the color.
    spec fn source_and_lightness_spec(self) -> (ColorSource, ZeroToOne);

    /// The opacity of the color.
    spec fn alpha_spec(self) -> ZeroToOne;

    /// The contrast between the color and the decomposed parts provided, in
    /// fixed point.
    spec fn contrast_spec(
        self,
        check_source: ColorSource,
        check_lightness: ZeroToOne,
        check_alpha: ZeroToOne,
    ) -> int;

    /// Converts this color into its hue/saturation and lightness components.
    fn into_source_and_lightness(self) -> (r: (ColorSource, ZeroToOne))
        requires
            self.color_wf(),
        ensures
            r == self.source_and_lightness_spec(),
            r.0.wf(),
            r.1.wf(),
    ;

    /// Returns the hue and saturation of this color.
    fn source(self) -> (r: ColorSource)
        requires
            self.color_wf(),
        ensures
            r == self.source_and_lightness_spec().0,
    ;

    /// Returns the perceived lightness of this color.
    fn lightness(self) -> (r: ZeroToOne)
        requires
            self.color_wf(),
        ensures
            r == self.source_and_lightness_spec().1,
    ;

    /// Returns the contrast between this color and the components provided.
    fn contrast_between(
        self,
        check_source: ColorSource,
        check_lightness: ZeroToOne,
        check_alpha: ZeroToOne,
    ) -> (r: ZeroToOne)
        requires
            self.color_wf(),
            check_source.wf(),
            check_lightness.wf(),
            check_alpha.wf(),
        ensures
            r.0 == self.contrast_spec(check_source, check_lightness, check_alpha),
            r.wf(),
    ;

    /// Returns the color in `others` that contrasts the most from `self`,
    /// keeping the earliest of equally contrasting candidates.
    fn most_contrasting(self, others: &[Self]) -> (r: Self)
        requires
            self.color_wf(),
            others@.len() >= 1,
            forall|i: int| 0 <= i < others@.len() ==> (#[trigger] others@[i]).color_wf(),
        ensures
            ({
                let cs = self.source_and_lightness_spec().0;
                let cl = self.source_and_lightness_spec().1;
                let ca = self.alpha_spec();
                exists|i: int|
                    0 <= i < others@.len() && r == #[trigger] others@[i] && (forall|j: int|
                        0 <= j < others@.len() ==> (#[trigger] others@[j]).contrast_spec(cs, cl, ca)
                            <= others@[i].contrast_spec(cs, cl, ca)) && (forall|j: int|
                        0 <= j < i ==> (#[trigger] others@[j]).contrast_spec(cs, cl, ca)
                            < others@[i].contrast_spec(cs, cl, ca))
            }),
    ;
}

impl ColorExt for Color {
    open spec fn color_wf(self) -> bool {
        self.wf()
    }

    open spec fn source_and_lightness_spec(self) -> (ColorSource, ZeroToOne) {
        (self.source, ZeroToOne(effective_lightness_bp(self) as i64))
    }

    open spec fn alpha_spec(self) -> ZeroToOne {
        self.alpha
    }

    open spec fn contrast_spec(
        self,
        check_source: ColorSource,
        check_lightness: ZeroToOne,
        check_alpha: ZeroToOne,
    ) -> int {
        color_contrast_bp(self, check_source, check_lightness, check_alpha)
    }

    fn into_source_and_lightness(self) -> (r: (ColorSource, ZeroToOne)) {
        (self.source, self.lightness.times(self.alpha))
    }

    fn source(self) -> (r: ColorSource) {
        self.source
    }

    fn lightness(self) -> (r: ZeroToOne) {
        self.lightness.times(self.alpha)
    }

    fn contrast_between(
        self,
        check_source: ColorSource,
        check_lightness: ZeroToOne,
        check_alpha: ZeroToOne,
    ) -> (r: ZeroToOne) {
        let other_lightness = self.lightness.times(self.alpha);
        let lightness_delta = other_lightness.difference_between(check_lightness);

        let average_lightness = ZeroToOne((check_lightness.0 + other_lightness.0) / 2);

        let source_change = check_source.contrast_between(self.source);

        let alpha_delta = check_alpha.difference_between(self.alpha);

        let weighted_source = average_lightness.times(source_change);
        let weighted_alpha = average_lightness.times(alpha_delta);
        ZeroToOne((lightness_delta.0 + weighted_source.0 + weighted_alpha.0) / 3)
    }

    fn most_contrasting(self, others: &[Self]) -> (r: Self) {
        let (check_source, check_lightness) = self.into_source_and_lightness();
        let check_alpha = self.alpha;

        let mut most_contrasting = others[0];
        let mut most_contrast_amount = most_contrasting.contrast_between(
            check_source,
            check_lightness,
            check_alpha,
        );
        let ghost mut best: int = 0;
        let mut idx: usize = 1;
        while idx < others.len()
            invariant
                1 <= idx <= others@.len(),
                0 <= best < idx,
                self.wf(),
                check_source.wf(),
                check_lightness.wf(),
                check_alpha.wf(),
                check_source == self.source_and_lightness_spec().0,
                check_lightness == self.source_and_lightness_spec().1,
                check_alpha == self.alpha_spec(),
                forall|i: int| 0 <= i < others@.len() ==> (#[trigger] others@[i]).wf(),
                most_contrasting == others@[best],
                most_contrast_amount.0 == others@[best].contrast_spec(
                    check_source,
                    check_lightness,
                    check_alpha,
                ),
                forall|j: int|
                    0 <= j < idx ==> (#[trigger] others@[j]).contrast_spec(
                        check_source,
                        check_lightness,
                        check_alpha,
                    ) <= most_contrast_amount.0,
                forall|j: int|
                    0 <= j < best ==> (#[trigger] others@[j]).contrast_spec(
                        check_source,
                        check_lightness,
                        check_alpha,
                    ) < most_contrast_amount.0,
            decreases others@.len() - idx,
        {
            let contrast_amount = others[idx].contrast_between(
                check_source,
                check_lightness,
                check_alpha,
            );
            if contrast_amount.0 > most_contrast_amount.0 {
                most_contrasting = others[idx];
                most_contrast_amount = contrast_amount;
                proof {
                    best = idx as int;
                }
            }
            idx = idx + 1;
        }
        most_contrasting
    }
}

/// Generating a color from a source at a lightness and decomposing it
/// again is a closed round trip: the fully opaque color reads back as
/// exactly the source and lightness it was built from.
pub proof fn lemma_color_decomposition_round_trip(source: ColorSource, lightness: ZeroToOne)
    requires
        source.wf(),
        lightness.wf(),
    ensures
        ({
            let c = Color { source, lightness, alpha: ZeroToOne(UNIT) };
            c.source_and_lightness_spec() == (source, lightness)
        }),
{
    let c = Color { source, lightness, alpha: ZeroToOne(UNIT) };
    assert(effective_lightness_bp(c) == lightness.0) by (nonlinear_arith)
        requires
            c.lightness == lightness,
            c.alpha.0 == UNIT,
            effective_lightness_bp(c) == (c.lightness.0 * c.alpha.0) / (UNIT as int),
    ;
}

} // verus!
