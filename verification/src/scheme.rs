//! Color schemes and their automatic completion.
//!
//! A [`ColorScheme`] is six color sources; a [`ColorSchemeBuilder`] fills in
//! any source the caller did not supply: complementary hues for the
//! secondary and tertiary colors, desaturated variants of the primary for
//! the neutrals, and an error color chosen by walking the hue circle until
//! it contrasts acceptably with the three accent colors. That search has no
//! iteration bound; with a degenerate hue shift (for instance zero) it may
//! never finish, so the walk is specified by the first acceptable candidate
//! it could reach. Under the default shift, with the complementary colors
//! left to be generated, the walk provably always succeeds
//! ([`lemma_default_hue_walk_succeeds`]); a fully custom builder carries
//! the reachability condition instead.

use crate::animation::ZeroToOne;
use crate::color::{hue_arc_md, hue_delta_bp, norm_hue, saturation_delta_bp, source_contrast_bp,
    ColorSource, Hue, HALF_TURN, TURN};
use vstd::prelude::*;

verus! {

/// The least acceptable contrast, in fixed point, between a generated
/// error color and each accent color.
pub const ERROR_CONTRAST_FLOOR: i64 = 1000;

/// The hue of the first error-color candidate, in millidegrees.
pub const ERROR_SEED_HUE: i64 = 30000;

/// The default amount, in millidegrees, by which generated colors shift
/// the primary hue.
pub const DEFAULT_HUE_SHIFT: i64 = 30000;

/// A type that can be interpreted as a hue or a hue and saturation.
pub trait ProtoColor: Sized {
    /// When the value describes a usable prototype color.
    spec fn proto_wf(self) -> bool;

    /// The hue of the prototype color.
    spec fn hue_spec(self) -> Hue;

    /// The saturation of the prototype color, where it carries one.
    spec fn saturation_spec(self) -> Option<ZeroToOne>;

    /// Returns the hue of this prototype color.
    fn hue(&self) -> (r: Hue)
        requires
            self.proto_wf(),
        ensures
            r == self.hue_spec(),
            r.wf(),
    ;

    /// Returns the saturation of this prototype color, if available.
    fn saturation(&self) -> (r: Option<ZeroToOne>)
        requires
            self.proto_wf(),
        ensures
            r == self.saturation_spec(),
    ;

    /// The color source the prototype stands for under a fallback
    /// saturation: its own hue, and its own saturation where it carries
    /// one, the fallback otherwise.
    spec fn into_source_spec(self, fallback: ZeroToOne) -> ColorSource;

    /// Returns a color source built from this prototype color, taking the
    /// fallback saturation when the prototype carries none.
    fn into_source(self, saturation_if_not_provided: ZeroToOne) -> (r: ColorSource)
        requires
            self.proto_wf(),
            saturation_if_not_provided.wf(),
        ensures
            r == self.into_source_spec(saturation_if_not_provided),
            r.wf(),
    ;
}

impl ProtoColor for Hue {
    open spec fn proto_wf(self) -> bool {
        self.wf()
    }

    open spec fn hue_spec(self) -> Hue {
        self
    }

    open spec fn saturation_spec(self) -> Option<ZeroToOne> {
        None
    }

    open spec fn into_source_spec(self, fallback: ZeroToOne) -> ColorSource {
        ColorSource { hue: self, saturation: fallback }
    }

    fn hue(&self) -> (r: Hue) {
        *self
    }

    fn saturation(&self) -> (r: Option<ZeroToOne>) {
        None
    }

    fn into_source(self, saturation_if_not_provided: ZeroToOne) -> (r: ColorSource) {
        ColorSource { hue: self, saturation: saturation_if_not_provided }
    }
}

impl ProtoColor for ColorSource {
    open spec fn proto_wf(self) -> bool {
        self.wf()
    }

    open spec fn hue_spec(self) -> Hue {
        self.hue
    }

    open spec fn saturation_spec(self) -> Option<ZeroToOne> {
        Some(self.saturation)
    }

    open spec fn into_source_spec(self, fallback: ZeroToOne) -> ColorSource {
        self
    }

    fn hue(&self) -> (r: Hue) {
        self.hue
    }

    fn saturation(&self) -> (r: Option<ZeroToOne>) {
        Some(self.saturation)
    }

    fn into_source(self, saturation_if_not_provided: ZeroToOne) -> (r: ColorSource) {
        self
    }
}

impl ProtoColor for (Hue, ZeroToOne) {
    open spec fn proto_wf(self) -> bool {
        self.0.wf() && self.1.wf()
    }

    open spec fn hue_spec(self) -> Hue {
        self.0
    }

    open spec fn saturation_spec(self) -> Option<ZeroToOne> {
        Some(self.1)
    }

    open spec fn into_source_spec(self, fallback: ZeroToOne) -> ColorSource {
        ColorSource { hue: self.0, saturation: self.1 }
    }

    fn hue(&self) -> (r: Hue) {
        self.0
    }

    fn saturation(&self) -> (r: Option<ZeroToOne>) {
        Some(self.1)
    }

    fn into_source(self, saturation_if_not_provided: ZeroToOne) -> (r: ColorSource) {
        ColorSource { hue: self.0, saturation: self.1 }
    }
}

/// A color scheme: six color sources from which full themes derive.
///
/// A scheme is never partial: every construction path fills all six
/// fields.
#[derive(Clone, Copy, Debug, PartialEq, Eq, Structural)]
pub struct ColorScheme {
    /// The primary accent color.
    pub primary: ColorSource,
    /// A secondary accent color.
    pub secondary: ColorSource,
    /// A tertiary accent color.
    pub tertiary: ColorSource,
    /// A color used to denote errors.
    pub error: ColorSource,
    /// A neutral color.
    pub neutral: ColorSource,
    /// A neutral color with a different tone than `neutral`.
    pub neutral_variant: ColorSource,
}

impl ColorScheme {
    /// A scheme is well formed when all six sources are.
    pub open spec fn wf(self) -> bool {
        self.primary.wf() && self.secondary.wf() && self.tertiary.wf() && self.error.wf()
            && self.neutral.wf() && self.neutral_variant.wf()
    }

    /// Returns a generated color scheme based on a `primary` color.
    ///
    /// With the default hue shift and both complementary colors left to
    /// be generated, the error-color walk succeeds for every primary, so
    /// no further condition is needed.
    pub fn from_primary<P: ProtoColor>(primary: P) -> (r: ColorScheme)
        requires
            primary.proto_wf(),
        ensures
            build_result(builder_for(primary), r),
            r.wf(),
    {
        let builder = ColorSchemeBuilder::new(primary);
        proof {
            lemma_default_hue_walk_succeeds(builder);
        }
        builder.build()
    }
}

impl Default for ColorScheme {
    /// The default scheme is generated from a green primary hue.
    fn default() -> (r: ColorScheme)
        ensures
            build_result(builder_for(Hue { md: 138500 }), r),
            r.wf(),
    {
        ColorScheme::from_primary(Hue { md: 138500 })
    }
}

/// A builder of [`ColorScheme`]s.
#[derive(Clone, Copy, Debug)]
pub struct ColorSchemeBuilder {
    /// The primary color of the scheme.
    pub primary: ColorSource,
    /// The secondary color of the scheme. If not provided, a complementary
    /// color will be chosen.
    pub secondary: Option<ColorSource>,
    /// The tertiary color of the scheme. If not provided, a complementary
    /// color will be chosen.
    pub tertiary: Option<ColorSource>,
    /// The error color of the scheme. If not provided, a reddish hue will
    /// be used unless it contrasts poorly with any of the other colors.
    pub error: Option<ColorSource>,
    /// The neutral color of the scheme. If not provided, a nearly fully
    /// desaturated variation of the primary color will be used.
    pub neutral: Option<ColorSource>,
    /// The neutral variant color of the scheme. If not provided, a mostly
    /// desaturated variation of the primary color will be used.
    pub neutral_variant: Option<ColorSource>,
    /// The amount by which generated colors shift the primary hue.
    pub hue_shift: Hue,
}

/// The builder that `ColorSchemeBuilder::new` returns for a prototype
/// primary color.
pub open spec fn builder_for<P: ProtoColor>(primary: P) -> ColorSchemeBuilder {
    ColorSchemeBuilder {
        primary: primary.into_source_spec(ZeroToOne(8000)),
        secondary: None,
        tertiary: None,
        error: None,
        neutral: None,
        neutral_variant: None,
        hue_shift: Hue { md: DEFAULT_HUE_SHIFT },
    }
}

/// The secondary color generated for a builder: the primary hue advanced
/// by the hue shift, at half the primary saturation.
pub open spec fn secondary_spec(b: ColorSchemeBuilder) -> ColorSource {
    ColorSource {
        hue: Hue { md: norm_hue(b.primary.hue.md + b.hue_shift.md) as i64 },
        saturation: ZeroToOne((b.primary.saturation.0 / 2) as i64),
    }
}

/// The sign, either one or minus one, of the circular offset from the
/// primary hue to `hue`; a zero offset counts as positive.
pub open spec fn offset_sign(b: ColorSchemeBuilder, hue: Hue) -> int {
    if norm_hue(hue.md - b.primary.hue.md) >= 0 {
        1
    } else {
        -1
    }
}

/// The tertiary color generated for a builder: the primary hue shifted by
/// the hue-shift amount away from the secondary color's side of the
/// primary, at a third of the primary saturation.
pub open spec fn tertiary_spec(b: ColorSchemeBuilder, secondary: ColorSource) -> ColorSource {
    ColorSource {
        hue: Hue {
            md: norm_hue(b.primary.hue.md - offset_sign(b, secondary.hue) * b.hue_shift.md) as i64,
        },
        saturation: ZeroToOne((b.primary.saturation.0 / 3) as i64),
    }
}

/// The error-color candidate after `k` steps of the search: the seed hue
/// at the primary saturation, moved back by the hue shift `k` times.
pub open spec fn error_candidate(b: ColorSchemeBuilder, k: nat) -> ColorSource
    decreases k,
{
    if k == 0 {
        ColorSource { hue: Hue { md: ERROR_SEED_HUE }, saturation: b.primary.saturation }
    } else {
        let prev = error_candidate(b, (k - 1) as nat);
        ColorSource {
            hue: Hue { md: norm_hue(prev.hue.md - b.hue_shift.md) as i64 },
            saturation: prev.saturation,
        }
    }
}

/// When an error-color candidate contrasts acceptably with all three
/// accent colors.
pub open spec fn error_acceptable(
    b: ColorSchemeBuilder,
    secondary: ColorSource,
    tertiary: ColorSource,
    candidate: ColorSource,
) -> bool {
    &&& source_contrast_bp(b.primary, candidate) >= ERROR_CONTRAST_FLOOR
    &&& source_contrast_bp(secondary, candidate) >= ERROR_CONTRAST_FLOOR
    &&& source_contrast_bp(tertiary, candidate) >= ERROR_CONTRAST_FLOOR
}

/// When the error-color search starting from the seed hue can ever
/// succeed for a builder. With a degenerate hue shift the walk revisits
/// the same unacceptable hues forever; such builders are excluded
/// wherever a scheme must actually be produced.
pub open spec fn error_search_succeeds(b: ColorSchemeBuilder) -> bool {
    let secondary = match b.secondary {
        Some(s) => s,
        None => secondary_spec(b),
    };
    let tertiary = match b.tertiary {
        Some(t) => t,
        None => tertiary_spec(b, secondary),
    };
    exists|k: nat| error_acceptable(b, secondary, tertiary, error_candidate(b, k))
}

/// When `error` is the first acceptable candidate of the error-color
/// search.
pub open spec fn generated_error(
    b: ColorSchemeBuilder,
    secondary: ColorSource,
    tertiary: ColorSource,
    error: ColorSource,
) -> bool {
    exists|k: nat|
        error == error_candidate(b, k) && error_acceptable(b, secondary, tertiary, error) && (
        forall|j: nat| j < k ==> !error_acceptable(b, secondary, tertiary, error_candidate(b, j)))
}

/// The first twelve candidates of the error-color search under the
/// default hue shift: the seed hue walked back thirty degrees at a time,
/// always at the primary saturation.
proof fn lemma_default_candidate_hues(b: ColorSchemeBuilder)
    requires
        b.hue_shift.md == DEFAULT_HUE_SHIFT,
    ensures
        forall|k: nat|
            k < 12 ==> (#[trigger] error_candidate(b, k)).saturation == b.primary.saturation,
        error_candidate(b, 0).hue.md == 30000,
        error_candidate(b, 1).hue.md == 0,
        error_candidate(b, 2).hue.md == -30000,
        error_candidate(b, 3).hue.md == -60000,
        error_candidate(b, 4).hue.md == -90000,
        error_candidate(b, 5).hue.md == -120000,
        error_candidate(b, 6).hue.md == -150000,
        error_candidate(b, 7).hue.md == 180000,
        error_candidate(b, 8).hue.md == 150000,
        error_candidate(b, 9).hue.md == 120000,
        error_candidate(b, 10).hue.md == 90000,
        error_candidate(b, 11).hue.md == 60000,
{
    assert(error_candidate(b, 0).hue.md == 30000);
    assert(error_candidate(b, 1).hue.md == 0);
    assert(error_candidate(b, 2).hue.md == -30000);
    assert(error_candidate(b, 3).hue.md == -60000);
    assert(error_candidate(b, 4).hue.md == -90000);
    assert(error_candidate(b, 5).hue.md == -120000);
    assert(error_candidate(b, 6).hue.md == -150000);
    assert(error_candidate(b, 7).hue.md == 180000);
    assert(error_candidate(b, 8).hue.md == 150000);
    assert(error_candidate(b, 9).hue.md == 120000);
    assert(error_candidate(b, 10).hue.md == 90000);
    assert(error_candidate(b, 11).hue.md == 60000);
    assert forall|k: nat| k < 12 implies (#[trigger] error_candidate(b, k)).saturation
        == b.primary.saturation by {
        lemma_candidate_saturation(b, k);
    }
}

/// Every candidate of the error-color search keeps the seed's saturation,
/// which is the primary saturation.
proof fn lemma_candidate_saturation(b: ColorSchemeBuilder, k: nat)
    ensures
        error_candidate(b, k).saturation == b.primary.saturation,
    decreases k,
{
    if k > 0 {
        lemma_candidate_saturation(b, (k - 1) as nat);
    }
}

/// Evaluates hue normalization over one turn on either side of zero:
/// angles already in the canonical interval pass through, and angles up
/// to half a turn outside it move back by one full turn.
proof fn lemma_norm_eval(x: int)
    requires
        -(TURN as int) < x <= TURN as int,
    ensures
        (-HALF_TURN < x <= HALF_TURN) ==> norm_hue(x) == x,
        x > HALF_TURN ==> norm_hue(x) == x - TURN,
        x <= -HALF_TURN ==> norm_hue(x) == x + TURN,
{
    let t = TURN as int;
    if x == t {
        vstd::arithmetic::div_mod::lemma_fundamental_div_mod_converse(x, t, 1, 0);
    } else if x >= 0 {
        vstd::arithmetic::div_mod::lemma_fundamental_div_mod_converse(x, t, 0, x);
    } else {
        vstd::arithmetic::div_mod::lemma_fundamental_div_mod_converse(x, t, -1, x + t);
    }
}

/// An arc of at least a fifth of half a turn clears the contrast floor,
/// whatever the two saturations are.
proof fn lemma_contrast_floor_from_arc(x: ColorSource, c: ColorSource)
    requires
        x.wf(),
        c.wf(),
        hue_arc_md(x.hue, c.hue) >= 36000,
    ensures
        source_contrast_bp(x, c) >= ERROR_CONTRAST_FLOOR,
{
    let arc = hue_arc_md(x.hue, c.hue);
    vstd::arithmetic::div_mod::lemma_div_is_ordered(36000, arc, 18);
    let hd = hue_delta_bp(x.hue, c.hue);
    let sd = saturation_delta_bp(x, c);
    vstd::arithmetic::div_mod::lemma_div_is_ordered(2000, sd + hd, 2);
}

/// Under the default hue shift, with the secondary and tertiary colors
/// left to be generated, the error-color search succeeds for every
/// primary color: the twelve candidate hues tile the circle thirty
/// degrees apart, so one of them lies within fifteen degrees of the point
/// opposite the primary hue — at least a third of a turn away from all
/// three accent hues, which clears the contrast floor whatever the
/// saturations are.
pub proof fn lemma_default_hue_walk_succeeds(b: ColorSchemeBuilder)
    requires
        b.wf(),
        b.secondary is None,
        b.tertiary is None,
        b.hue_shift.md == DEFAULT_HUE_SHIFT,
    ensures
        error_search_succeeds(b),
{
    lemma_default_candidate_hues(b);
    let h = b.primary.hue.md as int;
    let secondary = secondary_spec(b);
    let tertiary = tertiary_spec(b, secondary);
    lemma_norm_eval(h + 30000);
    lemma_norm_eval(h - 30000);
    assert(secondary.hue.md == norm_hue(h + 30000) as i64);
    lemma_norm_eval(secondary.hue.md - h);
    assert(offset_sign(b, secondary.hue) == 1);
    assert(tertiary.hue.md == norm_hue(h - 30000) as i64);

    // The candidate nearest the point opposite the primary hue, bucket by
    // bucket around the circle.
    let k: nat = if h <= -150000 {
        0nat
    } else if h <= -120000 {
        11nat
    } else if h <= -90000 {
        10nat
    } else if h <= -60000 {
        9nat
    } else if h <= -30000 {
        8nat
    } else if h <= 0 {
        7nat
    } else if h <= 30000 {
        6nat
    } else if h <= 60000 {
        5nat
    } else if h <= 90000 {
        4nat
    } else if h <= 120000 {
        3nat
    } else if h <= 150000 {
        2nat
    } else {
        1nat
    };
    let c = error_candidate(b, k);
    assert(hue_arc_md(b.primary.hue, c.hue) >= 150000);
    assert(hue_arc_md(secondary.hue, c.hue) >= 120000);
    assert(hue_arc_md(tertiary.hue, c.hue) >= 120000);
    assert(c.wf());
    lemma_contrast_floor_from_arc(b.primary, c);
    lemma_contrast_floor_from_arc(secondary, c);
    lemma_contrast_floor_from_arc(tertiary, c);
    assert(error_acceptable(b, secondary, tertiary, error_candidate(b, k)));
}

/// The neutral color generated for a builder: the primary hue, nearly
/// fully desaturated.
pub open spec fn neutral_spec(b: ColorSchemeBuilder) -> ColorSource {
    ColorSource { hue: b.primary.hue, saturation: ZeroToOne(100) }
}

/// The neutral variant generated for a builder: the primary hue at a tenth
/// of the primary saturation.
pub open spec fn neutral_variant_spec(b: ColorSchemeBuilder) -> ColorSource {
    ColorSource { hue: b.primary.hue, saturation: ZeroToOne((b.primary.saturation.0 / 10) as i64) }
}

/// How a built scheme relates to its builder: every given source is taken
/// as is, and every missing one is generated.
pub open spec fn build_result(b: ColorSchemeBuilder, r: ColorScheme) -> bool {
    let secondary = match b.secondary {
        Some(s) => s,
        None => secondary_spec(b),
    };
    let tertiary = match b.tertiary {
        Some(t) => t,
        None => tertiary_spec(b, secondary),
    };
    &&& r.primary == b.primary
    &&& r.secondary == secondary
    &&& r.tertiary == tertiary
    &&& match b.error {
        Some(e) => r.error == e,
        None => generated_error(b, secondary, tertiary, r.error),
    }
    &&& r.neutral == match b.neutral {
        Some(n) => n,
        None => neutral_spec(b),
    }
    &&& r.neutral_variant == match b.neutral_variant {
        Some(n) => n,
        None => neutral_variant_spec(b),
    }
}

impl ColorSchemeBuilder {
    /// A builder is well formed when every source it holds is.
    pub open spec fn wf(self) -> bool {
        &&& self.primary.wf()
        &&& self.hue_shift.wf()
        &&& (self.secondary matches Some(s) ==> s.wf())
        &&& (self.tertiary matches Some(t) ==> t.wf())
        &&& (self.error matches Some(e) ==> e.wf())
        &&& (self.neutral matches Some(n) ==> n.wf())
        &&& (self.neutral_variant matches Some(n) ==> n.wf())
    }

    /// Returns a builder for the provided primary color, at a saturation
    /// of eight tenths when the prototype does not carry one.
    pub fn new<P: ProtoColor>(primary: P) -> (r: ColorSchemeBuilder)
        requires
            primary.proto_wf(),
        ensures
            r == builder_for(primary),
            r.wf(),
    {
        ColorSchemeBuilder {
            primary: primary.into_source(ZeroToOne(8000)),
            secondary: None,
            tertiary: None,
            error: None,
            neutral: None,
            neutral_variant: None,
            hue_shift: Hue { md: DEFAULT_HUE_SHIFT },
        }
    }

    fn generate_secondary(&self) -> (r: ColorSource)
        requires
            self.wf(),
        ensures
            r == secondary_spec(*self),
            r.wf(),
    {
        ColorSource {
            hue: self.primary.hue.plus(self.hue_shift),
            saturation: self.primary.saturation.div_int(2),
        }
    }

    fn generate_tertiary(&self, secondary: ColorSource) -> (r: ColorSource)
        requires
            self.wf(),
            secondary.wf(),
        ensures
            r == tertiary_spec(*self, secondary),
            r.wf(),
    {
        let offset = secondary.hue.minus(self.primary.hue);
        let shift = if offset.md >= 0 {
            self.hue_shift.md
        } else {
            -self.hue_shift.md
        };
        ColorSource {
            hue: Hue::new(self.primary.hue.md - shift),
            saturation: self.primary.saturation.div_int(3),
        }
    }

    fn generate_error(&self, secondary: ColorSource, tertiary: ColorSource) -> (r: ColorSource)
        requires
            self.wf(),
            secondary.wf(),
            tertiary.wf(),
            exists|k: nat| error_acceptable(*self, secondary, tertiary, error_candidate(*self, k)),
        ensures
            generated_error(*self, secondary, tertiary, r),
            r.wf(),
    {
        let mut error = ColorSource::new(Hue { md: ERROR_SEED_HUE }, self.primary.saturation);
        let ghost mut steps: nat = 0;
        let ghost witness: nat = choose|k: nat|
            error_acceptable(*self, secondary, tertiary, error_candidate(*self, k));
        loop
            invariant
                self.wf(),
                secondary.wf(),
                tertiary.wf(),
                error.wf(),
                error == error_candidate(*self, steps),
                error_acceptable(*self, secondary, tertiary, error_candidate(*self, witness)),
                steps <= witness,
                forall|j: nat|
                    j < steps ==> !error_acceptable(
                        *self,
                        secondary,
                        tertiary,
                        error_candidate(*self, j),
                    ),
            ensures
                error_acceptable(*self, secondary, tertiary, error),
                error == error_candidate(*self, steps),
                forall|j: nat|
                    j < steps ==> !error_acceptable(
                        *self,
                        secondary,
                        tertiary,
                        error_candidate(*self, j),
                    ),
            decreases witness - steps,
        {
            let vs_primary = self.primary.contrast_between(error);
            let vs_secondary = secondary.contrast_between(error);
            let vs_tertiary = tertiary.contrast_between(error);
            if vs_primary.0 >= ERROR_CONTRAST_FLOOR && vs_secondary.0 >= ERROR_CONTRAST_FLOOR
                && vs_tertiary.0 >= ERROR_CONTRAST_FLOOR {
                break ;
            }
            error = ColorSource { hue: error.hue.minus(self.hue_shift), saturation: error.saturation };
            proof {
                steps = steps + 1;
            }
        }
        error
    }

    fn generate_neutral(&self) -> (r: ColorSource)
        requires
            self.wf(),
        ensures
            r == neutral_spec(*self),
            r.wf(),
    {
        ColorSource { hue: self.primary.hue, saturation: ZeroToOne::new(100) }
    }

    fn generate_neutral_variant(&self) -> (r: ColorSource)
        requires
            self.wf(),
        ensures
            r == neutral_variant_spec(*self),
            r.wf(),
    {
        ColorSource { hue: self.primary.hue, saturation: self.primary.saturation.div_int(10) }
    }

    /// Sets the secondary color and returns self.
    ///
    /// If `secondary` doesn't specify a saturation, a saturation that is
    /// half of the primary saturation will be picked.
    pub fn secondary<P: ProtoColor>(self, secondary: P) -> (r: ColorSchemeBuilder)
        requires
            self.wf(),
            secondary.proto_wf(),
        ensures
            r == (ColorSchemeBuilder {
                secondary: Some(
                    secondary.into_source_spec(ZeroToOne((self.primary.saturation.0 / 2) as i64)),
                ),
                ..self
            }),
            r.wf(),
    {
        let fallback = self.primary.saturation.div_int(2);
        ColorSchemeBuilder { secondary: Some(secondary.into_source(fallback)), ..self }
    }

    /// Sets the tertiary color and returns self.
    ///
    /// If `tertiary` doesn't specify a saturation, a saturation that is a
    /// third of the primary saturation will be picked.
    pub fn tertiary<P: ProtoColor>(self, tertiary: P) -> (r: ColorSchemeBuilder)
        requires
            self.wf(),
            tertiary.proto_wf(),
        ensures
            r == (ColorSchemeBuilder {
                tertiary: Some(tertiary.into_source_spec(ZeroToOne((self.primary.saturation.0 / 3) as i64))),
                ..self
            }),
            r.wf(),
    {
        let fallback = self.primary.saturation.div_int(3);
        ColorSchemeBuilder { tertiary: Some(tertiary.into_source(fallback)), ..self }
    }

    /// Sets the neutral color and returns self.
    ///
    /// If `neutral` doesn't specify a saturation, a saturation of one
    /// percent will be picked.
    pub fn neutral<P: ProtoColor>(self, neutral: P) -> (r: ColorSchemeBuilder)
        requires
            self.wf(),
            neutral.proto_wf(),
        ensures
            r == (ColorSchemeBuilder {
                neutral: Some(neutral.into_source_spec(ZeroToOne(100))),
                ..self
            }),
            r.wf(),
    {
        ColorSchemeBuilder { neutral: Some(neutral.into_source(ZeroToOne::new(100))), ..self }
    }

    /// Sets the neutral variant color and returns self.
    ///
    /// If `neutral_variant` doesn't specify a saturation, a saturation
    /// that is a tenth of the primary saturation will be picked.
    pub fn neutral_variant<P: ProtoColor>(self, neutral_variant: P) -> (r: ColorSchemeBuilder)
        requires
            self.wf(),
            neutral_variant.proto_wf(),
        ensures
            r == (ColorSchemeBuilder {
                neutral_variant: Some(
                    neutral_variant.into_source_spec(ZeroToOne((self.primary.saturation.0 / 10) as i64)),
                ),
                ..self
            }),
            r.wf(),
    {
        let fallback = self.primary.saturation.div_int(10);
        ColorSchemeBuilder { neutral_variant: Some(neutral_variant.into_source(fallback)), ..self }
    }

    /// Sets the amount the hue component is shifted when auto-generating
    /// colors to fill in the palette.
    ///
    /// The default hue shift is thirty degrees.
    pub fn hue_shift(self, hue_shift: Hue) -> (r: ColorSchemeBuilder)
        requires
            self.wf(),
            hue_shift.wf(),
        ensures
            r == (ColorSchemeBuilder { hue_shift, ..self }),
            r.wf(),
    {
        ColorSchemeBuilder { hue_shift, ..self }
    }

    /// Builds a color scheme from the provided colors, generating any
    /// unspecified colors.
    ///
    /// Where no error color was provided, the hue walk that generates one
    /// must be able to reach an acceptable hue; a configuration whose walk
    /// can never succeed would otherwise search forever.
    pub fn build(self) -> (r: ColorScheme)
        requires
            self.wf(),
            self.error is None ==> error_search_succeeds(self),
        ensures
            build_result(self, r),
            r.wf(),
    {
        let secondary = match self.secondary {
            Some(s) => s,
            None => self.generate_secondary(),
        };
        let tertiary = match self.tertiary {
            Some(t) => t,
            None => self.generate_tertiary(secondary),
        };
        let error = match self.error {
            Some(e) => e,
            None => self.generate_error(secondary, tertiary),
        };
        let neutral = match self.neutral {
            Some(n) => n,
            None => self.generate_neutral(),
        };
        let neutral_variant = match self.neutral_variant {
            Some(n) => n,
            None => self.generate_neutral_variant(),
        };
        ColorScheme { primary: self.primary, secondary, tertiary, error, neutral, neutral_variant }
    }
}

/// Every scheme a builder yields for a missing error color meets the
/// contrast floor against each of the three accent colors it was checked
/// against.
pub proof fn lemma_generated_error_contrast(b: ColorSchemeBuilder, r: ColorScheme)
    requires
        b.wf(),
        b.error is None,
        build_result(b, r),
    ensures
        source_contrast_bp(r.primary, r.error) >= ERROR_CONTRAST_FLOOR,
        source_contrast_bp(r.secondary, r.error) >= ERROR_CONTRAST_FLOOR,
        source_contrast_bp(r.tertiary, r.error) >= ERROR_CONTRAST_FLOOR,
{
}

} // verus!
