//! Temperatures, sorted into five bands, each with its glyph.
use vstd::prelude::*;
use vstd::string::*;
use vstd::arithmetic::power2::{pow2, lemma_pow2_adds, lemma_pow2_pos, lemma2_to64, lemma2_to64_rest};
use crate::reading::{Reading, SIGN_BIT, INFINITY_BITS, UNIT_EXPONENT, lemma_compare_with_whole, lemma_magnitude_zero};

verus! {

/// How warm it is, in five bands of degrees Celsius.
#[derive(Clone, Copy, Debug, PartialEq, Eq, Structural)]
pub enum TemperatureCategory {
    /// Below 0.
    Freezing,
    /// From 0 up to, not including, 10.
    Cold,
    /// From 10 up to, not including, 20.
    Mild,
    /// From 20 up to, not including, 30.
    Warm,
    /// 30 and above.
    Hot,
}

/// A snowflake.
pub const FREEZING_GLYPH: &'static str = "❄️";

/// A cloud.
pub const COLD_GLYPH: &'static str = "☁️";

/// The sun behind a cloud.
pub const MILD_GLYPH: &'static str = "⛅";

/// The sun behind a small cloud.
pub const WARM_GLYPH: &'static str = "🌤️";

/// A flame.
pub const HOT_GLYPH: &'static str = "🔥";

/// The pattern of 10.0.
pub const TEN_BITS: u64 = 0x4024_0000_0000_0000;

/// The pattern of 20.0.
pub const TWENTY_BITS: u64 = 0x4034_0000_0000_0000;

/// The pattern of 30.0.
pub const THIRTY_BITS: u64 = 0x403E_0000_0000_0000;

/// The band that a temperature falls in. Each band includes its lower bound.
/// A NaN is below no bound, and so lands in the last band.
pub open spec fn temperature_category_of(celsius: Reading) -> TemperatureCategory {
    if celsius.is_below(0) {
        TemperatureCategory::Freezing
    } else if celsius.is_below(10) {
        TemperatureCategory::Cold
    } else if celsius.is_below(20) {
        TemperatureCategory::Mild
    } else if celsius.is_below(30) {
        TemperatureCategory::Warm
    } else {
        TemperatureCategory::Hot
    }
}

impl TemperatureCategory {
    /// The glyph that stands for a band.
    pub open spec fn glyph_of(self) -> Seq<char> {
        match self {
            TemperatureCategory::Freezing => FREEZING_GLYPH@,
            TemperatureCategory::Cold => COLD_GLYPH@,
            TemperatureCategory::Mild => MILD_GLYPH@,
            TemperatureCategory::Warm => WARM_GLYPH@,
            TemperatureCategory::Hot => HOT_GLYPH@,
        }
    }

    /// The glyph that stands for a band.
    pub fn glyph(self) -> (glyph: &'static str)
        ensures
            glyph@ == self.glyph_of(),
    {
        match self {
            TemperatureCategory::Freezing => FREEZING_GLYPH,
            TemperatureCategory::Cold => COLD_GLYPH,
            TemperatureCategory::Mild => MILD_GLYPH,
            TemperatureCategory::Warm => WARM_GLYPH,
            TemperatureCategory::Hot => HOT_GLYPH,
        }
    }
}

/// No two bands share a glyph.
pub proof fn lemma_glyphs_distinct(a: TemperatureCategory, b: TemperatureCategory)
    requires
        a.glyph_of() == b.glyph_of(),
    ensures
        a == b,
{
    reveal_strlit("❄️");
    reveal_strlit("☁️");
    reveal_strlit("⛅");
    reveal_strlit("🌤️");
    reveal_strlit("🔥");
    assert(FREEZING_GLYPH@[0] == '\u{2744}');
    assert(COLD_GLYPH@[0] == '\u{2601}');
    assert(MILD_GLYPH@[0] == '\u{26c5}');
    assert(WARM_GLYPH@[0] == '\u{1f324}');
    assert(HOT_GLYPH@[0] == '\u{1f525}');
}

/// The three band limits above zero have the values 10, 20 and 30.
pub proof fn lemma_band_limits()
    ensures
        (Reading { bits: TEN_BITS }).magnitude() == 10 * pow2(UNIT_EXPONENT as nat),
        (Reading { bits: TWENTY_BITS }).magnitude() == 20 * pow2(UNIT_EXPONENT as nat),
        (Reading { bits: THIRTY_BITS }).magnitude() == 30 * pow2(UNIT_EXPONENT as nat),
{
    lemma2_to64();
    lemma2_to64_rest();
    let ten = Reading { bits: TEN_BITS };
    let twenty = Reading { bits: TWENTY_BITS };
    let thirty = Reading { bits: THIRTY_BITS };
    assert(ten.exponent_field() == 1026 && ten.fraction_field() == 0x4_0000_0000_0000);
    assert(twenty.exponent_field() == 1027 && twenty.fraction_field() == 0x4_0000_0000_0000);
    assert(thirty.exponent_field() == 1027 && thirty.fraction_field() == 0xE_0000_0000_0000);
    let low = pow2(1025) as int;
    let high = pow2(1026) as int;
    lemma_pow2_adds(49, 1025);
    lemma_pow2_adds(48, 1026);
    assert(pow2(1074) == pow2(49) * pow2(1025));
    assert(pow2(1074) == pow2(48) * pow2(1026));
    assert(0x14_0000_0000_0000 * low == 10 * (0x2_0000_0000_0000 * low)) by (nonlinear_arith);
    assert(0x14_0000_0000_0000 * high == 20 * (0x1_0000_0000_0000 * high)) by (nonlinear_arith);
    assert(0x1E_0000_0000_0000 * high == 30 * (0x1_0000_0000_0000 * high)) by (nonlinear_arith);
}

/// Every temperature that is a number lies in exactly one band, the one
/// between whose limits it lies; the lower limit belongs to the band.
pub proof fn lemma_bands(celsius: Reading)
    requires
        !celsius.is_nan(),
    ensures
        temperature_category_of(celsius) == TemperatureCategory::Freezing <==> celsius.is_below(0),
        temperature_category_of(celsius) == TemperatureCategory::Cold <==> celsius.is_at_least(0)
            && celsius.is_below(10),
        temperature_category_of(celsius) == TemperatureCategory::Mild <==> celsius.is_at_least(10)
            && celsius.is_below(20),
        temperature_category_of(celsius) == TemperatureCategory::Warm <==> celsius.is_at_least(20)
            && celsius.is_below(30),
        temperature_category_of(celsius) == TemperatureCategory::Hot <==> celsius.is_at_least(30),
{
    lemma_pow2_pos(UNIT_EXPONENT as nat);
    let unit = pow2(UNIT_EXPONENT as nat) as int;
    assert(0 * unit < 10 * unit < 20 * unit < 30 * unit) by (nonlinear_arith)
        requires
            unit > 0,
    ;
}

/// Sorts a temperature in degrees Celsius into its band.
pub fn get_temperature_category(celsius: Reading) -> (category: TemperatureCategory)
    ensures
        category == temperature_category_of(celsius),
{
    let bits = celsius.bits;
    proof {
        lemma_band_limits();
        lemma_pow2_pos(UNIT_EXPONENT as nat);
        let unit = pow2(UNIT_EXPONENT as nat) as int;
        assert(0 * unit == 0 && 10 * unit > 0 && 20 * unit > 0 && 30 * unit > 0) by (nonlinear_arith)
            requires
                unit > 0,
        ;
        if bits < SIGN_BIT {
            assert((Reading { bits: 0 }).magnitude() == 0) by {
                lemma_magnitude_zero(Reading { bits: 0 });
            }
            lemma_compare_with_whole(celsius, Reading { bits: 0 }, 0);
            lemma_compare_with_whole(celsius, Reading { bits: TEN_BITS }, 10);
            lemma_compare_with_whole(celsius, Reading { bits: TWENTY_BITS }, 20);
            lemma_compare_with_whole(celsius, Reading { bits: THIRTY_BITS }, 30);
        } else if !celsius.is_nan() {
            lemma_magnitude_zero(celsius);
        }
    }
    if bits >= SIGN_BIT {
        let magnitude_bits = bits - SIGN_BIT;
        if magnitude_bits == 0 {
            TemperatureCategory::Cold
        } else if magnitude_bits <= INFINITY_BITS {
            TemperatureCategory::Freezing
        } else {
            TemperatureCategory::Hot
        }
    } else if bits < TEN_BITS {
        TemperatureCategory::Cold
    } else if bits < TWENTY_BITS {
        TemperatureCategory::Mild
    } else if bits < THIRTY_BITS {
        TemperatureCategory::Warm
    } else {
        TemperatureCategory::Hot
    }
}

/// The glyph for a temperature in degrees Celsius.
pub fn get_temperature_emoji(celsius: Reading) -> (glyph: &'static str)
    ensures
        glyph@ == temperature_category_of(celsius).glyph_of(),
{
    get_temperature_category(celsius).glyph()
}

} // verus!
