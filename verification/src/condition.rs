//! Condition descriptions, sorted into the colour categories of a report.
use vstd::prelude::*;
use vstd::string::*;
use crate::text::str_eq;

verus! {

/// The colour category of a condition description.
#[derive(Clone, Copy, Debug, PartialEq, Eq, Structural)]
pub enum ConditionColorCategory {
    Clear,
    Cloudy,
    Obscured,
    Precipitating,
    /// A description that the tool does not know.
    Unknown,
}

/// The descriptions of a clear sky.
pub open spec fn clear_conditions() -> Set<Seq<char>> {
    set!["clear sky"@]
}

/// The descriptions of a sky with clouds and gaps.
pub open spec fn cloudy_conditions() -> Set<Seq<char>> {
    set!["few clouds"@, "scattered clouds"@, "broken clouds"@]
}

/// The descriptions of a sky that is covered or hazed.
pub open spec fn obscured_conditions() -> Set<Seq<char>> {
    set![
        "overcast clouds"@,
        "mist"@,
        "haze"@,
        "smoke"@,
        "sand"@,
        "dust"@,
        "fog"@,
        "squalls"@,
    ]
}

/// The descriptions of rain, storm and snow.
pub open spec fn precipitating_conditions() -> Set<Seq<char>> {
    set!["shower rain"@, "rain"@, "thunderstorm"@, "snow"@]
}

/// The category of a description: that of the set which holds exactly this
/// text, letter for letter, and `Unknown` where none does.
pub open spec fn condition_color_category_of(description: Seq<char>) -> ConditionColorCategory {
    if clear_conditions().contains(description) {
        ConditionColorCategory::Clear
    } else if cloudy_conditions().contains(description) {
        ConditionColorCategory::Cloudy
    } else if obscured_conditions().contains(description) {
        ConditionColorCategory::Obscured
    } else if precipitating_conditions().contains(description) {
        ConditionColorCategory::Precipitating
    } else {
        ConditionColorCategory::Unknown
    }
}

/// The four sets share no description, so a description's category is the
/// one set that holds it, and `Unknown` exactly where none does.
pub proof fn lemma_category_by_membership(description: Seq<char>)
    ensures
        condition_color_category_of(description) == ConditionColorCategory::Clear
            <==> clear_conditions().contains(description),
        condition_color_category_of(description) == ConditionColorCategory::Cloudy
            <==> cloudy_conditions().contains(description),
        condition_color_category_of(description) == ConditionColorCategory::Obscured
            <==> obscured_conditions().contains(description),
        condition_color_category_of(description) == ConditionColorCategory::Precipitating
            <==> precipitating_conditions().contains(description),
        condition_color_category_of(description) == ConditionColorCategory::Unknown <==> !(
            clear_conditions().contains(description)
            || cloudy_conditions().contains(description)
            || obscured_conditions().contains(description)
            || precipitating_conditions().contains(description)),
{
    reveal_strlit("clear sky");
    reveal_strlit("few clouds");
    reveal_strlit("scattered clouds");
    reveal_strlit("broken clouds");
    reveal_strlit("overcast clouds");
    reveal_strlit("mist");
    reveal_strlit("haze");
    reveal_strlit("smoke");
    reveal_strlit("sand");
    reveal_strlit("dust");
    reveal_strlit("fog");
    reveal_strlit("squalls");
    reveal_strlit("shower rain");
    reveal_strlit("rain");
    reveal_strlit("thunderstorm");
    reveal_strlit("snow");
    assert("clear sky"@.len() == 9);
    assert("few clouds"@.len() == 10 && "scattered clouds"@.len() == 16 && "broken clouds"@.len()
        == 13);
    assert("overcast clouds"@.len() == 15 && "smoke"@.len() == 5 && "fog"@.len() == 3
        && "squalls"@.len() == 7);
    assert("mist"@.len() == 4 && "haze"@.len() == 4 && "sand"@.len() == 4 && "dust"@.len() == 4);
    assert("shower rain"@.len() == 11 && "thunderstorm"@.len() == 12);
    assert("rain"@.len() == 4 && "snow"@.len() == 4);
    // the descriptions of four letters differ in their first two
    assert("mist"@[0] == 'm' && "haze"@[0] == 'h' && "dust"@[0] == 'd' && "rain"@[0] == 'r');
    assert("sand"@[1] == 'a' && "snow"@[1] == 'n');
}

/// Sorts a condition description into its colour category. The match is
/// exact: a description that only contains a known one is `Unknown`.
pub fn get_condition_color_category(description: &str) -> (category: ConditionColorCategory)
    ensures
        category == condition_color_category_of(description@),
{
    if str_eq(description, "clear sky") {
        ConditionColorCategory::Clear
    } else if str_eq(description, "few clouds") || str_eq(description, "scattered clouds") || str_eq(
        description,
        "broken clouds",
    ) {
        ConditionColorCategory::Cloudy
    } else if str_eq(description, "overcast clouds") || str_eq(description, "mist") || str_eq(
        description,
        "haze",
    ) || str_eq(description, "smoke") || str_eq(description, "sand") || str_eq(description, "dust")
        || str_eq(description, "fog") || str_eq(description, "squalls") {
        ConditionColorCategory::Obscured
    } else if str_eq(description, "shower rain") || str_eq(description, "rain") || str_eq(
        description,
        "thunderstorm",
    ) || str_eq(description, "snow") {
        ConditionColorCategory::Precipitating
    } else {
        ConditionColorCategory::Unknown
    }
}

} // verus!
