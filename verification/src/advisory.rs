//! The seasonal advisory: which of five pieces of birdwatching advice fits
//! the month.
use vstd::prelude::*;
use vstd::string::*;

verus! {

/// Advice for May, the peak of the birding year.
pub const MAY_ADVICE: &'static str = "Congratulations, it's May, the best month for birding! To further enhance your chances, it is preferrable to get started as close to dawn as possible.";

/// Advice for the winter months.
pub const WINTER_ADVICE: &'static str = "Happy weird duck season! It would be best to get outside at sometime between midday and sunset, since the air takes a few hours to heat up from the sunlight. This is the ideal time to hone in on your bird-listening skills. Birdsong tends to carry through winter air more efficiently than summer air, and more owls tend to call during the winter. If the weather isn't preferrable, it is the season to put feeders out and birdwatch from the comfort of a heated room. If you decide to brave the weather, keep in mind that birds are less deterred by temperature than they are from food scarcity. Therefore, they will most likely be found near food sources, such as conifer stands, open water, edges of fields etc, as well as in mixed species flocks. It is also generally easier to spot birds in deciduous trees and in the snow during this season.";

/// Advice for spring and early summer.
pub const SPRING_ADVICE: &'static str = "It is preferrable to get started as close to dawn as possible. Enjoy the wonderful weather as your fine-feathered friends definitely are enjoying it too!";

/// Advice for high summer.
pub const SUMMER_ADVICE: &'static str = "Summer is a wonderful time to go birdwatching. There is a higher likelihood of spotting more varieties of songbirds than you are used to seeing. To avoid peak summer heat and maximize the amount of bird species you may see, try getting outside earlier in the morning.";

/// Advice for the fall.
pub const FALL_ADVICE: &'static str = "Midday is the best time to spot birds out in the fall. It is also likely that you may spot out-of-the-ordinary species during the fall migration season. It is easier to hear birds further away, but keep in mind that recognizing them when you spot them may be complicated by duller colored non-breeding plumage. If applicable, wear a reflective vest as it may be hunting season where you live.";

/// `chrono::NaiveDateTime`, a date and time of day without a time zone. It
/// is carried through as it is; nothing is known of what it holds.
#[verifier::external_type_specification]
#[verifier::external_body]
pub struct ExNaiveDateTime(chrono::NaiveDateTime);

/// The five advisories.
#[derive(Clone, Copy, Debug, PartialEq, Eq, Structural)]
pub enum SeasonalAdvisory {
    /// May, the best month.
    MayPeak,
    Winter,
    Spring,
    Summer,
    Fall,
}

/// The advisory for a month, by the first rule that applies: May; then
/// December to February; then what is left up to June; then up to September;
/// then the rest.
pub open spec fn seasonal_advisory_of(month: int) -> SeasonalAdvisory {
    if month == 5 {
        SeasonalAdvisory::MayPeak
    } else if month <= 2 || month == 12 {
        SeasonalAdvisory::Winter
    } else if month <= 6 {
        SeasonalAdvisory::Spring
    } else if month <= 9 {
        SeasonalAdvisory::Summer
    } else {
        SeasonalAdvisory::Fall
    }
}

impl SeasonalAdvisory {
    /// The text of an advisory.
    pub open spec fn text_of(self) -> Seq<char> {
        match self {
            SeasonalAdvisory::MayPeak => MAY_ADVICE@,
            SeasonalAdvisory::Winter => WINTER_ADVICE@,
            SeasonalAdvisory::Spring => SPRING_ADVICE@,
            SeasonalAdvisory::Summer => SUMMER_ADVICE@,
            SeasonalAdvisory::Fall => FALL_ADVICE@,
        }
    }

    /// The text of an advisory.
    pub fn text(self) -> (text: &'static str)
        ensures
            text@ == self.text_of(),
    {
        match self {
            SeasonalAdvisory::MayPeak => MAY_ADVICE,
            SeasonalAdvisory::Winter => WINTER_ADVICE,
            SeasonalAdvisory::Spring => SPRING_ADVICE,
            SeasonalAdvisory::Summer => SUMMER_ADVICE,
            SeasonalAdvisory::Fall => FALL_ADVICE,
        }
    }
}

/// Each month of the calendar has its one advisory: May its own, whatever
/// the later rules would say of it; December, January and February the
/// winter one; March, April and June the spring one; July to September the
/// summer one; October and November the fall one.
pub proof fn lemma_advisory_by_month(month: int)
    requires
        1 <= month <= 12,
    ensures
        seasonal_advisory_of(month) == SeasonalAdvisory::MayPeak <==> month == 5,
        seasonal_advisory_of(month) == SeasonalAdvisory::Winter <==> month == 12 || month == 1 || month
            == 2,
        seasonal_advisory_of(month) == SeasonalAdvisory::Spring <==> month == 3 || month == 4 || month
            == 6,
        seasonal_advisory_of(month) == SeasonalAdvisory::Summer <==> month == 7 || month == 8 || month
            == 9,
        seasonal_advisory_of(month) == SeasonalAdvisory::Fall <==> month == 10 || month == 11,
{
}

/// No two advisories share a text.
pub proof fn lemma_advice_texts_distinct(a: SeasonalAdvisory, b: SeasonalAdvisory)
    requires
        a.text_of() == b.text_of(),
    ensures
        a == b,
{
    reveal_strlit("Congratulations, it's May, the best month for birding! To further enhance your chances, it is preferrable to get started as close to dawn as possible.");
    reveal_strlit("Happy weird duck season! It would be best to get outside at sometime between midday and sunset, since the air takes a few hours to heat up from the sunlight. This is the ideal time to hone in on your bird-listening skills. Birdsong tends to carry through winter air more efficiently than summer air, and more owls tend to call during the winter. If the weather isn't preferrable, it is the season to put feeders out and birdwatch from the comfort of a heated room. If you decide to brave the weather, keep in mind that birds are less deterred by temperature than they are from food scarcity. Therefore, they will most likely be found near food sources, such as conifer stands, open water, edges of fields etc, as well as in mixed species flocks. It is also generally easier to spot birds in deciduous trees and in the snow during this season.");
    reveal_strlit("It is preferrable to get started as close to dawn as possible. Enjoy the wonderful weather as your fine-feathered friends definitely are enjoying it too!");
    reveal_strlit("Summer is a wonderful time to go birdwatching. There is a higher likelihood of spotting more varieties of songbirds than you are used to seeing. To avoid peak summer heat and maximize the amount of bird species you may see, try getting outside earlier in the morning.");
    reveal_strlit("Midday is the best time to spot birds out in the fall. It is also likely that you may spot out-of-the-ordinary species during the fall migration season. It is easier to hear birds further away, but keep in mind that recognizing them when you spot them may be complicated by duller colored non-breeding plumage. If applicable, wear a reflective vest as it may be hunting season where you live.");
    assert(MAY_ADVICE@[0] == 'C');
    assert(WINTER_ADVICE@[0] == 'H');
    assert(SPRING_ADVICE@[0] == 'I');
    assert(SUMMER_ADVICE@[0] == 'S');
    assert(FALL_ADVICE@[0] == 'M');
}

/// The advisory for a month, numbered from 1.
pub fn get_seasonal_advisory(month: u32) -> (advisory: SeasonalAdvisory)
    ensures
        advisory == seasonal_advisory_of(month as int),
{
    if month == 5 {
        SeasonalAdvisory::MayPeak
    } else if month <= 2 || month == 12 {
        SeasonalAdvisory::Winter
    } else if month <= 6 {
        SeasonalAdvisory::Spring
    } else if month <= 9 {
        SeasonalAdvisory::Summer
    } else {
        SeasonalAdvisory::Fall
    }
}

/// The advice for a month, numbered from 1.
pub fn seasonal_advice_for_month(month: u32) -> (advice: &'static str)
    ensures
        advice@ == seasonal_advisory_of(month as int).text_of(),
{
    get_seasonal_advisory(month).text()
}

/// The number of the month in which a date and time lies, as
/// `chrono::Datelike::month` gives it. It follows from the date alone.
pub uninterp spec fn month_number(local_time: chrono::NaiveDateTime) -> u32;

/// `chrono::Datelike::month` of a `chrono::NaiveDateTime`. Trusted: the
/// result is the month number of the date, and, as chrono documents it, lies
/// between 1 and 12.
#[verifier::external_body]
fn month_of(local_time: &chrono::NaiveDateTime) -> (month: u32)
    ensures
        month == month_number(*local_time),
        1 <= month <= 12,
{
    chrono::Datelike::month(local_time)
}

/// The advisory at a local date and time: that of the month in which the
/// date lies.
pub fn get_advisory_at(local_time: &chrono::NaiveDateTime) -> (advisory: SeasonalAdvisory)
    ensures
        1 <= month_number(*local_time) <= 12,
        advisory == seasonal_advisory_of(month_number(*local_time) as int),
{
    get_seasonal_advisory(month_of(local_time))
}

/// The advice at a local date and time: that of the month in which the date
/// lies.
pub fn get_seasonal_advice(local_time: &chrono::NaiveDateTime) -> (advice: &'static str)
    ensures
        1 <= month_number(*local_time) <= 12,
        advice@ == seasonal_advisory_of(month_number(*local_time) as int).text_of(),
{
    seasonal_advice_for_month(month_of(local_time))
}

} // verus!
