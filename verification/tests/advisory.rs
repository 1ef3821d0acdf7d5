use chrono::{NaiveDate, NaiveDateTime};
use weather::advisory::{
    get_advisory_at, get_seasonal_advice, get_seasonal_advisory, seasonal_advice_for_month,
    SeasonalAdvisory, FALL_ADVICE, MAY_ADVICE, SPRING_ADVICE, SUMMER_ADVICE, WINTER_ADVICE,
};

fn noon(year: i32, month: u32, day: u32) -> NaiveDateTime {
    NaiveDate::from_ymd_opt(year, month, day).unwrap().and_hms_opt(12, 0, 0).unwrap()
}

#[test]
fn each_month_has_its_advisory() {
    let expected = [
        SeasonalAdvisory::Winter,
        SeasonalAdvisory::Winter,
        SeasonalAdvisory::Spring,
        SeasonalAdvisory::Spring,
        SeasonalAdvisory::MayPeak,
        SeasonalAdvisory::Spring,
        SeasonalAdvisory::Summer,
        SeasonalAdvisory::Summer,
        SeasonalAdvisory::Summer,
        SeasonalAdvisory::Fall,
        SeasonalAdvisory::Fall,
        SeasonalAdvisory::Winter,
    ];
    for month in 1..=12u32 {
        assert_eq!(get_seasonal_advisory(month), expected[(month - 1) as usize], "month {}", month);
    }
}

#[test]
fn may_comes_before_the_rule_for_spring() {
    assert_eq!(get_seasonal_advisory(5), SeasonalAdvisory::MayPeak);
    assert_ne!(get_seasonal_advisory(5), get_seasonal_advisory(4));
    assert_ne!(get_seasonal_advisory(5), get_seasonal_advisory(6));
    assert_eq!(seasonal_advice_for_month(5), MAY_ADVICE);
}

#[test]
fn december_is_winter_though_it_is_the_last_month() {
    assert_eq!(get_seasonal_advisory(12), SeasonalAdvisory::Winter);
    assert_eq!(get_seasonal_advisory(11), SeasonalAdvisory::Fall);
}

#[test]
fn numbers_that_are_no_month() {
    assert_eq!(get_seasonal_advisory(0), SeasonalAdvisory::Winter);
    assert_eq!(get_seasonal_advisory(13), SeasonalAdvisory::Fall);
    assert_eq!(get_seasonal_advisory(u32::MAX), SeasonalAdvisory::Fall);
}

#[test]
fn the_five_texts() {
    assert_eq!(SeasonalAdvisory::MayPeak.text(), MAY_ADVICE);
    assert_eq!(SeasonalAdvisory::Winter.text(), WINTER_ADVICE);
    assert_eq!(SeasonalAdvisory::Spring.text(), SPRING_ADVICE);
    assert_eq!(SeasonalAdvisory::Summer.text(), SUMMER_ADVICE);
    assert_eq!(SeasonalAdvisory::Fall.text(), FALL_ADVICE);
    assert!(MAY_ADVICE.starts_with("Congratulations, it's May, the best month for birding!"));
    assert!(WINTER_ADVICE.starts_with("Happy weird duck season!"));
    assert!(SPRING_ADVICE.starts_with("It is preferrable to get started as close to dawn"));
    assert!(SUMMER_ADVICE.starts_with("Summer is a wonderful time to go birdwatching."));
    assert!(FALL_ADVICE.starts_with("Midday is the best time to spot birds out in the fall."));
    let texts = [MAY_ADVICE, WINTER_ADVICE, SPRING_ADVICE, SUMMER_ADVICE, FALL_ADVICE];
    for i in 0..texts.len() {
        for j in 0..texts.len() {
            assert_eq!(texts[i] == texts[j], i == j);
        }
    }
}

#[test]
fn advice_for_each_month_is_one_of_the_five() {
    let texts = [MAY_ADVICE, WINTER_ADVICE, SPRING_ADVICE, SUMMER_ADVICE, FALL_ADVICE];
    for month in 1..=12u32 {
        let advice = seasonal_advice_for_month(month);
        assert_eq!(texts.iter().filter(|text| **text == advice).count(), 1);
    }
}

#[test]
fn advice_at_a_date_is_that_of_its_month() {
    assert_eq!(get_seasonal_advice(&noon(2024, 5, 15)), MAY_ADVICE);
    assert_eq!(get_seasonal_advice(&noon(2024, 1, 31)), WINTER_ADVICE);
    assert_eq!(get_seasonal_advice(&noon(2023, 12, 1)), WINTER_ADVICE);
    assert_eq!(get_seasonal_advice(&noon(2024, 6, 30)), SPRING_ADVICE);
    assert_eq!(get_seasonal_advice(&noon(2024, 8, 8)), SUMMER_ADVICE);
    assert_eq!(get_seasonal_advice(&noon(2014, 11, 28)), FALL_ADVICE);
}

#[test]
fn advisory_at_a_date_follows_the_month_and_nothing_else() {
    for month in 1..=12u32 {
        for (year, day) in [(1999, 1), (2024, 28), (-44, 15)] {
            let at = noon(year, month, day);
            assert_eq!(get_advisory_at(&at), get_seasonal_advisory(month));
            assert_eq!(get_seasonal_advice(&at), seasonal_advice_for_month(month));
        }
    }
}
