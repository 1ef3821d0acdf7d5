use weather::text::{answers_yes, str_eq};

#[test]
fn equal_texts() {
    assert!(str_eq("", ""));
    assert!(str_eq("no", "no"));
    assert!(str_eq("°C 🌤️", "°C 🌤️"));
}

#[test]
fn unequal_texts() {
    assert!(!str_eq("no", "No"));
    assert!(!str_eq("no", "no "));
    assert!(!str_eq("no", ""));
    assert!(!str_eq("", "no"));
    assert!(!str_eq("mist", "must"));
    assert!(!str_eq("é", "e"));
}

#[test]
fn yes_in_any_case() {
    for answer in ["yes", "YES", "Yes", "yEs", "yeS", "YEs", "yES", "YeS"] {
        assert!(answers_yes(answer), "{}", answer);
    }
}

#[test]
fn anything_else_is_not_yes() {
    for answer in ["no", "", "y", "ye", "yess", " yes", "yes ", "yea", "oui", "ÿes", "yés", "ｙes"] {
        assert!(!answers_yes(answer), "{}", answer);
    }
}

#[test]
fn yes_as_the_standard_comparison_has_it() {
    for answer in ["yes", "YES", "no", "", "yés", "Yes\n", "y e s"] {
        assert_eq!(answers_yes(answer), answer.eq_ignore_ascii_case("yes"));
    }
}
