use chrono::NaiveDate;
use weather::advisory::{SeasonalAdvisory, MAY_ADVICE, SUMMER_ADVICE, WINTER_ADVICE};
use weather::present::TextStyle;
use weather::session::{
    Action, Event, Notice, Session, Stage, ANOTHER_PROMPT, API_KEY_PROMPT, CITY_PROMPT,
    COUNTRY_PROMPT, FAREWELL, WELCOME,
};

fn line(s: &str) -> Event {
    Event::Line(s.to_string())
}

fn show(text: &'static str, style: TextStyle) -> Action {
    Action::Show(Notice { text, style })
}

fn ask(text: &'static str) -> Action {
    Action::Ask(Notice { text, style: TextStyle::BrightGreen })
}

fn lookup(city: &str, country: &str, key: &str) -> Action {
    Action::Lookup(format!(
        "http://api.openweathermap.org/data/2.5/weather?q={},{}&units=metric&appid={}",
        city, country, key
    ))
}

/// Runs a sitting to its end, answering the questions from `answers` in turn,
/// and returns every action that was handed out.
fn run(mut session: Session, answers: &[&str]) -> Vec<Action> {
    let mut answers = answers.iter();
    let mut actions = vec![session.pending()];
    for _ in 0..1000 {
        let event = match actions.last().unwrap() {
            Action::Show(_) => Event::Shown,
            Action::Ask(_) => line(answers.next().expect("the sitting asked more than was answered")),
            Action::Lookup(_) => Event::LookedUp,
            Action::Finish => {
                assert!(answers.next().is_none(), "an answer was never asked for");
                return actions;
            }
        };
        actions.push(session.advance(event));
    }
    panic!("the sitting did not end");
}

fn lookups(actions: &[Action]) -> usize {
    actions.iter().filter(|action| matches!(action, Action::Lookup(_))).count()
}

#[test]
fn a_single_lookup_from_welcome_to_farewell() {
    let actions = run(Session::begin_in_month(false, 7), &["Austin", "US", "abc123"]);
    assert_eq!(
        actions,
        vec![
            show(WELCOME, TextStyle::BrightYellow),
            ask(CITY_PROMPT),
            ask(COUNTRY_PROMPT),
            ask(API_KEY_PROMPT),
            show(SUMMER_ADVICE, TextStyle::Plain),
            lookup("Austin", "US", "abc123"),
            show(FAREWELL, TextStyle::BrightBlue),
            Action::Finish,
        ]
    );
}

#[test]
fn the_key_no_skips_the_lookup() {
    let actions = run(Session::begin_in_month(false, 1), &["Austin", "US", "no"]);
    assert_eq!(lookups(&actions), 0);
    assert_eq!(
        actions,
        vec![
            show(WELCOME, TextStyle::BrightYellow),
            ask(CITY_PROMPT),
            ask(COUNTRY_PROMPT),
            ask(API_KEY_PROMPT),
            show(WINTER_ADVICE, TextStyle::Plain),
            show(FAREWELL, TextStyle::BrightBlue),
            Action::Finish,
        ]
    );
}

#[test]
fn only_the_exact_key_no_skips_the_lookup() {
    for key in ["No", "NO", "no ", "n", "none", ""] {
        let actions = run(Session::begin_in_month(false, 1), &["Austin", "US", key]);
        assert_eq!(lookups(&actions), 1, "key {:?}", key);
        assert!(actions.contains(&lookup("Austin", "US", key)));
    }
}

#[test]
fn yes_then_no_makes_two_lookups() {
    let actions = run(
        Session::begin_in_month(true, 5),
        &["Austin", "US", "abc123", "yes", "Boston", "US", "no"],
    );
    assert_eq!(lookups(&actions), 2);
    assert_eq!(
        actions,
        vec![
            show(WELCOME, TextStyle::BrightYellow),
            ask(CITY_PROMPT),
            ask(COUNTRY_PROMPT),
            ask(API_KEY_PROMPT),
            show(MAY_ADVICE, TextStyle::Plain),
            lookup("Austin", "US", "abc123"),
            ask(ANOTHER_PROMPT),
            ask(CITY_PROMPT),
            ask(COUNTRY_PROMPT),
            lookup("Boston", "US", "abc123"),
            ask(ANOTHER_PROMPT),
            show(FAREWELL, TextStyle::BrightBlue),
            Action::Finish,
        ]
    );
}

#[test]
fn yes_is_taken_in_any_case_and_nothing_else_is() {
    for answer in ["yes", "YES", "Yes", "yEs"] {
        let actions = run(
            Session::begin_in_month(true, 5),
            &["Austin", "US", "k", answer, "Boston", "US", "no"],
        );
        assert_eq!(lookups(&actions), 2, "answer {:?}", answer);
    }
    for answer in ["no", "y", "", "yes please", "oui", " yes"] {
        let actions = run(Session::begin_in_month(true, 5), &["Austin", "US", "k", answer]);
        assert_eq!(lookups(&actions), 1, "answer {:?}", answer);
        assert_eq!(actions[actions.len() - 2], show(FAREWELL, TextStyle::BrightBlue));
    }
}

#[test]
fn a_continuous_sitting_without_key_never_looks_up() {
    let actions = run(
        Session::begin_in_month(true, 5),
        &["Austin", "US", "no", "yes", "Boston", "US", "yes", "Chicago", "US", "no"],
    );
    assert_eq!(lookups(&actions), 0);
    assert_eq!(actions.iter().filter(|a| **a == ask(API_KEY_PROMPT)).count(), 1);
    assert_eq!(actions.iter().filter(|a| **a == ask(CITY_PROMPT)).count(), 3);
}

#[test]
fn key_and_advisory_come_once_in_a_continuous_sitting() {
    let actions = run(
        Session::begin_in_month(true, 5),
        &["A", "US", "k", "yes", "B", "US", "yes", "C", "US", "no"],
    );
    assert_eq!(lookups(&actions), 3);
    assert_eq!(actions.iter().filter(|a| **a == ask(API_KEY_PROMPT)).count(), 1);
    assert_eq!(actions.iter().filter(|a| **a == show(MAY_ADVICE, TextStyle::Plain)).count(), 1);
    assert_eq!(actions.iter().filter(|a| **a == show(WELCOME, TextStyle::BrightYellow)).count(), 1);
}

#[test]
fn a_report_that_was_not_called_for_changes_nothing() {
    let mut session = Session::begin_in_month(false, 5);
    assert_eq!(session.advance(Event::LookedUp), show(WELCOME, TextStyle::BrightYellow));
    assert_eq!(session.advance(line("Austin")), show(WELCOME, TextStyle::BrightYellow));
    assert_eq!(session.stage, Stage::ShowingWelcome);
    assert_eq!(session.city, "");
    assert_eq!(session.advance(Event::Shown), ask(CITY_PROMPT));
    assert_eq!(session.advance(Event::Shown), ask(CITY_PROMPT));
    assert_eq!(session.advance(line("Austin")), ask(COUNTRY_PROMPT));
    assert_eq!(session.city, "Austin");
}

#[test]
fn a_finished_sitting_stays_finished() {
    let mut session = Session::begin_in_month(false, 5);
    for event in [Event::Shown, line("A"), line("US"), line("no"), Event::Shown, Event::Shown] {
        session.advance(event);
    }
    assert_eq!(session.stage, Stage::Finished);
    assert_eq!(session.advance(Event::Shown), Action::Finish);
    assert_eq!(session.advance(line("yes")), Action::Finish);
    assert_eq!(session.advance(Event::LookedUp), Action::Finish);
    assert_eq!(session.pending(), Action::Finish);
}

#[test]
fn how_a_sitting_begins() {
    let session = Session::begin(true, SeasonalAdvisory::Fall);
    assert_eq!(session.stage, Stage::ShowingWelcome);
    assert!(session.continuous);
    assert_eq!(session.advisory, SeasonalAdvisory::Fall);
    assert_eq!(session.city, "");
    assert_eq!(session.country_code, "");
    assert_eq!(session.api_key, None);
    assert!(!session.lookup_enabled());
    assert_eq!(session.pending(), show(WELCOME, TextStyle::BrightYellow));
}

#[test]
fn a_sitting_begun_at_a_date_has_the_advisory_of_its_month() {
    let at = NaiveDate::from_ymd_opt(2024, 5, 15).unwrap().and_hms_opt(21, 45, 59).unwrap();
    let session = Session::begin_at(false, &at);
    assert_eq!(session.advisory, SeasonalAdvisory::MayPeak);
    let actions = run(session, &["Austin", "US", "no"]);
    assert!(actions.contains(&show(MAY_ADVICE, TextStyle::Plain)));
    let at = NaiveDate::from_ymd_opt(2024, 12, 31).unwrap().and_hms_opt(23, 59, 59).unwrap();
    assert_eq!(Session::begin_at(true, &at).advisory, SeasonalAdvisory::Winter);
}

#[test]
fn whether_the_lookup_is_enabled() {
    let mut session = Session::begin_in_month(false, 5);
    session.api_key = Some("no".to_string());
    assert!(!session.lookup_enabled());
    session.api_key = Some("abc123".to_string());
    assert!(session.lookup_enabled());
    session.api_key = Some("".to_string());
    assert!(session.lookup_enabled());
}
