//! The course of one sitting at the terminal, as a machine of states.
//!
//! The machine decides; its caller acts. Each step hands the caller one
//! action to perform: a notice to show, a question to ask, a lookup to make.
//! The caller reports back what happened, and gets the next action.
use vstd::prelude::*;
use vstd::string::*;
use crate::advisory::{SeasonalAdvisory, get_advisory_at, get_seasonal_advisory, month_number, seasonal_advisory_of};
use crate::present::TextStyle;
use crate::request::{request_url_of, weather_request_url};
use crate::text::{answers_yes, is_yes, str_eq};

verus! {

pub const WELCOME: &'static str =
    "Welcome to your personal ornithologist! You will get advice tailored to your current weather and time of year to spot the most birds on your next expedition.";

pub const CITY_PROMPT: &'static str = "Please enter the name of the city you are currently in:";

pub const COUNTRY_PROMPT: &'static str =
    "Please enter the country code you are currently in (e.g., US for United States):";

pub const API_KEY_PROMPT: &'static str =
    "Please enter your OpenWeatherMap API key. If you do not have one, fear not! You can still get advice tailored to your current season. Just type \"no\" in the field below.";

pub const ANOTHER_PROMPT: &'static str = "Would you like to look up another city? (yes/no)";

pub const FAREWELL: &'static str =
    "Thank you for consulting with me! May the force be with you on your upcoming birdwatching expedition!!";

/// The answer to the question for an API key that declines the lookup.
pub const NO_KEY: &'static str = "no";

/// What the machine waits for.
#[derive(Clone, Copy, Debug, PartialEq, Eq, Structural)]
pub enum Stage {
    ShowingWelcome,
    AskingCity,
    AskingCountry,
    AskingApiKey,
    ShowingAdvisory,
    LookingUp,
    AskingAnother,
    ShowingFarewell,
    Finished,
}

/// A fixed text and the style it is shown in.
#[derive(Clone, Copy, Debug, PartialEq, Eq)]
pub struct Notice {
    pub text: &'static str,
    pub style: TextStyle,
}

/// What the caller is to do next.
#[derive(Debug, PartialEq, Eq)]
pub enum Action {
    /// Write the notice; report `Event::Shown`.
    Show(Notice),
    /// Write the notice, read one line and trim it; report `Event::Line`.
    Ask(Notice),
    /// Request the address, show the report or the error; report
    /// `Event::LookedUp` either way.
    Lookup(String),
    /// Leave, with success.
    Finish,
}

/// What the caller reports back.
#[derive(Debug, PartialEq, Eq)]
pub enum Event {
    Shown,
    Line(String),
    LookedUp,
}

/// The state of a sitting.
#[derive(Debug)]
pub struct Session {
    pub stage: Stage,
    /// Whether the user is asked for another city after each one.
    pub continuous: bool,
    /// The advisory of the month in which the sitting began.
    pub advisory: SeasonalAdvisory,
    pub city: String,
    pub country_code: String,
    /// The answer to the question for an API key, once it was given.
    pub api_key: Option<String>,
}

pub struct NoticeView {
    pub text: Seq<char>,
    pub style: TextStyle,
}

pub enum ActionView {
    Show(NoticeView),
    Ask(NoticeView),
    Lookup(Seq<char>),
    Finish,
}

pub enum EventView {
    Shown,
    Line(Seq<char>),
    LookedUp,
}

pub struct SessionView {
    pub stage: Stage,
    pub continuous: bool,
    pub advisory: SeasonalAdvisory,
    pub city: Seq<char>,
    pub country_code: Seq<char>,
    pub api_key: Option<Seq<char>>,
}

impl View for Notice {
    type V = NoticeView;

    open spec fn view(&self) -> NoticeView {
        NoticeView { text: self.text@, style: self.style }
    }
}

impl View for Action {
    type V = ActionView;

    open spec fn view(&self) -> ActionView {
        match self {
            Action::Show(notice) => ActionView::Show(notice@),
            Action::Ask(notice) => ActionView::Ask(notice@),
            Action::Lookup(url) => ActionView::Lookup(url@),
            Action::Finish => ActionView::Finish,
        }
    }
}

impl View for Event {
    type V = EventView;

    open spec fn view(&self) -> EventView {
        match self {
            Event::Shown => EventView::Shown,
            Event::Line(line) => EventView::Line(line@),
            Event::LookedUp => EventView::LookedUp,
        }
    }
}

impl View for Session {
    type V = SessionView;

    open spec fn view(&self) -> SessionView {
        SessionView {
            stage: self.stage,
            continuous: self.continuous,
            advisory: self.advisory,
            city: self.city@,
            country_code: self.country_code@,
            api_key: match self.api_key {
                Some(key) => Some(key@),
                None => None,
            },
        }
    }
}

impl SessionView {
    /// A key was given, and it is not the answer that declines.
    pub open spec fn lookup_enabled(self) -> bool {
        self.api_key is Some && self.api_key->0 != NO_KEY@
    }

    /// The stage once the weather has been dealt with: the question for
    /// another city in a continuous sitting, else the farewell.
    pub open spec fn stage_after_lookup(self) -> Stage {
        if self.continuous {
            Stage::AskingAnother
        } else {
            Stage::ShowingFarewell
        }
    }

    /// The stage once place and key are known: the lookup, unless the key
    /// declines it.
    pub open spec fn stage_after_inputs(self) -> Stage {
        if self.lookup_enabled() {
            Stage::LookingUp
        } else {
            self.stage_after_lookup()
        }
    }

    /// The address that a lookup requests in this state.
    pub open spec fn request_url(self) -> Seq<char> {
        request_url_of(
            self.city,
            self.country_code,
            match self.api_key {
                Some(key) => key,
                None => Seq::<char>::empty(),
            },
        )
    }

    /// The action that the machine waits on in this state.
    pub open spec fn pending(self) -> ActionView {
        match self.stage {
            Stage::ShowingWelcome => ActionView::Show(
                NoticeView { text: WELCOME@, style: TextStyle::BrightYellow },
            ),
            Stage::AskingCity => ActionView::Ask(
                NoticeView { text: CITY_PROMPT@, style: TextStyle::BrightGreen },
            ),
            Stage::AskingCountry => ActionView::Ask(
                NoticeView { text: COUNTRY_PROMPT@, style: TextStyle::BrightGreen },
            ),
            Stage::AskingApiKey => ActionView::Ask(
                NoticeView { text: API_KEY_PROMPT@, style: TextStyle::BrightGreen },
            ),
            Stage::ShowingAdvisory => ActionView::Show(
                NoticeView { text: self.advisory.text_of(), style: TextStyle::Plain },
            ),
            Stage::LookingUp => ActionView::Lookup(self.request_url()),
            Stage::AskingAnother => ActionView::Ask(
                NoticeView { text: ANOTHER_PROMPT@, style: TextStyle::BrightGreen },
            ),
            Stage::ShowingFarewell => ActionView::Show(
                NoticeView { text: FAREWELL@, style: TextStyle::BrightBlue },
            ),
            Stage::Finished => ActionView::Finish,
        }
    }

    /// The event is the report that the pending action calls for.
    pub open spec fn expects(self, event: EventView) -> bool {
        match self.stage {
            Stage::ShowingWelcome | Stage::ShowingAdvisory | Stage::ShowingFarewell => event is Shown,
            Stage::AskingCity | Stage::AskingCountry | Stage::AskingApiKey | Stage::AskingAnother => event is Line,
            Stage::LookingUp => event is LookedUp,
            Stage::Finished => false,
        }
    }

    /// The state after an event. A report that the pending action does not
    /// call for changes nothing.
    pub open spec fn after(self, event: EventView) -> SessionView {
        if !self.expects(event) {
            self
        } else {
            match self.stage {
                Stage::ShowingWelcome => SessionView { stage: Stage::AskingCity, ..self },
                Stage::AskingCity => SessionView {
                    stage: Stage::AskingCountry,
                    city: event->Line_0,
                    ..self
                },
                Stage::AskingCountry => {
                    let placed = SessionView { country_code: event->Line_0, ..self };
                    if self.api_key is None {
                        SessionView { stage: Stage::AskingApiKey, ..placed }
                    } else {
                        SessionView { stage: placed.stage_after_inputs(), ..placed }
                    }
                },
                Stage::AskingApiKey => SessionView {
                    stage: Stage::ShowingAdvisory,
                    api_key: Some(event->Line_0),
                    ..self
                },
                Stage::ShowingAdvisory => SessionView { stage: self.stage_after_inputs(), ..self },
                Stage::LookingUp => SessionView { stage: self.stage_after_lookup(), ..self },
                Stage::AskingAnother => if is_yes(event->Line_0) {
                    SessionView { stage: Stage::AskingCity, ..self }
                } else {
                    SessionView { stage: Stage::ShowingFarewell, ..self }
                },
                Stage::ShowingFarewell => SessionView { stage: Stage::Finished, ..self },
                Stage::Finished => self,
            }
        }
    }

    /// The state in which a sitting begins.
    pub open spec fn initial(continuous: bool, advisory: SeasonalAdvisory) -> SessionView {
        SessionView {
            stage: Stage::ShowingWelcome,
            continuous,
            advisory,
            city: Seq::<char>::empty(),
            country_code: Seq::<char>::empty(),
            api_key: None,
        }
    }

    /// The state after a run of events.
    pub open spec fn after_all(self, events: Seq<EventView>) -> SessionView
        decreases events.len(),
    {
        if events.len() == 0 {
            self
        } else {
            self.after(events[0]).after_all(events.drop_first())
        }
    }

    /// A state that a sitting can be in: the weather is looked up only with
    /// a key that does not decline, the key is asked for only while there is
    /// none, and the stages that follow the question have its answer.
    pub open spec fn wf(self) -> bool {
        &&& self.stage is LookingUp ==> self.lookup_enabled()
        &&& self.stage is AskingApiKey ==> self.api_key is None
        &&& (self.stage is ShowingAdvisory || self.stage is LookingUp || self.stage is AskingAnother
            || self.stage is ShowingFarewell || self.stage is Finished) ==> self.api_key is Some
    }
}

/// A sitting begins in a state that it can be in.
pub proof fn lemma_initial_wf(continuous: bool, advisory: SeasonalAdvisory)
    ensures
        SessionView::initial(continuous, advisory).wf(),
{
}

/// No event leads out of the states that a sitting can be in.
pub proof fn lemma_after_wf(state: SessionView, event: EventView)
    requires
        state.wf(),
    ensures
        state.after(event).wf(),
{
}

/// The key is the answer to the question for it, and once given it stays.
pub proof fn lemma_key_is_kept(state: SessionView, event: EventView)
    requires
        state.wf(),
    ensures
        state.api_key is Some ==> state.after(event).api_key == state.api_key,
        state.api_key is None ==> (state.after(event).api_key is Some <==> state.stage
            is AskingApiKey && event is Line),
        state.stage is AskingApiKey && event is Line ==> state.after(event).api_key == Some(
            event->Line_0,
        ),
{
}

/// Whatever the caller reports, in whatever order: the machine asks for a
/// lookup only in a state whose key was given and is not `no`. With the key
/// `no`, no lookup is ever asked for.
pub proof fn lemma_lookup_needs_key(state: SessionView, events: Seq<EventView>)
    requires
        state.wf(),
    ensures
        state.after_all(events).wf(),
        state.after_all(events).pending() is Lookup ==> state.after_all(events).lookup_enabled(),
        state.api_key == Some(NO_KEY@) ==> !(state.after_all(events).pending() is Lookup),
    decreases events.len(),
{
    if events.len() > 0 {
        lemma_after_wf(state, events[0]);
        lemma_key_is_kept(state, events[0]);
        lemma_lookup_needs_key(state.after(events[0]), events.drop_first());
    }
}

/// After the farewell nothing is asked and nothing looked up: the sitting
/// only ends.
pub proof fn lemma_farewell_ends(state: SessionView, events: Seq<EventView>)
    requires
        state.stage is ShowingFarewell || state.stage is Finished,
    ensures
        state.after_all(events).stage is ShowingFarewell || state.after_all(events).stage is Finished,
    decreases events.len(),
{
    if events.len() > 0 {
        lemma_farewell_ends(state.after(events[0]), events.drop_first());
    }
}

impl Session {
    /// Begins a sitting with the advisory that is shown in it.
    pub fn begin(continuous: bool, advisory: SeasonalAdvisory) -> (session: Session)
        ensures
            session@ == SessionView::initial(continuous, advisory),
    {
        Session {
            stage: Stage::ShowingWelcome,
            continuous,
            advisory,
            city: String::new(),
            country_code: String::new(),
            api_key: None,
        }
    }

    /// Begins a sitting in a month, numbered from 1.
    pub fn begin_in_month(continuous: bool, month: u32) -> (session: Session)
        ensures
            session@ == SessionView::initial(continuous, seasonal_advisory_of(month as int)),
    {
        Session::begin(continuous, get_seasonal_advisory(month))
    }

    /// Begins a sitting at a local date and time: in the month in which the
    /// date lies.
    pub fn begin_at(continuous: bool, local_time: &chrono::NaiveDateTime) -> (session: Session)
        ensures
            1 <= month_number(*local_time) <= 12,
            session@ == SessionView::initial(
                continuous,
                seasonal_advisory_of(month_number(*local_time) as int),
            ),
    {
        Session::begin(continuous, get_advisory_at(local_time))
    }

    /// Whether a key was given that does not decline the lookup.
    pub fn lookup_enabled(&self) -> (enabled: bool)
        ensures
            enabled == self@.lookup_enabled(),
    {
        match &self.api_key {
            Some(key) => !str_eq(key.as_str(), NO_KEY),
            None => false,
        }
    }

    fn stage_after_lookup(&self) -> (stage: Stage)
        ensures
            stage == self@.stage_after_lookup(),
    {
        if self.continuous {
            Stage::AskingAnother
        } else {
            Stage::ShowingFarewell
        }
    }

    fn stage_after_inputs(&self) -> (stage: Stage)
        ensures
            stage == self@.stage_after_inputs(),
    {
        if self.lookup_enabled() {
            Stage::LookingUp
        } else {
            self.stage_after_lookup()
        }
    }

    /// The action that the machine waits on.
    pub fn pending(&self) -> (action: Action)
        ensures
            action@ == self@.pending(),
    {
        match self.stage {
            Stage::ShowingWelcome => Action::Show(
                Notice { text: WELCOME, style: TextStyle::BrightYellow },
            ),
            Stage::AskingCity => Action::Ask(Notice { text: CITY_PROMPT, style: TextStyle::BrightGreen }),
            Stage::AskingCountry => Action::Ask(
                Notice { text: COUNTRY_PROMPT, style: TextStyle::BrightGreen },
            ),
            Stage::AskingApiKey => Action::Ask(
                Notice { text: API_KEY_PROMPT, style: TextStyle::BrightGreen },
            ),
            Stage::ShowingAdvisory => Action::Show(
                Notice { text: self.advisory.text(), style: TextStyle::Plain },
            ),
            Stage::LookingUp => {
                let url = match &self.api_key {
                    Some(key) => weather_request_url(
                        self.city.as_str(),
                        self.country_code.as_str(),
                        key.as_str(),
                    ),
                    None => {
                        proof {
                            reveal_strlit("");
                            assert(""@ =~= Seq::<char>::empty());
                        }
                        weather_request_url(self.city.as_str(), self.country_code.as_str(), "")
                    },
                };
                Action::Lookup(url)
            },
            Stage::AskingAnother => Action::Ask(
                Notice { text: ANOTHER_PROMPT, style: TextStyle::BrightGreen },
            ),
            Stage::ShowingFarewell => Action::Show(Notice { text: FAREWELL, style: TextStyle::BrightBlue }),
            Stage::Finished => Action::Finish,
        }
    }

    /// Takes the caller's report of the action it performed, moves on, and
    /// hands out the next action.
    pub fn advance(&mut self, event: Event) -> (action: Action)
        ensures
            final(self)@ == old(self)@.after(event@),
            action@ == final(self)@.pending(),
    {
        match (self.stage, event) {
            (Stage::ShowingWelcome, Event::Shown) => {
                self.stage = Stage::AskingCity;
            },
            (Stage::AskingCity, Event::Line(line)) => {
                self.city = line;
                self.stage = Stage::AskingCountry;
            },
            (Stage::AskingCountry, Event::Line(line)) => {
                self.country_code = line;
                if self.api_key.is_none() {
                    self.stage = Stage::AskingApiKey;
                } else {
                    self.stage = self.stage_after_inputs();
                }
            },
            (Stage::AskingApiKey, Event::Line(line)) => {
                self.api_key = Some(line);
                self.stage = Stage::ShowingAdvisory;
            },
            (Stage::ShowingAdvisory, Event::Shown) => {
                self.stage = self.stage_after_inputs();
            },
            (Stage::LookingUp, Event::LookedUp) => {
                self.stage = self.stage_after_lookup();
            },
            (Stage::AskingAnother, Event::Line(line)) => {
                if answers_yes(line.as_str()) {
                    self.stage = Stage::AskingCity;
                } else {
                    self.stage = Stage::ShowingFarewell;
                }
            },
            (Stage::ShowingFarewell, Event::Shown) => {
                self.stage = Stage::Finished;
            },
            _ => {},
        }
        self.pending()
    }
}

} // verus!
