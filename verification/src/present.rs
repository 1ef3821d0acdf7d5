//! The presenter: the text of a weather report and the style it is shown in.
use vstd::prelude::*;
use vstd::string::*;
use crate::condition::{ConditionColorCategory, condition_color_category_of, get_condition_color_category};
use crate::json::JsonValue;
use crate::payload::{PayloadView, WeatherError, WeatherPayload, payload_of};
use crate::temperature::{get_temperature_emoji, temperature_category_of};

verus! {

/// The emphasis in which a piece of text is shown on the terminal.
#[derive(Clone, Copy, Debug, PartialEq, Eq, Structural)]
pub enum TextStyle {
    BrightYellow,
    BrightBlue,
    BrightGreen,
    BrightCyan,
    Dimmed,
    /// The terminal's own colour, with no emphasis.
    Plain,
}

/// A block of text together with the one style that all of it is shown in.
#[derive(Debug, PartialEq, Eq)]
pub struct StyledText {
    pub text: String,
    pub style: TextStyle,
}

impl ConditionColorCategory {
    /// The style of a category.
    pub open spec fn style_of(self) -> TextStyle {
        match self {
            ConditionColorCategory::Clear => TextStyle::BrightYellow,
            ConditionColorCategory::Cloudy => TextStyle::BrightBlue,
            ConditionColorCategory::Obscured => TextStyle::Dimmed,
            ConditionColorCategory::Precipitating => TextStyle::BrightCyan,
            ConditionColorCategory::Unknown => TextStyle::Plain,
        }
    }

    /// The style of a category.
    pub fn style(self) -> (style: TextStyle)
        ensures
            style == self.style_of(),
    {
        match self {
            ConditionColorCategory::Clear => TextStyle::BrightYellow,
            ConditionColorCategory::Cloudy => TextStyle::BrightBlue,
            ConditionColorCategory::Obscured => TextStyle::Dimmed,
            ConditionColorCategory::Precipitating => TextStyle::BrightCyan,
            ConditionColorCategory::Unknown => TextStyle::Plain,
        }
    }
}

/// No two categories share a style, and only `Unknown` is shown plain.
pub proof fn lemma_styles_distinct(a: ConditionColorCategory, b: ConditionColorCategory)
    ensures
        a.style_of() == b.style_of() ==> a == b,
        a.style_of() == TextStyle::Plain <==> a == ConditionColorCategory::Unknown,
{
}

/// The text of a report: a headline with the place, the conditions and the
/// glyph of the temperature, then one line each for temperature, humidity,
/// pressure and wind speed, every number with one digit after the point.
pub open spec fn report_text_of(payload: PayloadView) -> Seq<char> {
    "Weather in "@ + payload.location_name + ": "@ + payload.condition_description + " "@
        + temperature_category_of(payload.temperature_celsius).glyph_of() + "\n> Temperature: "@
        + payload.temperature_celsius.one_decimal() + "°C, \n> Humidity: "@
        + payload.humidity_percent.one_decimal() + "%, \n> Pressure: "@
        + payload.pressure_hpa.one_decimal() + " hPa, \n> Wind Speed: "@
        + payload.wind_speed_meters_per_second.one_decimal() + " m/s"@
}

/// Writes the report of a payload. Its style follows from the condition
/// description alone.
pub fn weather_report(payload: &WeatherPayload) -> (report: StyledText)
    ensures
        report.text@ == report_text_of(payload@),
        report.style == condition_color_category_of(payload@.condition_description).style_of(),
{
    let mut text = String::from_str("Weather in ");
    text.append(payload.location_name.as_str());
    text.append(": ");
    text.append(payload.condition_description.as_str());
    text.append(" ");
    text.append(get_temperature_emoji(payload.temperature_celsius));
    text.append("\n> Temperature: ");
    text.append(payload.temperature_celsius.to_one_decimal().as_str());
    text.append("°C, \n> Humidity: ");
    text.append(payload.humidity_percent.to_one_decimal().as_str());
    text.append("%, \n> Pressure: ");
    text.append(payload.pressure_hpa.to_one_decimal().as_str());
    text.append(" hPa, \n> Wind Speed: ");
    text.append(payload.wind_speed_meters_per_second.to_one_decimal().as_str());
    text.append(" m/s");
    let style = get_condition_color_category(payload.condition_description.as_str()).style();
    StyledText { text, style }
}

/// What is said of a response that does not have the documented shape.
pub const MALFORMED_RESPONSE_MESSAGE: &'static str =
    "the weather service sent a response that could not be read";

/// The line that reports a failed lookup: `Error: ` and what went wrong.
pub open spec fn error_line_of(error: WeatherError) -> Seq<char> {
    match error {
        WeatherError::Transport { message } => "Error: "@ + message@,
        WeatherError::MalformedResponse => "Error: "@ + MALFORMED_RESPONSE_MESSAGE@,
    }
}

/// Writes the line that reports a failed lookup.
pub fn error_line(error: &WeatherError) -> (line: String)
    ensures
        line@ == error_line_of(*error),
{
    let mut line = String::from_str("Error: ");
    match error {
        WeatherError::Transport { message } => {
            line.append(message.as_str());
        },
        WeatherError::MalformedResponse => {
            line.append(MALFORMED_RESPONSE_MESSAGE);
        },
    }
    line
}

/// What a lookup puts on the terminal.
#[derive(Debug, PartialEq, Eq)]
pub enum LookupDisplay {
    /// A report, for the standard output.
    Report(StyledText),
    /// One line about what went wrong, for the standard error.
    Failure(String),
}

/// Decides what is shown of a lookup, from what the request brought back: the
/// report where the body holds a payload, and else the line that reports the
/// failure. A lookup that failed is shown and otherwise passed over: a
/// sitting goes on after it.
pub fn lookup_display(fetched: &Result<JsonValue, WeatherError>) -> (shown: LookupDisplay)
    ensures
        match *fetched {
            Ok(body) => match payload_of(body) {
                Some(payload) => shown matches LookupDisplay::Report(report) && report.text@
                    == report_text_of(payload) && report.style == condition_color_category_of(
                    payload.condition_description,
                ).style_of(),
                None => shown matches LookupDisplay::Failure(line) && line@ == error_line_of(
                    WeatherError::MalformedResponse,
                ),
            },
            Err(error) => shown matches LookupDisplay::Failure(line) && line@ == error_line_of(error),
        },
{
    match fetched {
        Ok(body) => match WeatherPayload::from_json(body) {
            Ok(payload) => LookupDisplay::Report(weather_report(&payload)),
            Err(error) => LookupDisplay::Failure(error_line(&error)),
        },
        Err(error) => LookupDisplay::Failure(error_line(error)),
    }
}

} // verus!
