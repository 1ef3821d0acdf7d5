//! The weather payload: what one provider response says, once it has been
//! checked against the shape that the provider documents.
use vstd::prelude::*;
use vstd::string::*;
use crate::json::{JsonValue, occurrences};
use crate::reading::Reading;

verus! {

/// Why a lookup gave no payload.
#[derive(Debug, PartialEq, Eq)]
pub enum WeatherError {
    /// The request did not complete; the message is the transport's own.
    Transport { message: String },
    /// The response does not have the documented shape.
    MalformedResponse,
}

/// The current weather at one place.
#[derive(Debug)]
pub struct WeatherPayload {
    pub location_name: String,
    /// The provider's short description of the conditions.
    pub condition_description: String,
    pub temperature_celsius: Reading,
    pub humidity_percent: Reading,
    pub pressure_hpa: Reading,
    pub wind_speed_meters_per_second: Reading,
}

/// The mathematical view of a payload: its texts as sequences of characters.
pub struct PayloadView {
    pub location_name: Seq<char>,
    pub condition_description: Seq<char>,
    pub temperature_celsius: Reading,
    pub humidity_percent: Reading,
    pub pressure_hpa: Reading,
    pub wind_speed_meters_per_second: Reading,
}

impl View for WeatherPayload {
    type V = PayloadView;

    open spec fn view(&self) -> PayloadView {
        PayloadView {
            location_name: self.location_name@,
            condition_description: self.condition_description@,
            temperature_celsius: self.temperature_celsius,
            humidity_percent: self.humidity_percent,
            pressure_hpa: self.pressure_hpa,
            wind_speed_meters_per_second: self.wind_speed_meters_per_second,
        }
    }
}

/// The number `inner` of the object `outer` of a body.
pub open spec fn nested_number(body: JsonValue, outer: Seq<char>, inner: Seq<char>) -> Option<
    Reading,
> {
    match body.member(outer) {
        Some(block) => block.number_at(inner),
        None => None,
    }
}

/// The condition entries of a body are in order: `weather` is an array, and
/// each of its items has a text under `description`.
pub open spec fn conditions_in_order(body: JsonValue) -> bool {
    match body.member("weather"@) {
        Some(JsonValue::Array(items)) => forall|i: int|
            0 <= i < items@.len() ==> (#[trigger] items@[i]).text_at("description"@) is Some,
        _ => false,
    }
}

/// The description of the first condition entry, where the entries are in
/// order and there is at least one.
pub open spec fn first_condition(body: JsonValue) -> Option<Seq<char>> {
    if conditions_in_order(body) && body.member("weather"@)->0.as_array()->0.len() > 0 {
        body.member("weather"@)->0.as_array()->0[0].text_at("description"@)
    } else {
        None
    }
}

/// The payload that a body holds. There is one exactly when the body has
/// every documented part: a `name` that is a text; condition entries in
/// order, at least one; the numbers `temp`, `humidity` and `pressure` in the
/// object `main`; the number `speed` in the object `wind`. Nothing is filled
/// in for a part that is missing or of another kind, and nothing is chosen
/// where an object names a part twice.
pub open spec fn payload_of(body: JsonValue) -> Option<PayloadView> {
    let name = body.text_at("name"@);
    let condition = first_condition(body);
    let temperature = nested_number(body, "main"@, "temp"@);
    let humidity = nested_number(body, "main"@, "humidity"@);
    let pressure = nested_number(body, "main"@, "pressure"@);
    let wind_speed = nested_number(body, "wind"@, "speed"@);
    if name is Some && condition is Some && temperature is Some && humidity is Some && pressure is Some
        && wind_speed is Some {
        Some(
            PayloadView {
                location_name: name->0,
                condition_description: condition->0,
                temperature_celsius: temperature->0,
                humidity_percent: humidity->0,
                pressure_hpa: pressure->0,
                wind_speed_meters_per_second: wind_speed->0,
            },
        )
    } else {
        None
    }
}

/// A body without the object `wind`, or without a number `speed` in it,
/// holds no payload: no wind speed is made up for it.
pub proof fn lemma_wind_is_required(body: JsonValue)
    requires
        body.member("wind"@) is None || body.member("wind"@)->0.number_at("speed"@) is None,
    ensures
        payload_of(body) is None,
{
}

/// A body whose `weather` is an array without items holds no payload.
pub proof fn lemma_a_condition_is_required(body: JsonValue)
    requires
        body.member("weather"@) matches Some(JsonValue::Array(items)) && items@.len() == 0,
    ensures
        payload_of(body) is None,
{
}

/// A body that names `name`, `weather`, `main` or `wind` more than once
/// holds no payload.
pub proof fn lemma_a_repeated_part_is_refused(body: JsonValue, key: Seq<char>)
    requires
        body matches JsonValue::Object(members) && occurrences(members@, key) >= 2,
        key == "name"@ || key == "weather"@ || key == "main"@ || key == "wind"@,
    ensures
        payload_of(body) is None,
{
}

/// Reads the number `inner` of the object `outer`.
fn get_nested_number(body: &JsonValue, outer: &str, inner: &str) -> (found: Option<Reading>)
    ensures
        found == nested_number(*body, outer@, inner@),
{
    match body.get(outer) {
        Some(block) => block.get_number(inner),
        None => None,
    }
}

/// Checks the condition entries and reads the description of the first.
fn get_first_condition(body: &JsonValue) -> (found: Option<String>)
    ensures
        match found {
            Some(text) => first_condition(*body) == Some(text@),
            None => first_condition(*body) is None,
        },
{
    match body.get("weather") {
        Some(JsonValue::Array(items)) => {
            let n: usize = items.len();
            let mut first: Option<String> = None;
            let mut i: usize = 0;
            while i < n
                invariant
                    i <= n,
                    n == items@.len(),
                    body.member("weather"@) == Some(JsonValue::Array(*items)),
                    forall|j: int| 0 <= j < i ==> (#[trigger] items@[j]).text_at("description"@) is Some,
                    match first {
                        Some(text) => i > 0 && items@[0].text_at("description"@) == Some(text@),
                        None => i == 0,
                    },
                decreases n - i,
            {
                match items[i].get_text("description") {
                    Some(text) => {
                        if i == 0 {
                            first = Some(text);
                        }
                    },
                    None => {
                        return None;
                    },
                }
                i = i + 1;
            }
            first
        },
        _ => None,
    }
}

impl WeatherPayload {
    /// Reads the payload out of a decoded response body.
    pub fn from_json(body: &JsonValue) -> (result: Result<WeatherPayload, WeatherError>)
        ensures
            match result {
                Ok(payload) => payload_of(*body) == Some(payload@),
                Err(error) => payload_of(*body) is None && error is MalformedResponse,
            },
    {
        let location_name = match body.get_text("name") {
            Some(text) => text,
            None => {
                return Err(WeatherError::MalformedResponse);
            },
        };
        let condition_description = match get_first_condition(body) {
            Some(text) => text,
            None => {
                return Err(WeatherError::MalformedResponse);
            },
        };
        let temperature_celsius = match get_nested_number(body, "main", "temp") {
            Some(reading) => reading,
            None => {
                return Err(WeatherError::MalformedResponse);
            },
        };
        let humidity_percent = match get_nested_number(body, "main", "humidity") {
            Some(reading) => reading,
            None => {
                return Err(WeatherError::MalformedResponse);
            },
        };
        let pressure_hpa = match get_nested_number(body, "main", "pressure") {
            Some(reading) => reading,
            None => {
                return Err(WeatherError::MalformedResponse);
            },
        };
        let wind_speed_meters_per_second = match get_nested_number(body, "wind", "speed") {
            Some(reading) => reading,
            None => {
                return Err(WeatherError::MalformedResponse);
            },
        };
        Ok(
            WeatherPayload {
                location_name,
                condition_description,
                temperature_celsius,
                humidity_percent,
                pressure_hpa,
                wind_speed_meters_per_second,
            },
        )
    }
}

} // verus!
