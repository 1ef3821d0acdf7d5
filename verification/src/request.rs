//! The request that a lookup sends to the weather provider.
use vstd::prelude::*;
use vstd::string::*;

verus! {

/// The provider's endpoint, up to the place that is asked for.
pub const ENDPOINT: &'static str = "http://api.openweathermap.org/data/2.5/weather?q=";

/// The address of the current weather of a city: the endpoint with the city
/// and the country code, metric units, and the API key.
pub open spec fn request_url_of(city: Seq<char>, country_code: Seq<char>, api_key: Seq<char>) -> Seq<
    char,
> {
    ENDPOINT@ + city + ","@ + country_code + "&units=metric&appid="@ + api_key
}

/// Builds the address that a lookup requests.
pub fn weather_request_url(city: &str, country_code: &str, api_key: &str) -> (url: String)
    ensures
        url@ == request_url_of(city@, country_code@, api_key@),
{
    let mut url = String::from_str(ENDPOINT);
    url.append(city);
    url.append(",");
    url.append(country_code);
    url.append("&units=metric&appid=");
    url.append(api_key);
    url
}

} // verus!
