use weather::request::{weather_request_url, ENDPOINT};

#[test]
fn address_of_a_lookup() {
    assert_eq!(
        weather_request_url("Austin", "US", "abc123"),
        "http://api.openweathermap.org/data/2.5/weather?q=Austin,US&units=metric&appid=abc123"
    );
}

#[test]
fn address_is_what_the_standard_formatter_writes() {
    for (city, country, key) in [("Paris", "FR", "k"), ("", "", ""), ("São Paulo", "BR", "ключ"), ("a,b", "c&d", "e=f")] {
        assert_eq!(
            weather_request_url(city, country, key),
            format!(
                "http://api.openweathermap.org/data/2.5/weather?q={},{}&units=metric&appid={}",
                city, country, key
            )
        );
    }
}

#[test]
fn the_endpoint() {
    assert_eq!(ENDPOINT, "http://api.openweathermap.org/data/2.5/weather?q=");
    assert!(weather_request_url("x", "y", "z").starts_with(ENDPOINT));
}
