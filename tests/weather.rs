use weather_cli::emoji::{get_emoji, CLOUD, PARTLY_CLOUDY, RAIN, SNOW, STORM, SUN, UNKNOWN};
use weather_cli::fetch::{request_url, Config, ConfigError, FetchError, DEFAULT_TIMEOUT_SECS};
use weather_cli::report::{push_hundredths, push_int, render, Condition, ReportError, WeatherReport};
use weather_cli::session::{Command, Phase, Session, ASK_PROMPT, CITY_PROMPT, COUNTRY_PROMPT, NO_CONDITION_MESSAGE};
use weather_cli::text::{is_stop_word, is_whitespace, join_city, normalize_word, wants_to_stop};

fn bangkok(conditions: Vec<Condition>) -> WeatherReport {
    WeatherReport {
        city: "Bangkok".to_string(),
        country: "TH".to_string(),
        conditions,
        temp: 3250,
        temp_min: 3000,
        temp_max: 3400,
        wind_speed: 320,
        humidity: 70,
    }
}

fn clear_sky() -> Condition {
    Condition {
        id: 800,
        main: "Clear".to_string(),
        description: "clear sky".to_string(),
        icon: "01d".to_string(),
    }
}

fn hundredths(h: i32) -> String {
    let mut s = String::new();
    push_hundredths(&mut s, h);
    s
}

fn config() -> Config {
    Config::new(Some("KEY".to_string())).unwrap()
}

#[test]
fn emoji_for_known_descriptions() {
    assert_eq!(get_emoji("clear sky"), SUN);
    assert_eq!(SUN, "\u{2600}\u{FE0F}");
    assert_eq!(get_emoji("thunderstorm"), STORM);
    assert_eq!(STORM, "\u{26C8}\u{FE0F}");
    assert_eq!(get_emoji("few clouds"), PARTLY_CLOUDY);
    assert_eq!(get_emoji("scattered clouds"), PARTLY_CLOUDY);
    assert_eq!(get_emoji("broken clouds"), PARTLY_CLOUDY);
    assert_eq!(get_emoji("overcast clouds"), CLOUD);
    assert_eq!(get_emoji("mist"), CLOUD);
    assert_eq!(get_emoji("haze"), CLOUD);
    assert_eq!(get_emoji("smoke"), CLOUD);
    assert_eq!(get_emoji("sand"), CLOUD);
    assert_eq!(get_emoji("shower rain"), RAIN);
    assert_eq!(get_emoji("rain"), RAIN);
    assert_eq!(get_emoji("snow"), SNOW);
}

#[test]
fn emoji_fallback_for_unmapped_descriptions() {
    assert_eq!(get_emoji("drizzle"), "\u{26A0}\u{FE0F}error");
    assert_eq!(get_emoji("light rain"), UNKNOWN);
    assert_eq!(get_emoji("Clear Sky"), UNKNOWN);
    assert_eq!(get_emoji("clear"), UNKNOWN);
    assert_eq!(get_emoji(""), UNKNOWN);
}

#[test]
fn single_word_city_is_trimmed_input() {
    assert_eq!(join_city("Bangkok"), "Bangkok");
    assert_eq!(join_city("  Yangon \n"), "Yangon");
    assert_eq!(join_city("\tS\u{E3}oPaulo\u{3000}"), "S\u{E3}oPaulo");
}

#[test]
fn multi_word_city_is_joined_with_plus() {
    assert_eq!(join_city("New York"), "New+York");
    assert_eq!(join_city("  New \t  York \n"), "New+York");
    assert_eq!(join_city("Rio de Janeiro"), "Rio+de+Janeiro");
}

#[test]
fn blank_city_is_empty() {
    assert_eq!(join_city(""), "");
    assert_eq!(join_city(" \t\n"), "");
}

#[test]
fn whitespace_classes() {
    for c in [' ', '\t', '\n', '\r', '\u{0B}', '\u{0C}', '\u{85}', '\u{A0}', '\u{2003}', '\u{3000}'] {
        assert!(is_whitespace(c));
        assert_eq!(is_whitespace(c), c.is_whitespace());
    }
    for c in ['a', '+', '0', '\u{200B}'] {
        assert!(!is_whitespace(c));
        assert_eq!(is_whitespace(c), c.is_whitespace());
    }
}

#[test]
fn country_is_trimmed_and_lowercased() {
    assert_eq!(normalize_word("  TH\n"), "th");
    assert_eq!(normalize_word("mm"), "mm");
    assert_eq!(normalize_word(""), "");
}

#[test]
fn continuation_answers() {
    assert!(is_stop_word("no"));
    assert!(!is_stop_word("NO"));
    assert!(wants_to_stop("no"));
    assert!(wants_to_stop("  No \n"));
    assert!(!wants_to_stop("y"));
    assert!(!wants_to_stop("maybe"));
    assert!(!wants_to_stop("yes"));
    assert!(!wants_to_stop("nope"));
    assert!(!wants_to_stop(""));
}

#[test]
fn hundredths_formatting() {
    assert_eq!(hundredths(3250), "32.5");
    assert_eq!(hundredths(3000), "30");
    assert_eq!(hundredths(320), "3.2");
    assert_eq!(hundredths(2803), "28.03");
    assert_eq!(hundredths(0), "0");
    assert_eq!(hundredths(-5), "-0.05");
    assert_eq!(hundredths(-150), "-1.5");
    assert_eq!(hundredths(i32::MIN), "-21474836.48");
    assert_eq!(hundredths(i32::MAX), "21474836.47");
}

#[test]
fn integer_formatting() {
    let mut s = "h=".to_string();
    push_int(&mut s, 70);
    assert_eq!(s, "h=70");
    let mut s = String::new();
    push_int(&mut s, -7);
    assert_eq!(s, "-7");
    let mut s = String::new();
    push_int(&mut s, i32::MIN);
    assert_eq!(s, "-2147483648");
}

#[test]
fn render_bangkok_report() {
    let text = render(&bangkok(vec![clear_sky()])).unwrap();
    for part in ["Bangkok", "TH", SUN, "32.5", "30", "34", "3.2", "70"] {
        assert!(text.contains(part), "missing {}", part);
    }
    let expected = "Weather in Bangkok,TH | Clear (\u{2600}\u{FE0F}) \n            >Temperature: 32.5\u{B0}C\n                > Temperature-Min: 30\u{B0}C\n                > Temperature-Max: 34\u{B0}C\n            >Wind: 3.2 km/h\n            >Humidity: 70 % \n___________________________________________________\n        ";
    assert_eq!(text, expected);
}

#[test]
fn render_uses_first_condition() {
    let storm = Condition {
        id: 211,
        main: "Thunderstorm".to_string(),
        description: "thunderstorm".to_string(),
        icon: "11d".to_string(),
    };
    let text = render(&bangkok(vec![storm, clear_sky()])).unwrap();
    assert!(text.starts_with("Weather in Bangkok,TH | Thunderstorm (\u{26C8}\u{FE0F}) \n"));
}

#[test]
fn render_without_conditions_is_refused() {
    assert_eq!(render(&bangkok(Vec::new())).unwrap_err(), ReportError::NoConditionData);
}

#[test]
fn request_url_layout() {
    let url = request_url(&config(), "New+York", "us");
    assert_eq!(url, "https://api.openweathermap.org/data/2.5/weather?q=New+York,us&APPID=KEY&units=metric");
}

#[test]
fn config_needs_a_key() {
    assert_eq!(Config::new(None).err(), Some(ConfigError::MissingApiKey));
    let c = config();
    assert_eq!(c.api_key, "KEY");
    assert_eq!(c.timeout_secs, DEFAULT_TIMEOUT_SECS);
    assert_eq!(DEFAULT_TIMEOUT_SECS, 30);
    let c = c.with_timeout(5);
    assert_eq!(c.timeout_secs, 5);
    assert_eq!(c.api_key, "KEY");
}

#[test]
fn fetch_error_messages() {
    assert_eq!(FetchError::Network("connection refused".to_string()).message(), "connection refused");
    assert_eq!(FetchError::Decode("missing field `coord`".to_string()).message(), "missing field `coord`");
}

#[test]
fn answer_no_ends_without_request() {
    let mut s = Session::new(config());
    assert!(matches!(s.prompt(), Command::Ask(t) if t == ASK_PROMPT));
    assert!(s.wants_line());
    assert!(matches!(s.on_line("no\n"), Command::Quit));
    assert!(matches!(s.phase, Phase::Done));
    assert!(matches!(s.prompt(), Command::Quit));
    assert!(!s.wants_line());
}

#[test]
fn other_answers_lead_to_city_prompt() {
    for answer in ["y", "maybe", "yes", "", "NOPE"] {
        let mut s = Session::new(config());
        assert!(matches!(s.on_line(answer), Command::Ask(t) if t == CITY_PROMPT));
        assert!(matches!(s.phase, Phase::City));
    }
}

#[test]
fn full_round_of_the_session() {
    let mut s = Session::new(config());
    s.on_line("yes\n");
    assert!(matches!(s.on_line("  New York\n"), Command::Ask(t) if t == COUNTRY_PROMPT));
    assert!(matches!(&s.phase, Phase::Country { city } if city == "New+York"));
    let url = "https://api.openweathermap.org/data/2.5/weather?q=New+York,us&APPID=KEY&units=metric";
    assert!(matches!(s.on_line(" US \n"), Command::Fetch(u) if u == url));
    assert!(!s.wants_line());
    assert!(matches!(s.prompt(), Command::Fetch(u) if u == url));
    let shown = s.on_fetched(Ok(bangkok(vec![clear_sky()])));
    assert!(matches!(shown, Command::Show(t) if t.starts_with("Weather in Bangkok,TH")));
    assert!(matches!(s.phase, Phase::Answer));
    assert!(matches!(s.prompt(), Command::Ask(t) if t == ASK_PROMPT));
}

#[test]
fn failed_request_is_reported_and_loop_goes_on() {
    let mut s = Session::new(config());
    s.on_line("y");
    s.on_line("Atlantis");
    s.on_line("xx");
    let r = s.on_fetched(Err(FetchError::Decode("error decoding response body".to_string())));
    assert!(matches!(r, Command::Warn(t) if t == "error decoding response body"));
    assert!(matches!(s.phase, Phase::Answer));
    s.on_line("y");
    s.on_line("Atlantis");
    s.on_line("xx");
    let r = s.on_fetched(Err(FetchError::Network("operation timed out".to_string())));
    assert!(matches!(r, Command::Warn(t) if t == "operation timed out"));
}

#[test]
fn report_without_conditions_is_warned() {
    let mut s = Session::new(config());
    s.on_line("y");
    s.on_line("Bangkok");
    s.on_line("th");
    let r = s.on_fetched(Ok(bangkok(Vec::new())));
    assert!(matches!(r, Command::Warn(t) if t == NO_CONDITION_MESSAGE));
}
