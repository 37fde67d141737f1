use vstd::prelude::*;

verus! {

/// The endpoint of the current-weather API.
pub const ENDPOINT: &'static str = "https://api.openweathermap.org/data/2.5/weather?q=";

pub const KEY_PARAM: &'static str = "&APPID=";

pub const UNITS_PARAM: &'static str = "&units=metric";

/// How long one request may take, in seconds, unless configured otherwise.
pub const DEFAULT_TIMEOUT_SECS: u64 = 30;

/// What a request needs besides the query: the API key, read once at
/// startup, and the bound on how long a request may take.
pub struct Config {
    pub api_key: String,
    pub timeout_secs: u64,
}

/// Why the program cannot start.
#[derive(PartialEq, Eq, Structural, Debug, Clone, Copy)]
pub enum ConfigError {
    /// No API key was supplied.
    MissingApiKey,
}

/// Why a request brought no report.
pub enum FetchError {
    /// The connection failed or the request timed out; the underlying message.
    Network(String),
    /// The response body is not a weather report (an error envelope from the
    /// API included); the underlying message.
    Decode(String),
}

impl FetchError {
    pub open spec fn detail(&self) -> Seq<char> {
        match self {
            FetchError::Network(m) => m@,
            FetchError::Decode(m) => m@,
        }
    }

    /// The underlying message, as it is shown to the user.
    pub fn message(&self) -> (r: String)
        ensures
            r@ == self.detail(),
    {
        match self {
            FetchError::Network(m) => m.clone(),
            FetchError::Decode(m) => m.clone(),
        }
    }
}

impl Config {
    /// The configuration for the API key found at startup, if any, with the
    /// default timeout; without a key the program cannot run.
    pub fn new(api_key: Option<String>) -> (r: Result<Config, ConfigError>)
        ensures
            api_key is None <==> r is Err,
            r is Err ==> r->Err_0 == ConfigError::MissingApiKey,
            r is Ok ==> r->Ok_0.api_key == api_key->Some_0 && r->Ok_0.timeout_secs
                == DEFAULT_TIMEOUT_SECS,
    {
        match api_key {
            Some(key) => Ok(Config { api_key: key, timeout_secs: DEFAULT_TIMEOUT_SECS }),
            None => Err(ConfigError::MissingApiKey),
        }
    }

    /// The same configuration with another timeout.
    pub fn with_timeout(self, secs: u64) -> (r: Config)
        ensures
            r.api_key == self.api_key,
            r.timeout_secs == secs,
    {
        Config { api_key: self.api_key, timeout_secs: secs }
    }
}

/// The request URL for a city and country as they go into the query.
/// Nothing is escaped beyond what the city's `+` join did.
pub open spec fn url_text(city: Seq<char>, country: Seq<char>, key: Seq<char>) -> Seq<char> {
    ENDPOINT@ + city + ","@ + country + KEY_PARAM@ + key + UNITS_PARAM@
}

/// Builds the request URL: `q=<city>,<country>`, the API key, metric units.
pub fn request_url(config: &Config, city: &str, country: &str) -> (r: String)
    ensures
        r@ == url_text(city@, country@, config.api_key@),
{
    let mut url = String::from_str(ENDPOINT);
    url.append(city);
    url.append(",");
    url.append(country);
    url.append(KEY_PARAM);
    url.append(config.api_key.as_str());
    url.append(UNITS_PARAM);
    url
}

} // verus!
