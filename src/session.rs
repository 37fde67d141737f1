use vstd::prelude::*;
use crate::fetch::{request_url, url_text, Config, FetchError};
use crate::report::{render, report_text, ReportError, WeatherReport};
use crate::text::{answer_stops, city_query, join_city, lower_of, normalize_word, trimmed, wants_to_stop};

verus! {

pub const ASK_PROMPT: &'static str = "Check weather in your city? <yes|no>";

pub const CITY_PROMPT: &'static str = "Enter your city name | e.g. <Yangon, Bangkok>";

pub const COUNTRY_PROMPT: &'static str = "Enter your country code | e.g. <MM, TH>";

pub const NO_CONDITION_MESSAGE: &'static str = "the response lists no weather condition";

/// Where a session stands.
pub enum Phase {
    /// Waiting for the answer to the continuation prompt.
    Answer,
    /// Waiting for the city name.
    City,
    /// Waiting for the country code; the city as it goes into the query.
    Country { city: String },
    /// Waiting for the response to the request for `url`.
    Weather { url: String },
    /// The user declined to go on.
    Done,
}

/// What the driver of a session is to do next.
pub enum Command {
    /// Show this prompt and hand the line typed back to `on_line`.
    Ask(String),
    /// Request this URL and hand the outcome back to `on_fetched`.
    Fetch(String),
    /// Print this report, then ask the session for its prompt.
    Show(String),
    /// Print this message on the error channel, then ask for the prompt.
    Warn(String),
    /// End the program successfully.
    Quit,
}

pub open spec fn asks(c: Command, text: Seq<char>) -> bool {
    match c {
        Command::Ask(t) => t@ == text,
        _ => false,
    }
}

pub open spec fn fetches(c: Command, url: Seq<char>) -> bool {
    match c {
        Command::Fetch(u) => u@ == url,
        _ => false,
    }
}

pub open spec fn shows(c: Command, text: Seq<char>) -> bool {
    match c {
        Command::Show(t) => t@ == text,
        _ => false,
    }
}

pub open spec fn warns(c: Command, text: Seq<char>) -> bool {
    match c {
        Command::Warn(t) => t@ == text,
        _ => false,
    }
}

/// The interactive loop as a state machine: each line typed and each
/// request outcome moves it on and yields the next command.
pub struct Session {
    pub config: Config,
    pub phase: Phase,
}

impl Session {
    /// A session that starts with the continuation prompt.
    pub fn new(config: Config) -> (r: Session)
        ensures
            r.config == config,
            r.phase is Answer,
    {
        Session { config, phase: Phase::Answer }
    }

    /// Whether the session waits for a line typed by the user.
    pub open spec fn awaits_line(&self) -> bool {
        self.phase is Answer || self.phase is City || self.phase is Country
    }

    /// Whether the session waits for a line typed by the user.
    pub fn wants_line(&self) -> (r: bool)
        ensures
            r == self.awaits_line(),
    {
        match self.phase {
            Phase::Answer | Phase::City | Phase::Country { .. } => true,
            _ => false,
        }
    }

    /// The command that the current phase calls for: its prompt, the pending
    /// request, or the end.
    pub fn prompt(&self) -> (r: Command)
        ensures
            self.phase is Answer ==> asks(r, ASK_PROMPT@),
            self.phase is City ==> asks(r, CITY_PROMPT@),
            self.phase is Country ==> asks(r, COUNTRY_PROMPT@),
            self.phase matches Phase::Weather { url } ==> fetches(r, url@),
            self.phase is Done ==> r is Quit,
    {
        match &self.phase {
            Phase::Answer => Command::Ask(String::from_str(ASK_PROMPT)),
            Phase::City => Command::Ask(String::from_str(CITY_PROMPT)),
            Phase::Country { .. } => Command::Ask(String::from_str(COUNTRY_PROMPT)),
            Phase::Weather { url } => Command::Fetch(url.clone()),
            Phase::Done => Command::Quit,
        }
    }

    /// Takes a line typed at the current prompt. The answer `no` (after
    /// trimming and lowercasing) ends the session before any request; any
    /// other answer leads to the city prompt. The city is stored in its query
    /// form, the country trimmed and lowercased, and then the request is due.
    pub fn on_line(&mut self, line: &str) -> (r: Command)
        requires
            old(self).awaits_line(),
        ensures
            final(self).config == old(self).config,
            old(self).phase is Answer ==> !(r is Fetch),
            old(self).phase is Answer && answer_stops(line@) ==> final(self).phase is Done
                && r is Quit,
            old(self).phase is Answer && !answer_stops(line@) ==> final(self).phase is City
                && asks(r, CITY_PROMPT@),
            old(self).phase is City ==> asks(r, COUNTRY_PROMPT@),
            old(self).phase is City ==> (final(self).phase matches Phase::Country { city }
                && city@ == city_query(line@)),
            old(self).phase matches Phase::Country { city } ==> {
                let url = url_text(city@, lower_of(trimmed(line@)), old(self).config.api_key@);
                fetches(r, url) && (final(self).phase matches Phase::Weather { url: u } && u@
                    == url)
            },
    {
        match &self.phase {
            Phase::Answer => {
                if wants_to_stop(line) {
                    self.phase = Phase::Done;
                    Command::Quit
                } else {
                    self.phase = Phase::City;
                    Command::Ask(String::from_str(CITY_PROMPT))
                }
            },
            Phase::City => {
                self.phase = Phase::Country { city: join_city(line) };
                Command::Ask(String::from_str(COUNTRY_PROMPT))
            },
            Phase::Country { city } => {
                let country = normalize_word(line);
                let url = request_url(&self.config, city.as_str(), country.as_str());
                self.phase = Phase::Weather { url: url.clone() };
                Command::Fetch(url)
            },
            _ => Command::Quit,
        }
    }

    /// Takes the outcome of the pending request: a report is shown, a
    /// failure is reported with its message, and either way the session goes
    /// back to the continuation prompt.
    pub fn on_fetched(&mut self, outcome: Result<WeatherReport, FetchError>) -> (r: Command)
        requires
            old(self).phase is Weather,
        ensures
            final(self).config == old(self).config,
            final(self).phase is Answer,
            outcome matches Ok(rep) ==> if rep.conditions@.len() > 0 {
                shows(r, report_text(rep, rep.conditions@[0]))
            } else {
                warns(r, NO_CONDITION_MESSAGE@)
            },
            outcome matches Err(e) ==> warns(r, e.detail()),
    {
        self.phase = Phase::Answer;
        match outcome {
            Ok(rep) => match render(&rep) {
                Ok(text) => Command::Show(text),
                Err(ReportError::NoConditionData) => Command::Warn(
                    String::from_str(NO_CONDITION_MESSAGE),
                ),
            },
            Err(e) => Command::Warn(e.message()),
        }
    }
}

} // verus!
