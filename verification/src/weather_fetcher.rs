//! The weather client: it is told a location and a key, says which URL has to
//! be fetched, keeps the report that comes back, and answers from it.
//!
//! The client never touches the network. An accessor that has no report yet
//! answers with the request to make; the caller makes it, hands the report in
//! with [`WeatherFetcher::store_report`], and asks again. One report serves
//! both the present conditions and the forecast for the rest of the run.

use crate::fields::{
    current_field_map, current_fields, forecast_field_maps, forecast_fields, texts, texts_of_each,
    FieldMap,
};
use crate::link::{
    after_program_name, build_current_url, build_forecast_url, current_url, forecast_url,
    arg_texts, join_location, joined,
};
use crate::weather_report::{WeatherReport, FORECAST_DAYS};
use vstd::prelude::*;
use vstd::string::*;

verus! {

/// Why no request can be made.
#[derive(Debug, Clone, Copy, PartialEq, Eq, Structural)]
pub enum FetchError {
    /// No location has been given.
    EmptyLocation,
}

impl FetchError {
    /// The text of the message for this error.
    pub open spec fn text(self) -> Seq<char> {
        "Unable to create url."@
    }

    /// A short message for the user.
    pub fn message(&self) -> (s: String)
        ensures
            s@ == self.text(),
    {
        String::from_str("Unable to create url.")
    }
}

/// What an accessor answers: the value asked for, or the URL that has to be
/// fetched first.
#[derive(Debug)]
pub enum Outcome<T> {
    /// The value, taken from the report that the client holds.
    Ready(T),
    /// No report is held yet: fetch this URL and hand the report in.
    Fetch(String),
}

/// What a client knows: the location and the key as given so far, and the
/// report, once it has one.
pub struct FetcherState {
    pub location: Seq<char>,
    pub key: Seq<char>,
    pub report: Option<WeatherReport>,
}

impl FetcherState {
    /// The request that is due: the forecast URL, as long as no report is
    /// held and a location is known.
    pub open spec fn request(self) -> Option<Seq<char>> {
        if self.report is None && self.location.len() > 0 {
            Some(forecast_url(self.key, self.location))
        } else {
            None
        }
    }

    /// The state after a report has come in: the first report is kept.
    pub open spec fn stored(self, report: WeatherReport) -> FetcherState {
        if self.report is Some {
            self
        } else {
            FetcherState { report: Some(report), ..self }
        }
    }

    /// The number of fetches that one call of an accessor causes: one if a
    /// request is due, none otherwise.
    pub open spec fn fetches(self) -> nat {
        if self.request() is Some {
            1
        } else {
            0
        }
    }

    /// The state after one call of an accessor has been answered: if a
    /// request was due, the report that the fetch brought is stored.
    pub open spec fn served(self, fetched: WeatherReport) -> FetcherState {
        if self.request() is Some {
            self.stored(fetched)
        } else {
            self
        }
    }
}

/// A weather client.
pub struct WeatherFetcher {
    locstr: String,
    key: String,
    report: Option<WeatherReport>,
}

impl View for WeatherFetcher {
    type V = FetcherState;

    closed spec fn view(&self) -> FetcherState {
        FetcherState { location: self.locstr@, key: self.key@, report: self.report }
    }
}

impl WeatherFetcher {
    /// A client that knows no location and no key and holds no report.
    pub fn new() -> (f: Self)
        ensures
            f@ == (FetcherState { location: Seq::empty(), key: Seq::empty(), report: None }),
    {
        WeatherFetcher { locstr: String::new(), key: String::new(), report: None }
    }

    /// Adds `city,state,country` to the location.
    pub fn set_location(&mut self, city: &str, state: &str, country: &str)
        ensures
            final(self)@ == (FetcherState {
                location: old(self)@.location + joined(seq![city@, state@, country@]),
                ..old(self)@
            }),
    {
        proof {
            crate::link::lemma_joined_three(city@, state@, country@);
        }
        let ghost before = self.locstr@;
        self.locstr.append(city);
        self.locstr.push(',');
        self.locstr.append(state);
        self.locstr.push(',');
        self.locstr.append(country);
        assert(self.locstr@ == before + (city@ + seq![','] + state@ + seq![','] + country@));
    }

    /// Adds the arguments of a command line to the location: all but the
    /// first, which names the program, joined by commas.
    pub fn set_location_vec(&mut self, loc: Vec<String>)
        ensures
            final(self)@ == (FetcherState {
                location: old(self)@.location + joined(after_program_name(arg_texts(loc@))),
                ..old(self)@
            }),
    {
        let location = join_location(&loc);
        self.locstr.append(location.as_str());
    }

    /// Adds `key` to the key.
    pub fn set_key(&mut self, key: &str)
        ensures
            final(self)@ == (FetcherState { key: old(self)@.key + key@, ..old(self)@ }),
    {
        self.key.append(key);
    }

    /// The URL for the present conditions at the location, or an error if
    /// no location is known.
    pub fn generate_link(&self) -> (r: Result<String, FetchError>)
        ensures
            self@.location.len() == 0 ==> r == Err::<String, FetchError>(FetchError::EmptyLocation),
            self@.location.len() > 0 ==> r is Ok && r->Ok_0@ == current_url(
                self@.key,
                self@.location,
            ),
    {
        if self.locstr.as_str().is_empty() {
            Err(FetchError::EmptyLocation)
        } else {
            Ok(build_current_url(self.key.as_str(), self.locstr.as_str()))
        }
    }

    /// The URL for the three-day forecast at the location, or an error if
    /// no location is known.
    pub fn generate_link_forecast(&self) -> (r: Result<String, FetchError>)
        ensures
            self@.location.len() == 0 ==> r == Err::<String, FetchError>(FetchError::EmptyLocation),
            self@.location.len() > 0 ==> r is Ok && r->Ok_0@ == forecast_url(
                self@.key,
                self@.location,
            ),
    {
        if self.locstr.as_str().is_empty() {
            Err(FetchError::EmptyLocation)
        } else {
            Ok(build_forecast_url(self.key.as_str(), self.locstr.as_str()))
        }
    }

    /// Whether a report is held.
    pub fn has_report(&self) -> (b: bool)
        ensures
            b == self@.report is Some,
    {
        self.report.is_some()
    }

    /// The report that is held, if any.
    pub fn report(&self) -> (r: Option<&WeatherReport>)
        ensures
            r is Some == self@.report is Some,
            r is Some ==> *r->Some_0 == self@.report->Some_0,
    {
        self.report.as_ref()
    }

    /// Takes the report that a fetch brought. The first report is kept for
    /// the rest of the run; a later one is dropped.
    pub fn store_report(&mut self, report: WeatherReport)
        ensures
            final(self)@ == old(self)@.stored(report),
    {
        if self.report.is_none() {
            self.report = Some(report);
        }
    }

    /// The named fields of the present conditions.
    ///
    /// With a report held, the fields come from it. Without one, the answer
    /// is the forecast URL to fetch, or an error if no location is known.
    pub fn get_weather_current(&self) -> (r: Result<Outcome<FieldMap>, FetchError>)
        ensures
            match self@.report {
                Some(report) => r matches Ok(Outcome::Ready(m)) && texts(m@) == current_fields(
                    report.current,
                ),
                None => match self@.request() {
                    Some(due) => r matches Ok(Outcome::Fetch(url)) && url@ == due,
                    None => r matches Err(e) && e == FetchError::EmptyLocation,
                },
            },
    {
        match &self.report {
            Some(rep) => Ok(Outcome::Ready(current_field_map(&rep.current))),
            None => match self.generate_link_forecast() {
                Ok(url) => Ok(Outcome::Fetch(url)),
                Err(e) => Err(e),
            },
        }
    }

    /// The named fields of the three forecast days, in the days' order.
    ///
    /// With a report held, the fields come from it. Without one, the answer
    /// is the forecast URL to fetch, or an error if no location is known.
    pub fn get_weather_forecast(&self) -> (r: Result<Outcome<Vec<FieldMap>>, FetchError>)
        ensures
            match self@.report {
                Some(report) => r matches Ok(Outcome::Ready(v)) && v@.len() == FORECAST_DAYS
                    && texts_of_each(v@) == forecast_fields(report.forecast),
                None => match self@.request() {
                    Some(due) => r matches Ok(Outcome::Fetch(url)) && url@ == due,
                    None => r matches Err(e) && e == FetchError::EmptyLocation,
                },
            },
    {
        match &self.report {
            Some(rep) => {
                let v = forecast_field_maps(&rep.forecast);
                assert(texts_of_each(v@).len() == v@.len());
                Ok(Outcome::Ready(v))
            },
            None => match self.generate_link_forecast() {
                Ok(url) => Ok(Outcome::Fetch(url)),
                Err(e) => Err(e),
            },
        }
    }

    /// The name of the place that the service resolved the location to.
    pub fn get_report_location(&self) -> (name: String)
        requires
            self@.report is Some,
        ensures
            name@ == self@.report->Some_0.location.name@,
    {
        let rep = self.report.as_ref().unwrap();
        rep.location.name.clone()
    }
}

/// One fetch serves both accessors: a client that knows a location and
/// holds no report causes exactly one fetch over two calls of accessors, and
/// the second call is answered from the report that the first one brought.
pub proof fn lemma_one_fetch_serves_both(
    s: FetcherState,
    first: WeatherReport,
    second: WeatherReport,
)
    requires
        s.report is None,
        s.location.len() > 0,
    ensures
        s.fetches() + s.served(first).fetches() == 1,
        s.served(first).served(second).report == Some(first),
{
}

/// Once a report is stored no request is due any more, and the report that
/// is held stays the one that came first.
pub proof fn lemma_stored_report_stays(s: FetcherState, report: WeatherReport)
    ensures
        s.stored(report).report is Some,
        s.stored(report).request() is None,
        s.report is None ==> s.stored(report).report == Some(report),
        forall|later: WeatherReport| #[trigger] s.stored(report).stored(later) == s.stored(report),
{
}

/// Without a location no request is ever due.
pub proof fn lemma_no_request_without_location(s: FetcherState)
    requires
        s.location.len() == 0,
    ensures
        s.request() is None,
{
}

} // verus!
