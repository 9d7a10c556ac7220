//! The decisions of a run: which city to fetch next, which record to write
//! next, and what each outcome adds to the report. The caller performs each
//! step (a request to the provider, a write to the store) and hands the
//! outcome back; nothing here is retried.

use vstd::prelude::*;
use crate::gateway::WriteStatus;
use crate::ident::city_key;
use crate::records::{
    City, MainWeather, Sun, Temperature, Wind, is_city_ref, is_main_weather_of, is_sun_of,
    is_temperature_of, is_wind_of, to_main_weather, to_sun, to_temperature, to_wind,
};
use crate::weather::WeatherResponse;

verus! {

/// The largest number of cities one run takes.
pub const MAX_CITIES: u64 = 0x1000_0000_0000_0000;

/// A row to write, with the collection it goes to.
#[derive(Clone, Debug)]
pub enum Record {
    MainWeather(MainWeather),
    Sun(Sun),
    Temperature(Temperature),
    Wind(Wind),
}

/// The collection a record is written to.
pub open spec fn collection_of(r: Record) -> Seq<char> {
    match r {
        Record::MainWeather(_) => "main_weather"@,
        Record::Sun(_) => "sunset"@,
        Record::Temperature(_) => "temperature"@,
        Record::Wind(_) => "wind"@,
    }
}

impl Record {
    /// The name of the collection this record is written to.
    pub fn collection(&self) -> (r: String)
        ensures
            r@ == collection_of(*self),
    {
        match self {
            Record::MainWeather(_) => String::from_str("main_weather"),
            Record::Sun(_) => String::from_str("sunset"),
            Record::Temperature(_) => String::from_str("temperature"),
            Record::Wind(_) => String::from_str("wind"),
        }
    }
}

/// The four rows made from reading `r` for city `c`, in the order they are
/// written: main weather, sun, temperature, wind.
pub open spec fn records_for(s: Seq<Record>, c: City, r: WeatherResponse) -> bool {
    &&& s.len() == 4
    &&& s[0] is MainWeather && is_main_weather_of(s[0]->MainWeather_0, c, r)
    &&& s[1] is Sun && is_sun_of(s[1]->Sun_0, c, r)
    &&& s[2] is Temperature && is_temperature_of(s[2]->Temperature_0, c, r)
    &&& s[3] is Wind && is_wind_of(s[3]->Wind_0, c, r)
}

/// The four rows of a reading for a city.
pub fn city_records(c: &City, r: &WeatherResponse) -> (s: Vec<Record>)
    ensures
        records_for(s@, *c, *r),
{
    let mut s: Vec<Record> = Vec::new();
    s.push(Record::MainWeather(to_main_weather(c, r)));
    s.push(Record::Sun(to_sun(c, r)));
    s.push(Record::Temperature(to_temperature(c, r)));
    s.push(Record::Wind(to_wind(c, r)));
    s
}

/// What fetching the reading of a city came to.
#[derive(Clone, Debug)]
pub enum FetchOutcome {
    /// A reading, decoded.
    Reading(WeatherResponse),
    /// The provider answered with a status other than success.
    HttpStatus(u16),
    /// The body did not decode as a reading.
    Undecodable(String),
    /// The request did not complete (timeout, refused connection).
    Transport(String),
}

/// What a response's status says before its body is read: nothing for a
/// success status (200 to 299), whose body is then decoded; otherwise the
/// failure that skips the city.
pub fn status_failure(status: u16) -> (r: Option<FetchOutcome>)
    ensures
        r is None <==> 200 <= status <= 299,
        r matches Some(o) ==> o == FetchOutcome::HttpStatus(status),
{
    if 200 <= status && status <= 299 {
        None
    } else {
        Some(FetchOutcome::HttpStatus(status))
    }
}

/// The counts of a run.
#[derive(Clone, Copy, Debug, PartialEq, Eq, Structural)]
pub struct BatchReport {
    /// Cities whose reading was fetched and turned into records.
    pub cities_done: u64,
    /// Cities skipped because their reading could not be had.
    pub cities_skipped: u64,
    /// Writes the store acknowledged.
    pub writes_saved: u64,
    /// Writes whose only error was the acknowledgement's decoding.
    pub writes_tolerated: u64,
    /// Writes that failed.
    pub writes_failed: u64,
}

impl BatchReport {
    /// All writes attempted so far.
    pub open spec fn writes(self) -> int {
        self.writes_saved + self.writes_tolerated + self.writes_failed
    }
}

/// The next thing a run does.
#[derive(Clone, Copy, Debug, PartialEq, Eq, Structural)]
pub enum Step {
    /// Fetch the reading of the city at this position of the directory.
    Fetch { city: usize },
    /// Write the pending record at this position.
    Write { record: usize },
    /// Every city has been handled.
    Finished,
}

/// A run over a list of cities, one city at a time in list order. For each
/// city the reading is fetched; if that fails the city is skipped, otherwise
/// its four records are written one by one, each write judged on its own.
pub struct Pipeline {
    pub cities: Vec<City>,
    pub next_city: usize,
    pub pending: Vec<Record>,
    pub written: usize,
    pub report: BatchReport,
}

impl Pipeline {
    /// The run's bookkeeping is consistent: every city before `next_city` is
    /// counted once, as done or skipped, and every done city has had its four
    /// writes attempted, or has the rest of them pending.
    pub open spec fn wf(&self) -> bool {
        &&& self.cities@.len() <= MAX_CITIES
        &&& self.next_city <= self.cities@.len()
        &&& self.written <= self.pending@.len()
        &&& self.report.cities_done + self.report.cities_skipped == self.next_city
        &&& self.report.writes() + (self.pending@.len() - self.written) == 4
            * self.report.cities_done
        &&& self.pending@.len() == 0 || self.pending@.len() == 4
    }

    /// The step a run in this state takes next.
    pub open spec fn step(&self) -> Step {
        if self.written < self.pending@.len() {
            Step::Write { record: self.written }
        } else if self.next_city < self.cities@.len() {
            Step::Fetch { city: self.next_city }
        } else {
            Step::Finished
        }
    }

    /// A run over `cities` that has done nothing yet.
    pub fn new(cities: Vec<City>) -> (p: Pipeline)
        requires
            cities@.len() <= MAX_CITIES,
        ensures
            p.wf(),
            p.cities@ == cities@,
            p.next_city == 0,
            p.pending@.len() == 0,
            p.written == 0,
            p.report == (BatchReport {
                cities_done: 0,
                cities_skipped: 0,
                writes_saved: 0,
                writes_tolerated: 0,
                writes_failed: 0,
            }),
    {
        Pipeline {
            cities,
            next_city: 0,
            pending: Vec::new(),
            written: 0,
            report: BatchReport {
                cities_done: 0,
                cities_skipped: 0,
                writes_saved: 0,
                writes_tolerated: 0,
                writes_failed: 0,
            },
        }
    }

    /// The step to take next: the next pending write, else the next city's
    /// fetch, else the end of the run.
    pub fn next_step(&self) -> (r: Step)
        requires
            self.wf(),
        ensures
            r == self.step(),
    {
        if self.written < self.pending.len() {
            Step::Write { record: self.written }
        } else if self.next_city < self.cities.len() {
            Step::Fetch { city: self.next_city }
        } else {
            Step::Finished
        }
    }

    /// Takes in what the fetch of the current city came to. A reading makes
    /// the city done and its four records pending; any failure (an error
    /// status such as 404 or 500, an undecodable body, a transport error)
    /// skips the city, and the run goes on with the next one.
    pub fn on_fetched(&mut self, outcome: FetchOutcome)
        requires
            old(self).wf(),
            old(self).step() is Fetch,
        ensures
            final(self).wf(),
            final(self).cities@ == old(self).cities@,
            final(self).next_city == old(self).next_city + 1,
            final(self).written == 0,
            final(self).report.writes_saved == old(self).report.writes_saved,
            final(self).report.writes_tolerated == old(self).report.writes_tolerated,
            final(self).report.writes_failed == old(self).report.writes_failed,
            match outcome {
                FetchOutcome::Reading(r) => {
                    &&& records_for(
                        final(self).pending@,
                        old(self).cities@[old(self).next_city as int],
                        r,
                    )
                    &&& final(self).report.cities_done == old(self).report.cities_done + 1
                    &&& final(self).report.cities_skipped == old(self).report.cities_skipped
                },
                _ => {
                    &&& final(self).pending@.len() == 0
                    &&& final(self).report.cities_done == old(self).report.cities_done
                    &&& final(self).report.cities_skipped == old(self).report.cities_skipped
                        + 1
                },
            },
    {
        let i = self.next_city;
        let n = self.cities.len();
        assert(i < n);
        let next = i + 1;
        match outcome {
            FetchOutcome::Reading(r) => {
                let records = city_records(&self.cities[i], &r);
                self.pending = records;
                self.report.cities_done = self.report.cities_done + 1;
            },
            _ => {
                self.pending = Vec::new();
                self.report.cities_skipped = self.report.cities_skipped + 1;
            },
        }
        self.written = 0;
        self.next_city = next;
    }

    /// Takes in what the write of the current pending record came to, and
    /// counts it; the next record is attempted whatever this one came to.
    pub fn on_written(&mut self, status: WriteStatus)
        requires
            old(self).wf(),
            old(self).step() is Write,
        ensures
            final(self).wf(),
            final(self).cities@ == old(self).cities@,
            final(self).next_city == old(self).next_city,
            final(self).pending@ == old(self).pending@,
            final(self).written == old(self).written + 1,
            final(self).report.cities_done == old(self).report.cities_done,
            final(self).report.cities_skipped == old(self).report.cities_skipped,
            final(self).report.writes_saved == old(self).report.writes_saved + if status
                == WriteStatus::Saved {
                1int
            } else {
                0
            },
            final(self).report.writes_tolerated == old(self).report.writes_tolerated + if status
                == WriteStatus::Tolerated {
                1int
            } else {
                0
            },
            final(self).report.writes_failed == old(self).report.writes_failed + if status
                == WriteStatus::Failed {
                1int
            } else {
                0
            },
    {
        match status {
            WriteStatus::Saved => {
                self.report.writes_saved = self.report.writes_saved + 1;
            },
            WriteStatus::Tolerated => {
                self.report.writes_tolerated = self.report.writes_tolerated + 1;
            },
            WriteStatus::Failed => {
                self.report.writes_failed = self.report.writes_failed + 1;
            },
        }
        self.written = self.written + 1;
    }
}

/// At the end of a run every city has been counted once, as done or
/// skipped, and every done city has had each of its four writes attempted
/// exactly once.
pub proof fn lemma_finished_run_accounts_for_all(p: Pipeline)
    requires
        p.wf(),
        p.step() is Finished,
    ensures
        p.report.cities_done + p.report.cities_skipped == p.cities@.len(),
        p.report.writes() == 4 * p.report.cities_done,
{
}

/// How many temperature rows a sequence of records holds.
pub open spec fn temperature_rows(s: Seq<Record>) -> nat {
    s.filter(|r: Record| r is Temperature).len()
}

/// Running twice for the same city appends two temperature rows, one per
/// run, while both refer to the city by the same key.
pub proof fn lemma_rerun_appends_rows(
    a: Seq<Record>,
    b: Seq<Record>,
    c: City,
    r1: WeatherResponse,
    r2: WeatherResponse,
)
    requires
        records_for(a, c, r1),
        records_for(b, c, r2),
    ensures
        temperature_rows(a + b) == 2,
        is_city_ref(a[2]->Temperature_0.city, c.name@),
        is_city_ref(b[2]->Temperature_0.city, c.name@),
        a[2]->Temperature_0.city.key@ == b[2]->Temperature_0.city.key@,
{
    let pred = |r: Record| r is Temperature;
    lemma_one_temperature_row(a, c, r1);
    lemma_one_temperature_row(b, c, r2);
    Seq::filter_distributes_over_add(a, b, pred);
}

proof fn lemma_one_temperature_row(s: Seq<Record>, c: City, r: WeatherResponse)
    requires
        records_for(s, c, r),
    ensures
        temperature_rows(s) == 1,
{
    reveal_with_fuel(Seq::filter, 5);
    let pred = |r: Record| r is Temperature;
    assert(s.drop_last().drop_last().drop_last().drop_last() =~= Seq::<Record>::empty());
    assert(s.drop_last().last() == s[2]);
    assert(s.drop_last().drop_last().last() == s[1]);
    assert(s.drop_last().drop_last().drop_last().last() == s[0]);
}

} // verus!
