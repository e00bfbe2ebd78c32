//! The body of a new task request.
use vstd::prelude::*;

use crate::api::{band_urls_spec, url_step, FreedomApi};
use crate::error::Error;
use crate::text::{decimal_text, format_target_date, target_date_text, texts_view, Timestamp};
use crate::uri::joined_url;

verus! {

/// The kind of a task request.
#[derive(Debug, Clone, Copy, PartialEq, Eq, Structural)]
pub enum TaskType {
    Before,
    After,
    Test,
    Around,
    Exact,
}

/// A new task request.
pub struct TaskRequest {
    pub typ: TaskType,
    pub site: String,
    pub satellite: String,
    pub configuration: String,
    pub target_bands: Vec<String>,
    pub target_date: String,
    pub duration: u64,
    pub minimum_duration: Option<u64>,
    pub hours_of_flex: Option<u8>,
    pub test_file: Option<String>,
    pub with_override: Option<String>,
}

/// What a kind of task sets in the request it belongs to.
pub trait TaskInner {
    /// `request` with this kind's fields set.
    spec fn adjusted(&self, request: TaskRequest) -> TaskRequest;

    /// Sets this kind's fields in `request`.
    fn adjust(&mut self, request: &mut TaskRequest)
        ensures
            *final(request) == old(self).adjusted(*old(request)),
    ;
}

/// No kind chosen yet.
pub struct NoType;

/// A test task, which plays back the given file.
pub struct TestTask {
    pub test_file: String,
}

/// When a flexible task may move relative to its target time.
pub enum FlexTaskKind {
    Before,
    After,
    Around,
}

/// A flexible task, which may move by up to `hours_of_flex` hours.
pub struct FlexTask {
    pub kind: FlexTaskKind,
    pub hours_of_flex: u8,
}

/// A task at exactly its target time.
pub struct ExactTask;

/// The task type of a flexible task of the given kind.
pub open spec fn flex_type(kind: FlexTaskKind) -> TaskType {
    match kind {
        FlexTaskKind::Before => TaskType::Before,
        FlexTaskKind::After => TaskType::After,
        FlexTaskKind::Around => TaskType::Around,
    }
}

impl TaskInner for TestTask {
    open spec fn adjusted(&self, request: TaskRequest) -> TaskRequest {
        TaskRequest { typ: TaskType::Test, test_file: Some(self.test_file), ..request }
    }

    fn adjust(&mut self, request: &mut TaskRequest) {
        let mut file = String::new();
        core::mem::swap(&mut file, &mut self.test_file);
        request.typ = TaskType::Test;
        request.test_file = Some(file);
    }
}

impl TaskInner for FlexTask {
    open spec fn adjusted(&self, request: TaskRequest) -> TaskRequest {
        TaskRequest {
            typ: flex_type(self.kind),
            hours_of_flex: Some(self.hours_of_flex),
            ..request
        }
    }

    fn adjust(&mut self, request: &mut TaskRequest) {
        let kind = match self.kind {
            FlexTaskKind::Before => TaskType::Before,
            FlexTaskKind::After => TaskType::After,
            FlexTaskKind::Around => TaskType::Around,
        };
        request.typ = kind;
        request.hours_of_flex = Some(self.hours_of_flex);
    }
}

impl TaskInner for ExactTask {
    open spec fn adjusted(&self, request: TaskRequest) -> TaskRequest {
        TaskRequest { typ: TaskType::Exact, ..request }
    }

    fn adjust(&mut self, request: &mut TaskRequest) {
        request.typ = TaskType::Exact;
    }
}

/// Builds a [`TaskRequest`], one required field at a time.
pub struct TaskRequestBuilder<'a, C, S> {
    client: &'a C,
    state: S,
}

impl<'a, C, S> TaskRequestBuilder<'a, C, S> {
    /// The fields given so far.
    pub closed spec fn current(&self) -> S {
        self.state
    }

    /// The client the body is for.
    pub closed spec fn client_ref(&self) -> &'a C {
        self.client
    }

    /// The fields given so far.
    pub fn state(&self) -> (r: &S)
        ensures
            *r == self.current(),
    {
        &self.state
    }

    /// The client the body is for.
    pub fn client(&self) -> (r: &'a C)
        ensures
            r == self.client_ref(),
    {
        self.client
    }
}

/// Starts a task request body for `client`.
pub fn new<C>(client: &C) -> (r: TaskRequestBuilder<'_, C, NoType>)
    ensures
        r.client_ref() == client,
{
    TaskRequestBuilder { client, state: NoType }
}

impl<'a, C> TaskRequestBuilder<'a, C, NoType> {
    /// Chooses a task at exactly its target time.
    pub fn exact_task(self) -> (r: TaskRequestBuilder<'a, C, NoTime<ExactTask>>)
        ensures
            r.client_ref() == self.client_ref(),
            r.current() == (NoTime { kind: ExactTask }),
    {
        TaskRequestBuilder { client: self.client, state: NoTime { kind: ExactTask } }
    }

    /// Chooses a flexible task of the given kind.
    pub fn flex_task(self, kind: FlexTaskKind, hours_of_flex: u8) -> (r: TaskRequestBuilder<
        'a,
        C,
        NoTime<FlexTask>,
    >)
        ensures
            r.client_ref() == self.client_ref(),
            r.current() == (NoTime { kind: FlexTask { kind, hours_of_flex } }),
    {
        TaskRequestBuilder {
            client: self.client,
            state: NoTime { kind: FlexTask { kind, hours_of_flex } },
        }
    }

    /// Chooses a task that may move up to `hours_of_flex` hours after its target time.
    pub fn flex_task_after(self, hours_of_flex: u8) -> (r: TaskRequestBuilder<
        'a,
        C,
        NoTime<FlexTask>,
    >)
        ensures
            r.client_ref() == self.client_ref(),
            r.current() == (NoTime { kind: FlexTask { kind: FlexTaskKind::After, hours_of_flex } }),
    {
        self.flex_task(FlexTaskKind::After, hours_of_flex)
    }

    /// Chooses a task that may move up to `hours_of_flex` hours around its target time.
    pub fn flex_task_around(self, hours_of_flex: u8) -> (r: TaskRequestBuilder<
        'a,
        C,
        NoTime<FlexTask>,
    >)
        ensures
            r.client_ref() == self.client_ref(),
            r.current() == (NoTime { kind: FlexTask { kind: FlexTaskKind::Around, hours_of_flex } }),
    {
        self.flex_task(FlexTaskKind::Around, hours_of_flex)
    }

    /// Chooses a task that may move up to `hours_of_flex` hours before its target time.
    pub fn flex_task_before(self, hours_of_flex: u8) -> (r: TaskRequestBuilder<
        'a,
        C,
        NoTime<FlexTask>,
    >)
        ensures
            r.client_ref() == self.client_ref(),
            r.current() == (NoTime { kind: FlexTask { kind: FlexTaskKind::Before, hours_of_flex } }),
    {
        self.flex_task(FlexTaskKind::Before, hours_of_flex)
    }

    /// Chooses a test task that plays back `test_file`.
    pub fn test_task(self, test_file: String) -> (r: TaskRequestBuilder<'a, C, NoTime<TestTask>>)
        ensures
            r.client_ref() == self.client_ref(),
            r.current() == (NoTime { kind: TestTask { test_file } }),
    {
        TaskRequestBuilder { client: self.client, state: NoTime { kind: TestTask { test_file } } }
    }
}

/// The kind is chosen.
pub struct NoTime<T> {
    pub kind: T,
}

impl<'a, C, T> TaskRequestBuilder<'a, C, NoTime<T>> {
    /// Gives the target time.
    pub fn target_time_utc(self, time: Timestamp) -> (r: TaskRequestBuilder<'a, C, NoDuration<T>>)
        ensures
            r.client_ref() == self.client_ref(),
            r.current() == (NoDuration { kind: self.current().kind, time }),
    {
        TaskRequestBuilder { client: self.client, state: NoDuration { kind: self.state.kind, time } }
    }
}

/// The kind and target time are given.
pub struct NoDuration<T> {
    pub kind: T,
    pub time: Timestamp,
}

impl<'a, C, T> TaskRequestBuilder<'a, C, NoDuration<T>> {
    /// Gives the duration, in seconds.
    pub fn task_duration(self, seconds: u64) -> (r: TaskRequestBuilder<'a, C, NoSatellite<T>>)
        ensures
            r.client_ref() == self.client_ref(),
            r.current() == (NoSatellite {
                kind: self.current().kind,
                time: self.current().time,
                duration: seconds,
            }),
    {
        TaskRequestBuilder {
            client: self.client,
            state: NoSatellite { kind: self.state.kind, time: self.state.time, duration: seconds },
        }
    }
}

/// The kind, target time and duration are given.
pub struct NoSatellite<T> {
    pub kind: T,
    pub time: Timestamp,
    pub duration: u64,
}

impl<'a, C: FreedomApi, T> TaskRequestBuilder<'a, C, NoSatellite<T>> {
    /// Gives the satellite by id, as its URL under the client's entrypoint.
    pub fn satellite_id(self, id: i32) -> (r: Result<TaskRequestBuilder<'a, C, NoSite<T>>, Error>)
        ensures
            url_step(
                r,
                joined_url(self.client_ref().entrypoint_view(), "satellites/"@ + decimal_text(id as int)),
                |b: TaskRequestBuilder<'a, C, NoSite<T>>, u: Seq<char>|
                    b.client_ref() == self.client_ref() && b.current().kind == self.current().kind
                        && b.current().time == self.current().time && b.current().duration
                        == self.current().duration && b.current().satellite@ == u,
            ),
    {
        let satellite = self.client.satellite_url(id)?;
        Ok(self.satellite_url(satellite))
    }
}

impl<'a, C, T> TaskRequestBuilder<'a, C, NoSatellite<T>> {
    /// Gives the URL of the satellite.
    pub fn satellite_url(self, url: String) -> (r: TaskRequestBuilder<'a, C, NoSite<T>>)
        ensures
            r.client_ref() == self.client_ref(),
            r.current() == (NoSite {
                kind: self.current().kind,
                time: self.current().time,
                duration: self.current().duration,
                satellite: url,
            }),
    {
        TaskRequestBuilder {
            client: self.client,
            state: NoSite {
                kind: self.state.kind,
                time: self.state.time,
                duration: self.state.duration,
                satellite: url,
            },
        }
    }
}

/// The kind, target time, duration and satellite are given.
pub struct NoSite<T> {
    pub kind: T,
    pub time: Timestamp,
    pub duration: u64,
    pub satellite: String,
}

impl<'a, C: FreedomApi, T> TaskRequestBuilder<'a, C, NoSite<T>> {
    /// Gives the site by id, as its URL under the client's entrypoint.
    pub fn site_id(self, id: i32) -> (r: Result<TaskRequestBuilder<'a, C, NoConfig<T>>, Error>)
        ensures
            url_step(
                r,
                joined_url(self.client_ref().entrypoint_view(), "sites/"@ + decimal_text(id as int)),
                |b: TaskRequestBuilder<'a, C, NoConfig<T>>, u: Seq<char>|
                    b.client_ref() == self.client_ref() && b.current().kind == self.current().kind
                        && b.current().time == self.current().time && b.current().duration
                        == self.current().duration && b.current().satellite
                        == self.current().satellite && b.current().site@ == u,
            ),
    {
        let site = self.client.site_by_id_url(id)?;
        Ok(self.site_url(site))
    }
}

impl<'a, C, T> TaskRequestBuilder<'a, C, NoSite<T>> {
    /// Gives the URL of the site.
    pub fn site_url(self, url: String) -> (r: TaskRequestBuilder<'a, C, NoConfig<T>>)
        ensures
            r.client_ref() == self.client_ref(),
            r.current() == (NoConfig {
                kind: self.current().kind,
                time: self.current().time,
                duration: self.current().duration,
                satellite: self.current().satellite,
                site: url,
            }),
    {
        TaskRequestBuilder {
            client: self.client,
            state: NoConfig {
                kind: self.state.kind,
                time: self.state.time,
                duration: self.state.duration,
                satellite: self.state.satellite,
                site: url,
            },
        }
    }
}

/// The kind, target time, duration, satellite and site are given.
pub struct NoConfig<T> {
    pub kind: T,
    pub time: Timestamp,
    pub duration: u64,
    pub satellite: String,
    pub site: String,
}

impl<'a, C: FreedomApi, T> TaskRequestBuilder<'a, C, NoConfig<T>> {
    /// Gives the site configuration by id, as its URL under the client's entrypoint.
    pub fn site_configuration_id(self, id: i32) -> (r: Result<
        TaskRequestBuilder<'a, C, NoBand<T>>,
        Error,
    >)
        ensures
            url_step(
                r,
                joined_url(
                    self.client_ref().entrypoint_view(),
                    "configurations/"@ + decimal_text(id as int),
                ),
                |b: TaskRequestBuilder<'a, C, NoBand<T>>, u: Seq<char>|
                    b.client_ref() == self.client_ref() && b.current().kind == self.current().kind
                        && b.current().time == self.current().time && b.current().duration
                        == self.current().duration && b.current().satellite
                        == self.current().satellite && b.current().site == self.current().site
                        && b.current().configuration@ == u,
            ),
    {
        let configuration = self.client.site_configuration_url(id)?;
        Ok(self.site_configuration_url(configuration))
    }
}

impl<'a, C, T> TaskRequestBuilder<'a, C, NoConfig<T>> {
    /// Gives the URL of the site configuration.
    pub fn site_configuration_url(self, url: String) -> (r: TaskRequestBuilder<'a, C, NoBand<T>>)
        ensures
            r.client_ref() == self.client_ref(),
            r.current() == (NoBand {
                kind: self.current().kind,
                time: self.current().time,
                duration: self.current().duration,
                satellite: self.current().satellite,
                site: self.current().site,
                configuration: url,
            }),
    {
        TaskRequestBuilder {
            client: self.client,
            state: NoBand {
                kind: self.state.kind,
                time: self.state.time,
                duration: self.state.duration,
                satellite: self.state.satellite,
                site: self.state.site,
                configuration: url,
            },
        }
    }
}

/// Everything but the bands is given.
pub struct NoBand<T> {
    pub kind: T,
    pub time: Timestamp,
    pub duration: u64,
    pub satellite: String,
    pub site: String,
    pub configuration: String,
}

/// The request a builder holding `s` finishes with, given the band URLs and the target date
/// text: the minimum duration is the duration, and the kind then sets its own fields.
pub open spec fn finished<T: TaskInner>(s: NoBand<T>, bands: Vec<String>, date: String) -> TaskRequest {
    s.kind.adjusted(
        TaskRequest {
            typ: TaskType::After,
            site: s.site,
            satellite: s.satellite,
            configuration: s.configuration,
            target_bands: bands,
            target_date: date,
            duration: s.duration,
            minimum_duration: Some(s.duration),
            hours_of_flex: None,
            test_file: None,
            with_override: None,
        },
    )
}

impl<'a, C, T: TaskInner> TaskRequestBuilder<'a, C, NoBand<T>> {
    /// Gives the bands by id, as their URLs under the client's entrypoint, in order; the
    /// request is then complete (see `band_urls`).
    pub fn band_ids(self, ids: Vec<i32>) -> (r: Result<TaskRequestBuilder<'a, C, TaskRequest>, Error>)
        where C: FreedomApi,
        ensures
            match band_urls_spec(self.client_ref().entrypoint_view(), ids@) {
                Err(m) => r matches Err(Error::InvalidUri(t)) && t@ == m,
                Ok(us) => match target_date_text(self.current().time.unix_nanos as int) {
                    Err(m) => r matches Err(Error::TimeFormatError(t)) && t@ == m,
                    Ok(d) => r matches Ok(b) && b.client_ref() == self.client_ref() && exists|
                        bands: Vec<String>,
                        date: String,
                    |
                        #![auto]
                        texts_view(bands@) == us && date@ == d && b.current() == finished(
                            self.current(),
                            bands,
                            date,
                        ),
                },
            },
    {
        let urls = self.client.band_detail_urls(&ids)?;
        self.band_urls(urls)
    }

    /// Gives the URLs of the bands; the request is then complete: its target date is the
    /// target time written as `[year]-[month]-[day]T[hour]:[minute]:[second]Z`, its minimum
    /// duration is its duration, and the kind sets its own fields.
    pub fn band_urls(self, urls: Vec<String>) -> (r: Result<TaskRequestBuilder<'a, C, TaskRequest>, Error>)
        ensures
            match target_date_text(self.current().time.unix_nanos as int) {
                Err(m) => r matches Err(Error::TimeFormatError(t)) && t@ == m,
                Ok(d) => r matches Ok(b) && b.client_ref() == self.client_ref() && exists|date: String|
                    #![auto]
                    date@ == d && b.current() == finished(self.current(), urls, date),
            },
    {
        let target_date = match format_target_date(self.state.time.unix_nanos) {
            Ok(d) => d,
            Err(m) => {
                return Err(Error::TimeFormatError(m));
            },
        };
        let ghost date = target_date;
        let NoBand { kind, time: _, duration, satellite, site, configuration } = self.state;
        let mut state = TaskRequest {
            typ: TaskType::After,
            site,
            satellite,
            configuration,
            target_bands: urls,
            target_date,
            duration,
            minimum_duration: Some(duration),
            hours_of_flex: None,
            test_file: None,
            with_override: None,
        };
        let mut kind = kind;
        kind.adjust(&mut state);
        assert(state == finished(self.current(), urls, date));
        Ok(TaskRequestBuilder { client: self.client, state })
    }
}

impl<'a, C> TaskRequestBuilder<'a, C, TaskRequest> {
    /// Sets the minimum duration, in seconds.
    pub fn task_minimum_duration(self, duration: u64) -> (r: Self)
        ensures
            r.client_ref() == self.client_ref(),
            r.current() == (TaskRequest { minimum_duration: Some(duration), ..self.current() }),
    {
        let mut b = self;
        b.state.minimum_duration = Some(duration);
        b
    }

    /// Sets the URL of the override to apply.
    pub fn override_url(self, url: String) -> (r: Self)
        ensures
            r.client_ref() == self.client_ref(),
            r.current() == (TaskRequest { with_override: Some(url), ..self.current() }),
    {
        let mut b = self;
        b.state.with_override = Some(url);
        b
    }
}

impl<'a, C: FreedomApi> TaskRequestBuilder<'a, C, TaskRequest> {
    /// Sets the override to apply by id, as its URL under the client's entrypoint.
    pub fn override_id(self, id: i32) -> (r: Result<Self, Error>)
        ensures
            url_step(
                r,
                joined_url(self.client_ref().entrypoint_view(), "overrides/"@ + decimal_text(id as int)),
                |b: Self, u: Seq<char>|
                    b.client_ref() == self.client_ref() && exists|o: String|
                        #![auto]
                        o@ == u && b.current() == (TaskRequest {
                            with_override: Some(o),
                            ..self.current()
                        }),
            ),
    {
        let url = self.client.override_url(id)?;
        Ok(self.override_url(url))
    }
}

} // verus!
