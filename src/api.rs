//! The request surface: how each query of the service becomes a URL.
//!
//! Every read, write and delete is addressed by a path under the client's entrypoint and,
//! for searches, a query. The methods here build those URLs; fetching them is left to the
//! transport.
use vstd::prelude::*;

use crate::error::Error;
use crate::text::{
    comma_join, decimal_text, format_iso8601, int_text, iso8601_text, list_to_string,
    texts_view, Timestamp,
};
use crate::uri::{joined_url, queried_url, url_join, url_set_query};

verus! {

/// Whether `r` is the URL `expected` describes: its text, or an `InvalidUri` error holding
/// the parser's message.
pub open spec fn uri_result(
    r: Result<String, Error>,
    expected: Result<Seq<char>, Seq<char>>,
) -> bool {
    match expected {
        Ok(u) => r matches Ok(v) && v@ == u,
        Err(m) => r matches Err(Error::InvalidUri(t)) && t@ == m,
    }
}

/// Whether `r` is what a step that needs the URL `url` gives: a value that `ok` accepts
/// together with the URL's text, or an `InvalidUri` error holding the parser's message.
pub open spec fn url_step<B>(
    r: Result<B, Error>,
    url: Result<Seq<char>, Seq<char>>,
    ok: spec_fn(B, Seq<char>) -> bool,
) -> bool {
    match url {
        Ok(u) => r matches Ok(b) && ok(b, u),
        Err(m) => r matches Err(Error::InvalidUri(t)) && t@ == m,
    }
}

/// The URL of `path` under `base`, with `query` as its query.
pub open spec fn search_spec(base: Seq<char>, path: Seq<char>, query: Seq<char>) -> Result<
    Seq<char>,
    Seq<char>,
> {
    match joined_url(base, path) {
        Ok(u) => queried_url(u, query),
        Err(m) => Err(m),
    }
}

/// Whether `r` is what building a URL from two formatted instants gives: the first
/// formatting failure as a `TimeFormatError`, else `uri_result` of what `url` makes of the
/// two texts.
pub open spec fn with_times(
    r: Result<String, Error>,
    start: Timestamp,
    end: Timestamp,
    url: spec_fn(Seq<char>, Seq<char>) -> Result<Seq<char>, Seq<char>>,
) -> bool {
    match iso8601_text(start.unix_nanos as int) {
        Err(m) => r matches Err(Error::TimeFormatError(t)) && t@ == m,
        Ok(s) => match iso8601_text(end.unix_nanos as int) {
            Err(m) => r matches Err(Error::TimeFormatError(t)) && t@ == m,
            Ok(e) => uri_result(r, url(s, e)),
        },
    }
}

/// An instant's ISO 8601 text, or a `TimeFormatError`.
fn iso_time(t: Timestamp) -> (r: Result<String, Error>)
    ensures
        match iso8601_text(t.unix_nanos as int) {
            Ok(s) => r matches Ok(v) && v@ == s,
            Err(m) => r matches Err(Error::TimeFormatError(v)) && v@ == m,
        },
{
    match format_iso8601(t.unix_nanos) {
        Ok(s) => Ok(s),
        Err(m) => Err(Error::TimeFormatError(m)),
    }
}

/// The URLs of the satellite bands with ids `ids`, in order, or the first parser message.
pub open spec fn band_urls_spec(base: Seq<char>, ids: Seq<i32>) -> Result<Seq<Seq<char>>, Seq<char>>
    decreases ids.len(),
{
    if ids.len() == 0 {
        Ok(Seq::empty())
    } else {
        match band_urls_spec(base, ids.drop_last()) {
            Err(m) => Err(m),
            Ok(us) => {
                let path = "satellite_bands/"@ + decimal_text(ids.last() as int);
                match joined_url(base, path) {
                    Ok(u) => Ok(us.push(u)),
                    Err(m) => Err(m),
                }
            },
        }
    }
}

/// Once the URLs of a prefix of `ids` fail, those of all of `ids` fail the same way.
proof fn lemma_band_urls_fail(base: Seq<char>, ids: Seq<i32>, i: int, m: Seq<char>)
    requires
        0 <= i <= ids.len(),
        band_urls_spec(base, ids.take(i)) == Err::<Seq<Seq<char>>, Seq<char>>(m),
    ensures
        band_urls_spec(base, ids) == Err::<Seq<Seq<char>>, Seq<char>>(m),
    decreases ids.len() - i,
{
    if i < ids.len() {
        assert(ids.take(i + 1).drop_last() =~= ids.take(i));
        lemma_band_urls_fail(base, ids, i + 1, m);
    } else {
        assert(ids.take(i) =~= ids);
    }
}

/// Whether `r` holds the texts `expected` describes, or an `InvalidUri` error with its message.
pub open spec fn uris_result(
    r: Result<Vec<String>, Error>,
    expected: Result<Seq<Seq<char>>, Seq<char>>,
) -> bool {
    match expected {
        Ok(us) => r matches Ok(v) && texts_view(v@) == us,
        Err(m) => r matches Err(Error::InvalidUri(t)) && t@ == m,
    }
}

/// The parts of the service that locate resources: an entrypoint, and URLs built under it.
pub trait FreedomApi {
    /// The entrypoint URL, as text.
    spec fn entrypoint_view(&self) -> Seq<char>;

    /// The entrypoint URL, as text.
    fn entrypoint(&self) -> (r: &str)
        ensures
            r@ == self.entrypoint_view(),
    ;

    /// The URL of `path` resolved against the entrypoint.
    fn path_to_url(&self, path: &str) -> (r: Result<String, Error>)
        ensures
            uri_result(r, joined_url(self.entrypoint_view(), path@)),
    {
        match url_join(self.entrypoint(), path) {
            Ok(u) => Ok(u),
            Err(m) => Err(Error::InvalidUri(m)),
        }
    }

    /// The URL of `path` under the entrypoint, with `query` as its query.
    fn search_url(&self, path: &str, query: &str) -> (r: Result<String, Error>)
        ensures
            uri_result(r, search_spec(self.entrypoint_view(), path@, query@)),
    {
        let u = self.path_to_url(path)?;
        match url_set_query(u.as_str(), query) {
            Ok(q) => Ok(q),
            Err(m) => Err(Error::InvalidUri(m)),
        }
    }

    /// The URL of the collection of accounts.
    fn accounts_url(&self) -> (r: Result<String, Error>)
        ensures
            uri_result(r, joined_url(self.entrypoint_view(), "accounts"@)),
    {
        self.path_to_url("accounts")
    }

    /// The URL of the account with the given id.
    fn account_by_id_url(&self, account_id: i32) -> (r: Result<String, Error>)
        ensures
            uri_result(
                r,
                joined_url(
                    self.entrypoint_view(),
                    "accounts/"@ + decimal_text(account_id as int),
                ),
            ),
    {
        let mut path = "accounts/".to_owned();
        path.append(int_text(account_id as i64).as_str());
        self.path_to_url(path.as_str())
    }

    /// The URL of the account with the given name.
    fn account_by_name_url(&self, account_name: &str) -> (r: Result<String, Error>)
        ensures
            uri_result(
                r,
                search_spec(
                    self.entrypoint_view(),
                    "accounts/search/findOneByName"@,
                    "name="@ + account_name@,
                ),
            ),
    {
        let mut query = "name=".to_owned();
        query.append(account_name);
        self.search_url("accounts/search/findOneByName", query.as_str())
    }

    /// The URL of a file produced by a task.
    fn file_by_task_id_and_name_url(
        &self,
        task_id: i32,
        file_name: &str,
    ) -> (r: Result<String, Error>)
        ensures
            uri_result(
                r,
                joined_url(
                    self.entrypoint_view(),
                    "downloads/"@ + decimal_text(task_id as int) + "/"@ + file_name@,
                ),
            ),
    {
        let mut path = "downloads/".to_owned();
        path.append(int_text(task_id as i64).as_str());
        path.append("/");
        path.append(file_name);
        self.path_to_url(path.as_str())
    }

    /// The URL of the collection of satellite bands.
    fn satellite_bands_url(&self) -> (r: Result<String, Error>)
        ensures
            uri_result(r, joined_url(self.entrypoint_view(), "satellite_bands/search/findAll"@)),
    {
        self.path_to_url("satellite_bands/search/findAll")
    }

    /// The URL of the satellite band with the given id.
    fn satellite_band_by_id_url(&self, satellite_band_id: i32) -> (r: Result<String, Error>)
        ensures
            uri_result(
                r,
                joined_url(
                    self.entrypoint_view(),
                    "satellite_bands/"@ + decimal_text(satellite_band_id as int),
                ),
            ),
    {
        let mut path = "satellite_bands/".to_owned();
        path.append(int_text(satellite_band_id as i64).as_str());
        self.path_to_url(path.as_str())
    }

    /// The URL of the satellite band with the given name.
    fn satellite_band_by_name_url(&self, satellite_band_name: &str) -> (r: Result<String, Error>)
        ensures
            uri_result(
                r,
                search_spec(
                    self.entrypoint_view(),
                    "satellite_bands/search/findOneByName"@,
                    "name="@ + satellite_band_name@,
                ),
            ),
    {
        let mut query = "name=".to_owned();
        query.append(satellite_band_name);
        self.search_url("satellite_bands/search/findOneByName", query.as_str())
    }

    /// The URL of the satellite bands of an account.
    fn satellite_bands_by_account_name_url(&self, account_name: &str) -> (r: Result<String, Error>)
        ensures
            uri_result(
                r,
                search_spec(
                    self.entrypoint_view(),
                    "satellite_bands/search/findAllByAccountName"@,
                    "accountName="@ + account_name@,
                ),
            ),
    {
        let mut query = "accountName=".to_owned();
        query.append(account_name);
        self.search_url("satellite_bands/search/findAllByAccountName", query.as_str())
    }

    /// The URL of the satellite configurations of an account.
    fn satellite_configurations_by_account_name_url(
        &self,
        account_name: &str,
    ) -> (r: Result<String, Error>)
        ensures
            uri_result(
                r,
                search_spec(
                    self.entrypoint_view(),
                    "satellite_configurations/search/findAllByAccountName"@,
                    "accountName="@ + account_name@,
                ),
            ),
    {
        let mut query = "accountName=".to_owned();
        query.append(account_name);
        self.search_url("satellite_configurations/search/findAllByAccountName", query.as_str())
    }

    /// The URL of the collection of satellite configurations.
    fn satellite_configurations_url(&self) -> (r: Result<String, Error>)
        ensures
            uri_result(
                r,
                joined_url(
                    self.entrypoint_view(),
                    "satellite_configurations/search/findAll"@,
                ),
            ),
    {
        self.path_to_url("satellite_configurations/search/findAll")
    }

    /// The URL of the satellite configuration with the given id.
    fn satellite_configurations_by_id_url(
        &self,
        satellite_configuration_id: i32,
    ) -> (r: Result<String, Error>)
        ensures
            uri_result(
                r,
                joined_url(
                    self.entrypoint_view(),
                    "satellite_configurations/"@ + decimal_text(satellite_configuration_id as int),
                ),
            ),
    {
        let mut path = "satellite_configurations/".to_owned();
        path.append(int_text(satellite_configuration_id as i64).as_str());
        self.path_to_url(path.as_str())
    }

    /// The URL of the collection of sites.
    fn sites_url(&self) -> (r: Result<String, Error>)
        ensures
            uri_result(r, joined_url(self.entrypoint_view(), "sites"@)),
    {
        self.path_to_url("sites")
    }

    /// The URL of the site with the given id.
    fn site_by_id_url(&self, id: i32) -> (r: Result<String, Error>)
        ensures
            uri_result(r, joined_url(self.entrypoint_view(), "sites/"@ + decimal_text(id as int))),
    {
        let mut path = "sites/".to_owned();
        path.append(int_text(id as i64).as_str());
        self.path_to_url(path.as_str())
    }

    /// The URL of the site with the given name.
    fn site_by_name_url(&self, name: &str) -> (r: Result<String, Error>)
        ensures
            uri_result(
                r,
                search_spec(
                    self.entrypoint_view(),
                    "sites/search/findOneByName"@,
                    "name="@ + name@,
                ),
            ),
    {
        let mut query = "name=".to_owned();
        query.append(name);
        self.search_url("sites/search/findOneByName", query.as_str())
    }

    /// The URL of the task request with the given id.
    fn request_by_id_url(&self, task_request_id: i32) -> (r: Result<String, Error>)
        ensures
            uri_result(
                r,
                joined_url(
                    self.entrypoint_view(),
                    "requests/"@ + decimal_text(task_request_id as int),
                ),
            ),
    {
        let mut path = "requests/".to_owned();
        path.append(int_text(task_request_id as i64).as_str());
        self.path_to_url(path.as_str())
    }

    /// The URL of the collection of task requests.
    fn requests_url(&self) -> (r: Result<String, Error>)
        ensures
            uri_result(r, joined_url(self.entrypoint_view(), "requests/search/findAll"@)),
    {
        self.path_to_url("requests/search/findAll")
    }

    /// The URL of the task requests of an account whose target time lies in a window.
    /// The instants are written in ISO 8601.
    fn requests_by_account_and_target_date_between_url(
        &self,
        account_uri: &str,
        start: Timestamp,
        end: Timestamp,
    ) -> (r: Result<String, Error>)
        ensures
            with_times(
                r,
                start,
                end,
                |s: Seq<char>, e: Seq<char>|
                    search_spec(
                        self.entrypoint_view(),
                        "requests/search/findAllByAccountAndTargetDateBetween"@,
                        "account="@ + account_uri@ + "&start="@ + s + "&end="@ + e,
                    ),
            ),
    {
        let start_text = iso_time(start)?;
        let end_text = iso_time(end)?;
        let mut query = "account=".to_owned();
        query.append(account_uri);
        query.append("&start=");
        query.append(start_text.as_str());
        query.append("&end=");
        query.append(end_text.as_str());
        self.search_url("requests/search/findAllByAccountAndTargetDateBetween", query.as_str())
    }

    /// The URL of the task requests of the account upcoming today.
    fn requests_by_account_and_upcoming_today_url(&self) -> (r: Result<String, Error>)
        ensures
            uri_result(
                r,
                joined_url(
                    self.entrypoint_view(),
                    "requests/search/findByAccountUpcomingToday"@,
                ),
            ),
    {
        self.path_to_url("requests/search/findByAccountUpcomingToday")
    }

    /// The URL of the task requests of a site configuration, oldest first.
    fn requests_by_configuration_url(&self, configuration_uri: &str) -> (r: Result<String, Error>)
        ensures
            uri_result(
                r,
                search_spec(
                    self.entrypoint_view(),
                    "requests/search/findAllByConfigurationOrderByCreatedAsc"@,
                    "configuration="@ + configuration_uri@,
                ),
            ),
    {
        let mut query = "configuration=".to_owned();
        query.append(configuration_uri);
        self.search_url("requests/search/findAllByConfigurationOrderByCreatedAsc", query.as_str())
    }

    /// The URL of the task requests of a site configuration and named satellites whose target
    /// time lies in a window.
    /// The instants are written in ISO 8601.
    fn requests_by_configuration_and_satellite_names_and_target_date_between_url(
        &self,
        configuration_uri: &str,
        satellites: &Vec<String>,
        start: Timestamp,
        end: Timestamp,
    ) -> (r: Result<String, Error>)
        ensures
            with_times(
                r,
                start,
                end,
                |s: Seq<char>, e: Seq<char>|
                    search_spec(
                        self.entrypoint_view(),
                        "requests/search/findAllByConfigurationAndSatelliteNamesAndTargetDateBetween"@,
                        "configuration="@ + configuration_uri@ + "&satelliteNames="@ + comma_join(texts_view(satellites@))
                            + "&start="@ + s + "&end="@ + e,
                    ),
            ),
    {
        let start_text = iso_time(start)?;
        let end_text = iso_time(end)?;
        let mut query = "configuration=".to_owned();
        query.append(configuration_uri);
        query.append("&satelliteNames=");
        query.append(list_to_string(satellites).as_str());
        query.append("&start=");
        query.append(start_text.as_str());
        query.append("&end=");
        query.append(end_text.as_str());
        self.search_url(
            "requests/search/findAllByConfigurationAndSatelliteNamesAndTargetDateBetween",
            query.as_str(),
        )
    }

    /// The URL of the task requests of a site configuration whose target time lies in a window.
    /// The instants are written in ISO 8601.
    fn requests_by_configuration_and_target_date_between_url(
        &self,
        configuration_uri: &str,
        start: Timestamp,
        end: Timestamp,
    ) -> (r: Result<String, Error>)
        ensures
            with_times(
                r,
                start,
                end,
                |s: Seq<char>, e: Seq<char>|
                    search_spec(
                        self.entrypoint_view(),
                        "requests/search/findAllByConfigurationAndTargetDateBetween"@,
                        "configuration="@ + configuration_uri@ + "&start="@ + s + "&end="@ + e,
                    ),
            ),
    {
        let start_text = iso_time(start)?;
        let end_text = iso_time(end)?;
        let mut query = "configuration=".to_owned();
        query.append(configuration_uri);
        query.append("&start=");
        query.append(start_text.as_str());
        query.append("&end=");
        query.append(end_text.as_str());
        self.search_url(
            "requests/search/findAllByConfigurationAndTargetDateBetween",
            query.as_str(),
        )
    }

    /// The URL of the task requests with the given ids.
    fn requests_by_ids_url(&self, ids: &Vec<String>) -> (r: Result<String, Error>)
        ensures
            uri_result(
                r,
                search_spec(
                    self.entrypoint_view(),
                    "requests/search/findAllByIds"@,
                    "ids="@ + comma_join(texts_view(ids@)),
                ),
            ),
    {
        let mut query = "ids=".to_owned();
        query.append(list_to_string(ids).as_str());
        self.search_url("requests/search/findAllByIds", query.as_str())
    }

    /// The URL of the public task requests overlapping a window.
    /// The instants are written in ISO 8601.
    fn requests_by_overlapping_public_url(
        &self,
        start: Timestamp,
        end: Timestamp,
    ) -> (r: Result<String, Error>)
        ensures
            with_times(
                r,
                start,
                end,
                |s: Seq<char>, e: Seq<char>|
                    search_spec(
                        self.entrypoint_view(),
                        "requests/search/findAllByOverlappingPublic"@,
                        "start="@ + s + "&end="@ + e,
                    ),
            ),
    {
        let start_text = iso_time(start)?;
        let end_text = iso_time(end)?;
        let mut query = "start=".to_owned();
        query.append(start_text.as_str());
        query.append("&end=");
        query.append(end_text.as_str());
        self.search_url("requests/search/findAllByOverlappingPublic", query.as_str())
    }

    /// The URL of the task requests of a satellite.
    fn requests_by_satellite_name_url(&self, satellite_name: &str) -> (r: Result<String, Error>)
        ensures
            uri_result(
                r,
                search_spec(
                    self.entrypoint_view(),
                    "requests/search/findBySatelliteName"@,
                    "name="@ + satellite_name@,
                ),
            ),
    {
        let mut query = "name=".to_owned();
        query.append(satellite_name);
        self.search_url("requests/search/findBySatelliteName", query.as_str())
    }

    /// The URL of the task requests of a satellite whose target time lies in a window.
    /// The instants are written in ISO 8601.
    fn requests_by_satellite_name_and_target_date_between_url(
        &self,
        satellite_name: &str,
        start: Timestamp,
        end: Timestamp,
    ) -> (r: Result<String, Error>)
        ensures
            with_times(
                r,
                start,
                end,
                |s: Seq<char>, e: Seq<char>|
                    search_spec(
                        self.entrypoint_view(),
                        "requests/search/findAllBySatelliteNameAndTargetDateBetween"@,
                        "name="@ + satellite_name@ + "&start="@ + s + "&end="@ + e,
                    ),
            ),
    {
        let start_text = iso_time(start)?;
        let end_text = iso_time(end)?;
        let mut query = "name=".to_owned();
        query.append(satellite_name);
        query.append("&start=");
        query.append(start_text.as_str());
        query.append("&end=");
        query.append(end_text.as_str());
        self.search_url(
            "requests/search/findAllBySatelliteNameAndTargetDateBetween",
            query.as_str(),
        )
    }

    /// The URL of the task requests in a status.
    fn requests_by_status_url(&self, status: &str) -> (r: Result<String, Error>)
        ensures
            uri_result(
                r,
                search_spec(
                    self.entrypoint_view(),
                    "requests/search/findByStatus"@,
                    "status="@ + status@,
                ),
            ),
    {
        let mut query = "status=".to_owned();
        query.append(status);
        self.search_url("requests/search/findByStatus", query.as_str())
    }

    /// The URL of the task requests in a status, of an account, whose target time lies in a window.
    /// The instants are written in ISO 8601.
    fn requests_by_status_and_account_and_target_date_between_url(
        &self,
        status: &str,
        account_uri: &str,
        start: Timestamp,
        end: Timestamp,
    ) -> (r: Result<String, Error>)
        ensures
            with_times(
                r,
                start,
                end,
                |s: Seq<char>, e: Seq<char>|
                    search_spec(
                        self.entrypoint_view(),
                        "requests/search/findAllByStatusAndAccountAndTargetDateBetween"@,
                        "status="@ + status@ + "&satelliteNames="@ + account_uri@
                            + "&start="@ + s + "&end="@ + e,
                    ),
            ),
    {
        let start_text = iso_time(start)?;
        let end_text = iso_time(end)?;
        let mut query = "status=".to_owned();
        query.append(status);
        query.append("&satelliteNames=");
        query.append(account_uri);
        query.append("&start=");
        query.append(start_text.as_str());
        query.append("&end=");
        query.append(end_text.as_str());
        self.search_url(
            "requests/search/findAllByStatusAndAccountAndTargetDateBetween",
            query.as_str(),
        )
    }

    /// The URL of the task requests of a task type whose target time lies in a window.
    /// The instants are written in ISO 8601.
    fn requests_by_type_and_target_date_between_url(
        &self,
        typ: &str,
        start: Timestamp,
        end: Timestamp,
    ) -> (r: Result<String, Error>)
        ensures
            with_times(
                r,
                start,
                end,
                |s: Seq<char>, e: Seq<char>|
                    search_spec(
                        self.entrypoint_view(),
                        "requests/search/findAllByTypeAndTargetDateBetween"@,
                        "type="@ + typ@ + "&start="@ + s + "&end="@ + e,
                    ),
            ),
    {
        let start_text = iso_time(start)?;
        let end_text = iso_time(end)?;
        let mut query = "type=".to_owned();
        query.append(typ);
        query.append("&start=");
        query.append(start_text.as_str());
        query.append("&end=");
        query.append(end_text.as_str());
        self.search_url("requests/search/findAllByTypeAndTargetDateBetween", query.as_str())
    }

    /// The URL of the task requests that passed today.
    fn requests_passed_today_url(&self) -> (r: Result<String, Error>)
        ensures
            uri_result(
                r,
                joined_url(
                    self.entrypoint_view(),
                    "requests/search/findAllPassedToday"@,
                ),
            ),
    {
        self.path_to_url("requests/search/findAllPassedToday")
    }

    /// The URL of the task requests upcoming today.
    fn requests_upcoming_today_url(&self) -> (r: Result<String, Error>)
        ensures
            uri_result(
                r,
                joined_url(
                    self.entrypoint_view(),
                    "requests/search/findAllUpcomingToday"@,
                ),
            ),
    {
        self.path_to_url("requests/search/findAllUpcomingToday")
    }

    /// The URL of the collection of satellites.
    fn satellites_url(&self) -> (r: Result<String, Error>)
        ensures
            uri_result(r, joined_url(self.entrypoint_view(), "satellites"@)),
    {
        self.path_to_url("satellites")
    }

    /// The URL of the task with the given id.
    fn task_by_id_url(&self, task_id: i32) -> (r: Result<String, Error>)
        ensures
            uri_result(
                r,
                joined_url(
                    self.entrypoint_view(),
                    "tasks/"@ + decimal_text(task_id as int),
                ),
            ),
    {
        let mut path = "tasks/".to_owned();
        path.append(int_text(task_id as i64).as_str());
        self.path_to_url(path.as_str())
    }

    /// The URL of the tasks of an account whose pass overlaps a window.
    /// The instants are written in ISO 8601.
    fn tasks_by_account_and_pass_overlapping_url(
        &self,
        account_uri: &str,
        start: Timestamp,
        end: Timestamp,
    ) -> (r: Result<String, Error>)
        ensures
            with_times(
                r,
                start,
                end,
                |s: Seq<char>, e: Seq<char>|
                    search_spec(
                        self.entrypoint_view(),
                        "tasks/search/findByAccountAndPassOverlapping"@,
                        "account="@ + account_uri@ + "&start="@ + s + "&end="@ + e,
                    ),
            ),
    {
        let start_text = iso_time(start)?;
        let end_text = iso_time(end)?;
        let mut query = "account=".to_owned();
        query.append(account_uri);
        query.append("&start=");
        query.append(start_text.as_str());
        query.append("&end=");
        query.append(end_text.as_str());
        self.search_url("tasks/search/findByAccountAndPassOverlapping", query.as_str())
    }

    /// The URL of the tasks of an account, satellite and band whose pass overlaps a window.
    /// The instants are written in ISO 8601.
    fn tasks_by_account_and_satellite_and_band_and_pass_overlapping_url(
        &self,
        account_uri: &str,
        satellite_config_uri: &str,
        band: &str,
        start: Timestamp,
        end: Timestamp,
    ) -> (r: Result<String, Error>)
        ensures
            with_times(
                r,
                start,
                end,
                |s: Seq<char>, e: Seq<char>|
                    search_spec(
                        self.entrypoint_view(),
                        "tasks/search/findByAccountAndSiteConfigurationAndBandAndPassOverlapping"@,
                        "account="@ + account_uri@ + "&satellite="@ + satellite_config_uri@
                            + "&band="@ + band@ + "&start="@ + s + "&end="@ + e,
                    ),
            ),
    {
        let start_text = iso_time(start)?;
        let end_text = iso_time(end)?;
        let mut query = "account=".to_owned();
        query.append(account_uri);
        query.append("&satellite=");
        query.append(satellite_config_uri);
        query.append("&band=");
        query.append(band);
        query.append("&start=");
        query.append(start_text.as_str());
        query.append("&end=");
        query.append(end_text.as_str());
        self.search_url(
            "tasks/search/findByAccountAndSiteConfigurationAndBandAndPassOverlapping",
            query.as_str(),
        )
    }

    /// The URL of the tasks of an account, site configuration and band whose pass overlaps a
    /// window.
    /// The instants are written in ISO 8601.
    fn tasks_by_account_and_site_configuration_and_band_and_pass_overlapping_url(
        &self,
        account_uri: &str,
        site_config_uri: &str,
        band: &str,
        start: Timestamp,
        end: Timestamp,
    ) -> (r: Result<String, Error>)
        ensures
            with_times(
                r,
                start,
                end,
                |s: Seq<char>, e: Seq<char>|
                    search_spec(
                        self.entrypoint_view(),
                        "tasks/search/findByAccountAndSiteConfigurationAndBandAndPassOverlapping"@,
                        "account="@ + account_uri@ + "&siteConfig="@ + site_config_uri@
                            + "&band="@ + band@ + "&start="@ + s + "&end="@ + e,
                    ),
            ),
    {
        let start_text = iso_time(start)?;
        let end_text = iso_time(end)?;
        let mut query = "account=".to_owned();
        query.append(account_uri);
        query.append("&siteConfig=");
        query.append(site_config_uri);
        query.append("&band=");
        query.append(band);
        query.append("&start=");
        query.append(start_text.as_str());
        query.append("&end=");
        query.append(end_text.as_str());
        self.search_url(
            "tasks/search/findByAccountAndSiteConfigurationAndBandAndPassOverlapping",
            query.as_str(),
        )
    }

    /// The URL of the tasks whose pass starts in a window, earliest first.
    /// The instants are written in ISO 8601.
    fn tasks_by_pass_window_url(
        &self,
        start: Timestamp,
        end: Timestamp,
    ) -> (r: Result<String, Error>)
        ensures
            with_times(
                r,
                start,
                end,
                |s: Seq<char>, e: Seq<char>|
                    search_spec(
                        self.entrypoint_view(),
                        "tasks/search/findByStartBetweenOrderByStartAsc"@,
                        "start="@ + s + "&end="@ + e,
                    ),
            ),
    {
        let start_text = iso_time(start)?;
        let end_text = iso_time(end)?;
        let mut query = "start=".to_owned();
        query.append(start_text.as_str());
        query.append("&end=");
        query.append(end_text.as_str());
        self.search_url("tasks/search/findByStartBetweenOrderByStartAsc", query.as_str())
    }

    /// The URL of the tasks whose pass overlaps a window.
    /// The instants are written in ISO 8601.
    fn tasks_by_pass_overlapping_url(
        &self,
        start: Timestamp,
        end: Timestamp,
    ) -> (r: Result<String, Error>)
        ensures
            with_times(
                r,
                start,
                end,
                |s: Seq<char>, e: Seq<char>|
                    search_spec(
                        self.entrypoint_view(),
                        "tasks/search/findByOverlapping"@,
                        "start="@ + s + "&end="@ + e,
                    ),
            ),
    {
        let start_text = iso_time(start)?;
        let end_text = iso_time(end)?;
        let mut query = "start=".to_owned();
        query.append(start_text.as_str());
        query.append("&end=");
        query.append(end_text.as_str());
        self.search_url("tasks/search/findByOverlapping", query.as_str())
    }

    /// The URL of the tasks that passed today.
    fn tasks_passed_today_url(&self) -> (r: Result<String, Error>)
        ensures
            uri_result(r, joined_url(self.entrypoint_view(), "tasks/search/findAllPassedToday"@)),
    {
        self.path_to_url("tasks/search/findAllPassedToday")
    }

    /// The URL of the tasks upcoming today.
    fn tasks_upcoming_today_url(&self) -> (r: Result<String, Error>)
        ensures
            uri_result(r, joined_url(self.entrypoint_view(), "tasks/search/findAllUpcomingToday"@)),
    {
        self.path_to_url("tasks/search/findAllUpcomingToday")
    }

    /// The URL of the FPS token endpoint.
    fn token_url(&self) -> (r: Result<String, Error>)
        ensures
            uri_result(r, joined_url(self.entrypoint_view(), "fps"@)),
    {
        self.path_to_url("fps")
    }

    /// The URL of the collection of users.
    fn users_url(&self) -> (r: Result<String, Error>)
        ensures
            uri_result(r, joined_url(self.entrypoint_view(), "users"@)),
    {
        self.path_to_url("users")
    }

    /// The URL of the gateway licenses.
    fn gateway_licenses_url(&self) -> (r: Result<String, Error>)
        ensures
            uri_result(r, joined_url(self.entrypoint_view(), "gateway-licenses"@)),
    {
        self.path_to_url("gateway-licenses")
    }

    /// The URL of the gateway license with the given id.
    fn gateway_license_url(&self, id: u32) -> (r: Result<String, Error>)
        ensures
            uri_result(
                r,
                joined_url(
                    self.entrypoint_view(),
                    "gateway-licenses/"@ + decimal_text(id as int),
                ),
            ),
    {
        let mut path = "gateway-licenses/".to_owned();
        path.append(int_text(id as i64).as_str());
        self.path_to_url(path.as_str())
    }

    /// The URL of the gateway license verification endpoint.
    fn verify_gateway_license_url(&self) -> (r: Result<String, Error>)
        ensures
            uri_result(r, joined_url(self.entrypoint_view(), "gateway-licenses/verify"@)),
    {
        self.path_to_url("gateway-licenses/verify")
    }

    /// The URL of the regeneration endpoint of a gateway license.
    fn regenerate_gateway_license_url(&self, id: u32) -> (r: Result<String, Error>)
        ensures
            uri_result(
                r,
                joined_url(
                    self.entrypoint_view(),
                    "gateway-licenses/"@ + decimal_text(id as int) + "/regenerate"@,
                ),
            ),
    {
        let mut path = "gateway-licenses/".to_owned();
        path.append(int_text(id as i64).as_str());
        path.append("/regenerate");
        self.path_to_url(path.as_str())
    }

    /// The URL of the satellite band with the given id (also what deletes it).
    fn band_details_url(&self, id: i32) -> (r: Result<String, Error>)
        ensures
            uri_result(
                r,
                joined_url(
                    self.entrypoint_view(),
                    "satellite_bands/"@ + decimal_text(id as int),
                ),
            ),
    {
        let mut path = "satellite_bands/".to_owned();
        path.append(int_text(id as i64).as_str());
        self.path_to_url(path.as_str())
    }

    /// The URL of the satellite configuration with the given id (also what deletes it).
    fn satellite_configuration_url(&self, id: i32) -> (r: Result<String, Error>)
        ensures
            uri_result(
                r,
                joined_url(
                    self.entrypoint_view(),
                    "satellite_configurations/"@ + decimal_text(id as int),
                ),
            ),
    {
        let mut path = "satellite_configurations/".to_owned();
        path.append(int_text(id as i64).as_str());
        self.path_to_url(path.as_str())
    }

    /// The URL of the satellite with the given id (also what deletes it).
    fn satellite_url(&self, id: i32) -> (r: Result<String, Error>)
        ensures
            uri_result(
                r,
                joined_url(
                    self.entrypoint_view(),
                    "satellites/"@ + decimal_text(id as int),
                ),
            ),
    {
        let mut path = "satellites/".to_owned();
        path.append(int_text(id as i64).as_str());
        self.path_to_url(path.as_str())
    }

    /// The URL of the override with the given id (also what deletes it).
    fn override_url(&self, id: i32) -> (r: Result<String, Error>)
        ensures
            uri_result(
                r,
                joined_url(
                    self.entrypoint_view(),
                    "overrides/"@ + decimal_text(id as int),
                ),
            ),
    {
        let mut path = "overrides/".to_owned();
        path.append(int_text(id as i64).as_str());
        self.path_to_url(path.as_str())
    }

    /// The URL of the user with the given id (also what deletes it).
    fn user_url(&self, id: i32) -> (r: Result<String, Error>)
        ensures
            uri_result(r, joined_url(self.entrypoint_view(), "users/"@ + decimal_text(id as int))),
    {
        let mut path = "users/".to_owned();
        path.append(int_text(id as i64).as_str());
        self.path_to_url(path.as_str())
    }

    /// The URL of the task request with the given id (also what deletes it).
    fn task_request_url(&self, id: i32) -> (r: Result<String, Error>)
        ensures
            uri_result(
                r,
                joined_url(
                    self.entrypoint_view(),
                    "requests/"@ + decimal_text(id as int),
                ),
            ),
    {
        let mut path = "requests/".to_owned();
        path.append(int_text(id as i64).as_str());
        self.path_to_url(path.as_str())
    }

    /// The URL of the site configuration with the given id.
    fn site_configuration_url(&self, id: i32) -> (r: Result<String, Error>)
        ensures
            uri_result(
                r,
                joined_url(
                    self.entrypoint_view(),
                    "configurations/"@ + decimal_text(id as int),
                ),
            ),
    {
        let mut path = "configurations/".to_owned();
        path.append(int_text(id as i64).as_str());
        self.path_to_url(path.as_str())
    }

    /// The URL of where new satellite bands are posted.
    fn new_band_details_url(&self) -> (r: Result<String, Error>)
        ensures
            uri_result(r, joined_url(self.entrypoint_view(), "satellite_bands"@)),
    {
        self.path_to_url("satellite_bands")
    }

    /// The URL of where new satellite configurations are posted.
    fn new_satellite_configuration_url(&self) -> (r: Result<String, Error>)
        ensures
            uri_result(r, joined_url(self.entrypoint_view(), "satellite_configurations"@)),
    {
        self.path_to_url("satellite_configurations")
    }

    /// The URL of where new satellites are posted.
    fn new_satellite_url(&self) -> (r: Result<String, Error>)
        ensures
            uri_result(r, joined_url(self.entrypoint_view(), "satellites"@)),
    {
        self.path_to_url("satellites")
    }

    /// The URL of where new overrides are posted.
    fn new_override_url(&self) -> (r: Result<String, Error>)
        ensures
            uri_result(r, joined_url(self.entrypoint_view(), "overrides"@)),
    {
        self.path_to_url("overrides")
    }

    /// The URL of where new users of an account are posted.
    fn new_user_url(&self, account_id: i32) -> (r: Result<String, Error>)
        ensures
            uri_result(
                r,
                joined_url(
                    self.entrypoint_view(),
                    "accounts/"@ + decimal_text(account_id as int) + "/newuser"@,
                ),
            ),
    {
        let mut path = "accounts/".to_owned();
        path.append(int_text(account_id as i64).as_str());
        path.append("/newuser");
        self.path_to_url(path.as_str())
    }

    /// The URL of where new task requests are posted.
    fn new_task_request_url(&self) -> (r: Result<String, Error>)
        ensures
            uri_result(r, joined_url(self.entrypoint_view(), "requests"@)),
    {
        self.path_to_url("requests")
    }

    /// The URLs of the satellite bands with the given ids, in order.
    fn band_detail_urls(&self, ids: &Vec<i32>) -> (r: Result<Vec<String>, Error>)
        ensures
            uris_result(r, band_urls_spec(self.entrypoint_view(), ids@)),
    {
        let mut urls: Vec<String> = Vec::new();
        let mut i: usize = 0;
        assert(ids@.take(0) =~= Seq::<i32>::empty());
        assert(texts_view(urls@) =~= Seq::<Seq<char>>::empty());
        while i < ids.len()
            invariant
                i <= ids.len(),
                band_urls_spec(self.entrypoint_view(), ids@.take(i as int)) == Ok::<
                    Seq<Seq<char>>,
                    Seq<char>,
                >(texts_view(urls@)),
            decreases ids.len() - i,
        {
            let ghost prefix = ids@.take(i as int + 1);
            assert(prefix.drop_last() =~= ids@.take(i as int));
            assert(prefix.last() == ids@[i as int]);
            match self.band_details_url(ids[i]) {
                Ok(u) => {
                    let ghost before = urls@;
                    urls.push(u);
                    assert(texts_view(urls@) =~= texts_view(before).push(u@));
                },
                Err(e) => {
                    proof {
                        if let Error::InvalidUri(m) = &e {
                            lemma_band_urls_fail(self.entrypoint_view(), ids@, i as int + 1, m@);
                        }
                    }
                    return Err(e);
                },
            }
            i += 1;
        }
        assert(ids@.take(ids.len() as int) =~= ids@);
        Ok(urls)
    }
}

} // verus!
