use freedom_api::{list_to_string, Client, Error, FreedomApi, Timestamp};
use freedom_config::{Config, Test};

const ENTRY: &str = "https://test-api.atlasground.com/api/";

fn client() -> Client {
    Client::from_config(Config::new(Test, "foo", "bar"))
}

fn at(seconds: i128) -> Timestamp {
    Timestamp { unix_nanos: seconds * 1_000_000_000 }
}

#[test]
fn entrypoint_comes_from_environment() {
    assert_eq!(client().entrypoint(), ENTRY);
}

#[test]
fn path_to_url_joins_under_entrypoint() {
    let c = client();
    assert_eq!(c.path_to_url("sites"), Ok(format!("{}sites", ENTRY)));
    assert_eq!(c.path_to_url("/root"), Ok("https://test-api.atlasground.com/root".to_string()));
}

#[test]
fn ids_are_written_in_decimal() {
    let c = client();
    assert_eq!(c.account_by_id_url(42), Ok(format!("{}accounts/42", ENTRY)));
    assert_eq!(c.site_by_id_url(-7), Ok(format!("{}sites/-7", ENTRY)));
    assert_eq!(c.gateway_license_url(4000000000), Ok(format!("{}gateway-licenses/4000000000", ENTRY)));
    assert_eq!(
        c.regenerate_gateway_license_url(3),
        Ok(format!("{}gateway-licenses/3/regenerate", ENTRY))
    );
    assert_eq!(c.new_user_url(1), Ok(format!("{}accounts/1/newuser", ENTRY)));
    assert_eq!(
        c.file_by_task_id_and_name_url(12, "out.bin"),
        Ok(format!("{}downloads/12/out.bin", ENTRY))
    );
}

#[test]
fn find_one_by_name_sets_the_query() {
    let c = client();
    assert_eq!(
        c.site_by_name_url("LOAG"),
        Ok(format!("{}sites/search/findOneByName?name=LOAG", ENTRY))
    );
    assert_eq!(
        c.satellite_band_by_name_url("FooBar1"),
        Ok(format!("{}satellite_bands/search/findOneByName?name=FooBar1", ENTRY))
    );
    assert_eq!(
        c.requests_by_satellite_name_url("FooBar 6"),
        Ok(format!("{}requests/search/findBySatelliteName?name=FooBar%206", ENTRY))
    );
}

#[test]
fn collection_urls() {
    let c = client();
    assert_eq!(c.sites_url(), Ok(format!("{}sites", ENTRY)));
    assert_eq!(c.satellite_bands_url(), Ok(format!("{}satellite_bands/search/findAll", ENTRY)));
    assert_eq!(
        c.satellite_configurations_url(),
        Ok(format!("{}satellite_configurations/search/findAll", ENTRY))
    );
    assert_eq!(c.requests_url(), Ok(format!("{}requests/search/findAll", ENTRY)));
}

#[test]
fn instants_are_written_in_iso8601() {
    let c = client();
    assert_eq!(
        c.tasks_by_pass_window_url(at(0), at(1653403000)),
        Ok(format!(
            "{}tasks/search/findByStartBetweenOrderByStartAsc?start=1970-01-01T00:00:00.000000000Z&end=2022-05-24T14:36:40.000000000Z",
            ENTRY
        ))
    );
}

#[test]
fn list_queries_are_comma_joined() {
    let c = client();
    let ids = vec!["1".to_string(), "2".to_string(), "3".to_string()];
    assert_eq!(c.requests_by_ids_url(&ids), Ok(format!("{}requests/search/findAllByIds?ids=1,2,3", ENTRY)));
    let sats = vec!["A".to_string(), "B".to_string()];
    assert_eq!(
        c.requests_by_configuration_and_satellite_names_and_target_date_between_url("cfg", &sats, at(0), at(60)),
        Ok(format!(
            "{}requests/search/findAllByConfigurationAndSatelliteNamesAndTargetDateBetween?configuration=cfg&satelliteNames=A,B&start=1970-01-01T00:00:00.000000000Z&end=1970-01-01T00:01:00.000000000Z",
            ENTRY
        ))
    );
}

#[test]
fn out_of_range_instant_is_time_format_error() {
    let c = client();
    let far = Timestamp { unix_nanos: i128::MAX };
    assert!(matches!(c.tasks_by_pass_overlapping_url(far, at(0)), Err(Error::TimeFormatError(_))));
    assert!(matches!(c.requests_by_overlapping_public_url(at(0), far), Err(Error::TimeFormatError(_))));
}

#[test]
fn list_to_string_joins_with_commas() {
    assert_eq!(list_to_string(&Vec::new()), "");
    assert_eq!(list_to_string(&vec!["a".to_string()]), "a");
    assert_eq!(list_to_string(&vec!["a".to_string(), "".to_string(), "c".to_string()]), "a,,c");
}

#[test]
fn band_detail_urls_in_order() {
    let c = client();
    assert_eq!(
        c.band_detail_urls(&vec![2017, 2019]),
        Ok(vec![format!("{}satellite_bands/2017", ENTRY), format!("{}satellite_bands/2019", ENTRY)])
    );
    assert_eq!(c.band_detail_urls(&Vec::new()), Ok(Vec::new()));
}

#[test]
fn universal_headers_keep_order() {
    let c = client()
        .with_universal_header("X-One".to_string(), "1".to_string())
        .with_universal_header("X-Two".to_string(), "2".to_string());
    assert_eq!(
        c.universal_headers(),
        &vec![("X-One".to_string(), "1".to_string()), ("X-Two".to_string(), "2".to_string())]
    );
    assert_eq!(c.config().key(), "foo");
}

#[test]
fn clients_are_eq_based_on_config() {
    let config = Config::builder().environment(Test).key("foo").secret("bar").build().unwrap();
    let client_1 = Client::from_config(config.clone());
    let client_2 = Client::from_config(config);
    assert!(client_1 == client_2);
    let other = Client::from_config(Config::new(Test, "foo", "baz"));
    assert!(client_1 != other);
}
