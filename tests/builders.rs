use freedom_api::post::request::{FlexTaskKind, TaskType};
use freedom_api::post::{overrides, request, sat_config, satellite, user};
use freedom_api::{Client, Error, Timestamp};
use freedom_config::{Config, Test};

const ENTRY: &str = "https://test-api.atlasground.com/api/";

fn client() -> Client {
    Client::from_config(Config::new(Test, "foo", "bar"))
}

#[test]
fn user_body() {
    let c = client();
    let b = user::new(&c)
        .account_id(1)
        .first_name("Han".to_string())
        .last_name("Solo".to_string())
        .email("flyingsolo@gmail.com".to_string())
        .add_role("admin".to_string())
        .add_roles(vec!["pilot".to_string(), "smuggler".to_string()]);
    let u = b.state();
    assert_eq!(u.account_id, 1);
    assert_eq!(u.first_name, "Han");
    assert_eq!(u.last_name, "Solo");
    assert_eq!(u.email, "flyingsolo@gmail.com");
    assert!(!u.machine_service);
    assert_eq!(u.roles, vec!["admin", "pilot", "smuggler"]);
}

#[test]
fn satellite_body_by_configuration_id() {
    let c = client();
    let b = satellite::new(&c)
        .name("My Satellite".to_string())
        .satellite_configuration_id(42)
        .unwrap()
        .norad_id(3600)
        .description("A test satellite".to_string());
    let s = b.state();
    assert_eq!(s.name, "My Satellite");
    assert_eq!(s.configuration, format!("{}satellite_configurations/42", ENTRY));
    assert_eq!(s.norad_cat_id, 3600);
    assert_eq!(s.description.as_deref(), Some("A test satellite"));
}

#[test]
fn satellite_configuration_body_by_band_ids() {
    let c = client();
    let b = sat_config::new(&c)
        .name("My Satellite Configuration".to_string())
        .band_ids(vec![1, 2, 3])
        .unwrap()
        .doppler(true)
        .notes("first".to_string())
        .notes("second".to_string());
    let s = b.state();
    assert_eq!(
        s.band_details,
        vec![
            format!("{}satellite_bands/1", ENTRY),
            format!("{}satellite_bands/2", ENTRY),
            format!("{}satellite_bands/3", ENTRY),
        ]
    );
    assert_eq!(s.doppler, Some(true));
    assert_eq!(s.notes.as_deref(), Some("second"));
}

#[test]
fn override_properties_replace_by_name() {
    let c = client();
    let b = overrides::new(&c)
        .name("gain override".to_string())
        .satellite_id(1)
        .unwrap()
        .satellite_configuration_id(2)
        .unwrap()
        .add_property("site.hardware.modem.ttc.rx.demodulator.bitrate".to_string(), "8096".to_string())
        .add_property("site.hardware.modem.ttc.tx.modulator.bitrate".to_string(), "8096".to_string())
        .add_property("site.hardware.modem.ttc.rx.demodulator.bitrate".to_string(), "9600".to_string());
    let o = b.state();
    assert_eq!(o.satellite, format!("{}satellites/1", ENTRY));
    assert_eq!(o.configuration, format!("{}satellites/2", ENTRY));
    assert_eq!(
        o.properties,
        vec![
            ("site.hardware.modem.ttc.rx.demodulator.bitrate".to_string(), "9600".to_string()),
            ("site.hardware.modem.ttc.tx.modulator.bitrate".to_string(), "8096".to_string()),
        ]
    );
}

#[test]
fn test_task_request_body() {
    let c = client();
    let b = request::new(&c)
        .test_task("my_test_file.bin".to_string())
        .target_time_utc(Timestamp { unix_nanos: 1_653_403_000 * 1_000_000_000 })
        .task_duration(120)
        .satellite_id(1016)
        .unwrap()
        .site_id(27)
        .unwrap()
        .site_configuration_id(47)
        .unwrap()
        .band_ids(vec![2017, 2019])
        .unwrap();
    let t = b.state();
    assert_eq!(t.typ, TaskType::Test);
    assert_eq!(t.test_file.as_deref(), Some("my_test_file.bin"));
    assert_eq!(t.satellite, format!("{}satellites/1016", ENTRY));
    assert_eq!(t.site, format!("{}sites/27", ENTRY));
    assert_eq!(t.configuration, format!("{}configurations/47", ENTRY));
    assert_eq!(
        t.target_bands,
        vec![format!("{}satellite_bands/2017", ENTRY), format!("{}satellite_bands/2019", ENTRY)]
    );
    assert_eq!(t.target_date, "2022-05-24T14:36:40Z");
    assert_eq!(t.duration, 120);
    assert_eq!(t.minimum_duration, Some(120));
    assert_eq!(t.hours_of_flex, None);
    assert_eq!(t.with_override, None);
}

#[test]
fn flex_and_exact_task_kinds() {
    let c = client();
    let urls = vec!["b".to_string()];
    let flex = request::new(&c)
        .flex_task_around(3)
        .target_time_utc(Timestamp { unix_nanos: 0 })
        .task_duration(60)
        .satellite_url("s".to_string())
        .site_url("t".to_string())
        .site_configuration_url("u".to_string())
        .band_urls(urls.clone())
        .unwrap()
        .task_minimum_duration(30)
        .override_id(5)
        .unwrap();
    let f = flex.state();
    assert_eq!(f.typ, TaskType::Around);
    assert_eq!(f.hours_of_flex, Some(3));
    assert_eq!(f.minimum_duration, Some(30));
    assert_eq!(f.target_date, "1970-01-01T00:00:00Z");
    assert_eq!(f.with_override, Some(format!("{}overrides/5", ENTRY)));
    assert_eq!(f.test_file, None);

    let before = request::new(&c).flex_task(FlexTaskKind::Before, 1);
    assert_eq!(before.state().kind.hours_of_flex, 1);

    let exact = request::new(&c)
        .exact_task()
        .target_time_utc(Timestamp { unix_nanos: 0 })
        .task_duration(10)
        .satellite_url("s".to_string())
        .site_url("t".to_string())
        .site_configuration_url("u".to_string())
        .band_urls(urls)
        .unwrap();
    assert_eq!(exact.state().typ, TaskType::Exact);
    assert_eq!(exact.state().hours_of_flex, None);
}

#[test]
fn band_urls_with_unformattable_time_fails() {
    let c = client();
    let r = request::new(&c)
        .flex_task_after(2)
        .target_time_utc(Timestamp { unix_nanos: i128::MIN })
        .task_duration(10)
        .satellite_url("s".to_string())
        .site_url("t".to_string())
        .site_configuration_url("u".to_string())
        .band_urls(Vec::new());
    assert!(matches!(r, Err(Error::TimeFormatError(_))));
}
