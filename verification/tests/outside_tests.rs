use komodo_core_config::connection::{
    connection_query_for_host, core_connection_query, HostError,
};
use komodo_core_config::entities::TimeSpan;
use komodo_core_config::keys::{periphery_public_keys, public_key_source, PublicKeySource};
use komodo_core_config::monitoring::monitoring_interval;

#[test]
fn connection_query_from_host_url() {
    assert_eq!(
        core_connection_query("https://komodo.example.com"),
        Ok("core=komodo.example.com".to_string())
    );
    assert_eq!(
        core_connection_query("https://komodo.example.com:9120/path"),
        Ok("core=komodo.example.com".to_string())
    );
    assert_eq!(
        core_connection_query("http://[::1]:9120"),
        Ok("core=%5B%3A%3A1%5D".to_string())
    );
}

#[test]
fn connection_query_errors() {
    assert_eq!(core_connection_query("not a url"), Err(HostError::InvalidUrl));
    assert_eq!(core_connection_query("data:text/plain,hello"), Err(HostError::MissingHost));
    assert_eq!(
        HostError::InvalidUrl.message(),
        "Failed to parse config field 'host' as URL"
    );
    assert_eq!(
        HostError::MissingHost.message(),
        "Failed to parse config field 'host' | missing host part"
    );
}

#[test]
fn connection_query_encodes_host() {
    assert_eq!(connection_query_for_host("a b&c"), "core=a%20b%26c");
    assert_eq!(connection_query_for_host("plain-host_1.~"), "core=plain-host_1.~");
}

#[test]
fn monitoring_interval_keeps_the_length_of_time() {
    assert_eq!(
        monitoring_interval(TimeSpan::FifteenSeconds),
        async_timing_util::Timelength::FifteenSeconds
    );
    assert_eq!(monitoring_interval(TimeSpan::OneHour), async_timing_util::Timelength::OneHour);
    assert_eq!(monitoring_interval(TimeSpan::ThreeDay), async_timing_util::Timelength::ThreeDays);
    assert_eq!(
        monitoring_interval(TimeSpan::ThirtyDays),
        async_timing_util::Timelength::ThirtyDays
    );
}

#[test]
fn public_key_sources() {
    assert_eq!(
        public_key_source("file:/config/keys/periphery.pub"),
        PublicKeySource::File("/config/keys/periphery.pub".to_string())
    );
    assert_eq!(public_key_source("MCowBQ"), PublicKeySource::Inline("MCowBQ".to_string()));
    assert_eq!(public_key_source("file:"), PublicKeySource::File(String::new()));
}

#[test]
fn periphery_public_keys_skip_unreadable_entries() {
    let pair = mogh_pki::EncodedKeyPair::generate(mogh_pki::PkiKind::Mutual).unwrap();
    let public = pair.public.to_string();
    let pem = pair.public.as_pem();
    let keys = periphery_public_keys(vec![
        Some(public.clone()),
        None,
        Some("not a key".to_string()),
        Some(pem),
    ]);
    assert_eq!(keys, vec![public.clone(), public]);
}
