use gamayun::http::{handle_jobs_config_reload_request, http_endpoint, retrieve_version};

fn s(text: &str) -> String {
    text.to_string()
}

#[test]
fn endpoint_defaults_to_all_interfaces_on_8080() {
    let endpoint = http_endpoint(None, None).unwrap();
    assert_eq!(endpoint.host, "0.0.0.0");
    assert_eq!(endpoint.port, 8080);
}

#[test]
fn endpoint_takes_host_and_port_from_the_environment() {
    let endpoint = http_endpoint(Some(s("127.0.0.1")), Some(s("9090"))).unwrap();
    assert_eq!(endpoint.host, "127.0.0.1");
    assert_eq!(endpoint.port, 9090);
    assert_eq!(http_endpoint(None, Some(s("0"))).unwrap().port, 0);
    assert_eq!(http_endpoint(None, Some(s("65535"))).unwrap().port, 65535);
    assert_eq!(http_endpoint(None, Some(s("+80"))).unwrap().port, 80);
    assert_eq!(http_endpoint(None, Some(s("0080"))).unwrap().port, 80);
}

#[test]
fn endpoint_refuses_a_port_that_is_no_number_in_range() {
    for bad in ["", "+", "-1", "65536", "80a", " 80", "80 ", "8_0", "0x50", "99999999999999999999", "８０"] {
        assert_eq!(
            http_endpoint(Some(s("h")), Some(s(bad))).unwrap_err(),
            "Failed to parse GAMAYUN_HTTP_PORT",
            "port {:?}",
            bad
        );
    }
}

#[test]
fn version_is_handed_out_as_it_is() {
    assert_eq!(retrieve_version("1.2.3").version, "1.2.3");
}

#[test]
fn successful_reload_is_answered_with_200() {
    let (reply, notice) = handle_jobs_config_reload_request(Ok(()));
    assert_eq!(reply.status, 200);
    assert_eq!(reply.body, "");
    assert!(notice.is_none());
}

#[test]
fn failed_reload_is_answered_with_500_and_notified() {
    let (reply, notice) = handle_jobs_config_reload_request(Err(s("Failed to schedule jobs from config: x")));
    assert_eq!(reply.status, 500);
    assert_eq!(reply.body, "Failed to reload job configuration");
    let notice = notice.unwrap();
    assert_eq!(notice.title, "Gamayun Job Configuration Reload Failure");
    assert_eq!(notice.contents, "Failed to reload job configuration: Failed to schedule jobs from config: x");
}
