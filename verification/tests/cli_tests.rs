use napcat::cli::{apply_overrides, bind_address, plan_protocol, CliOverrides, LaunchSettings, ProtocolPlan};

fn no_overrides() -> CliOverrides {
    CliOverrides {
        host: None,
        port: None,
        debug: false,
        protocol_mode: None,
        protocol_endpoint: None,
        protocol_access_token: None,
    }
}

#[test]
fn defaults_serve_locally_without_a_backend() {
    let s = LaunchSettings::default();
    assert_eq!(bind_address(&s.host, s.port), "127.0.0.1:3000");
    assert_eq!(plan_protocol(&s), Ok(ProtocolPlan::Disabled));
}

#[test]
fn overrides_replace_given_values_only() {
    let mut args = no_overrides();
    args.host = Some(String::from("0.0.0.0"));
    args.debug = true;
    args.protocol_access_token = Some(String::from("tok"));
    let s = apply_overrides(LaunchSettings::default(), args);
    assert_eq!(s.host, "0.0.0.0");
    assert_eq!(s.port, 3000);
    assert_eq!(s.log_level, "debug");
    assert_eq!(s.protocol_access_token, Some(String::from("tok")));
    let kept = apply_overrides(s.clone(), no_overrides());
    assert_eq!(kept, s);
}

#[test]
fn onebot_modes_need_an_endpoint() {
    let mut s = LaunchSettings::default();
    s.protocol_mode = String::from("onebot-http");
    s.protocol_endpoint = String::from("  ");
    assert_eq!(
        plan_protocol(&s),
        Err(String::from("protocol endpoint is required for onebot mode"))
    );
    s.protocol_endpoint = String::from("http://127.0.0.1:5700");
    s.protocol_access_token = Some(String::from("k"));
    match plan_protocol(&s) {
        Ok(ProtocolPlan::OneBot(c)) => {
            assert_eq!(c.base_url, "http://127.0.0.1:5700");
            assert_eq!(c.access_token, Some(String::from("k")));
            assert_eq!(c.listen_timeout_ms, 600);
            assert_eq!(c.listen_max_events, 8);
        }
        other => panic!("unexpected plan {other:?}"),
    }
}

#[test]
fn qq_modes_need_endpoint_account_and_password() {
    let mut s = LaunchSettings::default();
    s.protocol_mode = String::from("qq_client");
    assert_eq!(plan_protocol(&s), Err(String::from("protocol endpoint is required for qq mode")));
    s.protocol_endpoint = String::from(" tcp://10.0.0.1:8000");
    assert_eq!(plan_protocol(&s), Err(String::from("qq account is required for qq mode")));
    s.qq_account = Some(String::from("alice"));
    assert_eq!(plan_protocol(&s), Err(String::from("qq password is required for qq mode")));
    s.qq_password = Some(String::from("secret"));
    match plan_protocol(&s) {
        Ok(ProtocolPlan::QQ { config, tcp }) => {
            assert!(tcp);
            assert_eq!(config.endpoint, " tcp://10.0.0.1:8000");
            assert_eq!(config.account, Some(String::from("alice")));
            assert_eq!(config.connect_timeout_ms, 2000);
            assert_eq!(config.listen_poll_ms, 600);
        }
        other => panic!("unexpected plan {other:?}"),
    }
    s.protocol_endpoint = String::from("mock://localhost");
    assert!(matches!(plan_protocol(&s), Ok(ProtocolPlan::QQ { tcp: false, .. })));
}

#[test]
fn unknown_modes_run_without_backend() {
    let mut s = LaunchSettings::default();
    s.protocol_mode = String::from("OneBot");
    assert_eq!(plan_protocol(&s), Ok(ProtocolPlan::Disabled));
    assert_eq!(bind_address("::1", 0), "::1:0");
}
