//! Start-up: the settings the command line lays over the configuration, and
//! the protocol backend those settings call for.

use vstd::prelude::*;
use crate::onebot::OneBotBackendConfig;
use crate::qq_backend::QQClientBackendConfig;
use crate::text::{
    concat_str, decimal_seq, decimal_string, is_blank, is_blank_seq, starts_with, str_eq,
    trim_start, trim_start_seq,
};

verus! {

/// What start-up reads: where to serve, how to log, and which protocol
/// backend to run against which endpoint.
#[derive(Debug, Clone, PartialEq, Eq)]
pub struct LaunchSettings {
    /// Host the API binds to.
    pub host: String,
    /// Port the API binds to.
    pub port: u16,
    /// Log level.
    pub log_level: String,
    /// Protocol backend mode; an unknown mode runs without one.
    pub protocol_mode: String,
    /// Protocol backend endpoint.
    pub protocol_endpoint: String,
    /// Protocol access token.
    pub protocol_access_token: Option<String>,
    /// QQ account, for the QQ backend.
    pub qq_account: Option<String>,
    /// QQ password, for the QQ backend.
    pub qq_password: Option<String>,
    /// Listener poll timeout in milliseconds.
    pub protocol_listen_timeout_ms: u64,
    /// Listener batch size.
    pub protocol_listen_max_events: usize,
}

impl Default for LaunchSettings {
    /// Serve on 127.0.0.1:3000 at level `info`, with no protocol backend, a
    /// 600 ms poll timeout and batches of up to 8 events.
    fn default() -> (r: Self)
        ensures
            r.host@ == "127.0.0.1"@,
            r.port == 3000,
            r.log_level@ == "info"@,
            r.protocol_mode@ == ""@,
            r.protocol_endpoint@ == ""@,
            r.protocol_access_token is None,
            r.qq_account is None,
            r.qq_password is None,
            r.protocol_listen_timeout_ms == 600,
            r.protocol_listen_max_events == 8,
    {
        proof {
            reveal_strlit("");
        }
        LaunchSettings {
            host: String::from_str("127.0.0.1"),
            port: 3000,
            log_level: String::from_str("info"),
            protocol_mode: String::new(),
            protocol_endpoint: String::new(),
            protocol_access_token: None,
            qq_account: None,
            qq_password: None,
            protocol_listen_timeout_ms: 600,
            protocol_listen_max_events: 8,
        }
    }
}

/// The command-line options that override settings.
#[derive(Debug, Clone, PartialEq, Eq)]
pub struct CliOverrides {
    /// Host to bind.
    pub host: Option<String>,
    /// Port to bind.
    pub port: Option<u16>,
    /// Log at level `debug`.
    pub debug: bool,
    /// Protocol backend mode.
    pub protocol_mode: Option<String>,
    /// Protocol backend endpoint.
    pub protocol_endpoint: Option<String>,
    /// Protocol access token.
    pub protocol_access_token: Option<String>,
}

/// The given value, else the fallback.
pub open spec fn or_else<T>(o: Option<T>, fallback: T) -> T {
    match o {
        Some(v) => v,
        None => fallback,
    }
}

/// Settings with each given option in place of the configured value; the
/// debug flag sets the log level to `debug`, and a given token replaces the
/// configured one.
pub fn apply_overrides(settings: LaunchSettings, args: CliOverrides) -> (r: LaunchSettings)
    ensures
        r.host == or_else(args.host, settings.host),
        r.port == or_else(args.port, settings.port),
        args.debug ==> r.log_level@ == "debug"@,
        !args.debug ==> r.log_level == settings.log_level,
        r.protocol_mode == or_else(args.protocol_mode, settings.protocol_mode),
        r.protocol_endpoint == or_else(args.protocol_endpoint, settings.protocol_endpoint),
        r.protocol_access_token == (if args.protocol_access_token is Some {
            args.protocol_access_token
        } else {
            settings.protocol_access_token
        }),
        r.qq_account == settings.qq_account,
        r.qq_password == settings.qq_password,
        r.protocol_listen_timeout_ms == settings.protocol_listen_timeout_ms,
        r.protocol_listen_max_events == settings.protocol_listen_max_events,
{
    let mut s = settings;
    match args.host {
        Some(h) => s.host = h,
        None => {},
    }
    match args.port {
        Some(p) => s.port = p,
        None => {},
    }
    if args.debug {
        s.log_level = String::from_str("debug");
    }
    match args.protocol_mode {
        Some(m) => s.protocol_mode = m,
        None => {},
    }
    match args.protocol_endpoint {
        Some(e) => s.protocol_endpoint = e,
        None => {},
    }
    match args.protocol_access_token {
        Some(t) => s.protocol_access_token = Some(t),
        None => {},
    }
    s
}

/// The text an optional string holds, if any.
pub open spec fn opt_view(o: Option<String>) -> Option<Seq<char>> {
    match o {
        Some(s) => Some(s@),
        None => None,
    }
}

/// The mode names of the OneBot HTTP backend.
pub open spec fn is_onebot_mode(m: Seq<char>) -> bool {
    m == "onebot"@ || m == "onebot-http"@ || m == "onebot_http"@
}

/// The mode names of the QQ client backend.
pub open spec fn is_qq_mode(m: Seq<char>) -> bool {
    m == "qq"@ || m == "qq-client"@ || m == "qq_client"@
}

/// The protocol backend start-up is to run.
#[derive(Debug, Clone, PartialEq, Eq)]
pub enum ProtocolPlan {
    /// No protocol backend.
    Disabled,
    /// The OneBot HTTP backend with these settings.
    OneBot(OneBotBackendConfig),
    /// The QQ client backend with these settings, over TCP when the
    /// endpoint says so.
    QQ { config: QQClientBackendConfig, tcp: bool },
}

/// The protocol backend the settings call for.  The OneBot modes need an
/// endpoint; the QQ modes need an endpoint, an account and a password, in
/// that order; any other mode runs without a backend.  A QQ endpoint that
/// starts with `tcp://` (leading whitespace aside) asks for the TCP client.
pub fn plan_protocol(s: &LaunchSettings) -> (r: Result<ProtocolPlan, String>)
    ensures
        is_onebot_mode(s.protocol_mode@) ==> (if is_blank_seq(s.protocol_endpoint@) {
            r matches Err(e) && e@ == "protocol endpoint is required for onebot mode"@
        } else {
            r matches Ok(ProtocolPlan::OneBot(c)) && c.base_url@ == s.protocol_endpoint@
                && opt_view(c.access_token) == opt_view(s.protocol_access_token) && c.listen_timeout_ms
                == s.protocol_listen_timeout_ms && c.listen_max_events
                == s.protocol_listen_max_events
        }),
        is_qq_mode(s.protocol_mode@) ==> (if is_blank_seq(s.protocol_endpoint@) {
            r matches Err(e) && e@ == "protocol endpoint is required for qq mode"@
        } else if s.qq_account is None {
            r matches Err(e) && e@ == "qq account is required for qq mode"@
        } else if s.qq_password is None {
            r matches Err(e) && e@ == "qq password is required for qq mode"@
        } else {
            r matches Ok(ProtocolPlan::QQ { config, tcp }) && config.endpoint@
                == s.protocol_endpoint@ && opt_view(config.account) == opt_view(s.qq_account)
                && opt_view(config.password) == opt_view(s.qq_password) && config.connect_timeout_ms == 2000
                && config.listen_poll_ms == s.protocol_listen_timeout_ms && tcp
                == "tcp://"@.is_prefix_of(trim_start_seq(s.protocol_endpoint@))
        }),
        !is_onebot_mode(s.protocol_mode@) && !is_qq_mode(s.protocol_mode@) ==> r
            matches Ok(ProtocolPlan::Disabled),
{
    proof {
        reveal_strlit("onebot");
        reveal_strlit("onebot-http");
        reveal_strlit("onebot_http");
        reveal_strlit("qq");
        reveal_strlit("qq-client");
        reveal_strlit("qq_client");
    }
    let mode = s.protocol_mode.as_str();
    let endpoint = s.protocol_endpoint.as_str();
    if str_eq(mode, "onebot") || str_eq(mode, "onebot-http") || str_eq(mode, "onebot_http") {
        assert(!is_qq_mode(s.protocol_mode@)) by {
            assert("onebot"@.len() == 6 && "onebot-http"@.len() == 11 && "onebot_http"@.len() == 11);
            assert("qq"@.len() == 2 && "qq-client"@.len() == 9 && "qq_client"@.len() == 9);
        }
        if is_blank(endpoint) {
            return Err(String::from_str("protocol endpoint is required for onebot mode"));
        }
        let c = OneBotBackendConfig::new(endpoint).with_listener_settings(
            s.protocol_listen_timeout_ms,
            s.protocol_listen_max_events,
        );
        let c = match &s.protocol_access_token {
            Some(t) => c.with_access_token(t.as_str()),
            None => c,
        };
        Ok(ProtocolPlan::OneBot(c))
    } else if str_eq(mode, "qq") || str_eq(mode, "qq-client") || str_eq(mode, "qq_client") {
        if is_blank(endpoint) {
            return Err(String::from_str("protocol endpoint is required for qq mode"));
        }
        let account = match &s.qq_account {
            Some(a) => a,
            None => {
                return Err(String::from_str("qq account is required for qq mode"));
            },
        };
        let password = match &s.qq_password {
            Some(p) => p,
            None => {
                return Err(String::from_str("qq password is required for qq mode"));
            },
        };
        let config = QQClientBackendConfig::new(endpoint).with_credentials(
            account.as_str(),
            password.as_str(),
        ).with_connect_timeout_ms(2000).with_listen_poll_ms(s.protocol_listen_timeout_ms);
        let lead = trim_start(endpoint);
        let tcp = starts_with(lead.as_str(), "tcp://");
        Ok(ProtocolPlan::QQ { config, tcp })
    } else {
        Ok(ProtocolPlan::Disabled)
    }
}

/// The address the API binds: `host:port`.
pub fn bind_address(host: &str, port: u16) -> (r: String)
    ensures
        r@ == host@ + ":"@ + decimal_seq(port as nat),
{
    let with_colon = concat_str(host, ":");
    let digits = decimal_string(port as u64);
    concat_str(with_colon.as_str(), digits.as_str())
}

} // verus!
