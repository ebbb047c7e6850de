use std::sync::Arc;
use std::time::Duration;

use assert_no_alloc::assert_no_alloc;
use ureq_core::agent::Agent;
use ureq_core::config::{
    AgentScope, AutoHeaderValue, Config, ConfigBuilder, RedirectAuthHeaders, RequestLevelConfig,
    Timeouts, DEFAULT_ACCEPT, DEFAULT_ACCEPT_ENCODING, DEFAULT_USER_AGENT,
};
use ureq_core::proxy::{bypasses, pick_set, proxy_variable, Proto, Proxy};
use ureq_core::request::RequestBuilder;
use ureq_core::resolver::IpFamily;

#[test]
fn default_config_clone_does_not_allocate() {
    let c = Config::default();
    assert_no_alloc(|| c.clone());
}

#[test]
fn default_config_has_the_documented_values() {
    let c = Config::default();
    assert!(c.http_status_as_error);
    assert!(!c.https_only);
    assert_eq!(c.ip_family, IpFamily::Any);
    assert!(c.proxy.is_none());
    assert!(c.no_delay);
    assert_eq!(c.max_redirects, 10);
    assert_eq!(c.redirect_auth_headers, RedirectAuthHeaders::Never);
    assert!(matches!(c.user_agent, AutoHeaderValue::Default));
    assert!(matches!(c.accept, AutoHeaderValue::Default));
    assert!(matches!(c.accept_encoding, AutoHeaderValue::Default));
    assert_eq!(c.max_response_header_size, 65536);
    assert_eq!(c.input_buffer_size, 131072);
    assert_eq!(c.output_buffer_size, 131072);
    assert_eq!(c.max_idle_connections, 10);
    assert_eq!(c.max_idle_connections_per_host, 3);
    assert_eq!(c.max_idle_age, Duration::from_secs(15));
    assert!(!c.force_send_body);
}

#[test]
fn default_timeouts_set_await_100_only() {
    let t = Timeouts::default();
    assert_eq!(t.global, None);
    assert_eq!(t.per_call, None);
    assert_eq!(t.resolve, None);
    assert_eq!(t.connect, None);
    assert_eq!(t.send_request, None);
    assert_eq!(t.await_100, Some(Duration::from_secs(1)));
    assert_eq!(t.send_body, None);
    assert_eq!(t.recv_response, None);
    assert_eq!(t.recv_body, None);
    let c = Config::default();
    assert_eq!(c.timeouts.await_100, Some(Duration::from_secs(1)));
    assert_eq!(c.timeouts.global, None);
}

#[test]
fn builder_starts_from_the_defaults() {
    let c = Config::builder().build();
    assert_eq!(c.max_redirects, 10);
    assert!(c.http_status_as_error);
    assert_eq!(c.max_idle_age, Duration::from_secs(15));
}

#[test]
fn builder_sets_each_option_and_no_other() {
    let c = Config::builder()
        .http_status_as_error(false)
        .https_only(true)
        .ip_family(IpFamily::Ipv6Only)
        .no_delay(false)
        .max_redirects(3)
        .redirect_auth_headers(RedirectAuthHeaders::SameHost)
        .user_agent(AutoHeaderValue::Absent)
        .accept(AutoHeaderValue::Provided(Arc::new("text/html".to_string())))
        .accept_encoding(AutoHeaderValue::Provided(Arc::new("gzip".to_string())))
        .max_response_header_size(1)
        .input_buffer_size(2)
        .output_buffer_size(3)
        .max_idle_connections(4)
        .max_idle_connections_per_host(5)
        .max_idle_age(Duration::from_millis(6))
        .build();
    assert!(!c.http_status_as_error);
    assert!(c.https_only);
    assert_eq!(c.ip_family, IpFamily::Ipv6Only);
    assert!(!c.no_delay);
    assert_eq!(c.max_redirects, 3);
    assert_eq!(c.redirect_auth_headers, RedirectAuthHeaders::SameHost);
    assert!(matches!(c.user_agent, AutoHeaderValue::Absent));
    assert_eq!(c.accept_value(), Some("text/html"));
    assert_eq!(c.accept_encoding_value(), Some("gzip"));
    assert_eq!(c.max_response_header_size, 1);
    assert_eq!(c.input_buffer_size, 2);
    assert_eq!(c.output_buffer_size, 3);
    assert_eq!(c.max_idle_connections, 4);
    assert_eq!(c.max_idle_connections_per_host, 5);
    assert_eq!(c.max_idle_age, Duration::from_millis(6));
    // untouched
    assert!(c.proxy.is_none());
    assert_eq!(c.timeouts.await_100, Some(Duration::from_secs(1)));
    assert!(!c.force_send_body);
}

#[test]
fn builder_sets_one_option_and_leaves_the_rest() {
    let c = Config::builder().https_only(true).build();
    assert!(c.https_only);
    assert!(c.http_status_as_error);
    assert!(c.no_delay);
    assert_eq!(c.max_redirects, 10);
    assert_eq!(c.max_idle_connections, 10);
}

#[test]
fn builder_sets_each_timeout() {
    let s = |n: u64| Some(Duration::from_secs(n));
    let c = Config::builder()
        .timeout_global(s(1))
        .timeout_per_call(s(2))
        .timeout_resolve(s(3))
        .timeout_connect(s(4))
        .timeout_send_request(s(5))
        .timeout_await_100(None)
        .timeout_send_body(s(7))
        .timeout_recv_response(s(8))
        .timeout_recv_body(s(9))
        .build();
    assert_eq!(c.timeouts.global, s(1));
    assert_eq!(c.timeouts.per_call, s(2));
    assert_eq!(c.timeouts.resolve, s(3));
    assert_eq!(c.timeouts.connect, s(4));
    assert_eq!(c.timeouts.send_request, s(5));
    assert_eq!(c.timeouts.await_100, None);
    assert_eq!(c.timeouts.send_body, s(7));
    assert_eq!(c.timeouts.recv_response, s(8));
    assert_eq!(c.timeouts.recv_body, s(9));
    assert_eq!(c.max_redirects, 10);
}

#[test]
fn builder_sets_one_timeout_and_leaves_the_rest() {
    let c = Config::builder()
        .timeout_global(Some(Duration::from_secs(10)))
        .https_only(true)
        .build();
    assert_eq!(c.timeouts.global, Some(Duration::from_secs(10)));
    assert_eq!(c.timeouts.await_100, Some(Duration::from_secs(1)));
    assert_eq!(c.timeouts.recv_body, None);
    assert!(c.https_only);
}

#[test]
fn later_settings_win() {
    let c = Config::builder().max_redirects(1).max_redirects(7).build();
    assert_eq!(c.max_redirects, 7);
}

#[test]
fn builder_starts_from_the_config_it_is_given() {
    let start = Config::builder().max_redirects(2).build();
    let c = ConfigBuilder::new(AgentScope, start).no_delay(false).build();
    assert_eq!(c.max_redirects, 2);
    assert!(!c.no_delay);
}

#[test]
fn builder_keeps_its_scope() {
    let b = ConfigBuilder::new(17u8, Config::default())
        .https_only(true)
        .timeout_global(None);
    assert_eq!(b.scope, 17);
    assert!(b.config.https_only);
}

#[test]
fn auto_header_value_as_str() {
    assert_eq!(AutoHeaderValue::Absent.as_str("dflt"), None);
    assert_eq!(AutoHeaderValue::Default.as_str("dflt"), Some("dflt"));
    assert_eq!(AutoHeaderValue::Default.as_str(""), None);
    let given = AutoHeaderValue::Provided(Arc::new("mine/1.0".to_string()));
    assert_eq!(given.as_str("dflt"), Some("mine/1.0"));
    let empty = AutoHeaderValue::Provided(Arc::new(String::new()));
    assert_eq!(empty.as_str("dflt"), None);
}

#[test]
fn auto_header_value_default_is_default() {
    assert!(matches!(AutoHeaderValue::default(), AutoHeaderValue::Default));
}

#[test]
fn auto_header_value_clone_shares_the_string() {
    let text = Arc::new("shared".to_string());
    let v = AutoHeaderValue::Provided(text.clone());
    let w = v.clone();
    match w {
        AutoHeaderValue::Provided(s) => {
            assert!(Arc::ptr_eq(&s, &text));
            assert_eq!(s.as_str(), "shared");
        }
        _ => panic!("clone changed the variant"),
    }
    assert!(matches!(AutoHeaderValue::Absent.clone(), AutoHeaderValue::Absent));
    assert!(matches!(AutoHeaderValue::Default.clone(), AutoHeaderValue::Default));
}

#[test]
fn default_header_values() {
    let c = Config::default();
    assert_eq!(c.user_agent_value(), Some(DEFAULT_USER_AGENT));
    assert_eq!(c.accept_value(), Some("*/*"));
    assert_eq!(c.accept_encoding_value(), Some("gzip, br"));
    assert_eq!(DEFAULT_ACCEPT, "*/*");
    assert_eq!(DEFAULT_ACCEPT_ENCODING, "gzip, br");
    let c = Config::builder().user_agent(AutoHeaderValue::Absent).build();
    assert_eq!(c.user_agent_value(), None);
}

#[test]
fn config_clone_keeps_every_value() {
    let uri: http::Uri = "http://proxy.example:8080".parse().unwrap();
    let c = Config::builder()
        .proxy(Some(Proxy::new(Proto::Http, uri.clone())))
        .user_agent(AutoHeaderValue::Provided(Arc::new("ua".to_string())))
        .max_idle_age(Duration::from_secs(3))
        .timeout_connect(Some(Duration::from_secs(4)))
        .build();
    let d = c.clone();
    assert_eq!(d.proxy.as_ref().unwrap().uri(), &uri);
    assert_eq!(d.proxy.as_ref().unwrap().proto(), Proto::Http);
    assert_eq!(d.user_agent_value(), Some("ua"));
    assert_eq!(d.max_idle_age, Duration::from_secs(3));
    assert_eq!(d.timeouts.connect, Some(Duration::from_secs(4)));
    assert_eq!(d.max_redirects, c.max_redirects);
    let r = RequestLevelConfig(c).clone();
    assert_eq!(r.0.user_agent_value(), Some("ua"));
}

#[test]
fn connect_proxy_uri_is_the_uri_of_a_connect_proxy() {
    let uri: http::Uri = "http://proxy.example:8080".parse().unwrap();
    let c = Config::default();
    assert_eq!(c.connect_proxy_uri(), None);
    for proto in [Proto::Http, Proto::Https] {
        let c = Config::builder()
            .proxy(Some(Proxy::new(proto, uri.clone())))
            .build();
        assert_eq!(c.connect_proxy_uri(), Some(&uri));
    }
    for proto in [Proto::Socks4, Proto::Socks4A, Proto::Socks5] {
        let c = Config::builder()
            .proxy(Some(Proxy::new(proto, uri.clone())))
            .build();
        assert_eq!(c.connect_proxy_uri(), None);
    }
}

#[test]
fn proxy_getters() {
    let uri: http::Uri = "socks5://localhost:1080".parse().unwrap();
    let p = Proxy::new(Proto::Socks5, uri.clone());
    assert_eq!(p.proto(), Proto::Socks5);
    assert_eq!(p.uri(), &uri);
    assert!(!p.is_from_env());
    assert!(!Proto::Socks5.is_connect());
    assert!(Proto::Http.is_connect());
    assert!(Proto::Https.is_connect());
    assert!(!Proto::Socks4.is_connect());
    assert!(!Proto::Socks4A.is_connect());
    let q = p.clone();
    assert!(Arc::ptr_eq(&p.uri, &q.uri));
}

#[test]
fn new_agent_takes_the_config_and_an_empty_pool() {
    let c = Config::builder()
        .max_idle_connections(2)
        .max_redirects(4)
        .build();
    let mut agent: Agent<u32> = c.new_agent();
    assert_eq!(agent.config().max_redirects, 4);
    assert_eq!(agent.config().max_idle_connections, 2);
    assert_eq!(agent.pool().len(), 0);
    let r = agent.new_request_level_config();
    assert_eq!(r.0.max_redirects, 4);
}

#[test]
fn request_runs_under_the_config_of_the_agent_until_it_has_its_own() {
    let agent = Config::builder().https_only(false).max_redirects(4).build();
    let request: RequestBuilder<()> =
        RequestBuilder::new(agent, http::Request::get("http://example/"));
    assert!(!request.request_level_config().https_only);
    assert_eq!(request.request_level_config().max_redirects, 4);
    let request = request.config().https_only(true).build();
    assert!(request.request_level_config().https_only);
    assert_eq!(request.request_level_config().max_redirects, 4);
    let (builder, agent, own) = request.into_parts();
    // the agent's config is untouched
    assert!(!agent.https_only);
    assert!(own.unwrap().https_only);
    assert_eq!(builder.uri_ref().unwrap().host(), Some("example"));
}

#[test]
fn request_config_is_changed_step_by_step() {
    let request: RequestBuilder<()> =
        RequestBuilder::new(Config::default(), http::Request::post("http://example/"));
    let request = request.config().max_redirects(1).build();
    let request = request.config().no_delay(false).build();
    let c = request.request_level_config();
    assert_eq!(c.max_redirects, 1);
    assert!(!c.no_delay);
    assert!(c.http_status_as_error);
}

#[test]
fn request_is_put_together_of_its_parts() {
    let request: RequestBuilder<()> =
        RequestBuilder::new(Config::default(), http::Request::builder());
    let (builder, agent, own) = request.into_parts();
    assert!(own.is_none());
    let own = Config::builder().max_redirects(0).build();
    let request: RequestBuilder<()> =
        RequestBuilder::from_parts(builder.method("PUT"), agent, Some(own));
    assert_eq!(request.request_level_config().max_redirects, 0);
    let (builder, agent, own) = request.into_parts();
    assert_eq!(builder.method_ref().unwrap().as_str(), "PUT");
    assert_eq!(agent.max_redirects, 10);
    assert_eq!(own.unwrap().max_redirects, 0);
}

#[test]
fn proxy_protocol_from_the_scheme() {
    assert_eq!(Proto::from_scheme("http"), Some(Proto::Http));
    assert_eq!(Proto::from_scheme("https"), Some(Proto::Https));
    assert_eq!(Proto::from_scheme("socks4"), Some(Proto::Socks4));
    assert_eq!(Proto::from_scheme("socks4a"), Some(Proto::Socks4A));
    assert_eq!(Proto::from_scheme("socks5"), Some(Proto::Socks5));
    assert_eq!(Proto::from_scheme("socks"), Some(Proto::Socks5));
    assert_eq!(Proto::from_scheme("ftp"), None);
    assert_eq!(Proto::from_scheme(""), None);
    assert_eq!(Proto::from_scheme("HTTP"), None);
}

#[test]
fn proxy_variables_in_the_order_in_which_they_are_asked() {
    let names: Vec<&str> = (0..8).filter_map(proxy_variable).collect();
    assert_eq!(
        names,
        vec![
            "ALL_PROXY",
            "all_proxy",
            "HTTPS_PROXY",
            "https_proxy",
            "HTTP_PROXY",
            "http_proxy"
        ]
    );
    assert_eq!(proxy_variable(6), None);
}

#[test]
fn the_first_variable_that_is_set_decides() {
    let s = |v: &str| Some(v.to_string());
    assert_eq!(pick_set(&vec![None, s(""), s("http://a"), s("http://b")]), Some(2));
    assert_eq!(pick_set(&vec![s("x")]), Some(0));
    assert_eq!(pick_set(&vec![None, s("")]), None);
    assert_eq!(pick_set(&Vec::new()), None);
}

#[test]
fn no_proxy_list_covers_a_host_and_the_hosts_under_it() {
    assert!(bypasses("example.com", "example.com"));
    assert!(bypasses("example.com", "www.example.com"));
    assert!(!bypasses("example.com", "badexample.com"));
    assert!(!bypasses("example.com", "example.org"));
    assert!(!bypasses("www.example.com", "example.com"));
    assert!(bypasses(".example.com", "www.example.com"));
    assert!(!bypasses(".example.com", "example.com"));
    assert!(bypasses("*", "anything"));
    assert!(bypasses("localhost, 10.0.0.1 ,example.com", "10.0.0.1"));
    assert!(bypasses("a,b,,c", "c"));
    assert!(!bypasses("a,b,,c", "d"));
    assert!(!bypasses("", "host"));
    assert!(!bypasses(" , ", "host"));
    assert!(!bypasses("**", "host"));
}

#[test]
fn proxy_of_the_environment_spares_the_hosts_of_its_list() {
    let uri: http::Uri = "http://proxy:3128".parse().unwrap();
    let p = Proxy::from_env(Proto::Http, uri.clone(), Some("internal, .corp".to_string()));
    assert!(p.is_from_env());
    assert!(p.is_no_proxy("internal"));
    assert!(p.is_no_proxy("db.corp"));
    assert!(!p.is_no_proxy("example.com"));
    let q = p.clone();
    assert!(q.is_no_proxy("db.corp"));
    assert!(q.is_from_env());
    let p = Proxy::from_env(Proto::Http, uri.clone(), None);
    assert!(!p.is_no_proxy("internal"));
    assert!(!Proxy::new(Proto::Http, uri).is_no_proxy("internal"));
}
