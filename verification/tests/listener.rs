use pecast_broadcast::rtmp_listener::RtmpListener;
use pecast_broadcast::rtmp_server::{ListenerAction, RtmpServer};
use pecast_broadcast::settings::Settings;
use pecast_broadcast::tcp::{connect, ConnectStep, CONNECT_ATTEMPTS};
use pecast_broadcast::failure::Failure;
use pecast_broadcast::yp_config::YPConfig;

fn config(host: &str, ignore_terms_check: bool) -> YPConfig {
    YPConfig {
        name: host.to_owned(),
        terms_url: format!("https://{}/terms.html", host),
        terms_selector: None,
        ignore_terms_check,
        host: host.to_owned(),
        support_ipv6: true,
        prefix_header: String::new(),
        supported_params: vec![],
    }
}

fn configs() -> Vec<YPConfig> {
    vec![config("v4.example", false), config("v6.example", false), config("free.example", true)]
}

fn settings(ipv4_host: &str, ipv6_host: &str, agreed: &[&str]) -> Settings {
    let mut settings = Settings::default();
    settings.yellow_pages_settings.ipv4.host = ipv4_host.to_owned();
    settings.yellow_pages_settings.ipv6.host = ipv6_host.to_owned();
    settings.yellow_pages_settings.agreed_terms = agreed
        .iter()
        .map(|host| (format!("https://{}/terms.html", host), "hash".to_owned()))
        .collect();
    settings
}

fn bound_to(port: u16) -> RtmpServer {
    let mut server = RtmpServer::new();
    assert!(server.spawn_listener(port, true));
    server
}

fn apply(server: &mut RtmpServer, plan: &[ListenerAction]) {
    for action in plan {
        match action {
            ListenerAction::Stop => {
                server.stop_listener();
            }
            ListenerAction::Spawn(port) => {
                assert_eq!(server.port(), None);
                server.spawn_listener(*port, true);
            }
        }
    }
}

#[test]
fn without_hosts_the_listener_is_unbound() {
    let none = settings("", "", &["v4.example", "v6.example"]);
    assert!(!RtmpServer::should_listen(&configs(), &none));
    let unbound = RtmpServer::new();
    assert_eq!(unbound.listen_rtmp_if_need(&configs(), &none), vec![]);
    let mut bound = bound_to(1935);
    let plan = bound.listen_rtmp_if_need(&configs(), &none);
    assert_eq!(plan, vec![ListenerAction::Stop]);
    apply(&mut bound, &plan);
    assert_eq!(bound.port(), None);
    let mut elsewhere = bound_to(2000);
    let plan = elsewhere.listen_rtmp_if_need(&configs(), &none);
    apply(&mut elsewhere, &plan);
    assert_eq!(elsewhere.port(), None);
}

#[test]
fn unagreed_terms_never_bind() {
    let unagreed = settings("v4.example", "", &[]);
    assert!(!RtmpServer::should_listen(&configs(), &unagreed));
    assert_eq!(RtmpServer::new().listen_rtmp_if_need(&configs(), &unagreed), vec![]);
    assert_eq!(
        bound_to(1935).listen_rtmp_if_need(&configs(), &unagreed),
        vec![ListenerAction::Stop]
    );
    let one_of_two = settings("v4.example", "v6.example", &["v4.example"]);
    assert!(!RtmpServer::should_listen(&configs(), &one_of_two));
    let other_of_two = settings("v4.example", "v6.example", &["v6.example"]);
    assert!(!RtmpServer::should_listen(&configs(), &other_of_two));
}

#[test]
fn agreed_or_exempt_terms_bind() {
    let agreed = settings("v4.example", "", &["v4.example"]);
    assert!(RtmpServer::should_listen(&configs(), &agreed));
    let both = settings("v4.example", "v6.example", &["v6.example", "v4.example"]);
    assert!(RtmpServer::should_listen(&configs(), &both));
    let exempt = settings("", "free.example", &[]);
    assert!(RtmpServer::should_listen(&configs(), &exempt));
    let unknown = settings("unknown.example", "", &[]);
    assert!(RtmpServer::should_listen(&configs(), &unknown));
    let mut server = RtmpServer::new();
    let plan = server.listen_rtmp_if_need(&configs(), &agreed);
    assert_eq!(plan, vec![ListenerAction::Spawn(1935)]);
    apply(&mut server, &plan);
    assert_eq!(server.port(), Some(1935));
}

#[test]
fn a_changed_port_stops_once_and_spawns_once() {
    let mut changed = settings("v4.example", "", &["v4.example"]);
    changed.general_settings.rtmp_listen_port = 1936;
    let mut server = bound_to(1935);
    let plan = server.listen_rtmp_if_need(&configs(), &changed);
    assert_eq!(plan, vec![ListenerAction::Stop, ListenerAction::Spawn(1936)]);
    apply(&mut server, &plan);
    assert_eq!(server.port(), Some(1936));
    assert_eq!(server.listen_rtmp_if_need(&configs(), &changed), vec![]);
}

#[test]
fn an_unrelated_change_leaves_the_listener_alone() {
    let mut changed = settings("v4.example", "", &["v4.example"]);
    let server = bound_to(1935);
    assert_eq!(server.listen_rtmp_if_need(&configs(), &changed), vec![]);
    changed.general_settings.channel_name = vec!["renamed".to_owned()];
    changed.general_settings.peer_cast_port = 7145;
    changed.channel_settings.genre = "Game".to_owned();
    changed.yellow_pages_settings.ipv4.namespace = "ns".to_owned();
    assert_eq!(server.listen_rtmp_if_need(&configs(), &changed), vec![]);
    assert_eq!(server.port(), Some(1935));
}

#[test]
fn a_failed_bind_leaves_the_listener_unbound() {
    let mut server = RtmpServer::new();
    assert!(!server.spawn_listener(1935, false));
    assert_eq!(server.port(), None);
    assert!(!server.stop_listener());
    assert!(server.spawn_listener(1935, true));
    assert!(server.stop_listener());
    assert_eq!(server.port(), None);
}

#[test]
fn listener_state_follows_stop_and_spawn() {
    let mut listener = RtmpListener::new();
    assert_eq!(listener.port(), None);
    assert!(!listener.stop_listener());
    assert!(listener.spawn_listener(1935, true));
    assert_eq!(listener.port(), Some(1935));
    assert!(listener.stop_listener());
    assert_eq!(listener.port(), None);
    assert!(!listener.spawn_listener(1936, false));
    assert_eq!(listener.port(), None);
}

#[test]
fn connect_is_tried_five_times() {
    assert_eq!(CONNECT_ATTEMPTS, 5);
    for failed in 0..5 {
        assert!(matches!(connect(failed), ConnectStep::Attempt));
    }
    match connect(5) {
        ConnectStep::GiveUp(failure) => {
            assert_eq!(failure, Failure::Fatal("Connection error".to_owned()))
        }
        ConnectStep::Attempt => panic!("a sixth attempt"),
    }
    assert!(matches!(connect(u32::MAX), ConnectStep::GiveUp(_)));
}
