use pecast_broadcast::broadcasting::{BroadcastRun, Broadcasting, Calls, Replies, Stage, Step};
use pecast_broadcast::failure::Failure;
use pecast_broadcast::json::Json;
use pecast_broadcast::pecast_adapter::{Command, Response};
use pecast_broadcast::settings::Settings;
use pecast_broadcast::yp_config::YPConfig;

fn text(value: &str) -> Json {
    Json::Text(value.to_owned())
}

fn result(value: Json) -> Response {
    Response::Payload(Json::Object(vec![("result".to_owned(), value)]))
}

fn engine_error(message: &str) -> Response {
    Response::Payload(Json::Object(vec![(
        "error".to_owned(),
        Json::Object(vec![("message".to_owned(), text(message))]),
    )]))
}

fn page(id: i64, uri: &str) -> Json {
    Json::Object(vec![
        ("yellowPageId".to_owned(), Json::Int(id)),
        ("uri".to_owned(), text(uri)),
    ])
}

fn config(host: &str, prefix: &str) -> YPConfig {
    YPConfig {
        name: host.to_owned(),
        terms_url: format!("https://{}/terms.html", host),
        terms_selector: None,
        ignore_terms_check: false,
        host: host.to_owned(),
        support_ipv6: true,
        prefix_header: prefix.to_owned(),
        supported_params: vec![],
    }
}

fn settings(ipv4_host: &str, ipv6_host: &str) -> Settings {
    let mut settings = Settings::default();
    settings.general_settings.channel_name = vec!["ch".to_owned(), "old".to_owned()];
    settings.yellow_pages_settings.ipv4.host = ipv4_host.to_owned();
    settings.yellow_pages_settings.ipv6.host = ipv6_host.to_owned();
    settings.channel_settings.genre = "Talk".to_owned();
    settings.channel_settings.desc = "desc".to_owned();
    settings.channel_settings.comment = vec!["hello".to_owned()];
    settings.channel_settings.contact_url = vec!["https://bbs.example/1".to_owned()];
    settings
}

fn configs() -> Vec<YPConfig> {
    vec![config("v4.example", "4"), config("v6.example", "6")]
}

/// A stand-in for the engine: it answers every call and keeps what it was
/// asked, in order.
struct Engine {
    listed: Vec<Json>,
    next_page: i64,
    next_channel: u32,
    asked: Vec<Command>,
    fail_on: Option<(&'static str, &'static str)>,
}

impl Engine {
    fn new(listed: Vec<Json>) -> Self {
        Engine { listed, next_page: 100, next_channel: 0, asked: Vec::new(), fail_on: None }
    }

    fn answer(&mut self, command: &Command) -> Response {
        self.asked.push(command.clone());
        if let Some((method, message)) = self.fail_on {
            if command.method_name() == method {
                return engine_error(message);
            }
        }
        match command {
            Command::GetVersionInfo => result(Json::Object(vec![(
                "agentName".to_owned(),
                text("PeerCastStation/3.1.0.0"),
            )])),
            Command::GetYellowPages => result(Json::Array(self.listed.drain(..).collect())),
            Command::AddYellowPage { .. } => {
                self.next_page += 1;
                result(Json::Object(vec![("yellowPageId".to_owned(), Json::Int(self.next_page))]))
            }
            Command::CheckPorts | Command::GetExternalIpAddresses => result(Json::Array(vec![])),
            Command::BroadcastChannel { .. } => {
                self.next_channel += 1;
                result(text(&format!("CH{}", self.next_channel)))
            }
            Command::SetChannelInfo { .. } | Command::StopChannel { .. } => result(Json::Null),
        }
    }

    fn serve(&mut self, calls: &Calls) -> Replies {
        Replies {
            common: calls.common.as_ref().map(|c| self.answer(c)),
            ipv4: calls.ipv4.as_ref().map(|c| self.answer(c)),
            ipv6: calls.ipv6.as_ref().map(|c| self.answer(c)),
        }
    }

    fn methods(&self) -> Vec<&'static str> {
        self.asked.iter().map(|c| c.method_name()).collect()
    }
}

fn run(
    sessions: &mut Broadcasting,
    engine: &mut Engine,
    settings: &Settings,
    free_port: u16,
) -> Result<u16, Failure> {
    let (mut run, mut calls) = BroadcastRun::begin(&configs(), settings, free_port);
    loop {
        let replies = engine.serve(&calls);
        match sessions.broadcast_step(&mut run, &replies) {
            Step::Call(next) => calls = next,
            Step::Finished(result) => {
                assert!(run.is_finished());
                return result;
            }
        }
    }
}

fn source_of(command: &Command) -> (String, String, String) {
    match command {
        Command::BroadcastChannel { source_uri, source_stream, network_type, .. } => {
            (source_uri.clone(), source_stream.clone(), network_type.clone())
        }
        _ => panic!("no broadcastChannel"),
    }
}

#[test]
fn new_sessions_are_idle() {
    let sessions = Broadcasting::new();
    assert!(!sessions.is_broadcasting());
    assert_eq!(sessions.ipv4_id(), &None);
    assert_eq!(sessions.ipv6_id(), &None);
}

#[test]
fn broadcast_with_ipv4_alone_reads_the_publisher() {
    let mut sessions = Broadcasting::new();
    let mut engine = Engine::new(vec![page(5, "pcp://v4.example/")]);
    let port = run(&mut sessions, &mut engine, &settings("v4.example", ""), 40000);
    assert_eq!(port, Ok(40000));
    assert_eq!(sessions.ipv4_id(), &Some("CH1".to_owned()));
    assert_eq!(sessions.ipv6_id(), &None);
    assert!(sessions.is_broadcasting());
    assert_eq!(
        engine.methods(),
        vec!["getYellowPages", "checkPorts", "getExternalIPAddresses", "broadcastChannel"]
    );
    let (uri, stream, network) = source_of(&engine.asked[3]);
    assert_eq!(uri, "rtmp://localhost:40000/live/livestream");
    assert!(!uri.starts_with("loopback:"));
    assert_eq!(stream, "RTMP Source");
    assert_eq!(network, "ipv4");
    match &engine.asked[3] {
        Command::BroadcastChannel { yellow_page_id, content_reader, info, track, .. } => {
            assert_eq!(*yellow_page_id, Some(5));
            assert_eq!(content_reader, "ASF(WMV or WMA)");
            assert_eq!(info.name, "ch");
            assert_eq!(info.genre, "4Talk");
            assert_eq!(info.desc, "desc");
            assert_eq!(info.comment, "hello");
            assert_eq!(info.url, "https://bbs.example/1");
            assert_eq!(info.mime_type, "FLV");
            assert_eq!(info.bitrate, None);
            assert_eq!(track.name, "");
        }
        _ => panic!("no broadcastChannel"),
    }
}

#[test]
fn broadcast_with_both_stacks_starts_ipv6_first_and_relays_it() {
    let mut sessions = Broadcasting::new();
    let mut engine =
        Engine::new(vec![page(5, "pcp://v4.example/"), page(6, "pcp://v6.example/")]);
    let mut both = settings("v4.example", "v6.example");
    both.general_settings.peer_cast_rtmp_port = 1936;
    let port = run(&mut sessions, &mut engine, &both, 40000);
    assert_eq!(port, Ok(1936));
    assert_eq!(sessions.ipv6_id(), &Some("CH1".to_owned()));
    assert_eq!(sessions.ipv4_id(), &Some("CH2".to_owned()));
    assert_eq!(
        engine.methods(),
        vec![
            "getYellowPages",
            "checkPorts",
            "getExternalIPAddresses",
            "broadcastChannel",
            "checkPorts",
            "getExternalIPAddresses",
            "broadcastChannel",
        ]
    );
    let (uri6, stream6, network6) = source_of(&engine.asked[3]);
    assert_eq!(uri6, "rtmp://localhost:1936/live/livestream");
    assert_eq!(stream6, "RTMP Source");
    assert_eq!(network6, "ipv6");
    let (uri4, stream4, network4) = source_of(&engine.asked[6]);
    assert_eq!(uri4, "loopback:CH1");
    assert_eq!(stream4, "他のチャンネル");
    assert_eq!(network4, "ipv4");
    match (&engine.asked[3], &engine.asked[6]) {
        (
            Command::BroadcastChannel { yellow_page_id: yp6, info: info6, .. },
            Command::BroadcastChannel { yellow_page_id: yp4, info: info4, .. },
        ) => {
            assert_eq!(*yp6, Some(6));
            assert_eq!(*yp4, Some(5));
            assert_eq!(info6.name, "ch (IPv6)");
            assert_eq!(info6.genre, "6Talk");
            assert_eq!(info4.name, "ch");
            assert_eq!(info4.genre, "4Talk");
        }
        _ => panic!("no broadcastChannel"),
    }
}

#[test]
fn broadcast_with_ipv6_alone_has_no_mark_in_the_name() {
    let mut sessions = Broadcasting::new();
    let mut engine = Engine::new(vec![page(6, "pcp://v6.example/")]);
    let port = run(&mut sessions, &mut engine, &settings("", "v6.example"), 40001);
    assert_eq!(port, Ok(40001));
    assert_eq!(sessions.ipv6_id(), &Some("CH1".to_owned()));
    assert_eq!(sessions.ipv4_id(), &None);
    assert_eq!(engine.asked.len(), 4);
    match &engine.asked[3] {
        Command::BroadcastChannel { info, .. } => assert_eq!(info.name, "ch"),
        _ => panic!("no broadcastChannel"),
    }
}

#[test]
fn broadcast_without_hosts_only_lists_the_directories() {
    let mut sessions = Broadcasting::new();
    let mut engine = Engine::new(vec![page(5, "pcp://v4.example/")]);
    let port = run(&mut sessions, &mut engine, &settings("", ""), 40002);
    assert_eq!(port, Ok(40002));
    assert!(!sessions.is_broadcasting());
    assert_eq!(engine.methods(), vec!["getYellowPages"]);
}

#[test]
fn broadcast_adds_the_directories_that_the_engine_lacks() {
    let mut sessions = Broadcasting::new();
    let mut engine = Engine::new(vec![page(5, "pcp://v4.example")]);
    let both = settings("v4.example", "v6.example");
    let (mut run, calls) = BroadcastRun::begin(&configs(), &both, 40000);
    assert_eq!(run.stage, Stage::Directories);
    assert_eq!(calls.common, Some(Command::GetYellowPages));
    assert!(calls.ipv4.is_none() && calls.ipv6.is_none());
    let replies = engine.serve(&calls);
    let calls = match sessions.broadcast_step(&mut run, &replies) {
        Step::Call(calls) => calls,
        Step::Finished(_) => panic!("finished early"),
    };
    assert_eq!(run.stage, Stage::Registration);
    assert_eq!(calls.common, None);
    assert_eq!(
        calls.ipv4,
        Some(Command::AddYellowPage {
            protocol: "pcp".to_owned(),
            name: "v4.example".to_owned(),
            announce_uri: "pcp://v4.example".to_owned(),
        })
    );
    assert_eq!(
        calls.ipv6,
        Some(Command::AddYellowPage {
            protocol: "pcp".to_owned(),
            name: "v6.example".to_owned(),
            announce_uri: "pcp://v6.example".to_owned(),
        })
    );
    let replies = engine.serve(&calls);
    let calls = match sessions.broadcast_step(&mut run, &replies) {
        Step::Call(calls) => calls,
        Step::Finished(_) => panic!("finished early"),
    };
    assert_eq!(run.stage, Stage::Ipv6Ports);
    assert_eq!(run.ipv4_yp_id, Some(101));
    assert_eq!(run.ipv6_yp_id, Some(102));
    assert_eq!(calls.ipv6, Some(Command::CheckPorts));
    assert!(calls.ipv4.is_none());
}

#[test]
fn broadcast_adds_only_the_missing_directory() {
    let mut sessions = Broadcasting::new();
    let mut engine = Engine::new(vec![page(6, "pcp://v6.example/")]);
    let port = run(&mut sessions, &mut engine, &settings("v4.example", "v6.example"), 40000);
    assert_eq!(port, Ok(40000));
    assert_eq!(engine.methods()[1], "addYellowPage");
    assert_eq!(engine.methods().iter().filter(|m| **m == "addYellowPage").count(), 1);
    match (&engine.asked[4], &engine.asked[7]) {
        (
            Command::BroadcastChannel { yellow_page_id: yp6, .. },
            Command::BroadcastChannel { yellow_page_id: yp4, .. },
        ) => {
            assert_eq!(*yp6, Some(6));
            assert_eq!(*yp4, Some(101));
        }
        _ => panic!("no broadcastChannel"),
    }
}

#[test]
fn broadcast_stops_at_the_first_failure() {
    let mut sessions = Broadcasting::new();
    let mut engine =
        Engine::new(vec![page(5, "pcp://v4.example/"), page(6, "pcp://v6.example/")]);
    engine.fail_on = Some(("getExternalIPAddresses", "no address"));
    let port = run(&mut sessions, &mut engine, &settings("v4.example", "v6.example"), 40000);
    assert_eq!(port, Err(Failure::Error("no address".to_owned())));
    assert!(!sessions.is_broadcasting());
    assert_eq!(engine.methods(), vec!["getYellowPages", "checkPorts", "getExternalIPAddresses"]);
}

#[test]
fn broadcast_keeps_the_ipv6_session_when_ipv4_fails() {
    let mut sessions = Broadcasting::new();
    let mut engine =
        Engine::new(vec![page(5, "pcp://v4.example/"), page(6, "pcp://v6.example/")]);
    let both = settings("v4.example", "v6.example");
    let (mut run, mut calls) = BroadcastRun::begin(&configs(), &both, 40000);
    let result = loop {
        let mut replies = engine.serve(&calls);
        if engine.asked.len() == 7 {
            replies.ipv4 = Some(engine_error("refused"));
        }
        match sessions.broadcast_step(&mut run, &replies) {
            Step::Call(next) => calls = next,
            Step::Finished(result) => break result,
        }
    };
    assert_eq!(result, Err(Failure::Error("refused".to_owned())));
    assert_eq!(sessions.ipv6_id(), &Some("CH1".to_owned()));
    assert_eq!(sessions.ipv4_id(), &None);
}

#[test]
fn broadcast_without_an_answer_is_a_failed_communication() {
    let mut sessions = Broadcasting::new();
    let (mut run, _calls) = BroadcastRun::begin(&configs(), &settings("v4.example", ""), 40000);
    let step = sessions.broadcast_step(&mut run, &Replies { common: None, ipv4: None, ipv6: None });
    match step {
        Step::Finished(Err(failure)) => assert_eq!(
            failure,
            Failure::Fatal("Failure communicating with PeerCastStation.".to_owned())
        ),
        _ => panic!("not failed"),
    }
    assert!(run.is_finished());
}

#[test]
fn registration_reports_the_failure_in_earnest() {
    let mut sessions = Broadcasting::new();
    let mut engine = Engine::new(vec![]);
    let both = settings("v4.example", "v6.example");
    let (mut run, calls) = BroadcastRun::begin(&configs(), &both, 40000);
    let replies = engine.serve(&calls);
    match sessions.broadcast_step(&mut run, &replies) {
        Step::Call(_) => {}
        Step::Finished(_) => panic!("finished early"),
    }
    let replies = Replies { common: None, ipv4: None, ipv6: Some(engine_error("full")) };
    match sessions.broadcast_step(&mut run, &replies) {
        Step::Finished(Err(failure)) => assert_eq!(failure, Failure::Error("full".to_owned())),
        _ => panic!("not failed"),
    }
}

#[test]
fn needs_free_port_only_without_a_configured_one() {
    let mut some = settings("v4.example", "");
    assert!(BroadcastRun::needs_free_port(&some));
    some.general_settings.peer_cast_rtmp_port = 1936;
    assert!(!BroadcastRun::needs_free_port(&some));
}

fn live(ipv4: bool, ipv6: bool) -> Broadcasting {
    let mut sessions = Broadcasting::new();
    let mut engine =
        Engine::new(vec![page(5, "pcp://v4.example/"), page(6, "pcp://v6.example/")]);
    let settings = settings(if ipv4 { "v4.example" } else { "" }, if ipv6 { "v6.example" } else { "" });
    run(&mut sessions, &mut engine, &settings, 40000).unwrap();
    sessions
}

#[test]
fn update_asks_nothing_for_an_idle_stack() {
    let both = settings("v4.example", "v6.example");
    let idle = Broadcasting::new();
    let calls = idle.update(&configs(), &both);
    assert!(calls.common.is_none() && calls.ipv4.is_none() && calls.ipv6.is_none());

    let only4 = live(true, false);
    let calls = only4.update(&configs(), &both);
    assert!(calls.common.is_none() && calls.ipv6.is_none());
    match calls.ipv4 {
        Some(Command::SetChannelInfo { channel_id, info, track }) => {
            assert_eq!(channel_id, "CH1");
            assert_eq!(info.name, "ch");
            assert_eq!(info.genre, "4Talk");
            assert_eq!(track.album, "");
        }
        _ => panic!("no setChannelInfo"),
    }

    let only6 = live(false, true);
    let calls = only6.update(&configs(), &both);
    assert!(calls.ipv4.is_none());
    match calls.ipv6 {
        Some(Command::SetChannelInfo { channel_id, info, .. }) => {
            assert_eq!(channel_id, "CH1");
            assert_eq!(info.name, "ch");
            assert_eq!(info.genre, "6Talk");
        }
        _ => panic!("no setChannelInfo"),
    }
}

#[test]
fn update_sends_both_live_stacks_the_new_values() {
    let sessions = live(true, true);
    let mut changed = settings("v4.example", "v6.example");
    changed.general_settings.channel_name[0] = "renamed".to_owned();
    changed.channel_settings.genre = "Game".to_owned();
    let calls = sessions.update(&configs(), &changed);
    match (calls.ipv4, calls.ipv6) {
        (
            Some(Command::SetChannelInfo { channel_id: id4, info: info4, .. }),
            Some(Command::SetChannelInfo { channel_id: id6, info: info6, .. }),
        ) => {
            assert_eq!(id6, "CH1");
            assert_eq!(id4, "CH2");
            assert_eq!(info4.name, "renamed");
            assert_eq!(info6.name, "renamed (IPv6)");
            assert_eq!(info4.genre, "4Game");
            assert_eq!(info6.genre, "6Game");
        }
        _ => panic!("no setChannelInfo"),
    }
    assert_eq!(sessions.ipv6_id(), &Some("CH1".to_owned()));
    assert_eq!(sessions.ipv4_id(), &Some("CH2".to_owned()));
}

#[test]
fn update_done_reports_the_ipv6_failure_first() {
    let sessions = live(true, true);
    let ok = Replies {
        common: None,
        ipv4: Some(result(Json::Null)),
        ipv6: Some(result(Json::Null)),
    };
    assert_eq!(sessions.update_done(&ok), Ok(()));
    let both = Replies {
        common: None,
        ipv4: Some(engine_error("four")),
        ipv6: Some(engine_error("six")),
    };
    assert_eq!(sessions.update_done(&both), Err(Failure::Error("six".to_owned())));
    let lost = Replies { common: None, ipv4: Some(engine_error("four")), ipv6: None };
    assert_eq!(sessions.update_done(&lost), Err(Failure::Error("four".to_owned())));
    let unanswered = Replies { common: None, ipv4: Some(result(Json::Null)), ipv6: None };
    assert_eq!(
        sessions.update_done(&unanswered),
        Err(Failure::Fatal("Failure communicating with PeerCastStation.".to_owned()))
    );
    let idle = Broadcasting::new();
    assert_eq!(idle.update_done(&both), Ok(()));
}

#[test]
fn stop_turns_both_stacks_idle() {
    let mut sessions = live(true, true);
    let calls = sessions.stop_calls();
    assert_eq!(calls.common, None);
    assert_eq!(calls.ipv6, Some(Command::StopChannel { channel_id: "CH1".to_owned() }));
    assert_eq!(calls.ipv4, Some(Command::StopChannel { channel_id: "CH2".to_owned() }));
    let replies = Replies {
        common: None,
        ipv4: Some(result(Json::Null)),
        ipv6: Some(result(Json::Null)),
    };
    assert_eq!(sessions.stop(&replies), Ok(()));
    assert!(!sessions.is_broadcasting());
    let calls = sessions.stop_calls();
    assert!(calls.ipv4.is_none() && calls.ipv6.is_none());
    assert_eq!(sessions.stop(&Replies { common: None, ipv4: None, ipv6: None }), Ok(()));
}

#[test]
fn stop_twice_tolerates_the_missing_ipv4_channel() {
    let mut sessions = live(true, true);
    let first = Replies { common: None, ipv4: None, ipv6: Some(engine_error("busy")) };
    assert_eq!(sessions.stop(&first), Err(Failure::Error("busy".to_owned())));
    assert_eq!(sessions.ipv4_id(), &Some("CH2".to_owned()));
    assert_eq!(sessions.ipv6_id(), &Some("CH1".to_owned()));
    let second = Replies {
        common: None,
        ipv4: Some(engine_error("Channel not found")),
        ipv6: Some(result(Json::Null)),
    };
    assert_eq!(sessions.stop(&second), Ok(()));
    assert!(!sessions.is_broadcasting());
}

#[test]
fn stop_does_not_tolerate_a_missing_ipv6_channel() {
    let mut sessions = live(true, true);
    let replies = Replies {
        common: None,
        ipv4: Some(engine_error("Channel not found")),
        ipv6: Some(engine_error("Channel not found")),
    };
    assert_eq!(sessions.stop(&replies), Err(Failure::Error("Channel not found".to_owned())));
    assert_eq!(sessions.ipv4_id(), &None);
    assert_eq!(sessions.ipv6_id(), &Some("CH1".to_owned()));
}

#[test]
fn stop_keeps_a_stack_live_whose_stop_failed() {
    let mut sessions = live(true, false);
    let other = Replies { common: None, ipv4: Some(engine_error("Channel busy")), ipv6: None };
    assert_eq!(sessions.stop(&other), Err(Failure::Error("Channel busy".to_owned())));
    assert_eq!(sessions.ipv4_id(), &Some("CH1".to_owned()));
    let fatal = Replies { common: None, ipv4: Some(Response::Undecodable), ipv6: None };
    assert_eq!(
        sessions.stop(&fatal),
        Err(Failure::Fatal("Failure communicating with PeerCastStation.".to_owned()))
    );
    assert!(sessions.is_broadcasting());
    let fatal_not_found = Replies {
        common: None,
        ipv4: Some(Response::Unreachable("Channel not found".to_owned())),
        ipv6: None,
    };
    assert_eq!(sessions.stop(&fatal_not_found), Err(Failure::Fatal("Channel not found".to_owned())));
    assert!(sessions.is_broadcasting());
}

#[test]
fn fetch_version_reads_the_agent_name() {
    let sessions = Broadcasting::new();
    let mut engine = Engine::new(vec![]);
    let response = engine.answer(&Command::GetVersionInfo);
    let version = sessions.fetch_version(&response).unwrap();
    assert_eq!(version.text(), "3.1.0.0");
    assert_eq!(version.stop_delay_secs(), 0);
    let old = result(Json::Object(vec![("agentName".to_owned(), text("PeerCastStation/3.0.0.0"))]));
    assert_eq!(sessions.fetch_version(&old).unwrap().stop_delay_secs(), 6);
    let odd = result(Json::Object(vec![("agentName".to_owned(), text("PeerCastStation"))]));
    assert_eq!(
        sessions.fetch_version(&odd).err(),
        Some(Failure::Fatal("Invalid agentName format".to_owned()))
    );
    assert_eq!(
        sessions.fetch_version(&engine_error("busy")).err(),
        Some(Failure::Error("busy".to_owned()))
    );
}
