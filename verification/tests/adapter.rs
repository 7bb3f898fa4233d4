use pecast_broadcast::failure::Failure;
use pecast_broadcast::json::Json;
use pecast_broadcast::pecast_adapter::{
    request_rpc, Command, Info, PeCaStAdapter, Response, Track,
};
use pecast_broadcast::settings::Settings;

fn text(value: &str) -> Json {
    Json::Text(value.to_owned())
}

fn object(fields: Vec<(&str, Json)>) -> Json {
    Json::Object(fields.into_iter().map(|(k, v)| (k.to_owned(), v)).collect())
}

fn result(value: Json) -> Response {
    Response::Payload(object(vec![("jsonrpc", text("2.0")), ("id", Json::Int(0)), ("result", value)]))
}

fn engine_error(message: &str) -> Response {
    Response::Payload(object(vec![(
        "error",
        object(vec![("code", Json::Int(-1)), ("message", text(message))]),
    )]))
}

fn communication() -> Failure {
    Failure::Fatal("Failure communicating with PeerCastStation.".to_owned())
}

fn sample_info() -> Info {
    Info {
        name: "ch".to_owned(),
        url: "https://bbs.example/1".to_owned(),
        bitrate: None,
        mime_type: "FLV".to_owned(),
        genre: "Pgenre".to_owned(),
        desc: "desc".to_owned(),
        comment: "comment".to_owned(),
    }
}

fn info_json() -> Json {
    object(vec![
        ("name", text("ch")),
        ("url", text("https://bbs.example/1")),
        ("bitrate", Json::Null),
        ("mimeType", text("FLV")),
        ("genre", text("Pgenre")),
        ("desc", text("desc")),
        ("comment", text("comment")),
    ])
}

fn track_json() -> Json {
    object(vec![
        ("name", text("")),
        ("creator", text("")),
        ("genre", text("")),
        ("album", text("")),
        ("url", text("")),
    ])
}

#[test]
fn adapter_posts_to_the_api_of_its_port() {
    let adapter = PeCaStAdapter::new(7144);
    assert_eq!(adapter.port(), 7144);
    assert_eq!(adapter.url(), "http://localhost:7144/api/1/");
    assert_eq!(adapter.view_xml_url(), "http://localhost:7144/admin?cmd=viewxml");
    let rpc = adapter.request(&Command::GetVersionInfo);
    assert_eq!(rpc.url, "http://localhost:7144/api/1/");
    assert_eq!(rpc.header, ("X-Requested-With", "XMLHttpRequest"));
}

#[test]
fn request_without_params_has_three_fields() {
    let body = Command::GetYellowPages.body();
    assert_eq!(
        body,
        object(vec![
            ("jsonrpc", text("2.0")),
            ("id", Json::Int(0)),
            ("method", text("getYellowPages")),
        ])
    );
    assert_eq!(Command::GetVersionInfo.method_name(), "getVersionInfo");
    assert_eq!(Command::CheckPorts.method_name(), "checkPorts");
    assert_eq!(Command::GetExternalIpAddresses.method_name(), "getExternalIPAddresses");
    assert!(Command::CheckPorts.params().is_none());
}

#[test]
fn request_to_add_a_yellow_page() {
    let command = Command::AddYellowPage {
        protocol: "pcp".to_owned(),
        name: "yp.example".to_owned(),
        announce_uri: "pcp://yp.example".to_owned(),
    };
    assert_eq!(
        command.body(),
        object(vec![
            ("jsonrpc", text("2.0")),
            ("id", Json::Int(0)),
            ("method", text("addYellowPage")),
            (
                "params",
                object(vec![
                    ("protocol", text("pcp")),
                    ("name", text("yp.example")),
                    ("announceUri", text("pcp://yp.example")),
                ])
            ),
        ])
    );
}

#[test]
fn request_to_broadcast_a_channel() {
    let command = Command::BroadcastChannel {
        yellow_page_id: Some(12),
        source_uri: "rtmp://localhost:1935/live/livestream".to_owned(),
        source_stream: "RTMP Source".to_owned(),
        content_reader: "ASF(WMV or WMA)".to_owned(),
        info: sample_info(),
        track: Track::empty(),
        network_type: "ipv6".to_owned(),
    };
    assert_eq!(command.method_name(), "broadcastChannel");
    assert_eq!(
        command.params(),
        Some(object(vec![
            ("yellowPageId", Json::Int(12)),
            ("sourceUri", text("rtmp://localhost:1935/live/livestream")),
            ("sourceStream", text("RTMP Source")),
            ("contentReader", text("ASF(WMV or WMA)")),
            ("info", info_json()),
            ("track", track_json()),
            ("networkType", text("ipv6")),
        ]))
    );
}

#[test]
fn request_with_a_bitrate_and_without_a_yellow_page() {
    let mut info = sample_info();
    info.bitrate = Some(500);
    let command = Command::BroadcastChannel {
        yellow_page_id: None,
        source_uri: "u".to_owned(),
        source_stream: "s".to_owned(),
        content_reader: "c".to_owned(),
        info,
        track: Track::empty(),
        network_type: "ipv4".to_owned(),
    };
    let params = command.params().unwrap();
    assert_eq!(params.get("yellowPageId"), Some(&Json::Null));
    assert_eq!(params.get("info").unwrap().get("bitrate"), Some(&Json::Int(500)));
}

#[test]
fn request_to_set_channel_info_and_to_stop() {
    let set = Command::SetChannelInfo {
        channel_id: "0A".to_owned(),
        info: sample_info(),
        track: Track::empty(),
    };
    assert_eq!(set.method_name(), "setChannelInfo");
    assert_eq!(
        set.params(),
        Some(object(vec![("channelId", text("0A")), ("info", info_json()), ("track", track_json())]))
    );
    let stop = Command::StopChannel { channel_id: "0A".to_owned() };
    assert_eq!(
        stop.body(),
        object(vec![
            ("jsonrpc", text("2.0")),
            ("id", Json::Int(0)),
            ("method", text("stopChannel")),
            ("params", object(vec![("channelId", text("0A"))])),
        ])
    );
}

#[test]
fn answer_with_a_result() {
    let response = result(text("value"));
    assert_eq!(request_rpc(&response), Ok(&text("value")));
    let null = result(Json::Null);
    assert_eq!(request_rpc(&null), Ok(&Json::Null));
}

#[test]
fn answer_with_an_engine_error() {
    assert_eq!(
        request_rpc(&engine_error("Channel not found")),
        Err(Failure::Error("Channel not found".to_owned()))
    );
    let both = Response::Payload(object(vec![
        ("result", text("x")),
        ("error", object(vec![("message", text("no"))])),
    ]));
    assert_eq!(request_rpc(&both), Err(Failure::Error("no".to_owned())));
}

#[test]
fn answer_that_makes_no_sense_is_fatal() {
    assert_eq!(request_rpc(&Response::Undecodable), Err(communication()));
    assert_eq!(request_rpc(&Response::Payload(text("x"))), Err(communication()));
    assert_eq!(request_rpc(&Response::Payload(Json::Array(vec![]))), Err(communication()));
    assert_eq!(request_rpc(&Response::Payload(object(vec![]))), Err(communication()));
    let no_message = Response::Payload(object(vec![("error", object(vec![]))]));
    assert_eq!(request_rpc(&no_message), Err(communication()));
    let odd_message =
        Response::Payload(object(vec![("error", object(vec![("message", Json::Int(3))]))]));
    assert_eq!(request_rpc(&odd_message), Err(communication()));
    let odd_error = Response::Payload(object(vec![("error", text("broken"))]));
    assert_eq!(request_rpc(&odd_error), Err(communication()));
}

#[test]
fn failed_transport_is_fatal_with_its_text() {
    let response = Response::Unreachable("connection refused".to_owned());
    assert_eq!(request_rpc(&response), Err(Failure::Fatal("connection refused".to_owned())));
    assert_eq!(
        PeCaStAdapter::stop_channel(&response),
        Err(Failure::Fatal("connection refused".to_owned()))
    );
}

#[test]
fn version_info_is_the_agent_name() {
    let response = result(object(vec![
        ("apiVersion", text("1.0.0")),
        ("agentName", text("PeerCastStation/3.1.0.0")),
    ]));
    assert_eq!(PeCaStAdapter::get_version_info(&response), Ok("PeerCastStation/3.1.0.0".to_owned()));
    assert_eq!(PeCaStAdapter::get_version_info(&result(object(vec![]))), Err(communication()));
    assert_eq!(PeCaStAdapter::get_version_info(&result(text("x"))), Err(communication()));
    assert_eq!(
        PeCaStAdapter::get_version_info(&result(object(vec![("agentName", Json::Int(1))]))),
        Err(communication())
    );
    assert_eq!(
        PeCaStAdapter::get_version_info(&engine_error("busy")),
        Err(Failure::Error("busy".to_owned()))
    );
}

#[test]
fn yellow_pages_are_read_in_order() {
    let response = result(Json::Array(vec![
        object(vec![("yellowPageId", Json::Int(4)), ("name", text("a")), ("uri", text("pcp://a/"))]),
        object(vec![("uri", text("pcp://b/")), ("yellowPageId", Json::Int(-2))]),
    ]));
    assert_eq!(
        PeCaStAdapter::get_yellow_pages(&response),
        Ok(vec![(4, "pcp://a/".to_owned()), (-2, "pcp://b/".to_owned())])
    );
    assert_eq!(PeCaStAdapter::get_yellow_pages(&result(Json::Array(vec![]))), Ok(vec![]));
}

#[test]
fn yellow_page_id_is_cut_to_32_bits() {
    let response = result(Json::Array(vec![object(vec![
        ("yellowPageId", Json::Int(4294967301)),
        ("uri", text("pcp://a/")),
    ])]));
    assert_eq!(PeCaStAdapter::get_yellow_pages(&response), Ok(vec![(5, "pcp://a/".to_owned())]));
    let added = result(object(vec![("yellowPageId", Json::Int(2147483648))]));
    assert_eq!(PeCaStAdapter::add_yellow_page(&added), Ok(-2147483648));
}

#[test]
fn one_bad_yellow_page_spoils_the_list() {
    let response = result(Json::Array(vec![
        object(vec![("yellowPageId", Json::Int(4)), ("uri", text("pcp://a/"))]),
        object(vec![("yellowPageId", text("5")), ("uri", text("pcp://b/"))]),
    ]));
    assert_eq!(PeCaStAdapter::get_yellow_pages(&response), Err(communication()));
    let no_uri = result(Json::Array(vec![object(vec![("yellowPageId", Json::Int(4))])]));
    assert_eq!(PeCaStAdapter::get_yellow_pages(&no_uri), Err(communication()));
    let fraction = result(Json::Array(vec![object(vec![
        ("yellowPageId", Json::OtherNumber),
        ("uri", text("pcp://a/")),
    ])]));
    assert_eq!(PeCaStAdapter::get_yellow_pages(&fraction), Err(communication()));
    assert_eq!(PeCaStAdapter::get_yellow_pages(&result(object(vec![]))), Err(communication()));
}

#[test]
fn added_yellow_page_has_an_id() {
    let response = result(object(vec![("yellowPageId", Json::Int(8))]));
    assert_eq!(PeCaStAdapter::add_yellow_page(&response), Ok(8));
    assert_eq!(PeCaStAdapter::add_yellow_page(&result(Json::Int(8))), Err(communication()));
    assert_eq!(PeCaStAdapter::add_yellow_page(&result(object(vec![]))), Err(communication()));
}

#[test]
fn self_checks_answer_with_an_array() {
    let ok = result(Json::Array(vec![Json::Int(7144)]));
    assert_eq!(PeCaStAdapter::check_ports(&ok), Ok(()));
    assert_eq!(PeCaStAdapter::get_external_ip_addresses(&ok), Ok(()));
    assert_eq!(PeCaStAdapter::check_ports(&result(Json::Null)), Err(communication()));
    assert_eq!(
        PeCaStAdapter::get_external_ip_addresses(&result(text("::1"))),
        Err(communication())
    );
}

#[test]
fn broadcast_channel_answers_with_the_id() {
    assert_eq!(PeCaStAdapter::broadcast_channel(&result(text("0A1B"))), Ok("0A1B".to_owned()));
    assert_eq!(PeCaStAdapter::broadcast_channel(&result(Json::Int(1))), Err(communication()));
    assert_eq!(
        PeCaStAdapter::broadcast_channel(&engine_error("no source")),
        Err(Failure::Error("no source".to_owned()))
    );
}

#[test]
fn set_and_stop_take_any_result() {
    assert_eq!(PeCaStAdapter::set_channel_info(&result(Json::Null)), Ok(()));
    assert_eq!(PeCaStAdapter::stop_channel(&result(Json::Bool(true))), Ok(()));
    assert_eq!(
        PeCaStAdapter::stop_channel(&engine_error("Channel not found")),
        Err(Failure::Error("Channel not found".to_owned()))
    );
    assert_eq!(PeCaStAdapter::set_channel_info(&Response::Undecodable), Err(communication()));
}

#[test]
fn json_get_takes_the_first_field_of_a_name() {
    let value = object(vec![("a", Json::Int(1)), ("b", Json::Int(2)), ("a", Json::Int(3))]);
    assert_eq!(value.get("a"), Some(&Json::Int(1)));
    assert_eq!(value.get("b"), Some(&Json::Int(2)));
    assert_eq!(value.get("c"), None);
    assert_eq!(Json::Array(vec![]).get("a"), None);
    assert!(value.is_object());
    assert!(!Json::Null.is_object());
    assert_eq!(text("x").as_str(), Some("x"));
    assert_eq!(Json::Int(1).as_str(), None);
    assert_eq!(Json::Int(-9).as_i64(), Some(-9));
    assert_eq!(Json::OtherNumber.as_i64(), None);
    assert_eq!(Json::Array(vec![Json::Null]).as_array(), Some(&vec![Json::Null]));
    assert_eq!(text("x").as_array(), None);
}

#[test]
fn adapter_goes_to_the_engine_of_the_settings() {
    let mut settings = Settings::default();
    assert_eq!(PeCaStAdapter::for_settings(&settings).port(), 7144);
    settings.general_settings.peer_cast_port = 8144;
    settings.general_settings.peer_cast_rtmp_port = 1936;
    settings.general_settings.rtmp_listen_port = 1937;
    let adapter = PeCaStAdapter::for_settings(&settings);
    assert_eq!(adapter.port(), 8144);
    assert_eq!(adapter.url(), "http://localhost:8144/api/1/");
}
