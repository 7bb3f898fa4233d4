//! The engine's control plane: what is asked of it, and how its answers are
//! read.
use crate::failure::{Failure, Problem};
use crate::json::Json;
use crate::settings::Settings;
use crate::text::{decimal, decimal_string};
use crate::view_xml::ViewXml;
use vstd::prelude::*;
use vstd::string::StringExecFns;

verus! {

/// What is announced of a channel.
#[derive(Clone, Debug, PartialEq, Eq)]
pub struct Info {
    pub name: String,
    pub url: String,
    /// The bitrate, where it is announced; never 0.
    pub bitrate: Option<u32>,
    pub mime_type: String,
    pub genre: String,
    pub desc: String,
    pub comment: String,
}

/// What is announced of the track that a channel plays.
#[derive(Clone, Debug, PartialEq, Eq)]
pub struct Track {
    pub name: String,
    pub creator: String,
    pub genre: String,
    pub album: String,
    pub url: String,
}

impl Track {
    /// Whether every text of the track is empty.
    pub open spec fn blank(self) -> bool {
        &&& self.name@.len() == 0
        &&& self.creator@.len() == 0
        &&& self.genre@.len() == 0
        &&& self.album@.len() == 0
        &&& self.url@.len() == 0
    }

    /// The track of which nothing is said.
    pub fn empty() -> (track: Track)
        ensures
            track.blank(),
    {
        Track {
            name: String::new(),
            creator: String::new(),
            genre: String::new(),
            album: String::new(),
            url: String::new(),
        }
    }
}

/// Whether `value` is the text `text`.
pub open spec fn is_text(value: Json, text: Seq<char>) -> bool {
    value matches Json::Text(t) && t@ == text
}

/// Whether `value` is the integer `n`.
pub open spec fn is_integer(value: Json, n: int) -> bool {
    value matches Json::Int(k) && k == n
}

/// Whether `value` is the integer `n`, or null where there is none.
pub open spec fn is_optional_integer(value: Json, n: Option<int>) -> bool {
    match n {
        Some(k) => is_integer(value, k),
        None => value is Null,
    }
}

/// Whether field `i` of `fields` is called `name` and holds the text `text`.
pub open spec fn text_field(fields: Seq<(String, Json)>, i: int, name: Seq<char>, text: Seq<char>) -> bool {
    0 <= i < fields.len() && fields[i].0@ == name && is_text(fields[i].1, text)
}

/// Whether `value` is `info` as the engine reads it: an object of seven
/// fields in this order.
pub open spec fn is_info(value: Json, info: Info) -> bool {
    &&& value matches Json::Object(fields)
    &&& fields@.len() == 7
    &&& text_field(fields@, 0, "name"@, info.name@)
    &&& text_field(fields@, 1, "url"@, info.url@)
    &&& fields@[2].0@ == "bitrate"@
    &&& is_optional_integer(
        fields@[2].1,
        match info.bitrate {
            Some(rate) => Some(rate as int),
            None => None,
        },
    )
    &&& text_field(fields@, 3, "mimeType"@, info.mime_type@)
    &&& text_field(fields@, 4, "genre"@, info.genre@)
    &&& text_field(fields@, 5, "desc"@, info.desc@)
    &&& text_field(fields@, 6, "comment"@, info.comment@)
}

/// Whether `value` is `track` as the engine reads it: an object of five
/// fields in this order.
pub open spec fn is_track(value: Json, track: Track) -> bool {
    &&& value matches Json::Object(fields)
    &&& fields@.len() == 5
    &&& text_field(fields@, 0, "name"@, track.name@)
    &&& text_field(fields@, 1, "creator"@, track.creator@)
    &&& text_field(fields@, 2, "genre"@, track.genre@)
    &&& text_field(fields@, 3, "album"@, track.album@)
    &&& text_field(fields@, 4, "url"@, track.url@)
}

fn text_entry(name: &str, text: &str) -> (entry: (String, Json))
    ensures
        entry.0@ == name@,
        is_text(entry.1, text@),
{
    (String::from_str(name), Json::Text(String::from_str(text)))
}

impl Info {
    /// The info as the engine reads it.
    pub fn to_json(&self) -> (value: Json)
        ensures
            is_info(value, *self),
    {
        let bitrate = match self.bitrate {
            Some(rate) => Json::Int(rate as i64),
            None => Json::Null,
        };
        let fields = vec![
            text_entry("name", self.name.as_str()),
            text_entry("url", self.url.as_str()),
            (String::from_str("bitrate"), bitrate),
            text_entry("mimeType", self.mime_type.as_str()),
            text_entry("genre", self.genre.as_str()),
            text_entry("desc", self.desc.as_str()),
            text_entry("comment", self.comment.as_str()),
        ];
        Json::Object(fields)
    }
}

impl Track {
    /// The track as the engine reads it.
    pub fn to_json(&self) -> (value: Json)
        ensures
            is_track(value, *self),
    {
        let fields = vec![
            text_entry("name", self.name.as_str()),
            text_entry("creator", self.creator.as_str()),
            text_entry("genre", self.genre.as_str()),
            text_entry("album", self.album.as_str()),
            text_entry("url", self.url.as_str()),
        ];
        Json::Object(fields)
    }
}

/// One call of the control plane.
#[derive(Clone, Debug, PartialEq, Eq)]
pub enum Command {
    GetVersionInfo,
    GetYellowPages,
    AddYellowPage { protocol: String, name: String, announce_uri: String },
    CheckPorts,
    GetExternalIpAddresses,
    BroadcastChannel {
        yellow_page_id: Option<i32>,
        source_uri: String,
        source_stream: String,
        content_reader: String,
        info: Info,
        track: Track,
        network_type: String,
    },
    SetChannelInfo { channel_id: String, info: Info, track: Track },
    StopChannel { channel_id: String },
}

impl Command {
    /// The name under which the engine knows the call.
    pub open spec fn method(self) -> Seq<char> {
        match self {
            Command::GetVersionInfo => "getVersionInfo"@,
            Command::GetYellowPages => "getYellowPages"@,
            Command::AddYellowPage { .. } => "addYellowPage"@,
            Command::CheckPorts => "checkPorts"@,
            Command::GetExternalIpAddresses => "getExternalIPAddresses"@,
            Command::BroadcastChannel { .. } => "broadcastChannel"@,
            Command::SetChannelInfo { .. } => "setChannelInfo"@,
            Command::StopChannel { .. } => "stopChannel"@,
        }
    }

    /// Whether the call has parameters.
    pub open spec fn has_params(self) -> bool {
        match self {
            Command::AddYellowPage { .. } => true,
            Command::BroadcastChannel { .. } => true,
            Command::SetChannelInfo { .. } => true,
            Command::StopChannel { .. } => true,
            _ => false,
        }
    }

    /// Whether `value` holds the parameters of the call as the engine reads
    /// them: an object of exactly these fields in this order.
    pub open spec fn is_params(self, value: Json) -> bool {
        match self {
            Command::AddYellowPage { protocol, name, announce_uri } => {
                &&& value matches Json::Object(fields)
                &&& fields@.len() == 3
                &&& text_field(fields@, 0, "protocol"@, protocol@)
                &&& text_field(fields@, 1, "name"@, name@)
                &&& text_field(fields@, 2, "announceUri"@, announce_uri@)
            },
            Command::BroadcastChannel {
                yellow_page_id,
                source_uri,
                source_stream,
                content_reader,
                info,
                track,
                network_type,
            } => {
                &&& value matches Json::Object(fields)
                &&& fields@.len() == 7
                &&& fields@[0].0@ == "yellowPageId"@
                &&& is_optional_integer(
                    fields@[0].1,
                    match yellow_page_id {
                        Some(id) => Some(id as int),
                        None => None,
                    },
                )
                &&& text_field(fields@, 1, "sourceUri"@, source_uri@)
                &&& text_field(fields@, 2, "sourceStream"@, source_stream@)
                &&& text_field(fields@, 3, "contentReader"@, content_reader@)
                &&& fields@[4].0@ == "info"@
                &&& is_info(fields@[4].1, info)
                &&& fields@[5].0@ == "track"@
                &&& is_track(fields@[5].1, track)
                &&& text_field(fields@, 6, "networkType"@, network_type@)
            },
            Command::SetChannelInfo { channel_id, info, track } => {
                &&& value matches Json::Object(fields)
                &&& fields@.len() == 3
                &&& text_field(fields@, 0, "channelId"@, channel_id@)
                &&& fields@[1].0@ == "info"@
                &&& is_info(fields@[1].1, info)
                &&& fields@[2].0@ == "track"@
                &&& is_track(fields@[2].1, track)
            },
            Command::StopChannel { channel_id } => {
                &&& value matches Json::Object(fields)
                &&& fields@.len() == 1
                &&& text_field(fields@, 0, "channelId"@, channel_id@)
            },
            _ => false,
        }
    }

    /// Whether `body` is the request of the call: a JSON-RPC 2.0 request
    /// with id 0, the call's name, and its parameters where it has any.
    pub open spec fn is_body(self, body: Json) -> bool {
        &&& body matches Json::Object(fields)
        &&& fields@.len() == (if self.has_params() {
            4int
        } else {
            3int
        })
        &&& text_field(fields@, 0, "jsonrpc"@, "2.0"@)
        &&& fields@[1].0@ == "id"@
        &&& is_integer(fields@[1].1, 0)
        &&& text_field(fields@, 2, "method"@, self.method())
        &&& self.has_params() ==> fields@[3].0@ == "params"@ && self.is_params(fields@[3].1)
    }

    /// The name under which the engine knows the call.
    pub fn method_name(&self) -> (name: &'static str)
        ensures
            name@ == self.method(),
    {
        match self {
            Command::GetVersionInfo => "getVersionInfo",
            Command::GetYellowPages => "getYellowPages",
            Command::AddYellowPage { .. } => "addYellowPage",
            Command::CheckPorts => "checkPorts",
            Command::GetExternalIpAddresses => "getExternalIPAddresses",
            Command::BroadcastChannel { .. } => "broadcastChannel",
            Command::SetChannelInfo { .. } => "setChannelInfo",
            Command::StopChannel { .. } => "stopChannel",
        }
    }

    /// The parameters of the call as the engine reads them, where it has
    /// any.
    pub fn params(&self) -> (params: Option<Json>)
        ensures
            params.is_some() == self.has_params(),
            params matches Some(value) ==> self.is_params(value),
    {
        match self {
            Command::AddYellowPage { protocol, name, announce_uri } => {
                let fields = vec![
                    text_entry("protocol", protocol.as_str()),
                    text_entry("name", name.as_str()),
                    text_entry("announceUri", announce_uri.as_str()),
                ];
                Some(Json::Object(fields))
            },
            Command::BroadcastChannel {
                yellow_page_id,
                source_uri,
                source_stream,
                content_reader,
                info,
                track,
                network_type,
            } => {
                let id = match yellow_page_id {
                    Some(id) => Json::Int(*id as i64),
                    None => Json::Null,
                };
                let fields = vec![
                    (String::from_str("yellowPageId"), id),
                    text_entry("sourceUri", source_uri.as_str()),
                    text_entry("sourceStream", source_stream.as_str()),
                    text_entry("contentReader", content_reader.as_str()),
                    (String::from_str("info"), info.to_json()),
                    (String::from_str("track"), track.to_json()),
                    text_entry("networkType", network_type.as_str()),
                ];
                Some(Json::Object(fields))
            },
            Command::SetChannelInfo { channel_id, info, track } => {
                let fields = vec![
                    text_entry("channelId", channel_id.as_str()),
                    (String::from_str("info"), info.to_json()),
                    (String::from_str("track"), track.to_json()),
                ];
                Some(Json::Object(fields))
            },
            Command::StopChannel { channel_id } => {
                let fields = vec![text_entry("channelId", channel_id.as_str())];
                Some(Json::Object(fields))
            },
            _ => None,
        }
    }

    /// The request of the call.
    pub fn body(&self) -> (body: Json)
        ensures
            self.is_body(body),
    {
        let mut fields = vec![
            text_entry("jsonrpc", "2.0"),
            (String::from_str("id"), Json::Int(0)),
            text_entry("method", self.method_name()),
        ];
        match self.params() {
            Some(params) => {
                fields.push((String::from_str("params"), params));
            },
            None => {},
        }
        Json::Object(fields)
    }
}

/// A request as it goes to the engine: sent by POST to `url`, with the
/// header that `header` names, and `body` as its JSON content.
#[derive(Debug)]
pub struct Rpc {
    pub url: String,
    pub header: (&'static str, &'static str),
    pub body: Json,
}

/// The address of the control plane of the engine at `port`.
pub open spec fn api_url(port: u16) -> Seq<char> {
    "http://localhost:"@ + decimal(port as nat) + "/api/1/"@
}

/// The address of the status document of the engine at `port`.
pub open spec fn status_url(port: u16) -> Seq<char> {
    "http://localhost:"@ + decimal(port as nat) + "/admin?cmd=viewxml"@
}

/// The control plane of the engine at one port. It keeps no state: every
/// call is one request and its answer.
#[derive(Clone, Copy, Debug)]
pub struct PeCaStAdapter {
    port: u16,
}

impl PeCaStAdapter {
    /// The adapter for the engine at `port`.
    pub fn new(port: u16) -> (adapter: Self)
        ensures
            adapter.port_number() == port,
    {
        Self { port }
    }

    /// The adapter for the engine that `settings` name: every call of the
    /// control plane, and the status document, go to the engine's port of
    /// the general settings.
    pub fn for_settings(settings: &Settings) -> (adapter: Self)
        ensures
            adapter.port_number() == settings.general_settings.peer_cast_port,
    {
        Self::new(settings.general_settings.peer_cast_port)
    }

    /// The engine's port.
    pub closed spec fn port_number(self) -> u16 {
        self.port
    }

    /// The engine's port.
    pub fn port(&self) -> (port: u16)
        ensures
            port == self.port_number(),
    {
        self.port
    }

    /// The address that requests are posted to.
    pub fn url(&self) -> (url: String)
        ensures
            url@ == api_url(self.port_number()),
    {
        let mut url = String::from_str("http://localhost:");
        let port = decimal_string(self.port as u64);
        url.append(port.as_str());
        url.append("/api/1/");
        url
    }

    /// The address that the status document is read from.
    pub fn view_xml_url(&self) -> (url: String)
        ensures
            url@ == status_url(self.port_number()),
    {
        let mut url = String::from_str("http://localhost:");
        let port = decimal_string(self.port as u64);
        url.append(port.as_str());
        url.append("/admin?cmd=viewxml");
        url
    }

    /// The request that makes `command` of the engine.
    pub fn request(&self, command: &Command) -> (rpc: Rpc)
        ensures
            rpc.url@ == api_url(self.port_number()),
            rpc.header.0@ == "X-Requested-With"@,
            rpc.header.1@ == "XMLHttpRequest"@,
            command.is_body(rpc.body),
    {
        Rpc { url: self.url(), header: ("X-Requested-With", "XMLHttpRequest"), body: command.body() }
    }
}

/// What came back for one request.
#[derive(Debug)]
pub enum Response {
    /// The request could not be sent or no answer came; the text says why.
    Unreachable(String),
    /// An answer came that is no JSON.
    Undecodable,
    /// The JSON that the engine answered with.
    Payload(Json),
}

/// The text of every failure that says no more than that the engine's
/// answer could not be made sense of.
pub open spec fn communication_text() -> Seq<char> {
    "Failure communicating with PeerCastStation."@
}

/// The failure that says that the engine's answer could not be made sense
/// of.
pub open spec fn communication_problem() -> Problem {
    Problem::Fatal(communication_text())
}

/// The failure that says that the engine's answer could not be made sense
/// of.
pub fn communication_failure() -> (failure: Failure)
    ensures
        failure@ == communication_problem(),
{
    Failure::fatal("Failure communicating with PeerCastStation.")
}

/// What a JSON-RPC answer means: the result of the call, or why there is
/// none. A failed transport is fatal and keeps the transport's text. An
/// answer that is no JSON object is fatal. An object with a field `error`
/// is the engine's refusal: an `Error` with the text of `error.message`,
/// and fatal where there is no such text. Otherwise the field `result` is
/// the result, and its absence is fatal.
pub open spec fn rpc_result(response: Response) -> Result<Json, Problem> {
    match response {
        Response::Unreachable(why) => Err(Problem::Fatal(why@)),
        Response::Undecodable => Err(communication_problem()),
        Response::Payload(payload) => {
            if !payload.is_obj() {
                Err(communication_problem())
            } else if payload.has("error"@) {
                let error = payload.field("error"@);
                if error.has("message"@) && error.field("message"@).text() is Some {
                    Err(Problem::Error(error.field("message"@).text()->Some_0))
                } else {
                    Err(communication_problem())
                }
            } else if payload.has("result"@) {
                Ok(payload.field("result"@))
            } else {
                Err(communication_problem())
            }
        },
    }
}

/// Reads a JSON-RPC answer: the result of the call, or the failure that
/// the answer stands for.
pub fn request_rpc<'a>(response: &'a Response) -> (result: Result<&'a Json, Failure>)
    ensures
        match result {
            Ok(value) => rpc_result(*response) == Ok::<Json, Problem>(*value),
            Err(failure) => rpc_result(*response) == Err::<Json, Problem>(failure@),
        },
{
    match response {
        Response::Unreachable(why) => Err(Failure::fatal(why.as_str())),
        Response::Undecodable => Err(communication_failure()),
        Response::Payload(payload) => {
            if !payload.is_object() {
                return Err(communication_failure());
            }
            match payload.get("error") {
                Some(error) => {
                    let message = match error.get("message") {
                        Some(message) => message.as_str(),
                        None => None,
                    };
                    match message {
                        Some(text) => Err(Failure::error(text)),
                        None => Err(communication_failure()),
                    }
                },
                None => match payload.get("result") {
                    Some(value) => Ok(value),
                    None => Err(communication_failure()),
                },
            }
        },
    }
}

/// The version text in the result of `getVersionInfo`: the text of the
/// field `agentName`.
pub open spec fn version_info_of(result: Json) -> Result<Seq<char>, Problem> {
    if result.has("agentName"@) && result.field("agentName"@).text() is Some {
        Ok(result.field("agentName"@).text()->Some_0)
    } else {
        Err(communication_problem())
    }
}

/// One entry of the result of `getYellowPages`: the id, cut to 32 bits,
/// and the address of a directory.
pub open spec fn yellow_page_of(item: Json) -> Option<(i32, Seq<char>)> {
    if item.has("yellowPageId"@) && item.field("yellowPageId"@).integer() is Some && item.has(
        "uri"@,
    ) && item.field("uri"@).text() is Some {
        Some(
            (
                item.field("yellowPageId"@).integer()->Some_0 as i32,
                item.field("uri"@).text()->Some_0,
            ),
        )
    } else {
        None
    }
}

/// The directories in the result of `getYellowPages`: every item of the
/// array, in order. One item that is no entry spoils the whole answer.
pub open spec fn yellow_pages_of(result: Json) -> Result<Seq<(i32, Seq<char>)>, Problem> {
    match result.items() {
        Some(items) => {
            if forall|i: int| 0 <= i < items.len() ==> (#[trigger] yellow_page_of(items[i])) is Some {
                Ok(Seq::new(items.len(), |i: int| yellow_page_of(items[i])->Some_0))
            } else {
                Err(communication_problem())
            }
        },
        None => Err(communication_problem()),
    }
}

/// The id in the result of `addYellowPage`, cut to 32 bits.
pub open spec fn yellow_page_id_of(result: Json) -> Result<i32, Problem> {
    if result.has("yellowPageId"@) && result.field("yellowPageId"@).integer() is Some {
        Ok(result.field("yellowPageId"@).integer()->Some_0 as i32)
    } else {
        Err(communication_problem())
    }
}

/// The result of a self-check is an array; what it holds is not read.
pub open spec fn checked_of(result: Json) -> Result<(), Problem> {
    if result.items() is Some {
        Ok(())
    } else {
        Err(communication_problem())
    }
}

/// The channel id in the result of `broadcastChannel`: the result is the
/// id's text.
pub open spec fn channel_id_of(result: Json) -> Result<Seq<char>, Problem> {
    match result.text() {
        Some(id) => Ok(id),
        None => Err(communication_problem()),
    }
}

/// What an answer means to a call whose result is read by `read`.
pub open spec fn answer<T>(response: Response, read: spec_fn(Json) -> Result<T, Problem>) -> Result<
    T,
    Problem,
> {
    match rpc_result(response) {
        Ok(result) => read(result),
        Err(problem) => Err(problem),
    }
}

/// The directories of a list as contracts speak of them.
pub open spec fn pages(list: Seq<(i32, String)>) -> Seq<(i32, Seq<char>)> {
    Seq::new(list.len(), |i: int| (list[i].0, list[i].1@))
}

fn read_yellow_page(item: &Json) -> (page: Option<(i32, String)>)
    ensures
        match page {
            Some(entry) => yellow_page_of(*item) == Some((entry.0, entry.1@)),
            None => yellow_page_of(*item).is_none(),
        },
{
    let id = match item.get("yellowPageId") {
        Some(value) => match value.as_i64() {
            Some(id) => id,
            None => { return None; },
        },
        None => { return None; },
    };
    let uri = match item.get("uri") {
        Some(value) => match value.as_str() {
            Some(uri) => uri,
            None => { return None; },
        },
        None => { return None; },
    };
    Some((#[verifier::truncate] (id as i32), String::from_str(uri)))
}

impl PeCaStAdapter {
    /// Reads the answer to `getVersionInfo`: the engine's version text.
    pub fn get_version_info(response: &Response) -> (version: Result<String, Failure>)
        ensures
            match version {
                Ok(text) => answer(*response, |r: Json| version_info_of(r)) == Ok::<Seq<char>, Problem>(text@),
                Err(failure) => answer(*response, |r: Json| version_info_of(r)) == Err::<Seq<char>, Problem>(failure@),
            },
    {
        let result = match request_rpc(response) {
            Ok(result) => result,
            Err(failure) => { return Err(failure); },
        };
        let agent_name = match result.get("agentName") {
            Some(value) => value.as_str(),
            None => None,
        };
        match agent_name {
            Some(text) => Ok(String::from_str(text)),
            None => Err(communication_failure()),
        }
    }

    /// Reads the answer to `getYellowPages`: the id and the address of each
    /// directory that the engine knows, in the engine's order.
    #[verifier::loop_isolation(false)]
    pub fn get_yellow_pages(response: &Response) -> (list: Result<
        Vec<(i32, String)>,
        Failure,
    >)
        ensures
            match list {
                Ok(entries) => answer(*response, |r: Json| yellow_pages_of(r)) == Ok::<Seq<(i32, Seq<char>)>, Problem>(pages(entries@)),
                Err(failure) => answer(*response, |r: Json| yellow_pages_of(r)) == Err::<Seq<(i32, Seq<char>)>, Problem>(failure@),
            },
    {
        let result = match request_rpc(response) {
            Ok(result) => result,
            Err(failure) => { return Err(failure); },
        };
        let items = match result.as_array() {
            Some(items) => items,
            None => { return Err(communication_failure()); },
        };
        let mut entries: Vec<(i32, String)> = Vec::new();
        let mut i: usize = 0;
        while i < items.len()
            invariant
                i <= items@.len(),
                entries@.len() == i,
                forall|k: int| 0 <= k < i ==> (#[trigger] yellow_page_of(items@[k])) is Some,
                forall|k: int|
                    0 <= k < i ==> yellow_page_of(items@[k])->Some_0 == (
                        (#[trigger] entries@[k]).0,
                        entries@[k].1@,
                    ),
            decreases items@.len() - i,
        {
            match read_yellow_page(&items[i]) {
                Some(entry) => entries.push(entry),
                None => {
                    assert(yellow_page_of(items@[i as int]).is_none());
                    return Err(communication_failure());
                },
            }
            i += 1;
        }
        assert(pages(entries@) =~= Seq::new(
            items@.len(),
            |i: int| yellow_page_of(items@[i])->Some_0,
        ));
        Ok(entries)
    }

    /// Reads the answer to `addYellowPage`: the id of the new directory.
    pub fn add_yellow_page(response: &Response) -> (id: Result<i32, Failure>)
        ensures
            match id {
                Ok(n) => answer(*response, |r: Json| yellow_page_id_of(r)) == Ok::<i32, Problem>(n),
                Err(failure) => answer(*response, |r: Json| yellow_page_id_of(r)) == Err::<i32, Problem>(failure@),
            },
    {
        let result = match request_rpc(response) {
            Ok(result) => result,
            Err(failure) => { return Err(failure); },
        };
        let id = match result.get("yellowPageId") {
            Some(value) => value.as_i64(),
            None => None,
        };
        match id {
            Some(n) => Ok(#[verifier::truncate] (n as i32)),
            None => Err(communication_failure()),
        }
    }

    /// Reads the answer to `checkPorts`. Nothing of the result is used.
    pub fn check_ports(response: &Response) -> (done: Result<(), Failure>)
        ensures
            match done {
                Ok(_) => answer(*response, |r: Json| checked_of(r)) == Ok::<(), Problem>(()),
                Err(failure) => answer(*response, |r: Json| checked_of(r)) == Err::<(), Problem>(failure@),
            },
    {
        let result = match request_rpc(response) {
            Ok(result) => result,
            Err(failure) => { return Err(failure); },
        };
        match result.as_array() {
            Some(_) => Ok(()),
            None => Err(communication_failure()),
        }
    }

    /// Reads the answer to `getExternalIPAddresses`. Nothing of the result
    /// is used.
    pub fn get_external_ip_addresses(response: &Response) -> (done: Result<(), Failure>)
        ensures
            match done {
                Ok(_) => answer(*response, |r: Json| checked_of(r)) == Ok::<(), Problem>(()),
                Err(failure) => answer(*response, |r: Json| checked_of(r)) == Err::<(), Problem>(failure@),
            },
    {
        let result = match request_rpc(response) {
            Ok(result) => result,
            Err(failure) => { return Err(failure); },
        };
        match result.as_array() {
            Some(_) => Ok(()),
            None => Err(communication_failure()),
        }
    }

    /// Reads the answer to `broadcastChannel`: the id of the new channel.
    pub fn broadcast_channel(response: &Response) -> (channel_id: Result<String, Failure>)
        ensures
            match channel_id {
                Ok(id) => answer(*response, |r: Json| channel_id_of(r)) == Ok::<Seq<char>, Problem>(id@),
                Err(failure) => answer(*response, |r: Json| channel_id_of(r)) == Err::<Seq<char>, Problem>(failure@),
            },
    {
        let result = match request_rpc(response) {
            Ok(result) => result,
            Err(failure) => { return Err(failure); },
        };
        match result.as_str() {
            Some(id) => Ok(String::from_str(id)),
            None => Err(communication_failure()),
        }
    }

    /// Reads the answer to `setChannelInfo`: any result will do.
    pub fn set_channel_info(response: &Response) -> (done: Result<(), Failure>)
        ensures
            match done {
                Ok(_) => rpc_result(*response) is Ok,
                Err(failure) => rpc_result(*response) == Err::<Json, Problem>(failure@),
            },
    {
        match request_rpc(response) {
            Ok(_) => Ok(()),
            Err(failure) => Err(failure),
        }
    }

    /// Reads the answer to `stopChannel`: any result will do. Where the
    /// engine does not know the channel, it says so with an `Error`.
    pub fn stop_channel(response: &Response) -> (done: Result<(), Failure>)
        ensures
            match done {
                Ok(_) => rpc_result(*response) is Ok,
                Err(failure) => rpc_result(*response) == Err::<Json, Problem>(failure@),
            },
    {
        match request_rpc(response) {
            Ok(_) => Ok(()),
            Err(failure) => Err(failure),
        }
    }
}

impl PeCaStAdapter {
    /// Reads the answer of the status endpoint. `document` is the status
    /// document where one was fetched; where none was, the failure is
    /// fatal.
    pub fn view_xml(document: Option<ViewXml>) -> (status: Result<ViewXml, Failure>)
        ensures
            match status {
                Ok(read) => document == Some(read),
                Err(failure) => document.is_none() && failure@ == communication_problem(),
            },
    {
        match document {
            Some(read) => Ok(read),
            None => Err(communication_failure()),
        }
    }
}

} // verus!
