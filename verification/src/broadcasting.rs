//! The sessions of the two stacks, and the procedures that start, update
//! and stop them.
//!
//! Nothing here talks to the engine. A procedure hands out the calls that
//! are to be made and takes their answers in; the stacks of one step may be
//! served at the same time. A call that was asked for and got no answer
//! counts as a failed communication, unless another call of the same step
//! failed in earnest: then that failure is the one reported.
use crate::channel_utils::{
    find_id, info, ipv6_channel_name, listed_id, loopback, loopback_uri, rtmp_source,
    rtmp_source_uri, spec_ipv6_channel_name,
};
use crate::failure::{Failure, Problem};
use crate::json::Json;
use crate::pecast_adapter::{
    answer, channel_id_of, checked_of, communication_failure, communication_problem, request_rpc,
    rpc_result, version_info_of, yellow_page_id_of, yellow_pages_of, Command, Info, PeCaStAdapter,
    Response, Track,
};
use crate::settings::{ChannelSettings, EachYellowPagesSettings, Settings};
use crate::text::str_eq;
use crate::version::{invalid_agent_name, second_piece, version_parses, EngineVersion};
use crate::yp_config::{config_of, find_config, has_config, YPConfig};
use vstd::prelude::*;
use vstd::string::StringExecFns;

verus! {

/// The calls of one step: one that concerns no single stack, and one for
/// each stack. Where both stacks have one, the two may be made at the same
/// time.
#[derive(Debug)]
pub struct Calls {
    pub common: Option<Command>,
    pub ipv4: Option<Command>,
    pub ipv6: Option<Command>,
}

/// The answers to the calls of one step, each in the place of its call.
/// `None` stands where no call was made or no answer was awaited.
#[derive(Debug)]
pub struct Replies {
    pub common: Option<Response>,
    pub ipv4: Option<Response>,
    pub ipv6: Option<Response>,
}

/// How one call of a step went, as contracts speak of it.
pub enum Outcome {
    /// The call was not asked for.
    Skipped,
    Passed,
    Failed(Problem),
    /// The call was asked for and no answer was handed in.
    Lost,
}

/// The result of a step of two calls: the first failure in earnest, else a
/// failed communication where an answer is missing, else success.
pub open spec fn settle(first: Outcome, second: Outcome) -> Result<(), Problem> {
    if first is Failed {
        Err(first->Failed_0)
    } else if second is Failed {
        Err(second->Failed_0)
    } else if first is Lost || second is Lost {
        Err(communication_problem())
    } else {
        Ok(())
    }
}

/// How a call went whose answer only has to hold a result.
pub open spec fn plain_outcome(asked: bool, reply: Option<Response>) -> Outcome {
    if !asked {
        Outcome::Skipped
    } else {
        match reply {
            None => Outcome::Lost,
            Some(response) => match rpc_result(response) {
                Ok(_) => Outcome::Passed,
                Err(problem) => Outcome::Failed(problem),
            },
        }
    }
}

/// The text with which the engine says that it does not know a channel.
pub open spec fn not_found_text() -> Seq<char> {
    "Channel not found"@
}

/// How a call to stop a channel went where a channel that the engine does
/// not know counts as stopped.
pub open spec fn tolerant_outcome(asked: bool, reply: Option<Response>) -> Outcome {
    if plain_outcome(asked, reply) == Outcome::Failed(Problem::Error(not_found_text())) {
        Outcome::Passed
    } else {
        plain_outcome(asked, reply)
    }
}

/// How one call of a step went.
enum Verdict {
    Skipped,
    Passed,
    Failed(Failure),
    Lost,
}

impl View for Verdict {
    type V = Outcome;

    closed spec fn view(&self) -> Outcome {
        match *self {
            Verdict::Skipped => Outcome::Skipped,
            Verdict::Passed => Outcome::Passed,
            Verdict::Failed(failure) => Outcome::Failed(failure@),
            Verdict::Lost => Outcome::Lost,
        }
    }
}

fn verdict(asked: bool, reply: &Option<Response>) -> (verdict: Verdict)
    ensures
        verdict@ == plain_outcome(asked, *reply),
{
    if !asked {
        return Verdict::Skipped;
    }
    match reply {
        None => Verdict::Lost,
        Some(response) => match request_rpc(response) {
            Ok(_) => Verdict::Passed,
            Err(failure) => Verdict::Failed(failure),
        },
    }
}

fn tolerant_verdict(asked: bool, reply: &Option<Response>) -> (verdict: Verdict)
    ensures
        verdict@ == tolerant_outcome(asked, *reply),
{
    match verdict(asked, reply) {
        Verdict::Failed(Failure::Error(message)) => {
            if str_eq(message.as_str(), "Channel not found") {
                Verdict::Passed
            } else {
                Verdict::Failed(Failure::Error(message))
            }
        },
        other => other,
    }
}

fn settled(first: Verdict, second: Verdict) -> (result: Result<(), Failure>)
    ensures
        match result {
            Ok(_) => settle(first@, second@) == Ok::<(), Problem>(()),
            Err(failure) => settle(first@, second@) == Err::<(), Problem>(failure@),
        },
{
    let lost = matches!(first, Verdict::Lost) || matches!(second, Verdict::Lost);
    match first {
        Verdict::Failed(failure) => Err(failure),
        _ => match second {
            Verdict::Failed(failure) => Err(failure),
            _ => if lost {
                Err(communication_failure())
            } else {
                Ok(())
            },
        },
    }
}

/// The sessions as contracts speak of them: for each stack the id of its
/// live channel, or `None` while the stack is idle.
pub struct Sessions {
    pub ipv4: Option<Seq<char>>,
    pub ipv6: Option<Seq<char>>,
}

impl Sessions {
    /// What an update comes to: each live stack's call has to hold a
    /// result; the IPv6 stack's failure is reported before the IPv4 stack's.
    pub open spec fn update_result(self, replies: Replies) -> Result<(), Problem> {
        settle(
            plain_outcome(self.ipv6.is_some(), replies.ipv6),
            plain_outcome(self.ipv4.is_some(), replies.ipv4),
        )
    }

    /// How the stop of the IPv6 channel went: any failure counts.
    pub open spec fn ipv6_stop(self, replies: Replies) -> Outcome {
        plain_outcome(self.ipv6.is_some(), replies.ipv6)
    }

    /// How the stop of the IPv4 channel went: a channel that the engine
    /// does not know counts as stopped.
    pub open spec fn ipv4_stop(self, replies: Replies) -> Outcome {
        tolerant_outcome(self.ipv4.is_some(), replies.ipv4)
    }

    /// The sessions after a stop with these answers: a stack turns idle
    /// exactly where its stop passed.
    pub open spec fn stopped(self, replies: Replies) -> Sessions {
        Sessions {
            ipv4: if self.ipv4_stop(replies) is Passed {
                None
            } else {
                self.ipv4
            },
            ipv6: if self.ipv6_stop(replies) is Passed {
                None
            } else {
                self.ipv6
            },
        }
    }

    /// What a stop comes to: the IPv6 stack's failure is reported before the
    /// IPv4 stack's.
    pub open spec fn stop_result(self, replies: Replies) -> Result<(), Problem> {
        settle(self.ipv6_stop(replies), self.ipv4_stop(replies))
    }
}

/// The sessions of the two stacks. A stack is idle, or live with the id
/// that the engine gave its channel.
#[derive(Debug)]
pub struct Broadcasting {
    ipv4_id: Option<String>,
    ipv6_id: Option<String>,
}

/// The text of an id, where there is one.
pub open spec fn id_text(id: Option<String>) -> Option<Seq<char>> {
    match id {
        Some(text) => Some(text@),
        None => None,
    }
}

impl View for Broadcasting {
    type V = Sessions;

    closed spec fn view(&self) -> Sessions {
        Sessions { ipv4: id_text(self.ipv4_id), ipv6: id_text(self.ipv6_id) }
    }
}

/// Whether `info` announces a channel under `name` and `genre` with the
/// description, the current contact URL and the current comment of
/// `channel_settings`, as FLV and without a bitrate.
pub open spec fn announces(
    info: Info,
    name: Seq<char>,
    genre: Seq<char>,
    channel_settings: ChannelSettings,
) -> bool {
    &&& info.name@ == name
    &&& info.url@ == channel_settings.contact_url@[0]@
    &&& info.bitrate.is_none()
    &&& info.mime_type@ == "FLV"@
    &&& info.genre@ == genre
    &&& info.desc@ == channel_settings.desc@
    &&& info.comment@ == channel_settings.comment@[0]@
}

/// The genre of `settings` as the directory of `yp_settings` reads it.
pub open spec fn genre_for(
    yp_configs: Seq<YPConfig>,
    yp_settings: EachYellowPagesSettings,
    base_genre: Seq<char>,
) -> Seq<char> {
    config_of(yp_configs, yp_settings.host@).genre_text(base_genre, yp_settings)
}

/// Writes `base_genre` as the directory of `yp_settings` reads it.
pub fn genre(yp_configs: &[YPConfig], yp_settings: &EachYellowPagesSettings, base_genre: &str) -> (text:
    String)
    requires
        has_config(yp_configs@, yp_settings.host@),
    ensures
        text@ == genre_for(yp_configs@, *yp_settings, base_genre@),
{
    match find_config(yp_configs, yp_settings.host.as_str()) {
        Some(config) => config.genre_full_text(base_genre, yp_settings),
        None => String::new(),
    }
}

/// Whether `command` sends the channel with the id `channel_id` what
/// `settings` say of it, under `name` and `genre`, with an empty track.
pub open spec fn is_update_call(
    command: Command,
    channel_id: Seq<char>,
    name: Seq<char>,
    genre: Seq<char>,
    channel_settings: ChannelSettings,
) -> bool {
    &&& command matches Command::SetChannelInfo { channel_id: id, info, track }
    &&& id@ == channel_id
    &&& announces(info, name, genre, channel_settings)
    &&& track.blank()
}

/// Whether `command` stops the channel with the id `channel_id`.
pub open spec fn is_stop_call(command: Command, channel_id: Seq<char>) -> bool {
    command matches Command::StopChannel { channel_id: id } && id@ == channel_id
}

impl Broadcasting {
    /// Both stacks idle.
    pub fn new() -> (sessions: Self)
        ensures
            sessions@.ipv4.is_none(),
            sessions@.ipv6.is_none(),
    {
        Self { ipv4_id: None, ipv6_id: None }
    }

    /// The id of the IPv4 channel while that stack is live.
    pub fn ipv4_id(&self) -> (id: &Option<String>)
        ensures
            id_text(*id) == self@.ipv4,
    {
        &self.ipv4_id
    }

    /// The id of the IPv6 channel while that stack is live.
    pub fn ipv6_id(&self) -> (id: &Option<String>)
        ensures
            id_text(*id) == self@.ipv6,
    {
        &self.ipv6_id
    }

    /// Whether at least one stack is live.
    pub fn is_broadcasting(&self) -> (live: bool)
        ensures
            live == (self@.ipv4.is_some() || self@.ipv6.is_some()),
    {
        self.ipv4_id.is_some() || self.ipv6_id.is_some()
    }

    /// The calls that send each live channel its current name, genre and
    /// description. An idle stack gets no call. The IPv6 channel keeps its
    /// mark in the name exactly while the IPv4 stack is live too.
    pub fn update(&self, yp_configs: &[YPConfig], settings: &Settings) -> (calls: Calls)
        requires
            settings.wf(),
            self@.ipv4.is_some() ==> has_config(yp_configs@, settings.yellow_pages_settings.ipv4.host@),
            self@.ipv6.is_some() ==> has_config(yp_configs@, settings.yellow_pages_settings.ipv6.host@),
        ensures
            calls.common.is_none(),
            calls.ipv4.is_some() == self@.ipv4.is_some(),
            calls.ipv6.is_some() == self@.ipv6.is_some(),
            calls.ipv4 matches Some(command) ==> is_update_call(
                command,
                self@.ipv4->Some_0,
                settings.channel_name(),
                genre_for(
                    yp_configs@,
                    settings.yellow_pages_settings.ipv4,
                    settings.channel_settings.genre@,
                ),
                settings.channel_settings,
            ),
            calls.ipv6 matches Some(command) ==> is_update_call(
                command,
                self@.ipv6->Some_0,
                spec_ipv6_channel_name(settings.channel_name(), self@.ipv4.is_some()),
                genre_for(
                    yp_configs@,
                    settings.yellow_pages_settings.ipv6,
                    settings.channel_settings.genre@,
                ),
                settings.channel_settings,
            ),
    {
        let ipv4_channel_name = settings.general_settings.channel_name[0].as_str();
        let base_genre = settings.channel_settings.genre.as_str();
        let ipv6 = match &self.ipv6_id {
            Some(id) => {
                let name = ipv6_channel_name(ipv4_channel_name, &self.ipv4_id);
                let genre = genre(yp_configs, &settings.yellow_pages_settings.ipv6, base_genre);
                Some(
                    Command::SetChannelInfo {
                        channel_id: id.clone(),
                        info: info(name.as_str(), genre.as_str(), &settings.channel_settings),
                        track: Track::empty(),
                    },
                )
            },
            None => None,
        };
        let ipv4 = match &self.ipv4_id {
            Some(id) => {
                let genre = genre(yp_configs, &settings.yellow_pages_settings.ipv4, base_genre);
                Some(
                    Command::SetChannelInfo {
                        channel_id: id.clone(),
                        info: info(ipv4_channel_name, genre.as_str(), &settings.channel_settings),
                        track: Track::empty(),
                    },
                )
            },
            None => None,
        };
        Calls { common: None, ipv4, ipv6 }
    }

    /// What the update came to, from the answers to its calls. The sessions
    /// stay as they are.
    pub fn update_done(&self, replies: &Replies) -> (result: Result<(), Failure>)
        ensures
            match result {
                Ok(_) => self@.update_result(*replies) == Ok::<(), Problem>(()),
                Err(failure) => self@.update_result(*replies) == Err::<(), Problem>(failure@),
            },
    {
        let ipv6 = verdict(self.ipv6_id.is_some(), &replies.ipv6);
        let ipv4 = verdict(self.ipv4_id.is_some(), &replies.ipv4);
        settled(ipv6, ipv4)
    }

    /// The calls that stop each live channel. An idle stack gets no call.
    pub fn stop_calls(&self) -> (calls: Calls)
        ensures
            calls.common.is_none(),
            calls.ipv4.is_some() == self@.ipv4.is_some(),
            calls.ipv6.is_some() == self@.ipv6.is_some(),
            calls.ipv4 matches Some(command) ==> is_stop_call(command, self@.ipv4->Some_0),
            calls.ipv6 matches Some(command) ==> is_stop_call(command, self@.ipv6->Some_0),
    {
        let ipv6 = match &self.ipv6_id {
            Some(id) => Some(Command::StopChannel { channel_id: id.clone() }),
            None => None,
        };
        let ipv4 = match &self.ipv4_id {
            Some(id) => Some(Command::StopChannel { channel_id: id.clone() }),
            None => None,
        };
        Calls { common: None, ipv4, ipv6 }
    }

    /// Takes in the answers to the calls of `stop_calls`. A stack turns
    /// idle where its channel was stopped, and the IPv4 stack also where
    /// the engine no longer knew its channel. A stack whose stop failed or
    /// got no answer stays live.
    pub fn stop(&mut self, replies: &Replies) -> (result: Result<(), Failure>)
        ensures
            final(self)@ == old(self)@.stopped(*replies),
            match result {
                Ok(_) => old(self)@.stop_result(*replies) == Ok::<(), Problem>(()),
                Err(failure) => old(self)@.stop_result(*replies) == Err::<(), Problem>(failure@),
            },
    {
        let ipv6 = verdict(self.ipv6_id.is_some(), &replies.ipv6);
        let ipv4 = tolerant_verdict(self.ipv4_id.is_some(), &replies.ipv4);
        if matches!(ipv6, Verdict::Passed) {
            self.ipv6_id = None;
        }
        if matches!(ipv4, Verdict::Passed) {
            self.ipv4_id = None;
        }
        settled(ipv6, ipv4)
    }
}

/// Where the start of a broadcast stands: which answers it awaits.
#[derive(Clone, Copy, Debug, PartialEq, Eq, Structural)]
pub enum Stage {
    /// The list of the directories that the engine knows.
    Directories,
    /// The ids of the directories that had to be added.
    Registration,
    /// The self-check of the ports, before the IPv6 channel.
    Ipv6Ports,
    /// The self-check of the external addresses, before the IPv6 channel.
    Ipv6Addresses,
    /// The id of the IPv6 channel.
    Ipv6Channel,
    /// The self-check of the ports, before the IPv4 channel.
    Ipv4Ports,
    /// The self-check of the external addresses, before the IPv4 channel.
    Ipv4Addresses,
    /// The id of the IPv4 channel.
    Ipv4Channel,
    /// Nothing: the start has succeeded or failed.
    Finished,
}

/// The start of one broadcast: what was settled when it began, and what it
/// has learned since. A stack with an empty host is left out altogether.
#[derive(Debug)]
pub struct BroadcastRun {
    pub stage: Stage,
    /// The engine's RTMP port that the publisher is piped into.
    pub rtmp_conn_port: u16,
    pub channel_name: String,
    pub contact_url: String,
    pub desc: String,
    pub comment: String,
    pub ipv4_host: String,
    /// The genre as the IPv4 stack's directory reads it.
    pub ipv4_genre: String,
    /// The engine's id of the IPv4 stack's directory, once known.
    pub ipv4_yp_id: Option<i32>,
    pub ipv6_host: String,
    /// The genre as the IPv6 stack's directory reads it.
    pub ipv6_genre: String,
    /// The engine's id of the IPv6 stack's directory, once known.
    pub ipv6_yp_id: Option<i32>,
    /// The id of the IPv6 channel that this start has brought up.
    pub ipv6_channel: Option<String>,
}

/// What a step of the start of a broadcast asks for or ends with.
#[derive(Debug)]
pub enum Step {
    /// These calls are to be made, and their answers handed to the next
    /// step.
    Call(Calls),
    /// The start is over: the engine's RTMP port that the publisher is to be
    /// piped into, or why there is no broadcast.
    Finished(Result<u16, Failure>),
}

/// What a call that was asked for comes to, read by `read`.
pub open spec fn needed<T>(
    reply: Option<Response>,
    read: spec_fn(Json) -> Result<T, Problem>,
) -> Result<T, Problem> {
    match reply {
        Some(response) => answer(response, read),
        None => Err(communication_problem()),
    }
}

/// How the call that adds a directory went.
pub open spec fn added_outcome(asked: bool, reply: Option<Response>) -> Outcome {
    if !asked {
        Outcome::Skipped
    } else {
        match reply {
            None => Outcome::Lost,
            Some(response) => match answer(response, |r: Json| yellow_page_id_of(r)) {
                Ok(_) => Outcome::Passed,
                Err(problem) => Outcome::Failed(problem),
            },
        }
    }
}

/// The id that the call that adds a directory brought.
pub open spec fn added_id(reply: Option<Response>) -> i32 {
    answer(reply->Some_0, |r: Json| yellow_page_id_of(r))->Ok_0
}

/// Whether `step` ends the start with `problem`.
pub open spec fn fails_with(step: Step, problem: Problem) -> bool {
    step matches Step::Finished(Err(failure)) && failure@ == problem
}

/// Whether `step` ends the start with success and hands out `port`.
pub open spec fn succeeds_with(step: Step, port: u16) -> bool {
    step matches Step::Finished(Ok(p)) && p == port
}

/// Whether `step` asks for a single call, for the IPv6 stack.
pub open spec fn asks_ipv6(step: Step) -> bool {
    step matches Step::Call(calls) && calls.common.is_none() && calls.ipv4.is_none()
        && calls.ipv6.is_some()
}

/// Whether `step` asks for a single call, for the IPv4 stack.
pub open spec fn asks_ipv4(step: Step) -> bool {
    step matches Step::Call(calls) && calls.common.is_none() && calls.ipv6.is_none()
        && calls.ipv4.is_some()
}

/// The call that `step` asks for on behalf of the IPv6 stack.
pub open spec fn ipv6_call(step: Step) -> Command {
    step->Call_0.ipv6->Some_0
}

/// The call that `step` asks for on behalf of the IPv4 stack.
pub open spec fn ipv4_call(step: Step) -> Command {
    step->Call_0.ipv4->Some_0
}

/// Whether `command` adds the directory at `host`, by the protocol pcp,
/// under the name `host` and the address `pcp://<host>`.
pub open spec fn is_add_call(command: Command, host: Seq<char>) -> bool {
    &&& command matches Command::AddYellowPage { protocol, name, announce_uri }
    &&& protocol@ == "pcp"@
    &&& name@ == host
    &&& announce_uri@ == "pcp://"@ + host
}

/// The kind of content that every channel is started with.
pub open spec fn content_reader_text() -> Seq<char> {
    "ASF(WMV or WMA)"@
}

impl BroadcastRun {
    /// Whether the IPv4 stack takes part.
    pub open spec fn ipv4_configured(self) -> bool {
        self.ipv4_host@.len() > 0
    }

    /// Whether the IPv6 stack takes part.
    pub open spec fn ipv6_configured(self) -> bool {
        self.ipv6_host@.len() > 0
    }

    /// Whether the directory of every stack that takes part is known.
    pub open spec fn resolved(self) -> bool {
        &&& self.ipv4_configured() ==> self.ipv4_yp_id.is_some()
        &&& self.ipv6_configured() ==> self.ipv6_yp_id.is_some()
    }

    /// What every stage of a start holds to. A stack that takes no part has
    /// no directory. No directory is known before the list is read; every
    /// one is known once channels are started. The IPv6 stages are only
    /// entered where that stack takes part, and before its channel is up;
    /// the IPv4 stages are only entered once the IPv6 channel is up, where
    /// that stack takes part.
    pub open spec fn wf(self) -> bool {
        &&& self.rtmp_conn_port != 0
        &&& !self.ipv4_configured() ==> self.ipv4_yp_id.is_none()
        &&& !self.ipv6_configured() ==> self.ipv6_yp_id.is_none()
        &&& match self.stage {
            Stage::Directories => self.ipv4_yp_id.is_none() && self.ipv6_yp_id.is_none()
                && self.ipv6_channel.is_none(),
            Stage::Registration => !self.resolved() && self.ipv6_channel.is_none(),
            Stage::Ipv6Ports | Stage::Ipv6Addresses | Stage::Ipv6Channel => self.resolved()
                && self.ipv6_configured() && self.ipv6_channel.is_none(),
            Stage::Ipv4Ports | Stage::Ipv4Addresses | Stage::Ipv4Channel => self.resolved()
                && self.ipv4_configured() && (self.ipv6_configured()
                == self.ipv6_channel.is_some()),
            Stage::Finished => true,
        }
    }

    /// Whether `other` was begun with the same settings.
    pub open spec fn same_plan(self, other: BroadcastRun) -> bool {
        &&& self.rtmp_conn_port == other.rtmp_conn_port
        &&& self.channel_name@ == other.channel_name@
        &&& self.contact_url@ == other.contact_url@
        &&& self.desc@ == other.desc@
        &&& self.comment@ == other.comment@
        &&& self.ipv4_host@ == other.ipv4_host@
        &&& self.ipv4_genre@ == other.ipv4_genre@
        &&& self.ipv6_host@ == other.ipv6_host@
        &&& self.ipv6_genre@ == other.ipv6_genre@
    }

    /// Whether `info` announces a channel of this start under `name` and
    /// `genre`.
    pub open spec fn announces(self, info: Info, name: Seq<char>, genre: Seq<char>) -> bool {
        &&& info.name@ == name
        &&& info.url@ == self.contact_url@
        &&& info.bitrate.is_none()
        &&& info.mime_type@ == "FLV"@
        &&& info.genre@ == genre
        &&& info.desc@ == self.desc@
        &&& info.comment@ == self.comment@
    }

    /// Whether `command` starts the IPv6 channel: announced to the stack's
    /// directory, read from the publisher's stream at the engine's RTMP
    /// port, and named with the mark where the IPv4 stack takes part too.
    pub open spec fn is_ipv6_channel_call(self, command: Command) -> bool {
        &&& command matches Command::BroadcastChannel {
            yellow_page_id,
            source_uri,
            source_stream,
            content_reader,
            info,
            track,
            network_type,
        }
        &&& yellow_page_id == self.ipv6_yp_id
        &&& source_uri@ == rtmp_source_uri(self.rtmp_conn_port)
        &&& source_stream@ == "RTMP Source"@
        &&& content_reader@ == content_reader_text()
        &&& self.announces(
            info,
            spec_ipv6_channel_name(self.channel_name@, self.ipv4_yp_id.is_some()),
            self.ipv6_genre@,
        )
        &&& track.blank()
        &&& network_type@ == "ipv6"@
    }

    /// Whether `command` starts the IPv4 channel: announced to the stack's
    /// directory, and read from the IPv6 channel that this start has brought
    /// up, or, where there is none, from the publisher's stream at the
    /// engine's RTMP port.
    pub open spec fn is_ipv4_channel_call(self, command: Command) -> bool {
        &&& command matches Command::BroadcastChannel {
            yellow_page_id,
            source_uri,
            source_stream,
            content_reader,
            info,
            track,
            network_type,
        }
        &&& yellow_page_id == self.ipv4_yp_id
        &&& match self.ipv6_channel {
            Some(id) => source_uri@ == loopback_uri(id@) && source_stream@ == "他のチャンネル"@,
            None => source_uri@ == rtmp_source_uri(self.rtmp_conn_port) && source_stream@
                == "RTMP Source"@,
        }
        &&& content_reader@ == content_reader_text()
        &&& self.announces(info, self.channel_name@, self.ipv4_genre@)
        &&& track.blank()
        &&& network_type@ == "ipv4"@
    }

    /// Whether `step` is what follows once every directory is known: the
    /// first self-check of the IPv6 stack where it takes part, else that of
    /// the IPv4 stack where it takes part, else the end of the start.
    pub open spec fn starts_announcing(self, step: Step) -> bool {
        if self.ipv6_configured() {
            self.stage == Stage::Ipv6Ports && asks_ipv6(step) && ipv6_call(step) is CheckPorts
        } else {
            self.turns_to_ipv4(step)
        }
    }

    /// Whether `step` is what follows once the IPv6 stack is done with: the
    /// first self-check of the IPv4 stack where it takes part, else the end
    /// of the start.
    pub open spec fn turns_to_ipv4(self, step: Step) -> bool {
        if self.ipv4_configured() {
            self.stage == Stage::Ipv4Ports && asks_ipv4(step) && ipv4_call(step) is CheckPorts
        } else {
            self.stage == Stage::Finished && succeeds_with(step, self.rtmp_conn_port)
        }
    }

    /// Whether the start awaits no more answers.
    pub fn is_finished(&self) -> (yes: bool)
        ensures
            yes == (self.stage == Stage::Finished),
    {
        matches!(self.stage, Stage::Finished)
    }
}

impl BroadcastRun {
    /// Whether `after` knows the same directories and the same IPv6 channel.
    pub open spec fn same_findings(self, after: BroadcastRun) -> bool {
        &&& after.ipv4_yp_id == self.ipv4_yp_id
        &&& after.ipv6_yp_id == self.ipv6_yp_id
        &&& id_text(after.ipv6_channel) == id_text(self.ipv6_channel)
    }

    /// Whether a step on the list of directories leads from `self` to
    /// `after` and `step`. A directory that the engine lists is known by
    /// its id. Where every directory is known, the channels are turned to;
    /// else each missing directory is added, both at the same time.
    pub open spec fn reads_directories(self, replies: Replies, after: BroadcastRun, step: Step) -> bool {
        match needed(replies.common, |r: Json| yellow_pages_of(r)) {
            Err(problem) => after.stage == Stage::Finished && fails_with(step, problem),
            Ok(list) => {
                &&& after.ipv4_yp_id == (if self.ipv4_configured() {
                    listed_id(list, self.ipv4_host@)
                } else {
                    None
                })
                &&& after.ipv6_yp_id == (if self.ipv6_configured() {
                    listed_id(list, self.ipv6_host@)
                } else {
                    None
                })
                &&& after.ipv6_channel.is_none()
                &&& if after.resolved() {
                    after.starts_announcing(step)
                } else {
                    &&& after.stage == Stage::Registration
                    &&& step matches Step::Call(calls)
                    &&& calls.common.is_none()
                    &&& calls.ipv4.is_some() == (after.ipv4_configured()
                        && after.ipv4_yp_id.is_none())
                    &&& calls.ipv6.is_some() == (after.ipv6_configured()
                        && after.ipv6_yp_id.is_none())
                    &&& calls.ipv4 matches Some(command) ==> is_add_call(command, self.ipv4_host@)
                    &&& calls.ipv6 matches Some(command) ==> is_add_call(command, self.ipv6_host@)
                }
            },
        }
    }

    /// Whether the IPv4 stack's directory had to be added.
    pub open spec fn adds_ipv4(self) -> bool {
        self.ipv4_configured() && self.ipv4_yp_id.is_none()
    }

    /// Whether the IPv6 stack's directory had to be added.
    pub open spec fn adds_ipv6(self) -> bool {
        self.ipv6_configured() && self.ipv6_yp_id.is_none()
    }

    /// Whether a step on the ids of the added directories leads from `self`
    /// to `after` and `step`. The IPv4 stack's failure is reported before
    /// the IPv6 stack's.
    pub open spec fn reads_registration(self, replies: Replies, after: BroadcastRun, step: Step) -> bool {
        match settle(
            added_outcome(self.adds_ipv4(), replies.ipv4),
            added_outcome(self.adds_ipv6(), replies.ipv6),
        ) {
            Err(problem) => after.stage == Stage::Finished && fails_with(step, problem),
            Ok(_) => {
                &&& after.ipv4_yp_id == (if self.adds_ipv4() {
                    Some(added_id(replies.ipv4))
                } else {
                    self.ipv4_yp_id
                })
                &&& after.ipv6_yp_id == (if self.adds_ipv6() {
                    Some(added_id(replies.ipv6))
                } else {
                    self.ipv6_yp_id
                })
                &&& after.ipv6_channel.is_none()
                &&& after.starts_announcing(step)
            },
        }
    }

    /// Whether a step on a self-check leads from `self` to `after` and
    /// `step`: the next self-check, or the call that starts the channel.
    pub open spec fn reads_check(self, replies: Replies, after: BroadcastRun, step: Step) -> bool {
        let reply = if self.stage == Stage::Ipv6Ports || self.stage == Stage::Ipv6Addresses {
            replies.ipv6
        } else {
            replies.ipv4
        };
        match needed(reply, |r: Json| checked_of(r)) {
            Err(problem) => after.stage == Stage::Finished && fails_with(step, problem),
            Ok(_) => {
                &&& self.same_findings(after)
                &&& match self.stage {
                    Stage::Ipv6Ports => after.stage == Stage::Ipv6Addresses && asks_ipv6(step)
                        && ipv6_call(step) is GetExternalIpAddresses,
                    Stage::Ipv6Addresses => after.stage == Stage::Ipv6Channel && asks_ipv6(step)
                        && after.is_ipv6_channel_call(ipv6_call(step)),
                    Stage::Ipv4Ports => after.stage == Stage::Ipv4Addresses && asks_ipv4(step)
                        && ipv4_call(step) is GetExternalIpAddresses,
                    _ => after.stage == Stage::Ipv4Channel && asks_ipv4(step)
                        && after.is_ipv4_channel_call(ipv4_call(step)),
                }
            },
        }
    }

    /// Whether the engine's RTMP port has to be picked, because the settings
    /// name none.
    pub fn needs_free_port(settings: &Settings) -> (yes: bool)
        ensures
            yes == (settings.general_settings.peer_cast_rtmp_port == 0),
    {
        settings.general_settings.peer_cast_rtmp_port == 0
    }

    /// Begins the start of a broadcast: settles what is announced for each
    /// stack with a directory host, and asks for the list of the
    /// directories that the engine knows. The publisher will be piped into
    /// the RTMP port of the settings, or into `free_port` where the
    /// settings name none.
    pub fn begin(yp_configs: &[YPConfig], settings: &Settings, free_port: u16) -> (start: (
        BroadcastRun,
        Calls,
    ))
        requires
            settings.wf(),
            settings.general_settings.peer_cast_rtmp_port != 0 || free_port != 0,
            settings.yellow_pages_settings.ipv4.configured() ==> has_config(
                yp_configs@,
                settings.yellow_pages_settings.ipv4.host@,
            ),
            settings.yellow_pages_settings.ipv6.configured() ==> has_config(
                yp_configs@,
                settings.yellow_pages_settings.ipv6.host@,
            ),
        ensures
            start.0.wf(),
            start.0.stage == Stage::Directories,
            start.0.rtmp_conn_port == (if settings.general_settings.peer_cast_rtmp_port != 0 {
                settings.general_settings.peer_cast_rtmp_port
            } else {
                free_port
            }),
            start.0.channel_name@ == settings.channel_name(),
            start.0.contact_url@ == settings.channel_settings.contact_url@[0]@,
            start.0.desc@ == settings.channel_settings.desc@,
            start.0.comment@ == settings.channel_settings.comment@[0]@,
            start.0.ipv4_host@ == settings.yellow_pages_settings.ipv4.host@,
            start.0.ipv6_host@ == settings.yellow_pages_settings.ipv6.host@,
            start.0.ipv4_configured() ==> start.0.ipv4_genre@ == genre_for(
                yp_configs@,
                settings.yellow_pages_settings.ipv4,
                settings.channel_settings.genre@,
            ),
            start.0.ipv6_configured() ==> start.0.ipv6_genre@ == genre_for(
                yp_configs@,
                settings.yellow_pages_settings.ipv6,
                settings.channel_settings.genre@,
            ),
            start.1.common matches Some(command) && command is GetYellowPages,
            start.1.ipv4.is_none(),
            start.1.ipv6.is_none(),
    {
        let yp = &settings.yellow_pages_settings;
        let base_genre = settings.channel_settings.genre.as_str();
        let ipv4_genre = if yp.ipv4.is_configured() {
            genre(yp_configs, &yp.ipv4, base_genre)
        } else {
            String::new()
        };
        let ipv6_genre = if yp.ipv6.is_configured() {
            genre(yp_configs, &yp.ipv6, base_genre)
        } else {
            String::new()
        };
        let run = BroadcastRun {
            stage: Stage::Directories,
            rtmp_conn_port: if settings.general_settings.peer_cast_rtmp_port != 0 {
                settings.general_settings.peer_cast_rtmp_port
            } else {
                free_port
            },
            channel_name: settings.general_settings.channel_name[0].clone(),
            contact_url: settings.channel_settings.contact_url[0].clone(),
            desc: settings.channel_settings.desc.clone(),
            comment: settings.channel_settings.comment[0].clone(),
            ipv4_host: yp.ipv4.host.clone(),
            ipv4_genre,
            ipv4_yp_id: None,
            ipv6_host: yp.ipv6.host.clone(),
            ipv6_genre,
            ipv6_yp_id: None,
            ipv6_channel: None,
        };
        (run, Calls { common: Some(Command::GetYellowPages), ipv4: None, ipv6: None })
    }

    fn fail(&mut self, failure: Failure) -> (step: Step)
        ensures
            final(self).stage == Stage::Finished,
            final(self).same_plan(*old(self)),
            old(self).same_findings(*final(self)),
            fails_with(step, failure@),
    {
        self.stage = Stage::Finished;
        Step::Finished(Err(failure))
    }

    fn info_for(&self, name: &str, genre: &str) -> (info: Info)
        ensures
            self.announces(info, name@, genre@),
    {
        Info {
            name: String::from_str(name),
            url: self.contact_url.clone(),
            bitrate: None,
            mime_type: String::from_str("FLV"),
            genre: String::from_str(genre),
            desc: self.desc.clone(),
            comment: self.comment.clone(),
        }
    }

    fn ipv6_channel_command(&self) -> (command: Command)
        ensures
            self.is_ipv6_channel_call(command),
    {
        let source = rtmp_source(self.rtmp_conn_port);
        let name = ipv6_channel_name(self.channel_name.as_str(), &self.ipv4_yp_id);
        Command::BroadcastChannel {
            yellow_page_id: self.ipv6_yp_id,
            source_uri: source.1,
            source_stream: String::from_str(source.0),
            content_reader: String::from_str("ASF(WMV or WMA)"),
            info: self.info_for(name.as_str(), self.ipv6_genre.as_str()),
            track: Track::empty(),
            network_type: String::from_str("ipv6"),
        }
    }

    fn ipv4_channel_command(&self) -> (command: Command)
        ensures
            self.is_ipv4_channel_call(command),
    {
        let source = match &self.ipv6_channel {
            Some(id) => loopback(id.as_str()),
            None => rtmp_source(self.rtmp_conn_port),
        };
        Command::BroadcastChannel {
            yellow_page_id: self.ipv4_yp_id,
            source_uri: source.1,
            source_stream: String::from_str(source.0),
            content_reader: String::from_str("ASF(WMV or WMA)"),
            info: self.info_for(self.channel_name.as_str(), self.ipv4_genre.as_str()),
            track: Track::empty(),
            network_type: String::from_str("ipv4"),
        }
    }

    fn add_command(host: &str) -> (command: Command)
        ensures
            is_add_call(command, host@),
    {
        let mut announce_uri = String::from_str("pcp://");
        announce_uri.append(host);
        Command::AddYellowPage {
            protocol: String::from_str("pcp"),
            name: String::from_str(host),
            announce_uri,
        }
    }

    fn turn_to_ipv4(&mut self) -> (step: Step)
        requires
            old(self).rtmp_conn_port != 0,
            !old(self).ipv4_configured() ==> old(self).ipv4_yp_id.is_none(),
            !old(self).ipv6_configured() ==> old(self).ipv6_yp_id.is_none(),
            old(self).resolved(),
            old(self).ipv6_configured() == old(self).ipv6_channel.is_some(),
        ensures
            final(self).wf(),
            final(self).same_plan(*old(self)),
            old(self).same_findings(*final(self)),
            final(self).turns_to_ipv4(step),
    {
        if !self.ipv4_host.as_str().is_empty() {
            self.stage = Stage::Ipv4Ports;
            Step::Call(Calls { common: None, ipv4: Some(Command::CheckPorts), ipv6: None })
        } else {
            self.stage = Stage::Finished;
            Step::Finished(Ok(self.rtmp_conn_port))
        }
    }

    fn start_announcing(&mut self) -> (step: Step)
        requires
            old(self).rtmp_conn_port != 0,
            !old(self).ipv4_configured() ==> old(self).ipv4_yp_id.is_none(),
            !old(self).ipv6_configured() ==> old(self).ipv6_yp_id.is_none(),
            old(self).resolved(),
            old(self).ipv6_channel.is_none(),
        ensures
            final(self).wf(),
            final(self).same_plan(*old(self)),
            old(self).same_findings(*final(self)),
            final(self).starts_announcing(step),
    {
        if !self.ipv6_host.as_str().is_empty() {
            self.stage = Stage::Ipv6Ports;
            Step::Call(Calls { common: None, ipv4: None, ipv6: Some(Command::CheckPorts) })
        } else {
            self.turn_to_ipv4()
        }
    }

    fn on_directories(&mut self, replies: &Replies) -> (step: Step)
        requires
            old(self).wf(),
            old(self).stage == Stage::Directories,
        ensures
            final(self).wf(),
            final(self).same_plan(*old(self)),
            old(self).reads_directories(*replies, *final(self), step),
    {
        let response = match &replies.common {
            Some(response) => response,
            None => { return self.fail(communication_failure()); },
        };
        let list = match PeCaStAdapter::get_yellow_pages(response) {
            Ok(list) => list,
            Err(failure) => { return self.fail(failure); },
        };
        let ipv4_configured = !self.ipv4_host.as_str().is_empty();
        let ipv6_configured = !self.ipv6_host.as_str().is_empty();
        if ipv4_configured {
            self.ipv4_yp_id = find_id(list.as_slice(), self.ipv4_host.as_str());
        }
        if ipv6_configured {
            self.ipv6_yp_id = find_id(list.as_slice(), self.ipv6_host.as_str());
        }
        let add_ipv4 = ipv4_configured && self.ipv4_yp_id.is_none();
        let add_ipv6 = ipv6_configured && self.ipv6_yp_id.is_none();
        if !add_ipv4 && !add_ipv6 {
            return self.start_announcing();
        }
        self.stage = Stage::Registration;
        let ipv4 = if add_ipv4 {
            Some(Self::add_command(self.ipv4_host.as_str()))
        } else {
            None
        };
        let ipv6 = if add_ipv6 {
            Some(Self::add_command(self.ipv6_host.as_str()))
        } else {
            None
        };
        Step::Call(Calls { common: None, ipv4, ipv6 })
    }
}

/// How the call that adds a directory went, and the id that it brought.
enum Added {
    Skipped,
    Got(i32),
    Failed(Failure),
    Lost,
}

impl Added {
    closed spec fn outcome(self) -> Outcome {
        match self {
            Added::Skipped => Outcome::Skipped,
            Added::Got(_) => Outcome::Passed,
            Added::Failed(failure) => Outcome::Failed(failure@),
            Added::Lost => Outcome::Lost,
        }
    }

    fn verdict(self) -> (verdict: Verdict)
        ensures
            verdict@ == self.outcome(),
    {
        match self {
            Added::Skipped => Verdict::Skipped,
            Added::Got(_) => Verdict::Passed,
            Added::Failed(failure) => Verdict::Failed(failure),
            Added::Lost => Verdict::Lost,
        }
    }
}

fn added(asked: bool, reply: &Option<Response>) -> (added: Added)
    ensures
        added.outcome() == added_outcome(asked, *reply),
        added matches Added::Got(id) ==> id == added_id(*reply),
{
    if !asked {
        return Added::Skipped;
    }
    match reply {
        None => Added::Lost,
        Some(response) => match PeCaStAdapter::add_yellow_page(response) {
            Ok(id) => Added::Got(id),
            Err(failure) => Added::Failed(failure),
        },
    }
}

impl BroadcastRun {
    fn on_registration(&mut self, replies: &Replies) -> (step: Step)
        requires
            old(self).wf(),
            old(self).stage == Stage::Registration,
        ensures
            final(self).wf(),
            final(self).same_plan(*old(self)),
            old(self).reads_registration(*replies, *final(self), step),
    {
        let add_ipv4 = !self.ipv4_host.as_str().is_empty() && self.ipv4_yp_id.is_none();
        let add_ipv6 = !self.ipv6_host.as_str().is_empty() && self.ipv6_yp_id.is_none();
        let ipv4 = added(add_ipv4, &replies.ipv4);
        let ipv6 = added(add_ipv6, &replies.ipv6);
        let ipv4_id = match &ipv4 {
            Added::Got(id) => Some(*id),
            _ => None,
        };
        let ipv6_id = match &ipv6 {
            Added::Got(id) => Some(*id),
            _ => None,
        };
        match settled(ipv4.verdict(), ipv6.verdict()) {
            Err(failure) => self.fail(failure),
            Ok(_) => {
                if add_ipv4 {
                    self.ipv4_yp_id = ipv4_id;
                }
                if add_ipv6 {
                    self.ipv6_yp_id = ipv6_id;
                }
                self.start_announcing()
            },
        }
    }

    fn on_check(&mut self, replies: &Replies) -> (step: Step)
        requires
            old(self).wf(),
            old(self).stage == Stage::Ipv6Ports || old(self).stage == Stage::Ipv6Addresses
                || old(self).stage == Stage::Ipv4Ports || old(self).stage
                == Stage::Ipv4Addresses,
        ensures
            final(self).wf(),
            final(self).same_plan(*old(self)),
            old(self).reads_check(*replies, *final(self), step),
    {
        let ipv6 = matches!(self.stage, Stage::Ipv6Ports | Stage::Ipv6Addresses);
        let reply = if ipv6 {
            &replies.ipv6
        } else {
            &replies.ipv4
        };
        let response = match reply {
            Some(response) => response,
            None => { return self.fail(communication_failure()); },
        };
        let checked = match self.stage {
            Stage::Ipv6Ports | Stage::Ipv4Ports => PeCaStAdapter::check_ports(response),
            _ => PeCaStAdapter::get_external_ip_addresses(response),
        };
        match checked {
            Ok(_) => {},
            Err(failure) => { return self.fail(failure); },
        }
        match self.stage {
            Stage::Ipv6Ports => {
                self.stage = Stage::Ipv6Addresses;
                Step::Call(
                    Calls { common: None, ipv4: None, ipv6: Some(Command::GetExternalIpAddresses) },
                )
            },
            Stage::Ipv6Addresses => {
                self.stage = Stage::Ipv6Channel;
                Step::Call(
                    Calls { common: None, ipv4: None, ipv6: Some(self.ipv6_channel_command()) },
                )
            },
            Stage::Ipv4Ports => {
                self.stage = Stage::Ipv4Addresses;
                Step::Call(
                    Calls { common: None, ipv4: Some(Command::GetExternalIpAddresses), ipv6: None },
                )
            },
            _ => {
                self.stage = Stage::Ipv4Channel;
                Step::Call(
                    Calls { common: None, ipv4: Some(self.ipv4_channel_command()), ipv6: None },
                )
            },
        }
    }

    /// Whether a step on the id of a new channel leads from `self` and
    /// `sessions` to `after`, `live` and `step`. The stack of the channel
    /// turns live with the id that the engine answered. After the IPv6
    /// channel the IPv4 stack is turned to; the IPv4 channel ends the start.
    pub open spec fn reads_channel(
        self,
        sessions: Sessions,
        replies: Replies,
        after: BroadcastRun,
        live: Sessions,
        step: Step,
    ) -> bool {
        if self.stage == Stage::Ipv6Channel {
            match needed(replies.ipv6, |r: Json| channel_id_of(r)) {
                Err(problem) => after.stage == Stage::Finished && fails_with(step, problem)
                    && live == sessions,
                Ok(id) => {
                    &&& live == Sessions { ipv4: sessions.ipv4, ipv6: Some(id) }
                    &&& after.ipv4_yp_id == self.ipv4_yp_id
                    &&& after.ipv6_yp_id == self.ipv6_yp_id
                    &&& id_text(after.ipv6_channel) == Some(id)
                    &&& after.turns_to_ipv4(step)
                },
            }
        } else {
            match needed(replies.ipv4, |r: Json| channel_id_of(r)) {
                Err(problem) => after.stage == Stage::Finished && fails_with(step, problem)
                    && live == sessions,
                Ok(id) => {
                    &&& live == Sessions { ipv4: Some(id), ipv6: sessions.ipv6 }
                    &&& self.same_findings(after)
                    &&& after.stage == Stage::Finished
                    &&& succeeds_with(step, self.rtmp_conn_port)
                },
            }
        }
    }

    /// Whether one step of the start leads from `self` and `sessions` to
    /// `after`, `live` and `step`, stage by stage. Only the step that reads
    /// the id of a new channel touches the sessions.
    pub open spec fn advances(
        self,
        sessions: Sessions,
        replies: Replies,
        after: BroadcastRun,
        live: Sessions,
        step: Step,
    ) -> bool {
        match self.stage {
            Stage::Directories => live == sessions && self.reads_directories(replies, after, step),
            Stage::Registration => live == sessions && self.reads_registration(
                replies,
                after,
                step,
            ),
            Stage::Ipv6Channel | Stage::Ipv4Channel => self.reads_channel(
                sessions,
                replies,
                after,
                live,
                step,
            ),
            Stage::Finished => false,
            _ => live == sessions && self.reads_check(replies, after, step),
        }
    }
}

impl Broadcasting {
    /// Takes the start of a broadcast one step further: reads the answers
    /// to the calls of the step before, and asks for the next calls or ends
    /// the start. The directories are resolved first. Then the IPv6 channel
    /// is started where that stack has a directory host, and only then the
    /// IPv4 channel where that stack has one; before each channel the engine
    /// checks its ports and its external addresses. Any failure ends the
    /// start at once and leaves the sessions as they are by then.
    pub fn broadcast_step(&mut self, run: &mut BroadcastRun, replies: &Replies) -> (step: Step)
        requires
            old(run).wf(),
            old(run).stage != Stage::Finished,
        ensures
            final(run).wf(),
            final(run).same_plan(*old(run)),
            old(run).advances(old(self)@, *replies, *final(run), final(self)@, step),
            !old(run).ipv6_configured() ==> final(self)@.ipv6 == old(self)@.ipv6,
            !old(run).ipv4_configured() ==> final(self)@.ipv4 == old(self)@.ipv4,
    {
        match run.stage {
            Stage::Directories => run.on_directories(replies),
            Stage::Registration => run.on_registration(replies),
            Stage::Ipv6Channel => {
                let response = match &replies.ipv6 {
                    Some(response) => response,
                    None => { return run.fail(communication_failure()); },
                };
                match PeCaStAdapter::broadcast_channel(response) {
                    Err(failure) => run.fail(failure),
                    Ok(id) => {
                        run.ipv6_channel = Some(id.clone());
                        self.ipv6_id = Some(id);
                        run.turn_to_ipv4()
                    },
                }
            },
            Stage::Ipv4Channel => {
                let response = match &replies.ipv4 {
                    Some(response) => response,
                    None => { return run.fail(communication_failure()); },
                };
                match PeCaStAdapter::broadcast_channel(response) {
                    Err(failure) => run.fail(failure),
                    Ok(id) => {
                        self.ipv4_id = Some(id);
                        run.stage = Stage::Finished;
                        Step::Finished(Ok(run.rtmp_conn_port))
                    },
                }
            },
            _ => run.on_check(replies),
        }
    }
}

/// Whether `uri` is the address of one of the engine's own channels.
pub open spec fn is_loopback(uri: Seq<char>) -> bool {
    exists|id: Seq<char>| uri == loopback_uri(id)
}

/// The address at which the engine reads the publisher's stream is never
/// the address of one of the engine's own channels.
pub proof fn law_publisher_source_is_no_loopback(port: u16)
    ensures
        !is_loopback(rtmp_source_uri(port)),
{
    reveal_strlit("rtmp://localhost:");
    reveal_strlit("loopback:");
    let uri = rtmp_source_uri(port);
    assert(uri[0] == 'r');
    assert forall|id: Seq<char>| uri != loopback_uri(id) by {
        assert(loopback_uri(id)[0] == 'l');
    }
}

/// Where only the IPv4 stack has a directory host, the call that starts its
/// channel reads the publisher's stream at the engine's RTMP port, not
/// another channel. (That such a start leaves the IPv6 session alone is
/// stated by `Broadcasting::broadcast_step` itself.)
pub proof fn law_ipv4_alone_reads_publisher(run: BroadcastRun, command: Command)
    requires
        run.wf(),
        run.stage == Stage::Ipv4Channel,
        !run.ipv6_configured(),
        run.is_ipv4_channel_call(command),
    ensures
        command matches Command::BroadcastChannel { source_uri, .. } && source_uri@
            == rtmp_source_uri(run.rtmp_conn_port) && !is_loopback(source_uri@),
{
    law_publisher_source_is_no_loopback(run.rtmp_conn_port);
}

/// Where both stacks have a directory host, the IPv6 channel is up by the
/// time the IPv4 stack is turned to, and the call that starts the IPv4
/// channel reads exactly that channel.
pub proof fn law_ipv4_relays_ipv6(run: BroadcastRun, command: Command)
    requires
        run.wf(),
        run.stage == Stage::Ipv4Ports || run.stage == Stage::Ipv4Addresses || run.stage
            == Stage::Ipv4Channel,
        run.ipv6_configured(),
        run.is_ipv4_channel_call(command),
    ensures
        run.ipv6_channel.is_some(),
        command matches Command::BroadcastChannel { source_uri, .. } && source_uri@
            == loopback_uri(run.ipv6_channel->Some_0@),
{
}

/// No step asks for a call on behalf of the IPv4 channel before the IPv6
/// channel is up, where both stacks have a directory host: a step that asks
/// the IPv4 stack for anything but a new directory finds the IPv6 channel
/// that this start has brought up.
pub proof fn law_ipv6_first(
    run: BroadcastRun,
    sessions: Sessions,
    replies: Replies,
    after: BroadcastRun,
    live: Sessions,
    step: Step,
)
    requires
        run.wf(),
        after.wf(),
        after.same_plan(run),
        run.advances(sessions, replies, after, live, step),
        run.ipv6_configured(),
        step matches Step::Call(calls) && calls.ipv4 matches Some(command)
            && !(command is AddYellowPage),
    ensures
        after.ipv6_channel.is_some(),
        run.stage == Stage::Ipv6Channel ==> live.ipv6 == id_text(after.ipv6_channel),
{
}

/// A second stop right after a first never fails on account of the IPv4
/// channel being gone: where the engine answers the IPv4 stop with
/// "Channel not found", the IPv4 stack turns idle, and the stop comes to
/// what the IPv6 stack alone makes of it.
pub proof fn law_repeated_stop_tolerates_missing_ipv4_channel(
    before: Sessions,
    first: Replies,
    second: Replies,
)
    requires
        second.ipv4 matches Some(response) && rpc_result(response) == Err::<Json, Problem>(
            Problem::Error(not_found_text()),
        ),
    ensures
        before.stopped(first).stopped(second).ipv4.is_none(),
        before.stopped(first).stop_result(second) == settle(
            before.stopped(first).ipv6_stop(second),
            Outcome::Passed,
        ),
{
}

/// An update asks nothing on behalf of an idle stack, and nothing that
/// concerns no stack. (Stated by `Broadcasting::update`; here for the
/// sessions as such: what an update comes to does not depend on the answer
/// handed in for an idle stack.)
pub proof fn law_update_ignores_idle_stack(sessions: Sessions, replies: Replies, other: Replies)
    requires
        sessions.ipv4.is_some() ==> other.ipv4 == replies.ipv4,
        sessions.ipv6.is_some() ==> other.ipv6 == replies.ipv6,
    ensures
        sessions.update_result(replies) == sessions.update_result(other),
{
}

/// The engine's version as its answer to `getVersionInfo` gives it.
pub open spec fn version_of(response: Response) -> Result<Seq<char>, Problem> {
    match answer(response, |r: Json| version_info_of(r)) {
        Err(problem) => Err(problem),
        Ok(agent_name) => match second_piece(agent_name) {
            Some(piece) => if version_parses(piece) {
                Ok(piece)
            } else {
                Err(invalid_agent_name())
            },
            None => Err(invalid_agent_name()),
        },
    }
}

impl Broadcasting {
    /// Reads the engine's version from its answer to `getVersionInfo`: the
    /// engine names itself by a product and a version with a slash between
    /// them. A name of another form is a fatal failure.
    pub fn fetch_version(&self, response: &Response) -> (version: Result<EngineVersion, Failure>)
        ensures
            match version {
                Ok(v) => version_of(*response) == Ok::<Seq<char>, Problem>(v@),
                Err(failure) => version_of(*response) == Err::<Seq<char>, Problem>(failure@),
            },
    {
        let agent_name = match PeCaStAdapter::get_version_info(response) {
            Ok(agent_name) => agent_name,
            Err(failure) => { return Err(failure); },
        };
        EngineVersion::from_agent_name(agent_name.as_str())
    }
}

/// Whether `after`, `live` and `step` are what one step of a start makes of
/// `run`, `sessions` and `replies`: what `Broadcasting::broadcast_step`
/// promises.
pub open spec fn is_step(
    run: BroadcastRun,
    sessions: Sessions,
    replies: Replies,
    after: BroadcastRun,
    live: Sessions,
    step: Step,
) -> bool {
    after.wf() && after.same_plan(run) && run.advances(sessions, replies, after, live, step)
}

/// Whether the four lists tell of a start from its beginning: the runs and
/// the sessions as they stood before each step and after the last one, the
/// answers that each step was handed, and what each step came to.
pub open spec fn is_start(
    runs: Seq<BroadcastRun>,
    sessions: Seq<Sessions>,
    replies: Seq<Replies>,
    steps: Seq<Step>,
) -> bool {
    &&& runs.len() == steps.len() + 1
    &&& sessions.len() == runs.len()
    &&& replies.len() == steps.len()
    &&& runs[0].wf()
    &&& runs[0].stage == Stage::Directories
    &&& forall|i: int|
        0 <= i < steps.len() ==> is_step(
            runs[i],
            sessions[i],
            replies[i],
            runs[i + 1],
            sessions[i + 1],
            #[trigger] steps[i],
        )
}

/// Whether a stage is one of the IPv4 stack's.
pub open spec fn is_ipv4_stage(stage: Stage) -> bool {
    stage == Stage::Ipv4Ports || stage == Stage::Ipv4Addresses || stage == Stage::Ipv4Channel
}

/// Whether `step` asks the engine to start a channel for the IPv4 stack.
pub open spec fn starts_ipv4_channel(step: Step) -> bool {
    step matches Step::Call(calls) && calls.ipv4 matches Some(command)
        && command is BroadcastChannel
}

/// Whether the IPv6 channel came up at step `j` of a start with the id
/// `id`: the step read the id from the engine's answer, and the IPv6 stack
/// is live with it from then on.
pub open spec fn ipv6_came_up_at(
    runs: Seq<BroadcastRun>,
    sessions: Seq<Sessions>,
    replies: Seq<Replies>,
    j: int,
    id: Seq<char>,
) -> bool {
    &&& 0 <= j < replies.len()
    &&& runs[j].stage == Stage::Ipv6Channel
    &&& needed(replies[j].ipv6, |r: Json| channel_id_of(r)) == Ok::<Seq<char>, Problem>(id)
    &&& sessions[j + 1].ipv6 == Some(id)
}

/// Throughout a start every run is well-formed and keeps what was settled
/// at the beginning.
pub proof fn lemma_start_keeps_plan(
    runs: Seq<BroadcastRun>,
    sessions: Seq<Sessions>,
    replies: Seq<Replies>,
    steps: Seq<Step>,
    k: int,
)
    requires
        is_start(runs, sessions, replies, steps),
        0 <= k < runs.len(),
    ensures
        runs[k].wf(),
        runs[k].same_plan(runs[0]),
    decreases k,
{
    if k > 0 {
        lemma_start_keeps_plan(runs, sessions, replies, steps, k - 1);
        assert(is_step(
            runs[k - 1],
            sessions[k - 1],
            replies[k - 1],
            runs[k],
            sessions[k],
            steps[k - 1],
        ));
    }
}

/// A start without a directory host for the IPv6 stack never touches the
/// IPv6 session, and while it lasts no IPv6 channel of its own is up.
pub proof fn lemma_ipv4_alone_leaves_ipv6(
    runs: Seq<BroadcastRun>,
    sessions: Seq<Sessions>,
    replies: Seq<Replies>,
    steps: Seq<Step>,
    k: int,
)
    requires
        is_start(runs, sessions, replies, steps),
        !runs[0].ipv6_configured(),
        0 <= k < runs.len(),
    ensures
        sessions[k].ipv6 == sessions[0].ipv6,
        runs[k].stage != Stage::Finished ==> runs[k].ipv6_channel.is_none(),
    decreases k,
{
    lemma_start_keeps_plan(runs, sessions, replies, steps, k);
    if k > 0 {
        lemma_ipv4_alone_leaves_ipv6(runs, sessions, replies, steps, k - 1);
        lemma_start_keeps_plan(runs, sessions, replies, steps, k - 1);
        assert(is_step(
            runs[k - 1],
            sessions[k - 1],
            replies[k - 1],
            runs[k],
            sessions[k],
            steps[k - 1],
        ));
    }
}

/// A start with a directory host for the IPv4 stack alone never produces an
/// IPv6 session and reads the publisher's stream directly: whatever the
/// engine answers, the IPv6 session stays as it was before the start, no
/// step asks for a call on behalf of the IPv6 stack, and a call that starts
/// the IPv4 channel names the engine's RTMP port as its source, which is no
/// address of another channel.
pub proof fn law_start_with_ipv4_alone(
    runs: Seq<BroadcastRun>,
    sessions: Seq<Sessions>,
    replies: Seq<Replies>,
    steps: Seq<Step>,
)
    requires
        is_start(runs, sessions, replies, steps),
        !runs[0].ipv6_configured(),
    ensures
        forall|k: int| 0 <= k < sessions.len() ==> (#[trigger] sessions[k]).ipv6 == sessions[0].ipv6,
        forall|i: int|
            0 <= i < steps.len() ==> ((#[trigger] steps[i]) matches Step::Call(calls)
                ==> calls.ipv6.is_none()),
        forall|i: int|
            0 <= i < steps.len() && starts_ipv4_channel(#[trigger] steps[i]) ==> (
            ipv4_call(steps[i]) matches Command::BroadcastChannel { source_uri, network_type, .. }
                && source_uri@ == rtmp_source_uri(runs[0].rtmp_conn_port) && !is_loopback(
                source_uri@,
            ) && network_type@ == "ipv4"@),
{
    law_publisher_source_is_no_loopback(runs[0].rtmp_conn_port);
    assert forall|k: int| 0 <= k < sessions.len() implies (#[trigger] sessions[k]).ipv6
        == sessions[0].ipv6 by {
        lemma_ipv4_alone_leaves_ipv6(runs, sessions, replies, steps, k);
    }
    assert forall|i: int| 0 <= i < steps.len() implies ((#[trigger] steps[i]) matches Step::Call(
        calls,
    ) ==> calls.ipv6.is_none()) && (starts_ipv4_channel(steps[i]) ==> (ipv4_call(
        steps[i],
    ) matches Command::BroadcastChannel { source_uri, network_type, .. } && source_uri@
        == rtmp_source_uri(runs[0].rtmp_conn_port) && network_type@ == "ipv4"@)) by {
        lemma_start_keeps_plan(runs, sessions, replies, steps, i);
        lemma_start_keeps_plan(runs, sessions, replies, steps, i + 1);
        lemma_ipv4_alone_leaves_ipv6(runs, sessions, replies, steps, i);
        assert(is_step(
            runs[i],
            sessions[i],
            replies[i],
            runs[i + 1],
            sessions[i + 1],
            steps[i],
        ));
    }
}

/// In a start with directory hosts for both stacks, a run at one of the
/// IPv4 stack's stages has seen the IPv6 channel come up at an earlier
/// step, and holds the id that the engine answered then.
pub proof fn lemma_ipv6_is_up_at_ipv4_stages(
    runs: Seq<BroadcastRun>,
    sessions: Seq<Sessions>,
    replies: Seq<Replies>,
    steps: Seq<Step>,
    k: int,
) -> (j: int)
    requires
        is_start(runs, sessions, replies, steps),
        runs[0].ipv6_configured(),
        0 <= k < runs.len(),
        is_ipv4_stage(runs[k].stage),
    ensures
        0 <= j < k,
        runs[k].ipv6_channel.is_some(),
        ipv6_came_up_at(runs, sessions, replies, j, runs[k].ipv6_channel->Some_0@),
    decreases k,
{
    lemma_start_keeps_plan(runs, sessions, replies, steps, k);
    assert(k > 0);
    lemma_start_keeps_plan(runs, sessions, replies, steps, k - 1);
    assert(is_step(
        runs[k - 1],
        sessions[k - 1],
        replies[k - 1],
        runs[k],
        sessions[k],
        steps[k - 1],
    ));
    if runs[k - 1].stage == Stage::Ipv6Channel {
        k - 1
    } else {
        assert(is_ipv4_stage(runs[k - 1].stage));
        lemma_ipv6_is_up_at_ipv4_stages(runs, sessions, replies, steps, k - 1)
    }
}

/// A start with directory hosts for both stacks always brings the IPv6
/// channel up strictly before it asks for the IPv4 channel, and the IPv4
/// channel reads exactly that channel: where step `i` asks the engine to
/// start the IPv4 channel, an earlier step `j` has read the IPv6 channel's
/// id from the engine's answer, the IPv6 stack has been live with that id
/// since, the call that had asked for the IPv6 channel read the publisher's
/// stream, and the source of the IPv4 call is `loopback:` followed by that
/// id.
pub proof fn law_start_with_both_stacks(
    runs: Seq<BroadcastRun>,
    sessions: Seq<Sessions>,
    replies: Seq<Replies>,
    steps: Seq<Step>,
    i: int,
) -> (j: int)
    requires
        is_start(runs, sessions, replies, steps),
        runs[0].ipv4_configured(),
        runs[0].ipv6_configured(),
        0 <= i < steps.len(),
        starts_ipv4_channel(steps[i]),
    ensures
        1 <= j < i,
        runs[i + 1].ipv6_channel.is_some(),
        ipv6_came_up_at(runs, sessions, replies, j, runs[i + 1].ipv6_channel->Some_0@),
        asks_ipv6(steps[j - 1]) && runs[j].is_ipv6_channel_call(ipv6_call(steps[j - 1])),
        ipv4_call(steps[i]) matches Command::BroadcastChannel { source_uri, network_type, .. }
            && source_uri@ == loopback_uri(runs[i + 1].ipv6_channel->Some_0@) && network_type@
            == "ipv4"@,
{
    lemma_start_keeps_plan(runs, sessions, replies, steps, i);
    lemma_start_keeps_plan(runs, sessions, replies, steps, i + 1);
    assert(is_step(runs[i], sessions[i], replies[i], runs[i + 1], sessions[i + 1], steps[i]));
    assert(runs[i].stage == Stage::Ipv4Addresses);
    let j = lemma_ipv6_is_up_at_ipv4_stages(runs, sessions, replies, steps, i + 1);
    assert(j != i);
    assert(j > 0);
    lemma_start_keeps_plan(runs, sessions, replies, steps, j - 1);
    lemma_start_keeps_plan(runs, sessions, replies, steps, j);
    assert(is_step(
        runs[j - 1],
        sessions[j - 1],
        replies[j - 1],
        runs[j],
        sessions[j],
        steps[j - 1],
    ));
    j
}

} // verus!
