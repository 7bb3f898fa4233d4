//! One publisher's session, from the accepted connection to the stop of the
//! broadcast: what is done next, given what has happened.
//!
//! Sessions come one at a time: the next connection is accepted only once
//! the session before it is over. A failed session is not tried again; the
//! failure is shown, and the next publisher is awaited.
use crate::failure::{Failure, Problem};
use vstd::prelude::*;

verus! {

/// Where a session stands: what it awaits.
#[derive(Clone, Copy, Debug, PartialEq, Eq, Structural)]
pub enum SessionStage {
    /// Whether the agreements to the directories' terms still hold.
    Terms,
    /// The start of the broadcast.
    Starting,
    /// The connection to the engine's RTMP port.
    Connecting,
    /// The end of the publisher's stream.
    Piping,
    /// The stop of the broadcast.
    Stopping,
    /// The engine's version.
    Versioning,
    /// The end of the pause that an older engine needs.
    Cooling,
    /// Nothing: the next publisher can be accepted.
    Over,
}

/// What has happened in a session.
#[derive(Debug)]
pub enum SessionEvent {
    /// The agreements were checked: whether all of them still hold, or
    /// `None` where the terms could not be fetched.
    TermsChecked(Option<bool>),
    /// The broadcast was started, on the engine's RTMP port given, or not.
    Started(Result<u16, Failure>),
    /// The engine's RTMP port was connected to, or not.
    Connected(Result<(), Failure>),
    /// The publisher or the engine has closed the stream.
    PipeClosed,
    /// The broadcast was stopped, or not.
    Stopped(Result<(), Failure>),
    /// The engine's version was read, and with it the seconds to pause.
    VersionFetched(Result<u64, Failure>),
    /// The pause is over.
    Waited,
}

/// What is to be done next in a session.
#[derive(Clone, Copy, Debug, PartialEq, Eq, Structural)]
pub enum SessionAction {
    /// Fetch the pages of terms and check the agreements against them.
    CheckTerms,
    /// Start the broadcast, and enter what is broadcast into the histories.
    StartBroadcast,
    /// Connect to the engine's RTMP port.
    Connect(u16),
    /// Relay bytes between the publisher and the engine until one closes.
    Pipe,
    /// Stop the broadcast.
    StopBroadcast,
    /// Ask the engine for its version.
    FetchVersion,
    /// Pause for so many seconds.
    Wait(u64),
    /// Accept the next publisher.
    Finish,
}

/// What a step of a session comes to: a failure to show, if any, and what
/// is to be done next.
#[derive(Debug)]
pub struct SessionStep {
    pub notify: Option<Failure>,
    pub action: SessionAction,
}

/// What is shown where the terms could not be checked.
pub open spec fn terms_unchecked_text() -> Seq<char> {
    "YP の利用規約の確認に失敗しました。"@
}

/// What is shown where terms have changed.
pub open spec fn terms_changed_text() -> Seq<char> {
    "YP の利用規約が変更されました。再度確認してください。"@
}

/// The failure of an event that tells of one.
pub open spec fn failure_of(event: SessionEvent) -> Option<Problem> {
    match event {
        SessionEvent::TermsChecked(Some(false)) => Some(Problem::Error(terms_changed_text())),
        SessionEvent::TermsChecked(None) => Some(Problem::Warn(terms_unchecked_text())),
        SessionEvent::Started(Err(failure)) => Some(failure@),
        SessionEvent::Connected(Err(failure)) => Some(failure@),
        SessionEvent::Stopped(Err(failure)) => Some(failure@),
        SessionEvent::VersionFetched(Err(failure)) => Some(failure@),
        _ => None,
    }
}

/// Whether `event` is what a session at `stage` awaits.
pub open spec fn awaited(stage: SessionStage, event: SessionEvent) -> bool {
    match stage {
        SessionStage::Terms => event is TermsChecked,
        SessionStage::Starting => event is Started,
        SessionStage::Connecting => event is Connected,
        SessionStage::Piping => event is PipeClosed,
        SessionStage::Stopping => event is Stopped,
        SessionStage::Versioning => event is VersionFetched,
        SessionStage::Cooling => event is Waited,
        SessionStage::Over => false,
    }
}

/// Where a session stands after the event that it awaited, and what is to
/// be done then. Terms that have changed end the session, and so does every
/// failure but that of the check of the terms itself. The broadcast is
/// stopped once the stream has closed; after the stop an older engine gets
/// its pause.
pub open spec fn next(stage: SessionStage, event: SessionEvent) -> (SessionStage, SessionAction) {
    match event {
        SessionEvent::TermsChecked(Some(false)) => (SessionStage::Over, SessionAction::Finish),
        SessionEvent::TermsChecked(_) => (SessionStage::Starting, SessionAction::StartBroadcast),
        SessionEvent::Started(Ok(port)) => (SessionStage::Connecting, SessionAction::Connect(port)),
        SessionEvent::Connected(Ok(_)) => (SessionStage::Piping, SessionAction::Pipe),
        SessionEvent::PipeClosed => (SessionStage::Stopping, SessionAction::StopBroadcast),
        SessionEvent::Stopped(Ok(_)) => (SessionStage::Versioning, SessionAction::FetchVersion),
        SessionEvent::VersionFetched(Ok(secs)) => if secs > 0 {
            (SessionStage::Cooling, SessionAction::Wait(secs))
        } else {
            (SessionStage::Over, SessionAction::Finish)
        },
        _ => (SessionStage::Over, SessionAction::Finish),
    }
}

/// One publisher's session.
#[derive(Clone, Copy, Debug)]
pub struct Session {
    stage: SessionStage,
}

impl View for Session {
    type V = SessionStage;

    closed spec fn view(&self) -> SessionStage {
        self.stage
    }
}

/// What the window shows of the ingest while a session is at `stage`.
pub open spec fn status_of(stage: SessionStage) -> Seq<char> {
    if stage == SessionStage::Connecting || stage == SessionStage::Piping {
        "streaming"@
    } else {
        "listening"@
    }
}

impl Session {
    /// The session of a connection that was just accepted, and the first
    /// thing to do in it: the check of the terms.
    pub fn new() -> (start: (Session, SessionAction))
        ensures
            start.0@ == SessionStage::Terms,
            start.1 == SessionAction::CheckTerms,
    {
        (Session { stage: SessionStage::Terms }, SessionAction::CheckTerms)
    }

    /// Where the session stands.
    pub fn stage(&self) -> (stage: SessionStage)
        ensures
            stage == self@,
    {
        self.stage
    }

    /// Whether the next publisher can be accepted.
    pub fn is_over(&self) -> (over: bool)
        ensures
            over == (self@ == SessionStage::Over),
    {
        matches!(self.stage, SessionStage::Over)
    }

    /// Whether `event` is what the session awaits.
    pub fn awaits(&self, event: &SessionEvent) -> (yes: bool)
        ensures
            yes == awaited(self@, *event),
    {
        match (self.stage, event) {
            (SessionStage::Terms, SessionEvent::TermsChecked(_)) => true,
            (SessionStage::Starting, SessionEvent::Started(_)) => true,
            (SessionStage::Connecting, SessionEvent::Connected(_)) => true,
            (SessionStage::Piping, SessionEvent::PipeClosed) => true,
            (SessionStage::Stopping, SessionEvent::Stopped(_)) => true,
            (SessionStage::Versioning, SessionEvent::VersionFetched(_)) => true,
            (SessionStage::Cooling, SessionEvent::Waited) => true,
            _ => false,
        }
    }

    /// What the window shows of the ingest: "streaming" from the start of
    /// the broadcast to the end of the stream, else "listening".
    pub fn status(&self) -> (status: &'static str)
        ensures
            status@ == status_of(self@),
    {
        match self.stage {
            SessionStage::Connecting | SessionStage::Piping => "streaming",
            _ => "listening",
        }
    }

    /// Takes in the event that the session awaited: the session moves on,
    /// and what is to be shown and done next is handed out.
    pub fn advance(&mut self, event: SessionEvent) -> (step: SessionStep)
        requires
            awaited(old(self)@, event),
        ensures
            final(self)@ == next(old(self)@, event).0,
            step.action == next(old(self)@, event).1,
            match step.notify {
                Some(failure) => failure_of(event) == Some(failure@),
                None => failure_of(event).is_none(),
            },
    {
        let (stage, action, notify) = match event {
            SessionEvent::TermsChecked(Some(false)) => (
                SessionStage::Over,
                SessionAction::Finish,
                Some(Failure::error("YP の利用規約が変更されました。再度確認してください。")),
            ),
            SessionEvent::TermsChecked(Some(true)) => (
                SessionStage::Starting,
                SessionAction::StartBroadcast,
                None,
            ),
            SessionEvent::TermsChecked(None) => (
                SessionStage::Starting,
                SessionAction::StartBroadcast,
                Some(Failure::warn("YP の利用規約の確認に失敗しました。")),
            ),
            SessionEvent::Started(Ok(port)) => (
                SessionStage::Connecting,
                SessionAction::Connect(port),
                None,
            ),
            SessionEvent::Connected(Ok(_)) => (SessionStage::Piping, SessionAction::Pipe, None),
            SessionEvent::PipeClosed => (SessionStage::Stopping, SessionAction::StopBroadcast, None),
            SessionEvent::Stopped(Ok(_)) => (
                SessionStage::Versioning,
                SessionAction::FetchVersion,
                None,
            ),
            SessionEvent::VersionFetched(Ok(secs)) => if secs > 0 {
                (SessionStage::Cooling, SessionAction::Wait(secs), None)
            } else {
                (SessionStage::Over, SessionAction::Finish, None)
            },
            SessionEvent::Waited => (SessionStage::Over, SessionAction::Finish, None),
            SessionEvent::Started(Err(failure)) => (
                SessionStage::Over,
                SessionAction::Finish,
                Some(failure),
            ),
            SessionEvent::Connected(Err(failure)) => (
                SessionStage::Over,
                SessionAction::Finish,
                Some(failure),
            ),
            SessionEvent::Stopped(Err(failure)) => (
                SessionStage::Over,
                SessionAction::Finish,
                Some(failure),
            ),
            SessionEvent::VersionFetched(Err(failure)) => (
                SessionStage::Over,
                SessionAction::Finish,
                Some(failure),
            ),
        };
        self.stage = stage;
        SessionStep { notify, action }
    }
}

/// A session that has failed is over: nothing is tried again. The one
/// failure that a session outlives is that of the check of the terms.
pub proof fn law_failed_session_is_over(stage: SessionStage, event: SessionEvent)
    requires
        awaited(stage, event),
        failure_of(event).is_some(),
        event != SessionEvent::TermsChecked(None),
    ensures
        next(stage, event) == (SessionStage::Over, SessionAction::Finish),
{
}

/// The broadcast is stopped only after the stream has closed, and a pause is
/// only made after the broadcast was stopped and the engine's version read.
pub proof fn law_stop_follows_the_stream(stage: SessionStage, event: SessionEvent)
    requires
        awaited(stage, event),
    ensures
        next(stage, event).1 == SessionAction::StopBroadcast <==> stage == SessionStage::Piping,
        next(stage, event).1 is Wait ==> stage == SessionStage::Versioning,
        next(stage, event).1 == SessionAction::FetchVersion ==> stage == SessionStage::Stopping,
{
}

} // verus!
