//! The engine's version: read from the text by which the engine names
//! itself, and compared as the `versions` crate compares versions.
use crate::failure::{Failure, Problem};
use vstd::prelude::*;
use vstd::string::StrSliceExecFns;
use vstd::string::StringExecFns;
use versions::Version;

verus! {

/// Whether `versions::Version::new` makes a version of `text`.
pub uninterp spec fn version_parses(text: Seq<char>) -> bool;

/// Whether the version written `version` is less than the one written
/// `other`, in the order of `versions::Version`.
pub uninterp spec fn version_precedes(version: Seq<char>, other: Seq<char>) -> bool;

/// `versions::Version::new`: whether `text` is read as a version.
#[verifier::external_body]
fn parses_version(text: &str) -> (parses: bool)
    ensures
        parses == version_parses(text@),
{
    Version::new(text).is_some()
}

/// `<` on `versions::Version`, between the versions that
/// `versions::Version::new` makes of the two texts.
#[verifier::external_body]
fn precedes(version: &str, other: &str) -> (less: bool)
    requires
        version_parses(version@),
        version_parses(other@),
    ensures
        less == version_precedes(version@, other@),
{
    Version::new(version) < Version::new(other)
}

/// The index of the first slash of `text` at or after `from`, or the
/// length of `text` where there is none.
pub open spec fn next_slash(text: Seq<char>, from: int) -> int
    decreases text.len() - from,
{
    if from < 0 || from >= text.len() {
        text.len() as int
    } else if text[from] == '/' {
        from
    } else {
        next_slash(text, from + 1)
    }
}

/// What stands between the first slash of `text` and the second, or the
/// end where there is no second; nothing where `text` has no slash.
pub open spec fn second_piece(text: Seq<char>) -> Option<Seq<char>> {
    let first = next_slash(text, 0);
    if first >= text.len() {
        None
    } else {
        Some(text.subrange(first + 1, next_slash(text, first + 1)))
    }
}

fn find_slash(text: &str, from: usize, len: usize) -> (at: usize)
    requires
        len == text@.len(),
        from <= len,
    ensures
        at == next_slash(text@, from as int),
        from <= at <= len,
{
    let mut i: usize = from;
    while i < len
        invariant
            from <= i <= len,
            len == text@.len(),
            next_slash(text@, from as int) == next_slash(text@, i as int),
        decreases len - i,
    {
        if text.get_char(i) == '/' {
            return i;
        }
        i += 1;
    }
    i
}

/// The text of every failure to read the engine's version.
pub open spec fn invalid_agent_name() -> Problem {
    Problem::Fatal("Invalid agentName format"@)
}

/// The version below which the engine needs a pause after a channel's
/// stream has closed.
pub open spec fn patient_version() -> Seq<char> {
    "3.1.0.0"@
}

/// The seconds to wait before a channel is stopped, given whether the
/// engine is older than the version from which on it needs no pause.
pub open spec fn spec_stop_delay_secs(older: bool) -> u64 {
    if older {
        6
    } else {
        0
    }
}

/// The seconds to wait before a channel is stopped, given whether the
/// engine is older than the version from which on it needs no pause. An
/// older engine leaves a listener behind where a channel is removed within
/// seconds of its stream closing.
pub fn stop_delay_secs(older: bool) -> (secs: u64)
    ensures
        secs == spec_stop_delay_secs(older),
{
    if older {
        6
    } else {
        0
    }
}

/// A version of the engine: a text that reads as a version.
#[derive(Debug)]
pub struct EngineVersion {
    text: String,
}

impl View for EngineVersion {
    type V = Seq<char>;

    closed spec fn view(&self) -> Seq<char> {
        self.text@
    }
}

impl EngineVersion {
    /// The text reads as a version.
    #[verifier::type_invariant]
    closed spec fn wf(self) -> bool {
        version_parses(self.text@)
    }

    /// The version written `text`, where `text` reads as a version.
    pub fn new(text: &str) -> (version: Option<EngineVersion>)
        ensures
            version.is_some() == version_parses(text@),
            version matches Some(v) ==> v@ == text@,
    {
        if parses_version(text) {
            Some(EngineVersion { text: String::from_str(text) })
        } else {
            None
        }
    }

    /// The version as it was written.
    pub fn text(&self) -> (text: &str)
        ensures
            text@ == self@,
    {
        self.text.as_str()
    }

    /// The version of the engine that names itself `agent_name`, a product
    /// and a version with a slash between them.
    pub fn from_agent_name(agent_name: &str) -> (version: Result<EngineVersion, Failure>)
        ensures
            match version {
                Ok(v) => second_piece(agent_name@) == Some(v@) && version_parses(v@),
                Err(failure) => failure@ == invalid_agent_name() && !(second_piece(agent_name@)
                    matches Some(piece) && version_parses(piece)),
            },
    {
        let len = agent_name.unicode_len();
        let first = find_slash(agent_name, 0, len);
        if first >= len {
            return Err(Failure::fatal("Invalid agentName format"));
        }
        let second = find_slash(agent_name, first + 1, len);
        let piece = agent_name.substring_char(first + 1, second);
        match EngineVersion::new(piece) {
            Some(version) => Ok(version),
            None => Err(Failure::fatal("Invalid agentName format")),
        }
    }

    /// Whether this version is older than the one written `other`. It is
    /// not where `other` does not read as a version.
    pub fn is_older_than(&self, other: &str) -> (older: bool)
        ensures
            older == (version_parses(other@) && version_precedes(self@, other@)),
    {
        proof {
            use_type_invariant(self);
        }
        if parses_version(other) {
            precedes(self.text.as_str(), other)
        } else {
            false
        }
    }

    /// The seconds to wait before a channel of this engine is stopped: 6
    /// where the engine is older than 3.1.0.0, else none.
    pub fn stop_delay_secs(&self) -> (secs: u64)
        ensures
            secs == spec_stop_delay_secs(
                version_parses(patient_version()) && version_precedes(self@, patient_version()),
            ),
    {
        stop_delay_secs(self.is_older_than("3.1.0.0"))
    }
}

} // verus!
