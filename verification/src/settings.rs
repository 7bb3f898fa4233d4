//! The settings that the orchestration reads, and the shapes in which they
//! are stored.
use crate::text::str_eq;
use vstd::prelude::*;

verus! {

/// The texts of a list of strings, in order.
pub open spec fn texts(list: Seq<String>) -> Seq<Seq<char>> {
    Seq::new(list.len(), |i: int| list[i]@)
}

/// The kind of relay engine that is controlled.
#[derive(Clone, Copy, Debug, PartialEq, Eq, Structural)]
pub enum PeerCastType {
    PeerCastOriginal,
    PeerCastStation,
}

impl Default for PeerCastType {
    fn default() -> (kind: Self)
        ensures
            kind == PeerCastType::PeerCastStation,
    {
        PeerCastType::PeerCastStation
    }
}

/// A history list never runs empty: an empty one becomes a single empty text.
pub open spec fn spec_at_least_one_value(list: Seq<Seq<char>>) -> Seq<Seq<char>> {
    if list.len() == 0 {
        seq![Seq::<char>::empty()]
    } else {
        list
    }
}

/// Returns `list` itself, or a single empty text where `list` is empty.
pub fn at_least_one_value(list: Vec<String>) -> (filled: Vec<String>)
    ensures
        texts(filled@) == spec_at_least_one_value(texts(list@)),
        filled@.len() >= 1,
{
    if list.is_empty() {
        let mut filled = Vec::new();
        filled.push(String::new());
        assert(texts(filled@) =~= seq![Seq::<char>::empty()]);
        filled
    } else {
        list
    }
}

/// Ports and the channel name. The first channel name is the current one,
/// the rest is its history, most recent first.
#[derive(Clone, Debug)]
pub struct GeneralSettings {
    /// The port of the engine's control plane; never 0.
    pub peer_cast_port: u16,
    /// The engine's RTMP port that a publisher is piped into, or 0 to have a
    /// free one picked for each broadcast.
    pub peer_cast_rtmp_port: u16,
    pub channel_name: Vec<String>,
    /// The port on which publishers are awaited; never 0.
    pub rtmp_listen_port: u16,
}

impl GeneralSettings {
    /// Both fixed ports are real ports and there is a current channel name.
    pub open spec fn wf(self) -> bool {
        &&& self.peer_cast_port != 0
        &&& self.rtmp_listen_port != 0
        &&& self.channel_name@.len() >= 1
    }
}

impl Default for GeneralSettings {
    fn default() -> (settings: Self)
        ensures
            settings.peer_cast_port == 7144,
            settings.peer_cast_rtmp_port == 0,
            texts(settings.channel_name@) == seq![Seq::<char>::empty()],
            settings.rtmp_listen_port == 1935,
            settings.wf(),
    {
        let mut channel_name = Vec::new();
        channel_name.push(String::new());
        assert(texts(channel_name@) =~= seq![Seq::<char>::empty()]);
        GeneralSettings {
            peer_cast_port: 7144,
            peer_cast_rtmp_port: 0,
            channel_name,
            rtmp_listen_port: 1935,
        }
    }
}

/// How one stack announces itself to its directory. An empty host means
/// that the stack is not configured.
#[derive(Clone, Debug)]
pub struct EachYellowPagesSettings {
    pub host: String,
    pub hide_listeners: bool,
    pub namespace: String,
    pub port_bandwidth_check: u8,
    pub no_log: bool,
    pub icon: String,
}

impl EachYellowPagesSettings {
    /// Whether the stack has a directory to announce to.
    pub open spec fn configured(self) -> bool {
        self.host@.len() > 0
    }

    /// Whether the stack has a directory to announce to.
    pub fn is_configured(&self) -> (yes: bool)
        ensures
            yes == self.configured(),
    {
        !self.host.as_str().is_empty()
    }
}

impl Default for EachYellowPagesSettings {
    fn default() -> (settings: Self)
        ensures
            settings.host@.len() == 0,
            !settings.hide_listeners,
            settings.namespace@.len() == 0,
            settings.port_bandwidth_check == 0,
            !settings.no_log,
            settings.icon@.len() == 0,
    {
        EachYellowPagesSettings {
            host: String::new(),
            hide_listeners: false,
            namespace: String::new(),
            port_bandwidth_check: 0,
            no_log: false,
            icon: String::new(),
        }
    }
}

/// The directory settings of both stacks, and the terms that were agreed
/// to: pairs of a terms URL and the hash of the terms' content at the time.
#[derive(Clone, Debug)]
pub struct YellowPagesSettings {
    pub ipv4: EachYellowPagesSettings,
    pub ipv6: EachYellowPagesSettings,
    pub agreed_terms: Vec<(String, String)>,
}

/// The addresses and hashes of a list of pairs of the two, in order.
pub open spec fn agreements(list: Seq<(String, String)>) -> Seq<(Seq<char>, Seq<char>)> {
    Seq::new(list.len(), |i: int| (list[i].0@, list[i].1@))
}

/// Whether no address occurs twice in `list`.
pub open spec fn distinct_addresses(list: Seq<(Seq<char>, Seq<char>)>) -> bool {
    forall|i: int, j: int|
        #![trigger list[i], list[j]]
        0 <= i < j < list.len() ==> list[i].0 != list[j].0
}

impl YellowPagesSettings {
    /// The agreements are a map from addresses to hashes: no address occurs
    /// twice.
    pub open spec fn wf(self) -> bool {
        distinct_addresses(agreements(self.agreed_terms@))
    }

    /// Whether some hash is stored for `url`.
    pub open spec fn has_agreed(self, url: Seq<char>) -> bool {
        exists|i: int| 0 <= i < self.agreed_terms@.len() && (#[trigger] self.agreed_terms@[i]).0@ == url
    }

    /// Whether `hash` is the hash stored for `url`.
    pub open spec fn agreed_hash_is(self, url: Seq<char>, hash: Seq<char>) -> bool {
        exists|i: int|
            0 <= i < self.agreed_terms@.len() && (#[trigger] self.agreed_terms@[i]).0@ == url
                && self.agreed_terms@[i].1@ == hash
    }

    /// Whether no address occurs twice among the agreements.
    pub fn is_wf(&self) -> (yes: bool)
        ensures
            yes == self.wf(),
    {
        let ghost list = agreements(self.agreed_terms@);
        let mut j: usize = 0;
        while j < self.agreed_terms.len()
            invariant
                j <= self.agreed_terms@.len(),
                list == agreements(self.agreed_terms@),
                forall|a: int, b: int|
                    #![trigger list[a], list[b]]
                    0 <= a < b < j ==> list[a].0 != list[b].0,
            decreases self.agreed_terms@.len() - j,
        {
            let mut i: usize = 0;
            while i < j
                invariant
                    i <= j < self.agreed_terms@.len(),
                    list == agreements(self.agreed_terms@),
                    forall|a: int| 0 <= a < i ==> (#[trigger] list[a]).0 != list[j as int].0,
                decreases j - i,
            {
                if str_eq(self.agreed_terms[i].0.as_str(), self.agreed_terms[j].0.as_str()) {
                    assert(list[i as int].0 == list[j as int].0);
                    return false;
                }
                i += 1;
            }
            j += 1;
        }
        true
    }

    /// Whether some hash is stored for `url`.
    pub fn contains_terms(&self, url: &str) -> (found: bool)
        requires
            self.wf(),
        ensures
            found == self.has_agreed(url@),
    {
        let mut i: usize = 0;
        while i < self.agreed_terms.len()
            invariant
                i <= self.agreed_terms@.len(),
                forall|j: int| 0 <= j < i ==> (#[trigger] self.agreed_terms@[j]).0@ != url@,
            decreases self.agreed_terms@.len() - i,
        {
            if str_eq(self.agreed_terms[i].0.as_str(), url) {
                return true;
            }
            i += 1;
        }
        false
    }

    /// Whether the hash stored for `url` is `hash`.
    pub fn agreed_to(&self, url: &str, hash: &str) -> (same: bool)
        requires
            self.wf(),
        ensures
            same == self.agreed_hash_is(url@, hash@),
    {
        let ghost list = agreements(self.agreed_terms@);
        let mut i: usize = 0;
        while i < self.agreed_terms.len()
            invariant
                i <= self.agreed_terms@.len(),
                list == agreements(self.agreed_terms@),
                self.wf(),
                forall|j: int| 0 <= j < i ==> (#[trigger] self.agreed_terms@[j]).0@ != url@,
            decreases self.agreed_terms@.len() - i,
        {
            if str_eq(self.agreed_terms[i].0.as_str(), url) {
                let same = str_eq(self.agreed_terms[i].1.as_str(), hash);
                proof {
                    if self.agreed_hash_is(url@, hash@) {
                        let k = choose|k: int|
                            0 <= k < self.agreed_terms@.len() && (
                            #[trigger] self.agreed_terms@[k]).0@ == url@
                                && self.agreed_terms@[k].1@ == hash@;
                        if k < i {
                            assert(list[k].0 != list[i as int].0);
                        } else if i < k {
                            assert(list[i as int].0 != list[k].0);
                        }
                        assert(k == i);
                    }
                }
                return same;
            }
            i += 1;
        }
        false
    }
}

impl Default for YellowPagesSettings {
    fn default() -> (settings: Self)
        ensures
            !settings.ipv4.configured(),
            !settings.ipv6.configured(),
            settings.agreed_terms@.len() == 0,
            settings.wf(),
    {
        YellowPagesSettings {
            ipv4: EachYellowPagesSettings::default(),
            ipv6: EachYellowPagesSettings::default(),
            agreed_terms: Vec::new(),
        }
    }
}

/// A genre and a description that were broadcast together.
#[derive(Clone, Debug, PartialEq, Eq)]
pub struct ChannelContent {
    pub genre: String,
    pub desc: String,
}

impl ChannelContent {
    /// The two texts, as a pair.
    pub open spec fn pair(self) -> (Seq<char>, Seq<char>) {
        (self.genre@, self.desc@)
    }

    /// Whether both texts are empty.
    pub open spec fn blank(self) -> bool {
        self.genre@.len() == 0 && self.desc@.len() == 0
    }

    /// Whether genre and description are the same in both.
    pub fn same_as(&self, other: &ChannelContent) -> (same: bool)
        ensures
            same == (self.pair() == other.pair()),
    {
        str_eq(self.genre.as_str(), other.genre.as_str()) && str_eq(
            self.desc.as_str(),
            other.desc.as_str(),
        )
    }

    /// Whether both texts are empty.
    pub fn is_blank(&self) -> (yes: bool)
        ensures
            yes == self.blank(),
    {
        self.genre.as_str().is_empty() && self.desc.as_str().is_empty()
    }

    /// A copy with the same two texts.
    pub fn duplicate(&self) -> (copy: ChannelContent)
        ensures
            copy.pair() == self.pair(),
    {
        ChannelContent { genre: self.genre.clone(), desc: self.desc.clone() }
    }
}

/// The pairs of a list of channel contents, in order.
pub open spec fn pairs(list: Seq<ChannelContent>) -> Seq<(Seq<char>, Seq<char>)> {
    Seq::new(list.len(), |i: int| list[i].pair())
}

/// What is said of the channel. `genre` and `desc` are the current values;
/// `comment` and `contact_url` hold the current value first and then their
/// history.
#[derive(Clone, Debug)]
pub struct ChannelSettings {
    pub channel_content_history: Vec<ChannelContent>,
    pub genre: String,
    pub desc: String,
    pub comment: Vec<String>,
    pub contact_url: Vec<String>,
}

impl ChannelSettings {
    /// There is a current comment and a current contact URL.
    pub open spec fn wf(self) -> bool {
        self.comment@.len() >= 1 && self.contact_url@.len() >= 1
    }
}

impl Default for ChannelSettings {
    fn default() -> (settings: Self)
        ensures
            settings.channel_content_history@.len() == 0,
            settings.genre@.len() == 0,
            settings.desc@.len() == 0,
            texts(settings.comment@) == seq![Seq::<char>::empty()],
            texts(settings.contact_url@) == seq![Seq::<char>::empty()],
            settings.wf(),
    {
        ChannelSettings {
            channel_content_history: Vec::new(),
            genre: String::new(),
            desc: String::new(),
            comment: at_least_one_value(Vec::new()),
            contact_url: at_least_one_value(Vec::new()),
        }
    }
}

/// The channel settings as they are read from storage: genres and
/// descriptions in two lists, the current value first in each.
#[derive(Debug)]
pub struct StoredChannelSettings {
    pub genre: Vec<String>,
    pub desc: Vec<String>,
    pub comment: Vec<String>,
    pub contact_url: Vec<String>,
}

/// `list`, or the empty text where `list` has no item `i`.
pub open spec fn item_or_empty(list: Seq<Seq<char>>, i: int) -> Seq<char> {
    if 0 <= i < list.len() {
        list[i]
    } else {
        Seq::<char>::empty()
    }
}

/// The longer of two lengths.
pub open spec fn longer(a: nat, b: nat) -> nat {
    if a >= b {
        a
    } else {
        b
    }
}

fn text_at(list: &Vec<String>, i: usize) -> (text: String)
    ensures
        text@ == item_or_empty(texts(list@), i as int),
{
    if i < list.len() {
        list[i].clone()
    } else {
        String::new()
    }
}

impl StoredChannelSettings {
    /// The stored lists hold a current genre or a current description.
    pub open spec fn wf(self) -> bool {
        self.genre@.len() > 0 || self.desc@.len() > 0
    }

    /// Pairs the stored genres and descriptions up. The shorter list is
    /// filled with empty texts to the length of the longer one; the first
    /// pair becomes the current genre and description, the rest the history.
    /// Comments and contact URLs get a single empty text where none is
    /// stored.
    pub fn into_internal(self) -> (settings: ChannelSettings)
        requires
            self.wf(),
        ensures
            settings.genre@ == item_or_empty(texts(self.genre@), 0),
            settings.desc@ == item_or_empty(texts(self.desc@), 0),
            settings.channel_content_history@.len() == longer(
                self.genre@.len(),
                self.desc@.len(),
            ) - 1,
            forall|i: int|
                0 <= i < settings.channel_content_history@.len() ==> (
                #[trigger] settings.channel_content_history@[i]).pair() == (
                    item_or_empty(texts(self.genre@), i + 1),
                    item_or_empty(texts(self.desc@), i + 1),
                ),
            texts(settings.comment@) == spec_at_least_one_value(texts(self.comment@)),
            texts(settings.contact_url@) == spec_at_least_one_value(texts(self.contact_url@)),
            settings.wf(),
    {
        let count: usize = if self.genre.len() >= self.desc.len() {
            self.genre.len()
        } else {
            self.desc.len()
        };
        let genre = text_at(&self.genre, 0);
        let desc = text_at(&self.desc, 0);
        let mut channel_content_history: Vec<ChannelContent> = Vec::new();
        let mut i: usize = 1;
        while i < count
            invariant
                1 <= i <= count,
                count == longer(self.genre@.len(), self.desc@.len()),
                channel_content_history@.len() == i - 1,
                forall|k: int|
                    0 <= k < channel_content_history@.len() ==> (
                    #[trigger] channel_content_history@[k]).pair() == (
                        item_or_empty(texts(self.genre@), k + 1),
                        item_or_empty(texts(self.desc@), k + 1),
                    ),
            decreases count - i,
        {
            let content = ChannelContent {
                genre: text_at(&self.genre, i),
                desc: text_at(&self.desc, i),
            };
            channel_content_history.push(content);
            i += 1;
        }
        ChannelSettings {
            channel_content_history,
            genre,
            desc,
            comment: at_least_one_value(self.comment),
            contact_url: at_least_one_value(self.contact_url),
        }
    }
}

/// The channel settings in the shape in which they are stored: the current
/// genre and description lead the lists of their histories.
#[derive(Debug)]
pub struct StoringChannelSettings<'a> {
    pub genre: Vec<&'a str>,
    pub desc: Vec<&'a str>,
    pub comment: &'a Vec<String>,
    pub contact_url: &'a Vec<String>,
}

impl<'a> StoringChannelSettings<'a> {
    /// Lays the settings out for storage: the current genre, then the
    /// genres of the history in order, and the descriptions likewise.
    pub fn from(settings: &'a ChannelSettings) -> (storing: Self)
        ensures
            storing.genre@.len() == settings.channel_content_history@.len() + 1,
            storing.desc@.len() == settings.channel_content_history@.len() + 1,
            storing.genre@[0]@ == settings.genre@,
            storing.desc@[0]@ == settings.desc@,
            forall|i: int|
                0 <= i < settings.channel_content_history@.len() ==> (
                #[trigger] storing.genre@[i + 1])@ == settings.channel_content_history@[i].genre@,
            forall|i: int|
                0 <= i < settings.channel_content_history@.len() ==> (
                #[trigger] storing.desc@[i + 1])@ == settings.channel_content_history@[i].desc@,
            storing.comment@ == settings.comment@,
            storing.contact_url@ == settings.contact_url@,
    {
        let mut genre: Vec<&'a str> = Vec::new();
        let mut desc: Vec<&'a str> = Vec::new();
        genre.push(settings.genre.as_str());
        desc.push(settings.desc.as_str());
        let mut i: usize = 0;
        while i < settings.channel_content_history.len()
            invariant
                i <= settings.channel_content_history@.len(),
                genre@.len() == i + 1,
                desc@.len() == i + 1,
                genre@[0]@ == settings.genre@,
                desc@[0]@ == settings.desc@,
                forall|k: int|
                    0 <= k < i ==> (#[trigger] genre@[k + 1])@
                        == settings.channel_content_history@[k].genre@,
                forall|k: int|
                    0 <= k < i ==> (#[trigger] desc@[k + 1])@
                        == settings.channel_content_history@[k].desc@,
            decreases settings.channel_content_history@.len() - i,
        {
            genre.push(settings.channel_content_history[i].genre.as_str());
            desc.push(settings.channel_content_history[i].desc.as_str());
            i += 1;
        }
        StoringChannelSettings {
            genre,
            desc,
            comment: &settings.comment,
            contact_url: &settings.contact_url,
        }
    }
}

/// Settings of features that the settings screen does not show.
#[derive(Clone, Debug)]
pub struct Hidden {
    pub fedimovie_email: Option<String>,
    pub fedimovie_password: Option<String>,
    /// The port of the stream redirect, where it is wanted; never 0.
    pub stream_redirect_port: Option<u16>,
    pub jpnkn_bbs_auto_comment: bool,
}

impl Default for Hidden {
    fn default() -> (hidden: Self)
        ensures
            hidden.fedimovie_email.is_none(),
            hidden.fedimovie_password.is_none(),
            hidden.stream_redirect_port.is_none(),
            !hidden.jpnkn_bbs_auto_comment,
    {
        Hidden {
            fedimovie_email: None,
            fedimovie_password: None,
            stream_redirect_port: None,
            jpnkn_bbs_auto_comment: false,
        }
    }
}

/// Logging, and the hidden settings where there are any.
#[derive(Clone, Debug)]
pub struct OtherSettings {
    pub log_enabled: bool,
    pub log_output_directory: String,
    pub hidden: Option<Hidden>,
}

impl OtherSettings {
    /// Whether comments of the bulletin board are to be followed.
    pub open spec fn auto_comment(self) -> bool {
        self.hidden matches Some(hidden) && hidden.jpnkn_bbs_auto_comment
    }

    /// Whether comments of the bulletin board are to be followed.
    pub fn wants_auto_comment(&self) -> (yes: bool)
        ensures
            yes == self.auto_comment(),
    {
        match &self.hidden {
            Some(hidden) => hidden.jpnkn_bbs_auto_comment,
            None => false,
        }
    }
}

impl Default for OtherSettings {
    fn default() -> (settings: Self)
        ensures
            !settings.log_enabled,
            settings.log_output_directory@.len() == 0,
            settings.hidden.is_none(),
    {
        OtherSettings { log_enabled: false, log_output_directory: String::new(), hidden: None }
    }
}

/// All settings.
#[derive(Clone, Debug)]
pub struct Settings {
    pub general_settings: GeneralSettings,
    pub yellow_pages_settings: YellowPagesSettings,
    pub channel_settings: ChannelSettings,
    pub other_settings: OtherSettings,
}

impl Settings {
    /// Every list that holds a current value has one, and the fixed ports
    /// are real ports.
    pub open spec fn wf(self) -> bool {
        self.general_settings.wf() && self.channel_settings.wf()
    }

    /// The current channel name.
    pub open spec fn channel_name(self) -> Seq<char>
        recommends
            self.wf(),
    {
        self.general_settings.channel_name@[0]@
    }
}

impl Default for Settings {
    fn default() -> (settings: Self)
        ensures
            settings.wf(),
            !settings.yellow_pages_settings.ipv4.configured(),
            !settings.yellow_pages_settings.ipv6.configured(),
            settings.general_settings.peer_cast_port == 7144,
            settings.general_settings.rtmp_listen_port == 1935,
    {
        Settings {
            general_settings: GeneralSettings::default(),
            yellow_pages_settings: YellowPagesSettings::default(),
            channel_settings: ChannelSettings::default(),
            other_settings: OtherSettings::default(),
        }
    }
}

/// All settings as they are read from storage.
#[derive(Debug)]
pub struct StoredSettings {
    pub general_settings: GeneralSettings,
    pub yellow_pages_settings: YellowPagesSettings,
    pub channel_settings: StoredChannelSettings,
    pub other_settings: OtherSettings,
}

impl StoredSettings {
    /// Turns what was read from storage into working settings: the channel
    /// name list gets a single empty text where it is empty, and the channel
    /// settings are paired up. The rest is kept as it is.
    pub fn into_internal(self) -> (settings: Settings)
        requires
            self.channel_settings.wf(),
        ensures
            texts(settings.general_settings.channel_name@) == spec_at_least_one_value(
                texts(self.general_settings.channel_name@),
            ),
            settings.general_settings.peer_cast_port == self.general_settings.peer_cast_port,
            settings.general_settings.peer_cast_rtmp_port
                == self.general_settings.peer_cast_rtmp_port,
            settings.general_settings.rtmp_listen_port == self.general_settings.rtmp_listen_port,
            settings.yellow_pages_settings == self.yellow_pages_settings,
            settings.other_settings == self.other_settings,
            settings.channel_settings.genre@ == item_or_empty(
                texts(self.channel_settings.genre@),
                0,
            ),
            settings.channel_settings.desc@ == item_or_empty(
                texts(self.channel_settings.desc@),
                0,
            ),
            settings.channel_settings.channel_content_history@.len() == longer(
                self.channel_settings.genre@.len(),
                self.channel_settings.desc@.len(),
            ) - 1,
            forall|i: int|
                0 <= i < settings.channel_settings.channel_content_history@.len() ==> (
                #[trigger] settings.channel_settings.channel_content_history@[i]).pair() == (
                    item_or_empty(texts(self.channel_settings.genre@), i + 1),
                    item_or_empty(texts(self.channel_settings.desc@), i + 1),
                ),
            texts(settings.channel_settings.comment@) == spec_at_least_one_value(
                texts(self.channel_settings.comment@),
            ),
            texts(settings.channel_settings.contact_url@) == spec_at_least_one_value(
                texts(self.channel_settings.contact_url@),
            ),
            settings.channel_settings.wf(),
            settings.general_settings.channel_name@.len() >= 1,
    {
        let general = self.general_settings;
        Settings {
            general_settings: GeneralSettings {
                peer_cast_port: general.peer_cast_port,
                peer_cast_rtmp_port: general.peer_cast_rtmp_port,
                channel_name: at_least_one_value(general.channel_name),
                rtmp_listen_port: general.rtmp_listen_port,
            },
            yellow_pages_settings: self.yellow_pages_settings,
            channel_settings: self.channel_settings.into_internal(),
            other_settings: self.other_settings,
        }
    }
}

/// All settings in the shape in which they are stored.
#[derive(Debug)]
pub struct StoringSettings<'a> {
    pub general_settings: &'a GeneralSettings,
    pub yellow_pages_settings: &'a YellowPagesSettings,
    pub channel_settings: StoringChannelSettings<'a>,
    pub other_settings: &'a OtherSettings,
}

impl<'a> StoringSettings<'a> {
    /// Lays the settings out for storage. Only the channel settings change
    /// their shape.
    pub fn from(settings: &'a Settings) -> (storing: Self)
        ensures
            *storing.general_settings == settings.general_settings,
            *storing.yellow_pages_settings == settings.yellow_pages_settings,
            *storing.other_settings == settings.other_settings,
            storing.channel_settings.genre@.len()
                == settings.channel_settings.channel_content_history@.len() + 1,
            storing.channel_settings.desc@.len()
                == settings.channel_settings.channel_content_history@.len() + 1,
            storing.channel_settings.genre@[0]@ == settings.channel_settings.genre@,
            storing.channel_settings.desc@[0]@ == settings.channel_settings.desc@,
            forall|i: int|
                0 <= i < settings.channel_settings.channel_content_history@.len() ==> (
                #[trigger] storing.channel_settings.genre@[i + 1])@
                    == settings.channel_settings.channel_content_history@[i].genre@,
            forall|i: int|
                0 <= i < settings.channel_settings.channel_content_history@.len() ==> (
                #[trigger] storing.channel_settings.desc@[i + 1])@
                    == settings.channel_settings.channel_content_history@[i].desc@,
            storing.channel_settings.comment@ == settings.channel_settings.comment@,
            storing.channel_settings.contact_url@ == settings.channel_settings.contact_url@,
    {
        StoringSettings {
            general_settings: &settings.general_settings,
            yellow_pages_settings: &settings.yellow_pages_settings,
            channel_settings: StoringChannelSettings::from(&settings.channel_settings),
            other_settings: &settings.other_settings,
        }
    }
}

} // verus!
