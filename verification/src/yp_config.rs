//! The static description of a directory, and the genre text that a
//! directory reads its parameters from.
use crate::settings::EachYellowPagesSettings;
use crate::text::str_eq;
use vstd::prelude::*;
use vstd::string::StringExecFns;

verus! {

/// What is known of one directory before anything is announced to it.
#[derive(Clone, Debug)]
pub struct YPConfig {
    pub name: String,
    pub terms_url: String,
    /// The CSS selector of the part of the terms page that counts, where
    /// not the whole page does.
    pub terms_selector: Option<String>,
    /// Set where the directory's terms need no agreement.
    pub ignore_terms_check: bool,
    pub host: String,
    pub support_ipv6: bool,
    /// What every genre announced to this directory starts with.
    pub prefix_header: String,
    /// The names of the parameters that the directory reads from a genre.
    pub supported_params: Vec<String>,
}

/// `mark` written `count` times.
pub open spec fn repeated(mark: char, count: nat) -> Seq<char> {
    Seq::new(count, |i: int| mark)
}

impl YPConfig {
    /// Whether the directory reads the parameter called `feature`.
    pub open spec fn supports(self, feature: Seq<char>) -> bool {
        exists|i: int|
            0 <= i < self.supported_params@.len() && (#[trigger] self.supported_params@[i])@
                == feature
    }

    /// The namespace and a colon, where namespaces are read and one is set.
    pub open spec fn namespace_part(self, settings: EachYellowPagesSettings) -> Seq<char> {
        if self.supports("namespace"@) && settings.namespace@.len() > 0 {
            settings.namespace@.push(':')
        } else {
            Seq::empty()
        }
    }

    /// A question mark, where listeners can be hidden and are to be.
    pub open spec fn hide_listeners_part(self, settings: EachYellowPagesSettings) -> Seq<char> {
        if self.supports("hide_listeners"@) && settings.hide_listeners {
            seq!['?']
        } else {
            Seq::empty()
        }
    }

    /// One at sign for each level of the bandwidth check, where it is read.
    pub open spec fn bandwidth_part(self, settings: EachYellowPagesSettings) -> Seq<char> {
        if self.supports("port_bandwidth_check"@) {
            repeated('@', settings.port_bandwidth_check as nat)
        } else {
            Seq::empty()
        }
    }

    /// A plus sign, where logging can be switched off and is.
    pub open spec fn no_log_part(self, settings: EachYellowPagesSettings) -> Seq<char> {
        if self.supports("no_log"@) && settings.no_log {
            seq!['+']
        } else {
            Seq::empty()
        }
    }

    /// The icon, where icons are read.
    pub open spec fn icon_part(self, settings: EachYellowPagesSettings) -> Seq<char> {
        if self.supports("icon"@) {
            settings.icon@
        } else {
            Seq::empty()
        }
    }

    /// The genre as it is announced to this directory: the prefix header,
    /// the parameters that the directory reads, each in its own notation and
    /// in a fixed order, the genre itself, and the icon.
    pub open spec fn genre_text(self, genre: Seq<char>, settings: EachYellowPagesSettings) -> Seq<
        char,
    > {
        self.prefix_header@ + self.namespace_part(settings) + self.hide_listeners_part(settings)
            + self.bandwidth_part(settings) + self.no_log_part(settings) + genre + self.icon_part(
            settings,
        )
    }

    /// Whether the directory reads the parameter called `feature`.
    pub fn supported(&self, feature: &str) -> (yes: bool)
        ensures
            yes == self.supports(feature@),
    {
        let mut i: usize = 0;
        while i < self.supported_params.len()
            invariant
                i <= self.supported_params@.len(),
                forall|k: int| 0 <= k < i ==> (#[trigger] self.supported_params@[k])@ != feature@,
            decreases self.supported_params@.len() - i,
        {
            if str_eq(self.supported_params[i].as_str(), feature) {
                return true;
            }
            i += 1;
        }
        false
    }

    /// Writes the genre as it is announced to this directory.
    pub fn genre_full_text(&self, genre: &str, settings: &EachYellowPagesSettings) -> (text:
        String)
        ensures
            text@ == self.genre_text(genre@, *settings),
    {
        let mut text = self.prefix_header.clone();
        if self.supported("namespace") && !settings.namespace.as_str().is_empty() {
            text.append(settings.namespace.as_str());
            text.push(':');
        }
        assert(text@ =~= self.prefix_header@ + self.namespace_part(*settings));
        if self.supported("hide_listeners") && settings.hide_listeners {
            text.push('?');
        }
        assert(text@ =~= self.prefix_header@ + self.namespace_part(*settings)
            + self.hide_listeners_part(*settings));
        let ghost before = text@;
        if self.supported("port_bandwidth_check") {
            let mut level: u8 = 0;
            while level < settings.port_bandwidth_check
                invariant
                    level <= settings.port_bandwidth_check,
                    text@ == before + repeated('@', level as nat),
                decreases settings.port_bandwidth_check - level,
            {
                text.push('@');
                level += 1;
                assert(text@ =~= before + repeated('@', level as nat));
            }
        }
        assert(text@ =~= before + self.bandwidth_part(*settings));
        if self.supported("no_log") && settings.no_log {
            text.push('+');
        }
        assert(text@ =~= before + self.bandwidth_part(*settings) + self.no_log_part(*settings));
        text.append(genre);
        if self.supported("icon") {
            text.append(settings.icon.as_str());
        }
        assert(text@ =~= self.genre_text(genre@, *settings));
        text
    }
}

/// Whether entry `i` of `configs` is the first one for the directory at
/// `host`.
pub open spec fn first_config_at(configs: Seq<YPConfig>, host: Seq<char>, i: int) -> bool {
    &&& 0 <= i < configs.len()
    &&& configs[i].host@ == host
    &&& forall|k: int| 0 <= k < i ==> (#[trigger] configs[k]).host@ != host
}

/// Whether `configs` describes the directory at `host`.
pub open spec fn has_config(configs: Seq<YPConfig>, host: Seq<char>) -> bool {
    exists|i: int| 0 <= i < configs.len() && (#[trigger] configs[i]).host@ == host
}

/// The first description of the directory at `host`.
pub open spec fn config_of(configs: Seq<YPConfig>, host: Seq<char>) -> YPConfig
    recommends
        has_config(configs, host),
{
    configs[choose|i: int| first_config_at(configs, host, i)]
}

/// The first description of the directory at `host`, where there is one.
pub fn find_config<'a>(configs: &'a [YPConfig], host: &str) -> (found: Option<&'a YPConfig>)
    ensures
        found.is_some() == has_config(configs@, host@),
        found matches Some(config) ==> *config == config_of(configs@, host@),
{
    let mut i: usize = 0;
    while i < configs.len()
        invariant
            i <= configs@.len(),
            forall|k: int| 0 <= k < i ==> (#[trigger] configs@[k]).host@ != host@,
        decreases configs@.len() - i,
    {
        if str_eq(configs[i].host.as_str(), host) {
            proof {
                assert(first_config_at(configs@, host@, i as int));
                let j = choose|j: int| first_config_at(configs@, host@, j);
                assert(first_config_at(configs@, host@, j));
                assert(j == i) by {
                    if j < i {
                        assert(configs@[j].host@ != host@);
                    } else if i < j {
                        assert(configs@[i as int].host@ != host@);
                    }
                }
            }
            return Some(&configs[i]);
        }
        i += 1;
    }
    None
}

} // verus!
