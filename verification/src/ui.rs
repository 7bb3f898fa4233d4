//! What the user interface shows of the orchestration, and what it reports.
use crate::contact_status::ContactStatus;
use crate::settings::{
    ChannelSettings, GeneralSettings, OtherSettings, Settings, YellowPagesSettings,
};
use crate::text::str_eq;
use crate::yp_config::YPConfig;
use vstd::prelude::*;
use vstd::string::StringExecFns;

verus! {

/// What the user interface reports: the data it starts with is asked of the
/// delegate, and every change of the settings is handed to it.
pub trait UiDelegate {
    fn initial_data(&self) -> (Vec<YPConfig>, Settings, ContactStatus);

    fn on_change_general_settings(&self, general_settings: GeneralSettings);

    fn on_change_yellow_pages_settings(&self, yellow_pages_settings: YellowPagesSettings);

    fn on_change_channel_settings(&self, channel_settings: ChannelSettings);

    fn on_change_other_settings(&self, other_settings: OtherSettings);
}

/// What the window reports: as `UiDelegate`, and that it has been built.
pub trait WindowDelegate {
    fn on_build_app(&self);

    fn initial_data(&self) -> (Vec<YPConfig>, Settings, ContactStatus);

    fn on_change_general_settings(&self, general_settings: GeneralSettings);

    fn on_change_yellow_pages_settings(&self, yellow_pages_settings: YellowPagesSettings);

    fn on_change_channel_settings(&self, channel_settings: ChannelSettings);

    fn on_change_other_settings(&self, other_settings: OtherSettings);
}

/// What the window's title is made of: the state of the ingest, which is
/// "idle", "listening" or "streaming", and the channel's name.
#[derive(Debug)]
pub struct Title {
    pub rtmp: String,
    pub channel_name: String,
}

impl Default for Title {
    fn default() -> (title: Self)
        ensures
            title.rtmp@.len() == 0,
            title.channel_name@.len() == 0,
    {
        Title { rtmp: String::new(), channel_name: String::new() }
    }
}

/// Whether `rtmp` names a state of the ingest.
pub open spec fn is_ingest_state(rtmp: Seq<char>) -> bool {
    rtmp == "idle"@ || rtmp == "listening"@ || rtmp == "streaming"@
}

/// The mark of a state of the ingest.
pub open spec fn ingest_mark(rtmp: Seq<char>) -> char {
    if rtmp == "idle"@ {
        '×'
    } else if rtmp == "listening"@ {
        '○'
    } else {
        '●'
    }
}

impl Title {
    /// The title: the mark of the ingest's state, and the channel's name.
    pub fn to_string(&self) -> (text: String)
        requires
            is_ingest_state(self.rtmp@),
        ensures
            text@ == seq![ingest_mark(self.rtmp@)] + self.channel_name@,
    {
        let mark = if str_eq(self.rtmp.as_str(), "idle") {
            '×'
        } else if str_eq(self.rtmp.as_str(), "listening") {
            '○'
        } else {
            '●'
        };
        let mut text = String::new();
        text.push(mark);
        text.append(self.channel_name.as_str());
        assert(text@ =~= seq![ingest_mark(self.rtmp@)] + self.channel_name@);
        text
    }
}

} // verus!
