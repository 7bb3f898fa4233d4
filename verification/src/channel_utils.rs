//! The names, sources and descriptions that a channel is started with.
use crate::pecast_adapter::{pages, Info};
use crate::settings::ChannelSettings;
use crate::text::{decimal, decimal_string, str_eq};
use vstd::prelude::*;
use vstd::string::StringExecFns;

verus! {

/// The address under which the engine lists a directory announced as
/// `pcp://<host>`: the engine appends a slash.
pub open spec fn listed_uri(host: Seq<char>) -> Seq<char> {
    "pcp://"@ + host + "/"@
}

/// Whether entry `i` of `list` is the first one listed under `host`.
pub open spec fn first_listed_at(list: Seq<(i32, Seq<char>)>, host: Seq<char>, i: int) -> bool {
    &&& 0 <= i < list.len()
    &&& list[i].1 == listed_uri(host)
    &&& forall|k: int| 0 <= k < i ==> (#[trigger] list[k]).1 != listed_uri(host)
}

/// Whether some entry of `list` is listed under `host`.
pub open spec fn is_listed(list: Seq<(i32, Seq<char>)>, host: Seq<char>) -> bool {
    exists|i: int| 0 <= i < list.len() && (#[trigger] list[i]).1 == listed_uri(host)
}

/// The id of the first entry of `list` that is listed under `host`.
pub open spec fn listed_id(list: Seq<(i32, Seq<char>)>, host: Seq<char>) -> Option<i32> {
    if is_listed(list, host) {
        Some(list[choose|i: int| first_listed_at(list, host, i)].0)
    } else {
        None
    }
}

/// The id of the first directory that the engine lists under `yp_host`.
pub fn find_id(yp_list: &[(i32, String)], yp_host: &str) -> (found: Option<i32>)
    ensures
        found == listed_id(pages(yp_list@), yp_host@),
{
    let mut wanted = String::from_str("pcp://");
    wanted.append(yp_host);
    wanted.append("/");
    let ghost list = pages(yp_list@);
    let mut i: usize = 0;
    while i < yp_list.len()
        invariant
            i <= yp_list@.len(),
            list == pages(yp_list@),
            wanted@ == listed_uri(yp_host@),
            forall|k: int| 0 <= k < i ==> (#[trigger] list[k]).1 != listed_uri(yp_host@),
        decreases yp_list@.len() - i,
    {
        if str_eq(yp_list[i].1.as_str(), wanted.as_str()) {
            proof {
                assert(list[i as int].1 == listed_uri(yp_host@));
                assert(first_listed_at(list, yp_host@, i as int));
                let j = choose|j: int| first_listed_at(list, yp_host@, j);
                assert(first_listed_at(list, yp_host@, j));
                assert(j == i) by {
                    if j < i {
                        assert(list[j].1 != listed_uri(yp_host@));
                    } else if i < j {
                        assert(list[i as int].1 != listed_uri(yp_host@));
                    }
                }
            }
            return Some(yp_list[i].0);
        }
        i += 1;
    }
    assert(!is_listed(list, yp_host@)) by {
        if is_listed(list, yp_host@) {
            let k = choose|k: int| 0 <= k < list.len() && (#[trigger] list[k]).1 == listed_uri(yp_host@);
            assert(list[k].1 != listed_uri(yp_host@));
        }
    }
    None
}

/// What is announced of a channel called `channel_name`: the given genre,
/// the description, and the current contact URL and comment of the settings.
/// The content is always announced as FLV, with no bitrate.
pub fn info(channel_name: &str, genre: &str, channel_settings: &ChannelSettings) -> (info: Info)
    requires
        channel_settings.wf(),
    ensures
        info.name@ == channel_name@,
        info.url@ == channel_settings.contact_url@[0]@,
        info.bitrate.is_none(),
        info.mime_type@ == "FLV"@,
        info.genre@ == genre@,
        info.desc@ == channel_settings.desc@,
        info.comment@ == channel_settings.comment@[0]@,
{
    Info {
        name: String::from_str(channel_name),
        url: channel_settings.contact_url[0].clone(),
        bitrate: None,
        mime_type: String::from_str("FLV"),
        genre: String::from_str(genre),
        desc: channel_settings.desc.clone(),
        comment: channel_settings.comment[0].clone(),
    }
}

/// The name of the IPv6 channel: the channel's name, marked where an IPv4
/// channel stands beside it.
pub open spec fn spec_ipv6_channel_name(channel_name: Seq<char>, beside_ipv4: bool) -> Seq<char> {
    if beside_ipv4 {
        channel_name + " (IPv6)"@
    } else {
        channel_name
    }
}

/// The name of the IPv6 channel. It carries the mark " (IPv6)" exactly
/// where `ipv4_id` holds something.
pub fn ipv6_channel_name<T>(channel_name: &str, ipv4_id: &Option<T>) -> (name: String)
    ensures
        name@ == spec_ipv6_channel_name(channel_name@, ipv4_id.is_some()),
{
    let mut name = String::from_str(channel_name);
    if ipv4_id.is_some() {
        name.append(" (IPv6)");
    }
    name
}

/// The address at which the engine reads the publisher's stream.
pub open spec fn rtmp_source_uri(port: u16) -> Seq<char> {
    "rtmp://localhost:"@ + decimal(port as nat) + "/live/livestream"@
}

/// The address under which the engine relays its own channel `id`.
pub open spec fn loopback_uri(id: Seq<char>) -> Seq<char> {
    "loopback:"@ + id
}

/// The source that reads the publisher's stream from the engine's RTMP port
/// `rtmp_conn_port`: the name of the source kind, and the address.
pub fn rtmp_source(rtmp_conn_port: u16) -> (source: (&'static str, String))
    ensures
        source.0@ == "RTMP Source"@,
        source.1@ == rtmp_source_uri(rtmp_conn_port),
{
    let mut uri = String::from_str("rtmp://localhost:");
    let port = decimal_string(rtmp_conn_port as u64);
    uri.append(port.as_str());
    uri.append("/live/livestream");
    ("RTMP Source", uri)
}

/// The source that relays the engine's own channel `id`: the name of the
/// source kind, and the address.
pub fn loopback(id: &str) -> (source: (&'static str, String))
    ensures
        source.0@ == "他のチャンネル"@,
        source.1@ == loopback_uri(id@),
{
    let mut uri = String::from_str("loopback:");
    uri.append(id);
    ("他のチャンネル", uri)
}

} // verus!
