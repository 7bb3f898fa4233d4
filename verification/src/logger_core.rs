//! The lines of the listener log: a CSV file with the counts of both
//! stacks and what is said of the channel.
use crate::text::{decimal, decimal_string};
use crate::view_xml::{first_channel_at, ViewXml};
use vstd::prelude::*;
use vstd::string::StrSliceExecFns;
use vstd::string::StringExecFns;

verus! {

/// `column` with every double quote doubled.
pub open spec fn csv_column(column: Seq<char>) -> Seq<char>
    decreases column.len(),
{
    if column.len() == 0 {
        Seq::empty()
    } else if column.last() == '"' {
        csv_column(column.drop_last()).push('"').push('"')
    } else {
        csv_column(column.drop_last()).push(column.last())
    }
}

/// Writes `column` for a CSV line: every double quote is doubled.
pub fn to_csv_column(column: &str) -> (text: String)
    ensures
        text@ == csv_column(column@),
{
    let len = column.unicode_len();
    let mut text = String::new();
    let mut i: usize = 0;
    while i < len
        invariant
            i <= len,
            len == column@.len(),
            text@ == csv_column(column@.take(i as int)),
        decreases len - i,
    {
        let c = column.get_char(i);
        text.push(c);
        if c == '"' {
            text.push('"');
        }
        i += 1;
        proof {
            assert(column@.take(i as int).drop_last() =~= column@.take(i - 1));
            assert(column@.take(i as int).last() == c);
        }
    }
    assert(column@.take(i as int) =~= column@);
    text
}

/// A count in decimal, or nothing where there is none.
pub open spec fn count_text(count: Option<u32>) -> Seq<char> {
    match count {
        Some(n) => decimal(n as nat),
        None => Seq::empty(),
    }
}

/// The listeners of a pair of counts.
pub open spec fn listeners_of(counts: Option<(u32, u32)>) -> Option<u32> {
    match counts {
        Some(pair) => Some(pair.0),
        None => None,
    }
}

/// The relays of a pair of counts.
pub open spec fn relays_of(counts: Option<(u32, u32)>) -> Option<u32> {
    match counts {
        Some(pair) => Some(pair.1),
        None => None,
    }
}

/// One line of the log: the time, the listeners and relays of the IPv4
/// channel and of the IPv6 channel, the genre, the description and the
/// comment, with commas between them and a line feed at the end.
pub open spec fn csv_line(
    time: Seq<char>,
    ipv4_listeners_relays: Option<(u32, u32)>,
    ipv6_listeners_relays: Option<(u32, u32)>,
    genre: Seq<char>,
    description: Seq<char>,
    comment: Seq<char>,
) -> Seq<char> {
    time + seq![','] + count_text(listeners_of(ipv4_listeners_relays)) + seq![','] + count_text(
        relays_of(ipv4_listeners_relays),
    ) + seq![','] + count_text(listeners_of(ipv6_listeners_relays)) + seq![','] + count_text(
        relays_of(ipv6_listeners_relays),
    ) + seq![','] + csv_column(genre) + seq![','] + csv_column(description) + seq![',']
        + csv_column(comment) + seq!['\n']
}

fn push_count(line: &mut String, count: Option<u32>)
    ensures
        final(line)@ == old(line)@ + count_text(count),
{
    match count {
        Some(n) => {
            let digits = decimal_string(n as u64);
            line.append(digits.as_str());
        },
        None => {
            assert(line@ =~= line@ + Seq::<char>::empty());
        },
    }
}

/// Writes one line of the log. `time` is the time as the line is to show
/// it.
pub fn to_csv_line(
    time: &str,
    ipv4_listeners_relays: Option<(u32, u32)>,
    ipv6_listeners_relays: Option<(u32, u32)>,
    genre: &str,
    description: &str,
    comment: &str,
) -> (line: String)
    ensures
        line@ == csv_line(
            time@,
            ipv4_listeners_relays,
            ipv6_listeners_relays,
            genre@,
            description@,
            comment@,
        ),
{
    let mut line = String::from_str(time);
    line.push(',');
    push_count(
        &mut line,
        match ipv4_listeners_relays {
            Some(pair) => Some(pair.0),
            None => None,
        },
    );
    line.push(',');
    push_count(
        &mut line,
        match ipv4_listeners_relays {
            Some(pair) => Some(pair.1),
            None => None,
        },
    );
    line.push(',');
    push_count(
        &mut line,
        match ipv6_listeners_relays {
            Some(pair) => Some(pair.0),
            None => None,
        },
    );
    line.push(',');
    push_count(
        &mut line,
        match ipv6_listeners_relays {
            Some(pair) => Some(pair.1),
            None => None,
        },
    );
    line.push(',');
    let genre_column = to_csv_column(genre);
    line.append(genre_column.as_str());
    line.push(',');
    let description_column = to_csv_column(description);
    line.append(description_column.as_str());
    line.push(',');
    let comment_column = to_csv_column(comment);
    line.append(comment_column.as_str());
    line.push('\n');
    assert(line@ =~= csv_line(
        time@,
        ipv4_listeners_relays,
        ipv6_listeners_relays,
        genre@,
        description@,
        comment@,
    ));
    line
}

/// The file that a broadcast is logged to: in `directory`, named by the
/// time at which the broadcast began and the channel's name.
pub open spec fn log_path(directory: Seq<char>, time: Seq<char>, channel_name: Seq<char>) -> Seq<
    char,
> {
    directory + seq!['/'] + time + seq!['_'] + channel_name + ".csv"@
}

/// Names the file that a broadcast is logged to. `time` is the time at
/// which the broadcast began, as the name is to show it.
pub fn log_file_path(directory: &str, time: &str, channel_name: &str) -> (path: String)
    ensures
        path@ == log_path(directory@, time@, channel_name@),
{
    let mut path = String::from_str(directory);
    path.push('/');
    path.append(time);
    path.push('_');
    path.append(channel_name);
    path.append(".csv");
    assert(path@ =~= log_path(directory@, time@, channel_name@));
    path
}

/// The counts of one channel in the status document, where the channel is
/// given and the document knows it.
pub open spec fn counted(view_xml: ViewXml, channel_id: Option<&str>, counts: Option<(u32, u32)>) -> bool {
    match channel_id {
        None => counts.is_none(),
        Some(id) => {
            &&& counts.is_some() == view_xml.knows(id@)
            &&& counts matches Some(pair) ==> exists|i: int|
                first_channel_at(view_xml.channels(), id@, i) && pair.0
                    == view_xml.channels()[i].listeners() && pair.1
                    == view_xml.channels()[i].relays()
        },
    }
}

/// The listeners and relays of the IPv4 channel and of the IPv6 channel, as
/// the status document counts them. A stack without a channel has none, nor
/// has a channel that the document does not know.
pub fn find_listeners_relays(
    view_xml: &ViewXml,
    ipv4_channel_id: Option<&str>,
    ipv6_channel_id: Option<&str>,
) -> (counts: (Option<(u32, u32)>, Option<(u32, u32)>))
    requires
        view_xml.wf(),
    ensures
        counted(*view_xml, ipv4_channel_id, counts.0),
        counted(*view_xml, ipv6_channel_id, counts.1),
{
    let ipv4 = match ipv4_channel_id {
        Some(id) => view_xml.find_listeners_relays(id),
        None => None,
    };
    let ipv6 = match ipv6_channel_id {
        Some(id) => view_xml.find_listeners_relays(id),
        None => None,
    };
    (ipv4, ipv6)
}

} // verus!
