//! The histories that the settings keep of what was broadcast: the current
//! value first, then earlier values, most recent first.
use crate::settings::{pairs, texts, ChannelContent, Settings};
use crate::text::str_eq;
use vstd::prelude::*;
use vstd::string::StringExecFns;

verus! {

/// What `str::trim` leaves of a text: the text without the white space at
/// its start and at its end.
pub uninterp spec fn trimmed(text: Seq<char>) -> Seq<char>;

/// `str::trim` returns the text without leading and trailing white space.
pub assume_specification[ str::trim ](text: &str) -> (rest: &str)
    ensures
        rest@ == trimmed(text@),
;

/// Whether a text is empty but for white space at its ends.
pub open spec fn blank(text: Seq<char>) -> bool {
    trimmed(text).len() == 0
}

/// The items of `list` that are not `working`, in order.
pub open spec fn others<T>(list: Seq<T>, working: T) -> Seq<T>
    decreases list.len(),
{
    if list.len() == 0 {
        Seq::empty()
    } else if list.last() == working {
        others(list.drop_last(), working)
    } else {
        others(list.drop_last(), working).push(list.last())
    }
}

/// The texts of `list` that are not blank, in order.
pub open spec fn filled(list: Seq<Seq<char>>) -> Seq<Seq<char>>
    decreases list.len(),
{
    if list.len() == 0 {
        Seq::empty()
    } else if blank(list.last()) {
        filled(list.drop_last())
    } else {
        filled(list.drop_last()).push(list.last())
    }
}

/// The pairs of `list` that are not empty on both sides, in order.
pub open spec fn told(list: Seq<(Seq<char>, Seq<char>)>) -> Seq<(Seq<char>, Seq<char>)>
    decreases list.len(),
{
    if list.len() == 0 {
        Seq::empty()
    } else if list.last().0.len() == 0 && list.last().1.len() == 0 {
        told(list.drop_last())
    } else {
        told(list.drop_last()).push(list.last())
    }
}

/// The first `limit` items of `list`, or all of them where there are fewer.
pub open spec fn first_few<T>(list: Seq<T>, limit: nat) -> Seq<T> {
    if list.len() <= limit {
        list
    } else {
        list.take(limit as int)
    }
}

/// The current value, and then the history of at most `limit` values: the
/// current value and after it the earlier values that differ from it, of
/// all of which the blank ones are left out.
pub open spec fn spec_updated_value_with_history(history: Seq<Seq<char>>, limit: nat) -> Seq<
    Seq<char>,
>
    recommends
        history.len() >= 1,
{
    seq![history[0]] + first_few(
        filled(seq![history[0]] + others(history.skip(1), history[0])),
        limit,
    )
}

/// The history of at most `limit` pairs of a genre and a description: the
/// current pair and after it the earlier pairs that differ from it, of all
/// of which those empty on both sides are left out.
pub open spec fn spec_updated_channel_content_history(
    history: Seq<(Seq<char>, Seq<char>)>,
    genre: Seq<char>,
    desc: Seq<char>,
    limit: nat,
) -> Seq<(Seq<char>, Seq<char>)> {
    first_few(told(seq![(genre, desc)] + others(history, (genre, desc))), limit)
}

/// Brings a list of a current value and its history up to date. The
/// current value stays in front, whatever it is. It is then entered into the
/// history, in front of the earlier values, without those that repeat it;
/// blank values are left out, and the history is cut to `limit` values.
pub fn updated_value_with_history(history: Vec<String>, limit: usize) -> (updated: Vec<String>)
    requires
        history@.len() >= 1,
    ensures
        texts(updated@) == spec_updated_value_with_history(texts(history@), limit as nat),
        updated@.len() >= 1,
{
    let ghost all = texts(history@);
    let ghost working = all[0];
    let ghost rest = all.skip(1);
    let mut updated: Vec<String> = Vec::new();
    updated.push(history[0].clone());
    let mut count: usize = 0;
    let ghost mut chosen: Seq<Seq<char>> = seq![working];
    proof {
        assert(chosen.drop_last() =~= Seq::<Seq<char>>::empty());
        assert(filled(chosen.drop_last()) =~= Seq::<Seq<char>>::empty());
        assert(rest.take(0) =~= Seq::<Seq<char>>::empty());
        assert(chosen =~= seq![working] + others(rest.take(0), working));
    }
    if !history[0].as_str().trim().is_empty() && count < limit {
        updated.push(history[0].clone());
        count += 1;
    }
    assert(texts(updated@) =~= seq![working] + first_few(filled(chosen), limit as nat));
    let mut i: usize = 1;
    while i < history.len()
        invariant
            1 <= i <= history@.len(),
            all == texts(history@),
            working == all[0],
            rest == all.skip(1),
            chosen == seq![working] + others(rest.take(i - 1), working),
            texts(updated@) == seq![working] + first_few(filled(chosen), limit as nat),
            count == first_few(filled(chosen), limit as nat).len(),
            count <= limit,
            updated@.len() == count + 1,
        decreases history@.len() - i,
    {
        let ghost item = all[i as int];
        let ghost before_chosen = chosen;
        let ghost before = texts(updated@);
        proof {
            assert(rest.take(i as int).drop_last() =~= rest.take(i - 1));
            assert(rest.take(i as int).last() == item);
        }
        if !str_eq(history[i].as_str(), history[0].as_str()) {
            proof {
                chosen = chosen.push(item);
                assert(chosen =~= seq![working] + others(rest.take(i as int), working));
                assert(chosen.drop_last() =~= before_chosen);
            }
            if !history[i].as_str().trim().is_empty() && count < limit {
                updated.push(history[i].clone());
                count += 1;
                assert(texts(updated@) =~= before.push(item));
            }
            assert(texts(updated@) =~= seq![working] + first_few(filled(chosen), limit as nat));
        }
        i += 1;
    }
    assert(rest.take(i - 1) =~= rest);
    updated
}

/// Brings the history of genres and descriptions up to date: the current
/// pair is entered in front of the earlier pairs, without those that repeat
/// it; pairs that are empty on both sides are left out, and the history is
/// cut to `limit` pairs.
pub fn updated_channel_content_history(
    history: Vec<ChannelContent>,
    genre: &str,
    desc: &str,
    limit: usize,
) -> (updated: Vec<ChannelContent>)
    ensures
        pairs(updated@) == spec_updated_channel_content_history(
            pairs(history@),
            genre@,
            desc@,
            limit as nat,
        ),
{
    let ghost all = pairs(history@);
    let ghost working = (genre@, desc@);
    let mut updated: Vec<ChannelContent> = Vec::new();
    let mut count: usize = 0;
    let ghost mut chosen: Seq<(Seq<char>, Seq<char>)> = seq![working];
    proof {
        assert(chosen.drop_last() =~= Seq::<(Seq<char>, Seq<char>)>::empty());
        assert(told(chosen.drop_last()) =~= Seq::<(Seq<char>, Seq<char>)>::empty());
        assert(all.take(0) =~= Seq::<(Seq<char>, Seq<char>)>::empty());
        assert(chosen =~= seq![working] + others(all.take(0), working));
    }
    if !(genre.is_empty() && desc.is_empty()) && count < limit {
        updated.push(
            ChannelContent {
                genre: String::from_str(genre),
                desc: String::from_str(desc),
            },
        );
        count += 1;
    }
    assert(pairs(updated@) =~= first_few(told(chosen), limit as nat));
    let mut i: usize = 0;
    while i < history.len()
        invariant
            i <= history@.len(),
            all == pairs(history@),
            working == (genre@, desc@),
            chosen == seq![working] + others(all.take(i as int), working),
            pairs(updated@) == first_few(told(chosen), limit as nat),
            count == updated@.len(),
            count <= limit,
        decreases history@.len() - i,
    {
        let ghost item = all[i as int];
        let ghost before_chosen = chosen;
        let ghost before = pairs(updated@);
        proof {
            assert(all.take(i + 1).drop_last() =~= all.take(i as int));
            assert(all.take(i + 1).last() == item);
        }
        let entry = &history[i];
        let same = str_eq(entry.genre.as_str(), genre) && str_eq(entry.desc.as_str(), desc);
        assert(same == (item == working));
        if !same {
            proof {
                chosen = chosen.push(item);
                assert(chosen =~= seq![working] + others(all.take(i + 1), working));
                assert(chosen.drop_last() =~= before_chosen);
            }
            if !entry.is_blank() && count < limit {
                updated.push(entry.duplicate());
                count += 1;
                assert(pairs(updated@) =~= before.push(item));
            }
            assert(pairs(updated@) =~= first_few(told(chosen), limit as nat));
        }
        i += 1;
    }
    assert(all.take(i as int) =~= all);
    updated
}

/// Enters what is being broadcast into the histories of the settings: the
/// channel name and the contact URL keep 5 values, the comment and the
/// pairs of genre and description 20.
pub fn update_histories(settings: &mut Settings)
    requires
        old(settings).wf(),
    ensures
        final(settings).wf(),
        texts(final(settings).general_settings.channel_name@) == spec_updated_value_with_history(
            texts(old(settings).general_settings.channel_name@),
            5,
        ),
        pairs(final(settings).channel_settings.channel_content_history@)
            == spec_updated_channel_content_history(
            pairs(old(settings).channel_settings.channel_content_history@),
            old(settings).channel_settings.genre@,
            old(settings).channel_settings.desc@,
            20,
        ),
        texts(final(settings).channel_settings.comment@) == spec_updated_value_with_history(
            texts(old(settings).channel_settings.comment@),
            20,
        ),
        texts(final(settings).channel_settings.contact_url@) == spec_updated_value_with_history(
            texts(old(settings).channel_settings.contact_url@),
            5,
        ),
        final(settings).general_settings.peer_cast_port == old(
            settings,
        ).general_settings.peer_cast_port,
        final(settings).general_settings.peer_cast_rtmp_port == old(
            settings,
        ).general_settings.peer_cast_rtmp_port,
        final(settings).general_settings.rtmp_listen_port == old(
            settings,
        ).general_settings.rtmp_listen_port,
        final(settings).channel_settings.genre == old(settings).channel_settings.genre,
        final(settings).channel_settings.desc == old(settings).channel_settings.desc,
        final(settings).yellow_pages_settings == old(settings).yellow_pages_settings,
        final(settings).other_settings == old(settings).other_settings,
{
    let mut channel_name: Vec<String> = Vec::new();
    core::mem::swap(&mut channel_name, &mut settings.general_settings.channel_name);
    settings.general_settings.channel_name = updated_value_with_history(channel_name, 5);

    let mut contents: Vec<ChannelContent> = Vec::new();
    core::mem::swap(&mut contents, &mut settings.channel_settings.channel_content_history);
    settings.channel_settings.channel_content_history = updated_channel_content_history(
        contents,
        settings.channel_settings.genre.as_str(),
        settings.channel_settings.desc.as_str(),
        20,
    );

    let mut comment: Vec<String> = Vec::new();
    core::mem::swap(&mut comment, &mut settings.channel_settings.comment);
    settings.channel_settings.comment = updated_value_with_history(comment, 20);

    let mut contact_url: Vec<String> = Vec::new();
    core::mem::swap(&mut contact_url, &mut settings.channel_settings.contact_url);
    settings.channel_settings.contact_url = updated_value_with_history(contact_url, 5);
}

} // verus!
