//! The messages that the bulletin board publishes: one text of five parts
//! with the mark `<>` between them.
use crate::settings::texts;
use vstd::prelude::*;
use vstd::string::StrSliceExecFns;
use vstd::string::StringExecFns;

verus! {

/// Whether the mark `<>` stands at `i` in `text`.
pub open spec fn mark_at(text: Seq<char>, i: int) -> bool {
    0 <= i && i + 1 < text.len() && text[i] == '<' && text[i + 1] == '>'
}

/// The index of the first mark of `text` at or after `from`, or the length
/// of `text` where there is none.
pub open spec fn next_mark(text: Seq<char>, from: int) -> int
    decreases text.len() - from,
{
    if from < 0 || from + 1 >= text.len() {
        text.len() as int
    } else if mark_at(text, from) {
        from
    } else {
        next_mark(text, from + 1)
    }
}

/// The first mark at or after `from` stands at or after `from`, and within
/// `text`.
pub proof fn lemma_next_mark_bounds(text: Seq<char>, from: int)
    requires
        0 <= from <= text.len(),
    ensures
        from <= next_mark(text, from) <= text.len(),
        next_mark(text, from) < text.len() ==> mark_at(text, next_mark(text, from)),
    decreases text.len() - from,
{
    if from + 1 < text.len() && !mark_at(text, from) {
        lemma_next_mark_bounds(text, from + 1);
    }
}

/// The parts of `text` from `from` on: what stands before the first mark,
/// and then the parts of what follows that mark.
pub open spec fn parts_from(text: Seq<char>, from: int) -> Seq<Seq<char>>
    decreases text.len() - from,
    when 0 <= from <= text.len()
    via parts_from_decreases
{
    let at = next_mark(text, from);
    if at >= text.len() {
        seq![text.subrange(from, text.len() as int)]
    } else {
        seq![text.subrange(from, at)] + parts_from(text, at + 2)
    }
}

#[via_fn]
proof fn parts_from_decreases(text: Seq<char>, from: int) {
    lemma_next_mark_bounds(text, from);
}

/// The parts of `text` between its marks, from left to right.
pub open spec fn parts(text: Seq<char>) -> Seq<Seq<char>> {
    parts_from(text, 0)
}

/// Splits `text` at its marks.
pub fn split_at_marks(text: &str) -> (pieces: Vec<String>)
    ensures
        texts(pieces@) == parts(text@),
        pieces@.len() >= 1,
{
    let len = text.unicode_len();
    let mut pieces: Vec<String> = Vec::new();
    let mut start: usize = 0;
    let mut i: usize = 0;
    let last: usize = if len == 0 {
        0
    } else {
        len - 1
    };
    while i < last
        invariant
            len == text@.len(),
            last + 1 == len || (last == 0 && len == 0),
            start <= i <= len,
            texts(pieces@) + parts_from(text@, start as int) == parts(text@),
            next_mark(text@, start as int) == next_mark(text@, i as int),
        decreases len - i,
    {
        if text.get_char(i) == '<' && text.get_char(i + 1) == '>' {
            let ghost before = texts(pieces@);
            proof {
                assert(mark_at(text@, i as int));
                assert(next_mark(text@, start as int) == i);
            }
            pieces.push(String::from_str(text.substring_char(start, i)));
            proof {
                assert(texts(pieces@) =~= before.push(text@.subrange(start as int, i as int)));
                assert(texts(pieces@) + parts_from(text@, i + 2) =~= before + parts_from(
                    text@,
                    start as int,
                ));
            }
            start = i + 2;
            i = i + 2;
        } else {
            assert(!mark_at(text@, i as int));
            i += 1;
        }
    }
    proof {
        lemma_no_mark_at_the_end(text@, i as int);
        assert(next_mark(text@, start as int) == text@.len());
    }
    let ghost before = texts(pieces@);
    pieces.push(String::from_str(text.substring_char(start, len)));
    proof {
        assert(texts(pieces@) =~= before.push(text@.subrange(start as int, len as int)));
        assert(texts(pieces@) =~= before + parts_from(text@, start as int));
    }
    pieces
}

/// No mark begins at the last character of a text, or behind it.
pub proof fn lemma_no_mark_at_the_end(text: Seq<char>, from: int)
    requires
        from + 1 >= text.len(),
    ensures
        next_mark(text, from) == text.len(),
{
}

/// A message as the bulletin board publishes it.
#[derive(Clone, Debug)]
pub struct JpnknBbsMqttItem {
    pub body: String,
    pub no: String,
    pub bbsid: String,
    pub threadkey: String,
}

/// The parts of a message's body.
#[derive(Clone, Debug)]
pub struct JpnknBbsMqttItemBody {
    pub name: String,
    pub email: String,
    pub date: String,
    pub message: String,
    pub unknown: String,
}

impl JpnknBbsMqttItem {
    /// Whether the body has the five parts of a message.
    pub open spec fn wf(self) -> bool {
        parts(self.body@).len() >= 5
    }

    /// Whether the body has the five parts of a message.
    pub fn is_wf(&self) -> (yes: bool)
        ensures
            yes == self.wf(),
    {
        split_at_marks(self.body.as_str()).len() >= 5
    }

    /// The first five parts of the body: the name, the address, the date,
    /// the message, and one more.
    pub fn body(&self) -> (body: JpnknBbsMqttItemBody)
        requires
            self.wf(),
        ensures
            body.name@ == parts(self.body@)[0],
            body.email@ == parts(self.body@)[1],
            body.date@ == parts(self.body@)[2],
            body.message@ == parts(self.body@)[3],
            body.unknown@ == parts(self.body@)[4],
    {
        let data = split_at_marks(self.body.as_str());
        assert(forall|i: int| 0 <= i < data@.len() ==> texts(data@)[i] == data@[i]@);
        JpnknBbsMqttItemBody {
            name: data[0].clone(),
            email: data[1].clone(),
            date: data[2].clone(),
            message: data[3].clone(),
            unknown: data[4].clone(),
        }
    }
}

} // verus!
