//! The terms of the directories: the hash of a page of terms, and which
//! agreements no longer hold.
use crate::settings::{
    agreements, distinct_addresses, texts, EachYellowPagesSettings, Settings,
};
use crate::text::str_eq;
use crate::yp_config::{config_of, find_config, has_config, YPConfig};
use nipper::{Document, Matcher};
use sha2::{Digest, Sha256};
use vstd::prelude::*;
use vstd::utf8::encode_utf8;

verus! {

/// The SHA-256 digest of `data`.
pub uninterp spec fn sha256_digest(data: Seq<u8>) -> Seq<u8>;

/// Whether `selector` is a CSS selector that nipper can parse.
pub uninterp spec fn selector_parses(selector: Seq<char>) -> bool;

/// The first element of the document `html` that `selector` matches, as
/// nipper writes it out, its own tags included; empty where nothing
/// matches.
pub uninterp spec fn selected_html(html: Seq<char>, selector: Seq<char>) -> Seq<char>;

/// `sha2::Sha256::digest`: the SHA-256 digest of `data`.
#[verifier::external_body]
fn sha256(data: &[u8]) -> (digest: Vec<u8>)
    ensures
        digest@ == sha256_digest(data@),
{
    Sha256::digest(data).to_vec()
}

/// `nipper::Matcher::new`: whether `selector` parses as a CSS selector.
#[verifier::external_body]
fn parses_selector(selector: &str) -> (parses: bool)
    ensures
        parses == selector_parses(selector@),
{
    Matcher::new(selector).is_ok()
}

/// The longest page, in bytes of UTF-8, that a part is selected from.
///
/// nipper keeps texts in buffers of less than 4 GiB and panics beyond that,
/// for the page as for the part that it writes out. What is written out can
/// be much longer than the page: every character may take six bytes where
/// it took one, and an element that lends its format to the blocks after it
/// is written out once for each of them, so that the length can grow with
/// the square of the page's. Sixteen times the square of this limit is the
/// most that a page within it can come to, and that is 4 GiB.
pub const PAGE_LIMIT: usize = 16384;

/// Whether a part can be selected from a page: its UTF-8 form is within the
/// limit.
pub open spec fn selectable(html: Seq<char>) -> bool {
    encode_utf8(html).len() <= PAGE_LIMIT
}

/// `nipper::Document::from` on `html`, `Document::select` on the document,
/// and `Selection::html` on what was selected. `select` panics on a
/// selector that does not parse; parsing and writing out panic on texts of
/// 4 GiB, which a page within the limit cannot come to.
#[verifier::external_body]
fn select_html(html: &str, selector: &str) -> (part: String)
    requires
        selector_parses(selector@),
        selectable(html@),
    ensures
        part@ == selected_html(html@, selector@),
{
    Document::from(html).select(selector).html().to_string()
}

/// The character of one hexadecimal digit, in lower case.
pub open spec fn hex_digit(d: nat) -> char {
    if d == 0 {
        '0'
    } else if d == 1 {
        '1'
    } else if d == 2 {
        '2'
    } else if d == 3 {
        '3'
    } else if d == 4 {
        '4'
    } else if d == 5 {
        '5'
    } else if d == 6 {
        '6'
    } else if d == 7 {
        '7'
    } else if d == 8 {
        '8'
    } else if d == 9 {
        '9'
    } else if d == 10 {
        'a'
    } else if d == 11 {
        'b'
    } else if d == 12 {
        'c'
    } else if d == 13 {
        'd'
    } else if d == 14 {
        'e'
    } else {
        'f'
    }
}

/// `data` in hexadecimal: two digits in lower case for each byte.
pub open spec fn hex_text(data: Seq<u8>) -> Seq<char> {
    Seq::new(
        2 * data.len(),
        |i: int|
            if i % 2 == 0 {
                hex_digit((data[i / 2] / 16) as nat)
            } else {
                hex_digit((data[i / 2] % 16) as nat)
            },
    )
}

fn hex_char(d: u8) -> (c: char)
    requires
        d < 16,
    ensures
        c == hex_digit(d as nat),
{
    if d == 0 {
        '0'
    } else if d == 1 {
        '1'
    } else if d == 2 {
        '2'
    } else if d == 3 {
        '3'
    } else if d == 4 {
        '4'
    } else if d == 5 {
        '5'
    } else if d == 6 {
        '6'
    } else if d == 7 {
        '7'
    } else if d == 8 {
        '8'
    } else if d == 9 {
        '9'
    } else if d == 10 {
        'a'
    } else if d == 11 {
        'b'
    } else if d == 12 {
        'c'
    } else if d == 13 {
        'd'
    } else if d == 14 {
        'e'
    } else {
        'f'
    }
}

/// Writes `data` in hexadecimal.
pub fn hex(data: &[u8]) -> (text: String)
    ensures
        text@ == hex_text(data@),
{
    let mut text = String::new();
    let mut i: usize = 0;
    while i < data.len()
        invariant
            i <= data@.len(),
            text@ == hex_text(data@.take(i as int)),
        decreases data@.len() - i,
    {
        let byte = data[i];
        let ghost before = text@;
        text.push(hex_char(byte / 16));
        text.push(hex_char(byte % 16));
        i += 1;
        assert(text@ =~= hex_text(data@.take(i as int))) by {
            let longer = hex_text(data@.take(i as int));
            assert(text@.len() == longer.len());
            assert forall|k: int| 0 <= k < text@.len() implies text@[k] == longer[k] by {
                if k < before.len() {
                    assert(before[k] == hex_text(data@.take(i - 1))[k]);
                    assert(data@.take(i - 1)[k / 2] == data@.take(i as int)[k / 2]);
                } else {
                    assert(data@.take(i as int)[k / 2] == byte);
                }
            }
        }
    }
    assert(data@.take(i as int) =~= data@);
    text
}

/// The part of the page `html` that is hashed: the whole page, or what
/// `selector` selects of it.
pub open spec fn hashed_part(html: Seq<char>, selector: Option<Seq<char>>) -> Seq<char> {
    match selector {
        Some(selector) => selected_html(html, selector),
        None => html,
    }
}

/// The hash of the page `html`: the SHA-256 digest of the UTF-8 bytes of
/// the hashed part, in hexadecimal.
pub open spec fn terms_hash(html: Seq<char>, selector: Option<Seq<char>>) -> Seq<char> {
    hex_text(sha256_digest(encode_utf8(hashed_part(html, selector))))
}

/// The hash of a page of terms: the SHA-256 digest of the page's text, or
/// of the part that `selector` selects, in hexadecimal. With a selector
/// there is none where the selector is no CSS selector, and none where the
/// page is longer than `PAGE_LIMIT` bytes; a whole page is hashed whatever
/// its length.
pub fn fetch_hash(html: &str, selector: Option<&str>) -> (hash: Option<String>)
    ensures
        match selector {
            Some(selector) => hash.is_some() == (selector_parses(selector@) && selectable(html@)),
            None => hash.is_some(),
        },
        hash matches Some(text) ==> text@ == terms_hash(
            html@,
            match selector {
                Some(selector) => Some(selector@),
                None => None,
            },
        ),
{
    match selector {
        Some(selector) => {
            if html.as_bytes().len() > PAGE_LIMIT || !parses_selector(selector) {
                return None;
            }
            let part = select_html(html, selector);
            let digest = sha256(part.as_str().as_bytes());
            Some(hex(digest.as_slice()))
        },
        None => {
            let digest = sha256(html.as_bytes());
            Some(hex(digest.as_slice()))
        },
    }
}

/// A page of terms that is to be fetched: its address, and the selector of
/// the part that counts.
#[derive(Clone, Debug)]
pub struct TermsPage {
    pub url: String,
    pub selector: Option<String>,
}

/// The page of terms that stands for `stack`, if any: a stack with a
/// directory host whose directory's terms need agreement has one.
pub open spec fn page_needed(yp_configs: Seq<YPConfig>, stack: EachYellowPagesSettings) -> bool {
    stack.configured() && !config_of(yp_configs, stack.host@).ignore_terms_check
}

/// Whether `page` is the page of terms of the directory of `stack`.
pub open spec fn is_page_of(
    page: TermsPage,
    yp_configs: Seq<YPConfig>,
    stack: EachYellowPagesSettings,
) -> bool {
    let config = config_of(yp_configs, stack.host@);
    &&& page.url@ == config.terms_url@
    &&& match (page.selector, config.terms_selector) {
        (Some(a), Some(b)) => a@ == b@,
        (None, None) => true,
        _ => false,
    }
}

fn page_of(yp_configs: &[YPConfig], stack: &EachYellowPagesSettings) -> (page: Option<TermsPage>)
    requires
        stack.configured() ==> has_config(yp_configs@, stack.host@),
    ensures
        page.is_some() == page_needed(yp_configs@, *stack),
        page matches Some(p) ==> is_page_of(p, yp_configs@, *stack),
{
    if !stack.is_configured() {
        return None;
    }
    match find_config(yp_configs, stack.host.as_str()) {
        None => None,
        Some(config) => {
            if config.ignore_terms_check {
                None
            } else {
                let selector = match &config.terms_selector {
                    Some(selector) => Some(selector.clone()),
                    None => None,
                };
                Some(TermsPage { url: config.terms_url.clone(), selector })
            }
        },
    }
}

/// The pages of terms that are to be fetched and hashed before a broadcast:
/// that of the IPv4 stack's directory, then that of the IPv6 stack's, each
/// where the stack has a directory host and the terms need agreement.
pub fn terms_to_check(yp_configs: &[YPConfig], settings: &Settings) -> (pages: Vec<TermsPage>)
    requires
        settings.yellow_pages_settings.ipv4.configured() ==> has_config(
            yp_configs@,
            settings.yellow_pages_settings.ipv4.host@,
        ),
        settings.yellow_pages_settings.ipv6.configured() ==> has_config(
            yp_configs@,
            settings.yellow_pages_settings.ipv6.host@,
        ),
    ensures
        pages@.len() == (if page_needed(yp_configs@, settings.yellow_pages_settings.ipv4) {
            1int
        } else {
            0int
        }) + (if page_needed(yp_configs@, settings.yellow_pages_settings.ipv6) {
            1int
        } else {
            0int
        }),
        page_needed(yp_configs@, settings.yellow_pages_settings.ipv4) ==> is_page_of(
            pages@[0],
            yp_configs@,
            settings.yellow_pages_settings.ipv4,
        ),
        page_needed(yp_configs@, settings.yellow_pages_settings.ipv6) ==> is_page_of(
            pages@[pages@.len() - 1],
            yp_configs@,
            settings.yellow_pages_settings.ipv6,
        ),
{
    let mut pages: Vec<TermsPage> = Vec::new();
    match page_of(yp_configs, &settings.yellow_pages_settings.ipv4) {
        Some(page) => pages.push(page),
        None => {},
    }
    match page_of(yp_configs, &settings.yellow_pages_settings.ipv6) {
        Some(page) => pages.push(page),
        None => {},
    }
    pages
}

/// The addresses among `fetched` whose hash is not the one agreed to, in
/// order: the terms have changed, or were never agreed to.
pub open spec fn expired_of(settings: Settings, fetched: Seq<(Seq<char>, Seq<char>)>) -> Seq<
    Seq<char>,
>
    decreases fetched.len(),
{
    if fetched.len() == 0 {
        Seq::empty()
    } else {
        let rest = expired_of(settings, fetched.drop_last());
        let last = fetched.last();
        if settings.yellow_pages_settings.agreed_hash_is(last.0, last.1) {
            rest
        } else {
            rest.push(last.0)
        }
    }
}

/// The addresses of the terms that have to be agreed to again: those among
/// `terms_hashes`, pairs of an address and the hash of what is there now,
/// whose hash is not the one agreed to.
pub fn expired_yp_terms(settings: &Settings, terms_hashes: &[(String, String)]) -> (expired: Vec<
    String,
>)
    requires
        settings.yellow_pages_settings.wf(),
    ensures
        texts(expired@) == expired_of(*settings, agreements(terms_hashes@)),
{
    let mut expired: Vec<String> = Vec::new();
    let ghost fetched = agreements(terms_hashes@);
    let mut i: usize = 0;
    while i < terms_hashes.len()
        invariant
            i <= terms_hashes@.len(),
            fetched == agreements(terms_hashes@),
            settings.yellow_pages_settings.wf(),
            texts(expired@) == expired_of(*settings, fetched.take(i as int)),
        decreases terms_hashes@.len() - i,
    {
        let entry = &terms_hashes[i];
        let ghost before = texts(expired@);
        if !settings.yellow_pages_settings.agreed_to(entry.0.as_str(), entry.1.as_str()) {
            expired.push(entry.0.clone());
            assert(texts(expired@) =~= before.push(entry.0@));
        }
        i += 1;
        proof {
            assert(fetched.take(i as int).drop_last() =~= fetched.take(i - 1));
            assert(fetched.take(i as int).last() == (entry.0@, entry.1@));
        }
    }
    assert(fetched.take(i as int) =~= fetched);
    expired
}

/// The agreements of `agreed` that still hold once those for the addresses
/// in `expired` are gone, in order.
pub open spec fn kept_of(agreed: Seq<(Seq<char>, Seq<char>)>, expired: Seq<Seq<char>>) -> Seq<
    (Seq<char>, Seq<char>),
>
    decreases agreed.len(),
{
    if agreed.len() == 0 {
        Seq::empty()
    } else {
        let rest = kept_of(agreed.drop_last(), expired);
        if expired.contains(agreed.last().0) {
            rest
        } else {
            rest.push(agreed.last())
        }
    }
}

fn contains_text(list: &Vec<String>, text: &str) -> (found: bool)
    ensures
        found == texts(list@).contains(text@),
{
    let mut i: usize = 0;
    while i < list.len()
        invariant
            i <= list@.len(),
            forall|k: int| 0 <= k < i ==> (#[trigger] list@[k])@ != text@,
        decreases list@.len() - i,
    {
        if str_eq(list[i].as_str(), text) {
            assert(texts(list@)[i as int] == text@);
            return true;
        }
        i += 1;
    }
    assert(!texts(list@).contains(text@)) by {
        if texts(list@).contains(text@) {
            let k = choose|k: int|
                0 <= k < texts(list@).len() && texts(list@)[k]
                    == text@;
            assert(list@[k]@ != text@);
        }
    }
    false
}

/// Checks the agreements against what the pages of terms hold now, given as
/// pairs of an address and a hash. Returns whether every fetched hash is
/// the one agreed to. Where one is not, the agreements for all such
/// addresses are taken out of the settings, so that they have to be given
/// again; nothing else of the settings changes.
pub fn check_expired_terms(settings: &mut Settings, terms_hashes: &[(String, String)]) -> (valid:
    bool)
    requires
        old(settings).yellow_pages_settings.wf(),
    ensures
        final(settings).yellow_pages_settings.wf(),
        valid == (expired_of(*old(settings), agreements(terms_hashes@)).len() == 0),
        agreements(final(settings).yellow_pages_settings.agreed_terms@) == kept_of(
            agreements(old(settings).yellow_pages_settings.agreed_terms@),
            expired_of(*old(settings), agreements(terms_hashes@)),
        ),
        valid ==> *final(settings) == *old(settings),
        final(settings).general_settings == old(settings).general_settings,
        final(settings).channel_settings == old(settings).channel_settings,
        final(settings).other_settings == old(settings).other_settings,
        final(settings).yellow_pages_settings.ipv4 == old(settings).yellow_pages_settings.ipv4,
        final(settings).yellow_pages_settings.ipv6 == old(settings).yellow_pages_settings.ipv6,
{
    let expired = expired_yp_terms(settings, terms_hashes);
    let ghost gone = texts(expired@);
    let ghost agreed = agreements(settings.yellow_pages_settings.agreed_terms@);
    if expired.is_empty() {
        proof {
            lemma_nothing_expired_keeps_all(agreed);
            assert(gone =~= Seq::<Seq<char>>::empty());
        }
        return true;
    }
    let mut kept: Vec<(String, String)> = Vec::new();
    let mut i: usize = 0;
    while i < settings.yellow_pages_settings.agreed_terms.len()
        invariant
            i <= settings.yellow_pages_settings.agreed_terms@.len(),
            *settings == *old(settings),
            agreed == agreements(settings.yellow_pages_settings.agreed_terms@),
            gone == texts(expired@),
            agreements(kept@) == kept_of(agreed.take(i as int), gone),
            distinct_addresses(agreed),
            distinct_addresses(agreements(kept@)),
            forall|a: int|
                0 <= a < kept@.len() ==> exists|idx: int|
                    0 <= idx < i && agreed[idx] == #[trigger] agreements(kept@)[a],
        decreases settings.yellow_pages_settings.agreed_terms@.len() - i,
    {
        let entry = &settings.yellow_pages_settings.agreed_terms[i];
        let ghost before = agreements(kept@);
        if !contains_text(&expired, entry.0.as_str()) {
            kept.push((entry.0.clone(), entry.1.clone()));
            assert(agreements(kept@) =~= before.push((entry.0@, entry.1@)));
            assert(agreed[i as int] == (entry.0@, entry.1@));
            assert forall|a: int, b: int|
                #![trigger agreements(kept@)[a], agreements(kept@)[b]]
                0 <= a < b < kept@.len() implies agreements(kept@)[a].0 != agreements(kept@)[b].0 by {
                if b == kept@.len() - 1 {
                    assert(agreements(kept@)[a] == before[a]);
                    let idx = choose|idx: int| 0 <= idx < i && agreed[idx] == before[a];
                    assert(agreed[idx].0 != agreed[i as int].0);
                } else {
                    assert(agreements(kept@)[a] == before[a]);
                    assert(agreements(kept@)[b] == before[b]);
                }
            }
            assert forall|a: int| 0 <= a < kept@.len() implies exists|idx: int|
                0 <= idx < i + 1 && agreed[idx] == #[trigger] agreements(kept@)[a] by {
                if a == kept@.len() - 1 {
                    assert(agreed[i as int] == agreements(kept@)[a]);
                } else {
                    assert(agreements(kept@)[a] == before[a]);
                    let idx = choose|idx: int| 0 <= idx < i && agreed[idx] == before[a];
                    assert(agreed[idx] == agreements(kept@)[a]);
                }
            }
        }
        i += 1;
        proof {
            assert(agreed.take(i as int).drop_last() =~= agreed.take(i - 1));
            assert(agreed.take(i as int).last() == (entry.0@, entry.1@));
        }
    }
    assert(agreed.take(i as int) =~= agreed);
    settings.yellow_pages_settings.agreed_terms = kept;
    false
}

/// Where no address has expired, every agreement is kept.
pub proof fn lemma_nothing_expired_keeps_all(agreed: Seq<(Seq<char>, Seq<char>)>)
    ensures
        kept_of(agreed, Seq::empty()) == agreed,
    decreases agreed.len(),
{
    if agreed.len() > 0 {
        lemma_nothing_expired_keeps_all(agreed.drop_last());
        assert(agreed.drop_last().push(agreed.last()) =~= agreed);
    }
}

} // verus!
