//! Header precedence: merging request, client and fingerprint headers into
//! one ordered list without duplicate names.
//!
//! Names are compared without regard to case. Of several headers with one
//! name the first wins, so a list is resolved by putting the sources one
//! after the other, highest precedence first, and keeping the first
//! occurrence of every name. A header that is kept with an empty value is
//! not sent: it only suppresses the headers of lower precedence.

use crate::emulation::Browser;
use crate::errors::ErrorView;
use crate::errors::ImpitError;
use crate::fingerprint::database::chrome_125;
use crate::fingerprint::database::fingerprint_model;
use crate::fingerprint::database::firefox_128;
use crate::fingerprint::copy_pairs;
use crate::fingerprint::BrowserFingerprint;
use crate::fingerprint::BrowserFingerprintView;
use crate::text::lowercase;
use crate::text::to_lowercase;
use reqwest::header::HeaderName;
use reqwest::header::HeaderValue;
use std::str::FromStr;
use vstd::hash_set::StringHashSet;
use vstd::prelude::*;

verus! {

/// A list of headers, each a name and a value.
pub type HeaderSeq = Seq<(Seq<char>, Seq<char>)>;

/// Whether an earlier position holds the key of position `i`.
pub open spec fn key_shadowed(keys: Seq<Seq<char>>, i: int) -> bool {
    exists|j: int| 0 <= j < i && #[trigger] keys[j] == keys[i]
}

/// The positions that survive: in increasing order, every position whose key
/// occurs at no earlier position.
pub open spec fn kept_positions(keys: Seq<Seq<char>>) -> Seq<int>
    decreases keys.len(),
{
    if keys.len() == 0 {
        Seq::empty()
    } else {
        let rest = kept_positions(keys.drop_last());
        if key_shadowed(keys, keys.len() - 1) {
            rest
        } else {
            rest.push(keys.len() - 1)
        }
    }
}

/// The entries at the given positions, in the order of the positions.
pub open spec fn select(entries: HeaderSeq, positions: Seq<int>) -> HeaderSeq {
    Seq::new(positions.len(), |m: int| entries[positions[m]])
}

/// The comparison keys of a header list: the lowercase form of each name.
pub open spec fn name_keys(entries: HeaderSeq) -> Seq<Seq<char>> {
    Seq::new(entries.len(), |i: int| lowercase(entries[i].0))
}

/// A header list with the duplicates of lower precedence removed.
pub open spec fn resolved(entries: HeaderSeq) -> HeaderSeq {
    select(entries, kept_positions(name_keys(entries)))
}

/// The headers that go on the wire: the resolved list without the entries
/// whose value is empty.
pub open spec fn transmitted(entries: HeaderSeq) -> HeaderSeq {
    without_empty(resolved(entries))
}

/// The entries whose value is not empty, in their order.
pub open spec fn without_empty(entries: HeaderSeq) -> HeaderSeq
    decreases entries.len(),
{
    if entries.len() == 0 {
        entries
    } else {
        let rest = without_empty(entries.drop_last());
        if entries.last().1.len() > 0 {
            rest.push(entries.last())
        } else {
            rest
        }
    }
}

/// Every entry of `without_empty` is an entry of the list it was taken
/// from, and its value is not empty.
pub proof fn lemma_without_empty(entries: HeaderSeq)
    ensures
        forall|m: int|
            0 <= m < without_empty(entries).len() ==> entries.contains(
                #[trigger] without_empty(entries)[m],
            ) && without_empty(entries)[m].1.len() > 0,
    decreases entries.len(),
{
    if entries.len() > 0 {
        let front = entries.drop_last();
        lemma_without_empty(front);
        assert forall|m: int| 0 <= m < without_empty(entries).len() implies entries.contains(
            #[trigger] without_empty(entries)[m],
        ) && without_empty(entries)[m].1.len() > 0 by {
            if m < without_empty(front).len() {
                let h = without_empty(front)[m];
                assert(front.contains(h));
                let w = choose|w: int| 0 <= w < front.len() && front[w] == h;
                assert(entries[w] == h);
            } else {
                assert(entries[entries.len() - 1] == entries.last());
            }
        }
    }
}

/// The least position that holds `key`; the length where none does.
pub open spec fn first_position(keys: Seq<Seq<char>>, key: Seq<char>) -> int
    decreases keys.len(),
{
    if keys.len() == 0 {
        0
    } else if keys[0] == key {
        0
    } else {
        1 + first_position(keys.drop_first(), key)
    }
}

/// `first_position` is in range exactly when the key occurs, it holds the
/// key then, and no earlier position does.
pub proof fn lemma_first_position(keys: Seq<Seq<char>>, key: Seq<char>)
    ensures
        0 <= first_position(keys, key) <= keys.len(),
        first_position(keys, key) < keys.len() <==> keys.contains(key),
        first_position(keys, key) < keys.len() ==> keys[first_position(keys, key)] == key,
        forall|j: int| 0 <= j < first_position(keys, key) ==> #[trigger] keys[j] != key,
    decreases keys.len(),
{
    if keys.len() == 0 {
    } else if keys[0] == key {
        assert(keys.contains(key));
    } else {
        let tail = keys.drop_first();
        lemma_first_position(tail, key);
        let p = first_position(tail, key);
        if p < tail.len() {
            assert(keys[p + 1] == tail[p]);
            assert(keys.contains(key));
        }
        if keys.contains(key) {
            let w = choose|w: int| 0 <= w < keys.len() && keys[w] == key;
            assert(tail[w - 1] == keys[w]);
            assert(tail.contains(key));
        }
        assert forall|j: int| 0 <= j < 1 + p implies #[trigger] keys[j] != key by {
            if j > 0 {
                assert(tail[j - 1] == keys[j]);
            }
        }
    }
}

/// The surviving positions are in range and strictly increasing, each of
/// them is the first position of its key, and the first position of every
/// key that occurs survives.
pub proof fn lemma_kept_positions(keys: Seq<Seq<char>>)
    ensures
        kept_positions(keys).len() <= keys.len(),
        forall|m: int|
            0 <= m < kept_positions(keys).len() ==> 0 <= #[trigger] kept_positions(keys)[m]
                < keys.len(),
        forall|m: int, n: int|
            0 <= m < n < kept_positions(keys).len() ==> kept_positions(keys)[m] < kept_positions(
                keys,
            )[n],
        forall|m: int|
            0 <= m < kept_positions(keys).len() ==> !key_shadowed(
                keys,
                #[trigger] kept_positions(keys)[m],
            ),
        forall|i: int|
            0 <= i < keys.len() && !key_shadowed(keys, i) ==> kept_positions(keys).contains(i),
    decreases keys.len(),
{
    if keys.len() > 0 {
        let front = keys.drop_last();
        let last = keys.len() - 1;
        lemma_kept_positions(front);
        let rest = kept_positions(front);
        let all = kept_positions(keys);
        assert forall|i: int| 0 <= i < front.len() implies key_shadowed(front, i) == key_shadowed(
            keys,
            i,
        ) by {
            if key_shadowed(front, i) {
                let j = choose|j: int| 0 <= j < i && #[trigger] front[j] == front[i];
                assert(keys[j] == keys[i]);
            }
            if key_shadowed(keys, i) {
                let j = choose|j: int| 0 <= j < i && #[trigger] keys[j] == keys[i];
                assert(front[j] == front[i]);
            }
        }
        assert forall|i: int| 0 <= i < keys.len() && !key_shadowed(keys, i) implies all.contains(
            i,
        ) by {
            if i < last {
                assert(rest.contains(i));
                let m = choose|m: int| 0 <= m < rest.len() && rest[m] == i;
                assert(all[m] == i);
            } else {
                assert(all[all.len() - 1] == i);
            }
        }
    }
}

/// Of the headers with one name only the first is kept: the resolved list
/// holds two entries under the same key at no two positions.
pub proof fn lemma_resolved_names_unique(keys: Seq<Seq<char>>, m: int, n: int)
    requires
        0 <= m < n < kept_positions(keys).len(),
    ensures
        keys[kept_positions(keys)[m]] != keys[kept_positions(keys)[n]],
{
    lemma_kept_positions(keys);
    let kept = kept_positions(keys);
    assert(!key_shadowed(keys, kept[n]));
    assert(0 <= kept[m] < kept[n]);
}

/// A key that occurs is kept exactly once, at its first position: that
/// position survives, and no other surviving position holds the key.
pub proof fn lemma_first_occurrence_wins(keys: Seq<Seq<char>>, key: Seq<char>)
    requires
        keys.contains(key),
    ensures
        kept_positions(keys).contains(first_position(keys, key)),
        forall|m: int|
            0 <= m < kept_positions(keys).len() && keys[#[trigger] kept_positions(keys)[m]] == key
                ==> kept_positions(keys)[m] == first_position(keys, key),
{
    lemma_first_position(keys, key);
    lemma_kept_positions(keys);
    let first = first_position(keys, key);
    let kept = kept_positions(keys);
    assert(!key_shadowed(keys, first));
    assert forall|m: int| 0 <= m < kept.len() && keys[#[trigger] kept[m]] == key implies kept[m]
        == first by {
        let p = kept[m];
        assert(!key_shadowed(keys, p));
        if first < p {
            assert(keys[first] == keys[p]);
        }
    }
}

/// Precedence of the sources. With the request's headers first, the client's
/// second and the fingerprint's last, the first position of a key lies in
/// the request's part whenever the request names the key, and in the
/// client's part whenever the client names it and the request does not.
/// Together with [`lemma_first_occurrence_wins`]: the resolved value of a
/// header is that of the highest source that names it, and the headers of
/// that name in the lower sources appear nowhere in the resolved list.
pub proof fn lemma_precedence(
    request: Seq<Seq<char>>,
    client: Seq<Seq<char>>,
    fingerprint: Seq<Seq<char>>,
    key: Seq<char>,
)
    ensures
        request.contains(key) ==> first_position(request + client + fingerprint, key)
            == first_position(request, key),
        !request.contains(key) && client.contains(key) ==> first_position(
            request + client + fingerprint,
            key,
        ) == request.len() + first_position(client, key),
        !request.contains(key) && !client.contains(key) ==> first_position(
            request + client + fingerprint,
            key,
        ) == request.len() + client.len() + first_position(fingerprint, key),
{
    lemma_first_position_concat(request, client + fingerprint, key);
    lemma_first_position_concat(client, fingerprint, key);
    assert(request + client + fingerprint =~= request + (client + fingerprint));
    lemma_first_position(request, key);
    lemma_first_position(client, key);
}

/// The first position of a key in a concatenation lies in the first part
/// when the first part holds the key, and behind it otherwise.
pub proof fn lemma_first_position_concat(
    high: Seq<Seq<char>>,
    low: Seq<Seq<char>>,
    key: Seq<char>,
)
    ensures
        first_position(high + low, key) == if high.contains(key) {
            first_position(high, key)
        } else {
            high.len() + first_position(low, key)
        },
    decreases high.len(),
{
    if high.len() == 0 {
        assert(high + low =~= low);
    } else {
        let all = high + low;
        assert(all[0] == high[0]);
        if high[0] == key {
            assert(high.contains(key));
        } else {
            assert(all.drop_first() =~= high.drop_first() + low);
            lemma_first_position_concat(high.drop_first(), low, key);
            if high.contains(key) {
                let w = choose|w: int| 0 <= w < high.len() && high[w] == key;
                assert(high.drop_first()[w - 1] == high[w]);
                assert(high.drop_first().contains(key));
            }
            if high.drop_first().contains(key) {
                let w = choose|w: int|
                    0 <= w < high.drop_first().len() && high.drop_first()[w] == key;
                assert(high[w + 1] == key);
                assert(high.contains(key));
            }
        }
    }
}

/// The keys of a concatenation are the keys of its parts.
pub proof fn lemma_name_keys_concat(high: HeaderSeq, low: HeaderSeq)
    ensures
        name_keys(high + low) == name_keys(high) + name_keys(low),
{
    assert(name_keys(high + low) =~= name_keys(high) + name_keys(low));
}

/// A header of the request outranks the headers of that name in the
/// client's defaults and in the fingerprint: where the request names a
/// header, the resolved list holds exactly one header of that name, and it
/// is the first one that the request gives.
pub proof fn lemma_request_header_wins(
    request: HeaderSeq,
    client: HeaderSeq,
    fingerprint: HeaderSeq,
    name: Seq<char>,
)
    requires
        name_keys(request).contains(lowercase(name)),
    ensures
        exists|m: int|
            0 <= m < resolved(request + client + fingerprint).len() && #[trigger] resolved(
                request + client + fingerprint,
            )[m] == request[first_position(name_keys(request), lowercase(name))],
        forall|m: int|
            0 <= m < resolved(request + client + fingerprint).len() && lowercase(
                (#[trigger] resolved(request + client + fingerprint)[m]).0,
            ) == lowercase(name) ==> resolved(request + client + fingerprint)[m]
                == request[first_position(name_keys(request), lowercase(name))],
{
    let all = request + client + fingerprint;
    let keys = name_keys(all);
    let key = lowercase(name);
    lemma_name_keys_concat(request, client);
    lemma_name_keys_concat(request + client, fingerprint);
    lemma_precedence(name_keys(request), name_keys(client), name_keys(fingerprint), key);
    lemma_first_position(name_keys(request), key);
    let first = first_position(name_keys(request), key);
    assert(first_position(keys, key) == first);
    assert(keys[first] == key);
    assert(keys.contains(key));
    lemma_first_occurrence_wins(keys, key);
    lemma_kept_positions(keys);
    let kept = kept_positions(keys);
    let out = resolved(all);
    let m0 = choose|m: int| 0 <= m < kept.len() && kept[m] == first;
    assert(out[m0] == all[first]);
    assert(all[first] == request[first]);
    assert forall|m: int| 0 <= m < out.len() && lowercase((#[trigger] out[m]).0) == key implies out[m]
        == request[first] by {
        assert(out[m] == all[kept[m]]);
        assert(keys[kept[m]] == lowercase(all[kept[m]].0));
        assert(kept[m] == first);
    }
}

/// An empty value suppresses the header: where the first header of some
/// name has an empty value, no header of that name is sent, whatever the
/// sources of lower precedence hold.
pub proof fn lemma_empty_value_suppresses(entries: HeaderSeq, name: Seq<char>)
    requires
        name_keys(entries).contains(lowercase(name)),
        entries[first_position(name_keys(entries), lowercase(name))].1.len() == 0,
    ensures
        forall|m: int|
            0 <= m < transmitted(entries).len() ==> lowercase(
                (#[trigger] transmitted(entries)[m]).0,
            ) != lowercase(name),
{
    let keys = name_keys(entries);
    let key = lowercase(name);
    lemma_first_occurrence_wins(keys, key);
    lemma_kept_positions(keys);
    let kept = kept_positions(keys);
    let sent = transmitted(entries);
    lemma_without_empty(resolved(entries));
    assert forall|m: int| 0 <= m < sent.len() implies lowercase((#[trigger] sent[m]).0)
        != key by {
        assert(resolved(entries).contains(sent[m]));
        let n = choose|n: int| 0 <= n < resolved(entries).len() && resolved(entries)[n] == sent[m];
        assert(sent[m] == entries[kept[n]]);
        assert(keys[kept[n]] == lowercase(entries[kept[n]].0));
        if lowercase(sent[m].0) == key {
            assert(kept[n] == first_position(keys, key));
        }
    }
}

/// Copies a header list.
pub fn clone_headers(entries: &Vec<(String, String)>) -> (r: Vec<(String, String)>)
    ensures
        r.deep_view() == entries.deep_view(),
{
    let out = copy_pairs(entries.as_slice());
    assert(out.deep_view() =~= entries.deep_view());
    out
}

/// Puts `high` in front of `low`.
pub fn chain_headers(high: &Vec<(String, String)>, low: &Vec<(String, String)>) -> (r: Vec<
    (String, String),
>)
    ensures
        r.deep_view() == high.deep_view() + low.deep_view(),
{
    let mut out = clone_headers(high);
    assert(out.deep_view().len() == out.len());
    let mut i: usize = 0;
    while i < low.len()
        invariant
            i <= low.len(),
            out.len() == high.len() + i,
            forall|j: int| 0 <= j < high.len() ==> out.deep_view()[j] == high.deep_view()[j],
            forall|j: int| 0 <= j < i ==> out.deep_view()[high.len() + j] == low.deep_view()[j],
        decreases low.len() - i,
    {
        let name = low[i].0.clone();
        let value = low[i].1.clone();
        out.push((name, value));
        i += 1;
    }
    assert(out.deep_view() =~= high.deep_view() + low.deep_view());
    out
}

/// The comparison key of every header: its name in lowercase.
pub fn lowercase_names(entries: &Vec<(String, String)>) -> (keys: Vec<String>)
    ensures
        keys.deep_view() == name_keys(entries.deep_view()),
{
    let mut keys: Vec<String> = Vec::new();
    let mut i: usize = 0;
    while i < entries.len()
        invariant
            i <= entries.len(),
            keys.len() == i,
            forall|j: int| 0 <= j < i ==> keys[j]@ == lowercase(entries[j].0@),
        decreases entries.len() - i,
    {
        let key = to_lowercase(entries[i].0.as_str());
        keys.push(key);
        i += 1;
    }
    assert(keys.deep_view() =~= name_keys(entries.deep_view()));
    keys
}

/// Keeps, of the entries that share a key, the first one. `keys` gives the
/// key of each entry, position by position.
pub fn keep_first(entries: &Vec<(String, String)>, keys: &Vec<String>) -> (r: Vec<
    (String, String),
>)
    requires
        keys.len() == entries.len(),
    ensures
        r.deep_view() == select(entries.deep_view(), kept_positions(keys.deep_view())),
{
    let ghost all_keys = keys.deep_view();
    let ghost all = entries.deep_view();
    let mut used = StringHashSet::new();
    let mut out: Vec<(String, String)> = Vec::new();
    let mut i: usize = 0;
    while i < entries.len()
        invariant
            i <= entries.len(),
            keys.len() == entries.len(),
            all_keys == keys.deep_view(),
            all == entries.deep_view(),
            forall|k: Seq<char>|
                used@.contains(k) <==> exists|j: int| 0 <= j < i && #[trigger] all_keys[j] == k,
            out.deep_view() == select(all, kept_positions(all_keys.take(i as int))),
        decreases entries.len() - i,
    {
        let ghost before = kept_positions(all_keys.take(i as int));
        let ghost prefix = all_keys.take(i + 1);
        let ghost seen_before = used@;
        let seen = used.contains(keys[i].as_str());
        proof {
            assert(keys[i as int]@ == all_keys[i as int]);
            assert(seen == key_shadowed(all_keys, i as int));
            assert(prefix.drop_last() =~= all_keys.take(i as int));
            if key_shadowed(prefix, i as int) {
                let j = choose|j: int| 0 <= j < i && #[trigger] prefix[j] == prefix[i as int];
                assert(all_keys[j] == all_keys[i as int]);
            }
            if key_shadowed(all_keys, i as int) {
                let j = choose|j: int| 0 <= j < i && #[trigger] all_keys[j] == all_keys[i as int];
                assert(prefix[j] == prefix[i as int]);
            }
        }
        if !seen {
            used.insert(keys[i].clone());
            let name = entries[i].0.clone();
            let value = entries[i].1.clone();
            let ghost old_out = out.deep_view();
            out.push((name, value));
            assert(out.deep_view() =~= old_out.push(all[i as int]));
            assert(out.deep_view() =~= select(all, before.push(i as int)));
        }
        proof {
            assert(used@ =~= seen_before.insert(all_keys[i as int]));
            assert forall|k: Seq<char>| used@.contains(k) <==> exists|j: int|
                0 <= j < i + 1 && #[trigger] all_keys[j] == k by {
                if used@.contains(k) {
                    if k == all_keys[i as int] {
                        assert(all_keys[i as int] == k);
                    } else {
                        assert(seen_before.contains(k));
                        let j = choose|j: int| 0 <= j < i && #[trigger] all_keys[j] == k;
                        assert(0 <= j < i + 1 && all_keys[j] == k);
                    }
                }
                if exists|j: int| 0 <= j < i + 1 && #[trigger] all_keys[j] == k {
                    let j = choose|j: int| 0 <= j < i + 1 && #[trigger] all_keys[j] == k;
                    if j < i {
                        assert(seen_before.contains(k));
                    }
                }
            }
        }
        i += 1;
    }
    assert(all_keys.take(i as int) =~= all_keys);
    out
}

/// Removes the duplicates of lower precedence from a header list: of the
/// headers whose names differ by case at most, the first stays.
pub fn resolve(entries: &Vec<(String, String)>) -> (r: Vec<(String, String)>)
    ensures
        r.deep_view() == resolved(entries.deep_view()),
{
    let keys = lowercase_names(entries);
    keep_first(entries, &keys)
}

/// Merges the three sources of headers, the request's first, then the
/// client's defaults, then the fingerprint's.
pub fn resolve_sources(
    request: &Vec<(String, String)>,
    client: &Vec<(String, String)>,
    fingerprint: &Vec<(String, String)>,
) -> (r: Vec<(String, String)>)
    ensures
        r.deep_view() == resolved(
            request.deep_view() + client.deep_view() + fingerprint.deep_view(),
        ),
{
    let upper = chain_headers(request, client);
    let all = chain_headers(&upper, fingerprint);
    resolve(&all)
}

/// Drops the headers whose value is empty.
pub fn drop_empty(entries: &Vec<(String, String)>) -> (r: Vec<(String, String)>)
    ensures
        r.deep_view() == without_empty(entries.deep_view()),
{
    let ghost all = entries.deep_view();
    let mut out: Vec<(String, String)> = Vec::new();
    let mut i: usize = 0;
    while i < entries.len()
        invariant
            i <= entries.len(),
            all == entries.deep_view(),
            out.deep_view() == without_empty(all.take(i as int)),
        decreases entries.len() - i,
    {
        let ghost old_out = out.deep_view();
        if !entries[i].1.as_str().is_empty() {
            let name = entries[i].0.clone();
            let value = entries[i].1.clone();
            out.push((name, value));
            assert(out.deep_view() =~= old_out.push(all[i as int]));
        }
        proof {
            let prefix = all.take(i + 1);
            assert(prefix.drop_last() =~= all.take(i as int));
            assert(prefix.last() == all[i as int]);
            assert(all[i as int] == (entries[i as int].0@, entries[i as int].1@));
        }
        i += 1;
    }
    assert(all.take(i as int) =~= all);
    out
}

/// Whether a byte may stand in a header name: a letter, a digit, or one of
/// ``! # $ % & ' * + - . ^ _ ` | ~``.
pub open spec fn name_byte_accepted(b: u8) -> bool {
    b == 33 || (35 <= b <= 39) || b == 42 || b == 43 || b == 45 || b == 46 || (48 <= b <= 57) || (65
        <= b <= 90) || (94 <= b <= 122) || b == 124 || b == 126
}

/// Whether `HeaderName::from_str` accepts a text as a header name: its
/// UTF-8 form has between 1 and 65535 bytes, and each of them may stand in
/// a name.
pub open spec fn header_name_accepted(name: Seq<char>) -> bool {
    1 <= vstd::utf8::encode_utf8(name).len() <= 65535 && forall|i: int|
        0 <= i < vstd::utf8::encode_utf8(name).len() ==> name_byte_accepted(
            #[trigger] vstd::utf8::encode_utf8(name)[i],
        )
}

/// Whether a byte may stand in a header value: a tab, or anything from the
/// space upwards but the delete character.
pub open spec fn value_byte_accepted(b: u8) -> bool {
    (b >= 32 && b != 127) || b == 9
}

/// Whether `HeaderValue::from_str` accepts a text as a header value: every
/// byte of its UTF-8 form may stand in a value.
pub open spec fn header_value_accepted(value: Seq<char>) -> bool {
    forall|i: int|
        0 <= i < vstd::utf8::encode_utf8(value).len() ==> value_byte_accepted(
            #[trigger] vstd::utf8::encode_utf8(value)[i],
        )
}

/// `HeaderName::from_str`, reduced to whether it succeeds: it does for a
/// text of 1 to 65535 bytes that holds letters, digits and the marks of a
/// token only.
#[verifier::external_body]
fn is_header_name(name: &str) -> (ok: bool)
    ensures
        ok == header_name_accepted(name@),
{
    HeaderName::from_str(name).is_ok()
}

/// `HeaderValue::from_str`, reduced to whether it succeeds: it does unless
/// the text holds a control character other than the tab.
#[verifier::external_body]
pub(crate) fn is_header_value(value: &str) -> (ok: bool)
    ensures
        ok == header_value_accepted(value@),
{
    HeaderValue::from_str(value).is_ok()
}

/// Whether the header at position `i` can be sent.
pub open spec fn header_accepted(entries: HeaderSeq, i: int) -> bool {
    header_name_accepted(entries[i].0) && header_value_accepted(entries[i].1)
}

/// What the validation of a header list reports: nothing where every header
/// can be sent, and otherwise the first header that cannot, by its name
/// where the name is rejected and by its value where only the value is.
pub open spec fn first_rejected(entries: HeaderSeq) -> Option<ErrorView>
    decreases entries.len(),
{
    if entries.len() == 0 {
        None
    } else if !header_name_accepted(entries[0].0) {
        Some(ErrorView::InvalidHeaderName(entries[0].0))
    } else if !header_value_accepted(entries[0].1) {
        Some(ErrorView::InvalidHeaderValue(entries[0].1))
    } else {
        first_rejected(entries.drop_first())
    }
}

/// Validation succeeds exactly when every header of the list can be sent.
pub proof fn lemma_first_rejected(entries: HeaderSeq)
    ensures
        first_rejected(entries).is_none() <==> forall|i: int|
            0 <= i < entries.len() ==> header_accepted(entries, i),
    decreases entries.len(),
{
    if entries.len() > 0 {
        let tail = entries.drop_first();
        lemma_first_rejected(tail);
        if first_rejected(entries).is_none() {
            assert forall|i: int| 0 <= i < entries.len() implies header_accepted(entries, i) by {
                if i > 0 {
                    assert(header_accepted(tail, i - 1));
                }
            }
        }
        if forall|i: int| 0 <= i < entries.len() ==> header_accepted(entries, i) {
            assert(header_accepted(entries, 0));
            assert forall|i: int| 0 <= i < tail.len() implies header_accepted(tail, i) by {
                assert(header_accepted(entries, i + 1));
            }
        }
    }
}

/// Checks that every header of a list can be sent, and reports the first
/// that cannot.
pub fn validate(entries: &Vec<(String, String)>) -> (r: Result<(), ImpitError>)
    ensures
        match r {
            Ok(_) => first_rejected(entries.deep_view()).is_none(),
            Err(e) => first_rejected(entries.deep_view()) == Some(e@),
        },
{
    let ghost all = entries.deep_view();
    let mut i: usize = 0;
    assert(all.skip(0) =~= all);
    while i < entries.len()
        invariant
            i <= entries.len(),
            all == entries.deep_view(),
            first_rejected(all) == first_rejected(all.skip(i as int)),
        decreases entries.len() - i,
    {
        proof {
            assert(all.skip(i as int).drop_first() =~= all.skip(i + 1));
            assert(all.skip(i as int)[0] == (entries[i as int].0@, entries[i as int].1@));
        }
        if !is_header_name(entries[i].0.as_str()) {
            return Err(ImpitError::InvalidHeaderName(entries[i].0.clone()));
        }
        if !is_header_value(entries[i].1.as_str()) {
            return Err(ImpitError::InvalidHeaderValue(entries[i].1.clone()));
        }
        i += 1;
    }
    Ok(())
}

/// Model of an [`HttpHeadersBuilder`].
pub struct HttpHeadersView {
    pub host: Seq<char>,
    pub browser: Option<Browser>,
    /// The fingerprint that was selected, if one was.
    pub fingerprint: Option<BrowserFingerprintView>,
    pub https: bool,
    /// The caller's headers, highest precedence first.
    pub custom_headers: HeaderSeq,
}

/// The headers of the impersonated browser: those of the fingerprint where
/// one is selected, else those of the database entry of the browser, else
/// none.
pub open spec fn impersonated_headers(context: HttpHeadersView) -> HeaderSeq {
    match context.fingerprint {
        Some(fingerprint) => fingerprint.headers,
        None => match context.browser {
            Some(browser) => fingerprint_model(browser).headers,
            None => Seq::empty(),
        },
    }
}

/// Collects the sources of the headers of one request.
#[derive(Debug)]
pub struct HttpHeadersBuilder {
    host: String,
    browser: Option<Browser>,
    fingerprint: Option<BrowserFingerprint>,
    https: bool,
    custom_headers: Vec<(String, String)>,
}

impl View for HttpHeadersBuilder {
    type V = HttpHeadersView;

    closed spec fn view(&self) -> HttpHeadersView {
        HttpHeadersView {
            host: self.host@,
            browser: self.browser,
            fingerprint: match self.fingerprint {
                Some(fingerprint) => Some(fingerprint@),
                None => None,
            },
            https: self.https,
            custom_headers: self.custom_headers.deep_view(),
        }
    }
}

impl Default for HttpHeadersBuilder {
    fn default() -> (r: Self)
        ensures
            r@ == (HttpHeadersView {
                host: Seq::empty(),
                browser: None,
                fingerprint: None,
                https: false,
                custom_headers: Seq::empty(),
            }),
    {
        let r = HttpHeadersBuilder {
            host: String::new(),
            browser: None,
            fingerprint: None,
            https: false,
            custom_headers: Vec::new(),
        };
        assert(r.custom_headers.deep_view() =~= Seq::empty());
        r
    }
}

impl Clone for HttpHeadersBuilder {
    /// A copy that is equal to the builder and shares nothing with it.
    fn clone(&self) -> (r: Self)
        ensures
            r@ == self@,
    {
        HttpHeadersBuilder {
            host: self.host.clone(),
            browser: self.browser,
            fingerprint: match &self.fingerprint {
                Some(fingerprint) => Some(fingerprint.clone()),
                None => None,
            },
            https: self.https,
            custom_headers: clone_headers(&self.custom_headers),
        }
    }
}

impl HttpHeadersBuilder {
    /// Sets the host that the request goes to.
    pub fn with_host(&mut self, host: &String) -> (r: &mut Self)
        ensures
            final(self)@ == final(r)@,
            r@ == (HttpHeadersView { host: host@, ..old(self)@ }),
    {
        self.host = host.clone();
        self
    }

    /// Selects the browser whose default headers are sent.
    pub fn with_browser(&mut self, browser: &Option<Browser>) -> (r: &mut Self)
        ensures
            final(self)@ == final(r)@,
            r@ == (HttpHeadersView { browser: *browser, ..old(self)@ }),
    {
        self.browser = *browser;
        self
    }

    /// Selects the fingerprint whose headers are sent. The fingerprint is
    /// copied: the one that was passed in is left as it is.
    pub fn with_fingerprint(&mut self, fingerprint: &Option<BrowserFingerprint>) -> (r: &mut Self)
        ensures
            final(self)@ == final(r)@,
            r@ == (HttpHeadersView {
                fingerprint: match *fingerprint {
                    Some(fp) => Some(fp@),
                    None => None,
                },
                ..old(self)@
            }),
    {
        self.fingerprint = match fingerprint {
            Some(fp) => Some(fp.clone()),
            None => None,
        };
        self
    }

    /// Records whether the request goes over TLS.
    pub fn with_https(&mut self, https: bool) -> (r: &mut Self)
        ensures
            final(self)@ == final(r)@,
            r@ == (HttpHeadersView { https, ..old(self)@ }),
    {
        self.https = https;
        self
    }

    /// Adds headers of the caller. A later call outranks an earlier one:
    /// the new headers are put in front of those that are there.
    pub fn with_custom_headers(&mut self, custom_headers: Option<Vec<(String, String)>>) -> (r:
        &mut Self)
        ensures
            final(self)@ == final(r)@,
            r@ == (HttpHeadersView {
                custom_headers: match custom_headers {
                    Some(headers) => headers.deep_view() + old(self)@.custom_headers,
                    None => old(self)@.custom_headers,
                },
                ..old(self)@
            }),
    {
        match custom_headers {
            Some(headers) => {
                let merged = chain_headers(&headers, &self.custom_headers);
                self.custom_headers = merged;
            },
            None => {},
        }
        self
    }

    /// Fixes the sources as they are now.
    pub fn build(&self) -> (r: HttpHeaders)
        ensures
            r@ == self@,
    {
        HttpHeaders::new(self)
    }
}

/// The headers of one request, from all their sources.
#[derive(Debug)]
pub struct HttpHeaders {
    context: HttpHeadersBuilder,
}

impl View for HttpHeaders {
    type V = HttpHeadersView;

    closed spec fn view(&self) -> HttpHeadersView {
        self.context@
    }
}

impl HttpHeaders {
    /// Fixes the sources that the builder holds.
    pub fn new(options: &HttpHeadersBuilder) -> (r: HttpHeaders)
        ensures
            r@ == options@,
    {
        HttpHeaders { context: options.clone() }
    }

    /// A builder without any source.
    pub fn get_builder() -> (r: HttpHeadersBuilder)
        ensures
            r@ == (HttpHeadersView {
                host: Seq::empty(),
                browser: None,
                fingerprint: None,
                https: false,
                custom_headers: Seq::empty(),
            }),
    {
        HttpHeadersBuilder::default()
    }

    /// The headers of the caller alone.
    pub fn from_list(headers: Vec<(String, String)>) -> (r: HttpHeaders)
        ensures
            r@ == (HttpHeadersView {
                host: Seq::empty(),
                browser: None,
                fingerprint: None,
                https: false,
                custom_headers: headers.deep_view(),
            }),
    {
        let mut builder = HttpHeaders::get_builder();
        builder.with_custom_headers(Some(headers));
        assert(headers.deep_view() + Seq::<(Seq<char>, Seq<char>)>::empty() =~= headers.deep_view());
        builder.build()
    }

    /// The resolved headers in order: the caller's first, then those of the
    /// impersonated browser, and of the headers whose names differ by case
    /// at most only the first. A header with an empty value is listed, so
    /// that it is known to be overridden.
    pub fn iter(&self) -> (r: Vec<(String, String)>)
        ensures
            r.deep_view() == resolved(self@.custom_headers + impersonated_headers(self@)),
    {
        let impersonated: Vec<(String, String)> = match &self.context.fingerprint {
            Some(fingerprint) => {
                let copy = copy_pairs(fingerprint.headers());
                assert(copy.deep_view() =~= fingerprint@.headers);
                copy
            },
            None => match self.context.browser {
                Some(browser) => browser_headers(browser),
                None => {
                    let none: Vec<(String, String)> = Vec::new();
                    assert(none.deep_view() =~= Seq::empty());
                    none
                },
            },
        };
        let all = chain_headers(&self.context.custom_headers, &impersonated);
        resolve(&all)
    }

    /// The headers that are sent: the resolved headers without those whose
    /// value is empty. Fails on the first of them that cannot be sent.
    pub fn to_wire(&self) -> (r: Result<Vec<(String, String)>, ImpitError>)
        ensures
            match r {
                Ok(list) => list.deep_view() == transmitted(
                    self@.custom_headers + impersonated_headers(self@),
                ) && first_rejected(list.deep_view()).is_none(),
                Err(e) => first_rejected(
                    transmitted(self@.custom_headers + impersonated_headers(self@)),
                ) == Some(e@),
            },
    {
        let kept = self.iter();
        let sent = drop_empty(&kept);
        match validate(&sent) {
            Ok(_) => Ok(sent),
            Err(e) => Err(e),
        }
    }
}

/// The default headers of a browser, from its database entry.
pub fn browser_headers(browser: Browser) -> (r: Vec<(String, String)>)
    ensures
        r.deep_view() == fingerprint_model(browser).headers,
{
    match browser {
        Browser::Chrome => chrome_125::headers(),
        Browser::Firefox => firefox_128::headers(),
    }
}

} // verus!
