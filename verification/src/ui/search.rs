//! Search filters for the station and file lists, and recognising
//! tracklist lines and playable audio files.

use vstd::prelude::*;
use crate::protocol::Station;
use crate::text::{
    byte_len, byte_len_of, string_views, strings_chars, lemma_contains_extend,
    append_chars, chars_of, contains_chars, contains_seq, is_ws, join, join_chars, lines,
    lines_chars, lowercase, str_eq, string_of, to_lowercase, trim, trim_chars, views, words,
    words_chars,
};

verus! {

/// Every term occurs in `text`.
pub open spec fn all_terms_in(terms: Seq<Seq<char>>, text: Seq<char>) -> bool {
    forall|i: int| 0 <= i < terms.len() ==> contains_seq(text, #[trigger] terms[i])
}

/// The lowercase form of each term.
pub open spec fn lowercase_each(terms: Seq<Seq<char>>) -> Seq<Seq<char>> {
    terms.map_values(|t: Seq<char>| lowercase(t))
}

/// Whether each of `terms` occurs in `text`.
pub fn all_in(terms: &Vec<Vec<char>>, text: &[char]) -> (b: bool)
    ensures
        b == all_terms_in(views(terms@), text@),
{
    let n = terms.len();
    let mut i: usize = 0;
    while i < n
        invariant
            n == terms@.len(),
            0 <= i <= n,
            forall|k: int| 0 <= k < i ==> contains_seq(text@, #[trigger] views(terms@)[k]),
        decreases n - i,
    {
        proof {
            assert(views(terms@)[i as int] == terms@[i as int]@);
        }
        if !contains_chars(text, terms[i].as_slice()) {
            return false;
        }
        i += 1;
    }
    true
}

/// The lowercase form of a piece of text (`str::to_lowercase`).
pub fn normalize_search_text(input: &str) -> (r: String)
    ensures
        r@ == lowercase(input@),
{
    to_lowercase(input)
}

/// Whether `text` matches a free-text query: an empty query matches
/// everything; otherwise every whitespace-separated word of the query,
/// lowercased, must occur in the lowercased text.
pub open spec fn search_spec(query: Seq<char>, text: Seq<char>) -> bool {
    query.len() == 0 || all_terms_in(lowercase_each(words(query)), lowercase(text))
}

pub fn search_matches(query: &str, text: &str) -> (b: bool)
    ensures
        b == search_spec(query@, text@),
{
    if query.is_empty() {
        return true;
    }
    let low = to_lowercase(text);
    let low_chars = chars_of(low.as_str());
    let q = chars_of(query);
    let ws = words_chars(q.as_slice());
    let n = ws.len();
    let mut terms: Vec<Vec<char>> = Vec::new();
    let mut i: usize = 0;
    while i < n
        invariant
            n == ws@.len(),
            views(ws@) == words(q@),
            0 <= i <= n,
            views(terms@) == lowercase_each(words(q@)).take(i as int),
        decreases n - i,
    {
        let w = string_of(ws[i].as_slice());
        let lw = to_lowercase(w.as_str());
        let lc = chars_of(lw.as_str());
        let ghost before = views(terms@);
        terms.push(lc);
        proof {
            assert(views(terms@) =~= before.push(lc@));
            assert(views(ws@)[i as int] == ws@[i as int]@);
            assert(lowercase_each(words(q@)).take(i + 1) =~= lowercase_each(words(q@)).take(
                i as int,
            ).push(lowercase(words(q@)[i as int])));
        }
        i += 1;
    }
    proof {
        assert(lowercase_each(words(q@)).take(n as int) =~= lowercase_each(words(q@)));
    }
    all_in(&terms, low_chars.as_slice())
}

/// The text a station query is matched against: lowercased name, network,
/// city, country and space-joined tags, separated by spaces.
pub open spec fn station_text(st: Station) -> Seq<char> {
    lowercase(st.name@) + seq![' '] + lowercase(st.network@) + seq![' '] + lowercase(st.city@)
        + seq![' '] + lowercase(st.country@) + seq![' '] + lowercase(
        join(string_views(st.tags@), seq![' ']),
    )
}

/// A blank query matches every station; otherwise every word of the
/// lowercased query must occur in the station's text.
pub open spec fn station_matches_spec(st: Station, q: Seq<char>) -> bool {
    trim(q).len() == 0 || all_terms_in(words(lowercase(q)), station_text(st))
}

/// Every word of the lowercased query occurs in `field`.
pub open spec fn query_words_in(q: Seq<char>, field: Seq<char>) -> bool {
    forall|i: int| 0 <= i < words(lowercase(q)).len() ==> contains_seq(field, #[trigger] words(lowercase(q))[i])
}

proof fn lemma_words_in_part(q: Seq<char>, x: Seq<char>, a: Seq<char>, y: Seq<char>)
    requires
        query_words_in(q, a),
    ensures
        query_words_in(q, x + a + y),
{
    assert forall|i: int| 0 <= i < words(lowercase(q)).len() implies contains_seq(
        x + a + y,
        #[trigger] words(lowercase(q))[i],
    ) by {
        lemma_contains_extend(x, a, y, words(lowercase(q))[i]);
    }
}

/// Law: a station is shown for a query whose every word, lowercased,
/// occurs in its lowercased name, its network, its city or its country.
pub proof fn law_station_fields_searched(st: Station, q: Seq<char>)
    ensures
        query_words_in(q, lowercase(st.name@)) ==> station_matches_spec(st, q),
        query_words_in(q, lowercase(st.network@)) ==> station_matches_spec(st, q),
        query_words_in(q, lowercase(st.city@)) ==> station_matches_spec(st, q),
        query_words_in(q, lowercase(st.country@)) ==> station_matches_spec(st, q),
        trim(q).len() == 0 ==> station_matches_spec(st, q),
{
    let sp = seq![' '];
    let name = lowercase(st.name@);
    let net = lowercase(st.network@);
    let city = lowercase(st.city@);
    let country = lowercase(st.country@);
    let tags = lowercase(join(string_views(st.tags@), seq![' ']));
    let t = station_text(st);
    if query_words_in(q, name) {
        lemma_words_in_part(q, Seq::<char>::empty(), name, sp + net + sp + city + sp + country + sp + tags);
        assert(Seq::<char>::empty() + name + (sp + net + sp + city + sp + country + sp + tags) =~= t);
    }
    if query_words_in(q, net) {
        lemma_words_in_part(q, name + sp, net, sp + city + sp + country + sp + tags);
        assert(name + sp + net + (sp + city + sp + country + sp + tags) =~= t);
    }
    if query_words_in(q, city) {
        lemma_words_in_part(q, name + sp + net + sp, city, sp + country + sp + tags);
        assert(name + sp + net + sp + city + (sp + country + sp + tags) =~= t);
    }
    if query_words_in(q, country) {
        lemma_words_in_part(q, name + sp + net + sp + city + sp, country, sp + tags);
        assert(name + sp + net + sp + city + sp + country + (sp + tags) =~= t);
    }
}

fn push_lower(out: &mut Vec<char>, s: &str)
    ensures
        final(out)@ == old(out)@ + lowercase(s@),
{
    let l = to_lowercase(s);
    let c = chars_of(l.as_str());
    append_chars(out, c.as_slice());
}

pub fn station_matches(station: &Station, q: &str) -> (b: bool)
    ensures
        b == station_matches_spec(*station, q@),
{
    let qc = chars_of(q);
    let t = trim_chars(qc.as_slice());
    if t.len() == 0 {
        return true;
    }
    let ql = to_lowercase(q);
    let qlc = chars_of(ql.as_str());
    let terms = words_chars(qlc.as_slice());
    let mut text: Vec<char> = Vec::new();
    push_lower(&mut text, station.name.as_str());
    text.push(' ');
    push_lower(&mut text, station.network.as_str());
    text.push(' ');
    push_lower(&mut text, station.city.as_str());
    text.push(' ');
    push_lower(&mut text, station.country.as_str());
    text.push(' ');
    let tags = strings_chars(&station.tags);
    let sep: Vec<char> = vec![' '];
    let joined = join_chars(&tags, sep.as_slice());
    let js = string_of(joined.as_slice());
    push_lower(&mut text, js.as_str());
    proof {
        assert(sep@ =~= seq![' ']);
        assert(text@ =~= station_text(*station));
    }
    all_in(&terms, text.as_slice())
}

// ── tracklists ──────────────────────────────────────────────────────────────
/// The first whitespace-separated word, or nothing.
pub open spec fn first_word(s: Seq<char>) -> Seq<char> {
    if words(s).len() > 0 {
        words(s)[0]
    } else {
        Seq::<char>::empty()
    }
}

pub open spec fn all_ascii_digits(s: Seq<char>) -> bool {
    forall|i: int| 0 <= i < s.len() ==> '0' <= #[trigger] s[i] <= '9'
}

/// A trimmed line looks like a tracklist entry when it is longer than three
/// bytes and its first word holds a ':' (a timestamp), ends with '.' (a
/// number), or is all ASCII digits.
pub open spec fn looks_like_track(t: Seq<char>) -> bool {
    let first = first_word(t);
    byte_len(t) > 3 && (first.contains(':') || (first.len() > 0 && first.last() == '.')
        || all_ascii_digits(first))
}

/// The trimmed lines that look like tracklist entries, in order.
pub open spec fn tracklist(ls: Seq<Seq<char>>) -> Seq<Seq<char>>
    decreases ls.len(),
{
    if ls.len() == 0 {
        Seq::<Seq<char>>::empty()
    } else {
        let rest = tracklist(ls.drop_last());
        let t = trim(ls.last());
        if t.len() > 0 && looks_like_track(t) {
            rest.push(t)
        } else {
            rest
        }
    }
}

fn first_word_chars(v: &[char]) -> (r: Vec<char>)
    ensures
        r@ == first_word(v@),
{
    let ws = words_chars(v);
    if ws.len() > 0 {
        proof {
            assert(views(ws@)[0] == ws@[0]@);
        }
        let mut r: Vec<char> = Vec::new();
        append_chars(&mut r, ws[0].as_slice());
        r
    } else {
        Vec::new()
    }
}

fn looks_like_track_chars(t: &[char]) -> (b: bool)
    ensures
        b == looks_like_track(t@),
{
    if byte_len_of(t) <= 3 {
        return false;
    }
    let first = first_word_chars(t);
    let n = first.len();
    let mut has_colon = false;
    let mut digits = true;
    let mut i: usize = 0;
    while i < n
        invariant
            n == first@.len(),
            0 <= i <= n,
            has_colon == first@.take(i as int).contains(':'),
            digits == all_ascii_digits(first@.take(i as int)),
        decreases n - i,
    {
        let c = first[i];
        proof {
            assert(first@.take(i + 1) =~= first@.take(i as int).push(c));
            if !has_colon && c != ':' {
                assert forall|k: int| 0 <= k < i + 1 implies #[trigger] first@.take(i + 1)[k] != ':' by {
                    if k < i {
                        assert(first@.take(i + 1)[k] == first@.take(i as int)[k]);
                    }
                }
            }
            if has_colon {
                let k = choose|k: int| 0 <= k < i && first@.take(i as int)[k] == ':';
                assert(first@.take(i + 1)[k] == ':');
            }
            if c == ':' {
                assert(first@.take(i + 1)[i as int] == ':');
            }
            if !('0' <= c && c <= '9') {
                assert(!('0' <= first@.take(i + 1)[i as int] <= '9'));
            }
            if digits && '0' <= c && c <= '9' {
                assert forall|k: int| 0 <= k < i + 1 implies '0' <= #[trigger] first@.take(
                    i + 1,
                )[k] <= '9' by {
                    if k < i {
                        assert(first@.take(i + 1)[k] == first@.take(i as int)[k]);
                    }
                }
            }
            if !digits {
                let k = choose|k: int|
                    0 <= k < i && !('0' <= #[trigger] first@.take(i as int)[k] <= '9');
                assert(first@.take(i + 1)[k] == first@.take(i as int)[k]);
            }
        }
        if c == ':' {
            has_colon = true;
        }
        if !('0' <= c && c <= '9') {
            digits = false;
        }
        i += 1;
    }
    proof {
        assert(first@.take(n as int) =~= first@);
    }
    let ends_dot = n > 0 && first[n - 1] == '.';
    has_colon || ends_dot || digits
}

/// The lines of a description that look like tracklist entries (such as
/// "00:00 Artist - Title" or "1. Artist - Title"), trimmed.
pub fn extract_tracklist_lines(text: &str) -> (r: Vec<String>)
    ensures
        string_views(r@) == tracklist(lines(text@)),
{
    let tc = chars_of(text);
    let ls = lines_chars(tc.as_slice());
    let n = ls.len();
    let mut out: Vec<String> = Vec::new();
    let mut i: usize = 0;
    while i < n
        invariant
            n == ls@.len(),
            views(ls@) == lines(tc@),
            tc@ == text@,
            0 <= i <= n,
            string_views(out@) == tracklist(views(ls@).take(i as int)),
        decreases n - i,
    {
        let t = trim_chars(ls[i].as_slice());
        proof {
            assert(views(ls@).take(i + 1).drop_last() =~= views(ls@).take(i as int));
            assert(views(ls@).take(i + 1).last() == ls@[i as int]@);
        }
        if t.len() > 0 && looks_like_track_chars(t.as_slice()) {
            let s = string_of(t.as_slice());
            let ghost before = string_views(out@);
            out.push(s);
            proof {
                assert(string_views(out@) =~= before.push(s@));
            }
        }
        i += 1;
    }
    proof {
        assert(views(ls@).take(n as int) =~= views(ls@));
    }
    out
}

// ── audio files ─────────────────────────────────────────────────────────────
/// What `Path::extension` gives for a path: the part of its file name after
/// the last '.', if any.
pub uninterp spec fn path_extension(path: Seq<char>) -> Option<Seq<char>>;

/// Calls `std::path::Path::extension` on the path and converts the result to
/// a `String`. Nothing but the name is claimed of the result.
#[verifier::external_body]
fn extension_of(path: &str) -> (r: Option<String>)
    ensures
        match r {
            Some(e) => path_extension(path@) == Some(e@),
            None => path_extension(path@) is None,
        },
{
    std::path::Path::new(path).extension().and_then(|e| e.to_str()).map(|e| e.to_string())
}

/// The extensions of the audio containers the player accepts.
pub open spec fn audio_extension(e: Seq<char>) -> bool {
    ||| e == "mp3"@
    ||| e == "flac"@
    ||| e == "ogg"@
    ||| e == "opus"@
    ||| e == "m4a"@
    ||| e == "aac"@
    ||| e == "wav"@
    ||| e == "aiff"@
    ||| e == "wv"@
    ||| e == "ape"@
    ||| e == "mka"@
    ||| e == "webm"@
    ||| e == "mkv"@
    ||| e == "mp4"@
    ||| e == "m4b"@
}

fn is_audio_extension(e: &str) -> (b: bool)
    ensures
        b == audio_extension(e@),
{
    str_eq(e, "mp3") || str_eq(e, "flac") || str_eq(e, "ogg") || str_eq(e, "opus") || str_eq(
        e,
        "m4a",
    ) || str_eq(e, "aac") || str_eq(e, "wav") || str_eq(e, "aiff") || str_eq(e, "wv") || str_eq(
        e,
        "ape",
    ) || str_eq(e, "mka") || str_eq(e, "webm") || str_eq(e, "mkv") || str_eq(e, "mp4")
        || str_eq(e, "m4b")
}

/// A path is playable when its extension, lowercased, is an audio one.
pub open spec fn playable_audio_path(path: Seq<char>) -> bool {
    match path_extension(path) {
        Some(e) => audio_extension(lowercase(e)),
        None => false,
    }
}

pub fn is_playable_audio_path(path: &str) -> (b: bool)
    ensures
        b == playable_audio_path(path@),
{
    match extension_of(path) {
        Some(e) => {
            let l = to_lowercase(e.as_str());
            is_audio_extension(l.as_str())
        },
        None => false,
    }
}

} // verus!
