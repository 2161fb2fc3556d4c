//! NTS live-show data: the text fields of a show as the schedule API gives
//! them, cleaned up for display.

use vstd::prelude::*;
use crate::text::{chars_of, contains_chars, contains_seq, replace_all, replace_chars, string_of, trim, trim_chars};

verus! {

/// The fields of one show entry as read from the schedule JSON; `None` where
/// the field is missing or not a string.
pub struct NtsShowFields {
    pub broadcast_title: Option<String>,
    pub description: Option<String>,
    pub location_short: Option<String>,
    pub location_long: Option<String>,
    /// The `value` of each genre entry that has one.
    pub genres: Vec<String>,
    /// The `value` of each mood entry that has one.
    pub moods: Vec<String>,
}

/// The text of a show, ready for display.
pub struct NtsShowText {
    pub broadcast_title: String,
    pub location_short: String,
    pub location_long: String,
    pub description: String,
    pub genres: Vec<String>,
    pub moods: Vec<String>,
    /// The broadcast is a replay ("(R)" in its title).
    pub is_replay: bool,
}

/// The five HTML entities the API escapes, decoded in turn.
pub open spec fn unescape_html_spec(s: Seq<char>) -> Seq<char> {
    replace_all(
        replace_all(
            replace_all(replace_all(replace_all(s, "&amp;"@, "&"@), "&lt;"@, "<"@), "&gt;"@, ">"@),
            "&quot;"@,
            "\""@,
        ),
        "&#39;"@,
        "'"@,
    )
}

fn replace_str(v: Vec<char>, pat: &str, rep: &str) -> (r: Vec<char>)
    requires
        pat@.len() > 0,
    ensures
        r@ == replace_all(v@, pat@, rep@),
{
    let p = chars_of(pat);
    let q = chars_of(rep);
    replace_chars(v.as_slice(), p.as_slice(), q.as_slice())
}

/// Decodes `&amp;`, `&lt;`, `&gt;`, `&quot;` and `&#39;`, in that order.
pub fn unescape_html(s: &str) -> (r: String)
    ensures
        r@ == unescape_html_spec(s@),
{
    proof {
        reveal_strlit("&amp;");
        reveal_strlit("&lt;");
        reveal_strlit("&gt;");
        reveal_strlit("&quot;");
        reveal_strlit("&#39;");
    }
    let v = chars_of(s);
    let v = replace_str(v, "&amp;", "&");
    let v = replace_str(v, "&lt;", "<");
    let v = replace_str(v, "&gt;", ">");
    let v = replace_str(v, "&quot;", "\"");
    let v = replace_str(v, "&#39;", "'");
    string_of(v.as_slice())
}

/// The text of an optional field, empty when missing.
pub open spec fn text_or_empty(o: Option<String>) -> Seq<char> {
    match o {
        Some(s) => s@,
        None => Seq::<char>::empty(),
    }
}

/// The title, "Unknown Show" when missing.
pub open spec fn title_spec(o: Option<String>) -> Seq<char> {
    match o {
        Some(s) => s@,
        None => "Unknown Show"@,
    }
}

fn or_empty_string(o: Option<String>) -> (r: String)
    ensures
        r@ == text_or_empty(o),
{
    match o {
        Some(s) => s,
        None => String::new(),
    }
}

/// Cleans up a show's fields: a missing title reads "Unknown Show", the
/// description has its entities decoded and is trimmed, missing locations
/// are empty, and a "(R)" in the title marks a replay.
pub fn nts_show_text(f: NtsShowFields) -> (r: NtsShowText)
    ensures
        r.broadcast_title@ == title_spec(f.broadcast_title),
        r.description@ == trim(unescape_html_spec(text_or_empty(f.description))),
        r.location_short@ == text_or_empty(f.location_short),
        r.location_long@ == text_or_empty(f.location_long),
        r.genres@ == f.genres@,
        r.moods@ == f.moods@,
        r.is_replay == contains_seq(title_spec(f.broadcast_title), "(R)"@),
{
    let title = match f.broadcast_title {
        Some(t) => t,
        None => String::from_str("Unknown Show"),
    };
    let desc = or_empty_string(f.description);
    let unescaped = unescape_html(desc.as_str());
    let uc = chars_of(unescaped.as_str());
    let trimmed = trim_chars(uc.as_slice());
    let tc = chars_of(title.as_str());
    let marker = chars_of("(R)");
    let is_replay = contains_chars(tc.as_slice(), marker.as_slice());
    NtsShowText {
        broadcast_title: title,
        location_short: or_empty_string(f.location_short),
        location_long: or_empty_string(f.location_long),
        description: string_of(trimmed.as_slice()),
        genres: f.genres,
        moods: f.moods,
        is_replay,
    }
}

} // verus!
