//! What the media prober's report says of a local file: its tags, length,
//! bit rate, container and chapters, turned into the file's metadata.

use vstd::prelude::*;
use crate::text::{
    ascii_upper, ascii_upper_chars, chars_of, lines, opt_view, str_eq, string_of, string_views, trim,
    trim_chars,
};
use crate::ui::app_state::{lookup, FileChapter, FileMetadata};
use crate::ui::search::{extract_tracklist_lines, tracklist};

verus! {

/// A chapter as the prober reports it: its title, if any, and its bounds
/// in whole seconds.
pub struct ProbeChapter {
    pub title: Option<String>,
    pub start_secs: u64,
    pub end_secs: u64,
}

/// The prober's report on a file: the string-valued tags of its container,
/// in order; its length in whole seconds and its bit rate in bits per
/// second, where they parse; the container's name; and the chapters whose
/// bounds parse.
pub struct ProbeReport {
    pub tags: Vec<(String, String)>,
    pub duration_secs: Option<u64>,
    pub bit_rate: Option<u64>,
    pub format_name: Option<String>,
    pub chapters: Vec<ProbeChapter>,
}

/// A tag's value: under the key as given, else under the key in capitals.
pub open spec fn tag_value(tags: Seq<(String, String)>, key: Seq<char>) -> Option<Seq<char>> {
    match lookup(tags, key) {
        Some(v) => Some(v@),
        None => match lookup(tags, key.map_values(|c: char| ascii_upper(c))) {
            Some(v) => Some(v@),
            None => None,
        },
    }
}

/// The first of the keys whose value, trimmed, is not empty: that value.
pub open spec fn pick_tag_spec(tags: Seq<(String, String)>, keys: Seq<Seq<char>>) -> Option<Seq<char>>
    decreases keys.len(),
{
    if keys.len() == 0 {
        None
    } else {
        match tag_value(tags, keys[0]) {
            Some(v) => if trim(v).len() > 0 {
                Some(trim(v))
            } else {
                pick_tag_spec(tags, keys.drop_first())
            },
            None => pick_tag_spec(tags, keys.drop_first()),
        }
    }
}

fn lookup_text(tags: &Vec<(String, String)>, key: &[char]) -> (r: Option<String>)
    ensures
        opt_view(r) == (match lookup(tags@, key@) {
            Some(v) => Some(v@),
            None => None,
        }),
{
    let k = string_of(key);
    let n = tags.len();
    let mut i: usize = n;
    proof {
        assert(tags@.take(n as int) =~= tags@);
    }
    while i > 0
        invariant
            n == tags@.len(),
            0 <= i <= n,
            k@ == key@,
            lookup(tags@, key@) == lookup(tags@.take(i as int), key@),
        decreases i,
    {
        proof {
            assert(tags@.take(i as int).drop_last() =~= tags@.take(i - 1));
            assert(tags@.take(i as int).last() == tags@[i - 1]);
        }
        if str_eq(tags[i - 1].0.as_str(), k.as_str()) {
            return Some(tags[i - 1].1.clone());
        }
        i -= 1;
    }
    proof {
        assert(tags@.take(0) =~= Seq::<(String, String)>::empty());
    }
    None
}

/// The value of the first of the keys that is set and not blank, trimmed.
pub fn pick_tag(tags: &Vec<(String, String)>, keys: &Vec<&str>) -> (r: Option<String>)
    ensures
        opt_view(r) == pick_tag_spec(tags@, keys@.map_values(|k: &str| k@)),
{
    let ghost kv = keys@.map_values(|k: &str| k@);
    let n = keys.len();
    let mut i: usize = 0;
    proof {
        assert(kv.skip(0) =~= kv);
    }
    while i < n
        invariant
            n == keys@.len(),
            kv == keys@.map_values(|k: &str| k@),
            0 <= i <= n,
            pick_tag_spec(tags@, kv) == pick_tag_spec(tags@, kv.skip(i as int)),
        decreases n - i,
    {
        let key = chars_of(keys[i]);
        let v = match lookup_text(tags, key.as_slice()) {
            Some(v) => Some(v),
            None => {
                let upper = ascii_upper_chars(key.as_slice());
                lookup_text(tags, upper.as_slice())
            },
        };
        proof {
            assert(kv.skip(i as int)[0] == key@);
            assert(kv.skip(i as int).drop_first() =~= kv.skip(i + 1));
            assert(opt_view(v) == tag_value(tags@, key@));
        }
        match v {
            Some(s) => {
                let c = chars_of(s.as_str());
                let t = trim_chars(c.as_slice());
                if t.len() > 0 {
                    return Some(string_of(t.as_slice()));
                }
            },
            None => {},
        }
        i += 1;
    }
    None
}

/// The chapters with a title that is not blank, titles trimmed.
pub open spec fn titled_chapters(chapters: Seq<ProbeChapter>) -> Seq<(Seq<char>, u64, u64)>
    decreases chapters.len(),
{
    if chapters.len() == 0 {
        Seq::empty()
    } else {
        let rest = titled_chapters(chapters.drop_last());
        let c = chapters.last();
        let t = match c.title {
            Some(s) => trim(s@),
            None => Seq::<char>::empty(),
        };
        if t.len() > 0 {
            rest.push((t, c.start_secs, c.end_secs))
        } else {
            rest
        }
    }
}

/// The chapters as (title, start, end).
pub open spec fn chapter_views(chapters: Seq<FileChapter>) -> Seq<(Seq<char>, u64, u64)> {
    chapters.map_values(|c: FileChapter| (c.title@, c.start_secs, c.end_secs))
}

fn titled_chapters_exec(chapters: &Vec<ProbeChapter>) -> (r: Vec<FileChapter>)
    ensures
        chapter_views(r@) == titled_chapters(chapters@),
{
    let n = chapters.len();
    let mut out: Vec<FileChapter> = Vec::new();
    let mut i: usize = 0;
    while i < n
        invariant
            n == chapters@.len(),
            0 <= i <= n,
            chapter_views(out@) == titled_chapters(chapters@.take(i as int)),
        decreases n - i,
    {
        proof {
            assert(chapters@.take(i + 1).drop_last() =~= chapters@.take(i as int));
            assert(chapters@.take(i + 1).last() == chapters@[i as int]);
        }
        let c = &chapters[i];
        let t = match &c.title {
            Some(s) => trim_chars(chars_of(s.as_str()).as_slice()),
            None => Vec::new(),
        };
        if t.len() > 0 {
            let ghost before = chapter_views(out@);
            out.push(FileChapter { title: string_of(t.as_slice()), start_secs: c.start_secs, end_secs: c.end_secs });
            proof {
                assert(chapter_views(out@) =~= before.push((t@, c.start_secs, c.end_secs)));
            }
        }
        i += 1;
    }
    proof {
        assert(chapters@.take(n as int) =~= chapters@);
    }
    out
}

fn keys1(a: &'static str) -> (v: Vec<&'static str>)
    ensures
        v@.map_values(|k: &str| k@) == seq![a@],
{
    let mut v: Vec<&'static str> = Vec::new();
    v.push(a);
    proof {
        assert(v@.map_values(|k: &str| k@) =~= seq![a@]);
    }
    v
}

fn keys2(a: &'static str, b: &'static str) -> (v: Vec<&'static str>)
    ensures
        v@.map_values(|k: &str| k@) == seq![a@, b@],
{
    let mut v: Vec<&'static str> = Vec::new();
    v.push(a);
    v.push(b);
    proof {
        assert(v@.map_values(|k: &str| k@) =~= seq![a@, b@]);
    }
    v
}

fn keys4(a: &'static str, b: &'static str, c: &'static str, d: &'static str) -> (v: Vec<&'static str>)
    ensures
        v@.map_values(|k: &str| k@) == seq![a@, b@, c@, d@],
{
    let mut v: Vec<&'static str> = Vec::new();
    v.push(a);
    v.push(b);
    v.push(c);
    v.push(d);
    proof {
        assert(v@.map_values(|k: &str| k@) =~= seq![a@, b@, c@, d@]);
    }
    v
}

/// The description a file's tags give: its description or comment.
pub open spec fn description_keys() -> Seq<Seq<char>> {
    seq!["description"@, "comment"@, "DESCRIPTION"@, "COMMENT"@]
}

/// The metadata of a file from the prober's report: the title, artist,
/// album, date (or year), description (or comment) and genre tags; the
/// tracklist lines of the description; the length; the bit rate in kb/s
/// (rounded down); the container's name; and the titled chapters. The
/// report gives no sample rate or channel count.
pub fn file_metadata_from(report: &ProbeReport) -> (m: FileMetadata)
    ensures
        opt_view(m.title) == pick_tag_spec(report.tags@, seq!["title"@]),
        opt_view(m.artist) == pick_tag_spec(report.tags@, seq!["artist"@]),
        opt_view(m.album) == pick_tag_spec(report.tags@, seq!["album"@]),
        opt_view(m.date) == pick_tag_spec(report.tags@, seq!["date"@, "year"@]),
        opt_view(m.description) == pick_tag_spec(report.tags@, description_keys()),
        opt_view(m.genre) == pick_tag_spec(report.tags@, seq!["genre"@]),
        string_views(m.tracklist@) == (match pick_tag_spec(report.tags@, description_keys()) {
            Some(d) => tracklist(lines(d)),
            None => Seq::<Seq<char>>::empty(),
        }),
        m.duration_secs == report.duration_secs,
        m.bitrate_kbps == (match report.bit_rate {
            Some(b) => Some((b / 1000) as u64),
            None => None,
        }),
        opt_view(m.codec) == opt_view(report.format_name),
        m.sample_rate_hz is None,
        m.channels is None,
        chapter_views(m.chapters@) == titled_chapters(report.chapters@),
{
    let t = &report.tags;
    let description = pick_tag(t, &keys4("description", "comment", "DESCRIPTION", "COMMENT"));
    let tracklist_lines = match &description {
        Some(d) => extract_tracklist_lines(d.as_str()),
        None => Vec::new(),
    };
    let title = pick_tag(t, &keys1("title"));
    let artist = pick_tag(t, &keys1("artist"));
    let album = pick_tag(t, &keys1("album"));
    let date = pick_tag(t, &keys2("date", "year"));
    let genre = pick_tag(t, &keys1("genre"));
    let codec = match &report.format_name {
        Some(f) => Some(f.clone()),
        None => None,
    };
    let bitrate_kbps = match report.bit_rate {
        Some(b) => Some(b / 1000),
        None => None,
    };
    let chapters = titled_chapters_exec(&report.chapters);
    proof {
        if description is None {
            assert(string_views(tracklist_lines@) =~= Seq::<Seq<char>>::empty());
        }
    }
    FileMetadata {
        title,
        artist,
        album,
        date,
        description,
        genre,
        duration_secs: report.duration_secs,
        codec,
        bitrate_kbps,
        sample_rate_hz: None,
        channels: None,
        chapters,
        tracklist: tracklist_lines,
    }
}

} // verus!
