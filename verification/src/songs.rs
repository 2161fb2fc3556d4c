//! Song-recognition records and their tab-separated store ("VDS").
//!
//! A VDS file starts with a header line and holds one row per recognition
//! job, with the columns
//! `job_id  timestamp  station  icy_info  nts_show  nts_tag  nts_url  vibra_rec`.
//! Every column but `job_id` and `timestamp` may be empty.

use vstd::prelude::*;
use crate::timefmt::{
    iso_text, lemma_iso_text_chars, naive_datetime_fields, stored_time_of, stored_time_text, time_char,
    CivilTime,
    STORE_TIME_FORMAT,
};
use crate::text::{eq_chars, str_eq,
    append_chars, has_prefix, lines, lines_chars, or_empty, split_chars, split_on, starts_with_chars,
    chars_of, join, join_chars, nonempty, nonempty_string, occurs_at, opt_view, slice_chars,
    string_of, trim, trim_chars, find_chars, views, first_index, lemma_first_index, lemma_no_index,
};

verus! {

/// Which data source provided a recognition field.
#[derive(Debug, Clone, Copy, PartialEq, Eq, Structural)]
pub enum RecognitionSource {
    Vibra,
    Icy,
    Nts,
}

pub open spec fn source_label_spec(s: RecognitionSource) -> Seq<char> {
    match s {
        RecognitionSource::Vibra => "vibra"@,
        RecognitionSource::Icy => "icy"@,
        RecognitionSource::Nts => "nts"@,
    }
}

impl RecognitionSource {
    pub fn label(&self) -> (r: &'static str)
        ensures
            r@ == source_label_spec(*self),
    {
        match self {
            RecognitionSource::Vibra => "vibra",
            RecognitionSource::Icy => "icy",
            RecognitionSource::Nts => "nts",
        }
    }
}

/// The plain content of a recognition row.
pub struct RowView {
    pub job_id: Seq<char>,
    pub timestamp: Option<Seq<char>>,
    pub station: Option<Seq<char>>,
    pub icy_info: Option<Seq<char>>,
    pub nts_show: Option<Seq<char>>,
    pub nts_tag: Option<Seq<char>>,
    pub nts_url: Option<Seq<char>>,
    pub vibra_rec: Option<Seq<char>>,
}

/// One row of the store. Each source column is filled in independently as
/// its data arrives.
#[derive(Debug, Clone)]
pub struct RecognitionResult {
    /// Unique job identifier (hex hash), used to patch the row in place.
    pub job_id: String,
    /// Local wall-clock time of the job in the store's `YYYY-MM-DDTHH:MM:SS` form.
    pub timestamp: Option<String>,
    pub station: Option<String>,
    /// Raw ICY title as received from the stream.
    pub icy_info: Option<String>,
    /// NTS show broadcast title.
    pub nts_show: Option<String>,
    /// NTS tag / genre summary.
    pub nts_tag: Option<String>,
    /// NTS show URL.
    pub nts_url: Option<String>,
    /// Best track info from vibra: "Artist – Title" or just "Title".
    pub vibra_rec: Option<String>,
}

impl View for RecognitionResult {
    type V = RowView;

    open spec fn view(&self) -> RowView {
        RowView {
            job_id: self.job_id@,
            timestamp: opt_view(self.timestamp),
            station: opt_view(self.station),
            icy_info: opt_view(self.icy_info),
            nts_show: opt_view(self.nts_show),
            nts_tag: opt_view(self.nts_tag),
            nts_url: opt_view(self.nts_url),
            vibra_rec: opt_view(self.vibra_rec),
        }
    }
}

impl Default for RecognitionResult {
    fn default() -> (r: Self)
        ensures
            r@.job_id.len() == 0,
            r@.timestamp is None,
            r@.station is None,
            r@.icy_info is None,
            r@.nts_show is None,
            r@.nts_tag is None,
            r@.nts_url is None,
            r@.vibra_rec is None,
    {
        RecognitionResult {
            job_id: String::new(),
            timestamp: None,
            station: None,
            icy_info: None,
            nts_show: None,
            nts_tag: None,
            nts_url: None,
            vibra_rec: None,
        }
    }
}

/// An optional text that is present and not empty.
pub open spec fn filled(o: Option<Seq<char>>) -> bool {
    o is Some && o->0.len() > 0
}

/// Display text for the songs pane: vibra result, else ICY title, else "?".
pub open spec fn display_spec(r: RowView) -> Seq<char> {
    if filled(r.vibra_rec) {
        r.vibra_rec->0
    } else if filled(r.icy_info) {
        r.icy_info->0
    } else {
        "?"@
    }
}

/// The sources that have contributed, in the order vibra, NTS, ICY.
pub open spec fn sources_spec(r: RowView) -> Seq<RecognitionSource> {
    let a = if filled(r.vibra_rec) {
        seq![RecognitionSource::Vibra]
    } else {
        Seq::<RecognitionSource>::empty()
    };
    let b = if filled(r.nts_show) {
        a.push(RecognitionSource::Nts)
    } else {
        a
    };
    if filled(r.icy_info) {
        b.push(RecognitionSource::Icy)
    } else {
        b
    }
}

fn is_filled(o: &Option<String>) -> (b: bool)
    ensures
        b == filled(opt_view(*o)),
{
    match o {
        Some(s) => !s.as_str().is_empty(),
        None => false,
    }
}

impl RecognitionResult {
    /// Display string for the songs pane.
    pub fn display(&self) -> (r: String)
        ensures
            r@ == display_spec(self@),
    {
        if is_filled(&self.vibra_rec) {
            let v = self.vibra_rec.as_ref().unwrap();
            return v.clone();
        }
        if is_filled(&self.icy_info) {
            let i = self.icy_info.as_ref().unwrap();
            return i.clone();
        }
        String::from_str("?")
    }

    /// Which sources have contributed so far (for badge display).
    pub fn sources(&self) -> (r: Vec<RecognitionSource>)
        ensures
            r@ == sources_spec(self@),
    {
        let mut v: Vec<RecognitionSource> = Vec::new();
        if is_filled(&self.vibra_rec) {
            v.push(RecognitionSource::Vibra);
        }
        if is_filled(&self.nts_show) {
            v.push(RecognitionSource::Nts);
        }
        if is_filled(&self.icy_info) {
            v.push(RecognitionSource::Icy);
        }
        proof {
            assert(v@ =~= sources_spec(self@));
        }
        v
    }

    /// The labels of the contributing sources joined with "+".
    pub fn source_label(&self) -> (r: String)
        ensures
            r@ == join(sources_spec(self@).map_values(|s: RecognitionSource| source_label_spec(s)), seq!['+']),
    {
        let srcs = self.sources();
        let mut labels: Vec<Vec<char>> = Vec::new();
        let mut i: usize = 0;
        while i < srcs.len()
            invariant
                0 <= i <= srcs@.len(),
                srcs@ == sources_spec(self@),
                views(labels@) == srcs@.take(i as int).map_values(|s: RecognitionSource| source_label_spec(s)),
            decreases srcs@.len() - i,
        {
            let ghost before = views(labels@);
            let l = chars_of(srcs[i].label());
            labels.push(l);
            proof {
                assert(views(labels@) =~= before.push(l@));
                assert(srcs@.take(i + 1).map_values(|s: RecognitionSource| source_label_spec(s))
                    =~= srcs@.take(i as int).map_values(|s: RecognitionSource| source_label_spec(s)).push(
                    source_label_spec(srcs@[i as int])));
            }
            i += 1;
        }
        proof {
            assert(srcs@.take(srcs@.len() as int) == srcs@);
        }
        let plus: [char; 1] = ['+'];
        proof {
            assert(plus@ =~= seq!['+']);
        }
        let joined = join_chars(&labels, &plus);
        string_of(joined.as_slice())
    }
}

// ── ICY parsing ─────────────────────────────────────────────────────────────
/// The separator between artist and title in an ICY title.
pub open spec fn icy_sep() -> Seq<char> {
    seq![' ', '-', ' ']
}

/// `(title, artist)` of an ICY string "Artist - Title" (or just "Title").
pub open spec fn icy_fields(icy: Seq<char>) -> (Option<Seq<char>>, Option<Seq<char>>) {
    let s = trim(icy);
    match first_index(s, icy_sep()) {
        Some(pos) => (nonempty(trim(s.skip(pos + 3))), nonempty(trim(s.take(pos)))),
        None => (nonempty(s), None),
    }
}

/// Parses "Artist - Title" or "Title" from an ICY string into `(title, artist)`.
pub fn parse_icy(icy: &str) -> (r: (Option<String>, Option<String>))
    ensures
        opt_view(r.0) == icy_fields(icy@).0,
        opt_view(r.1) == icy_fields(icy@).1,
{
    let all = chars_of(icy);
    let s = trim_chars(all.as_slice());
    let n = s.len();
    let sep: [char; 3] = [' ', '-', ' '];
    proof {
        assert(sep@ =~= icy_sep());
    }
    match find_chars(s.as_slice(), &sep) {
        Some(pos) => {
            proof {
                lemma_first_index(s@, icy_sep(), pos as int);
            }
            let artist_raw = slice_chars(s.as_slice(), 0, pos);
            let title_raw = slice_chars(s.as_slice(), pos + 3, n);
            let artist = trim_chars(artist_raw.as_slice());
            let title = trim_chars(title_raw.as_slice());
            proof {
                assert(artist_raw@ == s@.take(pos as int));
                assert(title_raw@ == s@.skip(pos + 3));
            }
            (nonempty_string(title.as_slice()), nonempty_string(artist.as_slice()))
        },
        None => {
            proof {
                lemma_no_index(s@, icy_sep());
            }
            (nonempty_string(s.as_slice()), None)
        },
    }
}


// ── VDS rows ────────────────────────────────────────────────────────────────
/// The column separator.
pub open spec fn tab() -> Seq<char> {
    seq!['\t']
}

/// What starts the header line of the store.
pub open spec fn header_prefix() -> Seq<char> {
    seq!['j', 'o', 'b', '_', 'i', 'd', '\t']
}

/// The header line of the store, with its line end.
pub const VDS_HEADER: &'static str = "job_id\ttimestamp\tstation\ticy_info\tnts_show\tnts_tag\tnts_url\tvibra_rec\n";

/// `s` with tabs and newlines turned into spaces and carriage returns removed.
pub open spec fn vds_esc_spec(s: Seq<char>) -> Seq<char>
    decreases s.len(),
{
    if s.len() == 0 {
        Seq::<char>::empty()
    } else {
        let p = vds_esc_spec(s.drop_last());
        let c = s.last();
        if c == '\t' || c == '\n' {
            p.push(' ')
        } else if c == '\r' {
            p
        } else {
            p.push(c)
        }
    }
}

/// No character of `s` separates columns or lines.
pub open spec fn no_separators(s: Seq<char>) -> bool {
    forall|i: int| 0 <= i < s.len() ==> s[i] != '\t' && s[i] != '\n' && s[i] != '\r'
}

/// Law: escaped text holds no tab, newline or carriage return, so it never
/// splits a column or a row.
pub proof fn law_vds_esc_clean(s: Seq<char>)
    ensures
        no_separators(vds_esc_spec(s)),
    decreases s.len(),
{
    if s.len() > 0 {
        law_vds_esc_clean(s.drop_last());
    }
}

fn esc_chars(v: &[char]) -> (r: Vec<char>)
    ensures
        r@ == vds_esc_spec(v@),
{
    let n = v.len();
    let mut out: Vec<char> = Vec::new();
    let mut i: usize = 0;
    while i < n
        invariant
            n == v@.len(),
            0 <= i <= n,
            out@ == vds_esc_spec(v@.take(i as int)),
        decreases n - i,
    {
        proof {
            assert(v@.take(i + 1).drop_last() == v@.take(i as int));
        }
        let c = v[i];
        if c == '\t' || c == '\n' {
            out.push(' ');
        } else if c != '\r' {
            out.push(c);
        }
        i += 1;
    }
    proof {
        assert(v@.take(n as int) == v@);
    }
    out
}

/// Replaces tabs and newlines by spaces and drops carriage returns.
pub fn vds_esc(s: &str) -> (r: String)
    ensures
        r@ == vds_esc_spec(s@),
{
    let v = chars_of(s);
    let e = esc_chars(v.as_slice());
    string_of(e.as_slice())
}

/// The eight column texts of a row as they are written.
pub open spec fn row_cells(r: RowView) -> Seq<Seq<char>> {
    seq![
        vds_esc_spec(r.job_id),
        or_empty(r.timestamp),
        vds_esc_spec(or_empty(r.station)),
        vds_esc_spec(or_empty(r.icy_info)),
        vds_esc_spec(or_empty(r.nts_show)),
        vds_esc_spec(or_empty(r.nts_tag)),
        vds_esc_spec(or_empty(r.nts_url)),
        vds_esc_spec(or_empty(r.vibra_rec)),
    ]
}

/// One encoded row, tab-separated and ended by a newline.
pub open spec fn encode_row_spec(r: RowView) -> Seq<char> {
    join(row_cells(r), tab()).push('\n')
}

fn opt_chars(o: &Option<String>) -> (r: Vec<char>)
    ensures
        r@ == or_empty(opt_view(*o)),
{
    match o {
        Some(s) => chars_of(s.as_str()),
        None => Vec::new(),
    }
}

fn push_piece(cells: &mut Vec<Vec<char>>, piece: Vec<char>)
    ensures
        views(final(cells)@) == views(old(cells)@).push(piece@),
{
    let ghost before = views(cells@);
    cells.push(piece);
    proof {
        assert(views(cells@) =~= before.push(piece@));
    }
}

/// Encodes one row of the store.
pub fn encode_row(r: &RecognitionResult) -> (out: String)
    ensures
        out@ == encode_row_spec(r@),
{
    let mut cells: Vec<Vec<char>> = Vec::new();
    let job = chars_of(r.job_id.as_str());
    push_piece(&mut cells, esc_chars(job.as_slice()));
    push_piece(&mut cells, opt_chars(&r.timestamp));
    push_piece(&mut cells, esc_chars(opt_chars(&r.station).as_slice()));
    push_piece(&mut cells, esc_chars(opt_chars(&r.icy_info).as_slice()));
    push_piece(&mut cells, esc_chars(opt_chars(&r.nts_show).as_slice()));
    push_piece(&mut cells, esc_chars(opt_chars(&r.nts_tag).as_slice()));
    push_piece(&mut cells, esc_chars(opt_chars(&r.nts_url).as_slice()));
    push_piece(&mut cells, esc_chars(opt_chars(&r.vibra_rec).as_slice()));
    proof {
        assert(views(cells@) =~= row_cells(r@));
    }
    let sep: [char; 1] = ['\t'];
    proof {
        assert(sep@ =~= tab());
    }
    let mut line = join_chars(&cells, &sep);
    line.push('\n');
    string_of(line.as_slice())
}

/// A trimmed, non-empty column text (`nn`).
pub open spec fn nn_spec(s: Seq<char>) -> Option<Seq<char>> {
    nonempty(trim(s))
}

/// What appending a row writes: the header first when the file did not
/// exist yet, then the encoded row.
pub open spec fn vds_append_spec(file_existed: bool, r: RowView) -> Seq<char> {
    if file_existed {
        encode_row_spec(r)
    } else {
        VDS_HEADER@ + encode_row_spec(r)
    }
}

/// The text to append to the store for a new (possibly partial) row.
pub fn vds_append_text(file_existed: bool, r: &RecognitionResult) -> (out: String)
    ensures
        out@ == vds_append_spec(file_existed, r@),
{
    let row = encode_row(r);
    if file_existed {
        row
    } else {
        let mut v = chars_of(VDS_HEADER);
        let rc = chars_of(row.as_str());
        append_chars(&mut v, rc.as_slice());
        string_of(v.as_slice())
    }
}


/// The trimmed text, or `None` when nothing is left.
pub fn nn(s: &str) -> (r: Option<String>)
    ensures
        opt_view(r) == nn_spec(s@),
{
    let v = chars_of(s);
    let t = trim_chars(v.as_slice());
    nonempty_string(t.as_slice())
}

fn nn_chars(v: &[char]) -> (r: Option<String>)
    ensures
        opt_view(r) == nn_spec(v@),
{
    let t = trim_chars(v);
    nonempty_string(t.as_slice())
}

/// Column `i` of a split row as `nn` reads it, `None` when the row is shorter.
pub open spec fn col(cols: Seq<Seq<char>>, i: int) -> Option<Seq<char>> {
    if i < cols.len() {
        nn_spec(cols[i])
    } else {
        None
    }
}

/// A stored line read back as a row, with `ts` as its timestamp; `None` when
/// the line has fewer than three columns. (Columns after the eighth are
/// ignored, so splitting at every tab reads the same columns as splitting
/// into at most nine.)
pub open spec fn vds_row(line: Seq<char>, ts: Option<Seq<char>>) -> Option<RowView> {
    let cols = split_on(line, '\t');
    if cols.len() < 3 {
        None
    } else {
        Some(
            RowView {
                job_id: trim(cols[0]),
                timestamp: ts,
                station: col(cols, 2),
                icy_info: col(cols, 3),
                nts_show: col(cols, 4),
                nts_tag: col(cols, 5),
                nts_url: col(cols, 6),
                vibra_rec: col(cols, 7),
            },
        )
    }
}

fn col_at(cols: &Vec<Vec<char>>, i: usize) -> (r: Option<String>)
    ensures
        opt_view(r) == col(views(cols@), i as int),
{
    if i < cols.len() {
        nn_chars(cols[i].as_slice())
    } else {
        None
    }
}

/// Reads a stored line back with the given timestamp.
pub fn vds_row_with_time(line: &str, ts: Option<String>) -> (r: Option<RecognitionResult>)
    ensures
        match r {
            Some(row) => vds_row(line@, opt_view(ts)) == Some(row@),
            None => vds_row(line@, opt_view(ts)) is None,
        },
{
    let v = chars_of(line);
    let cols = split_chars(v.as_slice(), '\t');
    if cols.len() < 3 {
        return None;
    }
    let job = trim_chars(cols[0].as_slice());
    Some(
        RecognitionResult {
            job_id: string_of(job.as_slice()),
            timestamp: ts,
            station: col_at(&cols, 2),
            icy_info: col_at(&cols, 3),
            nts_show: col_at(&cols, 4),
            nts_tag: col_at(&cols, 5),
            nts_url: col_at(&cols, 6),
            vibra_rec: col_at(&cols, 7),
        },
    )
}

/// A stored timestamp as the store reads it back: normalised through
/// chrono and the local time zone (see `stored_time_text`).
fn vds_time_text(s: &str) -> (r: Option<String>)
    ensures
        r matches Some(t) ==> no_separators(t@),
        stored_time_of(s@, opt_view(r)),
{
    let r = stored_time_text(s);
    proof {
        if r is Some {
            let t = r->0@;
            let f = choose|f: CivilTime|
                naive_datetime_fields(s@, STORE_TIME_FORMAT@) == Some(f) && t == iso_text(f);
            lemma_iso_text_chars(f);
            assert forall|i: int| 0 <= i < t.len() implies t[i] != '\t' && t[i] != '\n' && t[i]
                != '\r' by {
                assert(time_char(t[i]));
            }
        }
    }
    r
}

/// Parses one stored row. The timestamp column goes through chrono and the
/// local time zone; every other column is fixed by `vds_row`.
pub fn parse_vds_row(line: &str) -> (r: Option<RecognitionResult>)
    ensures
        r is None <==> split_on(line@, '\t').len() < 3,
        r matches Some(row) ==> vds_row(line@, row@.timestamp) == Some(row@),
        r matches Some(row) ==> (row@.timestamp matches Some(t) ==> no_separators(t)),
        r matches Some(row) ==> stored_time_of(trim(split_on(line@, '\t')[1]), row@.timestamp),
{
    let v = chars_of(line);
    let cols = split_chars(v.as_slice(), '\t');
    if cols.len() < 3 {
        return None;
    }
    let ts_text = trim_chars(cols[1].as_slice());
    let ts = vds_time_text(string_of(ts_text.as_slice()).as_str());
    vds_row_with_time(line, ts)
}


// ── round trip ──────────────────────────────────────────────────────────────
/// `c` does not occur in `s`.
pub open spec fn lacks(s: Seq<char>, c: char) -> bool {
    forall|i: int| 0 <= i < s.len() ==> s[i] != c
}

proof fn lemma_split_single(t: Seq<char>, c: char)
    requires
        lacks(t, c),
    ensures
        split_on(t, c) == seq![t],
    decreases t.len(),
{
    if t.len() > 0 {
        let u = t.drop_last();
        assert(lacks(u, c));
        lemma_split_single(u, c);
        assert(u.push(t.last()) == t);
        assert(t.last() != c);
        assert(seq![u].update(0, u.push(t.last())) =~= seq![t]);
    } else {
        assert(t =~= Seq::<char>::empty());
    }
}

proof fn lemma_split_append(s: Seq<char>, c: char, t: Seq<char>)
    requires
        lacks(t, c),
    ensures
        split_on(s + seq![c] + t, c) == split_on(s, c).push(t),
    decreases t.len(),
{
    let x = s + seq![c] + t;
    if t.len() == 0 {
        assert(x =~= s.push(c));
        assert(x.drop_last() =~= s);
        assert(t =~= Seq::<char>::empty());
    } else {
        let u = t.drop_last();
        assert(lacks(u, c));
        lemma_split_append(s, c, u);
        assert(x.drop_last() =~= s + seq![c] + u);
        assert(x.last() == t.last());
        assert(t.last() != c);
        assert(u.push(t.last()) =~= t);
        let w = split_on(s, c).push(u);
        assert(w.update(w.len() - 1, u.push(t.last())) =~= split_on(s, c).push(t));
    }
}

proof fn lemma_split_join(cells: Seq<Seq<char>>, c: char)
    requires
        cells.len() >= 1,
        forall|k: int| 0 <= k < cells.len() ==> lacks(#[trigger] cells[k], c),
    ensures
        split_on(join(cells, seq![c]), c) == cells,
    decreases cells.len(),
{
    if cells.len() == 1 {
        lemma_split_single(cells[0], c);
        assert(cells == seq![cells[0]]);
    } else {
        let init = cells.drop_last();
        lemma_split_join(init, c);
        assert(lacks(cells[cells.len() - 1], c));
        lemma_split_append(join(init, seq![c]), c, cells.last());
        assert(init.push(cells.last()) == cells);
    }
}

proof fn lemma_esc_clean(s: Seq<char>)
    requires
        no_separators(s),
    ensures
        vds_esc_spec(s) == s,
    decreases s.len(),
{
    if s.len() > 0 {
        lemma_esc_clean(s.drop_last());
        assert(s.drop_last().push(s.last()) == s);
    }
}

/// A field that survives writing and reading: present, free of separators and
/// of surrounding whitespace.
pub open spec fn clean_text(s: Seq<char>) -> bool {
    s.len() > 0 && no_separators(s) && trim(s) == s
}

pub open spec fn clean_field(o: Option<Seq<char>>) -> bool {
    o matches Some(s) ==> clean_text(s)
}

/// A row whose every column reads back as it was written.
pub open spec fn clean_row(r: RowView) -> bool {
    &&& no_separators(r.job_id)
    &&& trim(r.job_id) == r.job_id
    &&& (r.timestamp matches Some(t) ==> no_separators(t))
    &&& clean_field(r.station)
    &&& clean_field(r.icy_info)
    &&& clean_field(r.nts_show)
    &&& clean_field(r.nts_tag)
    &&& clean_field(r.nts_url)
    &&& clean_field(r.vibra_rec)
}

proof fn lemma_field_roundtrip(o: Option<Seq<char>>)
    requires
        clean_field(o),
    ensures
        nn_spec(vds_esc_spec(or_empty(o))) == o,
        lacks(vds_esc_spec(or_empty(o)), '\t'),
{
    match o {
        Some(s) => {
            lemma_esc_clean(s);
        },
        None => {
            assert(vds_esc_spec(Seq::<char>::empty()) == Seq::<char>::empty());
            assert(trim(Seq::<char>::empty()) == Seq::<char>::empty());
        },
    }
}

/// Law: a written row reads back as the same row. Every column of a clean
/// row comes back unchanged; the timestamp column is whatever the reader
/// makes of the written timestamp text (here taken to be that text).
pub proof fn law_vds_row_roundtrip(r: RowView)
    requires
        clean_row(r),
    ensures
        vds_row(join(row_cells(r), tab()), r.timestamp) == Some(r),
        encode_row_spec(r) == join(row_cells(r), tab()).push('\n'),
{
    lemma_esc_clean(r.job_id);
    lemma_field_roundtrip(r.station);
    lemma_field_roundtrip(r.icy_info);
    lemma_field_roundtrip(r.nts_show);
    lemma_field_roundtrip(r.nts_tag);
    lemma_field_roundtrip(r.nts_url);
    lemma_field_roundtrip(r.vibra_rec);
    let cells = row_cells(r);
    assert(lacks(cells[0], '\t'));
    assert(lacks(cells[1], '\t'));
    assert forall|k: int| 0 <= k < cells.len() implies lacks(#[trigger] cells[k], '\t') by {
        if k == 0 {
        } else if k == 1 {
        }
    }
    lemma_split_join(cells, '\t');
    let cols = split_on(join(cells, tab()), '\t');
    assert(cols == cells);
}


// ── reading and patching a whole store ──────────────────────────────────────
/// The store's header line.
pub open spec fn is_header(l: Seq<char>) -> bool {
    has_prefix(l, header_prefix())
}

/// The lines of a store after its header line.
pub open spec fn vds_body(content: Seq<char>) -> Seq<Seq<char>> {
    let ls = lines(content);
    if ls.len() > 0 && is_header(ls[0]) {
        ls.drop_first()
    } else {
        ls
    }
}

/// The last `limit` lines of the body (all of them when there are fewer).
pub open spec fn vds_recent(content: Seq<char>, limit: nat) -> Seq<Seq<char>> {
    let b = vds_body(content);
    if b.len() > limit {
        b.skip(b.len() - limit)
    } else {
        b
    }
}

/// A line with at least three columns, which is what makes a row.
pub open spec fn is_row_line(l: Seq<char>) -> bool {
    split_on(l, '\t').len() >= 3
}

pub open spec fn row_lines(content: Seq<char>, limit: nat) -> Seq<Seq<char>> {
    vds_recent(content, limit).filter(|l: Seq<char>| is_row_line(l))
}

fn header_chars() -> (r: Vec<char>)
    ensures
        r@ == header_prefix(),
{
    let mut v: Vec<char> = Vec::new();
    v.push('j');
    v.push('o');
    v.push('b');
    v.push('_');
    v.push('i');
    v.push('d');
    v.push('\t');
    proof {
        assert(v@ =~= header_prefix());
    }
    v
}

/// The rows among the last `limit` lines of a store's text, in order (the
/// part of reading a store that follows reading the file).
pub fn vds_rows(content: &str, limit: usize) -> (r: Vec<RecognitionResult>)
    ensures
        r@.len() == row_lines(content@, limit as nat).len(),
        forall|k: int|
            0 <= k < r@.len() ==> vds_row(row_lines(content@, limit as nat)[k], r@[k]@.timestamp)
                == Some(r@[k]@),
        forall|k: int|
            0 <= k < r@.len() ==> (#[trigger] r@[k]@.timestamp matches Some(t) ==> no_separators(t)),
{
    let all = chars_of(content);
    let ls = lines_chars(all.as_slice());
    let hdr = header_chars();
    let n = ls.len();
    let mut start: usize = 0;
    if n > 0 && starts_with_chars(ls[0].as_slice(), hdr.as_slice()) {
        start = 1;
    }
    let ghost body = vds_body(content@);
    proof {
        if start == 1 {
            assert(ls@[0]@ == views(ls@)[0]);
            assert(body =~= views(ls@).skip(1));
        } else {
            assert(body =~= views(ls@).skip(0));
        }
    }
    let blen = n - start;
    if blen > limit {
        start = start + (blen - limit);
    }
    let ghost recent = vds_recent(content@, limit as nat);
    let ghost pred = |l: Seq<char>| is_row_line(l);
    proof {
        assert(recent =~= views(ls@).skip(start as int));
    }
    let mut out: Vec<RecognitionResult> = Vec::new();
    let mut i = start;
    while i < n
        invariant
            n == ls@.len(),
            start <= i <= n,
            recent == views(ls@).skip(start as int),
            pred == (|l: Seq<char>| is_row_line(l)),
            out@.len() == recent.take(i - start).filter(pred).len(),
            forall|k: int|
                0 <= k < out@.len() ==> vds_row(recent.take(i - start).filter(pred)[k], out@[k]@.timestamp)
                    == Some(out@[k]@),
            forall|k: int|
                0 <= k < out@.len() ==> (#[trigger] out@[k]@.timestamp matches Some(t) ==> no_separators(t)),
        decreases n - i,
    {
        let line = string_of(ls[i].as_slice());
        let ghost prefix = recent.take(i - start);
        proof {
            assert(recent.take(i - start + 1) =~= prefix.push(line@));
            reveal(Seq::filter);
            assert(prefix.push(line@).drop_last() =~= prefix);
        }
        match parse_vds_row(line.as_str()) {
            Some(row) => {
                out.push(row);
            },
            None => {},
        }
        i += 1;
    }
    proof {
        assert(recent.take(n - start) =~= recent);
    }
    out
}

/// What a patch sets: each present field replaces the stored one.
pub struct PatchView {
    pub icy_info: Option<Seq<char>>,
    pub nts_show: Option<Seq<char>>,
    pub nts_tag: Option<Seq<char>>,
    pub nts_url: Option<Seq<char>>,
    pub vibra_rec: Option<Seq<char>>,
}

/// Fields that can be patched after a row was first written.
#[derive(Debug, Default)]
pub struct VdsPatch {
    pub icy_info: Option<String>,
    pub nts_show: Option<String>,
    pub nts_tag: Option<String>,
    pub nts_url: Option<String>,
    pub vibra_rec: Option<String>,
}

impl View for VdsPatch {
    type V = PatchView;

    open spec fn view(&self) -> PatchView {
        PatchView {
            icy_info: opt_view(self.icy_info),
            nts_show: opt_view(self.nts_show),
            nts_tag: opt_view(self.nts_tag),
            nts_url: opt_view(self.nts_url),
            vibra_rec: opt_view(self.vibra_rec),
        }
    }
}

pub open spec fn or_keep(new: Option<Seq<char>>, old: Option<Seq<char>>) -> Option<Seq<char>> {
    if new is Some {
        new
    } else {
        old
    }
}

/// The row after the patch: patched columns replaced, the others kept.
pub open spec fn apply_patch(r: RowView, p: PatchView) -> RowView {
    RowView {
        icy_info: or_keep(p.icy_info, r.icy_info),
        nts_show: or_keep(p.nts_show, r.nts_show),
        nts_tag: or_keep(p.nts_tag, r.nts_tag),
        nts_url: or_keep(p.nts_url, r.nts_url),
        vibra_rec: or_keep(p.vibra_rec, r.vibra_rec),
        ..r
    }
}

/// The index of the newest entry of a job in a history, if it has one.
pub open spec fn newest_with_job(h: Seq<RecognitionResult>, job_id: Seq<char>) -> Option<int>
    decreases h.len(),
{
    if h.len() == 0 {
        None
    } else if h.last().job_id@ == job_id {
        Some(h.len() - 1)
    } else {
        newest_with_job(h.drop_last(), job_id)
    }
}

proof fn lemma_newest_with_job_bounds(h: Seq<RecognitionResult>, job_id: Seq<char>)
    ensures
        match newest_with_job(h, job_id) {
            Some(i) => 0 <= i < h.len() && h[i].job_id@ == job_id && forall|j: int|
                i < j < h.len() ==> #[trigger] h[j].job_id@ != job_id,
            None => forall|j: int| 0 <= j < h.len() ==> #[trigger] h[j].job_id@ != job_id,
        },
    decreases h.len(),
{
    if h.len() > 0 {
        let d = h.drop_last();
        lemma_newest_with_job_bounds(d, job_id);
        assert forall|j: int| 0 <= j < d.len() implies #[trigger] h[j] == d[j] by {}
        if h.last().job_id@ != job_id {
            match newest_with_job(d, job_id) {
                Some(i) => {
                    assert forall|j: int| i < j < h.len() implies #[trigger] h[j].job_id@ != job_id by {
                        if j < d.len() {
                            assert(h[j] == d[j]);
                        }
                    }
                },
                None => {
                    assert forall|j: int| 0 <= j < h.len() implies #[trigger] h[j].job_id@ != job_id by {
                        if j < d.len() {
                            assert(h[j] == d[j]);
                        }
                    }
                },
            }
        }
    }
}

fn clone_opt(o: &Option<String>) -> (r: Option<String>)
    ensures
        opt_view(r) == opt_view(*o),
{
    match o {
        Some(s) => Some(s.clone()),
        None => None,
    }
}

fn patched_opt(new: &Option<String>, old: &Option<String>) -> (r: Option<String>)
    ensures
        opt_view(r) == or_keep(opt_view(*new), opt_view(*old)),
{
    match new {
        Some(v) => Some(v.clone()),
        None => clone_opt(old),
    }
}

/// Applies a recognition patch to the newest entry of its job in the
/// in-memory history: the columns the patch holds replace the entry's.
/// Returns whether the job has an entry; the other entries stay.
pub fn patch_history(history: &mut Vec<RecognitionResult>, job_id: &str, patch: &VdsPatch) -> (found: bool)
    ensures
        match newest_with_job(old(history)@, job_id@) {
            Some(i) => {
                &&& found
                &&& final(history)@.len() == old(history)@.len()
                &&& forall|j: int| 0 <= j < old(history)@.len() && j != i ==> final(history)@[j] == old(history)@[j]
                &&& final(history)@[i]@ == apply_patch(old(history)@[i]@, patch@)
            },
            None => !found && final(history)@ == old(history)@,
        },
{
    proof {
        lemma_newest_with_job_bounds(history@, job_id@);
    }
    let n = history.len();
    let mut i: usize = n;
    while i > 0
        invariant
            n == history@.len(),
            history@ == old(history)@,
            0 <= i <= n,
            forall|j: int| i <= j < n ==> #[trigger] history@[j].job_id@ != job_id@,
        decreases i,
    {
        if str_eq(history[i - 1].job_id.as_str(), job_id) {
            let k = i - 1;
            proof {
                lemma_newest_with_job_bounds(history@, job_id@);
                let m = newest_with_job(history@, job_id@);
                assert(m is Some) by {
                    if m is None {
                        assert(history@[k as int].job_id@ != job_id@);
                    }
                }
                let mi = m->0;
                assert(mi == k) by {
                    if mi < k {
                        assert(history@[k as int].job_id@ != job_id@);
                    }
                    if mi > k {
                        assert(history@[mi].job_id@ != job_id@);
                    }
                }
            }
            let e = &history[k];
            let updated = RecognitionResult {
                job_id: e.job_id.clone(),
                timestamp: clone_opt(&e.timestamp),
                station: clone_opt(&e.station),
                icy_info: patched_opt(&patch.icy_info, &e.icy_info),
                nts_show: patched_opt(&patch.nts_show, &e.nts_show),
                nts_tag: patched_opt(&patch.nts_tag, &e.nts_tag),
                nts_url: patched_opt(&patch.nts_url, &e.nts_url),
                vibra_rec: patched_opt(&patch.vibra_rec, &e.vibra_rec),
            };
            proof {
                assert(updated@ == apply_patch(old(history)@[k as int]@, patch@));
            }
            history.set(k, updated);
            return true;
        }
        i -= 1;
    }
    false
}

/// Column `i`, or empty text when the line is shorter.
pub open spec fn cell(cols: Seq<Seq<char>>, i: int) -> Seq<char> {
    if 0 <= i < cols.len() {
        cols[i]
    } else {
        Seq::<char>::empty()
    }
}

/// A stored line read for patching (the job id is taken as it stands).
pub open spec fn stored_row(line: Seq<char>, ts: Option<Seq<char>>) -> RowView {
    let cols = split_on(line, '\t');
    RowView {
        job_id: cell(cols, 0),
        timestamp: ts,
        station: nn_spec(cell(cols, 2)),
        icy_info: nn_spec(cell(cols, 3)),
        nts_show: nn_spec(cell(cols, 4)),
        nts_tag: nn_spec(cell(cols, 5)),
        nts_url: nn_spec(cell(cols, 6)),
        vibra_rec: nn_spec(cell(cols, 7)),
    }
}

/// The row of job `job_id`: not the header, first column equal to the id.
pub open spec fn is_target(line: Seq<char>, job_id: Seq<char>) -> bool {
    !is_header(line) && split_on(line, '\t')[0] == job_id
}

/// `s` without its trailing newlines (`trim_end_matches('\n')`).
pub open spec fn trim_newlines(s: Seq<char>) -> Seq<char>
    decreases s.len(),
{
    if s.len() > 0 && s.last() == '\n' {
        trim_newlines(s.drop_last())
    } else {
        s
    }
}

/// The store's text with line `idx` replaced by the patched row.
pub open spec fn patched_content(
    ls: Seq<Seq<char>>,
    idx: int,
    row: RowView,
) -> Seq<char> {
    join(ls.update(idx, trim_newlines(encode_row_spec(row))), seq!['\n']).push('\n')
}

fn cell_at(cols: &Vec<Vec<char>>, i: usize) -> (r: Vec<char>)
    ensures
        r@ == cell(views(cols@), i as int),
{
    if i < cols.len() {
        cols[i].clone()
    } else {
        Vec::new()
    }
}

fn patch_field(new: &Option<String>, old: Option<String>) -> (r: Option<String>)
    ensures
        opt_view(r) == or_keep(opt_view(*new), opt_view(old)),
{
    match new {
        Some(v) => Some(v.clone()),
        None => old,
    }
}

fn trim_newlines_chars(v: Vec<char>) -> (r: Vec<char>)
    ensures
        r@ == trim_newlines(v@),
{
    let mut w = v;
    while w.len() > 0 && w[w.len() - 1] == '\n'
        invariant
            trim_newlines(w@) == trim_newlines(v@),
        decreases w@.len(),
    {
        let ghost before = w@;
        w.pop();
        proof {
            assert(w@ =~= before.drop_last());
        }
    }
    w
}

fn find_target(ls: &Vec<Vec<char>>, job: &[char]) -> (r: Option<usize>)
    ensures
        match r {
            Some(idx) => idx < ls@.len() && is_target(views(ls@)[idx as int], job@) && forall|j: int|
                0 <= j < idx ==> !is_target(#[trigger] views(ls@)[j], job@),
            None => forall|j: int| 0 <= j < ls@.len() ==> !is_target(#[trigger] views(ls@)[j], job@),
        },
{
    let hdr = header_chars();
    let n = ls.len();
    let mut i: usize = 0;
    while i < n
        invariant
            n == ls@.len(),
            0 <= i <= n,
            hdr@ == header_prefix(),
            forall|j: int| 0 <= j < i ==> !is_target(#[trigger] views(ls@)[j], job@),
        decreases n - i,
    {
        let is_hdr = starts_with_chars(ls[i].as_slice(), hdr.as_slice());
        let cols = split_chars(ls[i].as_slice(), '\t');
        proof {
            assert(ls@[i as int]@ == views(ls@)[i as int]);
            crate::text::lemma_split_on_nonempty(views(ls@)[i as int], '\t');
            assert(cols@[0]@ == views(cols@)[0]);
        }
        if !is_hdr && eq_chars(cols[0].as_slice(), job) {
            return Some(i);
        }
        i += 1;
    }
    None
}

/// The patch applied to the store's text: `None` when no row has the job id
/// (nothing is to be written), else the new text of the whole store.
pub fn patch_vds_text(content: &str, job_id: &str, patch: &VdsPatch) -> (r: Option<String>)
    ensures
        r is None <==> forall|i: int|
            0 <= i < lines(content@).len() ==> !is_target(#[trigger] lines(content@)[i], job_id@),
        r matches Some(out) ==> exists|idx: int, ts: Option<Seq<char>>|
            0 <= idx < lines(content@).len() && is_target(lines(content@)[idx], job_id@)
                && (forall|j: int| 0 <= j < idx ==> !is_target(#[trigger] lines(content@)[j], job_id@))
                && (ts matches Some(t) ==> no_separators(t)) && out@ == patched_content(
                lines(content@),
                idx,
                apply_patch(stored_row(lines(content@)[idx], ts), patch@),
            ),
{
    let all = chars_of(content);
    let mut ls = lines_chars(all.as_slice());
    let ghost lv = lines(content@);
    let job = chars_of(job_id);
    let found = find_target(&ls, job.as_slice());
    match found {
        None => {
            return None;
        },
        Some(idx) => {
            let line = ls[idx].clone();
            let cols = split_chars(line.as_slice(), '\t');
            proof {
                assert(line@ == lv[idx as int]);
            }
            let ts_cell = cell_at(&cols, 1);
            let ts = vds_time_text(string_of(ts_cell.as_slice()).as_str());
            let row = RecognitionResult {
                job_id: string_of(cell_at(&cols, 0).as_slice()),
                timestamp: ts,
                station: nn_chars(cell_at(&cols, 2).as_slice()),
                icy_info: patch_field(&patch.icy_info, nn_chars(cell_at(&cols, 3).as_slice())),
                nts_show: patch_field(&patch.nts_show, nn_chars(cell_at(&cols, 4).as_slice())),
                nts_tag: patch_field(&patch.nts_tag, nn_chars(cell_at(&cols, 5).as_slice())),
                nts_url: patch_field(&patch.nts_url, nn_chars(cell_at(&cols, 6).as_slice())),
                vibra_rec: patch_field(&patch.vibra_rec, nn_chars(cell_at(&cols, 7).as_slice())),
            };
            let ghost want = apply_patch(stored_row(lv[idx as int], opt_view(ts)), patch@);
            proof {
                assert(row@ == want);
            }
            let enc = encode_row(&row);
            let new_line = trim_newlines_chars(chars_of(enc.as_str()));
            let ghost before = ls@;
            ls.set(idx, new_line);
            proof {
                assert(views(ls@) =~= lv.update(idx as int, new_line@));
            }
            let nl: [char; 1] = ['\n'];
            proof {
                assert(nl@ =~= seq!['\n']);
            }
            let mut text = join_chars(&ls, &nl);
            text.push('\n');
            let out = string_of(text.as_slice());
            proof {
                assert(out@ == patched_content(lv, idx as int, want));
            }
            Some(out)
        },
    }
}


// ── recognition sources ─────────────────────────────────────────────────────
/// The separator between artist and title in a vibra result: " – ".
pub open spec fn dash_sep() -> Seq<char> {
    seq![' ', '\u{2013}', ' ']
}

pub open spec fn trimmed_text(o: Option<Seq<char>>) -> Option<Seq<char>> {
    match o {
        Some(s) => nonempty(trim(s)),
        None => None,
    }
}

/// "Artist – Title" (or just "Title") from vibra's track title and subtitle.
pub open spec fn vibra_rec_spec(title: Option<Seq<char>>, subtitle: Option<Seq<char>>) -> Option<
    Seq<char>,
> {
    match trimmed_text(title) {
        None => None,
        Some(t) => match trimmed_text(subtitle) {
            Some(a) => Some(a + dash_sep() + t),
            None => Some(t),
        },
    }
}

fn trimmed_opt(o: &Option<String>) -> (r: Option<Vec<char>>)
    ensures
        match r {
            Some(v) => trimmed_text(opt_view(*o)) == Some(v@),
            None => trimmed_text(opt_view(*o)) is None,
        },
{
    match o {
        Some(s) => {
            let v = chars_of(s.as_str());
            let t = trim_chars(v.as_slice());
            if t.len() == 0 {
                None
            } else {
                Some(t)
            }
        },
        None => None,
    }
}

/// The best track text of a vibra answer, given the `track.title` and
/// `track.subtitle` strings of its JSON (absent when not strings).
pub fn vibra_rec_string(title: &Option<String>, subtitle: &Option<String>) -> (r: Option<String>)
    ensures
        opt_view(r) == vibra_rec_spec(opt_view(*title), opt_view(*subtitle)),
{
    match trimmed_opt(title) {
        None => None,
        Some(t) => match trimmed_opt(subtitle) {
            Some(a) => {
                let mut out = a;
                out.push(' ');
                out.push('\u{2013}');
                out.push(' ');
                append_chars(&mut out, t.as_slice());
                proof {
                    assert(out@ =~= a@ + dash_sep() + t@);
                }
                Some(string_of(out.as_slice()))
            },
            None => Some(string_of(t.as_slice())),
        },
    }
}

/// The strings among the values, in order.
pub open spec fn present(vals: Seq<Option<Seq<char>>>) -> Seq<Seq<char>>
    decreases vals.len(),
{
    if vals.len() == 0 {
        Seq::<Seq<char>>::empty()
    } else {
        let p = present(vals.drop_last());
        match vals.last() {
            Some(s) => p.push(s),
            None => p,
        }
    }
}

/// The first three genre names joined with ", ", when that is not empty.
pub open spec fn nts_tags_spec(genres: Option<Seq<Option<Seq<char>>>>) -> Option<Seq<char>> {
    match genres {
        None => None,
        Some(g) => {
            let names = present(g);
            let first = if names.len() > 3 {
                names.take(3)
            } else {
                names
            };
            nonempty(join(first, seq![',', ' ']))
        },
    }
}

/// The show page of an NTS show slug.
pub open spec fn nts_show_url(slug: Seq<char>) -> Seq<char> {
    "https://www.nts.live/shows/"@ + slug
}

/// Law: an NTS recognition with a show slug links to that show's page,
/// `https://www.nts.live/shows/` followed by the slug; without a slug it
/// has no link.
pub proof fn law_nts_show_link(
    title: Option<Seq<char>>,
    genres: Option<Seq<Option<Seq<char>>>>,
    slug: Seq<char>,
)
    ensures
        nts_fields_spec(title, genres, Some(slug)) matches Some(x) ==> x.2 == Some(
            "https://www.nts.live/shows/"@ + slug,
        ),
        nts_fields_spec(title, genres, None) matches Some(x) ==> x.2 is None,
{
}

/// Show title, tag summary and show URL of an NTS channel's current show,
/// given the `broadcast_title`, the `value` of each genre entry and the
/// `slug` read from the live API (each absent when not a string, the genres
/// absent when not an array). `None` when there is no non-blank title.
pub open spec fn nts_fields_spec(
    title: Option<Seq<char>>,
    genres: Option<Seq<Option<Seq<char>>>>,
    slug: Option<Seq<char>>,
) -> Option<(Seq<char>, Option<Seq<char>>, Option<Seq<char>>)> {
    match trimmed_text(title) {
        None => None,
        Some(t) => Some(
            (
                t,
                nts_tags_spec(genres),
                match slug {
                    Some(s) => Some(nts_show_url(s)),
                    None => None,
                },
            ),
        ),
    }
}

pub open spec fn opt_views(v: Seq<Option<String>>) -> Seq<Option<Seq<char>>> {
    v.map_values(|o: Option<String>| opt_view(o))
}

fn nts_tags(genres: &Option<Vec<Option<String>>>) -> (r: Option<String>)
    ensures
        opt_view(r) == nts_tags_spec(
            match genres {
                Some(g) => Some(opt_views(g@)),
                None => None,
            },
        ),
{
    match genres {
        None => None,
        Some(g) => {
            let ghost gv = opt_views(g@);
            let mut names: Vec<Vec<char>> = Vec::new();
            let mut i: usize = 0;
            while i < g.len()
                invariant
                    0 <= i <= g@.len(),
                    gv == opt_views(g@),
                    views(names@) == present(gv.take(i as int)),
                decreases g@.len() - i,
            {
                proof {
                    assert(gv.take(i + 1).drop_last() =~= gv.take(i as int));
                    assert(gv.take(i + 1).last() == opt_view(g@[i as int]));
                }
                match &g[i] {
                    Some(s) => {
                        let ghost before = views(names@);
                        let c = chars_of(s.as_str());
                        names.push(c);
                        proof {
                            assert(views(names@) =~= before.push(c@));
                        }
                    },
                    None => {},
                }
                i += 1;
            }
            proof {
                assert(gv.take(g@.len() as int) =~= gv);
            }
            if names.len() > 3 {
                let ghost before = views(names@);
                names.truncate(3);
                proof {
                    assert(views(names@) =~= before.take(3));
                }
            }
            let sep: [char; 2] = [',', ' '];
            proof {
                assert(sep@ =~= seq![',', ' ']);
            }
            let joined = join_chars(&names, &sep);
            nonempty_string(joined.as_slice())
        },
    }
}

/// The fields of an NTS recognition (see `nts_fields_spec`).
pub fn nts_recognition(
    title: &Option<String>,
    genres: &Option<Vec<Option<String>>>,
    slug: &Option<String>,
) -> (r: Option<(String, Option<String>, Option<String>)>)
    ensures
        match r {
            Some(x) => nts_fields_spec(
                opt_view(*title),
                match genres {
                    Some(g) => Some(opt_views(g@)),
                    None => None,
                },
                opt_view(*slug),
            ) == Some((x.0@, opt_view(x.1), opt_view(x.2))),
            None => trimmed_text(opt_view(*title)) is None,
        },
{
    match trimmed_opt(title) {
        None => None,
        Some(t) => {
            let tags = nts_tags(genres);
            let url = match slug {
                Some(sl) => {
                    let base = String::from_str("https://www.nts.live/shows/");
                    Some(base.concat(sl.as_str()))
                },
                None => None,
            };
            Some((string_of(t.as_slice()), tags, url))
        },
    }
}

// ── job ids ───────────────────────────────────────────────────────────────────

/// What std's `DefaultHasher::new()` gives after hashing one `i64`.
pub uninterp spec fn stamp_hash_of(stamp: i64) -> u64;

/// What std's `DefaultHasher::new()` gives after hashing an `i64` and then
/// a `str`.
pub uninterp spec fn stamp_station_hash_of(stamp: i64, station: Seq<char>) -> u64;

/// Hashes `stamp` with a fresh `std::collections::hash_map::DefaultHasher`
/// and returns `finish()`. std documents that every hasher made by
/// `DefaultHasher::new` is the same, so the result is named as a function
/// of `stamp`; which number it is, is left unsaid.
#[verifier::external_body]
fn stamp_hash(stamp: i64) -> (h: u64)
    ensures
        h == stamp_hash_of(stamp),
{
    let mut hasher = std::collections::hash_map::DefaultHasher::new();
    std::hash::Hash::hash(&stamp, &mut hasher);
    std::hash::Hasher::finish(&hasher)
}

/// Hashes `stamp` and then `station` with a fresh `DefaultHasher` and
/// returns `finish()`; named as a function of both, as `stamp_hash` is.
#[verifier::external_body]
fn stamp_station_hash(stamp: i64, station: &str) -> (h: u64)
    ensures
        h == stamp_station_hash_of(stamp, station@),
{
    let mut hasher = std::collections::hash_map::DefaultHasher::new();
    std::hash::Hash::hash(&stamp, &mut hasher);
    std::hash::Hash::hash(station, &mut hasher);
    std::hash::Hasher::finish(&hasher)
}

/// The lowercase hexadecimal digit of `d` (below 16).
pub open spec fn hex_digit(d: nat) -> char {
    if d < 10 {
        (('0' as nat) + d) as char
    } else {
        (('a' as nat) + d - 10) as char
    }
}

/// The last `width` hexadecimal digits of `n`, most significant first,
/// padded with zeros.
pub open spec fn hex_text(n: nat, width: nat) -> Seq<char>
    decreases width,
{
    if width == 0 {
        Seq::empty()
    } else {
        hex_text(n / 16, (width - 1) as nat).push(hex_digit(n % 16))
    }
}

fn hex_char(d: u64) -> (c: char)
    requires
        d < 16,
    ensures
        c == hex_digit(d as nat),
{
    let cs = chars_of("0123456789abcdef");
    proof {
        reveal_strlit("0123456789abcdef");
    }
    cs[d as usize]
}

/// `n` as sixteen lowercase hexadecimal digits, zero-padded.
pub fn hex16(n: u64) -> (r: String)
    ensures
        r@ == hex_text(n as nat, 16),
{
    let mut digits: Vec<char> = Vec::new();
    let mut rest: u64 = n;
    let mut k: usize = 0;
    proof {
        assert(pow16(0) == 1);
        assert((n as nat) / 1 == n as nat);
    }
    while k < 16
        invariant
            0 <= k <= 16,
            rest as nat == (n as nat) / pow16(k as nat),
            digits@.len() == k,
            forall|j: int| 0 <= j < k ==> #[trigger] digits@[j] == hex_digit(((n as nat) / pow16(j as nat)) % 16),
        decreases 16 - k,
    {
        proof {
            lemma_pow16_step(n as nat, k as nat);
        }
        digits.push(hex_char(rest % 16));
        rest = rest / 16;
        k += 1;
    }
    let mut out: Vec<char> = Vec::new();
    let mut i: usize = 16;
    while i > 0
        invariant
            0 <= i <= 16,
            digits@.len() == 16,
            forall|j: int| 0 <= j < 16 ==> #[trigger] digits@[j] == hex_digit(((n as nat) / pow16(j as nat)) % 16),
            out@ == hex_text((n as nat) / pow16(i as nat), (16 - i) as nat),
        decreases i,
    {
        proof {
            lemma_pow16_step(n as nat, (i - 1) as nat);
        }
        out.push(digits[i - 1]);
        i -= 1;
    }
    proof {
        assert(pow16(0) == 1);
    }
    string_of(out.as_slice())
}

/// `16` to the power `k`.
pub open spec fn pow16(k: nat) -> nat
    decreases k,
{
    if k == 0 {
        1
    } else {
        16 * pow16((k - 1) as nat)
    }
}

proof fn lemma_pow16_step(n: nat, k: nat)
    ensures
        pow16(k) > 0,
        pow16(k + 1) == 16 * pow16(k),
        n / pow16(k + 1) == (n / pow16(k)) / 16,
    decreases k,
{
    if k > 0 {
        lemma_pow16_step(n, (k - 1) as nat);
    }
    let p = pow16(k);
    assert(pow16(k + 1) == 16 * p);
    vstd::arithmetic::div_mod::lemma_div_denominator(n as int, p as int, 16);
    assert(p * 16 == 16 * p) by (nonlinear_arith);
}

/// The hash a job id is made from: of the time in nanoseconds where it is
/// known, else in seconds, and of the station where there is one.
pub open spec fn job_hash(nanos: Option<i64>, secs: i64, station: Option<Seq<char>>) -> u64 {
    let stamp = match nanos {
        Some(n) => n,
        None => secs,
    };
    match station {
        Some(s) => stamp_station_hash_of(stamp, s),
        None => stamp_hash_of(stamp),
    }
}

/// A short job id: the first twelve of the sixteen hexadecimal digits of a
/// hash of the start time (`nanos`, the time in nanoseconds where it fits an
/// `i64`, else `secs`) and of the station.
pub fn make_job_id(nanos: Option<i64>, secs: i64, station: Option<&str>) -> (r: String)
    ensures
        r@ == hex_text(job_hash(nanos, secs, opt_str_view(station)) as nat, 16).take(12),
{
    let stamp: i64 = match nanos {
        Some(n) => n,
        None => secs,
    };
    let h = match station {
        Some(s) => stamp_station_hash(stamp, s),
        None => stamp_hash(stamp),
    };
    let full = chars_of(hex16(h).as_str());
    proof {
        lemma_hex_text_len(h as nat, 16);
    }
    let short = slice_chars(full.as_slice(), 0, 12);
    proof {
        assert(short@ =~= full@.take(12));
    }
    string_of(short.as_slice())
}

proof fn lemma_hex_text_len(n: nat, width: nat)
    ensures
        hex_text(n, width).len() == width,
    decreases width,
{
    if width > 0 {
        lemma_hex_text_len(n / 16, (width - 1) as nat);
    }
}

/// The view of an optional `&str`.
pub open spec fn opt_str_view(o: Option<&str>) -> Option<Seq<char>> {
    match o {
        Some(s) => Some(s@),
        None => None,
    }
}

} // verus!
