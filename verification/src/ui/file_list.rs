//! File list logic: the sort orders the local file list cycles through and
//! the order they put the files in.

use vstd::prelude::*;
use crate::text::{
    append_chars, chars_of, contains_chars, contains_seq, lowercase, str_eq, string_of, to_lowercase, views,
    words, words_chars,
};
use crate::text::string_views;
use crate::ui::search::{all_in, all_terms_in, query_words_in};
use crate::text::lemma_contains_extend;
use crate::ui::app_state::{played_at, star_after, stars_of, AppState, FileChapter, FileMetadata, LocalFileEntry};
use crate::ui::keys::{Key, KeyPress};
use crate::ui::intent::RenderHint;
use crate::protocol::PlaybackStatus;
use crate::timefmt::{clock_text, fmt_clock};
use crate::ui::sorting::{
    field_view, keys_view, key_view, push_field, sort_indices, sorted_order, Field, SortField,
};

verus! {

/// Sort order for the file list (`Added`: most recently modified first).
#[derive(Debug, Clone, Copy, PartialEq, Eq, Structural)]
pub enum FileSortOrder {
    Added,
    Name,
    Stars,
    Recent,
    StarsRecent,
    RecentStars,
}

/// Position of an order in the cycle that `next` walks.
pub open spec fn file_sort_index(o: FileSortOrder) -> int {
    match o {
        FileSortOrder::Added => 0,
        FileSortOrder::Name => 1,
        FileSortOrder::Stars => 2,
        FileSortOrder::Recent => 3,
        FileSortOrder::StarsRecent => 4,
        FileSortOrder::RecentStars => 5,
    }
}

/// The order at a position of the cycle (positions taken modulo 6).
pub open spec fn file_sort_at(i: int) -> FileSortOrder {
    let k = i % 6;
    if k == 0 {
        FileSortOrder::Added
    } else if k == 1 {
        FileSortOrder::Name
    } else if k == 2 {
        FileSortOrder::Stars
    } else if k == 3 {
        FileSortOrder::Recent
    } else if k == 4 {
        FileSortOrder::StarsRecent
    } else {
        FileSortOrder::RecentStars
    }
}

/// The label under which an order is shown and persisted.
pub open spec fn file_sort_label(o: FileSortOrder) -> Seq<char> {
    match o {
        FileSortOrder::Added => "added"@,
        FileSortOrder::Name => "name"@,
        FileSortOrder::Stars => "stars"@,
        FileSortOrder::Recent => "recent"@,
        FileSortOrder::StarsRecent => "stars+recent"@,
        FileSortOrder::RecentStars => "recent+stars"@,
    }
}

/// The order a persisted label restores; an unknown label gives `Added`.
pub open spec fn file_sort_from_label(l: Seq<char>) -> FileSortOrder {
    if l == "added"@ {
        FileSortOrder::Added
    } else if l == "name"@ {
        FileSortOrder::Name
    } else if l == "stars"@ {
        FileSortOrder::Stars
    } else if l == "recent"@ {
        FileSortOrder::Recent
    } else if l == "stars+recent"@ {
        FileSortOrder::StarsRecent
    } else if l == "recent+stars"@ {
        FileSortOrder::RecentStars
    } else {
        FileSortOrder::Added
    }
}

impl Default for FileSortOrder {
    fn default() -> (o: Self)
        ensures
            o == FileSortOrder::Added,
    {
        FileSortOrder::Added
    }
}

impl FileSortOrder {
    /// The following order in the cycle, wrapping from the last to the first.
    pub fn next(self) -> (o: Self)
        ensures
            o == file_sort_at(file_sort_index(self) + 1),
    {
        match self {
            FileSortOrder::Added => FileSortOrder::Name,
            FileSortOrder::Name => FileSortOrder::Stars,
            FileSortOrder::Stars => FileSortOrder::Recent,
            FileSortOrder::Recent => FileSortOrder::StarsRecent,
            FileSortOrder::StarsRecent => FileSortOrder::RecentStars,
            FileSortOrder::RecentStars => FileSortOrder::Added,
        }
    }

    /// The preceding order in the cycle, wrapping from the first to the last.
    pub fn prev(self) -> (o: Self)
        ensures
            o == file_sort_at(file_sort_index(self) + 5),
    {
        match self {
            FileSortOrder::Added => FileSortOrder::RecentStars,
            FileSortOrder::Name => FileSortOrder::Added,
            FileSortOrder::Stars => FileSortOrder::Name,
            FileSortOrder::Recent => FileSortOrder::Stars,
            FileSortOrder::StarsRecent => FileSortOrder::Recent,
            FileSortOrder::RecentStars => FileSortOrder::StarsRecent,
        }
    }

    pub fn label(self) -> (s: &'static str)
        ensures
            s@ == file_sort_label(self),
    {
        match self {
            FileSortOrder::Added => "added",
            FileSortOrder::Name => "name",
            FileSortOrder::Stars => "stars",
            FileSortOrder::Recent => "recent",
            FileSortOrder::StarsRecent => "stars+recent",
            FileSortOrder::RecentStars => "recent+stars",
        }
    }

    /// The order that a persisted label names (session restore).
    pub fn from_label(label: &str) -> (o: Self)
        ensures
            o == file_sort_from_label(label@),
    {
        if str_eq(label, "added") {
            FileSortOrder::Added
        } else if str_eq(label, "name") {
            FileSortOrder::Name
        } else if str_eq(label, "stars") {
            FileSortOrder::Stars
        } else if str_eq(label, "recent") {
            FileSortOrder::Recent
        } else if str_eq(label, "stars+recent") {
            FileSortOrder::StarsRecent
        } else if str_eq(label, "recent+stars") {
            FileSortOrder::RecentStars
        } else {
            FileSortOrder::Added
        }
    }
}

/// `prev` undoes `next` and `next` undoes `prev`.
pub proof fn law_file_sort_next_prev(o: FileSortOrder)
    ensures
        file_sort_at(file_sort_index(file_sort_at(file_sort_index(o) + 1)) + 5) == o,
        file_sort_at(file_sort_index(file_sort_at(file_sort_index(o) + 5)) + 1) == o,
{
}

/// Six steps of `next` come back to the starting order.
pub proof fn law_file_sort_cycle_length(o: FileSortOrder)
    ensures
        file_sort_at(file_sort_index(o) + 6) == o,
{
}

/// Restoring an order from its label gives the order back.
pub proof fn law_file_sort_label_roundtrip(o: FileSortOrder)
    ensures
        file_sort_from_label(file_sort_label(o)) == o,
{
    reveal_strlit("added");
    reveal_strlit("name");
    reveal_strlit("stars");
    reveal_strlit("recent");
    reveal_strlit("stars+recent");
    reveal_strlit("recent+stars");
    match o {
        FileSortOrder::Added => {
        },
        FileSortOrder::Name => {
            assert("name"@.len() != "added"@.len());
        },
        FileSortOrder::Stars => {
            assert("stars"@[0] != "added"@[0]);
            assert("stars"@.len() != "name"@.len());
        },
        FileSortOrder::Recent => {
            assert("recent"@.len() != "added"@.len());
            assert("recent"@.len() != "name"@.len());
            assert("recent"@.len() != "stars"@.len());
        },
        FileSortOrder::StarsRecent => {
            assert("stars+recent"@.len() != "added"@.len());
            assert("stars+recent"@.len() != "name"@.len());
            assert("stars+recent"@.len() != "stars"@.len());
            assert("stars+recent"@.len() != "recent"@.len());
        },
        FileSortOrder::RecentStars => {
            assert("recent+stars"@.len() != "added"@.len());
            assert("recent+stars"@.len() != "name"@.len());
            assert("recent+stars"@.len() != "stars"@.len());
            assert("recent+stars"@.len() != "recent"@.len());
            assert("recent+stars"@[0] != "stars+recent"@[0]);
        },
    }
}

// ── sorting ─────────────────────────────────────────────────────────────────
/// Newest first, files without a modification time last.
pub open spec fn newest_first(modified: Option<u64>) -> int {
    match modified {
        Some(m) => -(m as int) - 1,
        None => 0,
    }
}

/// The sort key of a file under an order, given its star rating and when it
/// was last played (both zero when absent). Names compare lowercased; stars,
/// recency and modification time sort descending.
pub open spec fn file_key(f: LocalFileEntry, order: FileSortOrder, stars: u8, recent: i64) -> Seq<
    Field,
> {
    let name = Field::Text(lowercase(f.name@));
    let m = Field::Num(newest_first(f.modified));
    let s = Field::Num(-(stars as int));
    let r = Field::Num(-(recent as int));
    match order {
        FileSortOrder::Added => seq![m, name],
        FileSortOrder::Name => seq![name],
        FileSortOrder::Stars => seq![s, m, name],
        FileSortOrder::Recent => seq![r, m],
        FileSortOrder::StarsRecent => seq![s, r],
        FileSortOrder::RecentStars => seq![r, s],
    }
}

/// The sort keys of all files.
pub open spec fn file_keys(
    files: Seq<LocalFileEntry>,
    order: FileSortOrder,
    stars: Seq<u8>,
    recent: Seq<i64>,
) -> Seq<Seq<Field>> {
    Seq::new(files.len(), |i: int| file_key(files[i], order, stars[i], recent[i]))
}

fn lower_field(s: &String) -> (f: SortField)
    ensures
        field_view(f) == Field::Text(lowercase(s@)),
{
    let l = to_lowercase(s.as_str());
    SortField::Text(chars_of(l.as_str()))
}

fn newest_first_field(modified: Option<u64>) -> (f: SortField)
    ensures
        field_view(f) == Field::Num(newest_first(modified)),
{
    match modified {
        Some(m) => SortField::Num(-(m as i128) - 1),
        None => SortField::Num(0),
    }
}

fn file_key_exec(f: &LocalFileEntry, order: FileSortOrder, stars: u8, recent: i64) -> (k: Vec<
    SortField,
>)
    ensures
        key_view(k@) == file_key(*f, order, stars, recent),
{
    let mut k: Vec<SortField> = Vec::new();
    let s = SortField::Num(-(stars as i128));
    let r = SortField::Num(-(recent as i128));
    match order {
        FileSortOrder::Added => {
            push_field(&mut k, newest_first_field(f.modified));
            push_field(&mut k, lower_field(&f.name));
        },
        FileSortOrder::Name => {
            push_field(&mut k, lower_field(&f.name));
        },
        FileSortOrder::Stars => {
            push_field(&mut k, s);
            push_field(&mut k, newest_first_field(f.modified));
            push_field(&mut k, lower_field(&f.name));
        },
        FileSortOrder::Recent => {
            push_field(&mut k, r);
            push_field(&mut k, newest_first_field(f.modified));
        },
        FileSortOrder::StarsRecent => {
            push_field(&mut k, s);
            push_field(&mut k, r);
        },
        FileSortOrder::RecentStars => {
            push_field(&mut k, r);
            push_field(&mut k, s);
        },
    }
    proof {
        assert(key_view(k@) =~= file_key(*f, order, stars, recent));
    }
    k
}

/// The order in which the file list shows the files under a sort order:
/// indices into `files`, sorted by key, ties kept in list order. `stars[i]`
/// and `recent[i]` belong to `files[i]`.
pub fn sort_files(
    files: &Vec<LocalFileEntry>,
    order: FileSortOrder,
    stars: &Vec<u8>,
    recent: &Vec<i64>,
) -> (r: Vec<usize>)
    requires
        stars@.len() == files@.len(),
        recent@.len() == files@.len(),
    ensures
        sorted_order(file_keys(files@, order, stars@, recent@), r@),
{
    let n = files.len();
    let mut keys: Vec<Vec<SortField>> = Vec::new();
    let mut i: usize = 0;
    while i < n
        invariant
            n == files@.len(),
            stars@.len() == n,
            recent@.len() == n,
            0 <= i <= n,
            keys_view(keys@) == file_keys(files@, order, stars@, recent@).take(i as int),
        decreases n - i,
    {
        let k = file_key_exec(&files[i], order, stars[i], recent[i]);
        let ghost before = keys_view(keys@);
        keys.push(k);
        proof {
            assert(keys_view(keys@) =~= before.push(key_view(k@)));
            assert(file_keys(files@, order, stars@, recent@).take(i + 1) =~= file_keys(
                files@,
                order,
                stars@,
                recent@,
            ).take(i as int).push(file_key(files@[i as int], order, stars@[i as int], recent@[i as int])));
        }
        i += 1;
    }
    proof {
        assert(file_keys(files@, order, stars@, recent@).take(n as int) =~= file_keys(
            files@,
            order,
            stars@,
            recent@,
        ));
    }
    sort_indices(&keys)
}

/// The star rating of each file, by path.
pub open spec fn files_stars(files: Seq<LocalFileEntry>, stars: Map<Seq<char>, u8>) -> Seq<u8> {
    Seq::new(files.len(), |i: int| stars_of(stars, files[i].path@))
}

/// The last play time of each file, by path.
pub open spec fn files_played(files: Seq<LocalFileEntry>, recent: Map<Seq<char>, i64>) -> Seq<i64> {
    Seq::new(files.len(), |i: int| played_at(recent, files[i].path@))
}

/// The order in which the file list shows the files under a sort order,
/// with the ratings and play history of `state`.
pub fn sort_files_by_state(files: &Vec<LocalFileEntry>, order: FileSortOrder, state: &AppState) -> (r: Vec<usize>)
    ensures
        sorted_order(
            file_keys(
                files@,
                order,
                files_stars(files@, state.file_stars@),
                files_played(files@, state.recent_file@),
            ),
            r@,
        ),
{
    let n = files.len();
    let mut stars: Vec<u8> = Vec::new();
    let mut recent: Vec<i64> = Vec::new();
    let mut i: usize = 0;
    while i < n
        invariant
            n == files@.len(),
            0 <= i <= n,
            stars@ == files_stars(files@, state.file_stars@).take(i as int),
            recent@ == files_played(files@, state.recent_file@).take(i as int),
        decreases n - i,
    {
        let s = state.file_stars_for(files[i].path.as_str());
        let t = state.file_played_at(files[i].path.as_str());
        stars.push(s);
        recent.push(t);
        proof {
            assert(stars@ =~= files_stars(files@, state.file_stars@).take(i + 1));
            assert(recent@ =~= files_played(files@, state.recent_file@).take(i + 1));
        }
        i += 1;
    }
    proof {
        assert(stars@ =~= files_stars(files@, state.file_stars@));
        assert(recent@ =~= files_played(files@, state.recent_file@));
    }
    sort_files(files, order, &stars, &recent)
}

// ── keys ────────────────────────────────────────────────────────────────────
/// What a key press on the file list asks for. The list widget moves its
/// own selection.
#[derive(Debug, Clone)]
pub enum FileListKey {
    SelectUp(usize),
    SelectDown(usize),
    SelectFirst,
    SelectLast,
    /// The open filter input takes the key.
    ToFilter,
    OpenFilter,
    Stop,
    /// Play the file at this path from its saved position.
    PlayFromSaved(String),
    TogglePause,
    /// The list is sorted again under this order.
    Sort(FileSortOrder),
    /// Rate the file at this path.
    SetStar(u8, String),
    Random,
    RandomBack,
    CopyToClipboard(String),
    Nothing,
}

/// What a key press does on the file list, given the selected file (if
/// any), what is loaded (a station index, a file path), the ratings and
/// the sort order. While the filter is open it takes every key but Up and
/// Down, which move one row. Otherwise: Up/Down and k/j move one row (five
/// with Shift); PageUp/PageDown move ten; Home, g, End, G jump; Enter
/// stops the selected file where it is the one loaded and plays it from
/// its saved position otherwise; Space pauses or resumes what is loaded,
/// or else plays the selection; '/' opens the filter; s and S cycle the
/// sort order; '*' rates the selection one star more (3 wraps to 0); r and
/// R pick a random file or go back; y copies the selection's path.
pub open spec fn file_key_spec(
    k: KeyPress,
    filter_active: bool,
    selected: Option<LocalFileEntry>,
    current_station: Option<usize>,
    current_file: Option<Seq<char>>,
    stars: Map<Seq<char>, u8>,
    order: FileSortOrder,
) -> FileListKey {
    let step: usize = if k.shift {
        5
    } else {
        1
    };
    if filter_active {
        if k.key == Key::Up {
            FileListKey::SelectUp(1)
        } else if k.key == Key::Down {
            FileListKey::SelectDown(1)
        } else {
            FileListKey::ToFilter
        }
    } else if k.key == Key::Up || k.key == Key::Char('k') {
        FileListKey::SelectUp(step)
    } else if k.key == Key::Down || k.key == Key::Char('j') {
        FileListKey::SelectDown(step)
    } else if k.key == Key::PageUp {
        FileListKey::SelectUp(10)
    } else if k.key == Key::PageDown {
        FileListKey::SelectDown(10)
    } else if k.key == Key::Home || k.key == Key::Char('g') {
        FileListKey::SelectFirst
    } else if k.key == Key::End || k.key == Key::Char('G') {
        FileListKey::SelectLast
    } else if k.key == Key::Enter {
        match selected {
            Some(f) => if current_file == Some(f.path@) {
                FileListKey::Stop
            } else {
                FileListKey::PlayFromSaved(f.path)
            },
            None => FileListKey::Nothing,
        }
    } else if k.key == Key::Char(' ') {
        if current_station is Some || current_file is Some {
            FileListKey::TogglePause
        } else {
            match selected {
                Some(f) => FileListKey::PlayFromSaved(f.path),
                None => FileListKey::Nothing,
            }
        }
    } else if k.key == Key::Char('/') {
        FileListKey::OpenFilter
    } else if k.key == Key::Char('s') {
        FileListKey::Sort(file_sort_at(file_sort_index(order) + 1))
    } else if k.key == Key::Char('S') {
        FileListKey::Sort(file_sort_at(file_sort_index(order) + 5))
    } else if k.key == Key::Char('*') {
        match selected {
            Some(f) => FileListKey::SetStar(star_after(stars_of(stars, f.path@)), f.path),
            None => FileListKey::Nothing,
        }
    } else if k.key == Key::Char('r') {
        FileListKey::Random
    } else if k.key == Key::Char('R') {
        FileListKey::RandomBack
    } else if k.key == Key::Char('y') {
        match selected {
            Some(f) => FileListKey::CopyToClipboard(f.path),
            None => FileListKey::Nothing,
        }
    } else {
        FileListKey::Nothing
    }
}

/// The outcome of a key, with strings compared by their characters.
pub open spec fn same_file_outcome(a: FileListKey, b: FileListKey) -> bool {
    match (a, b) {
        (FileListKey::PlayFromSaved(s), FileListKey::PlayFromSaved(t)) => s@ == t@,
        (FileListKey::SetStar(n, s), FileListKey::SetStar(m, t)) => n == m && s@ == t@,
        (FileListKey::CopyToClipboard(s), FileListKey::CopyToClipboard(t)) => s@ == t@,
        _ => a == b,
    }
}

/// Decides what a key press does on the file list.
pub fn file_list_key(
    k: KeyPress,
    filter_active: bool,
    selected: Option<&LocalFileEntry>,
    current_station: Option<usize>,
    current_file: Option<&str>,
    state: &AppState,
    order: FileSortOrder,
) -> (r: FileListKey)
    ensures
        same_file_outcome(
            r,
            file_key_spec(
                k,
                filter_active,
                match selected {
                    Some(f) => Some(*f),
                    None => None,
                },
                current_station,
                match current_file {
                    Some(p) => Some(p@),
                    None => None,
                },
                state.file_stars@,
                order,
            ),
        ),
{
    let step: usize = if k.shift {
        5
    } else {
        1
    };
    if filter_active {
        if k.key == Key::Up {
            FileListKey::SelectUp(1)
        } else if k.key == Key::Down {
            FileListKey::SelectDown(1)
        } else {
            FileListKey::ToFilter
        }
    } else if k.key == Key::Up || k.key == Key::Char('k') {
        FileListKey::SelectUp(step)
    } else if k.key == Key::Down || k.key == Key::Char('j') {
        FileListKey::SelectDown(step)
    } else if k.key == Key::PageUp {
        FileListKey::SelectUp(10)
    } else if k.key == Key::PageDown {
        FileListKey::SelectDown(10)
    } else if k.key == Key::Home || k.key == Key::Char('g') {
        FileListKey::SelectFirst
    } else if k.key == Key::End || k.key == Key::Char('G') {
        FileListKey::SelectLast
    } else if k.key == Key::Enter {
        match selected {
            Some(f) => {
                let is_current = match current_file {
                    Some(p) => str_eq(p, f.path.as_str()),
                    None => false,
                };
                if is_current {
                    FileListKey::Stop
                } else {
                    FileListKey::PlayFromSaved(f.path.clone())
                }
            },
            None => FileListKey::Nothing,
        }
    } else if k.key == Key::Char(' ') {
        if current_station.is_some() || current_file.is_some() {
            FileListKey::TogglePause
        } else {
            match selected {
                Some(f) => FileListKey::PlayFromSaved(f.path.clone()),
                None => FileListKey::Nothing,
            }
        }
    } else if k.key == Key::Char('/') {
        FileListKey::OpenFilter
    } else if k.key == Key::Char('s') {
        FileListKey::Sort(order.next())
    } else if k.key == Key::Char('S') {
        FileListKey::Sort(order.prev())
    } else if k.key == Key::Char('*') {
        match selected {
            Some(f) => {
                let cur = state.file_stars_for(f.path.as_str());
                let next = ((cur as u16 + 1) % 4) as u8;
                FileListKey::SetStar(next, f.path.clone())
            },
            None => FileListKey::Nothing,
        }
    } else if k.key == Key::Char('r') {
        FileListKey::Random
    } else if k.key == Key::Char('R') {
        FileListKey::RandomBack
    } else if k.key == Key::Char('y') {
        match selected {
            Some(f) => FileListKey::CopyToClipboard(f.path.clone()),
            None => FileListKey::Nothing,
        }
    } else {
        FileListKey::Nothing
    }
}

/// The order files are listed in when they are loaded: most recently
/// modified first (files without a time last), then by name.
pub open spec fn loaded_key(f: LocalFileEntry) -> Seq<Field> {
    seq![Field::Num(newest_first(f.modified)), Field::Text(f.name@)]
}

/// The keys of all files in that order.
pub open spec fn loaded_keys(files: Seq<LocalFileEntry>) -> Seq<Seq<Field>> {
    Seq::new(files.len(), |i: int| loaded_key(files[i]))
}

/// Indices of the files in the order they are listed when loaded.
pub fn newest_files_first(files: &Vec<LocalFileEntry>) -> (r: Vec<usize>)
    ensures
        sorted_order(loaded_keys(files@), r@),
{
    let n = files.len();
    let mut keys: Vec<Vec<SortField>> = Vec::new();
    let mut i: usize = 0;
    while i < n
        invariant
            n == files@.len(),
            0 <= i <= n,
            keys_view(keys@) == loaded_keys(files@).take(i as int),
        decreases n - i,
    {
        let mut k: Vec<SortField> = Vec::new();
        push_field(&mut k, newest_first_field(files[i].modified));
        push_field(&mut k, SortField::Text(chars_of(files[i].name.as_str())));
        proof {
            assert(key_view(k@) =~= loaded_key(files@[i as int]));
        }
        let ghost before = keys_view(keys@);
        keys.push(k);
        proof {
            assert(keys_view(keys@) =~= before.push(key_view(k@)));
            assert(loaded_keys(files@).take(i + 1) =~= loaded_keys(files@).take(i as int).push(
                loaded_key(files@[i as int]),
            ));
        }
        i += 1;
    }
    proof {
        assert(loaded_keys(files@).take(n as int) =~= loaded_keys(files@));
    }
    sort_indices(&keys)
}

// ── rows ────────────────────────────────────────────────────────────────────
/// The icon a list row shows for the loaded item in each playback status.
pub open spec fn row_icon_spec(status: PlaybackStatus) -> Seq<char> {
    match status {
        PlaybackStatus::Playing => "▶"@,
        PlaybackStatus::Paused => "⏸"@,
        PlaybackStatus::Connecting => "⋯"@,
        PlaybackStatus::Error => "✗"@,
        PlaybackStatus::Idle => "■"@,
    }
}

pub fn row_icon(status: PlaybackStatus) -> (r: &'static str)
    ensures
        r@ == row_icon_spec(status),
{
    match status {
        PlaybackStatus::Playing => "▶",
        PlaybackStatus::Paused => "⏸",
        PlaybackStatus::Connecting => "⋯",
        PlaybackStatus::Error => "✗",
        PlaybackStatus::Idle => "■",
    }
}

/// The star marks before a row: one star per rating point, at most three,
/// and a space, or nothing when unrated.
pub open spec fn star_prefix(stars: u8) -> Seq<char> {
    let n: nat = if stars > 3 {
        3
    } else {
        stars as nat
    };
    if n > 0 {
        Seq::new(n, |i: int| '★') + " "@
    } else {
        Seq::<char>::empty()
    }
}

/// The spans of a file's row: its stars, its icon (the loaded file shows
/// its status, or the pending intent of a pause), its name, its genre and
/// its length ("--:--" when unknown).
pub open spec fn file_row_spec(
    f: LocalFileEntry,
    current_file: Option<Seq<char>>,
    status: PlaybackStatus,
    pause_hint: RenderHint,
    stars: u8,
    meta: Option<FileMetadata>,
) -> Seq<Seq<char>> {
    let is_current = current_file == Some(f.path@);
    let base = if is_current {
        row_icon_spec(status)
    } else {
        " "@
    };
    let icon = if is_current {
        match pause_hint {
            RenderHint::PendingHidden => " "@,
            RenderHint::TimedOut => "?"@,
            _ => base,
        }
    } else {
        base
    };
    let genre = match meta {
        Some(m) => match m.genre {
            Some(g) => g@,
            None => Seq::<char>::empty(),
        },
        None => Seq::<char>::empty(),
    };
    let length = match meta {
        Some(m) => match m.duration_secs {
            Some(d) => clock_text(d as nat),
            None => "--:--"@,
        },
        None => "--:--"@,
    };
    seq![
        star_prefix(stars),
        icon,
        "  "@,
        f.name@,
        if genre.len() > 0 {
            "  "@ + genre
        } else {
            Seq::<char>::empty()
        },
        "  "@ + length,
    ]
}

/// Builds the spans of a file's row.
pub fn file_row(
    f: &LocalFileEntry,
    current_file: Option<&str>,
    status: PlaybackStatus,
    pause_hint: RenderHint,
    stars: u8,
    meta: Option<&FileMetadata>,
) -> (r: Vec<String>)
    ensures
        string_views(r@) == file_row_spec(
            *f,
            match current_file {
                Some(p) => Some(p@),
                None => None,
            },
            status,
            pause_hint,
            stars,
            match meta {
                Some(m) => Some(*m),
                None => None,
            },
        ),
{
    let is_current = match current_file {
        Some(p) => str_eq(p, f.path.as_str()),
        None => false,
    };
    let n: u8 = if stars > 3 {
        3
    } else {
        stars
    };
    let mut prefix: Vec<char> = Vec::new();
    if n > 0 {
        let mut k: u8 = 0;
        while k < n
            invariant
                0 <= k <= n,
                n <= 3,
                prefix@ == Seq::new(k as nat, |i: int| '★'),
            decreases n - k,
        {
            prefix.push('★');
            proof {
                assert(prefix@ =~= Seq::new((k + 1) as nat, |i: int| '★'));
            }
            k += 1;
        }
        let sp = chars_of(" ");
        append_chars(&mut prefix, sp.as_slice());
    }
    proof {
        assert(prefix@ =~= star_prefix(stars));
    }
    let base: &str = if is_current {
        row_icon(status)
    } else {
        " "
    };
    let icon: &str = if is_current {
        match pause_hint {
            RenderHint::PendingHidden => " ",
            RenderHint::TimedOut => "?",
            _ => base,
        }
    } else {
        base
    };
    let mut out: Vec<String> = Vec::new();
    out.push(string_of(prefix.as_slice()));
    out.push(string_of(chars_of(icon).as_slice()));
    out.push(string_of(chars_of("  ").as_slice()));
    out.push(f.name.clone());
    let genre: Vec<char> = match meta {
        Some(m) => match &m.genre {
            Some(g) => chars_of(g.as_str()),
            None => Vec::new(),
        },
        None => Vec::new(),
    };
    if genre.len() > 0 {
        let mut c = chars_of("  ");
        append_chars(&mut c, genre.as_slice());
        out.push(string_of(c.as_slice()));
    } else {
        out.push(String::new());
    }
    let length: String = match meta {
        Some(m) => match m.duration_secs {
            Some(d) => fmt_clock(d),
            None => string_of(chars_of("--:--").as_slice()),
        },
        None => string_of(chars_of("--:--").as_slice()),
    };
    let mut c = chars_of("  ");
    let lc = chars_of(length.as_str());
    append_chars(&mut c, lc.as_slice());
    out.push(string_of(c.as_slice()));
    proof {
        let sp = file_row_spec(
            *f,
            match current_file {
                Some(p) => Some(p@),
                None => None,
            },
            status,
            pause_hint,
            stars,
            match meta {
                Some(m) => Some(*m),
                None => None,
            },
        );
        assert(string_views(out@) =~= sp);
    }
    out
}

// ── text filter ─────────────────────────────────────────────────────────────
/// How many tracklist lines and chapter titles are indexed.
pub const INDEXED_ITEMS: usize = 120;

/// Each item lowercased, with a space before it.
pub open spec fn spaced_lower(items: Seq<Seq<char>>) -> Seq<char>
    decreases items.len(),
{
    if items.len() == 0 {
        Seq::<char>::empty()
    } else {
        spaced_lower(items.drop_last()) + seq![' '] + lowercase(items.last())
    }
}

/// A space and the lowercased value, when there is one.
pub open spec fn opt_spaced(o: Option<String>) -> Seq<char> {
    match o {
        Some(v) => seq![' '] + lowercase(v@),
        None => Seq::<char>::empty(),
    }
}

/// The titles of the chapters.
pub open spec fn chapter_titles(chapters: Seq<FileChapter>) -> Seq<String> {
    chapters.map_values(|c: FileChapter| c.title)
}

/// The first `INDEXED_ITEMS` items.
pub open spec fn first_items(v: Seq<String>) -> Seq<Seq<char>> {
    string_views(if v.len() > INDEXED_ITEMS { v.take(INDEXED_ITEMS as int) } else { v })
}

/// The indexed text of a file: its name and path lowercased, then each
/// metadata field, tracklist line and chapter title that is present,
/// lowercased, with a space before each.
pub open spec fn file_search_text_spec(name: Seq<char>, path: Seq<char>, meta: Option<FileMetadata>) -> Seq<char> {
    lowercase(name + seq![' '] + path) + match meta {
        Some(m) => opt_spaced(m.title) + opt_spaced(m.artist) + opt_spaced(m.album) + opt_spaced(
            m.genre,
        ) + opt_spaced(m.description) + spaced_lower(first_items(m.tracklist@)) + spaced_lower(
            first_items(chapter_titles(m.chapters@)),
        ),
        None => Seq::<char>::empty(),
    }
}

proof fn lemma_regroup(
    base: Seq<char>,
    t: Seq<char>,
    a: Seq<char>,
    al: Seq<char>,
    g: Seq<char>,
    d: Seq<char>,
    tr: Seq<char>,
    ch: Seq<char>,
)
    ensures
        base + t + (a + al + g + d + tr + ch) == base + (t + a + al + g + d + tr + ch),
        (base + t) + a + (al + g + d + tr + ch) == base + (t + a + al + g + d + tr + ch),
        (base + t + a) + al + (g + d + tr + ch) == base + (t + a + al + g + d + tr + ch),
        (base + t + a + al) + g + (d + tr + ch) == base + (t + a + al + g + d + tr + ch),
        (base + t + a + al + g) + d + (tr + ch) == base + (t + a + al + g + d + tr + ch),
{
    let w = base + (t + a + al + g + d + tr + ch);
    assert(base + t + (a + al + g + d + tr + ch) =~= w);
    assert((base + t) + a + (al + g + d + tr + ch) =~= w);
    assert((base + t + a) + al + (g + d + tr + ch) =~= w);
    assert((base + t + a + al) + g + (d + tr + ch) =~= w);
    assert((base + t + a + al + g) + d + (tr + ch) =~= w);
}

/// The pieces of a file's indexed text around one of its metadata fields.
proof fn lemma_meta_split(name: Seq<char>, path: Seq<char>, m: FileMetadata, v: String) -> (xy: (
    Seq<char>,
    Seq<char>,
))
    requires
        m.title == Some(v) || m.artist == Some(v) || m.album == Some(v) || m.genre == Some(v)
            || m.description == Some(v),
    ensures
        xy.0 + (seq![' '] + lowercase(v@)) + xy.1 == file_search_text_spec(name, path, Some(m)),
{
    let base = lowercase(name + seq![' '] + path);
    let t = opt_spaced(m.title);
    let a = opt_spaced(m.artist);
    let al = opt_spaced(m.album);
    let g = opt_spaced(m.genre);
    let d = opt_spaced(m.description);
    let tr = spaced_lower(first_items(m.tracklist@));
    let ch = spaced_lower(first_items(chapter_titles(m.chapters@)));
    assert(file_search_text_spec(name, path, Some(m)) == base + (t + a + al + g + d + tr + ch));
    lemma_regroup(base, t, a, al, g, d, tr, ch);
    if m.title == Some(v) {
        (base, a + al + g + d + tr + ch)
    } else if m.artist == Some(v) {
        (base + t, al + g + d + tr + ch)
    } else if m.album == Some(v) {
        (base + t + a, g + d + tr + ch)
    } else if m.genre == Some(v) {
        (base + t + a + al, d + tr + ch)
    } else {
        (base + t + a + al + g, tr + ch)
    }
}

proof fn lemma_text_filter_has(texts: Seq<Seq<char>>, q: Seq<char>, i: int)
    requires
        0 <= i < texts.len(),
        texts.len() <= usize::MAX,
        all_terms_in(words(lowercase(q)), texts[i]),
    ensures
        text_filter_spec(texts, q).contains(i as usize),
    decreases texts.len(),
{
    let rest = text_filter_spec(texts.drop_last(), q);
    if i == texts.len() - 1 {
        assert(rest.push(i as usize)[rest.len() as int] == i as usize);
    } else {
        assert(texts.drop_last()[i] == texts[i]);
        lemma_text_filter_has(texts.drop_last(), q, i);
        let k = choose|k: int| 0 <= k < rest.len() && rest[k] == i as usize;
        if all_terms_in(words(lowercase(q)), texts.last()) {
            assert(rest.push((texts.len() - 1) as usize)[k] == i as usize);
        }
    }
}

/// Law: when a file's metadata has a title, artist, album, genre or
/// description `v`, the file's indexed text holds a space followed by `v`
/// lowercased; so filtering the file list (`texts`, where `texts[i]` is
/// the file's indexed text) by a query whose every word, lowercased,
/// occurs in `v` lowercased shows the file.
pub proof fn law_file_metadata_indexed(
    name: Seq<char>,
    path: Seq<char>,
    m: FileMetadata,
    v: String,
    texts: Seq<Seq<char>>,
    i: int,
    q: Seq<char>,
)
    requires
        m.title == Some(v) || m.artist == Some(v) || m.album == Some(v) || m.genre == Some(v)
            || m.description == Some(v),
        0 <= i < texts.len(),
        texts.len() <= usize::MAX,
        texts[i] == file_search_text_spec(name, path, Some(m)),
    ensures
        contains_seq(file_search_text_spec(name, path, Some(m)), seq![' '] + lowercase(v@)),
        query_words_in(q, lowercase(v@)) ==> text_filter_spec(texts, q).contains(i as usize),
{
    let whole = file_search_text_spec(name, path, Some(m));
    let (x, y) = lemma_meta_split(name, path, m, v);
    let a = seq![' '] + lowercase(v@);
    assert(a.subrange(0, a.len() as int) =~= a);
    assert(crate::text::occurs_at(a, a, 0));
    lemma_contains_extend(x, a, y, a);
    if query_words_in(q, lowercase(v@)) {
        assert(x + seq![' '] + lowercase(v@) + y =~= x + a + y);
        assert forall|j: int| 0 <= j < words(lowercase(q)).len() implies contains_seq(
            whole,
            #[trigger] words(lowercase(q))[j],
        ) by {
            lemma_contains_extend(x + seq![' '], lowercase(v@), y, words(lowercase(q))[j]);
        }
        assert(all_terms_in(words(lowercase(q)), texts[i]));
        lemma_text_filter_has(texts, q, i);
    }
}

fn push_spaced_lower(out: &mut Vec<char>, s: &String)
    ensures
        final(out)@ == old(out)@ + seq![' '] + lowercase(s@),
{
    out.push(' ');
    let l = to_lowercase(s.as_str());
    let c = chars_of(l.as_str());
    append_chars(out, c.as_slice());
}

fn push_present(out: &mut Vec<char>, o: &Option<String>)
    ensures
        final(out)@ == old(out)@ + opt_spaced(*o),
{
    match o {
        Some(v) => push_spaced_lower(out, v),
        None => {
            proof {
                assert(out@ + Seq::<char>::empty() =~= out@);
            }
        },
    }
}

fn push_first_items(out: &mut Vec<char>, v: &Vec<String>)
    ensures
        final(out)@ == old(out)@ + spaced_lower(first_items(v@)),
{
    let n = if v.len() > INDEXED_ITEMS {
        INDEXED_ITEMS
    } else {
        v.len()
    };
    let ghost items = first_items(v@);
    let ghost start = out@;
    let mut i: usize = 0;
    while i < n
        invariant
            n <= v@.len(),
            n == items.len(),
            items == first_items(v@),
            0 <= i <= n,
            out@ == start + spaced_lower(items.take(i as int)),
        decreases n - i,
    {
        push_spaced_lower(out, &v[i]);
        proof {
            assert(items.take(i + 1).drop_last() =~= items.take(i as int));
            assert(items.take(i + 1).last() == v@[i as int]@);
        }
        i += 1;
    }
    proof {
        assert(items.take(n as int) =~= items);
    }
}

fn push_first_chapter_titles(out: &mut Vec<char>, v: &Vec<FileChapter>)
    ensures
        final(out)@ == old(out)@ + spaced_lower(first_items(chapter_titles(v@))),
{
    let n = if v.len() > INDEXED_ITEMS {
        INDEXED_ITEMS
    } else {
        v.len()
    };
    let ghost items = first_items(chapter_titles(v@));
    let ghost start = out@;
    let mut i: usize = 0;
    while i < n
        invariant
            n <= v@.len(),
            n == items.len(),
            items == first_items(chapter_titles(v@)),
            0 <= i <= n,
            out@ == start + spaced_lower(items.take(i as int)),
        decreases n - i,
    {
        push_spaced_lower(out, &v[i].title);
        proof {
            assert(items.take(i + 1).drop_last() =~= items.take(i as int));
            assert(items.take(i + 1).last() == v@[i as int].title@);
        }
        i += 1;
    }
    proof {
        assert(items.take(n as int) =~= items);
    }
}

/// Builds the indexed text of a file.
pub fn file_search_text(name: &str, path: &str, meta: Option<&FileMetadata>) -> (r: String)
    ensures
        r@ == file_search_text_spec(
            name@,
            path@,
            match meta {
                Some(m) => Some(*m),
                None => None,
            },
        ),
{
    let mut head = chars_of(name);
    head.push(' ');
    let pc = chars_of(path);
    append_chars(&mut head, pc.as_slice());
    let hs = string_of(head.as_slice());
    let low = to_lowercase(hs.as_str());
    let mut out = chars_of(low.as_str());
    proof {
        assert(head@ =~= name@ + seq![' '] + path@);
    }
    match meta {
        Some(m) => {
            let ghost base = out@;
            push_present(&mut out, &m.title);
            push_present(&mut out, &m.artist);
            push_present(&mut out, &m.album);
            push_present(&mut out, &m.genre);
            push_present(&mut out, &m.description);
            push_first_items(&mut out, &m.tracklist);
            push_first_chapter_titles(&mut out, &m.chapters);
            proof {
                assert(out@ =~= base + (opt_spaced(m.title) + opt_spaced(m.artist) + opt_spaced(
                    m.album,
                ) + opt_spaced(m.genre) + opt_spaced(m.description) + spaced_lower(
                    first_items(m.tracklist@),
                ) + spaced_lower(first_items(chapter_titles(m.chapters@)))));
            }
        },
        None => {
            proof {
                assert(out@ + Seq::<char>::empty() =~= out@);
            }
        },
    }
    string_of(out.as_slice())
}

/// The indices of the files whose indexed text holds every word of the
/// lowercased query, in list order.
pub open spec fn text_filter_spec(texts: Seq<Seq<char>>, q: Seq<char>) -> Seq<usize>
    decreases texts.len(),
{
    if texts.len() == 0 {
        Seq::<usize>::empty()
    } else {
        let rest = text_filter_spec(texts.drop_last(), q);
        if all_terms_in(words(lowercase(q)), texts.last()) {
            rest.push((texts.len() - 1) as usize)
        } else {
            rest
        }
    }
}

/// Filters the files by their indexed texts (`texts[i]` belongs to file
/// `i`; an unindexed file has an empty text).
pub fn filter_by_text(texts: &Vec<String>, q: &str) -> (r: Vec<usize>)
    ensures
        r@ == text_filter_spec(string_views(texts@), q@),
{
    let ql = to_lowercase(q);
    let qc = chars_of(ql.as_str());
    let terms = words_chars(qc.as_slice());
    let n = texts.len();
    let mut out: Vec<usize> = Vec::new();
    let mut i: usize = 0;
    while i < n
        invariant
            n == texts@.len(),
            0 <= i <= n,
            views(terms@) == words(lowercase(q@)),
            out@ == text_filter_spec(string_views(texts@).take(i as int), q@),
        decreases n - i,
    {
        let tc = chars_of(texts[i].as_str());
        let all = all_in(&terms, tc.as_slice());
        proof {
            assert(string_views(texts@).take(i + 1).drop_last() =~= string_views(texts@).take(i as int));
            assert(string_views(texts@).take(i + 1).last() == texts@[i as int]@);
        }
        if all {
            out.push(i);
        }
        i += 1;
    }
    proof {
        assert(string_views(texts@).take(n as int) =~= string_views(texts@));
    }
    out
}

/// Keeps a selection inside a list of `len` items (the last item when it
/// fell off the end, 0 for an empty list).
pub fn clamp_selection(selected: usize, len: usize) -> (r: usize)
    ensures
        selected < len ==> r == selected,
        selected >= len ==> r == (if len > 0 { len - 1 } else { 0 }),
{
    if selected >= len {
        if len > 0 {
            len - 1
        } else {
            0
        }
    } else {
        selected
    }
}

} // verus!
