//! Platform conventions (the Unix ones): where the daemon listens, where
//! the player's control socket lives, the per-user directories, the names of
//! the helper programs and the places searched for them.

use vstd::prelude::*;
use crate::text::{
    append_chars, chars_of, decimal, decimal_chars, opt_view, split_chars, split_on, string_of,
    string_views, strings_of, views,
};

verus! {

/// The TCP port the daemon listens on.
pub const DAEMON_TCP_PORT: u16 = 9876;

/// The address the daemon listens on, `host:port`.
pub open spec fn daemon_address_spec() -> Seq<char> {
    "127.0.0.1"@ + seq![':'] + decimal(DAEMON_TCP_PORT as nat)
}

pub fn daemon_address() -> (r: String)
    ensures
        r@ == daemon_address_spec(),
{
    let mut v = chars_of("127.0.0.1");
    v.push(':');
    let d = decimal_chars(DAEMON_TCP_PORT as u64);
    append_chars(&mut v, d.as_slice());
    string_of(v.as_slice())
}

// ── paths ───────────────────────────────────────────────────────────────────
/// `dir` joined with a relative `name` (`Path::join`): a '/' goes between
/// them unless `dir` is empty or already ends with one.
pub open spec fn path_join(dir: Seq<char>, name: Seq<char>) -> Seq<char> {
    if dir.len() == 0 {
        name
    } else if dir.last() == '/' {
        dir + name
    } else {
        dir + seq!['/'] + name
    }
}

fn join_chars_path(dir: &[char], name: &[char]) -> (r: Vec<char>)
    ensures
        r@ == path_join(dir@, name@),
{
    let mut out: Vec<char> = Vec::new();
    append_chars(&mut out, dir);
    if dir.len() > 0 && dir[dir.len() - 1] != '/' {
        out.push('/');
    }
    append_chars(&mut out, name);
    out
}

/// Joins a relative name onto a directory path.
pub fn join_path(dir: &str, name: &str) -> (r: String)
    ensures
        r@ == path_join(dir@, name@),
{
    let d = chars_of(dir);
    let n = chars_of(name);
    let j = join_chars_path(d.as_slice(), n.as_slice());
    string_of(j.as_slice())
}

/// The path of the player's control socket in the temporary directory.
pub open spec fn mpv_socket_spec(temp_dir: Seq<char>) -> Seq<char> {
    temp_dir + "/radio-mpv.sock"@
}

/// The player's control socket inside `temp_dir` (the process's temporary
/// directory, which the caller reads from the environment).
pub fn mpv_socket_name(temp_dir: &str) -> (r: String)
    ensures
        r@ == mpv_socket_spec(temp_dir@),
{
    let mut v = chars_of(temp_dir);
    let s = chars_of("/radio-mpv.sock");
    append_chars(&mut v, s.as_slice());
    string_of(v.as_slice())
}

/// The player's command-line option that names its control socket.
pub fn mpv_socket_arg(temp_dir: &str) -> (r: String)
    ensures
        r@ == "--input-ipc-server="@ + mpv_socket_spec(temp_dir@),
{
    let mut v = chars_of("--input-ipc-server=");
    let name = mpv_socket_name(temp_dir);
    let s = chars_of(name.as_str());
    append_chars(&mut v, s.as_slice());
    string_of(v.as_slice())
}

/// The user's home directory (`dirs::home_dir`), as text. It comes from the
/// environment and the user database, so nothing is claimed of it.
#[verifier::external_body]
fn home_dir() -> Option<String> {
    dirs::home_dir().map(|p| p.to_string_lossy().into_owned())
}

/// `base/a/b/c`.
pub open spec fn under3(base: Seq<char>, a: Seq<char>, b: Seq<char>, c: Seq<char>) -> Seq<char> {
    path_join(path_join(path_join(base, a), b), c)
}

/// The home directory, or a fallback when there is none.
pub open spec fn home_or(home: Option<Seq<char>>, fallback: Seq<char>) -> Seq<char> {
    match home {
        Some(h) => h,
        None => fallback,
    }
}

/// The data directory for a home directory: `~/.local/share/radio`
/// (`/tmp/.local/share/radio` without a home).
pub open spec fn data_dir_spec(home: Option<Seq<char>>) -> Seq<char> {
    under3(home_or(home, "/tmp"@), ".local"@, "share"@, "radio"@)
}

/// The configuration directory: `~/.config/radio` (`./.config/radio`
/// without a home).
pub open spec fn config_dir_spec(home: Option<Seq<char>>) -> Seq<char> {
    path_join(path_join(home_or(home, "."@), ".config"@), "radio"@)
}

fn base_or(home: &Option<String>, fallback: &str) -> (r: Vec<char>)
    ensures
        r@ == home_or(opt_view(*home), fallback@),
{
    match home {
        Some(h) => chars_of(h.as_str()),
        None => chars_of(fallback),
    }
}

fn push_component(v: Vec<char>, name: &str) -> (r: Vec<char>)
    ensures
        r@ == path_join(v@, name@),
{
    let n = chars_of(name);
    join_chars_path(v.as_slice(), n.as_slice())
}

/// The data directory for the given home directory.
pub fn data_dir_for(home: &Option<String>) -> (r: String)
    ensures
        r@ == data_dir_spec(opt_view(*home)),
{
    let b = base_or(home, "/tmp");
    let b = push_component(b, ".local");
    let b = push_component(b, "share");
    let b = push_component(b, "radio");
    string_of(b.as_slice())
}

/// The configuration directory for the given home directory.
pub fn config_dir_for(home: &Option<String>) -> (r: String)
    ensures
        r@ == config_dir_spec(opt_view(*home)),
{
    let b = base_or(home, ".");
    let b = push_component(b, ".config");
    let b = push_component(b, "radio");
    string_of(b.as_slice())
}

/// The data directory of the current user (`~/.local/share/radio`).
pub fn data_dir() -> (r: String)
    ensures
        exists|h: Option<Seq<char>>| r@ == data_dir_spec(h),
{
    let h = home_dir();
    let r = data_dir_for(&h);
    proof {
        assert(r@ == data_dir_spec(opt_view(h)));
    }
    r
}

/// The configuration directory of the current user (`~/.config/radio`).
pub fn config_dir() -> (r: String)
    ensures
        exists|h: Option<Seq<char>>| r@ == config_dir_spec(h),
{
    let h = home_dir();
    let r = config_dir_for(&h);
    proof {
        assert(r@ == config_dir_spec(opt_view(h)));
    }
    r
}

/// The user's configuration base directory (`dirs::config_dir`), as text:
/// on Linux `$XDG_CONFIG_HOME` when it holds an absolute path, else
/// `$HOME/.config`. It comes from the environment, so nothing is claimed
/// of it.
#[verifier::external_body]
fn user_config_dir() -> Option<String> {
    dirs::config_dir().map(|p| p.to_string_lossy().into_owned())
}

/// Where the station file is looked for by default, given the user's
/// configuration base directory (`$XDG_CONFIG_HOME`, or `~/.config`):
/// `radio/stations.toml` under it (under `./.config` without one).
pub open spec fn stations_toml_spec(config_base: Option<Seq<char>>) -> Seq<char> {
    path_join(path_join(home_or(config_base, "./.config"@), "radio"@), "stations.toml"@)
}

/// The default station file for the given configuration base directory.
pub fn stations_toml_for(config_base: &Option<String>) -> (r: String)
    ensures
        r@ == stations_toml_spec(opt_view(*config_base)),
{
    let b = base_or(config_base, "./.config");
    let b = push_component(b, "radio");
    let b = push_component(b, "stations.toml");
    string_of(b.as_slice())
}

/// The default station file of the current user:
/// `$XDG_CONFIG_HOME/radio/stations.toml`, `~/.config/radio/stations.toml`
/// when that variable is not set.
pub fn user_stations_toml() -> (r: String)
    ensures
        exists|b: Option<Seq<char>>| r@ == stations_toml_spec(b),
{
    let b = user_config_dir();
    let r = stations_toml_for(&b);
    proof {
        assert(r@ == stations_toml_spec(opt_view(b)));
    }
    r
}

/// The downloads directory for a home directory: `~/radio-downloads`
/// (`./radio-downloads` without a home).
pub open spec fn downloads_dir_spec(home: Option<Seq<char>>) -> Seq<char> {
    path_join(home_or(home, "."@), "radio-downloads"@)
}

pub fn downloads_dir_for(home: &Option<String>) -> (r: String)
    ensures
        r@ == downloads_dir_spec(opt_view(*home)),
{
    let b = base_or(home, ".");
    let b = push_component(b, "radio-downloads");
    string_of(b.as_slice())
}

/// The downloads directory of the current user.
pub fn downloads_dir() -> (r: String)
    ensures
        exists|h: Option<Seq<char>>| r@ == downloads_dir_spec(h),
{
    let h = home_dir();
    let r = downloads_dir_for(&h);
    proof {
        assert(r@ == downloads_dir_spec(opt_view(h)));
    }
    r
}

// ── helper programs ─────────────────────────────────────────────────────────
/// The player's executable name.
pub fn mpv_binary_name() -> (s: &'static str)
    ensures
        s@ == "mpv"@,
{
    "mpv"
}

/// Executable names tried for the song recogniser.
pub fn vibra_binary_names() -> (v: Vec<&'static str>)
    ensures
        v@.len() == 1,
        v@[0]@ == "vibra"@,
{
    vec!["vibra"]
}

/// Executable names tried for the decoder.
pub fn ffmpeg_binary_names() -> (v: Vec<&'static str>)
    ensures
        v@.len() == 1,
        v@[0]@ == "ffmpeg"@,
{
    vec!["ffmpeg"]
}

/// Executable names tried for the metadata prober.
pub fn ffprobe_binary_names() -> (v: Vec<&'static str>)
    ensures
        v@.len() == 1,
        v@[0]@ == "ffprobe"@,
{
    vec!["ffprobe"]
}

/// Executable names tried for the downloader.
pub fn yt_dlp_binary_names() -> (v: Vec<&'static str>)
    ensures
        v@.len() == 1,
        v@[0]@ == "yt-dlp"@,
{
    vec!["yt-dlp"]
}

/// The text of each name.
pub open spec fn name_views(names: Seq<&'static str>) -> Seq<Seq<char>> {
    names.map_values(|n: &'static str| n@)
}

/// Places searched beside the executable, in order: for each name, the
/// executable's directory, then its `external` subdirectory.
pub open spec fn beside_exe_spec(dir: Seq<char>, names: Seq<Seq<char>>) -> Seq<Seq<char>>
    decreases names.len(),
{
    if names.len() == 0 {
        Seq::<Seq<char>>::empty()
    } else {
        beside_exe_spec(dir, names.drop_last()).push(path_join(dir, names.last())).push(
            path_join(path_join(dir, "external"@), names.last()),
        )
    }
}

/// Places searched on the `PATH`, in order: each ':'-separated directory
/// joined with each name.
pub open spec fn on_path_spec(path_var: Seq<char>, names: Seq<Seq<char>>) -> Seq<Seq<char>> {
    dirs_times_names(split_on(path_var, ':'), names)
}

/// Each directory joined with each name, directories outermost.
pub open spec fn dirs_times_names(dirs: Seq<Seq<char>>, names: Seq<Seq<char>>) -> Seq<Seq<char>>
    decreases dirs.len(),
{
    if dirs.len() == 0 {
        Seq::<Seq<char>>::empty()
    } else {
        dirs_times_names(dirs.drop_last(), names) + names.map_values(
            |n: Seq<char>| path_join(dirs.last(), n),
        )
    }
}

fn push_view(out: &mut Vec<Vec<char>>, v: Vec<char>)
    ensures
        views(final(out)@) == views(old(out)@).push(v@),
{
    let ghost before = views(out@);
    out.push(v);
    proof {
        assert(views(out@) =~= before.push(v@));
    }
}

/// The candidate paths beside the executable's directory.
pub fn beside_exe_candidates(dir: &str, names: &Vec<&'static str>) -> (r: Vec<String>)
    ensures
        string_views(r@) == beside_exe_spec(dir@, name_views(names@)),
{
    let d = chars_of(dir);
    let ext = push_component(chars_of(dir), "external");
    let n = names.len();
    let mut out: Vec<Vec<char>> = Vec::new();
    let mut i: usize = 0;
    while i < n
        invariant
            n == names@.len(),
            d@ == dir@,
            ext@ == path_join(dir@, "external"@),
            0 <= i <= n,
            views(out@) == beside_exe_spec(dir@, name_views(names@).take(i as int)),
        decreases n - i,
    {
        let name = chars_of(names[i]);
        proof {
            assert(name_views(names@).take(i + 1).drop_last() =~= name_views(names@).take(i as int));
            assert(name_views(names@).take(i + 1).last() == names@[i as int]@);
        }
        push_view(&mut out, join_chars_path(d.as_slice(), name.as_slice()));
        push_view(&mut out, join_chars_path(ext.as_slice(), name.as_slice()));
        i += 1;
    }
    proof {
        assert(name_views(names@).take(n as int) =~= name_views(names@));
    }
    strings_of(&out)
}

/// The candidate paths on a `PATH` value.
pub fn on_path_candidates(path_var: &str, names: &Vec<&'static str>) -> (r: Vec<String>)
    ensures
        string_views(r@) == on_path_spec(path_var@, name_views(names@)),
{
    let pv = chars_of(path_var);
    let dirs = split_chars(pv.as_slice(), ':');
    let nd = dirs.len();
    let nn = names.len();
    let mut out: Vec<Vec<char>> = Vec::new();
    let mut i: usize = 0;
    while i < nd
        invariant
            nd == dirs@.len(),
            nn == names@.len(),
            views(dirs@) == split_on(path_var@, ':'),
            0 <= i <= nd,
            views(out@) == dirs_times_names(views(dirs@).take(i as int), name_views(names@)),
        decreases nd - i,
    {
        let ghost before = views(out@);
        proof {
            assert(views(dirs@).take(i + 1).drop_last() =~= views(dirs@).take(i as int));
            assert(views(dirs@).take(i + 1).last() == dirs@[i as int]@);
        }
        let mut j: usize = 0;
        while j < nn
            invariant
                nd == dirs@.len(),
                nn == names@.len(),
                0 <= i < nd,
                0 <= j <= nn,
                views(out@) == before + name_views(names@).take(j as int).map_values(
                    |n: Seq<char>| path_join(dirs@[i as int]@, n),
                ),
            decreases nn - j,
        {
            let name = chars_of(names[j]);
            push_view(&mut out, join_chars_path(dirs[i].as_slice(), name.as_slice()));
            proof {
                assert(name_views(names@).take(j + 1).map_values(
                    |n: Seq<char>| path_join(dirs@[i as int]@, n),
                ) =~= name_views(names@).take(j as int).map_values(
                    |n: Seq<char>| path_join(dirs@[i as int]@, n),
                ).push(path_join(dirs@[i as int]@, names@[j as int]@)));
            }
            j += 1;
        }
        proof {
            assert(name_views(names@).take(nn as int) =~= name_views(names@));
        }
        i += 1;
    }
    proof {
        assert(views(dirs@).take(nd as int) =~= views(dirs@));
    }
    strings_of(&out)
}

/// Each name joined to a directory.
pub open spec fn in_dir_spec(dir: Seq<char>, names: Seq<Seq<char>>) -> Seq<Seq<char>> {
    names.map_values(|n: Seq<char>| path_join(dir, n))
}

/// The places a helper program is looked for, in order (the first that
/// exists is used): the override path where one is set; then, unless only
/// the system's programs are wanted, the places beside the executable and
/// the names under a developer directory; then the directories of `PATH`.
pub open spec fn search_order_spec(
    names: Seq<Seq<char>>,
    override_path: Option<Seq<char>>,
    use_system: bool,
    exe_dir: Option<Seq<char>>,
    dev_dir: Option<Seq<char>>,
    path_var: Option<Seq<char>>,
) -> Seq<Seq<char>> {
    let first = match override_path {
        Some(p) => seq![p],
        None => Seq::<Seq<char>>::empty(),
    };
    let beside = match exe_dir {
        Some(d) => beside_exe_spec(d, names),
        None => Seq::<Seq<char>>::empty(),
    };
    let dev = match dev_dir {
        Some(d) => in_dir_spec(d, names),
        None => Seq::<Seq<char>>::empty(),
    };
    let on_path = match path_var {
        Some(p) => on_path_spec(p, names),
        None => Seq::<Seq<char>>::empty(),
    };
    if use_system {
        first + on_path
    } else {
        first + beside + dev + on_path
    }
}

fn in_dir_candidates(dir: &str, names: &Vec<&'static str>) -> (r: Vec<String>)
    ensures
        string_views(r@) == in_dir_spec(dir@, name_views(names@)),
{
    let n = names.len();
    let mut out: Vec<String> = Vec::new();
    let mut i: usize = 0;
    while i < n
        invariant
            n == names@.len(),
            0 <= i <= n,
            string_views(out@) == in_dir_spec(dir@, name_views(names@).take(i as int)),
        decreases n - i,
    {
        let p = join_path(dir, names[i]);
        let ghost before = string_views(out@);
        out.push(p);
        proof {
            assert(string_views(out@) =~= before.push(p@));
            assert(in_dir_spec(dir@, name_views(names@).take(i + 1)) =~= in_dir_spec(
                dir@,
                name_views(names@).take(i as int),
            ).push(path_join(dir@, names@[i as int]@)));
        }
        i += 1;
    }
    proof {
        assert(name_views(names@).take(n as int) =~= name_views(names@));
    }
    out
}

fn append_all(out: &mut Vec<String>, more: Vec<String>)
    ensures
        string_views(final(out)@) == string_views(old(out)@) + string_views(more@),
{
    let mut m = more;
    out.append(&mut m);
    proof {
        assert(string_views(out@) =~= string_views(old(out)@) + string_views(more@));
    }
}

/// The places to look for a helper program, in the order they are tried.
pub fn search_order(
    names: &Vec<&'static str>,
    override_path: Option<&str>,
    use_system: bool,
    exe_dir: Option<&str>,
    dev_dir: Option<&str>,
    path_var: Option<&str>,
) -> (r: Vec<String>)
    ensures
        string_views(r@) == search_order_spec(
            name_views(names@),
            match override_path {
                Some(p) => Some(p@),
                None => None,
            },
            use_system,
            match exe_dir {
                Some(d) => Some(d@),
                None => None,
            },
            match dev_dir {
                Some(d) => Some(d@),
                None => None,
            },
            match path_var {
                Some(p) => Some(p@),
                None => None,
            },
        ),
{
    let mut out: Vec<String> = Vec::new();
    if let Some(p) = override_path {
        let s = string_of(chars_of(p).as_slice());
        out.push(s);
        proof {
            assert(string_views(out@) =~= seq![p@]);
        }
    }
    if !use_system {
        if let Some(d) = exe_dir {
            append_all(&mut out, beside_exe_candidates(d, names));
        }
        if let Some(d) = dev_dir {
            append_all(&mut out, in_dir_candidates(d, names));
        }
    }
    if let Some(p) = path_var {
        append_all(&mut out, on_path_candidates(p, names));
    }
    proof {
        let ov = match override_path {
            Some(p) => Some(p@),
            None => None,
        };
        let ed = match exe_dir {
            Some(d) => Some(d@),
            None => None,
        };
        let dd = match dev_dir {
            Some(d) => Some(d@),
            None => None,
        };
        let pv = match path_var {
            Some(p) => Some(p@),
            None => None,
        };
        assert(string_views(out@) =~= search_order_spec(name_views(names@), ov, use_system, ed, dd, pv));
    }
    out
}

/// The places to look for the player: an executable beside this one
/// (unless only the system's programs are wanted), then the directories of
/// `PATH`.
pub fn mpv_search_order(use_system: bool, exe_dir: Option<&str>, path_var: Option<&str>) -> (r: Vec<String>)
    ensures
        string_views(r@) == (if use_system {
            Seq::<Seq<char>>::empty()
        } else {
            match exe_dir {
                Some(d) => seq![path_join(d@, "mpv"@)],
                None => Seq::<Seq<char>>::empty(),
            }
        }) + match path_var {
            Some(p) => on_path_spec(p@, seq!["mpv"@]),
            None => Seq::<Seq<char>>::empty(),
        },
{
    let names = vec![mpv_binary_name()];
    proof {
        assert(name_views(names@) =~= seq!["mpv"@]);
    }
    let mut out: Vec<String> = Vec::new();
    if !use_system {
        if let Some(d) = exe_dir {
            let p = join_path(d, mpv_binary_name());
            out.push(p);
            proof {
                assert(string_views(out@) =~= seq![path_join(d@, "mpv"@)]);
            }
        }
    }
    if let Some(p) = path_var {
        append_all(&mut out, on_path_candidates(p, &names));
    }
    proof {
        let head = if use_system {
            Seq::<Seq<char>>::empty()
        } else {
            match exe_dir {
                Some(d) => seq![path_join(d@, "mpv"@)],
                None => Seq::<Seq<char>>::empty(),
            }
        };
        let tail = match path_var {
            Some(p) => on_path_spec(p@, seq!["mpv"@]),
            None => Seq::<Seq<char>>::empty(),
        };
        assert(string_views(out@) =~= head + tail);
    }
    out
}

} // verus!
