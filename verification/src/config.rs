//! The daemon's configuration sections and their defaults. Paths are held
//! as text.

use vstd::prelude::*;
use crate::platform::{
    config_dir, config_dir_spec, data_dir, data_dir_spec, downloads_dir, downloads_dir_spec,
    join_path, path_join, stations_toml_spec, user_stations_toml,
};

verus! {

pub struct DaemonConfig {
    pub pid_file: String,
    pub state_file: String,
}

pub struct HttpConfig {
    pub enabled: bool,
    pub bind_address: String,
    pub port: u16,
}

/// User-configurable paths for downloads, cache, and data.
pub struct PathsConfig {
    /// Directory for NTS show downloads (`~/radio-downloads` by default).
    pub downloads_dir: String,
}

pub struct PollingConfig {
    pub auto_polling: bool,
    pub poll_interval_secs: u64,
    /// Number of concurrent ICY probes for non-NTS stations per poll cycle.
    pub max_concurrency: usize,
    /// Maximum number of stations to poll per cycle.
    pub max_jobs_per_cycle: usize,
}

/// Audio visualisation configuration (Linux).
pub struct VizConfig {
    /// Visualise the system's audio output through the PipeWire/PulseAudio
    /// monitor instead of the stream's audio data.
    pub pipewire_viz: bool,
    /// Monitor device name; `None` is the default monitor source.
    pub pipewire_device: Option<String>,
}

/// Configuration for external binary dependencies.
pub struct BinariesConfig {
    /// Use the binaries on `PATH` instead of the bundled ones.
    pub use_system_deps: bool,
}

/// Station list source: a local TOML file, or an m3u list by URL or path.
pub struct StationsConfig {
    /// Local TOML station file (highest priority).
    pub stations_toml: String,
    /// URL or file path of an m3u station list (when the TOML is not found).
    pub m3u_url: String,
}

pub fn default_http_enabled() -> (b: bool)
    ensures
        b,
{
    true
}

pub fn default_bind_address() -> (s: String)
    ensures
        s@ == "127.0.0.1"@,
{
    String::from_str("127.0.0.1")
}

pub fn default_port() -> (p: u16)
    ensures
        p == 8989,
{
    8989
}

pub fn default_auto_polling() -> (b: bool)
    ensures
        b,
{
    true
}

pub fn default_poll_interval_secs() -> (s: u64)
    ensures
        s == 120,
{
    120
}

pub fn default_max_concurrency() -> (n: usize)
    ensures
        n == 3,
{
    3
}

pub fn default_max_jobs_per_cycle() -> (n: usize)
    ensures
        n == 64,
{
    64
}

pub fn default_pipewire_viz() -> (b: bool)
    ensures
        !b,
{
    false
}

pub fn default_use_system_deps() -> (b: bool)
    ensures
        !b,
{
    false
}

/// The curated station list.
pub open spec fn default_m3u_url_spec() -> Seq<char> {
    "https://raw.githubusercontent.com/ja-mf/radio-curation/refs/heads/main/jamf_radios.m3u"@
}

pub fn default_m3u_url() -> (s: String)
    ensures
        s@ == default_m3u_url_spec(),
{
    String::from_str(
        "https://raw.githubusercontent.com/ja-mf/radio-curation/refs/heads/main/jamf_radios.m3u",
    )
}

/// `daemon.pid` in the data directory.
pub fn default_pid_file() -> (p: String)
    ensures
        exists|h: Option<Seq<char>>| p@ == path_join(data_dir_spec(h), "daemon.pid"@),
{
    let d = data_dir();
    join_path(d.as_str(), "daemon.pid")
}

/// `state.json` in the data directory.
pub fn default_state_file() -> (p: String)
    ensures
        exists|h: Option<Seq<char>>| p@ == path_join(data_dir_spec(h), "state.json"@),
{
    let d = data_dir();
    join_path(d.as_str(), "state.json")
}

/// `$XDG_CONFIG_HOME/radio/stations.toml` (`~/.config/radio/stations.toml`
/// when the variable is not set).
pub fn default_stations_toml() -> (p: String)
    ensures
        exists|b: Option<Seq<char>>| p@ == stations_toml_spec(b),
{
    user_stations_toml()
}

/// Where the configuration file lives: `config.toml` in the configuration
/// directory.
pub fn config_path() -> (p: String)
    ensures
        exists|h: Option<Seq<char>>| p@ == path_join(config_dir_spec(h), "config.toml"@),
{
    let d = config_dir();
    join_path(d.as_str(), "config.toml")
}

impl DaemonConfig {
    /// The daemon's files inside a data directory.
    pub fn in_data_dir(dir: &str) -> (c: Self)
        ensures
            c.pid_file@ == path_join(dir@, "daemon.pid"@),
            c.state_file@ == path_join(dir@, "state.json"@),
    {
        DaemonConfig {
            pid_file: join_path(dir, "daemon.pid"),
            state_file: join_path(dir, "state.json"),
        }
    }
}

impl Default for DaemonConfig {
    fn default() -> (c: Self)
        ensures
            exists|h: Option<Seq<char>>|
                c.pid_file@ == path_join(data_dir_spec(h), "daemon.pid"@) && c.state_file@
                    == path_join(data_dir_spec(h), "state.json"@),
    {
        let d = data_dir();
        Self::in_data_dir(d.as_str())
    }
}

impl Default for HttpConfig {
    fn default() -> (c: Self)
        ensures
            c.enabled,
            c.bind_address@ == "127.0.0.1"@,
            c.port == 8989,
    {
        HttpConfig {
            enabled: default_http_enabled(),
            bind_address: default_bind_address(),
            port: default_port(),
        }
    }
}

impl Default for PathsConfig {
    fn default() -> (c: Self)
        ensures
            exists|h: Option<Seq<char>>| c.downloads_dir@ == downloads_dir_spec(h),
    {
        PathsConfig { downloads_dir: downloads_dir() }
    }
}

impl Default for PollingConfig {
    fn default() -> (c: Self)
        ensures
            c.auto_polling,
            c.poll_interval_secs == 120,
            c.max_concurrency == 3,
            c.max_jobs_per_cycle == 64,
    {
        PollingConfig {
            auto_polling: default_auto_polling(),
            poll_interval_secs: default_poll_interval_secs(),
            max_concurrency: default_max_concurrency(),
            max_jobs_per_cycle: default_max_jobs_per_cycle(),
        }
    }
}

impl Default for VizConfig {
    fn default() -> (c: Self)
        ensures
            !c.pipewire_viz,
            c.pipewire_device is None,
    {
        VizConfig { pipewire_viz: default_pipewire_viz(), pipewire_device: None }
    }
}

impl Default for BinariesConfig {
    fn default() -> (c: Self)
        ensures
            !c.use_system_deps,
    {
        BinariesConfig { use_system_deps: default_use_system_deps() }
    }
}

impl Default for StationsConfig {
    fn default() -> (c: Self)
        ensures
            exists|b: Option<Seq<char>>| c.stations_toml@ == stations_toml_spec(b),
            c.m3u_url@ == default_m3u_url_spec(),
    {
        StationsConfig { stations_toml: default_stations_toml(), m3u_url: default_m3u_url() }
    }
}

} // verus!
