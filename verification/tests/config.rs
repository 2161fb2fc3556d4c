use r4dio::config::{
    default_auto_polling, default_bind_address, default_http_enabled, default_m3u_url,
    default_max_concurrency, default_max_jobs_per_cycle, default_pid_file, default_pipewire_viz,
    default_poll_interval_secs, default_port, default_state_file, default_use_system_deps,
    BinariesConfig, DaemonConfig, HttpConfig, PollingConfig, StationsConfig, VizConfig,
};
use r4dio::platform::{
    beside_exe_candidates, config_dir_for, stations_toml_for, daemon_address, data_dir_for, downloads_dir_for,
    ffmpeg_binary_names, ffprobe_binary_names, join_path, mpv_binary_name, mpv_socket_arg,
    mpv_socket_name, on_path_candidates, vibra_binary_names, yt_dlp_binary_names,
    DAEMON_TCP_PORT,
};
use r4dio::proxy::proxy_url;

#[test]
fn test_default_config() {
    let http = HttpConfig::default();
    let stations = StationsConfig::default();
    let polling = PollingConfig::default();
    assert!(http.enabled);
    assert_eq!(http.port, 8989);
    assert_eq!(http.bind_address, "127.0.0.1");
    assert!(stations.m3u_url.starts_with("https://"));
    assert!(polling.auto_polling);
    assert_eq!(polling.poll_interval_secs, 120);
    assert!(stations.stations_toml.ends_with("radio/stations.toml"));
}

#[test]
fn default_values() {
    assert!(default_http_enabled());
    assert_eq!(default_bind_address(), "127.0.0.1");
    assert_eq!(default_port(), 8989);
    assert!(default_auto_polling());
    assert_eq!(default_poll_interval_secs(), 120);
    assert_eq!(default_max_concurrency(), 3);
    assert_eq!(default_max_jobs_per_cycle(), 64);
    assert!(!default_pipewire_viz());
    assert!(!default_use_system_deps());
    assert_eq!(
        default_m3u_url(),
        "https://raw.githubusercontent.com/ja-mf/radio-curation/refs/heads/main/jamf_radios.m3u"
    );
    let viz = VizConfig::default();
    assert!(!viz.pipewire_viz);
    assert!(viz.pipewire_device.is_none());
    assert!(!BinariesConfig::default().use_system_deps);
    let p = PollingConfig::default();
    assert_eq!(p.max_concurrency, 3);
    assert_eq!(p.max_jobs_per_cycle, 64);
}

#[test]
fn daemon_files_live_in_the_data_dir() {
    assert!(default_pid_file().ends_with(".local/share/radio/daemon.pid"));
    assert!(default_state_file().ends_with(".local/share/radio/state.json"));
    let c = DaemonConfig::in_data_dir("/d");
    assert_eq!(c.pid_file, "/d/daemon.pid");
    assert_eq!(c.state_file, "/d/state.json");
    let d = DaemonConfig::default();
    assert!(d.pid_file.ends_with("radio/daemon.pid"));
}

#[test]
fn user_directories() {
    let home = Some("/home/u".to_string());
    assert_eq!(data_dir_for(&home), "/home/u/.local/share/radio");
    assert_eq!(data_dir_for(&None), "/tmp/.local/share/radio");
    assert_eq!(config_dir_for(&home), "/home/u/.config/radio");
    assert_eq!(config_dir_for(&None), "./.config/radio");
    assert_eq!(downloads_dir_for(&Some("/h/".to_string())), "/h/radio-downloads");
}

#[test]
fn path_join_inserts_one_separator() {
    assert_eq!(join_path("a", "b"), "a/b");
    assert_eq!(join_path("a/", "b"), "a/b");
    assert_eq!(join_path("", "b"), "b");
}

#[test]
fn daemon_endpoint_and_socket() {
    assert_eq!(DAEMON_TCP_PORT, 9876);
    assert_eq!(daemon_address(), "127.0.0.1:9876");
    assert_eq!(mpv_socket_name("/tmp"), "/tmp/radio-mpv.sock");
    assert_eq!(mpv_socket_arg("/tmp"), "--input-ipc-server=/tmp/radio-mpv.sock");
}

#[test]
fn helper_program_names() {
    assert_eq!(mpv_binary_name(), "mpv");
    assert_eq!(vibra_binary_names(), vec!["vibra"]);
    assert_eq!(ffmpeg_binary_names(), vec!["ffmpeg"]);
    assert_eq!(ffprobe_binary_names(), vec!["ffprobe"]);
    assert_eq!(yt_dlp_binary_names(), vec!["yt-dlp"]);
}

#[test]
fn search_candidates_in_order() {
    let names = vec!["a", "b"];
    assert_eq!(
        beside_exe_candidates("/opt/r", &names),
        vec!["/opt/r/a", "/opt/r/external/a", "/opt/r/b", "/opt/r/external/b"]
    );
    assert_eq!(
        on_path_candidates("/usr/bin:/bin", &names),
        vec!["/usr/bin/a", "/usr/bin/b", "/bin/a", "/bin/b"]
    );
}

#[test]
fn proxy_url_format() {
    assert_eq!(proxy_url("127.0.0.1", 8989, 3), "http://127.0.0.1:8989/stream/3");
    assert_eq!(proxy_url("0.0.0.0", 0, 12), "http://0.0.0.0:0/stream/12");
}

#[test]
fn default_station_file_follows_the_config_base() {
    assert_eq!(stations_toml_for(&Some("/cfg".to_string())), "/cfg/radio/stations.toml");
    assert_eq!(stations_toml_for(&Some("/home/u/.config".to_string())), "/home/u/.config/radio/stations.toml");
    assert_eq!(stations_toml_for(&None), "./.config/radio/stations.toml");
}
