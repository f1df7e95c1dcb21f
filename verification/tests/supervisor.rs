use mpv_handler::config::{default_config, Config};
use mpv_handler::intent::PlaybackIntent;
use mpv_handler::supervisor::{
    build_mpv_options, cleared_environment, cookies, ipc_server, launch_arguments, player_program,
    proxy_environment, CookieFile,
};

fn intent(url: &str) -> PlaybackIntent {
    PlaybackIntent::new(url.to_string())
}

fn bare_config() -> Config {
    Config { mpv: None, ytdl: None, proxy: None, socket: None }
}

#[test]
fn cookies_option_needs_existing_file() {
    let found = CookieFile { path: "/home/u/.config/mpv-handler/cookies/a.txt".to_string(), exists: true };
    assert_eq!(
        cookies(&found),
        Some("--ytdl-raw-options-append=cookies=/home/u/.config/mpv-handler/cookies/a.txt".to_string())
    );
    let missing = CookieFile { path: "/nowhere/a.txt".to_string(), exists: false };
    assert_eq!(cookies(&missing), None);
}

#[test]
fn ipc_server_option() {
    assert_eq!(ipc_server("/tmp/mpvsocket"), "--input-ipc-server=/tmp/mpvsocket");
}

#[test]
fn options_of_bare_intent_are_empty() {
    let options = build_mpv_options(&intent("https://x/watch?v=1"), &bare_config(), &None);
    assert!(options.is_empty());
}

#[test]
fn options_keep_their_fixed_order() {
    let mut i = intent("https://x/watch?v=1");
    i.cookies = Some("a.txt".to_string());
    i.profile = Some("low-latency".to_string());
    i.quality = Some("720p".to_string());
    i.v_codec = Some("vp9".to_string());
    i.v_title = Some("Hello World!".to_string());
    i.subfile = Some("http://example.com/en.ass".to_string());
    i.startat = Some("233".to_string());
    let mut c = bare_config();
    c.ytdl = Some("/usr/bin/yt-dlp".to_string());
    let cookie = Some(CookieFile { path: "/c/a.txt".to_string(), exists: true });
    let options = build_mpv_options(&i, &c, &cookie);
    assert_eq!(
        options,
        vec![
            "--ytdl-raw-options-append=cookies=/c/a.txt".to_string(),
            "--profile=low-latency".to_string(),
            "--ytdl-raw-options-append=format-sort=res:720,+vcodec:vp9".to_string(),
            "--title=Hello World!".to_string(),
            "--sub-file=http://example.com/en.ass".to_string(),
            "--start=233".to_string(),
            "--script-opts=ytdl_hook-ytdl_path=/usr/bin/yt-dlp".to_string(),
        ]
    );
}

#[test]
fn options_leave_out_missing_cookie_file() {
    let mut i = intent("https://x/watch?v=1");
    i.cookies = Some("a.txt".to_string());
    let cookie = Some(CookieFile { path: "/c/a.txt".to_string(), exists: false });
    assert!(build_mpv_options(&i, &bare_config(), &cookie).is_empty());
    assert!(build_mpv_options(&i, &bare_config(), &None).is_empty());
}

#[test]
fn options_ignore_cookie_file_that_was_not_asked_for() {
    let i = intent("https://x/watch?v=1");
    let cookie = Some(CookieFile { path: "/c/a.txt".to_string(), exists: true });
    assert!(build_mpv_options(&i, &bare_config(), &cookie).is_empty());
}

#[test]
fn quality_and_codec_give_one_format_sort_flag() {
    let mut i = intent("https://x/watch?v=1");
    i.v_codec = Some("vp9".to_string());
    i.quality = Some("720p".to_string());
    let options = build_mpv_options(&i, &bare_config(), &None);
    assert_eq!(
        options,
        vec!["--ytdl-raw-options-append=format-sort=res:720,+vcodec:vp9".to_string()]
    );
}

#[test]
fn single_item_launch_ends_with_raw_url() {
    let i = intent("https://x/watch?v=1");
    let arguments = launch_arguments(&i, &default_config(), &None, false);
    assert_eq!(arguments, vec!["--".to_string(), "https://x/watch?v=1".to_string()]);
    assert!(arguments.iter().all(|a| !a.starts_with("--input-ipc-server")));
}

#[test]
fn single_item_launch_names_socket_when_enqueue_was_asked() {
    let mut i = intent("https://x/watch?v=1");
    i.enqueue = true;
    let arguments = launch_arguments(&i, &default_config(), &None, false);
    assert_eq!(
        arguments,
        vec![
            "--input-ipc-server=/tmp/mpvsocket".to_string(),
            "--".to_string(),
            "https://x/watch?v=1".to_string()
        ]
    );
}

#[test]
fn playlist_launch_starts_idle() {
    let mut i = intent("https://x/watch?v=1&list=2");
    i.profile = Some("p".to_string());
    let arguments = launch_arguments(&i, &default_config(), &None, true);
    assert_eq!(arguments, vec!["--profile=p".to_string(), "--idle=yes".to_string()]);
    i.enqueue = true;
    let arguments = launch_arguments(&i, &default_config(), &None, true);
    assert_eq!(
        arguments,
        vec![
            "--profile=p".to_string(),
            "--idle=yes".to_string(),
            "--input-ipc-server=/tmp/mpvsocket".to_string()
        ]
    );
    let arguments = launch_arguments(&i, &bare_config(), &None, true);
    assert_eq!(arguments, vec!["--profile=p".to_string(), "--idle=yes".to_string()]);
}

#[test]
fn proxy_goes_under_four_names() {
    let mut c = bare_config();
    assert!(proxy_environment(&c).is_empty());
    c.proxy = Some("http://example.com:8080".to_string());
    let p = "http://example.com:8080".to_string();
    assert_eq!(
        proxy_environment(&c),
        vec![
            ("http_proxy".to_string(), p.clone()),
            ("HTTP_PROXY".to_string(), p.clone()),
            ("https_proxy".to_string(), p.clone()),
            ("HTTPS_PROXY".to_string(), p.clone()),
        ]
    );
}

#[test]
fn loader_variables_are_cleared() {
    assert_eq!(
        cleared_environment(),
        vec!["LD_LIBRARY_PATH".to_string(), "LD_PRELOAD".to_string()]
    );
}

#[test]
fn player_program_falls_back_to_command_name() {
    let mut c = bare_config();
    assert_eq!(player_program(&c), "mpv");
    c.mpv = Some("/usr/bin/mpv".to_string());
    assert_eq!(player_program(&c), "/usr/bin/mpv");
}
