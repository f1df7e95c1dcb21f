use mpv_handler::config::Config;
use mpv_handler::resolver::{
    effective_format, enumerate, enumerate_arguments, resolve, resolve_arguments,
    resolver_output, resolver_program, ytdl_format_from_mpv_conf, PlaylistEntry, ResolvedMedia,
};

fn entry(title: &str, url: &str) -> PlaylistEntry {
    PlaylistEntry { title: title.to_string(), url: url.to_string() }
}

fn listing_line(title: &str, url: &str) -> String {
    let mut object = serde_json::Map::new();
    object.insert("id".to_string(), serde_json::Value::from(7));
    object.insert("title".to_string(), serde_json::Value::from(title));
    object.insert("url".to_string(), serde_json::Value::from(url));
    serde_json::Value::Object(object).to_string()
}

#[test]
fn enumerate_reads_entries_in_order() {
    let out = format!(
        "{}\n{}\n{}\n",
        listing_line("One", "https://x/1"),
        listing_line("Two \"quoted\"", "https://x/2"),
        listing_line("Three", "https://x/3")
    );
    assert_eq!(
        enumerate(&Some(out)),
        vec![
            entry("One", "https://x/1"),
            entry("Two \"quoted\"", "https://x/2"),
            entry("Three", "https://x/3")
        ]
    );
}

#[test]
fn enumerate_fails_soft() {
    assert_eq!(enumerate(&None), vec![]);
    assert_eq!(enumerate(&Some(String::new())), vec![]);
    assert_eq!(enumerate(&Some("not json\n{\"title\":\"t\"}\n[1,2]\n".to_string())), vec![]);
    assert_eq!(enumerate(&Some("{\"title\":1,\"url\":\"u\"}\n".to_string())), vec![]);
    assert_eq!(enumerate(&Some("{\"title\":\"t\",\"url\":null}\n".to_string())), vec![]);
}

#[test]
fn enumerate_skips_malformed_lines_between_entries() {
    let out = format!("{}\n\nfoo\n{}", listing_line("A", "a"), listing_line("B", "b"));
    assert_eq!(enumerate(&Some(out)), vec![entry("A", "a"), entry("B", "b")]);
}

#[test]
fn enumerate_drops_unavailable_items() {
    let out = format!(
        "{}\r\n{}\r\n{}\r\n{}\r\n",
        listing_line("[Deleted video]", "https://x/1"),
        listing_line("Kept", "https://x/2"),
        listing_line("[Private video]", "https://x/3"),
        listing_line("[Private video] ", "https://x/4")
    );
    assert_eq!(
        enumerate(&Some(out)),
        vec![entry("Kept", "https://x/2"), entry("[Private video] ", "https://x/4")]
    );
}

#[test]
fn resolve_failure_falls_back_to_raw_url() {
    assert_eq!(
        resolve(&None, "https://x/watch?v=1", "Default"),
        ResolvedMedia {
            title: "Default".to_string(),
            video_url: "https://x/watch?v=1".to_string(),
            audio_url: None
        }
    );
}

#[test]
fn resolve_with_too_few_lines_falls_back() {
    for out in ["", "\n", "only a title\n", "  \n only a title \n\n"] {
        assert_eq!(
            resolve(&Some(out.to_string()), "u", "d"),
            ResolvedMedia { title: "d".to_string(), video_url: "u".to_string(), audio_url: None },
            "{:?}",
            out
        );
    }
}

#[test]
fn resolve_reads_title_and_urls() {
    assert_eq!(
        resolve(&Some("\nA title\nhttps://v/1\n".to_string()), "u", "d"),
        ResolvedMedia {
            title: "A title".to_string(),
            video_url: "https://v/1".to_string(),
            audio_url: None
        }
    );
    assert_eq!(
        resolve(&Some("A title\r\nhttps://v/1\r\nhttps://a/1\r\nmore\r\n".to_string()), "u", "d"),
        ResolvedMedia {
            title: "A title".to_string(),
            video_url: "https://v/1".to_string(),
            audio_url: Some("https://a/1".to_string())
        }
    );
}

#[test]
fn resolver_arguments() {
    assert_eq!(
        enumerate_arguments("https://x/p"),
        vec!["--flat-playlist".to_string(), "--dump-json".to_string(), "https://x/p".to_string()]
    );
    assert_eq!(
        resolve_arguments("best", "https://x/1"),
        vec![
            "-f".to_string(),
            "best".to_string(),
            "--get-url".to_string(),
            "--check-formats".to_string(),
            "--get-title".to_string(),
            "https://x/1".to_string()
        ]
    );
}

#[test]
fn resolver_program_falls_back_to_command_name() {
    let mut c = Config { mpv: None, ytdl: None, proxy: None, socket: None };
    assert_eq!(resolver_program(&c), "yt-dlp");
    c.ytdl = Some("/usr/bin/yt-dlp".to_string());
    assert_eq!(resolver_program(&c), "/usr/bin/yt-dlp");
}

#[test]
fn format_is_read_from_player_configuration() {
    let conf = "# ytdl-format=commented\n\n vo = gpu \n ytdl-format = bestvideo+bestaudio \nytdl-format=x\n";
    assert_eq!(ytdl_format_from_mpv_conf(conf), Some("bestvideo+bestaudio".to_string()));
    assert_eq!(ytdl_format_from_mpv_conf("ytdl-format=a=b"), Some("a=b".to_string()));
    assert_eq!(ytdl_format_from_mpv_conf("ytdl-format="), Some(String::new()));
}

#[test]
fn format_is_absent_without_the_key() {
    assert_eq!(ytdl_format_from_mpv_conf(""), None);
    assert_eq!(ytdl_format_from_mpv_conf("ytdl-format"), None);
    assert_eq!(ytdl_format_from_mpv_conf("#ytdl-format=a\nytdl-formats=b\n=c\n"), None);
}

#[test]
fn effective_format_defaults() {
    let default = "bestvideo[height<=?1920][fps<=?30][vcodec^=avc]+bestaudio/best";
    assert_eq!(effective_format(&None), default);
    assert_eq!(effective_format(&Some("vo=gpu\n".to_string())), default);
    assert_eq!(effective_format(&Some("ytdl-format=best\n".to_string())), "best");
}

#[test]
fn resolver_output_needs_start_and_success() {
    assert_eq!(resolver_output(true, true, "out".to_string()), Some("out".to_string()));
    assert_eq!(resolver_output(true, true, String::new()), Some(String::new()));
    assert_eq!(resolver_output(true, false, "out".to_string()), None);
    assert_eq!(resolver_output(false, true, "out".to_string()), None);
    assert_eq!(resolver_output(false, false, String::new()), None);
}

#[test]
fn failed_run_resolves_to_the_fallback() {
    let output = resolver_output(true, false, "Title\nhttps://v/1\n".to_string());
    assert_eq!(
        resolve(&output, "https://x/watch?v=1", "Default"),
        ResolvedMedia {
            title: "Default".to_string(),
            video_url: "https://x/watch?v=1".to_string(),
            audio_url: None
        }
    );
    assert_eq!(enumerate(&resolver_output(false, false, String::new())), vec![]);
}
