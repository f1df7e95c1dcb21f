//! The resolver gateway: how the media resolver is invoked, and what its
//! output means. The resolver itself runs elsewhere; this module builds its
//! argument vectors and reads what it printed.

use crate::config::{Config, ConfigView};
use crate::text::{
    from_chars, index_of, lemma_index_of_is, line_bounds, lines, spells, text, to_chars,
    trim_bounds, trimmed,
};
use vstd::prelude::*;

verus! {

/// One item of a playlist, as the resolver lists it. The order of a list of
/// entries is the order of playback.
#[derive(Debug, PartialEq, Eq)]
pub struct PlaylistEntry {
    pub title: String,
    pub url: String,
}

/// `PlaylistEntry` over sequences of characters.
pub struct EntryView {
    pub title: Seq<char>,
    pub url: Seq<char>,
}

impl View for PlaylistEntry {
    type V = EntryView;

    open spec fn view(&self) -> EntryView {
        EntryView { title: self.title@, url: self.url@ }
    }
}

impl DeepView for PlaylistEntry {
    type V = EntryView;

    open spec fn deep_view(&self) -> EntryView {
        self@
    }
}

impl Clone for PlaylistEntry {
    fn clone(&self) -> (r: Self)
        ensures
            r@ == self@,
    {
        PlaylistEntry { title: self.title.clone(), url: self.url.clone() }
    }
}

/// What one source URL resolved to: a title, a direct video URL and, where
/// the audio comes apart, a direct audio URL.
#[derive(Debug, PartialEq, Eq)]
pub struct ResolvedMedia {
    pub title: String,
    pub video_url: String,
    pub audio_url: Option<String>,
}

/// `ResolvedMedia` over sequences of characters.
pub struct MediaView {
    pub title: Seq<char>,
    pub video_url: Seq<char>,
    pub audio_url: Option<Seq<char>>,
}

impl View for ResolvedMedia {
    type V = MediaView;

    open spec fn view(&self) -> MediaView {
        MediaView {
            title: self.title@,
            video_url: self.video_url@,
            audio_url: text(self.audio_url),
        }
    }
}

/// The resolver's command name, used where the configuration names no path.
pub const RESOLVER_COMMAND: &'static str = "yt-dlp";

/// The format selector used where the player's configuration names none.
pub const DEFAULT_FORMAT: &'static str =
    "bestvideo[height<=?1920][fps<=?30][vcodec^=avc]+bestaudio/best";

/// The key of the player's configuration that holds the format selector.
pub const FORMAT_KEY: &'static str = "ytdl-format";

/// The title the resolver gives to a deleted item.
pub const DELETED_TITLE: &'static str = "[Deleted video]";

/// The title the resolver gives to a private item.
pub const PRIVATE_TITLE: &'static str = "[Private video]";

/// The member of a listing line that holds the title.
pub const TITLE_MEMBER: &'static str = "title";

/// The member of a listing line that holds the URL.
pub const URL_MEMBER: &'static str = "url";

/// The string that the member `key` of the JSON object `document` holds:
/// `None` where `document` is no JSON document, is no object, has no such
/// member, or the member is no string.
pub uninterp spec fn json_string_member(document: Seq<char>, key: Seq<char>) -> Option<Seq<char>>;

/// Parses `document` with `serde_json::from_str` into a `serde_json::Value`,
/// indexes it by `key` and reads the result with `Value::as_str`. The
/// contract names the outcome and claims nothing more of it.
#[verifier::external_body]
fn json_member(document: &str, key: &str) -> (r: Option<String>)
    ensures
        text(r) == json_string_member(document@, key@),
{
    match serde_json::from_str::<serde_json::Value>(document) {
        Ok(value) => match value[key].as_str() {
            Some(s) => Some(s.to_owned()),
            None => None,
        },
        Err(_) => None,
    }
}

/// Whether `title` marks an item that cannot be played.
pub open spec fn unavailable(title: Seq<char>) -> bool {
    title == DELETED_TITLE@ || title == PRIVATE_TITLE@
}

/// The entry that one line of a listing stands for: its `title` and `url`
/// members, where both are strings and the title marks no unavailable item.
pub open spec fn entry_of_line(line: Seq<char>) -> Option<EntryView> {
    match (json_string_member(line, TITLE_MEMBER@), json_string_member(line, URL_MEMBER@)) {
        (Some(title), Some(url)) => if unavailable(title) {
            None
        } else {
            Some(EntryView { title, url })
        },
        _ => None,
    }
}

/// The entries of the lines `ls`, in the order of the lines.
pub open spec fn entries_of_lines(ls: Seq<Seq<char>>) -> Seq<EntryView>
    decreases ls.len(),
{
    if ls.len() == 0 {
        Seq::empty()
    } else {
        let before = entries_of_lines(ls.drop_last());
        match entry_of_line(ls.last()) {
            Some(e) => before.push(e),
            None => before,
        }
    }
}

/// The entries of a listing. `output` is what the resolver printed, `None`
/// where it failed: a failure lists nothing.
pub open spec fn enumerated(output: Option<Seq<char>>) -> Seq<EntryView> {
    match output {
        Some(o) => entries_of_lines(lines(o)),
        None => Seq::empty(),
    }
}

/// What a resolution falls back to: the raw URL under the default title.
pub open spec fn fallback(url: Seq<char>, default_title: Seq<char>) -> MediaView {
    MediaView { title: default_title, video_url: url, audio_url: None }
}

/// The media that a resolution stands for. `output` is what the resolver
/// printed, `None` where it failed. Its lines, after trimming, are the title,
/// the video URL and, where there is a third, the audio URL; with fewer than
/// two lines, or on failure, the result is the fallback.
pub open spec fn resolved(
    output: Option<Seq<char>>,
    url: Seq<char>,
    default_title: Seq<char>,
) -> MediaView {
    match output {
        Some(o) => {
            let ls = lines(trimmed(o));
            if ls.len() >= 2 {
                MediaView {
                    title: ls[0],
                    video_url: ls[1],
                    audio_url: if ls.len() >= 3 {
                        Some(ls[2])
                    } else {
                        None
                    },
                }
            } else {
                fallback(url, default_title)
            }
        },
        None => fallback(url, default_title),
    }
}

/// The arguments of a listing of `url`.
pub open spec fn enumerate_arguments_view(url: Seq<char>) -> Seq<Seq<char>> {
    seq!["--flat-playlist"@, "--dump-json"@, url]
}

/// The arguments of a resolution of `url` under the selector `format`.
pub open spec fn resolve_arguments_view(format: Seq<char>, url: Seq<char>) -> Seq<Seq<char>> {
    seq!["-f"@, format, "--get-url"@, "--check-formats"@, "--get-title"@, url]
}

/// The format selector that one line of the player's configuration sets:
/// the trimmed value of a `key=value` line whose trimmed key is the format
/// key. Empty lines and lines that start with `#` set nothing.
pub open spec fn format_of_line(line: Seq<char>) -> Option<Seq<char>> {
    let t = trimmed(line);
    let p = index_of(t, '=') as int;
    if t.len() == 0 || t[0] == '#' || p >= t.len() {
        None
    } else if trimmed(t.take(p)) == FORMAT_KEY@ {
        Some(trimmed(t.skip(p + 1)))
    } else {
        None
    }
}

/// The format selector that the first line of `ls` at or after `from` sets,
/// among those that set one.
pub open spec fn format_of_lines(ls: Seq<Seq<char>>, from: int) -> Option<Seq<char>>
    decreases ls.len() - from,
{
    if from < 0 || from >= ls.len() {
        None
    } else {
        match format_of_line(ls[from]) {
            Some(f) => Some(f),
            None => format_of_lines(ls, from + 1),
        }
    }
}

/// The format selector that the player's configuration `content` names.
pub open spec fn configured_format(content: Seq<char>) -> Option<Seq<char>> {
    format_of_lines(lines(content), 0)
}

/// The format selector in force: the one that the player's configuration
/// names, where it can be read and names one, else the default.
pub open spec fn effective_format_view(content: Option<Seq<char>>) -> Seq<char> {
    match content {
        Some(c) => match configured_format(c) {
            Some(f) => f,
            None => DEFAULT_FORMAT@,
        },
        None => DEFAULT_FORMAT@,
    }
}

/// The resolver's program: the configured path, else the command name.
pub open spec fn resolver_program_view(config: ConfigView) -> Seq<char> {
    match config.ytdl {
        Some(p) => p,
        None => RESOLVER_COMMAND@,
    }
}

/// The resolver's program.
pub fn resolver_program(config: &Config) -> (r: String)
    ensures
        r@ == resolver_program_view(config@),
{
    match &config.ytdl {
        Some(p) => p.clone(),
        None => String::from_str(RESOLVER_COMMAND),
    }
}

/// What a run of the resolver gave: what it printed, where it was started
/// and ended with success; nothing where it could not be started or ended
/// with another status.
pub open spec fn output_view(started: bool, success: bool, printed: Seq<char>) -> Option<
    Seq<char>,
> {
    if started && success {
        Some(printed)
    } else {
        None
    }
}

/// Reads the end of a run of the resolver. `started` tells whether the
/// resolver could be started, `success` whether it ended with success, and
/// `printed` holds what it printed. A failure of either kind gives no
/// output, which a listing reads as no entry and a resolution as the
/// fallback.
pub fn resolver_output(started: bool, success: bool, printed: String) -> (r: Option<String>)
    ensures
        text(r) == output_view(started, success, printed@),
{
    if started && success {
        Some(printed)
    } else {
        None
    }
}

/// The entry that one line of a listing stands for.
fn entry_of(line: &str) -> (r: Option<PlaylistEntry>)
    ensures
        r.deep_view() == entry_of_line(line@),
{
    let title = json_member(line, TITLE_MEMBER);
    let url = json_member(line, URL_MEMBER);
    match (title, url) {
        (Some(title), Some(url)) => {
            let t = to_chars(title.as_str());
            assert(t@.subrange(0, t@.len() as int) =~= t@);
            if spells(&t, 0, t.len(), DELETED_TITLE) || spells(&t, 0, t.len(), PRIVATE_TITLE) {
                None
            } else {
                Some(PlaylistEntry { title, url })
            }
        },
        _ => None,
    }
}

/// Reads a listing: the entries of a playlist, in playback order. A failed
/// listing, malformed lines and unavailable items give no entry.
pub fn enumerate(output: &Option<String>) -> (r: Vec<PlaylistEntry>)
    ensures
        r.deep_view() == enumerated(text(*output)),
{
    let mut r: Vec<PlaylistEntry> = Vec::new();
    match output {
        None => {
            assert(r.deep_view() =~= Seq::<EntryView>::empty());
        },
        Some(o) => {
            let v = to_chars(o.as_str());
            assert(v@.subrange(0, v@.len() as int) =~= v@);
            let bounds = line_bounds(&v, 0, v.len());
            let ghost ls = lines(v@);
            let mut k: usize = 0;
            assert(ls.take(0) =~= Seq::<Seq<char>>::empty());
            assert(r.deep_view() =~= Seq::<EntryView>::empty());
            while k < bounds.len()
                invariant
                    k <= bounds.len(),
                    bounds.len() == ls.len(),
                    forall|i: int|
                        0 <= i < bounds.len() ==> (#[trigger] bounds[i]).0 <= bounds[i].1
                            <= v.len() && v@.subrange(bounds[i].0 as int, bounds[i].1 as int)
                            == ls[i],
                    r.deep_view() == entries_of_lines(ls.take(k as int)),
                decreases bounds.len() - k,
            {
                let line = from_chars(&v, bounds[k].0, bounds[k].1);
                let ghost before = r.deep_view();
                let entry = entry_of(line.as_str());
                proof {
                    assert(ls.take(k + 1).drop_last() =~= ls.take(k as int));
                    assert(ls.take(k + 1).last() == ls[k as int]);
                }
                match entry {
                    Some(e) => {
                        r.push(e);
                        assert(r.deep_view() =~= before.push(e@));
                    },
                    None => {},
                }
                k += 1;
            }
            assert(ls.take(ls.len() as int) =~= ls);
        },
    }
    r
}

/// Reads a resolution of `url`: never an error, at worst the raw URL under
/// the default title.
pub fn resolve(output: &Option<String>, url: &str, default_title: &str) -> (r: ResolvedMedia)
    ensures
        r@ == resolved(text(*output), url@, default_title@),
        *output is None ==> r@ == fallback(url@, default_title@),
{
    match output {
        Some(o) => {
            let v = to_chars(o.as_str());
            assert(v@.subrange(0, v@.len() as int) =~= v@);
            let (a, b) = trim_bounds(&v, 0, v.len());
            let bounds = line_bounds(&v, a, b);
            if bounds.len() >= 2 {
                let title = from_chars(&v, bounds[0].0, bounds[0].1);
                let video_url = from_chars(&v, bounds[1].0, bounds[1].1);
                let audio_url = if bounds.len() >= 3 {
                    Some(from_chars(&v, bounds[2].0, bounds[2].1))
                } else {
                    None
                };
                ResolvedMedia { title, video_url, audio_url }
            } else {
                ResolvedMedia {
                    title: String::from_str(default_title),
                    video_url: String::from_str(url),
                    audio_url: None,
                }
            }
        },
        None => ResolvedMedia {
            title: String::from_str(default_title),
            video_url: String::from_str(url),
            audio_url: None,
        },
    }
}

/// The arguments that make the resolver list `url` without downloading.
pub fn enumerate_arguments(url: &str) -> (r: Vec<String>)
    ensures
        r.deep_view() == enumerate_arguments_view(url@),
{
    let mut r: Vec<String> = Vec::new();
    r.push(String::from_str("--flat-playlist"));
    r.push(String::from_str("--dump-json"));
    r.push(String::from_str(url));
    assert(r.deep_view() =~= enumerate_arguments_view(url@));
    r
}

/// The arguments that make the resolver print the title and the direct URLs
/// of `url` under the selector `format`.
pub fn resolve_arguments(format: &str, url: &str) -> (r: Vec<String>)
    ensures
        r.deep_view() == resolve_arguments_view(format@, url@),
{
    let mut r: Vec<String> = Vec::new();
    r.push(String::from_str("-f"));
    r.push(String::from_str(format));
    r.push(String::from_str("--get-url"));
    r.push(String::from_str("--check-formats"));
    r.push(String::from_str("--get-title"));
    r.push(String::from_str(url));
    assert(r.deep_view() =~= resolve_arguments_view(format@, url@));
    r
}

/// The format selector that one line of the player's configuration sets.
fn format_in_line(v: &Vec<char>, from: usize, to: usize) -> (r: Option<String>)
    requires
        from <= to <= v.len(),
    ensures
        text(r) == format_of_line(v@.subrange(from as int, to as int)),
{
    let (a, b) = trim_bounds(v, from, to);
    let ghost t = v@.subrange(a as int, b as int);
    if a == b || v[a] == '#' {
        return None;
    }
    let mut p: usize = a;
    while p < b && v[p] != '='
        invariant
            a <= p <= b <= v.len(),
            t == v@.subrange(a as int, b as int),
            forall|i: int| 0 <= i < p - a ==> t[i] != '=',
        decreases b - p,
    {
        p += 1;
    }
    proof {
        lemma_index_of_is(t, '=', p - a);
    }
    if p == b {
        return None;
    }
    proof {
        assert(t.take(p - a) =~= v@.subrange(a as int, p as int));
        assert(t.skip(p - a + 1) =~= v@.subrange(p + 1, b as int));
    }
    let (ka, kb) = trim_bounds(v, a, p);
    if spells(v, ka, kb, FORMAT_KEY) {
        let (va, vb) = trim_bounds(v, p + 1, b);
        Some(from_chars(v, va, vb))
    } else {
        None
    }
}

/// Finds the format selector in the player's configuration `content`.
pub fn ytdl_format_from_mpv_conf(content: &str) -> (r: Option<String>)
    ensures
        text(r) == configured_format(content@),
{
    let v = to_chars(content);
    assert(v@.subrange(0, v@.len() as int) =~= v@);
    let bounds = line_bounds(&v, 0, v.len());
    let ghost ls = lines(v@);
    let mut k: usize = 0;
    while k < bounds.len()
        invariant
            k <= bounds.len(),
            bounds.len() == ls.len(),
            ls == lines(content@),
            forall|i: int|
                0 <= i < bounds.len() ==> (#[trigger] bounds[i]).0 <= bounds[i].1 <= v.len()
                    && v@.subrange(bounds[i].0 as int, bounds[i].1 as int) == ls[i],
            format_of_lines(ls, 0) == format_of_lines(ls, k as int),
        decreases bounds.len() - k,
    {
        let found = format_in_line(&v, bounds[k].0, bounds[k].1);
        if found.is_some() {
            return found;
        }
        k += 1;
    }
    None
}

/// The format selector in force for a run. `content` is the player's
/// configuration, `None` where it cannot be read.
pub fn effective_format(content: &Option<String>) -> (r: String)
    ensures
        r@ == effective_format_view(text(*content)),
{
    match content {
        Some(c) => match ytdl_format_from_mpv_conf(c.as_str()) {
            Some(f) => f,
            None => String::from_str(DEFAULT_FORMAT),
        },
        None => String::from_str(DEFAULT_FORMAT),
    }
}

} // verus!
