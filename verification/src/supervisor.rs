//! The process supervisor's plan: the player's argument vector and
//! environment, built from the intent and the configuration.

use crate::config::{Config, ConfigView, PLAYER_COMMAND};
use crate::intent::{IntentView, PlaybackIntent};
use crate::text::{as_slice, chars, joined, keep_numeric, numerics, text};
use vstd::prelude::*;

verus! {

/// What the cookies option starts with.
pub const PREFIX_COOKIES: &'static str = "--ytdl-raw-options-append=cookies=";

/// What the profile option starts with.
pub const PREFIX_PROFILE: &'static str = "--profile=";

/// What the format-sort option starts with.
pub const PREFIX_FORMATS: &'static str = "--ytdl-raw-options-append=format-sort=";

/// What the title option starts with.
pub const PREFIX_V_TITLE: &'static str = "--title=";

/// What the subtitle-file option starts with.
pub const PREFIX_SUBFILE: &'static str = "--sub-file=";

/// What the start-offset option starts with.
pub const PREFIX_STARTAT: &'static str = "--start=";

/// What the resolver-path option starts with.
pub const PREFIX_YT_PATH: &'static str = "--script-opts=ytdl_hook-ytdl_path=";

/// What the control-socket option starts with.
pub const PREFIX_IPC: &'static str = "--input-ipc-server=";

/// The flag that starts the player idle.
pub const IDLE_FLAG: &'static str = "--idle=yes";

/// What ends the player's options; a URL follows.
pub const END_OF_OPTIONS: &'static str = "--";

/// What a lookup on disk found for the intent's cookies file: the file's
/// path and whether the file exists.
#[derive(Debug, PartialEq, Eq)]
pub struct CookieFile {
    pub path: String,
    pub exists: bool,
}

/// `CookieFile` over sequences of characters.
pub struct CookieView {
    pub path: Seq<char>,
    pub exists: bool,
}

impl View for CookieFile {
    type V = CookieView;

    open spec fn view(&self) -> CookieView {
        CookieView { path: self.path@, exists: self.exists }
    }
}

/// The cookie file that an optional lookup stands for.
pub open spec fn cookie_view(file: Option<CookieFile>) -> Option<CookieView> {
    match file {
        Some(f) => Some(f@),
        None => None,
    }
}

/// The cookies option: present where the file exists.
pub open spec fn cookies_view(file: CookieView) -> Option<Seq<char>> {
    if file.exists {
        Some(PREFIX_COOKIES@ + file.path)
    } else {
        None
    }
}

/// The format-sort option: the resolution, which is the numeric characters
/// of the quality hint, then the codec, separated by a comma; absent where
/// both hints are.
pub open spec fn formats_view(quality: Option<Seq<char>>, v_codec: Option<Seq<char>>) -> Option<
    Seq<char>,
> {
    match (quality, v_codec) {
        (Some(q), Some(c)) => Some(
            PREFIX_FORMATS@ + "res:"@ + numerics(q) + ","@ + "+vcodec:"@ + c,
        ),
        (Some(q), None) => Some(PREFIX_FORMATS@ + "res:"@ + numerics(q)),
        (None, Some(c)) => Some(PREFIX_FORMATS@ + "+vcodec:"@ + c),
        (None, None) => None,
    }
}

/// An optional argument as a list of none or one.
pub open spec fn listed(argument: Option<Seq<char>>) -> Seq<Seq<char>> {
    match argument {
        Some(a) => seq![a],
        None => Seq::empty(),
    }
}

/// The option `prefix` with `value`, where there is a value.
pub open spec fn flag(prefix: Seq<char>, value: Option<Seq<char>>) -> Seq<Seq<char>> {
    match value {
        Some(v) => seq![prefix + v],
        None => Seq::empty(),
    }
}

/// The cookies option of an intent: present where the intent names a cookies
/// file and the lookup found it.
pub open spec fn cookies_of(intent: IntentView, cookie: Option<CookieView>) -> Option<Seq<char>> {
    match (intent.cookies, cookie) {
        (Some(_), Some(file)) => cookies_view(file),
        _ => None,
    }
}

/// The player's options for an intent, in their fixed order: cookies,
/// profile, format sort, title, subtitle file, start offset, resolver path.
/// A field that is absent adds nothing.
pub open spec fn options_view(
    intent: IntentView,
    config: ConfigView,
    cookie: Option<CookieView>,
) -> Seq<Seq<char>> {
    listed(cookies_of(intent, cookie)) + flag(PREFIX_PROFILE@, intent.profile) + listed(
        formats_view(intent.quality, intent.v_codec),
    ) + flag(PREFIX_V_TITLE@, intent.v_title) + flag(PREFIX_SUBFILE@, intent.subfile) + flag(
        PREFIX_STARTAT@,
        intent.startat,
    ) + flag(PREFIX_YT_PATH@, config.ytdl)
}

/// The control-socket option: present where queueing was asked for and the
/// configuration names a socket.
pub open spec fn ipc_view(intent: IntentView, config: ConfigView) -> Seq<Seq<char>> {
    if intent.enqueue {
        flag(PREFIX_IPC@, config.socket)
    } else {
        Seq::empty()
    }
}

/// The argument vector of a new player. For a playlist the player starts
/// idle; for a single item the raw URL closes the vector.
pub open spec fn launch_arguments_view(
    intent: IntentView,
    config: ConfigView,
    cookie: Option<CookieView>,
    playlist: bool,
) -> Seq<Seq<char>> {
    if playlist {
        options_view(intent, config, cookie) + seq![IDLE_FLAG@] + ipc_view(intent, config)
    } else {
        options_view(intent, config, cookie) + ipc_view(intent, config) + seq![
            END_OF_OPTIONS@,
            intent.url,
        ]
    }
}

/// The variables that a new player's environment is given: the proxy under
/// its four names, where one is configured.
pub open spec fn proxy_environment_view(proxy: Option<Seq<char>>) -> Seq<(Seq<char>, Seq<char>)> {
    match proxy {
        Some(p) => seq![
            ("http_proxy"@, p),
            ("HTTP_PROXY"@, p),
            ("https_proxy"@, p),
            ("HTTPS_PROXY"@, p),
        ],
        None => Seq::empty(),
    }
}

/// The variables that a new player's environment is rid of: those that
/// direct the dynamic loader.
pub open spec fn cleared_environment_view() -> Seq<Seq<char>> {
    seq!["LD_LIBRARY_PATH"@, "LD_PRELOAD"@]
}

/// The player's program: the configured path, else the command name.
pub open spec fn player_program_view(config: ConfigView) -> Seq<char> {
    match config.mpv {
        Some(p) => p,
        None => PLAYER_COMMAND@,
    }
}

/// The cookies option for a cookies file.
pub fn cookies(file: &CookieFile) -> (r: Option<String>)
    ensures
        text(r) == cookies_view(file@),
{
    if file.exists {
        Some(joined(PREFIX_COOKIES, file.path.as_str()))
    } else {
        None
    }
}

/// The profile option.
pub fn profile(value: &str) -> (r: String)
    ensures
        r@ == PREFIX_PROFILE@ + value@,
{
    joined(PREFIX_PROFILE, value)
}

/// The format-sort option for a quality hint and a codec hint.
pub fn formats(quality: Option<&str>, v_codec: Option<&str>) -> (r: Option<String>)
    ensures
        text(r) == formats_view(chars(quality), chars(v_codec)),
{
    match (quality, v_codec) {
        (None, None) => None,
        _ => {
            let mut r = String::from_str(PREFIX_FORMATS);
            match quality {
                Some(q) => {
                    r.append("res:");
                    r.append(keep_numeric(q).as_str());
                    if v_codec.is_some() {
                        r.append(",");
                    }
                },
                None => {},
            }
            match v_codec {
                Some(c) => {
                    r.append("+vcodec:");
                    r.append(c);
                },
                None => {},
            }
            Some(r)
        },
    }
}

/// The title option.
pub fn v_title(value: &str) -> (r: String)
    ensures
        r@ == PREFIX_V_TITLE@ + value@,
{
    joined(PREFIX_V_TITLE, value)
}

/// The subtitle-file option.
pub fn subfile(value: &str) -> (r: String)
    ensures
        r@ == PREFIX_SUBFILE@ + value@,
{
    joined(PREFIX_SUBFILE, value)
}

/// The start-offset option.
pub fn startat(value: &str) -> (r: String)
    ensures
        r@ == PREFIX_STARTAT@ + value@,
{
    joined(PREFIX_STARTAT, value)
}

/// The option that tells the player where the resolver is.
pub fn yt_path(value: &str) -> (r: String)
    ensures
        r@ == PREFIX_YT_PATH@ + value@,
{
    joined(PREFIX_YT_PATH, value)
}

/// The option that tells the player where to open its control socket.
pub fn ipc_server(socket: &str) -> (r: String)
    ensures
        r@ == PREFIX_IPC@ + socket@,
{
    joined(PREFIX_IPC, socket)
}

/// Appends `item` to `list`, where there is one.
fn push_optional(list: &mut Vec<String>, item: Option<String>)
    ensures
        final(list).deep_view() == old(list).deep_view() + listed(text(item)),
{
    match item {
        Some(v) => {
            list.push(v);
            assert(list.deep_view() =~= old(list).deep_view() + seq![v@]);
        },
        None => {
            assert(list.deep_view() =~= old(list).deep_view() + Seq::<Seq<char>>::empty());
        },
    }
}

/// The option `prefix` with `value`, where there is a value.
fn prefixed(prefix: &str, value: &Option<String>) -> (r: Option<String>)
    ensures
        listed(text(r)) == flag(prefix@, text(*value)),
{
    match value {
        Some(v) => Some(joined(prefix, v.as_str())),
        None => None,
    }
}

/// The cookies option of an intent.
fn cookies_for(intent: &PlaybackIntent, cookie: &Option<CookieFile>) -> (r: Option<String>)
    ensures
        text(r) == cookies_of(intent@, cookie_view(*cookie)),
{
    match (&intent.cookies, cookie) {
        (Some(_), Some(file)) => cookies(file),
        _ => None,
    }
}

/// The player's options for an intent.
pub fn build_mpv_options(
    intent: &PlaybackIntent,
    config: &Config,
    cookie: &Option<CookieFile>,
) -> (r: Vec<String>)
    ensures
        r.deep_view() == options_view(intent@, config@, cookie_view(*cookie)),
{
    let mut options: Vec<String> = Vec::new();
    assert(options.deep_view() =~= Seq::<Seq<char>>::empty());
    push_optional(&mut options, cookies_for(intent, cookie));
    assert(options.deep_view() =~= listed(cookies_of(intent@, cookie_view(*cookie))));
    push_optional(&mut options, prefixed(PREFIX_PROFILE, &intent.profile));
    push_optional(&mut options, formats(as_slice(&intent.quality), as_slice(&intent.v_codec)));
    push_optional(&mut options, prefixed(PREFIX_V_TITLE, &intent.v_title));
    push_optional(&mut options, prefixed(PREFIX_SUBFILE, &intent.subfile));
    push_optional(&mut options, prefixed(PREFIX_STARTAT, &intent.startat));
    push_optional(&mut options, prefixed(PREFIX_YT_PATH, &config.ytdl));
    options
}

/// The argument vector of a new player.
pub fn launch_arguments(
    intent: &PlaybackIntent,
    config: &Config,
    cookie: &Option<CookieFile>,
    playlist: bool,
) -> (r: Vec<String>)
    ensures
        r.deep_view() == launch_arguments_view(intent@, config@, cookie_view(*cookie), playlist),
{
    let mut arguments = build_mpv_options(intent, config, cookie);
    let ghost options = arguments.deep_view();
    if playlist {
        arguments.push(String::from_str(IDLE_FLAG));
    }
    let ghost middle = arguments.deep_view();
    assert(middle =~= if playlist {
        options + seq![IDLE_FLAG@]
    } else {
        options
    });
    if intent.enqueue {
        match &config.socket {
            Some(socket) => {
                arguments.push(ipc_server(socket.as_str()));
            },
            None => {},
        }
    }
    assert(arguments.deep_view() =~= middle + ipc_view(intent@, config@));
    if !playlist {
        arguments.push(String::from_str(END_OF_OPTIONS));
        arguments.push(intent.url.clone());
    }
    assert(arguments.deep_view() =~= launch_arguments_view(
        intent@,
        config@,
        cookie_view(*cookie),
        playlist,
    ));
    arguments
}

/// The variables that a new player's environment is given.
pub fn proxy_environment(config: &Config) -> (r: Vec<(String, String)>)
    ensures
        r.deep_view() == proxy_environment_view(config@.proxy),
{
    let mut r: Vec<(String, String)> = Vec::new();
    match &config.proxy {
        Some(p) => {
            r.push((String::from_str("http_proxy"), p.clone()));
            r.push((String::from_str("HTTP_PROXY"), p.clone()));
            r.push((String::from_str("https_proxy"), p.clone()));
            r.push((String::from_str("HTTPS_PROXY"), p.clone()));
        },
        None => {},
    }
    assert(r.deep_view() =~= proxy_environment_view(config@.proxy));
    r
}

/// The variables that a new player's environment is rid of.
pub fn cleared_environment() -> (r: Vec<String>)
    ensures
        r.deep_view() == cleared_environment_view(),
{
    let mut r: Vec<String> = Vec::new();
    r.push(String::from_str("LD_LIBRARY_PATH"));
    r.push(String::from_str("LD_PRELOAD"));
    assert(r.deep_view() =~= cleared_environment_view());
    r
}

/// The player's program.
pub fn player_program(config: &Config) -> (r: String)
    ensures
        r@ == player_program_view(config@),
{
    match &config.mpv {
        Some(p) => p.clone(),
        None => String::from_str(PLAYER_COMMAND),
    }
}

} // verus!
