//! The configuration: where the player and the resolver are, the proxy and
//! the control socket.

use crate::text::{
    clone_text, from_chars, line_bounds, lines, spells, text, to_chars, trim_bounds, trimmed,
};
use vstd::prelude::*;

verus! {

/// The configuration of one run.
///
/// - `mpv`: the player's path
/// - `ytdl`: the resolver's path
/// - `proxy`: the address of an HTTP(S) proxy
/// - `socket`: the address of the player's control socket
#[derive(Debug, PartialEq, Eq)]
pub struct Config {
    pub mpv: Option<String>,
    pub ytdl: Option<String>,
    pub proxy: Option<String>,
    pub socket: Option<String>,
}

/// `Config` over sequences of characters.
pub struct ConfigView {
    pub mpv: Option<Seq<char>>,
    pub ytdl: Option<Seq<char>>,
    pub proxy: Option<Seq<char>>,
    pub socket: Option<Seq<char>>,
}

impl View for Config {
    type V = ConfigView;

    open spec fn view(&self) -> ConfigView {
        ConfigView {
            mpv: text(self.mpv),
            ytdl: text(self.ytdl),
            proxy: text(self.proxy),
            socket: text(self.socket),
        }
    }
}

/// What a search of the executable search path found for one path: whether
/// the path is relative, and for each directory of the search path, in
/// order, the canonical form of the path below it, where there is one.
#[derive(Debug, PartialEq, Eq)]
pub struct PathLookup {
    pub relative: bool,
    pub candidates: Vec<Option<String>>,
}

/// `PathLookup` over sequences of characters.
pub struct LookupView {
    pub relative: bool,
    pub candidates: Seq<Option<Seq<char>>>,
}

impl View for PathLookup {
    type V = LookupView;

    open spec fn view(&self) -> LookupView {
        LookupView { relative: self.relative, candidates: self.candidates.deep_view() }
    }
}

/// The control socket's address where the configuration names none.
pub const DEFAULT_SOCKET: &'static str = "/tmp/mpvsocket";

/// The player's command name, used where the configuration names no path.
pub const PLAYER_COMMAND: &'static str = "mpv";

/// What a line of the player's configuration starts with where it sets the
/// format selector.
pub const FORMAT_SETTING: &'static str = "ytdl-format=";

/// The format selector that one line of the player's configuration sets:
/// what follows `ytdl-format=` at the start of the trimmed line, trimmed.
pub open spec fn setting_of_line(line: Seq<char>) -> Option<Seq<char>> {
    let t = trimmed(line);
    let n = FORMAT_SETTING@.len() as int;
    if t.len() >= n && t.take(n) == FORMAT_SETTING@ {
        Some(trimmed(t.skip(n)))
    } else {
        None
    }
}

/// The format selector that the first line of `ls` at or after `from` sets,
/// among those that set one.
pub open spec fn setting_of_lines(ls: Seq<Seq<char>>, from: int) -> Option<Seq<char>>
    decreases ls.len() - from,
{
    if from < 0 || from >= ls.len() {
        None
    } else {
        match setting_of_line(ls[from]) {
            Some(f) => Some(f),
            None => setting_of_lines(ls, from + 1),
        }
    }
}

/// The format selector that the player's configuration names. `content` is
/// what the file holds, `None` where there is no file or it cannot be read.
pub open spec fn format_setting(content: Option<Seq<char>>) -> Option<Seq<char>> {
    match content {
        Some(c) => setting_of_lines(lines(c), 0),
        None => None,
    }
}

/// The first candidate at or after `from` that is present.
pub open spec fn first_found(candidates: Seq<Option<Seq<char>>>, from: int) -> Option<Seq<char>>
    decreases candidates.len() - from,
{
    if from < 0 || from >= candidates.len() {
        None
    } else {
        match candidates[from] {
            Some(p) => Some(p),
            None => first_found(candidates, from + 1),
        }
    }
}

/// The real path of `path`: for a relative path the first candidate that the
/// search found, and the path itself for an absolute one or where the search
/// found nothing.
pub open spec fn real_path(path: Seq<char>, lookup: LookupView) -> Seq<char> {
    if lookup.relative {
        match first_found(lookup.candidates, 0) {
            Some(p) => p,
            None => path,
        }
    } else {
        path
    }
}

/// An optional path made real.
pub open spec fn real_optional(path: Option<Seq<char>>, lookup: LookupView) -> Option<Seq<char>> {
    match path {
        Some(p) => Some(real_path(p, lookup)),
        None => None,
    }
}

/// The configuration that stands for a file's contents: the player's and the
/// resolver's paths made real, and the default socket where none is named.
pub open spec fn loaded(file: ConfigView, mpv: LookupView, ytdl: LookupView) -> ConfigView {
    ConfigView {
        mpv: real_optional(file.mpv, mpv),
        ytdl: real_optional(file.ytdl, ytdl),
        proxy: file.proxy,
        socket: match file.socket {
            Some(s) => Some(s),
            None => Some(DEFAULT_SOCKET@),
        },
    }
}

/// The configuration without a file: only the default socket.
pub open spec fn default_view() -> ConfigView {
    ConfigView { mpv: None, ytdl: None, proxy: None, socket: Some(DEFAULT_SOCKET@) }
}

impl Config {
    /// The configuration of a run, from what the configuration file held
    /// (`None` where there is no file) and what the search path holds for the
    /// player and the resolver.
    pub fn load(file: Option<Config>, mpv: &PathLookup, ytdl: &PathLookup) -> (r: Config)
        ensures
            r@ == (match file {
                Some(c) => loaded(c@, mpv@, ytdl@),
                None => default_view(),
            }),
    {
        match file {
            None => default_config(),
            Some(c) => {
                let player = match &c.mpv {
                    Some(p) => Some(realpath(p.as_str(), mpv)),
                    None => None,
                };
                let resolver = match &c.ytdl {
                    Some(p) => Some(realpath(p.as_str(), ytdl)),
                    None => None,
                };
                let socket = match c.socket {
                    Some(s) => Some(s),
                    None => Some(default_socket()),
                };
                Config { mpv: player, ytdl: resolver, proxy: c.proxy, socket }
            },
        }
    }
}

/// The real path of `path`, from what a search of the search path found.
pub fn realpath(path: &str, lookup: &PathLookup) -> (r: String)
    ensures
        r@ == real_path(path@, lookup@),
{
    if lookup.relative {
        let mut i: usize = 0;
        while i < lookup.candidates.len()
            invariant
                lookup.relative,
                i <= lookup.candidates.len(),
                first_found(lookup@.candidates, 0) == first_found(lookup@.candidates, i as int),
            decreases lookup.candidates.len() - i,
        {
            match &lookup.candidates[i] {
                Some(p) => {
                    assert(first_found(lookup@.candidates, i as int) == Some(p@));
                    return p.clone();
                },
                None => {
                    assert(first_found(lookup@.candidates, i as int) == first_found(
                        lookup@.candidates,
                        i + 1,
                    ));
                },
            }
            i += 1;
        }
    }
    String::from_str(path)
}

/// The default value of `Config.mpv`: the real path of the player's command.
pub fn default_mpv(lookup: &PathLookup) -> (r: String)
    ensures
        r@ == real_path(PLAYER_COMMAND@, lookup@),
{
    realpath(PLAYER_COMMAND, lookup)
}

/// The default value of `Config.socket`.
pub fn default_socket() -> (r: String)
    ensures
        r@ == DEFAULT_SOCKET@,
{
    String::from_str(DEFAULT_SOCKET)
}

/// The default value of `Config`.
pub fn default_config() -> (r: Config)
    ensures
        r@ == default_view(),
{
    Config { mpv: None, ytdl: None, proxy: None, socket: Some(default_socket()) }
}

impl Clone for Config {
    fn clone(&self) -> (r: Self)
        ensures
            r@ == self@,
    {
        Config {
            mpv: clone_text(&self.mpv),
            ytdl: clone_text(&self.ytdl),
            proxy: clone_text(&self.proxy),
            socket: clone_text(&self.socket),
        }
    }
}

/// The format selector that one line of the player's configuration sets.
fn setting_in_line(v: &Vec<char>, from: usize, to: usize) -> (r: Option<String>)
    requires
        from <= to <= v.len(),
    ensures
        text(r) == setting_of_line(v@.subrange(from as int, to as int)),
{
    let (a, b) = trim_bounds(v, from, to);
    let ghost t = v@.subrange(a as int, b as int);
    let n = to_chars(FORMAT_SETTING).len();
    if b - a < n {
        return None;
    }
    proof {
        assert(t.take(n as int) =~= v@.subrange(a as int, a + n));
        assert(t.skip(n as int) =~= v@.subrange(a + n, b as int));
    }
    if spells(v, a, a + n, FORMAT_SETTING) {
        let (va, vb) = trim_bounds(v, a + n, b);
        Some(from_chars(v, va, vb))
    } else {
        None
    }
}

/// Finds the format selector in the player's configuration. `content` is
/// what the file holds, `None` where there is no file or it cannot be read.
pub fn get_ytdl_format_from_mpv_conf(content: &Option<String>) -> (r: Option<String>)
    ensures
        text(r) == format_setting(text(*content)),
{
    match content {
        None => None,
        Some(c) => {
            let v = to_chars(c.as_str());
            assert(v@.subrange(0, v@.len() as int) =~= v@);
            let bounds = line_bounds(&v, 0, v.len());
            let ghost ls = lines(v@);
            let mut k: usize = 0;
            while k < bounds.len()
                invariant
                    k <= bounds.len(),
                    bounds.len() == ls.len(),
                    ls == lines(c@),
                    text(*content) == Some(c@),
                    forall|i: int|
                        0 <= i < bounds.len() ==> (#[trigger] bounds[i]).0 <= bounds[i].1
                            <= v.len() && v@.subrange(bounds[i].0 as int, bounds[i].1 as int)
                            == ls[i],
                    setting_of_lines(ls, 0) == setting_of_lines(ls, k as int),
                decreases bounds.len() - k,
            {
                let found = setting_in_line(&v, bounds[k].0, bounds[k].1);
                if found.is_some() {
                    return found;
                }
                k += 1;
            }
            None
        },
    }
}

} // verus!
