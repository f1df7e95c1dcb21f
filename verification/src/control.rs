//! The control-socket client's protocol: the commands that the player is
//! sent, their form on the wire, and the policy of connecting and pacing.

use crate::text::{clone_text, text};
use vstd::prelude::*;

verus! {

/// One instruction for the player.
#[derive(Debug, PartialEq, Eq)]
pub enum ControlCommand {
    /// Load `url` in place of what the player holds.
    LoadReplace { url: String, title: String },
    /// Append `url` to the player's queue; `audio_url` is loaded with it.
    LoadAppend { url: String, title: String, audio_url: Option<String> },
    /// Give the item appended last its title in the queue.
    SetLastItemTitle { title: String },
}

/// `ControlCommand` over sequences of characters.
pub enum CommandView {
    LoadReplace { url: Seq<char>, title: Seq<char> },
    LoadAppend { url: Seq<char>, title: Seq<char>, audio_url: Option<Seq<char>> },
    SetLastItemTitle { title: Seq<char> },
}

impl View for ControlCommand {
    type V = CommandView;

    open spec fn view(&self) -> CommandView {
        match self {
            ControlCommand::LoadReplace { url, title } => CommandView::LoadReplace {
                url: url@,
                title: title@,
            },
            ControlCommand::LoadAppend { url, title, audio_url } => CommandView::LoadAppend {
                url: url@,
                title: title@,
                audio_url: text(*audio_url),
            },
            ControlCommand::SetLastItemTitle { title } => CommandView::SetLastItemTitle {
                title: title@,
            },
        }
    }
}

impl DeepView for ControlCommand {
    type V = CommandView;

    open spec fn deep_view(&self) -> CommandView {
        self@
    }
}

impl Clone for ControlCommand {
    fn clone(&self) -> (r: Self)
        ensures
            r@ == self@,
    {
        match self {
            ControlCommand::LoadReplace { url, title } => ControlCommand::LoadReplace {
                url: url.clone(),
                title: title.clone(),
            },
            ControlCommand::LoadAppend { url, title, audio_url } => ControlCommand::LoadAppend {
                url: url.clone(),
                title: title.clone(),
                audio_url: clone_text(audio_url),
            },
            ControlCommand::SetLastItemTitle { title } => ControlCommand::SetLastItemTitle {
                title: title.clone(),
            },
        }
    }
}

/// How often a connection to a freshly started player is tried.
pub const CONNECT_ATTEMPTS: u32 = 15;

/// The pause after a failed try to connect to a freshly started player, in
/// milliseconds.
pub const CONNECT_INTERVAL_MS: u64 = 200;

/// The pause after an append sent to a running player, in milliseconds.
pub const ATTACHED_PAUSE_MS: u64 = 500;

/// The pause after an append sent to a freshly started player, in
/// milliseconds.
pub const OWNED_PAUSE_MS: u64 = 50;

/// Whether `s` holds no line feed.
pub open spec fn no_line_feed(s: Seq<char>) -> bool {
    forall|i: int| 0 <= i < s.len() ==> s[i] != '\n'
}

/// Whether `s` is one line: it ends with a line feed and holds no other.
pub open spec fn one_line(s: Seq<char>) -> bool {
    s.len() > 0 && s.last() == '\n' && no_line_feed(s.drop_last())
}

/// `s` as a JSON string: between double quotes, with the quote, the reverse
/// solidus and the control characters escaped.
pub uninterp spec fn json_quoted(s: Seq<char>) -> Seq<char>;

/// `serde_json::to_string` on a string slice: the slice as a JSON string.
/// The contract names the outcome and claims one thing of it: it holds no
/// line feed, since every character below U+0020 is written as an escape.
/// Writing into memory does not fail, so the call always yields a string.
#[verifier::external_body]
fn json_quote(s: &str) -> (r: String)
    ensures
        r@ == json_quoted(s@),
        no_line_feed(r@),
{
    serde_json::to_string(s).unwrap_or_default()
}

/// Appends to `line` a piece that holds no line feed.
fn append_piece(line: &mut String, piece: &str)
    requires
        no_line_feed(old(line)@),
        no_line_feed(piece@),
    ensures
        final(line)@ == old(line)@ + piece@,
        no_line_feed(final(line)@),
{
    line.append(piece);
}

/// Appends to `line` the string `s` as a JSON string.
fn append_quoted(line: &mut String, s: &str)
    requires
        no_line_feed(old(line)@),
    ensures
        final(line)@ == old(line)@ + json_quoted(s@),
        no_line_feed(final(line)@),
{
    let quoted = json_quote(s);
    line.append(quoted.as_str());
}

/// Closes `line` with `end`, which ends the document and the line.
fn close_line(line: &mut String, end: &str)
    requires
        no_line_feed(old(line)@),
        one_line(end@),
    ensures
        final(line)@ == old(line)@ + end@,
        one_line(final(line)@),
{
    line.append(end);
    assert(line@.drop_last() =~= old(line)@ + end@.drop_last());
}

/// The line that carries `command`: one JSON document of the shape
/// `{"command":[verb, ...]}`, closed by a line feed. The members of the
/// options object stand in the order of their names.
pub open spec fn command_line(command: CommandView) -> Seq<char> {
    match command {
        CommandView::LoadReplace { url, title } => "{\"command\":[\"loadfile\","@ + json_quoted(
            url,
        ) + ",\"replace\",{\"title\":"@ + json_quoted(title) + "}]}\n"@,
        CommandView::LoadAppend { url, title, audio_url } => match audio_url {
            Some(audio) => "{\"command\":[\"loadfile\","@ + json_quoted(url)
                + ",\"append\",{\"audio-file\":"@ + json_quoted(audio) + ",\"title\":"@
                + json_quoted(title) + "}]}\n"@,
            None => "{\"command\":[\"loadfile\","@ + json_quoted(url)
                + ",\"append\",{\"title\":"@ + json_quoted(title) + "}]}\n"@,
        },
        CommandView::SetLastItemTitle { title } =>
            "{\"command\":[\"set_property\",\"playlist/-1/title\","@ + json_quoted(title)
                + "]}\n"@,
    }
}

impl ControlCommand {
    /// The command as it goes over the control socket: one line.
    pub fn serialize(&self) -> (r: String)
        ensures
            r@ == command_line(self@),
            one_line(r@),
    {
        proof {
            reveal_strlit("{\"command\":[\"loadfile\",");
            reveal_strlit(",\"replace\",{\"title\":");
            reveal_strlit(",\"append\",{\"audio-file\":");
            reveal_strlit(",\"title\":");
            reveal_strlit(",\"append\",{\"title\":");
            reveal_strlit("}]}\n");
            reveal_strlit("{\"command\":[\"set_property\",\"playlist/-1/title\",");
            reveal_strlit("]}\n");
        }
        match self {
            ControlCommand::LoadReplace { url, title } => {
                let mut r = String::from_str("{\"command\":[\"loadfile\",");
                append_quoted(&mut r, url.as_str());
                append_piece(&mut r, ",\"replace\",{\"title\":");
                append_quoted(&mut r, title.as_str());
                close_line(&mut r, "}]}\n");
                r
            },
            ControlCommand::LoadAppend { url, title, audio_url } => {
                let mut r = String::from_str("{\"command\":[\"loadfile\",");
                append_quoted(&mut r, url.as_str());
                match audio_url {
                    Some(audio) => {
                        append_piece(&mut r, ",\"append\",{\"audio-file\":");
                        append_quoted(&mut r, audio.as_str());
                        append_piece(&mut r, ",\"title\":");
                    },
                    None => {
                        append_piece(&mut r, ",\"append\",{\"title\":");
                    },
                }
                append_quoted(&mut r, title.as_str());
                close_line(&mut r, "}]}\n");
                r
            },
            ControlCommand::SetLastItemTitle { title } => {
                let mut r = String::from_str("{\"command\":[\"set_property\",\"playlist/-1/title\",");
                append_quoted(&mut r, title.as_str());
                close_line(&mut r, "]}\n");
                r
            },
        }
    }

    /// Whether the command appends an item to the queue.
    pub fn is_append(&self) -> (r: bool)
        ensures
            r == (self@ is LoadAppend),
    {
        match self {
            ControlCommand::LoadAppend { .. } => true,
            _ => false,
        }
    }
}

} // verus!
