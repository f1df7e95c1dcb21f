//! The playback intent: what to play and how.

use crate::text::text;
use vstd::prelude::*;

verus! {

/// What to play and how. Only `url` is required.
#[derive(Debug, PartialEq, Eq)]
pub struct PlaybackIntent {
    /// The source URL.
    pub url: String,
    /// The name of a cookies file.
    pub cookies: Option<String>,
    /// The name of a player profile.
    pub profile: Option<String>,
    /// A quality hint such as `720p`.
    pub quality: Option<String>,
    /// A video codec hint.
    pub v_codec: Option<String>,
    /// A title to display in place of the media's own.
    pub v_title: Option<String>,
    /// The URL of a subtitle file.
    pub subfile: Option<String>,
    /// Where playback starts.
    pub startat: Option<String>,
    /// Whether the item is to be queued in a running player.
    pub enqueue: bool,
    /// Whether diagnostics are wanted.
    pub debug: bool,
}

/// `PlaybackIntent` over sequences of characters.
pub struct IntentView {
    pub url: Seq<char>,
    pub cookies: Option<Seq<char>>,
    pub profile: Option<Seq<char>>,
    pub quality: Option<Seq<char>>,
    pub v_codec: Option<Seq<char>>,
    pub v_title: Option<Seq<char>>,
    pub subfile: Option<Seq<char>>,
    pub startat: Option<Seq<char>>,
    pub enqueue: bool,
    pub debug: bool,
}

impl View for PlaybackIntent {
    type V = IntentView;

    open spec fn view(&self) -> IntentView {
        IntentView {
            url: self.url@,
            cookies: text(self.cookies),
            profile: text(self.profile),
            quality: text(self.quality),
            v_codec: text(self.v_codec),
            v_title: text(self.v_title),
            subfile: text(self.subfile),
            startat: text(self.startat),
            enqueue: self.enqueue,
            debug: self.debug,
        }
    }
}

impl PlaybackIntent {
    /// An intent to play `url`, with no option set.
    pub fn new(url: String) -> (r: PlaybackIntent)
        ensures
            r@ == (IntentView {
                url: url@,
                cookies: None,
                profile: None,
                quality: None,
                v_codec: None,
                v_title: None,
                subfile: None,
                startat: None,
                enqueue: false,
                debug: false,
            }),
    {
        PlaybackIntent {
            url,
            cookies: None,
            profile: None,
            quality: None,
            v_codec: None,
            v_title: None,
            subfile: None,
            startat: None,
            enqueue: false,
            debug: false,
        }
    }
}

} // verus!
