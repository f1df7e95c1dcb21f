//! The playback orchestrator: a state machine that classifies the intent,
//! asks how many playlist items are wanted, chooses between a running player
//! and a new one, and issues the player's commands in order.
//!
//! The machine does no work outside itself. Each state names the one action
//! it waits for ([`Orchestrator::pending`]); whoever drives the machine
//! performs that action and hands back the event that answers it
//! ([`Orchestrator::advance`]), until the pending action is `Finish`.

use crate::config::{Config, ConfigView};
use crate::control::{
    command_line, one_line, CommandView, ControlCommand, ATTACHED_PAUSE_MS, CONNECT_ATTEMPTS,
    CONNECT_INTERVAL_MS, OWNED_PAUSE_MS,
};
use crate::error::{exit_outcome, map_exit, Error, ErrorView, Outcome, OutcomeView};
use crate::intent::{IntentView, PlaybackIntent};
use crate::resolver::{
    enumerate, enumerate_arguments, enumerate_arguments_view, enumerated, resolve,
    resolve_arguments, resolve_arguments_view, resolved, resolver_program,
    resolver_program_view, EntryView, PlaylistEntry,
};
use crate::supervisor::{
    cleared_environment, cleared_environment_view, cookie_view, launch_arguments,
    launch_arguments_view, player_program, player_program_view, proxy_environment,
    proxy_environment_view, CookieFile, CookieView,
};
use crate::text::{joined, parse_word, text, to_chars, trim_bounds, trimmed, unsigned_word};
use vstd::prelude::*;

verus! {

/// The answer to the question how many items of a playlist are wanted.
#[derive(Clone, Copy, Debug, PartialEq, Eq, Structural)]
pub enum Confirmation {
    /// So many items, counted from the first; zero stands for all.
    Count(usize),
    /// All items.
    All,
    /// No answer came in time.
    TimedOut,
    /// The question was cancelled, answered with something that is no
    /// number, or could not be asked.
    Declined,
}

/// What the notice of the item that is played starts with.
pub const PLAYING_NOTICE: &'static str = "Playing: ";

/// What the notice of an item that was queued starts with.
pub const ENQUEUED_NOTICE: &'static str = "Enqueued: ";

/// The exit code of the question that stands for an answer.
pub const ANSWERED: i32 = 0;

/// The exit code of the question that stands for no answer in time.
pub const UNANSWERED: i32 = 5;

/// What the end of the question means. `code` is its exit code, `None`
/// where it could not be asked or has none; `output` is what was typed. An
/// answer is the number that the trimmed output spells, zero standing for
/// all; other output, and any other way to end, declines.
pub open spec fn confirmation_of(code: Option<i32>, output: Seq<char>) -> Confirmation {
    if code == Some(ANSWERED) {
        match unsigned_word(trimmed(output)) {
            Some(n) => if n == 0 {
                Confirmation::All
            } else {
                Confirmation::Count(n)
            },
            None => Confirmation::Declined,
        }
    } else if code == Some(UNANSWERED) {
        Confirmation::TimedOut
    } else {
        Confirmation::Declined
    }
}

/// Reads the end of the question for the count.
pub fn interpret_confirmation(code: Option<i32>, output: &str) -> (r: Confirmation)
    ensures
        r == confirmation_of(code, output@),
{
    match code {
        Some(c) => {
            if c == ANSWERED {
                let v = to_chars(output);
                assert(v@.subrange(0, v@.len() as int) =~= v@);
                let (a, b) = trim_bounds(&v, 0, v.len());
                match parse_word(&v, a, b) {
                    Some(n) => if n == 0 {
                        Confirmation::All
                    } else {
                        Confirmation::Count(n)
                    },
                    None => Confirmation::Declined,
                }
            } else if c == UNANSWERED {
                Confirmation::TimedOut
            } else {
                Confirmation::Declined
            }
        },
        None => Confirmation::Declined,
    }
}

/// The player that the commands go to.
#[derive(Clone, Copy, Debug, PartialEq, Eq, Structural)]
pub enum Session {
    /// Not decided yet.
    Pending,
    /// A player that was running already, reached over its control socket.
    Attached,
    /// A player that this invocation started.
    Owned,
}

/// What happened outside the machine.
#[derive(Debug, PartialEq, Eq)]
pub enum Event {
    /// The listing ended; holds what the resolver printed, `None` where it
    /// failed.
    Enumerated(Option<String>),
    /// The question for the count was answered.
    Confirmed(Confirmation),
    /// A connection to the control socket was tried; holds whether it stands.
    Connected(bool),
    /// A resolution ended; holds what the resolver printed, `None` where it
    /// failed.
    Resolved(Option<String>),
    /// A line was written to the control socket; holds whether all of it was.
    Sent(bool),
    /// The player was started.
    Spawned,
    /// The player could not be started; holds the system's message.
    SpawnFailed(String),
    /// The player that was started has been killed.
    Killed,
    /// The player ended; holds whether its status is a success, and its
    /// exit code where it has one.
    Exited { success: bool, code: Option<i32> },
    /// Waiting for the player failed; holds the system's message.
    WaitFailed(String),
}

/// `Event` over sequences of characters.
pub enum EventView {
    Enumerated(Option<Seq<char>>),
    Confirmed(Confirmation),
    Connected(bool),
    Resolved(Option<Seq<char>>),
    Sent(bool),
    Spawned,
    SpawnFailed(Seq<char>),
    Killed,
    Exited { success: bool, code: Option<i32> },
    WaitFailed(Seq<char>),
}

impl View for Event {
    type V = EventView;

    open spec fn view(&self) -> EventView {
        match self {
            Event::Enumerated(o) => EventView::Enumerated(text(*o)),
            Event::Confirmed(c) => EventView::Confirmed(*c),
            Event::Connected(ok) => EventView::Connected(*ok),
            Event::Resolved(o) => EventView::Resolved(text(*o)),
            Event::Sent(ok) => EventView::Sent(*ok),
            Event::Spawned => EventView::Spawned,
            Event::SpawnFailed(m) => EventView::SpawnFailed(m@),
            Event::Killed => EventView::Killed,
            Event::Exited { success, code } => EventView::Exited { success: *success, code: *code },
            Event::WaitFailed(m) => EventView::WaitFailed(m@),
        }
    }
}

/// What is to be done outside the machine.
#[derive(Debug, PartialEq, Eq)]
pub enum Action {
    /// Run the resolver to list the source URL.
    Enumerate { program: String, arguments: Vec<String> },
    /// Ask how many of `total` playlist items are wanted.
    Confirm { total: usize },
    /// Try once to connect to the control socket at `address`; after a
    /// failure, sleep `retry_delay_ms` milliseconds before reporting it.
    Connect { address: String, retry_delay_ms: u64 },
    /// Run the resolver to resolve one item.
    Resolve { program: String, arguments: Vec<String> },
    /// Write `line` to the control socket; after a success, sleep `pause_ms`
    /// milliseconds before reporting it.
    Send { line: String, pause_ms: u64 },
    /// Start the player with these arguments, `environment` added to its
    /// environment and the variables `cleared` taken out of it.
    Spawn {
        program: String,
        arguments: Vec<String>,
        environment: Vec<(String, String)>,
        cleared: Vec<String>,
    },
    /// Kill the player that was started.
    Kill,
    /// Wait until the player that was started ends.
    Wait,
    /// Nothing is left to do; the invocation ends so.
    Finish(Outcome),
}

/// `Action` over sequences of characters.
pub enum ActionView {
    Enumerate { program: Seq<char>, arguments: Seq<Seq<char>> },
    Confirm { total: nat },
    Connect { address: Seq<char>, retry_delay_ms: u64 },
    Resolve { program: Seq<char>, arguments: Seq<Seq<char>> },
    Send { line: Seq<char>, pause_ms: u64 },
    Spawn {
        program: Seq<char>,
        arguments: Seq<Seq<char>>,
        environment: Seq<(Seq<char>, Seq<char>)>,
        cleared: Seq<Seq<char>>,
    },
    Kill,
    Wait,
    Finish(OutcomeView),
}

impl View for Action {
    type V = ActionView;

    open spec fn view(&self) -> ActionView {
        match self {
            Action::Enumerate { program, arguments } => ActionView::Enumerate {
                program: program@,
                arguments: arguments.deep_view(),
            },
            Action::Confirm { total } => ActionView::Confirm { total: *total as nat },
            Action::Connect { address, retry_delay_ms } => ActionView::Connect {
                address: address@,
                retry_delay_ms: *retry_delay_ms,
            },
            Action::Resolve { program, arguments } => ActionView::Resolve {
                program: program@,
                arguments: arguments.deep_view(),
            },
            Action::Send { line, pause_ms } => ActionView::Send { line: line@, pause_ms: *pause_ms },
            Action::Spawn { program, arguments, environment, cleared } => ActionView::Spawn {
                program: program@,
                arguments: arguments.deep_view(),
                environment: environment.deep_view(),
                cleared: cleared.deep_view(),
            },
            Action::Kill => ActionView::Kill,
            Action::Wait => ActionView::Wait,
            Action::Finish(o) => ActionView::Finish(o@),
        }
    }
}

/// Where the machine stands.
#[derive(Debug, PartialEq, Eq)]
pub enum Phase {
    /// The source URL is being listed.
    Classifying,
    /// A playlist was found; the count is being asked for.
    Confirming,
    /// A running player is looked for.
    Probing,
    /// The item `index` is being resolved.
    Resolving { index: usize },
    /// `command`, which belongs to the item `index`, is being sent.
    Sending { index: usize, command: ControlCommand },
    /// A new player is being started.
    Spawning,
    /// The new player's control socket is being connected to; `attempt`
    /// tries have failed.
    Connecting { attempt: u32 },
    /// The new player is being killed, since its socket never accepted.
    Killing,
    /// The new player is being waited for.
    Waiting,
    /// The invocation has ended.
    Done(Outcome),
}

/// `Phase` over sequences of characters.
pub enum PhaseView {
    Classifying,
    Confirming,
    Probing,
    Resolving { index: nat },
    Sending { index: nat, command: CommandView },
    Spawning,
    Connecting { attempt: nat },
    Killing,
    Waiting,
    Done(OutcomeView),
}

impl View for Phase {
    type V = PhaseView;

    open spec fn view(&self) -> PhaseView {
        match self {
            Phase::Classifying => PhaseView::Classifying,
            Phase::Confirming => PhaseView::Confirming,
            Phase::Probing => PhaseView::Probing,
            Phase::Resolving { index } => PhaseView::Resolving { index: *index as nat },
            Phase::Sending { index, command } => PhaseView::Sending {
                index: *index as nat,
                command: command@,
            },
            Phase::Spawning => PhaseView::Spawning,
            Phase::Connecting { attempt } => PhaseView::Connecting { attempt: *attempt as nat },
            Phase::Killing => PhaseView::Killing,
            Phase::Waiting => PhaseView::Waiting,
            Phase::Done(o) => PhaseView::Done(o@),
        }
    }
}

/// The state of one invocation. A state is made by [`Orchestrator::new`] and
/// by [`Orchestrator::advance`] only, so that every state is one that an
/// invocation can reach.
#[derive(Debug, PartialEq, Eq)]
pub struct Orchestrator {
    /// What is to be played.
    pub(crate) intent: PlaybackIntent,
    /// The configuration of the run.
    pub(crate) config: Config,
    /// What the lookup of the intent's cookies file found, if one was made.
    pub(crate) cookie: Option<CookieFile>,
    /// The format selector in force.
    pub(crate) format: String,
    /// The items to play, in playback order.
    pub(crate) items: Vec<PlaylistEntry>,
    /// Whether the items are handled as a playlist.
    pub(crate) playlist: bool,
    /// The player that the commands go to.
    pub(crate) session: Session,
    /// Where the machine stands.
    pub(crate) phase: Phase,
    /// The commands that were written to the control socket, in order.
    pub(crate) sent: Vec<ControlCommand>,
}

/// `Orchestrator` over sequences of characters.
pub struct OrchestratorView {
    pub intent: IntentView,
    pub config: ConfigView,
    pub cookie: Option<CookieView>,
    pub format: Seq<char>,
    pub items: Seq<EntryView>,
    pub playlist: bool,
    pub session: Session,
    pub phase: PhaseView,
    pub sent: Seq<CommandView>,
}

impl View for Orchestrator {
    type V = OrchestratorView;

    closed spec fn view(&self) -> OrchestratorView {
        OrchestratorView {
            intent: self.intent@,
            config: self.config@,
            cookie: cookie_view(self.cookie),
            format: self.format@,
            items: self.items.deep_view(),
            playlist: self.playlist,
            session: self.session,
            phase: self.phase@,
            sent: self.sent.deep_view(),
        }
    }
}

/// The state in which an invocation starts.
pub open spec fn initial(
    intent: IntentView,
    config: ConfigView,
    cookie: Option<CookieView>,
    format: Seq<char>,
) -> OrchestratorView {
    OrchestratorView {
        intent,
        config,
        cookie,
        format,
        items: Seq::empty(),
        playlist: false,
        session: Session::Pending,
        phase: PhaseView::Classifying,
        sent: Seq::empty(),
    }
}

/// The title of a command that carries one.
pub open spec fn title_of(command: CommandView) -> Seq<char> {
    match command {
        CommandView::LoadReplace { title, .. } => title,
        CommandView::LoadAppend { title, .. } => title,
        CommandView::SetLastItemTitle { title } => title,
    }
}

/// The command that appends `entry`, whose resolution printed `output`,
/// under the title of the entry or under the resolved title.
pub open spec fn append_of(
    entry: EntryView,
    entry_title: bool,
    output: Option<Seq<char>>,
) -> CommandView {
    let media = resolved(output, entry.url, entry.title);
    CommandView::LoadAppend {
        url: media.video_url,
        title: if entry_title {
            entry.title
        } else {
            media.title
        },
        audio_url: media.audio_url,
    }
}

/// The events of a burst in which every write succeeds: for each of
/// `outputs` the resolution that printed it, and two writes.
pub open spec fn burst_events(outputs: Seq<Option<Seq<char>>>) -> Seq<EventView>
    decreases outputs.len(),
{
    if outputs.len() == 0 {
        Seq::empty()
    } else {
        seq![EventView::Resolved(outputs.first()), EventView::Sent(true), EventView::Sent(true)]
            + burst_events(outputs.drop_first())
    }
}

/// The commands of a burst in which every write succeeds: for each of
/// `items` from `index` on, the append made of what its resolution printed
/// and the title of what was appended.
pub open spec fn burst_commands(
    items: Seq<EntryView>,
    entry_titles: bool,
    index: int,
    outputs: Seq<Option<Seq<char>>>,
) -> Seq<CommandView>
    decreases outputs.len(),
{
    if outputs.len() == 0 {
        Seq::empty()
    } else {
        let append = append_of(items[index], entry_titles, outputs.first());
        seq![append, CommandView::SetLastItemTitle { title: title_of(append) }] + burst_commands(
            items,
            entry_titles,
            index + 1,
            outputs.drop_first(),
        )
    }
}

impl OrchestratorView {
    /// The intent as one item: its URL, under the title it asks for or else
    /// under the URL itself.
    pub open spec fn single(self) -> EntryView {
        EntryView {
            title: match self.intent.v_title {
                Some(t) => t,
                None => self.intent.url,
            },
            url: self.intent.url,
        }
    }

    /// Where the route decision leads: to the probe for a running player
    /// where queueing was asked for and a socket is configured, else to a new
    /// player.
    pub open spec fn route(self) -> PhaseView {
        if self.intent.enqueue && self.config.socket is Some {
            PhaseView::Probing
        } else {
            PhaseView::Spawning
        }
    }

    /// The state after the listing gave `entries`: more than one entry make a
    /// playlist, whose count is asked for; otherwise the intent is one item.
    pub open spec fn classified(self, entries: Seq<EntryView>) -> OrchestratorView {
        if entries.len() > 1 {
            OrchestratorView { items: entries, phase: PhaseView::Confirming, ..self }
        } else {
            OrchestratorView {
                items: seq![self.single()],
                playlist: false,
                phase: self.route(),
                ..self
            }
        }
    }

    /// The items that an answer keeps: the first `n` for a count `n` above
    /// zero, the first alone where the question was declined, else all.
    pub open spec fn kept(self, answer: Confirmation) -> Seq<EntryView> {
        match answer {
            Confirmation::Count(n) => if 0 < n < self.items.len() {
                self.items.take(n as int)
            } else {
                self.items
            },
            Confirmation::All => self.items,
            Confirmation::TimedOut => self.items,
            Confirmation::Declined => self.items.take(1),
        }
    }

    /// The state after the count was answered.
    pub open spec fn confirmed(self, answer: Confirmation) -> OrchestratorView {
        OrchestratorView {
            items: self.kept(answer),
            playlist: answer != Confirmation::Declined,
            phase: self.route(),
            ..self
        }
    }

    /// Whether an appended item is shown under the title of its entry: so a
    /// running player shows the items of a playlist. Otherwise the resolved
    /// title is shown.
    pub open spec fn keeps_entry_titles(self) -> bool {
        self.session == Session::Attached && self.playlist
    }

    /// The command that appends the item `index`, whose resolution printed
    /// `output`.
    pub open spec fn append_command(self, index: int, output: Option<Seq<char>>) -> CommandView {
        append_of(self.items[index], self.keeps_entry_titles(), output)
    }

    /// The command that makes the first item replace what a new player
    /// holds. The item goes to the player unresolved.
    pub open spec fn replace_command(self) -> CommandView {
        CommandView::LoadReplace { url: self.items[0].url, title: self.items[0].title }
    }

    /// Where the machine goes when the last item is done: a new player is
    /// waited for; with a running player the invocation ends with success.
    pub open spec fn after_burst(self) -> PhaseView {
        if self.session == Session::Owned {
            PhaseView::Waiting
        } else {
            PhaseView::Done(OutcomeView::Success)
        }
    }

    /// Where the machine goes when a write failed. Where nothing was written
    /// before it, no item was accepted, and the invocation fails at once, for
    /// a new player as for a running one. After a write that succeeded the
    /// burst is over and playback goes on with what was accepted.
    pub open spec fn after_failure(self) -> PhaseView {
        if self.sent.len() == 0 {
            PhaseView::Done(OutcomeView::Failure(ErrorView::SocketWriteFailed))
        } else {
            self.after_burst()
        }
    }

    /// Where the machine goes when the item `index` is done.
    pub open spec fn after_item(self, index: nat) -> PhaseView {
        if index + 1 < self.items.len() {
            PhaseView::Resolving { index: index + 1 }
        } else {
            self.after_burst()
        }
    }

    /// The state after `command`, which belongs to the item `index`, was
    /// written: an append is followed by the title of what it appended, and
    /// anything else by the next item.
    pub open spec fn written(self, index: nat, command: CommandView) -> OrchestratorView {
        let sent = self.sent.push(command);
        match command {
            CommandView::LoadAppend { title, .. } => OrchestratorView {
                sent,
                phase: PhaseView::Sending {
                    index,
                    command: CommandView::SetLastItemTitle { title },
                },
                ..self
            },
            _ => OrchestratorView { sent, phase: self.after_item(index), ..self },
        }
    }

    /// The state after a try to connect to a new player's socket failed
    /// for the `attempt + 1`-th time.
    pub open spec fn retried(self, attempt: nat) -> PhaseView {
        if attempt + 1 < CONNECT_ATTEMPTS {
            PhaseView::Connecting { attempt: attempt + 1 }
        } else {
            PhaseView::Killing
        }
    }

    /// The state that follows `self` on `event`. An event that does not
    /// answer the pending action changes nothing.
    pub open spec fn next(self, event: EventView) -> OrchestratorView {
        match (self.phase, event) {
            (PhaseView::Classifying, EventView::Enumerated(output)) => self.classified(
                enumerated(output),
            ),
            (PhaseView::Confirming, EventView::Confirmed(answer)) => self.confirmed(answer),
            (PhaseView::Probing, EventView::Connected(ok)) => if ok {
                OrchestratorView {
                    session: Session::Attached,
                    phase: PhaseView::Resolving { index: 0 },
                    ..self
                }
            } else {
                OrchestratorView { phase: PhaseView::Spawning, ..self }
            },
            (PhaseView::Resolving { index }, EventView::Resolved(output)) => OrchestratorView {
                phase: PhaseView::Sending {
                    index,
                    command: self.append_command(index as int, output),
                },
                ..self
            },
            (PhaseView::Sending { index, command }, EventView::Sent(ok)) => if ok {
                self.written(index, command)
            } else {
                OrchestratorView { phase: self.after_failure(), ..self }
            },
            (PhaseView::Spawning, EventView::Spawned) => OrchestratorView {
                session: Session::Owned,
                phase: if self.playlist && self.config.socket is Some {
                    PhaseView::Connecting { attempt: 0 }
                } else {
                    PhaseView::Waiting
                },
                ..self
            },
            (PhaseView::Spawning, EventView::SpawnFailed(message)) => OrchestratorView {
                phase: PhaseView::Done(
                    OutcomeView::Failure(ErrorView::PlayerSpawnFailed(message)),
                ),
                ..self
            },
            (PhaseView::Connecting { attempt }, EventView::Connected(ok)) => if ok {
                OrchestratorView {
                    phase: PhaseView::Sending { index: 0, command: self.replace_command() },
                    ..self
                }
            } else {
                OrchestratorView { phase: self.retried(attempt), ..self }
            },
            (PhaseView::Killing, EventView::Killed) => OrchestratorView {
                phase: PhaseView::Done(OutcomeView::Failure(ErrorView::SocketConnectionFailed)),
                ..self
            },
            (PhaseView::Waiting, EventView::Exited { success, code }) => OrchestratorView {
                phase: PhaseView::Done(exit_outcome(success, code)),
                ..self
            },
            (PhaseView::Waiting, EventView::WaitFailed(message)) => OrchestratorView {
                phase: PhaseView::Done(OutcomeView::Failure(ErrorView::PlayerWaitFailed(message))),
                ..self
            },
            _ => self,
        }
    }

    /// The state that follows `self` on `events`, taken in order.
    pub open spec fn run(self, events: Seq<EventView>) -> OrchestratorView
        decreases events.len(),
    {
        if events.len() == 0 {
            self
        } else {
            self.next(events.first()).run(events.drop_first())
        }
    }

    /// The address of the control socket, empty where none is configured.
    pub open spec fn address(self) -> Seq<char> {
        match self.config.socket {
            Some(s) => s,
            None => Seq::empty(),
        }
    }

    /// The pause after `command` was written: an append is given time to
    /// take effect before the title of the appended item is set.
    pub open spec fn pause(self, command: CommandView) -> u64 {
        if command is LoadAppend {
            if self.session == Session::Owned {
                OWNED_PAUSE_MS
            } else {
                ATTACHED_PAUSE_MS
            }
        } else {
            0
        }
    }

    /// The action that `self` waits for.
    pub open spec fn pending(self) -> ActionView {
        match self.phase {
            PhaseView::Classifying => ActionView::Enumerate {
                program: resolver_program_view(self.config),
                arguments: enumerate_arguments_view(self.intent.url),
            },
            PhaseView::Confirming => ActionView::Confirm { total: self.items.len() },
            PhaseView::Probing => ActionView::Connect {
                address: self.address(),
                retry_delay_ms: 0,
            },
            PhaseView::Resolving { index } => ActionView::Resolve {
                program: resolver_program_view(self.config),
                arguments: resolve_arguments_view(self.format, self.items[index as int].url),
            },
            PhaseView::Sending { command, .. } => ActionView::Send {
                line: command_line(command),
                pause_ms: self.pause(command),
            },
            PhaseView::Spawning => ActionView::Spawn {
                program: player_program_view(self.config),
                arguments: launch_arguments_view(
                    self.intent,
                    self.config,
                    self.cookie,
                    self.playlist,
                ),
                environment: proxy_environment_view(self.config.proxy),
                cleared: cleared_environment_view(),
            },
            PhaseView::Connecting { .. } => ActionView::Connect {
                address: self.address(),
                retry_delay_ms: CONNECT_INTERVAL_MS,
            },
            PhaseView::Killing => ActionView::Kill,
            PhaseView::Waiting => ActionView::Wait,
            PhaseView::Done(outcome) => ActionView::Finish(outcome),
        }
    }

    /// The number of commands that go before the appended items: for a new
    /// player the one that replaces, for a running player none.
    pub open spec fn lead(self) -> nat {
        if self.session == Session::Owned {
            1
        } else {
            0
        }
    }

    /// The command at `j` of the log is what its place asks for: appends and
    /// titles alternate after the lead, each title being that of the item
    /// appended just before.
    pub open spec fn shaped_at(self, j: int) -> bool {
        if (j - self.lead()) % 2 == 0 {
            self.sent[j] is LoadAppend
        } else {
            self.sent[j] == (CommandView::SetLastItemTitle { title: title_of(self.sent[j - 1]) })
        }
    }

    /// The `k`-th append of the log carries the title of the `k`-th entry.
    pub open spec fn titled_at(self, k: int) -> bool {
        k < self.items.len() && title_of(self.sent[2 * k]) == self.items[k].title
    }

    /// The log of what was sent has the shape of a burst: a new player's
    /// first command replaces with the first item as it was listed; after
    /// it, and from the start for a running player, appends and titles
    /// alternate. A running player's playlist items are appended in the
    /// order and under the titles of their entries.
    pub open spec fn log_shaped(self) -> bool {
        &&& self.session == Session::Pending ==> self.sent.len() == 0
        &&& self.session == Session::Owned && self.sent.len() > 0 ==> self.items.len() > 0
            && self.sent[0] == self.replace_command()
        &&& forall|j: int| self.lead() <= j < self.sent.len() ==> #[trigger] self.shaped_at(j)
        &&& self.session == Session::Attached && self.playlist ==> forall|k: int|
            0 <= 2 * k < self.sent.len() ==> #[trigger] self.titled_at(k)
    }

    /// The number of commands in the log when the append of the item `index`
    /// is next.
    pub open spec fn sent_before(self, index: nat) -> int {
        self.lead() + 2 * (index - self.lead())
    }

    /// What holds of every state that an invocation reaches.
    pub open spec fn inv(self) -> bool {
        &&& self.log_shaped()
        &&& match self.phase {
            PhaseView::Classifying => self.items.len() == 0 && !self.playlist && self.session
                == Session::Pending,
            PhaseView::Confirming => self.items.len() > 1 && !self.playlist && self.session
                == Session::Pending,
            PhaseView::Probing => self.items.len() >= 1 && self.session == Session::Pending
                && self.intent.enqueue && self.config.socket is Some,
            PhaseView::Spawning => self.items.len() >= 1 && self.session == Session::Pending,
            PhaseView::Resolving { index } => self.session != Session::Pending && self.lead()
                <= index < self.items.len() && self.sent.len() == self.sent_before(index),
            PhaseView::Sending { index, command } => self.session != Session::Pending && index
                < self.items.len() && match command {
                CommandView::LoadReplace { .. } => self.session == Session::Owned && index == 0
                    && self.sent.len() == 0 && command == self.replace_command(),
                CommandView::LoadAppend { title, .. } => self.lead() <= index && self.sent.len()
                    == self.sent_before(index) && (self.session == Session::Attached
                    && self.playlist ==> title == self.items[index as int].title),
                CommandView::SetLastItemTitle { title } => self.lead() <= index
                    && self.sent.len() == self.sent_before(index) + 1 && title == title_of(
                    self.sent.last(),
                ),
            },
            PhaseView::Connecting { attempt } => self.session == Session::Owned && attempt
                < CONNECT_ATTEMPTS && self.items.len() >= 1 && self.sent.len() == 0
                && self.playlist && self.config.socket is Some,
            PhaseView::Killing => self.session == Session::Owned && self.sent.len() == 0,
            PhaseView::Waiting => self.session == Session::Owned,
            PhaseView::Done(_) => true,
        }
    }

    /// Whether `event` answers the action that `self` waits for.
    pub open spec fn answers(self, event: EventView) -> bool {
        match (self.phase, event) {
            (PhaseView::Classifying, EventView::Enumerated(_)) => true,
            (PhaseView::Confirming, EventView::Confirmed(_)) => true,
            (PhaseView::Probing, EventView::Connected(_)) => true,
            (PhaseView::Resolving { .. }, EventView::Resolved(_)) => true,
            (PhaseView::Sending { .. }, EventView::Sent(_)) => true,
            (PhaseView::Spawning, EventView::Spawned) => true,
            (PhaseView::Spawning, EventView::SpawnFailed(_)) => true,
            (PhaseView::Connecting { .. }, EventView::Connected(_)) => true,
            (PhaseView::Killing, EventView::Killed) => true,
            (PhaseView::Waiting, EventView::Exited { .. }) => true,
            (PhaseView::Waiting, EventView::WaitFailed(_)) => true,
            _ => false,
        }
    }

    /// A bound on the number of answers that the machine still takes before
    /// it ends, once the items are listed: three for each item that is left,
    /// as many tries to connect as the budget still allows, and one for each
    /// step that is taken once.
    pub open spec fn answers_left(self) -> nat {
        let all = 3 * self.items.len();
        match self.phase {
            PhaseView::Classifying => 0,
            PhaseView::Confirming => all + CONNECT_ATTEMPTS as nat + 5,
            PhaseView::Probing => all + CONNECT_ATTEMPTS as nat + 4,
            PhaseView::Spawning => all + CONNECT_ATTEMPTS as nat + 3,
            PhaseView::Connecting { attempt } => (all + (CONNECT_ATTEMPTS - attempt) + 2) as nat,
            PhaseView::Resolving { index } => (3 * (self.items.len() - index) + 1) as nat,
            PhaseView::Sending { index, command } => match command {
                CommandView::LoadReplace { .. } => all + 1,
                CommandView::LoadAppend { .. } => (3 * (self.items.len() - index)) as nat,
                CommandView::SetLastItemTitle { .. } => (3 * (self.items.len() - index) - 1) as nat,
            },
            PhaseView::Killing => 1,
            PhaseView::Waiting => 1,
            PhaseView::Done(_) => 0,
        }
    }

    /// What the user is told before the command that is being sent is
    /// written: that the first item of a new player's playlist is played.
    pub open spec fn told_before_write(self) -> Option<Seq<char>> {
        match self.phase {
            PhaseView::Sending { command: CommandView::LoadReplace { url, .. }, .. } => Some(
                PLAYING_NOTICE@ + url,
            ),
            _ => None,
        }
    }

    /// What the user is told after the command that is being sent was
    /// written: that an item is queued, once its title is set. An item of a
    /// new player is told by the title of its entry, an item of a running
    /// player by the title that was set.
    pub open spec fn told_after_write(self) -> Option<Seq<char>> {
        match self.phase {
            PhaseView::Sending { index, command: CommandView::SetLastItemTitle { title } } => Some(
                ENQUEUED_NOTICE@ + if self.session == Session::Owned {
                    self.items[index as int].title
                } else {
                    title
                },
            ),
            _ => None,
        }
    }

    /// Whether the burst of commands is over: nothing more will be resolved
    /// or sent.
    pub open spec fn burst_over(self) -> bool {
        self.phase is Killing || self.phase is Waiting || self.phase is Done
    }

    /// Whether the route has been decided: the items are settled.
    pub open spec fn settled(self) -> bool {
        !(self.phase is Classifying) && !(self.phase is Confirming)
    }
}

/// Where the machine goes when the item `index` of `count` is done.
fn phase_after_item(session: Session, count: usize, index: usize) -> (r: Phase)
    requires
        index < count,
    ensures
        r@ == (if index + 1 < count {
            PhaseView::Resolving { index: (index + 1) as nat }
        } else if session == Session::Owned {
            PhaseView::Waiting
        } else {
            PhaseView::Done(OutcomeView::Success)
        }),
{
    if index + 1 < count {
        Phase::Resolving { index: index + 1 }
    } else {
        match session {
            Session::Owned => Phase::Waiting,
            _ => Phase::Done(Outcome::Success),
        }
    }
}

/// Where the machine goes when a write failed after `written` commands.
fn phase_after_failure(session: Session, written: usize) -> (r: Phase)
    ensures
        r@ == (if written == 0 {
            PhaseView::Done(OutcomeView::Failure(ErrorView::SocketWriteFailed))
        } else if session == Session::Owned {
            PhaseView::Waiting
        } else {
            PhaseView::Done(OutcomeView::Success)
        }),
{
    if written == 0 {
        Phase::Done(Outcome::Failure(Error::SocketWriteFailed))
    } else {
        match session {
            Session::Owned => Phase::Waiting,
            _ => Phase::Done(Outcome::Success),
        }
    }
}

/// Where the machine goes when a try to connect to a new player failed
/// after `attempt` earlier failures.
fn phase_after_retry(attempt: u32) -> (r: Phase)
    requires
        attempt < CONNECT_ATTEMPTS,
    ensures
        r@ == (if attempt + 1 < CONNECT_ATTEMPTS {
            PhaseView::Connecting { attempt: (attempt + 1) as nat }
        } else {
            PhaseView::Killing
        }),
{
    if attempt + 1 < CONNECT_ATTEMPTS {
        Phase::Connecting { attempt: attempt + 1 }
    } else {
        Phase::Killing
    }
}

impl Orchestrator {
    /// Every state is one that an invocation can reach.
    #[verifier::type_invariant]
    spec fn reachable(self) -> bool {
        self@.inv()
    }

    /// The state in which an invocation starts: nothing is known yet but the
    /// intent, the configuration, what the cookies lookup found and the
    /// format selector in force.
    pub fn new(
        intent: PlaybackIntent,
        config: Config,
        cookie: Option<CookieFile>,
        format: String,
    ) -> (r: Orchestrator)
        ensures
            r@ == initial(intent@, config@, cookie_view(cookie), format@),
            r@.inv(),
    {
        let items: Vec<PlaylistEntry> = Vec::new();
        let sent: Vec<ControlCommand> = Vec::new();
        assert(items.deep_view() =~= Seq::<EntryView>::empty());
        assert(sent.deep_view() =~= Seq::<CommandView>::empty());
        Orchestrator {
            intent,
            config,
            cookie,
            format,
            items,
            playlist: false,
            session: Session::Pending,
            phase: Phase::Classifying,
            sent,
        }
    }

    /// What is to be played.
    pub fn intent(&self) -> (r: &PlaybackIntent)
        ensures
            r@ == self@.intent,
    {
        &self.intent
    }

    /// The configuration of the run.
    pub fn config(&self) -> (r: &Config)
        ensures
            r@ == self@.config,
    {
        &self.config
    }

    /// The format selector in force.
    pub fn format(&self) -> (r: &String)
        ensures
            r@ == self@.format,
    {
        &self.format
    }

    /// The items to play, in playback order.
    pub fn items(&self) -> (r: &Vec<PlaylistEntry>)
        ensures
            r.deep_view() == self@.items,
    {
        &self.items
    }

    /// Whether the items are handled as a playlist.
    pub fn is_playlist(&self) -> (r: bool)
        ensures
            r == self@.playlist,
    {
        self.playlist
    }

    /// The player that the commands go to.
    pub fn session(&self) -> (r: Session)
        ensures
            r == self@.session,
    {
        self.session
    }

    /// Where the machine stands.
    pub fn phase(&self) -> (r: &Phase)
        ensures
            r@ == self@.phase,
    {
        &self.phase
    }

    /// The commands that were written to the control socket, in order.
    pub fn sent(&self) -> (r: &Vec<ControlCommand>)
        ensures
            r.deep_view() == self@.sent,
    {
        &self.sent
    }

    /// Whether the invocation has ended.
    pub fn is_done(&self) -> (r: bool)
        ensures
            r == (self@.phase is Done),
    {
        match &self.phase {
            Phase::Done(_) => true,
            _ => false,
        }
    }

    /// The intent as one item.
    fn single(&self) -> (r: PlaylistEntry)
        ensures
            r@ == self@.single(),
    {
        PlaylistEntry {
            title: match &self.intent.v_title {
                Some(t) => t.clone(),
                None => self.intent.url.clone(),
            },
            url: self.intent.url.clone(),
        }
    }

    /// Where the route decision leads.
    fn route(&self) -> (r: Phase)
        ensures
            r@ == self@.route(),
    {
        if self.intent.enqueue && self.config.socket.is_some() {
            Phase::Probing
        } else {
            Phase::Spawning
        }
    }

    /// The same state in another phase.
    fn with_phase(self, phase: Phase) -> (r: Orchestrator)
        requires
            (OrchestratorView { phase: phase@, ..self@ }).inv(),
        ensures
            r@ == (OrchestratorView { phase: phase@, ..self@ }),
    {
        Orchestrator { phase, ..self }
    }

    /// The state after the listing gave `entries`.
    fn classify(self, entries: Vec<PlaylistEntry>) -> (r: Orchestrator)
        requires
            self@.classified(entries.deep_view()).inv(),
        ensures
            r@ == self@.classified(entries.deep_view()),
    {
        if entries.len() > 1 {
            Orchestrator { items: entries, phase: Phase::Confirming, ..self }
        } else {
            let mut items: Vec<PlaylistEntry> = Vec::new();
            items.push(self.single());
            assert(items.deep_view() =~= seq![self@.single()]);
            let phase = self.route();
            Orchestrator { items, playlist: false, phase, ..self }
        }
    }

    /// The state after the count was answered.
    fn confirm(self, answer: Confirmation) -> (r: Orchestrator)
        requires
            self@.items.len() >= 1,
            self@.confirmed(answer).inv(),
        ensures
            r@ == self@.confirmed(answer),
    {
        let phase = self.route();
        let ghost before = self@;
        let Orchestrator { intent, config, cookie, format, items, playlist, session, phase: _, sent } =
            self;
        let mut items = items;
        let keep: usize = match answer {
            Confirmation::Count(n) => if 0 < n && n < items.len() {
                n
            } else {
                items.len()
            },
            Confirmation::All => items.len(),
            Confirmation::TimedOut => items.len(),
            Confirmation::Declined => 1,
        };
        items.truncate(keep);
        proof {
            assert(items.deep_view() =~= before.kept(answer));
        }
        let declined = match answer {
            Confirmation::Declined => true,
            _ => false,
        };
        Orchestrator {
            intent,
            config,
            cookie,
            format,
            items,
            playlist: !declined,
            session,
            phase,
            sent,
        }
    }

    /// The command that appends the item `index`, whose resolution printed
    /// `output`.
    fn append_command(&self, index: usize, output: &Option<String>) -> (r: ControlCommand)
        requires
            index < self.items.len(),
        ensures
            r@ == self@.append_command(index as int, text(*output)),
    {
        let entry = &self.items[index];
        let media = resolve(output, entry.url.as_str(), entry.title.as_str());
        let attached = match self.session {
            Session::Attached => true,
            _ => false,
        };
        let title = if attached && self.playlist {
            entry.title.clone()
        } else {
            media.title
        };
        ControlCommand::LoadAppend { url: media.video_url, title, audio_url: media.audio_url }
    }

    /// The command that makes the first item replace what a new player holds.
    fn replace_command(&self) -> (r: ControlCommand)
        requires
            self.items.len() > 0,
        ensures
            r@ == self@.replace_command(),
    {
        ControlCommand::LoadReplace {
            url: self.items[0].url.clone(),
            title: self.items[0].title.clone(),
        }
    }

    /// The state after the command that was being sent was written.
    fn written(self) -> (r: Orchestrator)
        requires
            self@.phase is Sending,
            self@.phase->Sending_index < self@.items.len(),
            self@.written(self@.phase->Sending_index, self@.phase->Sending_command).inv(),
        ensures
            r@ == self@.written(self@.phase->Sending_index, self@.phase->Sending_command),
    {
        let ghost before = self@;
        let Orchestrator { intent, config, cookie, format, items, playlist, session, phase, sent } =
            self;
        let mut sent = sent;
        match phase {
            Phase::Sending { index, command } => {
                let follow = match &command {
                    ControlCommand::LoadAppend { title, .. } => Some(title.clone()),
                    _ => None,
                };
                sent.push(command);
                assert(sent.deep_view() =~= before.sent.push(command@));
                let phase = match follow {
                    Some(title) => Phase::Sending {
                        index,
                        command: ControlCommand::SetLastItemTitle { title },
                    },
                    None => phase_after_item(session, items.len(), index),
                };
                Orchestrator { intent, config, cookie, format, items, playlist, session, phase, sent }
            },
            _ => Orchestrator {
                intent,
                config,
                cookie,
                format,
                items,
                playlist,
                session,
                phase,
                sent,
            },
        }
    }

    /// The state that follows on `event`. An event that does not answer the
    /// pending action changes nothing.
    pub fn advance(self, event: Event) -> (r: Orchestrator)
        ensures
            r@ == self@.next(event@),
            r@.inv(),
    {
        proof {
            use_type_invariant(&self);
            crate::laws::lemma_step_keeps_inv(self@, event@);
        }
        match &self.phase {
            Phase::Classifying => match event {
                Event::Enumerated(output) => {
                    let entries = enumerate(&output);
                    self.classify(entries)
                },
                _ => self,
            },
            Phase::Confirming => match event {
                Event::Confirmed(answer) => self.confirm(answer),
                _ => self,
            },
            Phase::Probing => match event {
                Event::Connected(ok) => if ok {
                    Orchestrator {
                        session: Session::Attached,
                        phase: Phase::Resolving { index: 0 },
                        ..self
                    }
                } else {
                    self.with_phase(Phase::Spawning)
                },
                _ => self,
            },
            Phase::Resolving { index } => {
                let index: usize = *index;
                match event {
                    Event::Resolved(output) => {
                        let command = self.append_command(index, &output);
                        self.with_phase(Phase::Sending { index, command })
                    },
                    _ => self,
                }
            },
            Phase::Sending { .. } => match event {
                Event::Sent(ok) => if ok {
                    self.written()
                } else {
                    let phase = phase_after_failure(self.session, self.sent.len());
                    self.with_phase(phase)
                },
                _ => self,
            },
            Phase::Spawning => match event {
                Event::Spawned => {
                    let phase = if self.playlist && self.config.socket.is_some() {
                        Phase::Connecting { attempt: 0 }
                    } else {
                        Phase::Waiting
                    };
                    Orchestrator { session: Session::Owned, phase, ..self }
                },
                Event::SpawnFailed(message) => self.with_phase(
                    Phase::Done(Outcome::Failure(Error::PlayerSpawnFailed(message))),
                ),
                _ => self,
            },
            Phase::Connecting { attempt } => {
                let attempt: u32 = *attempt;
                match event {
                    Event::Connected(ok) => if ok {
                        let command = self.replace_command();
                        self.with_phase(Phase::Sending { index: 0, command })
                    } else {
                        self.with_phase(phase_after_retry(attempt))
                    },
                    _ => self,
                }
            },
            Phase::Killing => match event {
                Event::Killed => self.with_phase(
                    Phase::Done(Outcome::Failure(Error::SocketConnectionFailed)),
                ),
                _ => self,
            },
            Phase::Waiting => match event {
                Event::Exited { success, code } => self.with_phase(
                    Phase::Done(map_exit(success, code)),
                ),
                Event::WaitFailed(message) => self.with_phase(
                    Phase::Done(Outcome::Failure(Error::PlayerWaitFailed(message))),
                ),
                _ => self,
            },
            Phase::Done(_) => self,
        }
    }

    /// The action that the machine waits for. What is to be sent is one
    /// line that carries one command.
    pub fn pending(&self) -> (r: Action)
        ensures
            r@ == self@.pending(),
            r@ is Send ==> one_line(r@->Send_line),
    {
        proof {
            use_type_invariant(self);
        }
        match &self.phase {
            Phase::Classifying => Action::Enumerate {
                program: resolver_program(&self.config),
                arguments: enumerate_arguments(self.intent.url.as_str()),
            },
            Phase::Confirming => Action::Confirm { total: self.items.len() },
            Phase::Probing => Action::Connect { address: self.address(), retry_delay_ms: 0 },
            Phase::Resolving { index } => Action::Resolve {
                program: resolver_program(&self.config),
                arguments: resolve_arguments(
                    self.format.as_str(),
                    self.items[*index].url.as_str(),
                ),
            },
            Phase::Sending { command, .. } => {
                let owned = match self.session {
                    Session::Owned => true,
                    _ => false,
                };
                let pause_ms: u64 = if command.is_append() {
                    if owned {
                        OWNED_PAUSE_MS
                    } else {
                        ATTACHED_PAUSE_MS
                    }
                } else {
                    0
                };
                Action::Send { line: command.serialize(), pause_ms }
            },
            Phase::Spawning => Action::Spawn {
                program: player_program(&self.config),
                arguments: launch_arguments(&self.intent, &self.config, &self.cookie, self.playlist),
                environment: proxy_environment(&self.config),
                cleared: cleared_environment(),
            },
            Phase::Connecting { .. } => Action::Connect {
                address: self.address(),
                retry_delay_ms: CONNECT_INTERVAL_MS,
            },
            Phase::Killing => Action::Kill,
            Phase::Waiting => Action::Wait,
            Phase::Done(outcome) => Action::Finish(outcome.clone()),
        }
    }

    /// What the user is to be told before the command that is being sent
    /// is written.
    pub fn told_before_write(&self) -> (r: Option<String>)
        ensures
            text(r) == self@.told_before_write(),
    {
        match &self.phase {
            Phase::Sending { command: ControlCommand::LoadReplace { url, .. }, .. } => Some(
                joined(PLAYING_NOTICE, url.as_str()),
            ),
            _ => None,
        }
    }

    /// What the user is to be told after the command that is being sent
    /// was written.
    pub fn told_after_write(&self) -> (r: Option<String>)
        ensures
            text(r) == self@.told_after_write(),
    {
        proof {
            use_type_invariant(self);
        }
        match &self.phase {
            Phase::Sending { index, command: ControlCommand::SetLastItemTitle { title } } => {
                let owned = match self.session {
                    Session::Owned => true,
                    _ => false,
                };
                if owned {
                    Some(joined(ENQUEUED_NOTICE, self.items[*index].title.as_str()))
                } else {
                    Some(joined(ENQUEUED_NOTICE, title.as_str()))
                }
            },
            _ => None,
        }
    }

    /// The address of the control socket, empty where none is configured.
    fn address(&self) -> (r: String)
        ensures
            r@ == self@.address(),
    {
        match &self.config.socket {
            Some(s) => s.clone(),
            None => String::new(),
        }
    }
}

} // verus!
