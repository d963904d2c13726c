//! One round of prompting: a message is generated and shown, one key is
//! awaited, and the key decides between accepting, retrying and quitting.
//! The round is a state machine; the caller performs the effects that each
//! step asks for and hands back what happened.

use vstd::prelude::*;
use crate::text::{joined, texts_view};
use crate::error::GenerationError;
use crate::provider::{explanation_of, Provider};

verus! {

/// What the user asks for with a key.
#[derive(Clone, Copy, Debug, PartialEq, Eq, Structural)]
pub enum InputAction {
    /// Take the message.
    Accept,
    /// Generate another one.
    Retry,
    /// Leave without a message.
    Quit,
}

/// A key, as far as the prompt tells keys apart.
#[derive(Clone, Copy, Debug, PartialEq, Eq, Structural)]
pub enum Key {
    Enter,
    Char(char),
    Other,
}

/// How a key event came about.
#[derive(Clone, Copy, Debug, PartialEq, Eq, Structural)]
pub enum KeyKind {
    Press,
    Repeat,
    Release,
}

/// One event read from the terminal.
#[derive(Clone, Copy, Debug, PartialEq, Eq, Structural)]
pub enum TerminalEvent {
    /// A key event.
    Key { key: Key, kind: KeyKind },
    /// Anything else: a resize, the mouse, a paste.
    Other,
}

/// The action that an event asks for: Enter accepts, `r` retries, `q`
/// quits, each when pressed. Every other event asks for nothing, and the
/// prompt goes on waiting.
pub open spec fn action_for(event: TerminalEvent) -> Option<InputAction> {
    match event {
        TerminalEvent::Key { key: Key::Enter, kind: KeyKind::Press } => Some(InputAction::Accept),
        TerminalEvent::Key { key: Key::Char(c), kind: KeyKind::Press } => if c == 'r' {
            Some(InputAction::Retry)
        } else if c == 'q' {
            Some(InputAction::Quit)
        } else {
            None
        },
        _ => None,
    }
}

/// Reads one terminal event as an action, or as nothing to act on.
pub fn msg_handler(event: TerminalEvent) -> (action: Option<InputAction>)
    ensures
        action == action_for(event),
{
    match event {
        TerminalEvent::Key { key, kind } => {
            if kind != KeyKind::Press {
                return None;
            }
            match key {
                Key::Enter => Some(InputAction::Accept),
                Key::Char(c) => {
                    if c == 'r' {
                        Some(InputAction::Retry)
                    } else if c == 'q' {
                        Some(InputAction::Quit)
                    } else {
                        None
                    }
                },
                Key::Other => None,
            }
        },
        TerminalEvent::Other => None,
    }
}

/// The line that tells the user which keys do what.
pub fn key_hint() -> (hint: &'static str)
    ensures
        hint@ == "[enter]: accept | [r]: get a new commit message | [q]: exit"@,
{
    "[enter]: accept | [r]: get a new commit message | [q]: exit"
}

/// The command that commits with `summary` as the message, word for word.
pub open spec fn commit_command(summary: Seq<char>) -> Seq<Seq<char>> {
    seq!["commit"@, "-m"@, summary]
}

/// The arguments of the commit that follows an accepted message, or `None`
/// where the automatic commit is off.
pub fn run_git_commit(enabled: bool, value: &str) -> (command: Option<Vec<String>>)
    ensures
        command is Some == enabled,
        command matches Some(args) ==> texts_view(args@) == commit_command(value@),
{
    if enabled {
        let mut args: Vec<String> = Vec::new();
        args.push("commit".to_owned());
        args.push("-m".to_owned());
        args.push(value.to_owned());
        assert(texts_view(args@) =~= commit_command(value@));
        Some(args)
    } else {
        None
    }
}

/// Why a round ended without a message.
#[derive(Clone, Copy, Debug, PartialEq, Eq, Structural)]
pub enum Failure {
    /// No message could be generated.
    Generation(GenerationError),
    /// The terminal could not be read.
    Input,
}

/// Something the user is told in passing.
#[derive(Clone, Copy, Debug, PartialEq, Eq, Structural)]
pub enum Notice {
    /// Another message is on its way.
    Retrying,
    /// The round is over at the user's wish.
    Exiting,
}

/// Where a round stands.
#[derive(Debug, PartialEq, Eq)]
pub enum LoopState {
    /// A message is being generated.
    Prompting,
    /// This message is on display and a key is awaited.
    Awaiting(String),
    /// The message was accepted. Terminal.
    Accepted,
    /// The user left. Terminal.
    Quit,
    /// The round failed. Terminal.
    Failed(Failure),
}

/// What happened since the last step.
#[derive(Debug, PartialEq, Eq)]
pub enum LoopEvent {
    /// The generation ended, in a message or in a failure.
    Generated(Result<String, GenerationError>),
    /// The terminal was read: an event came, or with `None` the read failed.
    Input(Option<TerminalEvent>),
}

/// What the caller is asked to do, in the order given.
#[derive(Debug, PartialEq, Eq)]
pub enum Effect {
    /// Generate a message with the selected model.
    Generate,
    /// Show this message.
    Show(String),
    /// Show which keys do what.
    ShowKeys,
    /// Switch the terminal to raw mode, wait for one event, and switch back
    /// whatever happened.
    AwaitKey,
    /// Copy this message to the clipboard; a failure is only a warning.
    Copy(String),
    /// Run the version-control system with these arguments.
    Commit(Vec<String>),
    /// Tell the user this.
    Announce(Notice),
    /// Tell the user why the round failed.
    Report(Failure),
}

/// A step's result: the state that follows and what is to be done.
#[derive(Debug, PartialEq, Eq)]
pub struct Transition {
    pub next: LoopState,
    pub effects: Vec<Effect>,
}

/// A state as contracts speak of it.
pub enum StateView {
    Prompting,
    Awaiting(Seq<char>),
    Accepted,
    Quit,
    Failed(Failure),
}

/// An event as contracts speak of it.
pub enum EventView {
    Generated(Result<Seq<char>, GenerationError>),
    Input(Option<TerminalEvent>),
}

/// An effect as contracts speak of it.
pub enum EffectView {
    Generate,
    Show(Seq<char>),
    ShowKeys,
    AwaitKey,
    Copy(Seq<char>),
    Commit(Seq<Seq<char>>),
    Announce(Notice),
    Report(Failure),
}

/// A transition as contracts speak of it.
pub struct TransitionView {
    pub next: StateView,
    pub effects: Seq<EffectView>,
}

impl View for LoopState {
    type V = StateView;

    open spec fn view(&self) -> StateView {
        match self {
            LoopState::Prompting => StateView::Prompting,
            LoopState::Awaiting(message) => StateView::Awaiting(message@),
            LoopState::Accepted => StateView::Accepted,
            LoopState::Quit => StateView::Quit,
            LoopState::Failed(failure) => StateView::Failed(*failure),
        }
    }
}

impl View for LoopEvent {
    type V = EventView;

    open spec fn view(&self) -> EventView {
        match self {
            LoopEvent::Generated(Ok(message)) => EventView::Generated(Ok(message@)),
            LoopEvent::Generated(Err(error)) => EventView::Generated(Err(*error)),
            LoopEvent::Input(read) => EventView::Input(*read),
        }
    }
}

impl View for Effect {
    type V = EffectView;

    open spec fn view(&self) -> EffectView {
        match self {
            Effect::Generate => EffectView::Generate,
            Effect::Show(message) => EffectView::Show(message@),
            Effect::ShowKeys => EffectView::ShowKeys,
            Effect::AwaitKey => EffectView::AwaitKey,
            Effect::Copy(message) => EffectView::Copy(message@),
            Effect::Commit(args) => EffectView::Commit(texts_view(args@)),
            Effect::Announce(notice) => EffectView::Announce(*notice),
            Effect::Report(failure) => EffectView::Report(*failure),
        }
    }
}

/// A list of effects as contracts speak of it.
pub open spec fn effects_view(effects: Seq<Effect>) -> Seq<EffectView> {
    effects.map_values(|effect: Effect| effect@)
}

impl View for Transition {
    type V = TransitionView;

    open spec fn view(&self) -> TransitionView {
        TransitionView { next: self.next@, effects: effects_view(self.effects@) }
    }
}

/// How a round begins: a message is asked for.
pub open spec fn opening() -> TransitionView {
    TransitionView { next: StateView::Prompting, effects: seq![EffectView::Generate] }
}

/// What follows the acceptance of `message`: it is shown and copied, and
/// committed where the automatic commit is on.
pub open spec fn acceptance(message: Seq<char>, auto_commit: bool) -> Seq<EffectView> {
    if auto_commit {
        seq![
            EffectView::Show(message),
            EffectView::Copy(message),
            EffectView::Commit(commit_command(message)),
        ]
    } else {
        seq![EffectView::Show(message), EffectView::Copy(message)]
    }
}

/// The rules of a round.
///
/// While a message is being generated, only the end of the generation
/// counts: a message is shown with the keys to answer it and a key awaited, a failure or an empty
/// message ends the round. While a key is awaited, only the terminal
/// counts: accepting ends the round with the message, retrying asks for a
/// new message, quitting ends the round with nothing done, any other event
/// leaves the round waiting, and a terminal that cannot be read ends it in
/// failure. An event that does not belong to the state changes nothing, and
/// the three final states change no more.
pub open spec fn transition(state: StateView, event: EventView, auto_commit: bool) -> TransitionView {
    match (state, event) {
        (StateView::Prompting, EventView::Generated(Ok(message))) => if message.len() == 0 {
            TransitionView {
                next: StateView::Failed(Failure::Generation(GenerationError::EmptyResponse)),
                effects: seq![
                    EffectView::Report(Failure::Generation(GenerationError::EmptyResponse)),
                ],
            }
        } else {
            TransitionView {
                next: StateView::Awaiting(message),
                effects: seq![
                    EffectView::Show(message),
                    EffectView::ShowKeys,
                    EffectView::AwaitKey,
                ],
            }
        },
        (StateView::Prompting, EventView::Generated(Err(error))) => TransitionView {
            next: StateView::Failed(Failure::Generation(error)),
            effects: seq![EffectView::Report(Failure::Generation(error))],
        },
        (StateView::Awaiting(message), EventView::Input(Some(read))) => match action_for(read) {
            Some(InputAction::Accept) => TransitionView {
                next: StateView::Accepted,
                effects: acceptance(message, auto_commit),
            },
            Some(InputAction::Retry) => TransitionView {
                next: StateView::Prompting,
                effects: seq![EffectView::Announce(Notice::Retrying), EffectView::Generate],
            },
            Some(InputAction::Quit) => TransitionView {
                next: StateView::Quit,
                effects: seq![EffectView::Announce(Notice::Exiting)],
            },
            None => TransitionView {
                next: StateView::Awaiting(message),
                effects: seq![EffectView::AwaitKey],
            },
        },
        (StateView::Awaiting(_), EventView::Input(None)) => TransitionView {
            next: StateView::Failed(Failure::Input),
            effects: seq![EffectView::Report(Failure::Input)],
        },
        (other, _) => TransitionView { next: other, effects: Seq::empty() },
    }
}

/// Begins a round.
pub fn begin() -> (first: Transition)
    ensures
        first@ == opening(),
{
    let mut effects: Vec<Effect> = Vec::new();
    effects.push(Effect::Generate);
    assert(effects_view(effects@) =~= seq![EffectView::Generate]);
    Transition { next: LoopState::Prompting, effects }
}

/// A transition into a failure that is reported.
fn failing(failure: Failure) -> (result: Transition)
    ensures
        result@ == (TransitionView {
            next: StateView::Failed(failure),
            effects: seq![EffectView::Report(failure)],
        }),
{
    let mut effects: Vec<Effect> = Vec::new();
    effects.push(Effect::Report(failure));
    assert(effects_view(effects@) =~= seq![EffectView::Report(failure)]);
    Transition { next: LoopState::Failed(failure), effects }
}

/// A transition that changes nothing and asks for nothing.
fn staying(state: LoopState) -> (result: Transition)
    ensures
        result@ == (TransitionView { next: state@, effects: Seq::empty() }),
{
    let effects: Vec<Effect> = Vec::new();
    assert(effects_view(effects@) =~= Seq::<EffectView>::empty());
    Transition { next: state, effects }
}

/// The transition on an event read while `message` is on display.
fn on_input(message: String, read: TerminalEvent, auto_commit: bool) -> (result: Transition)
    ensures
        result@ == transition(
            StateView::Awaiting(message@),
            EventView::Input(Some(read)),
            auto_commit,
        ),
{
    let mut effects: Vec<Effect> = Vec::new();
    match msg_handler(read) {
        Some(InputAction::Accept) => {
            effects.push(Effect::Show(message.clone()));
            effects.push(Effect::Copy(message.clone()));
            match run_git_commit(auto_commit, message.as_str()) {
                Some(args) => {
                    effects.push(Effect::Commit(args));
                },
                None => {},
            }
            assert(effects_view(effects@) =~= acceptance(message@, auto_commit));
            Transition { next: LoopState::Accepted, effects }
        },
        Some(InputAction::Retry) => {
            effects.push(Effect::Announce(Notice::Retrying));
            effects.push(Effect::Generate);
            assert(effects_view(effects@) =~= seq![
                EffectView::Announce(Notice::Retrying),
                EffectView::Generate,
            ]);
            Transition { next: LoopState::Prompting, effects }
        },
        Some(InputAction::Quit) => {
            effects.push(Effect::Announce(Notice::Exiting));
            assert(effects_view(effects@) =~= seq![EffectView::Announce(Notice::Exiting)]);
            Transition { next: LoopState::Quit, effects }
        },
        None => {
            effects.push(Effect::AwaitKey);
            assert(effects_view(effects@) =~= seq![EffectView::AwaitKey]);
            Transition { next: LoopState::Awaiting(message), effects }
        },
    }
}

/// Takes one step of a round: from `state`, on `event`, to the state that
/// follows and the effects to perform.
pub fn step(state: LoopState, event: LoopEvent, auto_commit: bool) -> (result: Transition)
    ensures
        result@ == transition(state@, event@, auto_commit),
{
    match state {
        LoopState::Prompting => match event {
            LoopEvent::Generated(Ok(message)) => {
                if message.as_str().is_empty() {
                    failing(Failure::Generation(GenerationError::EmptyResponse))
                } else {
                    let mut effects: Vec<Effect> = Vec::new();
                    effects.push(Effect::Show(message.clone()));
                    effects.push(Effect::ShowKeys);
                    effects.push(Effect::AwaitKey);
                    assert(effects_view(effects@) =~= seq![
                        EffectView::Show(message@),
                        EffectView::ShowKeys,
                        EffectView::AwaitKey,
                    ]);
                    Transition { next: LoopState::Awaiting(message), effects }
                }
            },
            LoopEvent::Generated(Err(error)) => failing(Failure::Generation(error)),
            LoopEvent::Input(_) => staying(LoopState::Prompting),
        },
        LoopState::Awaiting(message) => match event {
            LoopEvent::Input(Some(read)) => on_input(message, read, auto_commit),
            LoopEvent::Input(None) => failing(Failure::Input),
            LoopEvent::Generated(_) => staying(LoopState::Awaiting(message)),
        },
        LoopState::Accepted => staying(LoopState::Accepted),
        LoopState::Quit => staying(LoopState::Quit),
        LoopState::Failed(failure) => staying(LoopState::Failed(failure)),
    }
}

/// The exit code that a state ends the process with: success for an
/// accepted message and for a user who left, failure for a failed round,
/// none while the round goes on.
pub open spec fn exit_code_of(state: StateView) -> Option<i32> {
    match state {
        StateView::Accepted | StateView::Quit => Some(0),
        StateView::Failed(_) => Some(1),
        StateView::Prompting | StateView::Awaiting(_) => None,
    }
}

impl LoopState {
    /// The exit code of the process once the round is in this state, if the
    /// round is over.
    pub fn exit_code(&self) -> (code: Option<i32>)
        ensures
            code == exit_code_of(self@),
    {
        match self {
            LoopState::Accepted | LoopState::Quit => Some(0),
            LoopState::Failed(_) => Some(1),
            LoopState::Prompting | LoopState::Awaiting(_) => None,
        }
    }
}

/// What the user is told when a round failed.
pub open spec fn failure_text(provider: Provider, failure: Failure) -> Seq<char> {
    match failure {
        Failure::Generation(error) => explanation_of(provider, error),
        Failure::Input => "invalid input"@,
    }
}

impl Failure {
    /// The words in which the failure is reported, for a round with `provider`.
    pub fn explain(self, provider: Provider) -> (words: String)
        ensures
            words@ == failure_text(provider, self),
    {
        match self {
            Failure::Generation(error) => provider.explain(error),
            Failure::Input => "invalid input".to_owned(),
        }
    }
}

impl Notice {
    /// The words of the notice.
    pub fn text(self) -> (words: &'static str)
        ensures
            words@ == match self {
                Notice::Retrying => "getting a new message..."@,
                Notice::Exiting => "exiting..."@,
            },
    {
        match self {
            Notice::Retrying => "getting a new message...",
            Notice::Exiting => "exiting...",
        }
    }
}

/// What the user is told after a commit: that it was made and what to do
/// next, or that it was not made and why.
pub open spec fn commit_report_of(failure: Option<Seq<char>>) -> Seq<Seq<char>> {
    match failure {
        None => seq!["committed."@, " run `git push` to push the changes to the repo"@],
        Some(reason) => seq!["couldn't commit error : "@ + reason],
    }
}

/// The lines that report how the commit went: `None` stands for a commit
/// that was made, `Some` holds the error text of one that was not. A
/// failed commit is reported and nothing else: it is not tried again.
pub fn commit_report(failure: Option<&str>) -> (lines: Vec<String>)
    ensures
        texts_view(lines@) == commit_report_of(
            match failure {
                Some(reason) => Some(reason@),
                None => None,
            },
        ),
{
    let mut lines: Vec<String> = Vec::new();
    match failure {
        None => {
            lines.push("committed.".to_owned());
            lines.push(" run `git push` to push the changes to the repo".to_owned());
            assert(texts_view(lines@) =~= commit_report_of(None));
        },
        Some(reason) => {
            lines.push(joined("couldn't commit error : ".to_owned(), reason));
            assert(texts_view(lines@) =~= commit_report_of(Some(reason@)));
        },
    }
    lines
}

/// Whether `effects` asks for a commit.
pub open spec fn asks_to_commit(effects: Seq<EffectView>) -> bool {
    exists|i: int| 0 <= i < effects.len() && effects[i] is Commit
}

/// Whether `effects` asks for a message to be generated.
pub open spec fn asks_to_generate(effects: Seq<EffectView>) -> bool {
    exists|i: int| 0 <= i < effects.len() && effects[i] is Generate
}

/// Whether `effects` asks for a key to be awaited.
pub open spec fn asks_for_key(effects: Seq<EffectView>) -> bool {
    exists|i: int| 0 <= i < effects.len() && effects[i] is AwaitKey
}

/// With the automatic commit on, accepting the message on display commits
/// with exactly that message as the summary: the one that was shown when
/// the round began to wait, character for character. With it off,
/// accepting shows and copies the message and commits nothing.
pub proof fn law_accept_commits_the_shown_message(message: Seq<char>, read: TerminalEvent)
    requires
        message.len() > 0,
        action_for(read) == Some(InputAction::Accept),
    ensures
        transition(StateView::Prompting, EventView::Generated(Ok(message)), true)
            == (TransitionView {
            next: StateView::Awaiting(message),
            effects: seq![EffectView::Show(message), EffectView::ShowKeys, EffectView::AwaitKey],
        }),
        transition(StateView::Awaiting(message), EventView::Input(Some(read)), true)
            == (TransitionView {
            next: StateView::Accepted,
            effects: seq![
                EffectView::Show(message),
                EffectView::Copy(message),
                EffectView::Commit(seq!["commit"@, "-m"@, message]),
            ],
        }),
        transition(StateView::Awaiting(message), EventView::Input(Some(read)), false)
            == (TransitionView {
            next: StateView::Accepted,
            effects: seq![EffectView::Show(message), EffectView::Copy(message)],
        }),
{
}

/// With the automatic commit off, no step of any round asks for a commit.
pub proof fn law_no_commit_unless_enabled(state: StateView, event: EventView)
    ensures
        !asks_to_commit(transition(state, event, false).effects),
{
}

/// A commit is asked for only when the message on display is accepted, and
/// then the round is over.
pub proof fn law_commit_only_on_accept(state: StateView, event: EventView, auto_commit: bool)
    requires
        asks_to_commit(transition(state, event, auto_commit).effects),
    ensures
        auto_commit,
        state is Awaiting,
        event matches EventView::Input(Some(read)) && action_for(read) == Some(
            InputAction::Accept,
        ),
        transition(state, event, auto_commit).next is Accepted,
{
}

/// Quitting ends the round at once: nothing is generated, copied or
/// committed, and the process ends in success.
pub proof fn law_quit_does_nothing(message: Seq<char>, read: TerminalEvent, auto_commit: bool)
    requires
        action_for(read) == Some(InputAction::Quit),
    ensures
        transition(StateView::Awaiting(message), EventView::Input(Some(read)), auto_commit)
            == (TransitionView {
            next: StateView::Quit,
            effects: seq![EffectView::Announce(Notice::Exiting)],
        }),
        exit_code_of(StateView::Quit) == Some(0i32),
{
}

/// A state in which the round is over stays as it is and asks for nothing.
pub proof fn law_final_states_are_final(state: StateView, event: EventView, auto_commit: bool)
    requires
        exit_code_of(state) is Some,
    ensures
        transition(state, event, auto_commit) == (TransitionView {
            next: state,
            effects: Seq::empty(),
        }),
{
}

/// Generation and waiting never overlap: a step asks for a message only on
/// its way to prompting, for a key only on its way to a message on
/// display, and so never for both.
pub proof fn law_one_thing_at_a_time(state: StateView, event: EventView, auto_commit: bool)
    ensures
        asks_to_generate(transition(state, event, auto_commit).effects) ==> transition(
            state,
            event,
            auto_commit,
        ).next is Prompting,
        asks_for_key(transition(state, event, auto_commit).effects) ==> transition(
            state,
            event,
            auto_commit,
        ).next is Awaiting,
{
}

/// A generation that fails ends the round in that failure: the failure is
/// reported, nothing else is asked for, and the process ends in failure.
pub proof fn law_failed_generation_ends_the_round(error: GenerationError, auto_commit: bool)
    ensures
        transition(StateView::Prompting, EventView::Generated(Err(error)), auto_commit)
            == (TransitionView {
            next: StateView::Failed(Failure::Generation(error)),
            effects: seq![EffectView::Report(Failure::Generation(error))],
        }),
        exit_code_of(StateView::Failed(Failure::Generation(error))) == Some(1i32),
{
}

} // verus!
