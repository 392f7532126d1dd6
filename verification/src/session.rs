//! The session: the message log, the input buffer and the phase of the
//! console, and the transitions that actions and gateway outcomes cause.
//!
//! The session decides and never waits. Whoever drives it draws the screen,
//! reads the keyboard and talks to the completion service, and reports back
//! through [`Session::apply`] and [`Session::resolve`].

use crate::gateway::{reply_of, GatewayError};
use crate::input::{classify, event_action, Action, InputEvent};
use crate::message::{text_turn, Message, MessageStore, MessageView, Role};
use vstd::prelude::*;

verus! {

/// Where the session stands.
#[derive(Clone, Copy, Debug, PartialEq, Eq, Structural)]
pub enum Phase {
    /// Actions are taken.
    Running,
    /// A prompt is with the completion service; its outcome is awaited.
    Awaiting,
    /// The session has ended. Nothing changes any more.
    Terminating,
}

/// What `Send` does with an empty input buffer.
#[derive(Clone, Copy, Debug, PartialEq, Eq, Structural)]
pub enum SendPolicy {
    /// An empty buffer is submitted as a turn with empty text.
    AllowEmpty,
    /// `Send` with an empty buffer changes nothing.
    RejectEmpty,
}

/// What the driver of the session has to do after an action.
#[derive(Debug, PartialEq, Eq)]
pub enum Effect {
    /// Draw the screen and read the next event.
    Continue,
    /// Draw the screen, so that the new turn shows; hand this prompt to the
    /// completion service; then report the outcome with [`Session::resolve`].
    Complete(Message),
    /// Leave the loop and release the terminal.
    Exit,
}

/// The mathematical value of an [`Effect`].
pub enum EffectView {
    Continue,
    Complete(MessageView),
    Exit,
}

impl View for Effect {
    type V = EffectView;

    open spec fn view(&self) -> EffectView {
        match self {
            Effect::Continue => EffectView::Continue,
            Effect::Complete(prompt) => EffectView::Complete(prompt@),
            Effect::Exit => EffectView::Exit,
        }
    }
}

/// The state of one console session.
#[derive(Debug)]
pub struct Session {
    store: MessageStore,
    input: String,
    phase: Phase,
    policy: SendPolicy,
}

/// The mathematical value of a [`Session`].
pub struct SessionView {
    /// The message log, oldest turn first.
    pub store: Seq<MessageView>,
    /// The text typed and not yet submitted.
    pub input: Seq<char>,
    pub phase: Phase,
    pub policy: SendPolicy,
}

impl View for Session {
    type V = SessionView;

    closed spec fn view(&self) -> SessionView {
        SessionView {
            store: self.store@,
            input: self.input@,
            phase: self.phase,
            policy: self.policy,
        }
    }
}

/// The state in which a session with this policy starts.
pub open spec fn initial(policy: SendPolicy) -> SessionView {
    SessionView { store: Seq::empty(), input: Seq::empty(), phase: Phase::Running, policy }
}

/// Whether `Send` submits the buffer `input` under `policy`.
pub open spec fn submits(policy: SendPolicy, input: Seq<char>) -> bool {
    policy is AllowEmpty || input.len() > 0
}

/// The input buffer after `action`. Only character and backspace keys touch
/// it, and a submitted `Send` empties it.
pub open spec fn input_after(s: SessionView, action: Action) -> Seq<char> {
    match action {
        Action::AppendChar(c) => s.input.push(c),
        Action::DeleteChar => if s.input.len() > 0 {
            s.input.drop_last()
        } else {
            s.input
        },
        Action::Send => if submits(s.policy, s.input) {
            Seq::empty()
        } else {
            s.input
        },
        _ => s.input,
    }
}

/// The message log after `action`: a submitted `Send` adds the buffer as a
/// user turn, `ClearHistory` empties the log.
pub open spec fn store_after(s: SessionView, action: Action) -> Seq<MessageView> {
    match action {
        Action::Send => if submits(s.policy, s.input) {
            s.store.push(text_turn(Role::User, s.input))
        } else {
            s.store
        },
        Action::ClearHistory => Seq::empty(),
        _ => s.store,
    }
}

/// The phase after `action`, taken while running.
pub open spec fn phase_after(s: SessionView, action: Action) -> Phase {
    match action {
        Action::Quit => Phase::Terminating,
        Action::Send => if submits(s.policy, s.input) {
            Phase::Awaiting
        } else {
            Phase::Running
        },
        _ => Phase::Running,
    }
}

/// What the driver has to do after `action`, taken while running.
pub open spec fn effect_after(s: SessionView, action: Action) -> EffectView {
    match action {
        Action::Quit => EffectView::Exit,
        Action::Send => if submits(s.policy, s.input) {
            EffectView::Complete(text_turn(Role::User, s.input))
        } else {
            EffectView::Continue
        },
        _ => EffectView::Continue,
    }
}

/// One transition: the state after `action`. Actions are taken only while
/// running; in the other phases nothing changes.
pub open spec fn step(s: SessionView, action: Action) -> SessionView {
    if s.phase is Running {
        SessionView {
            store: store_after(s, action),
            input: input_after(s, action),
            phase: phase_after(s, action),
            policy: s.policy,
        }
    } else {
        s
    }
}

/// What the driver has to do after `action` in state `s`.
pub open spec fn step_effect(s: SessionView, action: Action) -> EffectView {
    match s.phase {
        Phase::Running => effect_after(s, action),
        Phase::Awaiting => EffectView::Continue,
        Phase::Terminating => EffectView::Exit,
    }
}

/// The state after the gateway's outcome has come in. A reply is added as an
/// assistant turn; a failure adds nothing and leaves no trace. Either way the
/// session runs again. Where no outcome is awaited, nothing changes.
pub open spec fn settle(s: SessionView, reply: Option<Seq<char>>) -> SessionView {
    if s.phase is Awaiting {
        SessionView {
            store: match reply {
                Some(text) => s.store.push(text_turn(Role::Assistant, text)),
                None => s.store,
            },
            input: s.input,
            phase: Phase::Running,
            policy: s.policy,
        }
    } else {
        s
    }
}

impl Session {
    /// A running session with an empty log and an empty buffer, in which an
    /// empty buffer can be sent.
    pub fn new() -> (session: Session)
        ensures
            session@ == initial(SendPolicy::AllowEmpty),
    {
        Session::with_policy(SendPolicy::AllowEmpty)
    }

    /// A running session with an empty log and an empty buffer, and the given
    /// policy on sending an empty buffer.
    pub fn with_policy(policy: SendPolicy) -> (session: Session)
        ensures
            session@ == initial(policy),
    {
        Session { store: MessageStore::new(), input: String::new(), phase: Phase::Running, policy }
    }

    /// The message log.
    pub fn store(&self) -> (store: &MessageStore)
        ensures
            store@ == self@.store,
    {
        &self.store
    }

    /// The text typed and not yet submitted.
    pub fn input(&self) -> (input: &str)
        ensures
            input@ == self@.input,
    {
        self.input.as_str()
    }

    /// Where the session stands.
    pub fn phase(&self) -> (phase: Phase)
        ensures
            phase == self@.phase,
    {
        self.phase
    }

    /// What `Send` does with an empty buffer.
    pub fn policy(&self) -> (policy: SendPolicy)
        ensures
            policy == self@.policy,
    {
        self.policy
    }

    /// Applies one action and says what the driver has to do next.
    pub fn apply(&mut self, action: Action) -> (effect: Effect)
        ensures
            final(self)@ == step(old(self)@, action),
            effect@ == step_effect(old(self)@, action),
    {
        match self.phase {
            Phase::Running => {},
            Phase::Awaiting => {
                return Effect::Continue;
            },
            Phase::Terminating => {
                return Effect::Exit;
            },
        }
        match action {
            Action::Quit => {
                self.phase = Phase::Terminating;
                Effect::Exit
            },
            Action::Send => {
                if self.input.as_str().is_empty() && self.policy == SendPolicy::RejectEmpty {
                    assert(self@ =~= step(old(self)@, action));
                    return Effect::Continue;
                }
                let mut text = String::new();
                core::mem::swap(&mut self.input, &mut text);
                let prompt = Message::new(Role::User, text.clone());
                self.store.append(Role::User, text);
                self.phase = Phase::Awaiting;
                Effect::Complete(prompt)
            },
            Action::ClearHistory => {
                self.store.clear();
                Effect::Continue
            },
            Action::DeleteChar => {
                self.input.pop();
                Effect::Continue
            },
            Action::AppendChar(c) => {
                self.input.push(c);
                Effect::Continue
            },
            Action::Ignore => {
                assert(self@ =~= step(old(self)@, action));
                Effect::Continue
            },
        }
    }

    /// Classifies one input event and applies its action.
    pub fn handle(&mut self, event: &InputEvent) -> (effect: Effect)
        ensures
            final(self)@ == step(old(self)@, event_action(*event)),
            effect@ == step_effect(old(self)@, event_action(*event)),
    {
        self.apply(classify(event))
    }

    /// Takes in the outcome of the request that the last `Send` caused.
    pub fn resolve(&mut self, outcome: Result<String, GatewayError>)
        ensures
            final(self)@ == settle(old(self)@, reply_of(outcome)),
    {
        match self.phase {
            Phase::Awaiting => {
                match outcome {
                    Ok(text) => {
                        self.store.append(Role::Assistant, text);
                    },
                    Err(_) => {},
                }
                self.phase = Phase::Running;
            },
            _ => {},
        }
    }
}

/// The transitions of the session. `Quit`, and nothing else, ends a running
/// session. After any other action the session runs again: at once, or, for
/// a submitted `Send`, when the gateway's outcome has come in. A session that
/// has ended stays as it is.
pub proof fn lemma_transitions(s: SessionView, action: Action, reply: Option<Seq<char>>)
    ensures
        s.phase is Running ==> (step(s, action).phase is Terminating <==> action is Quit),
        s.phase is Running && !(action is Quit) ==> settle(step(s, action), reply).phase is Running,
        s.phase is Running ==> (step(s, action).phase is Awaiting <==> action is Send && submits(
            s.policy,
            s.input,
        )),
        s.phase is Terminating ==> step(s, action) == s && settle(s, reply) == s,
        s.phase is Terminating ==> step_effect(s, action) == EffectView::Exit,
{
}

/// Stored turns never change. An action other than `ClearHistory` leaves
/// every turn of the log in its place and adds at most one, and so does a
/// gateway outcome. Neither an action nor an outcome changes the policy.
pub proof fn lemma_stored_turns_stay(s: SessionView, action: Action, reply: Option<Seq<char>>)
    ensures
        !(action is ClearHistory) ==> s.store.is_prefix_of(step(s, action).store),
        s.store.is_prefix_of(settle(s, reply).store),
        step(s, action).store.len() <= s.store.len() + 1,
        settle(s, reply).store.len() <= s.store.len() + 1,
        step(s, action).policy == s.policy,
        settle(s, reply).policy == s.policy,
{
}

/// Appending a character and then deleting one gives the state back as it
/// was, whatever the buffer held. Deleting from an empty buffer changes
/// nothing.
pub proof fn lemma_append_then_delete_restores(s: SessionView, c: char)
    ensures
        step(step(s, Action::AppendChar(c)), Action::DeleteChar) == s,
        s.input.len() == 0 ==> step(s, Action::DeleteChar) == s,
{
    assert(s.input.push(c).drop_last() =~= s.input);
}

/// A submitted `Send` empties the buffer and adds its text as a user turn,
/// whatever the gateway then does: a reply follows that turn as an assistant
/// turn, a failure adds nothing. The session runs again afterwards.
pub proof fn lemma_send_drains_buffer(s: SessionView, reply: Option<Seq<char>>)
    requires
        s.phase is Running,
        submits(s.policy, s.input),
    ensures
        step_effect(s, Action::Send) == EffectView::Complete(text_turn(Role::User, s.input)),
        step(s, Action::Send).input == Seq::<char>::empty(),
        step(s, Action::Send).store == s.store.push(text_turn(Role::User, s.input)),
        settle(step(s, Action::Send), reply).input == Seq::<char>::empty(),
        settle(step(s, Action::Send), reply).phase is Running,
        reply is None ==> settle(step(s, Action::Send), reply).store == s.store.push(
            text_turn(Role::User, s.input),
        ),
        reply is Some ==> settle(step(s, Action::Send), reply).store == s.store.push(
            text_turn(Role::User, s.input),
        ).push(text_turn(Role::Assistant, reply->Some_0)),
{
}

} // verus!
