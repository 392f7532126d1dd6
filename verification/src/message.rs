//! Conversation turns and the ordered log that holds them.

use vstd::prelude::*;

verus! {

/// Who sent a conversation turn.
#[derive(Clone, Copy, Debug, PartialEq, Eq, Structural)]
pub enum Role {
    /// The human at the keyboard.
    User,
    /// The completion service.
    Assistant,
}

/// What a conversation turn carries.
#[derive(Debug, PartialEq, Eq)]
pub enum Content {
    /// Plain text, possibly empty.
    Text(String),
    /// One or more images; the console shows a fixed label in their place.
    ImageUrl,
}

/// The mathematical value of a [`Content`].
pub enum ContentView {
    Text(Seq<char>),
    ImageUrl,
}

impl View for Content {
    type V = ContentView;

    open spec fn view(&self) -> ContentView {
        match self {
            Content::Text(text) => ContentView::Text(text@),
            Content::ImageUrl => ContentView::ImageUrl,
        }
    }
}

impl Clone for Content {
    fn clone(&self) -> (copy: Self)
        ensures
            copy@ == self@,
    {
        match self {
            Content::Text(text) => Content::Text(text.clone()),
            Content::ImageUrl => Content::ImageUrl,
        }
    }
}

/// The label shown in place of image content.
pub open spec fn image_label() -> Seq<char> {
    "An image"@
}

/// The text that stands for `content` on screen.
pub open spec fn content_text(content: ContentView) -> Seq<char> {
    match content {
        ContentView::Text(text) => text,
        ContentView::ImageUrl => image_label(),
    }
}

/// Returns the text of a turn's content: the text itself, or a fixed label
/// for images.
pub fn extract_message_text(msg: &Content) -> (text: &str)
    ensures
        text@ == content_text(msg@),
{
    match msg {
        Content::Text(text) => text.as_str(),
        Content::ImageUrl => "An image",
    }
}

/// One conversation turn, tagged by its sender. A stored turn never changes.
#[derive(Debug, PartialEq, Eq)]
pub enum Message {
    /// A turn that the user submitted.
    USER(Content),
    /// A turn that the completion service returned.
    SYSTEM(Content),
}

/// The mathematical value of a [`Message`]: a role and a content.
pub struct MessageView {
    pub role: Role,
    pub content: ContentView,
}

impl MessageView {
    /// The text that stands for this turn on screen.
    pub open spec fn text(self) -> Seq<char> {
        content_text(self.content)
    }
}

/// The turn with the given sender and plain text.
pub open spec fn text_turn(role: Role, text: Seq<char>) -> MessageView {
    MessageView { role, content: ContentView::Text(text) }
}

impl View for Message {
    type V = MessageView;

    open spec fn view(&self) -> MessageView {
        match self {
            Message::USER(content) => MessageView { role: Role::User, content: content@ },
            Message::SYSTEM(content) => MessageView { role: Role::Assistant, content: content@ },
        }
    }
}

impl Clone for Message {
    fn clone(&self) -> (copy: Self)
        ensures
            copy@ == self@,
    {
        match self {
            Message::USER(content) => Message::USER(content.clone()),
            Message::SYSTEM(content) => Message::SYSTEM(content.clone()),
        }
    }
}

impl Message {
    /// Builds a plain-text turn sent by `role`.
    pub fn new(role: Role, text: String) -> (msg: Message)
        ensures
            msg@ == text_turn(role, text@),
    {
        match role {
            Role::User => Message::USER(Content::Text(text)),
            Role::Assistant => Message::SYSTEM(Content::Text(text)),
        }
    }

    /// The sender of this turn.
    pub fn role(&self) -> (role: Role)
        ensures
            role == self@.role,
    {
        match self {
            Message::USER(_) => Role::User,
            Message::SYSTEM(_) => Role::Assistant,
        }
    }

    /// The content of this turn.
    pub fn content(&self) -> (content: &Content)
        ensures
            content@ == self@.content,
    {
        match self {
            Message::USER(content) => content,
            Message::SYSTEM(content) => content,
        }
    }

    /// The text that stands for this turn on screen.
    pub fn text(&self) -> (text: &str)
        ensures
            text@ == self@.text(),
    {
        extract_message_text(self.content())
    }
}

/// The views of a run of turns, in the same order.
pub open spec fn turns(messages: Seq<Message>) -> Seq<MessageView> {
    messages.map_values(|m: Message| m@)
}

/// The ordered log of a conversation: oldest turn first, no deduplication and
/// no size cap.
#[derive(Debug, PartialEq, Eq)]
pub struct MessageStore {
    messages: Vec<Message>,
}

impl View for MessageStore {
    type V = Seq<MessageView>;

    closed spec fn view(&self) -> Seq<MessageView> {
        turns(self.messages@)
    }
}

impl MessageStore {
    /// An empty log.
    pub fn new() -> (store: MessageStore)
        ensures
            store@ == Seq::<MessageView>::empty(),
    {
        MessageStore { messages: Vec::new() }
    }

    /// Adds a plain-text turn sent by `role` at the end of the log.
    pub fn append(&mut self, role: Role, text: String)
        ensures
            final(self)@ == old(self)@.push(text_turn(role, text@)),
    {
        let message = Message::new(role, text);
        self.messages.push(message);
        assert(self@ =~= old(self)@.push(text_turn(role, text@)));
    }

    /// Removes every turn.
    pub fn clear(&mut self)
        ensures
            final(self)@ == Seq::<MessageView>::empty(),
    {
        self.messages.clear();
    }

    /// The turns in insertion order. Reading them changes nothing, and every
    /// call starts again from the oldest turn.
    pub fn iterate(&self) -> (messages: &[Message])
        ensures
            turns(messages@) == self@,
    {
        self.messages.as_slice()
    }

    /// The number of turns in the log.
    pub fn len(&self) -> (n: usize)
        ensures
            n == self@.len(),
    {
        self.messages.len()
    }

    /// Whether the log holds no turn.
    pub fn is_empty(&self) -> (empty: bool)
        ensures
            empty == (self@.len() == 0),
    {
        self.messages.len() == 0
    }
}

/// One call on a message log, as a value: the calls that change it.
pub enum StoreOp {
    /// A call of `append` that added this turn.
    Append(MessageView),
    /// A call of `clear`.
    Clear,
}

/// The contents of a log that held `log` after the call `op`.
pub open spec fn after_op(log: Seq<MessageView>, op: StoreOp) -> Seq<MessageView> {
    match op {
        StoreOp::Append(turn) => log.push(turn),
        StoreOp::Clear => Seq::empty(),
    }
}

/// The contents of a log that held `log` after the calls `ops`, made in order.
pub open spec fn replay(log: Seq<MessageView>, ops: Seq<StoreOp>) -> Seq<MessageView>
    decreases ops.len(),
{
    if ops.len() == 0 {
        log
    } else {
        after_op(replay(log, ops.drop_last()), ops.last())
    }
}

/// The turns that the calls `ops[from..]` appended, in order, where all of
/// those calls are appends.
pub open spec fn appended(ops: Seq<StoreOp>, from: int) -> Seq<MessageView> {
    Seq::new((ops.len() - from) as nat, |i: int| ops[from + i]->Append_0)
}

/// The place just behind the last `clear` among `ops`; 0 where there is none.
pub open spec fn last_clear_end(ops: Seq<StoreOp>) -> int
    decreases ops.len(),
{
    if ops.len() == 0 {
        0
    } else if ops.last() is Clear {
        ops.len() as int
    } else {
        last_clear_end(ops.drop_last())
    }
}

/// After any run of `append` and `clear` calls a log holds exactly the turns
/// appended since the last `clear`, in order. Where no `clear` was made, they
/// follow what the log held before the run.
pub proof fn lemma_replay_keeps_turns_since_last_clear(log: Seq<MessageView>, ops: Seq<StoreOp>)
    ensures
        0 <= last_clear_end(ops) <= ops.len(),
        last_clear_end(ops) > 0 ==> ops[last_clear_end(ops) - 1] is Clear,
        forall|i: int| last_clear_end(ops) <= i < ops.len() ==> ops[i] is Append,
        last_clear_end(ops) > 0 ==> replay(log, ops) == appended(ops, last_clear_end(ops)),
        last_clear_end(ops) == 0 ==> replay(log, ops) == log + appended(ops, 0),
    decreases ops.len(),
{
    let from = last_clear_end(ops);
    if ops.len() == 0 {
        assert(log =~= log + appended(ops, 0));
    } else if ops.last() is Clear {
        assert(appended(ops, from) =~= Seq::<MessageView>::empty());
    } else {
        let shorter = ops.drop_last();
        lemma_replay_keeps_turns_since_last_clear(log, shorter);
        assert forall|i: int| from <= i < ops.len() implies ops[i] is Append by {
            if i < shorter.len() {
                assert(shorter[i] is Append);
            }
        }
        assert(appended(ops, from) =~= appended(shorter, from).push(ops.last()->Append_0));
        if from == 0 {
            assert(log + appended(ops, 0) =~= (log + appended(shorter, 0)).push(
                ops.last()->Append_0,
            ));
        }
    }
}

} // verus!
