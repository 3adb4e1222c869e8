//! Messages and the conversation history owned by each chat backend.
use vstd::prelude::*;

verus! {

/// Who wrote a message.
#[derive(Clone, Copy, Debug, PartialEq, Eq, Structural)]
pub enum Role {
    System,
    User,
    Assistant,
}

/// One message of a conversation. `images` is absent unless images were
/// attached on purpose.
#[derive(Clone, Debug)]
pub struct Message {
    pub role: Role,
    pub content: String,
    pub images: Option<Vec<String>>,
}

/// The mathematical value of a [`Message`].
pub struct MessageView {
    pub role: Role,
    pub content: Seq<char>,
    pub images: Option<Seq<Seq<char>>>,
}

impl View for Message {
    type V = MessageView;

    open spec fn view(&self) -> MessageView {
        MessageView { role: self.role, content: self.content@, images: self.images.deep_view() }
    }
}

/// The views of a sequence of messages.
pub open spec fn messages_view(ms: Seq<Message>) -> Seq<MessageView> {
    ms.map_values(|m: Message| m@)
}

/// A message as `add_message` records it: no images.
pub open spec fn plain_message(role: Role, content: Seq<char>) -> MessageView {
    MessageView { role, content, images: None }
}

/// The state of a conversation history: the remembered system message, the
/// transcript in insertion order and the model name.
pub struct Conversation {
    pub system: Option<Seq<char>>,
    pub messages: Seq<MessageView>,
    pub model: Seq<char>,
}

impl Conversation {
    /// A new history for `model`: no system message, empty transcript.
    pub open spec fn fresh(model: Seq<char>) -> Conversation {
        Conversation { system: None, messages: Seq::empty(), model }
    }

    /// The history after appending one message without images.
    pub open spec fn appended(self, role: Role, content: Seq<char>) -> Conversation {
        Conversation { messages: self.messages.push(plain_message(role, content)), ..self }
    }

    /// The history after `set_system_message(text)`: `text` is remembered and
    /// also appended as a system message.
    pub open spec fn with_system(self, text: Seq<char>) -> Conversation {
        Conversation { system: Some(text), ..self }.appended(Role::System, text)
    }

    /// The history after `clear_history(keep)`.
    pub open spec fn cleared(self, keep: bool) -> Conversation {
        Conversation {
            messages: if keep && self.system is Some {
                seq![plain_message(Role::System, self.system->0)]
            } else {
                Seq::empty()
            },
            ..self
        }
    }

    /// The history after attaching `images` to the last message; nothing
    /// changes when the transcript is empty.
    pub open spec fn images_attached(self, images: Seq<Seq<char>>) -> Conversation {
        if self.messages.len() == 0 {
            self
        } else {
            let last = self.messages.last();
            Conversation {
                messages: self.messages.update(
                    self.messages.len() - 1,
                    MessageView { images: Some(images), ..last },
                ),
                ..self
            }
        }
    }

    /// The history after one `add_message` call per element of `calls`, in order.
    pub open spec fn after_adds(self, calls: Seq<(Role, Seq<char>)>) -> Conversation
        decreases calls.len(),
    {
        if calls.len() == 0 {
            self
        } else {
            self.after_adds(calls.drop_last()).appended(calls.last().0, calls.last().1)
        }
    }
}

/// The messages that a sequence of `add_message` calls records.
pub open spec fn recorded(calls: Seq<(Role, Seq<char>)>) -> Seq<MessageView> {
    calls.map_values(|c: (Role, Seq<char>)| plain_message(c.0, c.1))
}

/// Appending messages one by one yields exactly those messages after the ones
/// already there, in call order, one per call.
pub proof fn lemma_adds_kept_in_order(c: Conversation, calls: Seq<(Role, Seq<char>)>)
    ensures
        c.after_adds(calls).messages == c.messages + recorded(calls),
        c.after_adds(calls).messages.len() == c.messages.len() + calls.len(),
        c.after_adds(calls).system == c.system,
    decreases calls.len(),
{
    if calls.len() > 0 {
        lemma_adds_kept_in_order(c, calls.drop_last());
        assert(recorded(calls) =~= recorded(calls.drop_last()).push(
            plain_message(calls.last().0, calls.last().1),
        ));
        assert(c.after_adds(calls).messages =~= c.messages + recorded(calls));
    } else {
        assert(c.messages + recorded(calls) =~= c.messages);
    }
}

/// On a new history, the transcript after any sequence of `add_message` calls
/// is exactly those messages in call order.
pub proof fn lemma_fresh_history_records_calls(model: Seq<char>, calls: Seq<(Role, Seq<char>)>)
    ensures
        Conversation::fresh(model).after_adds(calls).messages == recorded(calls),
        Conversation::fresh(model).after_adds(calls).messages.len() == calls.len(),
{
    lemma_adds_kept_in_order(Conversation::fresh(model), calls);
    assert(Seq::<MessageView>::empty() + recorded(calls) =~= recorded(calls));
}

/// Clearing with `keep = true` after setting system message `s` leaves exactly
/// one system message holding `s`, whatever the transcript held before.
pub proof fn lemma_clear_keeps_only_system(c: Conversation, s: Seq<char>)
    ensures
        c.with_system(s).cleared(true).messages == seq![plain_message(Role::System, s)],
        c.with_system(s).cleared(true).messages.len() == 1,
{
}

/// Clearing with `keep = false` always leaves an empty transcript.
pub proof fn lemma_clear_without_system_empties(c: Conversation)
    ensures
        c.cleared(false).messages == Seq::<MessageView>::empty(),
{
}

/// The views of a sequence of strings.
pub open spec fn strings_view(v: Seq<String>) -> Seq<Seq<char>> {
    v.map_values(|s: String| s@)
}

/// Copies a list of strings.
pub fn copy_strings(v: &Vec<String>) -> (r: Vec<String>)
    ensures
        r@ == v@,
{
    let mut r: Vec<String> = Vec::new();
    let mut i: usize = 0;
    while i < v.len()
        invariant
            i <= v.len(),
            r@ == v@.subrange(0, i as int),
        decreases v.len() - i,
    {
        r.push(v[i].clone());
        i = i + 1;
    }
    assert(r@ =~= v@);
    r
}

impl Message {
    /// A message without images.
    pub fn new(role: Role, content: String) -> (r: Message)
        ensures
            r@ == plain_message(role, content@),
    {
        Message { role, content, images: None }
    }

    /// A field-by-field copy.
    pub fn copy(&self) -> (r: Message)
        ensures
            r@ == self@,
    {
        let images = match &self.images {
            Some(v) => Some(copy_strings(v)),
            None => None,
        };
        Message { role: self.role, content: self.content.clone(), images }
    }
}

/// Copies a list of messages.
pub fn copy_messages(v: &Vec<Message>) -> (r: Vec<Message>)
    ensures
        messages_view(r@) == messages_view(v@),
{
    let mut r: Vec<Message> = Vec::new();
    let mut i: usize = 0;
    while i < v.len()
        invariant
            i <= v.len(),
            r.len() == i,
            forall|j: int| 0 <= j < i ==> #[trigger] r@[j]@ == v@[j]@,
        decreases v.len() - i,
    {
        r.push(v[i].copy());
        i = i + 1;
    }
    assert(messages_view(r@) =~= messages_view(v@));
    r
}

/// The conversation history of one chat backend: the remembered system
/// message, the transcript and the model name.
pub struct BaseChatMessage {
    system_message: Option<String>,
    messages: Vec<Message>,
    model: String,
}

impl View for BaseChatMessage {
    type V = Conversation;

    closed spec fn view(&self) -> Conversation {
        Conversation {
            system: match self.system_message {
                Some(s) => Some(s@),
                None => None,
            },
            messages: messages_view(self.messages@),
            model: self.model@,
        }
    }
}

impl BaseChatMessage {
    pub fn new(model: String) -> (r: Self)
        ensures
            r@ == Conversation::fresh(model@),
    {
        let r = BaseChatMessage { system_message: None, messages: Vec::new(), model };
        assert(r@.messages =~= Seq::<MessageView>::empty());
        r
    }

    pub fn set_system_message(&mut self, message: String)
        ensures
            final(self)@ == old(self)@.with_system(message@),
    {
        self.system_message = Some(message.clone());
        self.add_message(message, Role::System);
    }

    pub fn add_message(&mut self, content: String, role: Role)
        ensures
            final(self)@ == old(self)@.appended(role, content@),
    {
        let ghost before = self.messages@;
        self.messages.push(Message::new(role, content));
        assert(messages_view(self.messages@) =~= messages_view(before).push(
            plain_message(role, content@),
        ));
    }

    pub fn clear_history(&mut self, keep_system_message: bool)
        ensures
            final(self)@ == old(self)@.cleared(keep_system_message),
    {
        self.messages.clear();
        assert(messages_view(self.messages@) =~= Seq::<MessageView>::empty());
        if keep_system_message {
            match &self.system_message {
                Some(sys_msg) => {
                    let text = sys_msg.clone();
                    self.add_message(text, Role::System);
                    assert(self@.messages =~= seq![plain_message(Role::System, text@)]);
                },
                None => {},
            }
        }
    }

    pub fn get_chat_history(&self) -> (r: &[Message])
        ensures
            messages_view(r@) == self@.messages,
    {
        self.messages.as_slice()
    }

    /// Attaches `images` to the last message of the transcript; does nothing
    /// when the transcript is empty.
    pub fn attach_images_to_last(&mut self, images: Vec<String>)
        ensures
            final(self)@ == old(self)@.images_attached(images.deep_view()),
    {
        let n = self.messages.len();
        if n > 0 {
            let ghost before = self.messages@;
            let last = self.messages[n - 1].copy();
            let updated = Message { role: last.role, content: last.content, images: Some(images) };
            self.messages.set(n - 1, updated);
            assert(messages_view(self.messages@) =~= messages_view(before).update(
                n - 1,
                MessageView { images: Some(images.deep_view()), ..messages_view(before).last() },
            ));
        }
    }

    /// The model name.
    pub fn model(&self) -> (r: &String)
        ensures
            r@ == self@.model,
    {
        &self.model
    }

    /// A copy of the transcript, as a request carries it.
    pub fn transcript(&self) -> (r: Vec<Message>)
        ensures
            messages_view(r@) == self@.messages,
    {
        copy_messages(&self.messages)
    }
}

/// What every chat backend offers on its conversation history. Sending goes
/// through each backend's own request and reply functions.
pub trait ChatService {
    /// The backend's conversation history.
    spec fn conversation(&self) -> Conversation;

    /// Everything else that the backend holds (its address, its credentials);
    /// the methods below leave it as it is.
    spec fn settings(&self) -> Seq<Seq<char>>;

    fn set_system_message(&mut self, message: String)
        ensures
            final(self).conversation() == old(self).conversation().with_system(message@),
            final(self).settings() == old(self).settings(),
    ;

    fn add_message(&mut self, content: String, role: Role)
        ensures
            final(self).conversation() == old(self).conversation().appended(role, content@),
            final(self).settings() == old(self).settings(),
    ;

    fn clear_history(&mut self, keep_system_message: bool)
        ensures
            final(self).conversation() == old(self).conversation().cleared(keep_system_message),
            final(self).settings() == old(self).settings(),
    ;

    fn get_chat_history(&self) -> (r: &[Message])
        ensures
            messages_view(r@) == self.conversation().messages,
    ;
}

} // verus!
