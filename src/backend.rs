//! The two chat backends: a single-shot JSON completion API and a streaming
//! newline-delimited JSON API. Each turns its history into the request to
//! send and turns what comes back into the reply; the transport itself is
//! performed by the caller.
use crate::chat::{messages_view, BaseChatMessage, ChatService, Conversation, Message, Role};
use vstd::prelude::*;

verus! {

/// Why a chat call failed.
#[derive(Clone, Debug)]
pub enum ChatError {
    /// The backend could not be reached.
    Network(String),
    /// The backend's answer did not have the expected shape.
    Protocol(String),
}

impl ChatError {
    /// The text that describes the failure.
    pub fn message(&self) -> (r: String)
        ensures
            r@ == match self {
                ChatError::Network(m) => m@,
                ChatError::Protocol(m) => m@,
            },
    {
        match self {
            ChatError::Network(m) => m.clone(),
            ChatError::Protocol(m) => m.clone(),
        }
    }
}

pub const OPENAI_DEFAULT_MODEL: &'static str = "gpt-4o-mini";

pub const OPENAI_DEFAULT_BASE: &'static str = "https://api.openai.com/v1";

pub const OLLAMA_DEFAULT_BASE: &'static str = "http://localhost:11434";

pub const OLLAMA_DEFAULT_MODEL: &'static str = "llama3:8b";

/// The body of a single-shot completion request.
pub struct OpenAiRequest {
    pub model: String,
    pub messages: Vec<Message>,
    pub stream: bool,
}

/// One choice of a single-shot completion answer.
pub struct OpenAiChoice {
    pub message: Message,
}

/// The decoded body of a single-shot completion answer.
pub struct OpenAiResponse {
    pub choices: Vec<OpenAiChoice>,
}

/// The single-shot completion backend.
pub struct OpenAiChatService {
    base: BaseChatMessage,
    api_key: String,
    base_url: String,
}

/// `o` if present, else `default`.
pub open spec fn or_default(o: Option<String>, default: Seq<char>) -> Seq<char> {
    match o {
        Some(s) => s@,
        None => default,
    }
}

fn string_or(o: Option<String>, default: &str) -> (r: String)
    ensures
        r@ == or_default(o, default@),
{
    match o {
        Some(s) => s,
        None => String::from_str(default),
    }
}

impl OpenAiChatService {
    pub fn new(api_key: String, model: Option<String>, base_url: Option<String>) -> (r: Self)
        ensures
            r.conversation() == Conversation::fresh(or_default(model, OPENAI_DEFAULT_MODEL@)),
            r.api_key() == api_key@,
            r.base_url() == or_default(base_url, OPENAI_DEFAULT_BASE@),
    {
        OpenAiChatService {
            base: BaseChatMessage::new(string_or(model, OPENAI_DEFAULT_MODEL)),
            api_key,
            base_url: string_or(base_url, OPENAI_DEFAULT_BASE),
        }
    }

    pub open spec fn base_url(&self) -> Seq<char> {
        self.settings()[0]
    }

    pub open spec fn api_key(&self) -> Seq<char> {
        self.settings()[1]
    }

    /// Records the outgoing message and returns the request to send: the model
    /// and the whole transcript, message included, with streaming off.
    pub fn prepare_send(&mut self, content: String, role: Role) -> (r: OpenAiRequest)
        ensures
            final(self).conversation() == old(self).conversation().appended(role, content@),
            final(self).api_key() == old(self).api_key(),
            final(self).base_url() == old(self).base_url(),
            r.model@ == final(self).conversation().model,
            messages_view(r.messages@) == final(self).conversation().messages,
            !r.stream,
    {
        self.base.add_message(content, role);
        OpenAiRequest { model: self.base.model().clone(), messages: self.base.transcript(), stream: false }
    }

    /// The address that requests are posted to.
    pub fn endpoint(&self) -> (r: String)
        ensures
            r@ == self.base_url() + "/chat/completions"@,
    {
        self.base_url.clone().concat("/chat/completions")
    }

    /// The value of the authorization header.
    pub fn authorization(&self) -> (r: String)
        ensures
            r@ == "Bearer "@ + self.api_key(),
    {
        String::from_str("Bearer ").concat(self.api_key.as_str())
    }

    /// The reply text of an answer: the content of its first choice, or a
    /// protocol error when it holds no choice.
    pub fn reply_from(response: &OpenAiResponse) -> (r: Result<String, ChatError>)
        ensures
            response.choices@.len() == 0 <==> r matches Err(ChatError::Protocol(_)),
            response.choices@.len() > 0 <==> r is Ok,
            r matches Ok(t) ==> t@ == response.choices@[0].message.content@,
    {
        if response.choices.len() == 0 {
            Err(ChatError::Protocol(String::from_str("the response holds no choices")))
        } else {
            Ok(response.choices[0].message.content.clone())
        }
    }
}

impl ChatService for OpenAiChatService {
    closed spec fn conversation(&self) -> Conversation {
        self.base@
    }

    closed spec fn settings(&self) -> Seq<Seq<char>> {
        seq![self.base_url@, self.api_key@]
    }

    fn set_system_message(&mut self, message: String) {
        self.base.set_system_message(message);
    }

    fn add_message(&mut self, content: String, role: Role) {
        self.base.add_message(content, role);
    }

    fn clear_history(&mut self, keep_system_message: bool) {
        self.base.clear_history(keep_system_message);
    }

    fn get_chat_history(&self) -> (r: &[Message]) {
        self.base.get_chat_history()
    }
}

/// The body of a streaming completion request.
pub struct OllamaRequest {
    pub model: String,
    pub messages: Vec<Message>,
    pub keep_alive: i32,
}

/// The streaming completion backend.
pub struct OllamaChatService {
    base: BaseChatMessage,
    base_url: String,
}

impl OllamaChatService {
    pub fn new(model: Option<String>, base_url: Option<String>) -> (r: Self)
        ensures
            r.conversation() == Conversation::fresh(or_default(model, OLLAMA_DEFAULT_MODEL@)),
            r.base_url() == or_default(base_url, OLLAMA_DEFAULT_BASE@),
    {
        OllamaChatService {
            base: BaseChatMessage::new(string_or(model, OLLAMA_DEFAULT_MODEL)),
            base_url: string_or(base_url, OLLAMA_DEFAULT_BASE),
        }
    }

    pub open spec fn base_url(&self) -> Seq<char> {
        self.settings()[0]
    }

    fn request(&self) -> (r: OllamaRequest)
        ensures
            r.model@ == self.conversation().model,
            messages_view(r.messages@) == self.conversation().messages,
            r.keep_alive == 0,
    {
        OllamaRequest { model: self.base.model().clone(), messages: self.base.transcript(), keep_alive: 0 }
    }

    /// Records the outgoing message and returns the request to send: the model
    /// and the whole transcript, message included, with `keep_alive` 0.
    pub fn prepare_send(&mut self, content: String, role: Role) -> (r: OllamaRequest)
        ensures
            final(self).conversation() == old(self).conversation().appended(role, content@),
            final(self).base_url() == old(self).base_url(),
            r.model@ == final(self).conversation().model,
            messages_view(r.messages@) == final(self).conversation().messages,
            r.keep_alive == 0,
    {
        self.base.add_message(content, role);
        self.request()
    }

    /// As [`OllamaChatService::prepare_send`], with `images` attached to the
    /// last message of the transcript before the request is built.
    pub fn prepare_send_with_images(&mut self, message: String, images: Vec<String>, role: Role) -> (r: OllamaRequest)
        ensures
            final(self).conversation() == old(self).conversation().appended(role, message@).images_attached(
                images.deep_view(),
            ),
            final(self).base_url() == old(self).base_url(),
            r.model@ == final(self).conversation().model,
            messages_view(r.messages@) == final(self).conversation().messages,
            r.keep_alive == 0,
    {
        self.base.add_message(message, role);
        self.base.attach_images_to_last(images);
        self.request()
    }

    /// The address that requests are posted to.
    pub fn endpoint(&self) -> (r: String)
        ensures
            r@ == self.base_url() + "/api/chat"@,
    {
        self.base_url.clone().concat("/api/chat")
    }
}

impl ChatService for OllamaChatService {
    closed spec fn conversation(&self) -> Conversation {
        self.base@
    }

    closed spec fn settings(&self) -> Seq<Seq<char>> {
        seq![self.base_url@]
    }

    fn set_system_message(&mut self, message: String) {
        self.base.set_system_message(message);
    }

    fn add_message(&mut self, content: String, role: Role) {
        self.base.add_message(content, role);
    }

    fn clear_history(&mut self, keep_system_message: bool) {
        self.base.clear_history(keep_system_message);
    }

    fn get_chat_history(&self) -> (r: &[Message]) {
        self.base.get_chat_history()
    }
}

/// `line` without one trailing carriage return.
pub open spec fn strip_cr(line: Seq<u8>) -> Seq<u8> {
    if line.len() > 0 && line.last() == 13u8 {
        line.drop_last()
    } else {
        line
    }
}

/// `done` with `piece` added as a line, unless the piece is empty once its
/// carriage return is stripped.
pub open spec fn keep_line(done: Seq<Seq<u8>>, piece: Seq<u8>) -> Seq<Seq<u8>> {
    if strip_cr(piece).len() == 0 {
        done
    } else {
        done.push(strip_cr(piece))
    }
}

/// The lines completed so far and the pending piece, after reading `bytes`
/// from left to right and cutting at each line feed.
pub open spec fn scan_lines(bytes: Seq<u8>) -> (Seq<Seq<u8>>, Seq<u8>)
    decreases bytes.len(),
{
    if bytes.len() == 0 {
        (Seq::empty(), Seq::empty())
    } else {
        let (done, piece) = scan_lines(bytes.drop_last());
        if bytes.last() == 10u8 {
            (keep_line(done, piece), Seq::empty())
        } else {
            (done, piece.push(bytes.last()))
        }
    }
}

/// The non-empty lines of `bytes`: cut at line feeds, one trailing carriage
/// return dropped from each, empty lines left out.
pub open spec fn nonempty_lines(bytes: Seq<u8>) -> Seq<Seq<u8>> {
    keep_line(scan_lines(bytes).0, scan_lines(bytes).1)
}

/// The text that a sequence of decoded lines contributes: the content of each
/// line that decoded to a message, in order.
pub open spec fn joined_contents(decoded: Seq<Option<Seq<char>>>) -> Seq<char>
    decreases decoded.len(),
{
    if decoded.len() == 0 {
        Seq::empty()
    } else {
        joined_contents(decoded.drop_last()) + match decoded.last() {
            Some(c) => c,
            None => Seq::empty(),
        }
    }
}

proof fn lemma_joined_contents_concat(a: Seq<Option<Seq<char>>>, b: Seq<Option<Seq<char>>>)
    ensures
        joined_contents(a + b) == joined_contents(a) + joined_contents(b),
    decreases b.len(),
{
    if b.len() == 0 {
        assert(a + b =~= a);
        assert(joined_contents(a) + joined_contents(b) =~= joined_contents(a));
    } else {
        lemma_joined_contents_concat(a, b.drop_last());
        assert((a + b).drop_last() =~= a + b.drop_last());
        assert(joined_contents(a + b) =~= joined_contents(a) + joined_contents(b));
    }
}

/// A line that does not decode contributes nothing and does not stop the
/// lines after it: the text is what the other lines give, in order.
pub proof fn lemma_undecoded_line_is_skipped(before: Seq<Option<Seq<char>>>, after: Seq<Option<Seq<char>>>)
    ensures
        joined_contents(before.push(None) + after) == joined_contents(before) + joined_contents(after),
        joined_contents(before.push(None) + after) == joined_contents(before + after),
{
    lemma_joined_contents_concat(before.push(None), after);
    lemma_joined_contents_concat(before, after);
    assert(before.push(None).drop_last() =~= before);
    assert(joined_contents(before.push(None)) =~= joined_contents(before));
}

/// The views of a sequence of optional strings.
pub open spec fn options_view(v: Seq<Option<String>>) -> Seq<Option<Seq<char>>> {
    v.map_values(|o: Option<String>| match o {
        Some(s) => Some(s@),
        None => None,
    })
}

/// The reply of a streaming call, built up line by line.
pub struct StreamReply {
    text: String,
}

impl StreamReply {
    pub fn new() -> (r: Self)
        ensures
            r.text() == Seq::<char>::empty(),
    {
        StreamReply { text: String::new() }
    }

    pub closed spec fn text(&self) -> Seq<char> {
        self.text@
    }

    /// The lines of one chunk of the response body that are worth decoding.
    pub fn frame_lines(chunk: &[u8]) -> (r: Vec<Vec<u8>>)
        ensures
            r@.map_values(|l: Vec<u8>| l@) == nonempty_lines(chunk@),
    {
        let mut done: Vec<Vec<u8>> = Vec::new();
        let mut piece: Vec<u8> = Vec::new();
        let mut i: usize = 0;
        while i < chunk.len()
            invariant
                i <= chunk@.len(),
                (done@.map_values(|l: Vec<u8>| l@), piece@) == scan_lines(chunk@.subrange(0, i as int)),
            decreases chunk.len() - i,
        {
            let ghost prefix = chunk@.subrange(0, i as int);
            assert(chunk@.subrange(0, i + 1).drop_last() =~= prefix);
            let b = chunk[i];
            if b == 10u8 {
                Self::keep(&mut done, piece);
                piece = Vec::new();
                assert(piece@ =~= Seq::<u8>::empty());
            } else {
                piece.push(b);
            }
            i = i + 1;
        }
        assert(chunk@.subrange(0, chunk@.len() as int) =~= chunk@);
        Self::keep(&mut done, piece);
        done
    }

    fn keep(done: &mut Vec<Vec<u8>>, piece: Vec<u8>)
        ensures
            final(done)@.map_values(|l: Vec<u8>| l@) == keep_line(
                old(done)@.map_values(|l: Vec<u8>| l@),
                piece@,
            ),
    {
        let ghost unstripped = piece@;
        let mut piece = piece;
        let n = piece.len();
        if n > 0 && piece[n - 1] == 13u8 {
            piece.pop();
        }
        assert(piece@ =~= strip_cr(unstripped));
        if piece.len() > 0 {
            let ghost before = done@;
            let ghost stripped = piece@;
            done.push(piece);
            assert(done@.map_values(|l: Vec<u8>| l@) =~= before.map_values(|l: Vec<u8>| l@).push(
                stripped,
            ));
        }
    }

    /// Adds the decoded lines of a chunk in order: the content of each line
    /// that decoded to a message; a line that did not decode (`None`) is
    /// skipped.
    pub fn absorb_lines(&mut self, decoded: Vec<Option<String>>)
        ensures
            final(self).text() == old(self).text() + joined_contents(options_view(decoded@)),
    {
        let mut i: usize = 0;
        while i < decoded.len()
            invariant
                i <= decoded@.len(),
                self.text() == old(self).text() + joined_contents(
                    options_view(decoded@.subrange(0, i as int)),
                ),
            decreases decoded.len() - i,
        {
            assert(options_view(decoded@.subrange(0, i + 1)).drop_last() =~= options_view(
                decoded@.subrange(0, i as int),
            ));
            match &decoded[i] {
                Some(c) => {
                    self.text.append(c.as_str());
                },
                None => {},
            }
            i = i + 1;
            assert(self.text() =~= old(self).text() + joined_contents(
                options_view(decoded@.subrange(0, i as int)),
            ));
        }
        assert(decoded@.subrange(0, decoded@.len() as int) =~= decoded@);
    }

    /// The reply accumulated so far.
    pub fn into_text(self) -> (r: String)
        ensures
            r@ == self.text(),
    {
        self.text
    }
}

} // verus!
