//! Tools that the agent runs: an external command and a chat call. Each
//! normalises what happened into a [`ToolResult`]; the process or network
//! work itself is performed by the caller.
use crate::backend::{ChatError, OpenAiChatService, OpenAiRequest};
use crate::chat::{messages_view, plain_message, strings_view, ChatService, Conversation, Role};
use vstd::prelude::*;

verus! {

/// What a tool run produced.
#[derive(Clone, Debug)]
pub enum ToolResult {
    Success(String),
    Error(String),
}

/// A named capability that the agent can run.
pub trait Tool {
    spec fn spec_name(&self) -> Seq<char>;

    spec fn spec_description(&self) -> Seq<char>;

    fn name(&self) -> (r: &str)
        ensures
            r@ == self.spec_name(),
    ;

    fn description(&self) -> (r: &str)
        ensures
            r@ == self.spec_description(),
    ;
}

/// A tool that runs an external binary.
#[derive(Clone, Debug)]
pub struct SystemCommandTool {
    name: String,
    description: String,
    command: String,
}

impl SystemCommandTool {
    pub fn new(name: String, description: String, command: String) -> (r: Self)
        ensures
            r.spec_name() == name@,
            r.spec_description() == description@,
            r.spec_command() == command@,
    {
        SystemCommandTool { name, description, command }
    }

    pub closed spec fn spec_command(&self) -> Seq<char> {
        self.command@
    }

    /// The binary that the tool runs.
    pub fn command(&self) -> (r: &str)
        ensures
            r@ == self.spec_command(),
    {
        self.command.as_str()
    }

    /// The result of a finished run: its standard output when the exit status
    /// is success, its standard error otherwise.
    pub fn result_from_exit(success: bool, stdout: String, stderr: String) -> (r: ToolResult)
        ensures
            success ==> (r matches ToolResult::Success(o) && o@ == stdout@),
            !success ==> (r matches ToolResult::Error(e) && e@ == stderr@),
    {
        if success {
            ToolResult::Success(stdout)
        } else {
            ToolResult::Error(stderr)
        }
    }
}

impl Tool for SystemCommandTool {
    closed spec fn spec_name(&self) -> Seq<char> {
        self.name@
    }

    closed spec fn spec_description(&self) -> Seq<char> {
        self.description@
    }

    fn name(&self) -> (r: &str) {
        self.name.as_str()
    }

    fn description(&self) -> (r: &str) {
        self.description.as_str()
    }
}

/// The instructions that every analysis conversation starts with.
pub const ANALYST_PROMPT: &'static str = "You are a cybersecurity expert. 
                 Your focus is reconnaissance.
                 You will receive an Nmap XML report.
                 Your task is to analyze the report and provide a summary of the findings.
                 The summary will be concise and to the point. 
                 The summary will me in markdown format.
                 Bullet points are preferred.";

/// What a run of the chat tool reports when no API key is configured.
pub const MISSING_KEY_TEXT: &'static str = "OPENAI_API_KEY not found in .env file";

/// `parts` joined with `sep` between consecutive parts.
pub open spec fn joined(parts: Seq<Seq<char>>, sep: Seq<char>) -> Seq<char>
    decreases parts.len(),
{
    if parts.len() == 0 {
        Seq::empty()
    } else if parts.len() == 1 {
        parts[0]
    } else {
        joined(parts.drop_last(), sep) + sep + parts.last()
    }
}

/// `parts` joined with single spaces.
pub fn join_with_spaces(parts: &Vec<String>) -> (r: String)
    ensures
        r@ == joined(strings_view(parts@), " "@),
{
    let mut r = String::new();
    let mut i: usize = 0;
    while i < parts.len()
        invariant
            i <= parts@.len(),
            r@ == joined(strings_view(parts@.subrange(0, i as int)), " "@),
        decreases parts.len() - i,
    {
        assert(strings_view(parts@.subrange(0, i + 1)).drop_last() =~= strings_view(
            parts@.subrange(0, i as int),
        ));
        if i > 0 {
            r.append(" ");
        }
        r.append(parts[i].as_str());
        i = i + 1;
        assert(r@ =~= joined(strings_view(parts@.subrange(0, i as int)), " "@));
    }
    assert(parts@.subrange(0, parts@.len() as int) =~= parts@);
    r
}

/// What a started run holds: a backend with the given key whose history
/// holds the analyst prompt and then the joined arguments as a user message,
/// and the request that carries that history.
pub open spec fn started(svc: OpenAiChatService, req: OpenAiRequest, key: Seq<char>, args: Seq<Seq<char>>) -> bool {
    &&& svc.api_key() == key
    &&& svc.base_url() == crate::backend::OPENAI_DEFAULT_BASE@
    &&& svc.conversation() == Conversation::fresh(crate::backend::OPENAI_DEFAULT_MODEL@).with_system(
        ANALYST_PROMPT@,
    ).appended(Role::User, joined(args, " "@))
    &&& req.model@ == crate::backend::OPENAI_DEFAULT_MODEL@
    &&& messages_view(req.messages@) == seq![
        plain_message(Role::System, ANALYST_PROMPT@),
        plain_message(Role::User, joined(args, " "@)),
    ]
    &&& !req.stream
}

/// A tool that asks a chat backend to analyse its arguments.
#[derive(Clone, Debug)]
pub struct ChatTool {
    name: String,
    description: String,
}

impl ChatTool {
    pub fn new(name: String, description: String) -> (r: Self)
        ensures
            r.spec_name() == name@,
            r.spec_description() == description@,
    {
        ChatTool { name, description }
    }

    /// Starts a run: with an API key, a new single-shot backend whose history
    /// holds the analyst prompt and then the arguments joined with spaces as a
    /// user message, and the request to send; without one, the error result.
    pub fn start(&self, api_key: Option<String>, args: &Vec<String>) -> (r: Result<(OpenAiChatService, OpenAiRequest), ToolResult>)
        ensures
            api_key is None <==> r is Err,
            r matches Err(e) ==> (e matches ToolResult::Error(t) && t@ == MISSING_KEY_TEXT@),
            r is Ok ==> started(r->Ok_0.0, r->Ok_0.1, api_key->0@, strings_view(args@)),
    {
        match api_key {
            None => Err(ToolResult::Error(String::from_str(MISSING_KEY_TEXT))),
            Some(key) => {
                let mut svc = OpenAiChatService::new(key, None, None);
                svc.set_system_message(String::from_str(ANALYST_PROMPT));
                let message = join_with_spaces(args);
                let req = svc.prepare_send(message, Role::User);
                assert(svc.conversation().messages =~= seq![
                    plain_message(Role::System, ANALYST_PROMPT@),
                    plain_message(Role::User, joined(strings_view(args@), " "@)),
                ]);
                Ok((svc, req))
            },
        }
    }

    /// The result of a run from the backend's answer: the reply on success,
    /// the failure's text otherwise.
    pub fn finish(reply: Result<String, ChatError>) -> (r: ToolResult)
        ensures
            reply matches Ok(t) ==> (r matches ToolResult::Success(o) && o@ == t@),
            reply matches Err(e) ==> (r matches ToolResult::Error(m) && m@ == match e {
                ChatError::Network(d) => d@,
                ChatError::Protocol(d) => d@,
            }),
    {
        match reply {
            Ok(t) => ToolResult::Success(t),
            Err(e) => ToolResult::Error(e.message()),
        }
    }
}

impl Tool for ChatTool {
    closed spec fn spec_name(&self) -> Seq<char> {
        self.name@
    }

    closed spec fn spec_description(&self) -> Seq<char> {
        self.description@
    }

    fn name(&self) -> (r: &str) {
        self.name.as_str()
    }

    fn description(&self) -> (r: &str) {
        self.description.as_str()
    }
}

} // verus!
