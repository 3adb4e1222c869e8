//! The agent: a state machine that sequences scan, report reading and
//! analysis. Each call takes one command or one finished piece of outside
//! work and returns the log entries to publish and the next piece of outside
//! work to perform; the caller performs it and reports back.
use crate::chat::strings_view;
use crate::tools::{ChatTool, SystemCommandTool, Tool, ToolResult};
use vstd::prelude::*;

verus! {

/// A command for the agent.
#[derive(Clone, Debug)]
pub enum AgentMessage {
    Poke,
    SetHost(String),
}

/// Whether a scan is under way.
#[derive(Clone, Copy, Debug, PartialEq, Eq, Structural)]
pub enum AgentState {
    Idle,
    Scanning,
}

/// Which outside result a scan under way waits for.
#[derive(Clone, Copy, Debug, PartialEq, Eq, Structural)]
pub enum ScanStage {
    AwaitingScan,
    AwaitingReport,
    AwaitingAnalysis,
}

/// The agent's settings.
#[derive(Clone, Debug)]
pub struct AgentConfig {
    pub host: String,
}

/// One input of the agent: a command, or the outcome of the outside work it
/// asked for. A tool run is `Err` when the tool could not be started at all.
#[derive(Debug)]
pub enum AgentEvent {
    Command(AgentMessage),
    ScanFinished(Result<ToolResult, String>),
    ReportRead(Option<String>),
    AnalysisFinished(Result<ToolResult, String>),
}

/// Outside work that the agent asks for.
#[derive(Clone, Debug)]
pub enum AgentAction {
    /// Run the scan tool with these arguments.
    RunScan(Vec<String>),
    /// Read the report file at this path.
    ReadReport(String),
    /// Run the chat tool with these arguments.
    RunAnalysis(Vec<String>),
}

/// What one call of the agent returns: log entries (summary, details) in
/// order, and at most one piece of outside work.
pub struct Step {
    pub logs: Vec<(String, String)>,
    pub action: Option<AgentAction>,
}

pub enum ActionView {
    RunScan(Seq<Seq<char>>),
    ReadReport(Seq<char>),
    RunAnalysis(Seq<Seq<char>>),
}

pub struct StepView {
    pub logs: Seq<(Seq<char>, Seq<char>)>,
    pub action: Option<ActionView>,
}

/// The agent's state: target host, whether it scans, and what it waits for.
pub struct AgentView {
    pub host: Seq<char>,
    pub state: AgentState,
    pub stage: ScanStage,
}

/// The agent's state after a call, and what the call returned.
pub struct Outcome {
    pub next: AgentView,
    pub step: StepView,
}

pub open spec fn logs_view(v: Seq<(String, String)>) -> Seq<(Seq<char>, Seq<char>)> {
    v.map_values(|p: (String, String)| (p.0@, p.1@))
}

impl View for AgentAction {
    type V = ActionView;

    open spec fn view(&self) -> ActionView {
        match self {
            AgentAction::RunScan(a) => ActionView::RunScan(strings_view(a@)),
            AgentAction::ReadReport(p) => ActionView::ReadReport(p@),
            AgentAction::RunAnalysis(a) => ActionView::RunAnalysis(strings_view(a@)),
        }
    }
}

impl View for Step {
    type V = StepView;

    open spec fn view(&self) -> StepView {
        StepView {
            logs: logs_view(self.logs@),
            action: match self.action {
                Some(a) => Some(a@),
                None => None,
            },
        }
    }
}

pub const DEFAULT_HOST: &'static str = "127.0.0.1";

pub const REPORT_PATH: &'static str = "nmap_report.xml";

pub const SCAN_STARTED: &'static str = "Starting scan... ⏳";

pub const SCAN_COMPLETED: &'static str = "Scan completed successfully ☑️";

pub const SCAN_SAVED: &'static str = "Scan results are saved to `nmap_report.xml`";

pub const READING_REPORT: &'static str = "I am looking at `nmap_report.xml` file... 👓";

pub const READING_DETAILS: &'static str = "Analyzing scan results...\n\nReading through the `nmap_report.xml` file.";

pub const ANALYSIS_READY: &'static str = "I have something for you... 📄";

pub const ANALYSIS_FAILED: &'static str = "Forgive me for I have failed (1) ⛔";

pub const ANALYSIS_NOT_RUN: &'static str = "Forgive me for I have failed (2) ⛔";

pub const SCAN_FAILED: &'static str = "Scan failed";

pub const SCAN_NOT_RUN: &'static str = "Error during scan";

pub const ANALYSIS_REQUEST: &'static str = "Please analyze this nmap scan result and provide security insights: ";

/// The scan tool's arguments for `host`.
pub open spec fn scan_args(host: Seq<char>) -> Seq<Seq<char>> {
    seq!["-a"@, host, "-r"@, "0-10000"@, "--"@, "-sVCT"@, "-oX"@, REPORT_PATH@]
}

/// The log entry that announces a scan of `host`.
pub open spec fn scan_started_log(host: Seq<char>) -> (Seq<char>, Seq<char>) {
    (SCAN_STARTED@, "Scanning host "@ + host + " with rustscan"@)
}

/// The log entry that announces a new target host.
pub open spec fn host_changed_log(host: Seq<char>) -> (Seq<char>, Seq<char>) {
    ("Now looking 🔍 at host: "@ + host, "Host changed to "@ + host)
}

pub open spec fn unchanged(a: AgentView) -> Outcome {
    Outcome { next: a, step: StepView { logs: Seq::empty(), action: None } }
}

pub open spec fn idle(a: AgentView, logs: Seq<(Seq<char>, Seq<char>)>) -> Outcome {
    Outcome { next: AgentView { state: AgentState::Idle, ..a }, step: StepView { logs, action: None } }
}

/// A poke starts a scan of the current host when idle, and does nothing
/// while a scan is under way.
pub open spec fn poke_outcome(a: AgentView) -> Outcome {
    if a.state == AgentState::Scanning {
        unchanged(a)
    } else {
        Outcome {
            next: AgentView { state: AgentState::Scanning, stage: ScanStage::AwaitingScan, ..a },
            step: StepView {
                logs: seq![scan_started_log(a.host)],
                action: Some(ActionView::RunScan(scan_args(a.host))),
            },
        }
    }
}

/// A command: a poke, or a new host, announced, followed by a poke.
pub open spec fn message_outcome(a: AgentView, msg: AgentMessage) -> Outcome {
    match msg {
        AgentMessage::Poke => poke_outcome(a),
        AgentMessage::SetHost(h) => {
            let p = poke_outcome(AgentView { host: h@, ..a });
            Outcome {
                next: p.next,
                step: StepView { logs: seq![host_changed_log(h@)] + p.step.logs, action: p.step.action },
            }
        },
    }
}

/// The scan's outcome: on success the report is read next; otherwise the
/// failure is logged and the agent is idle again.
pub open spec fn scan_outcome(a: AgentView, run: Result<ToolResult, String>) -> Outcome {
    if !(a.state == AgentState::Scanning && a.stage == ScanStage::AwaitingScan) {
        unchanged(a)
    } else {
        match run {
            Ok(ToolResult::Success(_)) => Outcome {
                next: AgentView { stage: ScanStage::AwaitingReport, ..a },
                step: StepView {
                    logs: seq![(SCAN_COMPLETED@, SCAN_SAVED@), (READING_REPORT@, READING_DETAILS@)],
                    action: Some(ActionView::ReadReport(REPORT_PATH@)),
                },
            },
            Ok(ToolResult::Error(e)) => idle(a, seq![(SCAN_FAILED@, e@)]),
            Err(e) => idle(a, seq![(SCAN_NOT_RUN@, e@)]),
        }
    }
}

/// The report's contents go to the analysis; a report that could not be
/// read ends the scan without a log entry.
pub open spec fn report_outcome(a: AgentView, contents: Option<String>) -> Outcome {
    if !(a.state == AgentState::Scanning && a.stage == ScanStage::AwaitingReport) {
        unchanged(a)
    } else {
        match contents {
            Some(d) => Outcome {
                next: AgentView { stage: ScanStage::AwaitingAnalysis, ..a },
                step: StepView {
                    logs: Seq::empty(),
                    action: Some(ActionView::RunAnalysis(seq![ANALYSIS_REQUEST@ + d@])),
                },
            },
            None => idle(a, Seq::empty()),
        }
    }
}

/// The analysis, or its failure, is logged and the agent is idle again.
pub open spec fn analysis_outcome(a: AgentView, run: Result<ToolResult, String>) -> Outcome {
    if !(a.state == AgentState::Scanning && a.stage == ScanStage::AwaitingAnalysis) {
        unchanged(a)
    } else {
        match run {
            Ok(ToolResult::Success(t)) => idle(a, seq![(ANALYSIS_READY@, t@)]),
            Ok(ToolResult::Error(e)) => idle(a, seq![(ANALYSIS_FAILED@, e@)]),
            Err(e) => idle(a, seq![(ANALYSIS_NOT_RUN@, e@)]),
        }
    }
}

/// The agent's transition on any event.
pub open spec fn agent_outcome(a: AgentView, e: AgentEvent) -> Outcome {
    match e {
        AgentEvent::Command(m) => message_outcome(a, m),
        AgentEvent::ScanFinished(r) => scan_outcome(a, r),
        AgentEvent::ReportRead(c) => report_outcome(a, c),
        AgentEvent::AnalysisFinished(r) => analysis_outcome(a, r),
    }
}

/// The agent that drives the scan and its analysis.
#[derive(Clone, Debug)]
pub struct Agent {
    config: AgentConfig,
    state: AgentState,
    stage: ScanStage,
    scan_tool: SystemCommandTool,
    chat_tool: ChatTool,
}

impl View for Agent {
    type V = AgentView;

    closed spec fn view(&self) -> AgentView {
        AgentView { host: self.config.host@, state: self.state, stage: self.stage }
    }
}

fn one_log(summary: &str, details: String) -> (r: Vec<(String, String)>)
    ensures
        logs_view(r@) == seq![(summary@, details@)],
{
    let mut r: Vec<(String, String)> = Vec::new();
    r.push((String::from_str(summary), details));
    assert(logs_view(r@) =~= seq![(summary@, details@)]);
    r
}

fn no_step() -> (r: Step)
    ensures
        r@ == (StepView { logs: Seq::empty(), action: None }),
{
    let r = Step { logs: Vec::new(), action: None };
    assert(r@.logs =~= Seq::<(Seq<char>, Seq<char>)>::empty());
    r
}

impl Agent {
    pub fn new() -> (r: Self)
        ensures
            r@ == (AgentView {
                host: DEFAULT_HOST@,
                state: AgentState::Idle,
                stage: ScanStage::AwaitingScan,
            }),
            r.spec_scan_tool().spec_name() == "Rustscan"@,
            r.spec_scan_tool().spec_command() == "rustscan"@,
            r.spec_chat_tool().spec_name() == "ChatGPT"@,
    {
        Agent {
            config: AgentConfig { host: String::from_str(DEFAULT_HOST) },
            state: AgentState::Idle,
            stage: ScanStage::AwaitingScan,
            scan_tool: SystemCommandTool::new(
                String::from_str("Rustscan"),
                String::from_str("Network scanning tool"),
                String::from_str("rustscan"),
            ),
            chat_tool: ChatTool::new(
                String::from_str("ChatGPT"),
                String::from_str("AI assistant for analyzing scan results"),
            ),
        }
    }

    pub closed spec fn spec_scan_tool(&self) -> SystemCommandTool {
        self.scan_tool
    }

    pub closed spec fn spec_chat_tool(&self) -> ChatTool {
        self.chat_tool
    }

    /// The tool that performs scans.
    pub fn scan_tool(&self) -> (r: &SystemCommandTool)
        ensures
            *r == self.spec_scan_tool(),
    {
        &self.scan_tool
    }

    /// The tool that performs analyses.
    pub fn chat_tool(&self) -> (r: &ChatTool)
        ensures
            *r == self.spec_chat_tool(),
    {
        &self.chat_tool
    }

    fn set_state(&mut self, state: AgentState)
        ensures
            final(self)@ == (AgentView { state, ..old(self)@ }),
            final(self).spec_scan_tool() == old(self).spec_scan_tool(),
            final(self).spec_chat_tool() == old(self).spec_chat_tool(),
    {
        self.state = state;
    }

    pub fn get_state(&self) -> (r: AgentState)
        ensures
            r == self@.state,
    {
        self.state
    }

    fn set_host(&mut self, host: String)
        ensures
            final(self)@ == (AgentView { host: host@, ..old(self)@ }),
            final(self).spec_scan_tool() == old(self).spec_scan_tool(),
            final(self).spec_chat_tool() == old(self).spec_chat_tool(),
    {
        self.config.host = host;
    }

    pub fn get_host(&self) -> (r: &String)
        ensures
            r@ == self@.host,
    {
        &self.config.host
    }

    fn scan_arguments(&self) -> (r: Vec<String>)
        ensures
            strings_view(r@) == scan_args(self@.host),
    {
        let mut r: Vec<String> = Vec::new();
        r.push(String::from_str("-a"));
        r.push(self.config.host.clone());
        r.push(String::from_str("-r"));
        r.push(String::from_str("0-10000"));
        r.push(String::from_str("--"));
        r.push(String::from_str("-sVCT"));
        r.push(String::from_str("-oX"));
        r.push(String::from_str(REPORT_PATH));
        assert(strings_view(r@) =~= scan_args(self@.host));
        r
    }

    /// Starts a scan of the current host unless one is under way.
    pub fn poke(&mut self) -> (r: Step)
        ensures
            final(self)@ == poke_outcome(old(self)@).next,
            r@ == poke_outcome(old(self)@).step,
            final(self).spec_scan_tool() == old(self).spec_scan_tool(),
            final(self).spec_chat_tool() == old(self).spec_chat_tool(),
    {
        if self.state == AgentState::Scanning {
            return no_step();
        }
        self.set_state(AgentState::Scanning);
        self.stage = ScanStage::AwaitingScan;
        let details = String::from_str("Scanning host ").concat(self.config.host.as_str()).concat(
            " with rustscan",
        );
        let args = self.scan_arguments();
        Step { logs: one_log(SCAN_STARTED, details), action: Some(AgentAction::RunScan(args)) }
    }

    /// Handles a command.
    pub fn handle_message(&mut self, msg: AgentMessage) -> (r: Step)
        ensures
            final(self)@ == message_outcome(old(self)@, msg).next,
            r@ == message_outcome(old(self)@, msg).step,
            final(self).spec_scan_tool() == old(self).spec_scan_tool(),
            final(self).spec_chat_tool() == old(self).spec_chat_tool(),
    {
        match msg {
            AgentMessage::Poke => self.poke(),
            AgentMessage::SetHost(host) => {
                let ghost h = host@;
                self.set_host(host);
                let summary = String::from_str("Now looking 🔍 at host: ").concat(
                    self.config.host.as_str(),
                );
                let details = String::from_str("Host changed to ").concat(self.get_host().as_str());
                let mut logs: Vec<(String, String)> = Vec::new();
                logs.push((summary, details));
                assert(logs_view(logs@) =~= seq![host_changed_log(h)]);
                let poked = self.poke();
                let ghost first = logs_view(logs@);
                let mut rest = poked.logs;
                let ghost tail = logs_view(rest@);
                logs.append(&mut rest);
                assert(logs_view(logs@) =~= first + tail);
                Step { logs, action: poked.action }
            },
        }
    }

    /// Handles the outcome of the scan tool.
    pub fn on_scan_finished(&mut self, run: Result<ToolResult, String>) -> (r: Step)
        ensures
            final(self)@ == scan_outcome(old(self)@, run).next,
            r@ == scan_outcome(old(self)@, run).step,
            final(self).spec_scan_tool() == old(self).spec_scan_tool(),
            final(self).spec_chat_tool() == old(self).spec_chat_tool(),
    {
        if !(self.state == AgentState::Scanning && self.stage == ScanStage::AwaitingScan) {
            return no_step();
        }
        match run {
            Ok(ToolResult::Success(_)) => {
                self.stage = ScanStage::AwaitingReport;
                let mut logs: Vec<(String, String)> = Vec::new();
                logs.push((String::from_str(SCAN_COMPLETED), String::from_str(SCAN_SAVED)));
                logs.push((String::from_str(READING_REPORT), String::from_str(READING_DETAILS)));
                assert(logs_view(logs@) =~= seq![
                    (SCAN_COMPLETED@, SCAN_SAVED@),
                    (READING_REPORT@, READING_DETAILS@),
                ]);
                Step { logs, action: Some(AgentAction::ReadReport(String::from_str(REPORT_PATH))) }
            },
            Ok(ToolResult::Error(e)) => {
                self.set_state(AgentState::Idle);
                Step { logs: one_log(SCAN_FAILED, e), action: None }
            },
            Err(e) => {
                self.set_state(AgentState::Idle);
                Step { logs: one_log(SCAN_NOT_RUN, e), action: None }
            },
        }
    }

    /// Handles the outcome of reading the report file.
    pub fn on_report_read(&mut self, contents: Option<String>) -> (r: Step)
        ensures
            final(self)@ == report_outcome(old(self)@, contents).next,
            r@ == report_outcome(old(self)@, contents).step,
            final(self).spec_scan_tool() == old(self).spec_scan_tool(),
            final(self).spec_chat_tool() == old(self).spec_chat_tool(),
    {
        if !(self.state == AgentState::Scanning && self.stage == ScanStage::AwaitingReport) {
            return no_step();
        }
        match contents {
            Some(d) => {
                self.stage = ScanStage::AwaitingAnalysis;
                let mut args: Vec<String> = Vec::new();
                args.push(String::from_str(ANALYSIS_REQUEST).concat(d.as_str()));
                assert(strings_view(args@) =~= seq![ANALYSIS_REQUEST@ + d@]);
                let r = Step { logs: Vec::new(), action: Some(AgentAction::RunAnalysis(args)) };
                assert(r@.logs =~= Seq::<(Seq<char>, Seq<char>)>::empty());
                r
            },
            None => {
                self.set_state(AgentState::Idle);
                no_step()
            },
        }
    }

    /// Handles the outcome of the chat tool.
    pub fn on_analysis_finished(&mut self, run: Result<ToolResult, String>) -> (r: Step)
        ensures
            final(self)@ == analysis_outcome(old(self)@, run).next,
            r@ == analysis_outcome(old(self)@, run).step,
            final(self).spec_scan_tool() == old(self).spec_scan_tool(),
            final(self).spec_chat_tool() == old(self).spec_chat_tool(),
    {
        if !(self.state == AgentState::Scanning && self.stage == ScanStage::AwaitingAnalysis) {
            return no_step();
        }
        self.set_state(AgentState::Idle);
        match run {
            Ok(ToolResult::Success(t)) => Step { logs: one_log(ANALYSIS_READY, t), action: None },
            Ok(ToolResult::Error(e)) => Step { logs: one_log(ANALYSIS_FAILED, e), action: None },
            Err(e) => Step { logs: one_log(ANALYSIS_NOT_RUN, e), action: None },
        }
    }

    /// Handles any event.
    pub fn handle(&mut self, event: AgentEvent) -> (r: Step)
        ensures
            final(self)@ == agent_outcome(old(self)@, event).next,
            r@ == agent_outcome(old(self)@, event).step,
            final(self).spec_scan_tool() == old(self).spec_scan_tool(),
            final(self).spec_chat_tool() == old(self).spec_chat_tool(),
    {
        match event {
            AgentEvent::Command(m) => self.handle_message(m),
            AgentEvent::ScanFinished(r) => self.on_scan_finished(r),
            AgentEvent::ReportRead(c) => self.on_report_read(c),
            AgentEvent::AnalysisFinished(r) => self.on_analysis_finished(r),
        }
    }
}

/// A poke while a scan is under way changes nothing: the agent keeps
/// scanning, logs nothing and asks for no outside work.
pub proof fn lemma_poke_while_scanning_is_noop(a: AgentView)
    requires
        a.state == AgentState::Scanning,
    ensures
        agent_outcome(a, AgentEvent::Command(AgentMessage::Poke)) == unchanged(a),
        agent_outcome(a, AgentEvent::Command(AgentMessage::Poke)).next.state == AgentState::Scanning,
        agent_outcome(a, AgentEvent::Command(AgentMessage::Poke)).step.action is None,
{
}

/// A new host given to an idle agent becomes the target, is announced, and
/// starts exactly one scan, of that host.
pub proof fn lemma_set_host_scans_new_host(a: AgentView, host: String)
    requires
        a.state == AgentState::Idle,
    ensures
        ({
            let o = agent_outcome(a, AgentEvent::Command(AgentMessage::SetHost(host)));
            &&& o.next.host == host@
            &&& o.next.state == AgentState::Scanning
            &&& o.step.logs == seq![host_changed_log(host@), scan_started_log(host@)]
            &&& o.step.action == Some(ActionView::RunScan(scan_args(host@)))
        }),
{
    let o = agent_outcome(a, AgentEvent::Command(AgentMessage::SetHost(host)));
    assert(o.step.logs =~= seq![host_changed_log(host@), scan_started_log(host@)]);
}

/// A new host given while a scan is under way becomes the target and is
/// announced, but starts no second scan.
pub proof fn lemma_set_host_while_scanning_starts_nothing(a: AgentView, host: String)
    requires
        a.state == AgentState::Scanning,
    ensures
        ({
            let o = agent_outcome(a, AgentEvent::Command(AgentMessage::SetHost(host)));
            &&& o.next == AgentView { host: host@, ..a }
            &&& o.step.logs == seq![host_changed_log(host@)]
            &&& o.step.action is None
        }),
{
    let o = agent_outcome(a, AgentEvent::Command(AgentMessage::SetHost(host)));
    assert(o.step.logs =~= seq![host_changed_log(host@)]);
}

/// Whether `e` is the outcome that the agent waits for.
pub open spec fn awaited(a: AgentView, e: AgentEvent) -> bool {
    &&& a.state == AgentState::Scanning
    &&& match e {
        AgentEvent::Command(_) => false,
        AgentEvent::ScanFinished(_) => a.stage == ScanStage::AwaitingScan,
        AgentEvent::ReportRead(_) => a.stage == ScanStage::AwaitingReport,
        AgentEvent::AnalysisFinished(_) => a.stage == ScanStage::AwaitingAnalysis,
    }
}

/// There is no sticky failure: on the outcome it waits for, the agent either
/// asks for the next piece of work and keeps scanning, or is idle again with
/// nothing more to do. After the analysis it is always idle.
pub proof fn lemma_scan_returns_to_idle(a: AgentView, e: AgentEvent)
    requires
        awaited(a, e),
    ensures
        ({
            let o = agent_outcome(a, e);
            ||| o.next.state == AgentState::Scanning && o.step.action is Some
            ||| o.next.state == AgentState::Idle && o.step.action is None
        }),
        e is AnalysisFinished ==> agent_outcome(a, e).next.state == AgentState::Idle,
{
}

} // verus!
