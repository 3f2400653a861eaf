//! The solo execution controller: the decisions of a one-shot or watch-mode run, as a
//! state machine that the caller drives. The caller performs each command it is given
//! (after publishing the notice that comes with it, if any) and hands back what came
//! of it as the next event.
use crate::agent::{Agent, AgentDoc, BaseConfig, merge_succeeds};
use crate::config::{SoloConfig, SoloConfigView};
use crate::error::{SoloError, renders_as};
use vstd::prelude::*;
use vstd::string::*;

verus! {

/// The kind of change that a file-watch event reports.
#[derive(Debug, PartialEq, Eq, Structural, Clone, Copy)]
pub enum ChangeKind {
    Create,
    Modify,
    Remove,
    Other,
}

/// Whether a batch of watch events holds a modification.
pub open spec fn has_modify(kinds: Seq<ChangeKind>) -> bool {
    exists|i: int| 0 <= i < kinds.len() && kinds[i] == ChangeKind::Modify
}

/// Whether the agent is being resolved for the first run or after a modification.
#[derive(Debug, PartialEq, Eq, Structural, Clone, Copy)]
pub enum Pass {
    First,
    Reload,
}

/// Where the controller stands.
pub enum Phase {
    /// Nothing has been done yet.
    Idle,
    /// Waiting to learn whether the agent file exists.
    CheckingFile(Pass),
    /// Waiting for the base configuration.
    LoadingBase(Pass),
    /// Waiting for the parsed agent document; holds the base configuration.
    Parsing(Pass, BaseConfig),
    /// An editor is being opened on the agent file.
    OpeningAgentFile(Agent),
    /// An editor is being opened on the target file.
    OpeningTarget(Agent),
    /// The agent is running.
    Running(Pass),
    /// The file watch is being set up.
    StartingWatch,
    /// Waiting for the next batch of watch events.
    WaitingForEvent,
    /// Finished: no event is accepted any more.
    Stopped,
}

/// What came of the last command.
pub enum Event {
    /// Begins the run.
    Start,
    /// Whether the agent file was found; an error holds the filesystem's own message.
    FileChecked(Result<(), String>),
    BaseLoaded(Result<BaseConfig, SoloError>),
    DocParsed(Result<AgentDoc, SoloError>),
    /// The editor was launched. Whether that worked does not matter to the run.
    EditorLaunched,
    RunFinished(Result<(), SoloError>),
    WatchStarted(Result<(), SoloError>),
    /// A batch of watch events, or the watch channel's own failure, described.
    Received(Result<Vec<ChangeKind>, String>),
}

/// What the caller is to do next.
pub enum Command {
    /// Check that the agent file at this path exists.
    CheckFile(String),
    /// Load the base configuration.
    LoadBase,
    /// Parse the agent file at this path.
    ParseDoc(String),
    /// Launch an editor on this path, without waiting on its outcome.
    OpenEditor(String),
    /// Run this agent on the backend.
    Run(Agent),
    /// Start watching the file at this path.
    StartWatch(String),
    /// Wait for the next batch of watch events.
    Receive,
    /// Return this result to the caller of the controller.
    Finish(Result<(), SoloError>),
}

/// A message for the notification hub.
pub enum Notice {
    /// A failure that does not end the watch loop.
    Failed(SoloError),
    /// The agent file at this path was modified.
    Modified(String),
    /// The watch channel failed; holds its description.
    ReceiveFailed(String),
}

/// The text that the hub shows for a notice.
pub open spec fn notice_text(n: Notice, text: Seq<char>) -> bool {
    match n {
        Notice::Failed(e) => exists|m: Seq<char>| text == "ERROR: "@ + m && renders_as(e, m),
        Notice::Modified(p) => text == "\nSolo Agent Modified '"@ + p@ + "', running again."@,
        Notice::ReceiveFailed(why) => text == "Error receiving event: "@ + why@,
    }
}

impl Notice {
    /// The text to publish.
    pub fn text(&self) -> (r: String)
        ensures
            notice_text(*self, r@),
    {
        match self {
            Notice::Failed(e) => {
                let m = e.message();
                let mut t = String::from_str("ERROR: ");
                t.append(m.as_str());
                assert(t@ == "ERROR: "@ + m@);
                t
            },
            Notice::Modified(p) => {
                let mut t = String::from_str("\nSolo Agent Modified '");
                t.append(p.as_str());
                t.append("', running again.");
                t
            },
            Notice::ReceiveFailed(why) => {
                let mut t = String::from_str("Error receiving event: ");
                t.append(why.as_str());
                t
            },
        }
    }
}

/// One decision: an optional notice to publish, then a command to perform.
pub struct Step {
    pub notice: Option<Notice>,
    pub command: Command,
}

/// Whether `e` is the error reported when the agent file is not found, the filesystem
/// having said `cause`.
pub open spec fn file_missing(e: SoloError, cause: Seq<char>) -> bool {
    e matches SoloError::Custom(m) && m@ == "Solo file not found: "@ + cause
}

/// How a failure to resolve the agent is handled: on the first pass it ends the run
/// with the error; after a modification it is published and the loop waits again.
pub open spec fn gives_up(pass: Pass, post: Phase, out: Step, err: spec_fn(SoloError) -> bool) -> bool {
    match pass {
        Pass::First => {
            &&& post is Stopped
            &&& out.notice is None
            &&& out.command matches Command::Finish(Err(e)) && err(e)
        },
        Pass::Reload => {
            &&& post is WaitingForEvent
            &&& out.command is Receive
            &&& out.notice matches Some(Notice::Failed(e)) && err(e)
        },
    }
}

/// Whether the controller, in phase `pre`, takes `ev`.
pub open spec fn accepts(pre: Phase, ev: Event) -> bool {
    match (pre, ev) {
        (Phase::Idle, Event::Start) => true,
        (Phase::CheckingFile(_), Event::FileChecked(_)) => true,
        (Phase::LoadingBase(_), Event::BaseLoaded(_)) => true,
        (Phase::Parsing(_, _), Event::DocParsed(_)) => true,
        (Phase::OpeningAgentFile(_), Event::EditorLaunched) => true,
        (Phase::OpeningTarget(_), Event::EditorLaunched) => true,
        (Phase::Running(_), Event::RunFinished(_)) => true,
        (Phase::StartingWatch, Event::WatchStarted(_)) => true,
        (Phase::WaitingForEvent, Event::Received(_)) => true,
        _ => false,
    }
}

/// Whether a command is to check or parse, watch or edit, the file at `path`.
pub open spec fn names_path(c: Command, path: Seq<char>) -> bool {
    match c {
        Command::CheckFile(p) => p@ == path,
        Command::ParseDoc(p) => p@ == path,
        Command::OpenEditor(p) => p@ == path,
        Command::StartWatch(p) => p@ == path,
        _ => false,
    }
}

/// The controller's transition: in phase `pre`, under configuration `cfg`, event `ev`
/// leads to phase `post` and to the step `out`.
pub open spec fn transition(cfg: SoloConfigView, pre: Phase, ev: Event, post: Phase, out: Step) -> bool {
    let path = cfg.solo_path;
    match (pre, ev) {
        (Phase::Idle, Event::Start) => {
            &&& post == Phase::CheckingFile(Pass::First)
            &&& out.notice is None
            &&& out.command is CheckFile && names_path(out.command, path)
        },
        (Phase::CheckingFile(pass), Event::FileChecked(Ok(()))) => {
            &&& post == Phase::LoadingBase(pass)
            &&& out.notice is None
            &&& out.command is LoadBase
        },
        (Phase::CheckingFile(pass), Event::FileChecked(Err(cause))) => {
            gives_up(pass, post, out, |e: SoloError| file_missing(e, cause@))
        },
        (Phase::LoadingBase(pass), Event::BaseLoaded(Ok(base))) => {
            &&& post == Phase::Parsing(pass, base)
            &&& out.notice is None
            &&& out.command is ParseDoc && names_path(out.command, path)
        },
        (Phase::LoadingBase(pass), Event::BaseLoaded(Err(err))) => {
            gives_up(pass, post, out, |e: SoloError| e == err)
        },
        (Phase::Parsing(pass, _), Event::DocParsed(Err(err))) => {
            gives_up(pass, post, out, |e: SoloError| e == err)
        },
        (Phase::Parsing(pass, base), Event::DocParsed(Ok(doc))) => {
            if !merge_succeeds(doc, base) {
                gives_up(
                    pass,
                    post,
                    out,
                    |e: SoloError| e == SoloError::ModelMissing { agent_path: doc.file_path },
                )
            } else if pass == Pass::First && cfg.open {
                &&& post matches Phase::OpeningAgentFile(a) && a.merged_from(doc, base)
                &&& out.notice is None
                &&& out.command is OpenEditor && names_path(out.command, doc.file_path@)
            } else {
                &&& post == Phase::Running(pass)
                &&& out.notice is None
                &&& out.command matches Command::Run(a) && a.merged_from(doc, base)
            }
        },
        (Phase::OpeningAgentFile(a), Event::EditorLaunched) => {
            &&& post == Phase::OpeningTarget(a)
            &&& out.notice is None
            &&& out.command is OpenEditor && names_path(out.command, cfg.target_path)
        },
        (Phase::OpeningTarget(a), Event::EditorLaunched) => {
            &&& post == Phase::Running(Pass::First)
            &&& out.notice is None
            &&& out.command == Command::Run(a)
        },
        (Phase::Running(pass), Event::RunFinished(r)) => {
            if !cfg.watch {
                &&& post is Stopped
                &&& out.notice is None
                &&& out.command == Command::Finish(r)
            } else {
                &&& r matches Err(e) ==> out.notice == Some(Notice::Failed(e))
                &&& r is Ok ==> out.notice is None
                &&& pass == Pass::First ==> post is StartingWatch && out.command is StartWatch
                    && names_path(out.command, path)
                &&& pass == Pass::Reload ==> post is WaitingForEvent && out.command is Receive
            }
        },
        (Phase::StartingWatch, Event::WatchStarted(Ok(()))) => {
            &&& post is WaitingForEvent
            &&& out.notice is None
            &&& out.command is Receive
        },
        (Phase::StartingWatch, Event::WatchStarted(Err(err))) => {
            &&& post is Stopped
            &&& out.notice is None
            &&& out.command == Command::Finish(Err(err))
        },
        (Phase::WaitingForEvent, Event::Received(Ok(kinds))) => {
            if has_modify(kinds@) {
                &&& post == Phase::CheckingFile(Pass::Reload)
                &&& out.notice matches Some(Notice::Modified(p)) && p@ == path
                &&& out.command is CheckFile && names_path(out.command, path)
            } else {
                &&& post is WaitingForEvent
                &&& out.notice is None
                &&& out.command is Receive
            }
        },
        (Phase::WaitingForEvent, Event::Received(Err(why))) => {
            &&& post is Stopped
            &&& out.notice == Some(Notice::ReceiveFailed(why))
            &&& out.command == Command::Finish(Ok::<(), SoloError>(()))
        },
        _ => false,
    }
}

/// Whether a batch of watch events holds a modification.
pub fn any_modify(kinds: &Vec<ChangeKind>) -> (r: bool)
    ensures
        r == has_modify(kinds@),
{
    let mut i: usize = 0;
    while i < kinds.len()
        invariant
            i <= kinds@.len(),
            forall|j: int| 0 <= j < i ==> kinds@[j] != ChangeKind::Modify,
        decreases kinds@.len() - i,
    {
        if kinds[i] == ChangeKind::Modify {
            return true;
        }
        i = i + 1;
    }
    false
}

/// The step that gives up on a failed resolution: see `gives_up`.
fn give_up(pass: Pass, err: SoloError) -> (r: (Phase, Step))
    ensures
        gives_up(pass, r.0, r.1, |e: SoloError| e == err),
{
    match pass {
        Pass::First => (Phase::Stopped, Step { notice: None, command: Command::Finish(Err(err)) }),
        Pass::Reload => (
            Phase::WaitingForEvent,
            Step { notice: Some(Notice::Failed(err)), command: Command::Receive },
        ),
    }
}

/// The solo execution controller of one invocation.
pub struct Controller {
    config: SoloConfig,
    phase: Phase,
}

impl Controller {
    pub closed spec fn spec_config(&self) -> SoloConfigView {
        self.config@
    }

    pub closed spec fn spec_phase(&self) -> Phase {
        self.phase
    }

    /// A controller that has done nothing yet.
    pub fn new(config: SoloConfig) -> (r: Controller)
        ensures
            r.spec_config() == config@,
            r.spec_phase() is Idle,
    {
        Controller { config, phase: Phase::Idle }
    }

    /// Whether the run has finished.
    pub fn is_stopped(&self) -> (r: bool)
        ensures
            r == self.spec_phase() is Stopped,
    {
        match self.phase {
            Phase::Stopped => true,
            _ => false,
        }
    }

    /// Whether the controller takes `ev` in its present phase.
    pub fn accepts(&self, ev: &Event) -> (r: bool)
        ensures
            r == accepts(self.spec_phase(), *ev),
    {
        match (&self.phase, ev) {
            (Phase::Idle, Event::Start) => true,
            (Phase::CheckingFile(_), Event::FileChecked(_)) => true,
            (Phase::LoadingBase(_), Event::BaseLoaded(_)) => true,
            (Phase::Parsing(_, _), Event::DocParsed(_)) => true,
            (Phase::OpeningAgentFile(_), Event::EditorLaunched) => true,
            (Phase::OpeningTarget(_), Event::EditorLaunched) => true,
            (Phase::Running(_), Event::RunFinished(_)) => true,
            (Phase::StartingWatch, Event::WatchStarted(_)) => true,
            (Phase::WaitingForEvent, Event::Received(_)) => true,
            _ => false,
        }
    }

    /// Takes what came of the last command and decides the next one.
    pub fn step(&mut self, ev: Event) -> (out: Step)
        requires
            accepts(old(self).spec_phase(), ev),
        ensures
            final(self).spec_config() == old(self).spec_config(),
            transition(old(self).spec_config(), old(self).spec_phase(), ev, final(self).spec_phase(), out),
    {
        let mut pre = Phase::Stopped;
        std::mem::swap(&mut self.phase, &mut pre);
        let (post, out) = match (pre, ev) {
            (Phase::Idle, Event::Start) => (
                Phase::CheckingFile(Pass::First),
                Step { notice: None, command: Command::CheckFile(self.config.solo_path().clone()) },
            ),
            (Phase::CheckingFile(pass), Event::FileChecked(Ok(()))) => (
                Phase::LoadingBase(pass),
                Step { notice: None, command: Command::LoadBase },
            ),
            (Phase::CheckingFile(pass), Event::FileChecked(Err(cause))) => {
                let ghost c = cause;
                let mut m = String::from_str("Solo file not found: ");
                m.append(cause.as_str());
                let err = SoloError::Custom(m);
                assert(file_missing(err, c@));
                give_up(pass, err)
            },
            (Phase::LoadingBase(pass), Event::BaseLoaded(Ok(base))) => (
                Phase::Parsing(pass, base),
                Step { notice: None, command: Command::ParseDoc(self.config.solo_path().clone()) },
            ),
            (Phase::LoadingBase(pass), Event::BaseLoaded(Err(err))) => give_up(pass, err),
            (Phase::Parsing(pass, _), Event::DocParsed(Err(err))) => give_up(pass, err),
            (Phase::Parsing(pass, base), Event::DocParsed(Ok(doc))) => {
                match doc.into_agent(base) {
                    Err(err) => give_up(pass, err),
                    Ok(agent) => {
                        if pass == Pass::First && self.config.open() {
                            let p = agent.file_path().clone();
                            (
                                Phase::OpeningAgentFile(agent),
                                Step { notice: None, command: Command::OpenEditor(p) },
                            )
                        } else {
                            (Phase::Running(pass), Step { notice: None, command: Command::Run(agent) })
                        }
                    },
                }
            },
            (Phase::OpeningAgentFile(agent), Event::EditorLaunched) => (
                Phase::OpeningTarget(agent),
                Step {
                    notice: None,
                    command: Command::OpenEditor(self.config.target_path().clone()),
                },
            ),
            (Phase::OpeningTarget(agent), Event::EditorLaunched) => (
                Phase::Running(Pass::First),
                Step { notice: None, command: Command::Run(agent) },
            ),
            (Phase::Running(pass), Event::RunFinished(r)) => {
                if !self.config.watch() {
                    (Phase::Stopped, Step { notice: None, command: Command::Finish(r) })
                } else {
                    let notice = match r {
                        Ok(()) => None,
                        Err(e) => Some(Notice::Failed(e)),
                    };
                    match pass {
                        Pass::First => (
                            Phase::StartingWatch,
                            Step {
                                notice,
                                command: Command::StartWatch(self.config.solo_path().clone()),
                            },
                        ),
                        Pass::Reload => (
                            Phase::WaitingForEvent,
                            Step { notice, command: Command::Receive },
                        ),
                    }
                }
            },
            (Phase::StartingWatch, Event::WatchStarted(Ok(()))) => (
                Phase::WaitingForEvent,
                Step { notice: None, command: Command::Receive },
            ),
            (Phase::StartingWatch, Event::WatchStarted(Err(err))) => (
                Phase::Stopped,
                Step { notice: None, command: Command::Finish(Err(err)) },
            ),
            (Phase::WaitingForEvent, Event::Received(Ok(kinds))) => {
                if any_modify(&kinds) {
                    (
                        Phase::CheckingFile(Pass::Reload),
                        Step {
                            notice: Some(Notice::Modified(self.config.solo_path().clone())),
                            command: Command::CheckFile(self.config.solo_path().clone()),
                        },
                    )
                } else {
                    (Phase::WaitingForEvent, Step { notice: None, command: Command::Receive })
                }
            },
            (Phase::WaitingForEvent, Event::Received(Err(why))) => (
                Phase::Stopped,
                Step {
                    notice: Some(Notice::ReceiveFailed(why)),
                    command: Command::Finish(Ok(())),
                },
            ),
            (_, _) => {
                assert(false);
                (Phase::Stopped, Step { notice: None, command: Command::Receive })
            },
        };
        self.phase = post;
        out
    }
}

} // verus!
