//! Properties of the controller that hold of every configuration and every input.
use crate::agent::{AgentDoc, BaseConfig};
use crate::config::SoloConfigView;
use crate::error::SoloError;
use crate::solo::{
    Command, Event, Notice, Pass, Phase, Step, accepts, file_missing, has_modify, transition,
};
use vstd::prelude::*;

verus! {

/// In one-shot mode the run's result is returned exactly as the run gave it, nothing is
/// published, and the controller then takes no further event: the agent runs once.
pub proof fn lemma_one_shot_returns_run_result(
    cfg: SoloConfigView,
    pass: Pass,
    r: Result<(), SoloError>,
    post: Phase,
    out: Step,
)
    requires
        !cfg.watch,
        transition(cfg, Phase::Running(pass), Event::RunFinished(r), post, out),
    ensures
        out.command == Command::Finish(r),
        out.notice is None,
        post is Stopped,
        forall|ev: Event| !accepts(post, ev),
{
}

/// In watch mode a failed run is published as a failure notice and does not end the
/// controller: after the first run it goes on to watch the file, after a later one it
/// waits for the next batch of events, whatever that batch holds.
pub proof fn lemma_watch_publishes_run_failure(
    cfg: SoloConfigView,
    pass: Pass,
    err: SoloError,
    post: Phase,
    out: Step,
    next: Event,
)
    requires
        cfg.watch,
        transition(cfg, Phase::Running(pass), Event::RunFinished(Err(err)), post, out),
        next is Received,
    ensures
        out.notice == Some(Notice::Failed(err)),
        !(out.command is Finish),
        pass == Pass::First ==> post is StartingWatch && out.command is StartWatch,
        pass == Pass::Reload ==> post is WaitingForEvent && out.command is Receive && accepts(
            post,
            next,
        ),
{
}

/// A batch of watch events without a modification changes nothing: no notice, no
/// resolution, no run; the controller waits for the next batch.
pub proof fn lemma_batch_without_modify_is_ignored(
    cfg: SoloConfigView,
    kinds: Vec<crate::solo::ChangeKind>,
    post: Phase,
    out: Step,
)
    requires
        !has_modify(kinds@),
        transition(cfg, Phase::WaitingForEvent, Event::Received(Ok(kinds)), post, out),
    ensures
        post is WaitingForEvent,
        out.notice is None,
        out.command is Receive,
{
}

/// A batch with one or more modifications gives one notice that the agent file was
/// modified and one new resolution of the agent, however many modifications it holds.
pub proof fn lemma_batch_with_modify_reloads_once(
    cfg: SoloConfigView,
    kinds: Vec<crate::solo::ChangeKind>,
    post: Phase,
    out: Step,
)
    requires
        has_modify(kinds@),
        transition(cfg, Phase::WaitingForEvent, Event::Received(Ok(kinds)), post, out),
    ensures
        post == Phase::CheckingFile(Pass::Reload),
        out.notice matches Some(Notice::Modified(p)) && p@ == cfg.solo_path,
        out.command matches Command::CheckFile(p) && p@ == cfg.solo_path,
{
}

/// When the agent file is gone at a reload, the file-not-found error is published and
/// the controller waits for the next batch of events instead of ending.
pub proof fn lemma_missing_file_on_reload_is_published(
    cfg: SoloConfigView,
    cause: String,
    post: Phase,
    out: Step,
)
    requires
        transition(cfg, Phase::CheckingFile(Pass::Reload), Event::FileChecked(Err(cause)), post, out),
    ensures
        out.notice matches Some(Notice::Failed(e)) && file_missing(e, cause@),
        out.command is Receive,
        post is WaitingForEvent,
{
}

/// A failure of the watch channel itself ends the controller with success, after a
/// notice that describes the failure.
pub proof fn lemma_channel_failure_stops_with_success(
    cfg: SoloConfigView,
    why: String,
    post: Phase,
    out: Step,
)
    requires
        transition(cfg, Phase::WaitingForEvent, Event::Received(Err(why)), post, out),
    ensures
        out.notice == Some(Notice::ReceiveFailed(why)),
        out.command == Command::Finish(Ok::<(), SoloError>(())),
        post is Stopped,
{
}

/// A document and a base configuration that both lack a model give the model-missing
/// error with the document's path: returned on the first resolution, published on a
/// reload. No run is ever started without a model.
pub proof fn lemma_missing_model_fails_resolution(
    cfg: SoloConfigView,
    pass: Pass,
    base: BaseConfig,
    doc: AgentDoc,
    post: Phase,
    out: Step,
)
    requires
        doc.model is None,
        base.model is None,
        transition(cfg, Phase::Parsing(pass, base), Event::DocParsed(Ok(doc)), post, out),
    ensures
        pass == Pass::First ==> out.command == Command::Finish(
            Err::<(), SoloError>(SoloError::ModelMissing { agent_path: doc.file_path }),
        ),
        pass == Pass::Reload ==> out.notice == Some(
            Notice::Failed(SoloError::ModelMissing { agent_path: doc.file_path }),
        ),
        !(out.command is Run),
{
}


/// A run of the controller from its start: the phases it passes through, the events it
/// is given and the steps it answers with, each step being a transition.
pub open spec fn is_run(
    cfg: SoloConfigView,
    phases: Seq<Phase>,
    events: Seq<Event>,
    steps: Seq<Step>,
) -> bool {
    &&& phases.len() == events.len() + 1
    &&& steps.len() == events.len()
    &&& phases[0] is Idle
    &&& forall|i: int|
        0 <= i < events.len() ==> transition(cfg, phases[i], events[i], phases[i + 1], #[trigger] steps[i])
}

/// The phases of a one-shot run before the agent has been run: it may still be
/// resolved, or the run may have ended on a failed resolution.
pub open spec fn before_run(p: Phase) -> bool {
    match p {
        Phase::Idle => true,
        Phase::CheckingFile(pass) => pass == Pass::First,
        Phase::LoadingBase(pass) => pass == Pass::First,
        Phase::Parsing(pass, _) => pass == Pass::First,
        Phase::OpeningAgentFile(_) => true,
        Phase::OpeningTarget(_) => true,
        Phase::Stopped => true,
        _ => false,
    }
}

proof fn lemma_one_shot_prefix(
    cfg: SoloConfigView,
    phases: Seq<Phase>,
    events: Seq<Event>,
    steps: Seq<Step>,
    k: int,
)
    requires
        !cfg.watch,
        is_run(cfg, phases, events, steps),
        0 <= k <= events.len(),
    ensures
        (forall|i: int| 0 <= i < k ==> !(#[trigger] steps[i].command is Run)) ==> before_run(
            phases[k],
        ),
        forall|i: int|
            0 <= i < k && (#[trigger] steps[i].command is Run) ==> (k == i + 1 && phases[k]
                == Phase::Running(Pass::First)) || (k == i + 2 && phases[k] is Stopped),
    decreases k,
{
    if k > 0 {
        lemma_one_shot_prefix(cfg, phases, events, steps, k - 1);
        assert(transition(cfg, phases[k - 1], events[k - 1], phases[k], steps[k - 1]));
        if forall|i: int| 0 <= i < k ==> !(#[trigger] steps[i].command is Run) {
            assert(forall|i: int| 0 <= i < k - 1 ==> !(#[trigger] steps[i].command is Run));
        }
        assert forall|i: int| 0 <= i < k && (#[trigger] steps[i].command is Run) implies (k == i + 1
            && phases[k] == Phase::Running(Pass::First)) || (k == i + 2 && phases[k] is Stopped) by {
            if i < k - 1 {
                assert((k - 1 == i + 1 && phases[k - 1] == Phase::Running(Pass::First)) || (k - 1
                    == i + 2 && phases[k - 1] is Stopped));
            } else {
                if exists|j: int| 0 <= j < k - 1 && (#[trigger] steps[j].command is Run) {
                    let j = choose|j: int| 0 <= j < k - 1 && (#[trigger] steps[j].command is Run);
                    assert((k - 1 == j + 1 && phases[k - 1] == Phase::Running(Pass::First)) || (k
                        - 1 == j + 2 && phases[k - 1] is Stopped));
                } else {
                    assert(before_run(phases[k - 1]));
                }
            }
        }
    }
}

/// In one-shot mode a run of the controller asks for the agent to be run at most once,
/// and what that run gives back is the result the controller returns, unchanged.
pub proof fn lemma_one_shot_runs_once(
    cfg: SoloConfigView,
    phases: Seq<Phase>,
    events: Seq<Event>,
    steps: Seq<Step>,
)
    requires
        !cfg.watch,
        is_run(cfg, phases, events, steps),
    ensures
        forall|i: int, j: int|
            0 <= i < steps.len() && 0 <= j < steps.len() && (#[trigger] steps[i].command is Run)
                && (#[trigger] steps[j].command is Run) ==> i == j,
        forall|i: int|
            0 <= i < steps.len() - 1 && (#[trigger] steps[i].command is Run) ==> (events[i + 1]
                matches Event::RunFinished(r) && steps[i + 1].command == Command::Finish(r)
                && steps[i + 1].notice is None),
{
    assert forall|i: int, j: int|
        0 <= i < steps.len() && 0 <= j < steps.len() && (#[trigger] steps[i].command is Run)
            && (#[trigger] steps[j].command is Run) implies i == j by {
        if i < j {
            lemma_one_shot_prefix(cfg, phases, events, steps, j);
            assert(transition(cfg, phases[j], events[j], phases[j + 1], steps[j]));
        } else if j < i {
            lemma_one_shot_prefix(cfg, phases, events, steps, i);
            assert(transition(cfg, phases[i], events[i], phases[i + 1], steps[i]));
        }
    }
    assert forall|i: int| 0 <= i < steps.len() - 1 && (#[trigger] steps[i].command is Run) implies (
    events[i + 1] matches Event::RunFinished(r) && steps[i + 1].command == Command::Finish(r)
        && steps[i + 1].notice is None) by {
        lemma_one_shot_prefix(cfg, phases, events, steps, i + 1);
        assert(transition(cfg, phases[i + 1], events[i + 1], phases[i + 2], steps[i + 1]));
    }
}

} // verus!
