use agent_solo::agent::{AgentDoc, BaseConfig};
use agent_solo::config::SoloConfig;
use agent_solo::solo::{any_modify, ChangeKind, Command, Controller, Event, Notice, Step};
use agent_solo::SoloError;

fn controller(watch: bool, open: bool) -> Controller {
    Controller::new(SoloConfig::new("job.md.devai", watch, open).unwrap())
}

fn base() -> BaseConfig {
    BaseConfig { model: Some("base-model".to_string()) }
}

fn doc() -> AgentDoc {
    AgentDoc { file_path: "job.md.devai".to_string(), model: None, body: "body".to_string() }
}

fn feed(c: &mut Controller, ev: Event) -> Step {
    assert!(c.accepts(&ev));
    c.step(ev)
}

/// Drives a resolution that succeeds, from the file check to the run command.
fn resolve_ok(c: &mut Controller, first: Step) {
    assert!(first.notice.is_none());
    assert!(matches!(first.command, Command::CheckFile(ref p) if p == "job.md.devai"));
    let s = feed(c, Event::FileChecked(Ok(())));
    assert!(matches!(s.command, Command::LoadBase));
    let s = feed(c, Event::BaseLoaded(Ok(base())));
    assert!(matches!(s.command, Command::ParseDoc(ref p) if p == "job.md.devai"));
    let s = feed(c, Event::DocParsed(Ok(doc())));
    assert!(s.notice.is_none());
    match s.command {
        Command::Run(a) => {
            assert_eq!(a.model(), "base-model");
            assert_eq!(a.file_path(), "job.md.devai");
        }
        _ => panic!("expected a run"),
    }
}

#[test]
fn one_shot_returns_run_success() {
    let mut c = controller(false, false);
    let s = feed(&mut c, Event::Start);
    resolve_ok(&mut c, s);
    let s = feed(&mut c, Event::RunFinished(Ok(())));
    assert!(s.notice.is_none());
    assert!(matches!(s.command, Command::Finish(Ok(()))));
    assert!(c.is_stopped());
    assert!(!c.accepts(&Event::RunFinished(Ok(()))));
}

#[test]
fn one_shot_returns_run_failure_unchanged() {
    let mut c = controller(false, false);
    let s = feed(&mut c, Event::Start);
    resolve_ok(&mut c, s);
    let s = feed(&mut c, Event::RunFinished(Err(SoloError::Lua("bad".to_string()))));
    assert!(s.notice.is_none());
    assert!(matches!(s.command, Command::Finish(Err(SoloError::Lua(ref m))) if m == "bad"));
    assert!(c.is_stopped());
}

#[test]
fn one_shot_missing_file_is_returned() {
    let mut c = controller(false, false);
    feed(&mut c, Event::Start);
    let s = feed(&mut c, Event::FileChecked(Err("no such file".to_string())));
    assert!(s.notice.is_none());
    match s.command {
        Command::Finish(Err(e)) => {
            assert_eq!(e.message(), "Error::Custom\nSolo file not found: no such file")
        }
        _ => panic!("expected the error to be returned"),
    }
    assert!(c.is_stopped());
}

#[test]
fn open_flag_opens_agent_then_target_before_run() {
    let mut c = controller(false, true);
    feed(&mut c, Event::Start);
    feed(&mut c, Event::FileChecked(Ok(())));
    feed(&mut c, Event::BaseLoaded(Ok(base())));
    let s = feed(&mut c, Event::DocParsed(Ok(doc())));
    assert!(matches!(s.command, Command::OpenEditor(ref p) if p == "job.md.devai"));
    let s = feed(&mut c, Event::EditorLaunched);
    assert!(matches!(s.command, Command::OpenEditor(ref p) if p == "job.md"));
    let s = feed(&mut c, Event::EditorLaunched);
    assert!(matches!(s.command, Command::Run(_)));
}

#[test]
fn missing_model_fails_first_resolution() {
    let mut c = controller(true, false);
    feed(&mut c, Event::Start);
    feed(&mut c, Event::FileChecked(Ok(())));
    feed(&mut c, Event::BaseLoaded(Ok(BaseConfig { model: None })));
    let s = feed(&mut c, Event::DocParsed(Ok(doc())));
    assert!(matches!(
        s.command,
        Command::Finish(Err(SoloError::ModelMissing { ref agent_path })) if agent_path == "job.md.devai"
    ));
}

/// Brings a watch-mode controller to waiting for events, the first run having failed.
fn watching() -> Controller {
    let mut c = controller(true, false);
    let s = feed(&mut c, Event::Start);
    resolve_ok(&mut c, s);
    let s = feed(&mut c, Event::RunFinished(Err(SoloError::custom("backend down"))));
    match s.notice {
        Some(Notice::Failed(e)) => assert_eq!(e.message(), "Error::Custom\nbackend down"),
        _ => panic!("expected the failure to be published"),
    }
    assert!(matches!(s.command, Command::StartWatch(ref p) if p == "job.md.devai"));
    let s = feed(&mut c, Event::WatchStarted(Ok(())));
    assert!(matches!(s.command, Command::Receive));
    c
}

#[test]
fn watch_publishes_run_failure_and_keeps_going() {
    let mut c = watching();
    let s = feed(&mut c, Event::Received(Ok(vec![ChangeKind::Modify])));
    assert!(matches!(s.command, Command::CheckFile(_)));
    feed(&mut c, Event::FileChecked(Ok(())));
    feed(&mut c, Event::BaseLoaded(Ok(base())));
    let s = feed(&mut c, Event::DocParsed(Ok(doc())));
    assert!(matches!(s.command, Command::Run(_)));
    let s = feed(&mut c, Event::RunFinished(Err(SoloError::Lua("again".to_string()))));
    assert!(matches!(s.notice, Some(Notice::Failed(SoloError::Lua(ref m))) if m == "again"));
    assert!(matches!(s.command, Command::Receive));
    let s = feed(&mut c, Event::Received(Ok(vec![ChangeKind::Modify])));
    assert!(matches!(s.command, Command::CheckFile(_)));
}

#[test]
fn batch_without_modify_does_nothing() {
    let mut c = watching();
    let s = feed(&mut c, Event::Received(Ok(vec![ChangeKind::Create, ChangeKind::Remove, ChangeKind::Other])));
    assert!(s.notice.is_none());
    assert!(matches!(s.command, Command::Receive));
    let s = feed(&mut c, Event::Received(Ok(vec![])));
    assert!(s.notice.is_none());
    assert!(matches!(s.command, Command::Receive));
    assert!(c.accepts(&Event::Received(Ok(vec![]))));
}

#[test]
fn batch_with_many_modifies_reloads_once() {
    let mut c = watching();
    let s = feed(&mut c, Event::Received(Ok(vec![ChangeKind::Modify, ChangeKind::Other, ChangeKind::Modify])));
    assert!(matches!(s.notice, Some(Notice::Modified(ref p)) if p == "job.md.devai"));
    assert!(matches!(s.command, Command::CheckFile(ref p) if p == "job.md.devai"));
    assert!(c.accepts(&Event::FileChecked(Ok(()))));
    assert!(!c.accepts(&Event::Received(Ok(vec![ChangeKind::Modify]))));
}

#[test]
fn deleted_file_on_reload_is_published() {
    let mut c = watching();
    feed(&mut c, Event::Received(Ok(vec![ChangeKind::Modify])));
    let s = feed(&mut c, Event::FileChecked(Err("gone".to_string())));
    match s.notice {
        Some(Notice::Failed(e)) => assert_eq!(e.message(), "Error::Custom\nSolo file not found: gone"),
        _ => panic!("expected the failure to be published"),
    }
    assert!(matches!(s.command, Command::Receive));
    assert!(!c.is_stopped());
    let s = feed(&mut c, Event::Received(Ok(vec![ChangeKind::Modify])));
    assert!(matches!(s.command, Command::CheckFile(_)));
}

#[test]
fn channel_failure_stops_with_success() {
    let mut c = watching();
    let s = feed(&mut c, Event::Received(Err("Disconnected".to_string())));
    assert!(matches!(s.notice, Some(Notice::ReceiveFailed(ref d)) if d == "Disconnected"));
    assert!(matches!(s.command, Command::Finish(Ok(()))));
    assert!(c.is_stopped());
}

#[test]
fn watch_start_failure_is_returned() {
    let mut c = controller(true, false);
    let s = feed(&mut c, Event::Start);
    resolve_ok(&mut c, s);
    let s = feed(&mut c, Event::RunFinished(Ok(())));
    assert!(s.notice.is_none());
    let s = feed(&mut c, Event::WatchStarted(Err(SoloError::custom("no watcher"))));
    assert!(matches!(s.command, Command::Finish(Err(SoloError::Custom(ref m))) if m == "no watcher"));
}

#[test]
fn any_modify_finds_modification() {
    assert!(any_modify(&vec![ChangeKind::Other, ChangeKind::Modify]));
    assert!(!any_modify(&vec![ChangeKind::Create]));
    assert!(!any_modify(&vec![]));
}

#[test]
fn notice_texts() {
    let n = Notice::Failed(SoloError::custom("boom"));
    assert_eq!(n.text(), "ERROR: Error::Custom\nboom");
    let n = Notice::Modified("job.md.devai".to_string());
    assert_eq!(n.text(), "\nSolo Agent Modified 'job.md.devai', running again.");
    let n = Notice::ReceiveFailed("Disconnected".to_string());
    assert_eq!(n.text(), "Error receiving event: Disconnected");
}
