use agent_solo::SoloError;

#[test]
fn custom_renders_label_and_text() {
    let e = SoloError::custom("boom");
    assert!(matches!(&e, SoloError::Custom(m) if m == "boom"));
    assert_eq!(e.message(), "Error::Custom\nboom");
}

#[test]
fn custom_and_cause_renders_cause_line() {
    let e = SoloError::custom_and_cause("Cannot load config", &42u32);
    assert!(matches!(&e, SoloError::CustomAndCause(c, k) if c == "Cannot load config" && k == "42"));
    assert_eq!(e.message(), "Error: Cannot load config\n\tCause: 42");
}

#[test]
fn cc_is_custom_and_cause() {
    let e = SoloError::cc("ctx", "the cause");
    assert_eq!(e.message(), "Error: ctx\n\tCause: the cause");
}

#[test]
fn command_agent_not_found_names_path() {
    let e = SoloError::CommandAgentNotFound("agents/x.devai".to_string());
    assert_eq!(e.message(), "Command Agent not found at: agents/x.devai");
}

#[test]
fn single_field_variants_render_their_field() {
    let e = SoloError::ModelMissing { agent_path: "a.devai".to_string() };
    assert_eq!(e.message(), "a.devai");
    let e = SoloError::BeforeAllFailWrongReturn { cause: "not a table".to_string() };
    assert_eq!(e.message(), "not a table");
    let e = SoloError::Lua("bad script".to_string());
    assert_eq!(e.message(), "bad script");
}

#[test]
fn outside_failure_renders_as_its_own_display() {
    let io = std::io::Error::new(std::io::ErrorKind::Other, "disk on fire");
    let e = SoloError::Io(io);
    assert_eq!(e.message(), "disk on fire");
    let json = serde_json::from_str::<serde_json::Value>("{").unwrap_err();
    let shown = json.to_string();
    assert_eq!(SoloError::Serde(json).message(), shown);
}
