//! The one error type of the library: its own failures, the outside failures it carries
//! as they were reported, and free-form messages.
use vstd::prelude::*;
use vstd::string::*;

verus! {

/// Every failure of the controller and of the collaborators it drives.
#[derive(Debug)]
pub enum SoloError {
    // -- Command line
    CommandAgentNotFound(String),

    // -- Agent
    ModelMissing { agent_path: String },

    // -- Run
    BeforeAllFailWrongReturn { cause: String },

    // -- Async runtime
    TokioTryCurrent(tokio::runtime::TryCurrentError),

    // -- Outside failures, each held as it was reported
    Lua(String),
    Toml(toml::de::Error),
    JsonValueExt(value_ext::JsonValueExtError),
    Serde(serde_json::Error),
    Handlebars(handlebars::RenderError),
    GenAI(genai::Error),
    SimpleFs(simple_fs::Error),
    Keyring(keyring::Error),
    Reqwest(reqwest::Error),
    Io(std::io::Error),

    // -- Free-form
    Custom(String),
    CustomAndCause(String, String),
}

/// What `message` renders for an error, as a relation between the error and the text.
/// The variants of this library render exactly; for an outside failure see
/// `outside_renders_as`.
pub open spec fn renders_as(e: SoloError, text: Seq<char>) -> bool {
    match e {
        SoloError::CommandAgentNotFound(p) => text == "Command Agent not found at: "@ + p@,
        SoloError::ModelMissing { agent_path } => text == agent_path@,
        SoloError::BeforeAllFailWrongReturn { cause } => text == cause@,
        SoloError::Lua(m) => text == m@,
        SoloError::Custom(m) => text == "Error::Custom\n"@ + m@,
        SoloError::CustomAndCause(c, k) => text == "Error: "@ + c@ + "\n\tCause: "@ + k@,
        _ => true,
    }
}

/// The text of a displayed value, as vstd's specification of `to_string` relates them.
pub open spec fn displays_as<D: core::fmt::Display + ?Sized>(d: &D, text: String) -> bool {
    to_string_from_display_ensures::<D>(d, text)
}

/// For an outside failure, whether `text` is what its `Display` gives.
pub open spec fn outside_renders_as(e: SoloError, text: String) -> bool {
    match e {
        SoloError::TokioTryCurrent(x) => displays_as(&x, text),
        SoloError::Toml(x) => displays_as(&x, text),
        SoloError::JsonValueExt(x) => displays_as(&x, text),
        SoloError::Serde(x) => displays_as(&x, text),
        SoloError::Handlebars(x) => displays_as(&x, text),
        SoloError::GenAI(x) => displays_as(&x, text),
        SoloError::SimpleFs(x) => displays_as(&x, text),
        SoloError::Keyring(x) => displays_as(&x, text),
        SoloError::Reqwest(x) => displays_as(&x, text),
        SoloError::Io(x) => displays_as(&x, text),
        _ => true,
    }
}

impl SoloError {
    /// A free-form error holding the displayed text of `val`.
    pub fn custom<D: core::fmt::Display + ?Sized>(val: &D) -> (r: SoloError)
        ensures
            r matches SoloError::Custom(m) && displays_as(val, m),
    {
        SoloError::Custom(val.to_string())
    }

    /// An error that attaches a human-readable context to the displayed text of its cause.
    pub fn custom_and_cause<D: core::fmt::Display + ?Sized>(context: &str, cause: &D) -> (r:
        SoloError)
        ensures
            r matches SoloError::CustomAndCause(c, k) && c@ == context@ && displays_as(cause, k),
    {
        SoloError::CustomAndCause(String::from_str(context), cause.to_string())
    }

    /// Short name of `custom_and_cause`.
    pub fn cc<D: core::fmt::Display + ?Sized>(context: &str, cause: &D) -> (r: SoloError)
        ensures
            r matches SoloError::CustomAndCause(c, k) && c@ == context@ && displays_as(cause, k),
    {
        SoloError::custom_and_cause(context, cause)
    }

    /// The human-readable text of the error.
    pub fn message(&self) -> (r: String)
        ensures
            renders_as(*self, r@),
            outside_renders_as(*self, r),
    {
        match self {
            SoloError::CommandAgentNotFound(p) => {
                let mut t = String::from_str("Command Agent not found at: ");
                t.append(p.as_str());
                t
            },
            SoloError::ModelMissing { agent_path } => agent_path.clone(),
            SoloError::BeforeAllFailWrongReturn { cause } => cause.clone(),
            SoloError::TokioTryCurrent(e) => e.to_string(),
            SoloError::Lua(m) => m.clone(),
            SoloError::Toml(e) => e.to_string(),
            SoloError::JsonValueExt(e) => e.to_string(),
            SoloError::Serde(e) => e.to_string(),
            SoloError::Handlebars(e) => e.to_string(),
            SoloError::GenAI(e) => e.to_string(),
            SoloError::SimpleFs(e) => e.to_string(),
            SoloError::Keyring(e) => e.to_string(),
            SoloError::Reqwest(e) => e.to_string(),
            SoloError::Io(e) => e.to_string(),
            SoloError::Custom(m) => {
                let mut t = String::from_str("Error::Custom\n");
                t.append(m.as_str());
                t
            },
            SoloError::CustomAndCause(c, k) => {
                let mut t = String::from_str("Error: ");
                t.append(c.as_str());
                t.append("\n\tCause: ");
                t.append(k.as_str());
                t
            },
        }
    }
}

} // verus!
