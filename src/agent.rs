//! The agent document as parsed, the base configuration under it, and the runnable
//! agent that merging the two produces.
use crate::error::SoloError;
use vstd::prelude::*;

verus! {

/// Settings that apply to every agent unless the agent sets its own.
pub struct BaseConfig {
    /// The backend model to use when the agent names none.
    pub model: Option<String>,
}

/// An agent file as parsed, before it is merged with the base configuration.
pub struct AgentDoc {
    /// The path of the file that the document was read from.
    pub file_path: String,
    /// The backend model that the document names, if any.
    pub model: Option<String>,
    /// The content that the backend request is built from.
    pub body: String,
}

/// A runnable agent. It is only ever the product of `AgentDoc::into_agent`.
pub struct Agent {
    file_path: String,
    model: String,
    body: String,
}

/// The setting that wins: the agent's own where it has one, else the base one.
pub open spec fn layered(own: Option<String>, base: Option<String>) -> Option<String> {
    match own {
        Some(m) => Some(m),
        None => base,
    }
}

impl Agent {
    pub closed spec fn spec_file_path(&self) -> String {
        self.file_path
    }

    pub closed spec fn spec_model(&self) -> String {
        self.model
    }

    pub closed spec fn spec_body(&self) -> String {
        self.body
    }

    /// Whether this agent is what merging `doc` over `base` gives.
    pub open spec fn merged_from(&self, doc: AgentDoc, base: BaseConfig) -> bool {
        &&& layered(doc.model, base.model) == Some(self.spec_model())
        &&& self.spec_file_path() == doc.file_path
        &&& self.spec_body() == doc.body
    }

    pub fn file_path(&self) -> (r: &String)
        ensures
            *r == self.spec_file_path(),
    {
        &self.file_path
    }

    pub fn model(&self) -> (r: &String)
        ensures
            *r == self.spec_model(),
    {
        &self.model
    }

    pub fn body(&self) -> (r: &String)
        ensures
            *r == self.spec_body(),
    {
        &self.body
    }
}

/// The outcome of merging `doc` over `base`, in spec form.
pub open spec fn merge_succeeds(doc: AgentDoc, base: BaseConfig) -> bool {
    layered(doc.model, base.model) is Some
}

impl AgentDoc {
    /// Merges the document over the base configuration. A model that neither names
    /// is a `ModelMissing` error carrying the document's path: there is no default.
    pub fn into_agent(self, base: BaseConfig) -> (r: Result<Agent, SoloError>)
        ensures
            merge_succeeds(self, base) ==> (r matches Ok(a) && a.merged_from(self, base)),
            !merge_succeeds(self, base) ==> r == Err::<Agent, SoloError>(
                SoloError::ModelMissing { agent_path: self.file_path },
            ),
    {
        let model = match self.model {
            Some(m) => Some(m),
            None => base.model,
        };
        match model {
            Some(m) => Ok(Agent { file_path: self.file_path, model: m, body: self.body }),
            None => Err(SoloError::ModelMissing { agent_path: self.file_path }),
        }
    }
}

/// Resolution is a function of what was read: merging the same document over the same
/// base configuration gives the same agent each time.
pub proof fn lemma_merge_is_deterministic(doc: AgentDoc, base: BaseConfig, a: Agent, b: Agent)
    requires
        a.merged_from(doc, base),
        b.merged_from(doc, base),
    ensures
        a == b,
{
}

} // verus!
