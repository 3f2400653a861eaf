//! The validated configuration of one solo invocation.
use crate::error::SoloError;
use vstd::prelude::*;
use vstd::string::*;

verus! {

/// The extension that marks an agent file; the file beside it without the extension is
/// the agent's target.
pub open spec fn solo_ext() -> Seq<char> {
    ".devai"@
}

/// Whether `s` ends with `suffix`.
pub open spec fn ends_with(s: Seq<char>, suffix: Seq<char>) -> bool {
    suffix.len() <= s.len() && s.subrange(s.len() - suffix.len(), s.len() as int) == suffix
}

/// The agent file and target file that a path given on the command line names: a path
/// that ends in the agent extension is the agent file, and its target is the path
/// without the extension; any other path is the target, and the agent file is the path
/// with the extension added.
pub open spec fn solo_and_target(path: Seq<char>) -> (Seq<char>, Seq<char>) {
    if ends_with(path, solo_ext()) {
        (path, path.subrange(0, path.len() - solo_ext().len()))
    } else {
        (path + solo_ext(), path)
    }
}

/// A path names an agent only if the target it gives is not empty.
pub open spec fn names_agent(path: Seq<char>) -> bool {
    solo_and_target(path).1.len() > 0
}

/// What a configuration holds, as plain values.
pub struct SoloConfigView {
    pub solo_path: Seq<char>,
    pub target_path: Seq<char>,
    pub watch: bool,
    pub open: bool,
}

/// The configuration of one invocation. It is built once and never changed.
pub struct SoloConfig {
    solo_path: String,
    target_path: String,
    watch: bool,
    open: bool,
}

impl View for SoloConfig {
    type V = SoloConfigView;

    closed spec fn view(&self) -> SoloConfigView {
        SoloConfigView {
            solo_path: self.solo_path@,
            target_path: self.target_path@,
            watch: self.watch,
            open: self.open,
        }
    }
}

fn has_suffix(s: &str, suffix: &str) -> (r: bool)
    ensures
        r == ends_with(s@, suffix@),
{
    let n = s.unicode_len();
    let k = suffix.unicode_len();
    if k > n {
        return false;
    }
    let start = n - k;
    let mut i: usize = 0;
    while i < k
        invariant
            k <= n,
            n == s@.len(),
            k == suffix@.len(),
            start == n - k,
            i <= k,
            forall|j: int| 0 <= j < i ==> s@[start + j] == suffix@[j],
        decreases k - i,
    {
        if s.get_char(start + i) != suffix.get_char(i) {
            assert(s@.subrange(start as int, n as int)[i as int] != suffix@[i as int]);
            return false;
        }
        i = i + 1;
    }
    assert(s@.subrange(start as int, n as int) =~= suffix@);
    true
}

impl SoloConfig {
    /// Builds the configuration from the path given on the command line and the two
    /// flags, which are kept as given. Fails, naming the path, when it names no target.
    pub fn new(path: &str, watch: bool, open: bool) -> (r: Result<SoloConfig, SoloError>)
        ensures
            names_agent(path@) ==> (r matches Ok(c) && c@ == (SoloConfigView {
                solo_path: solo_and_target(path@).0,
                target_path: solo_and_target(path@).1,
                watch,
                open,
            })),
            !names_agent(path@) ==> (r matches Err(e) && e matches SoloError::CommandAgentNotFound(
                p,
            ) && p@ == path@),
    {
        let ext = ".devai";
        proof {
            reveal_strlit(".devai");
        }
        let (solo_path, target_path) = if has_suffix(path, ext) {
            let n = path.unicode_len();
            (String::from_str(path), String::from_str(path.substring_char(0, n - ext.unicode_len())))
        } else {
            (String::from_str(path).concat(ext), String::from_str(path))
        };
        if target_path.unicode_len() == 0 {
            return Err(SoloError::CommandAgentNotFound(String::from_str(path)));
        }
        Ok(SoloConfig { solo_path, target_path, watch, open })
    }

    pub fn solo_path(&self) -> (r: &String)
        ensures
            r@ == self@.solo_path,
    {
        &self.solo_path
    }

    pub fn target_path(&self) -> (r: &String)
        ensures
            r@ == self@.target_path,
    {
        &self.target_path
    }

    pub fn watch(&self) -> (r: bool)
        ensures
            r == self@.watch,
    {
        self.watch
    }

    pub fn open(&self) -> (r: bool)
        ensures
            r == self@.open,
    {
        self.open
    }
}

} // verus!
