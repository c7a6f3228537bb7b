//! Where the outside converter for legacy-format files is found.
//!
//! The configured location is taken where it exists. Else the directories
//! of the executable search path are tried in order. Where none holds the
//! converter, the legacy-format strategy is off for the run. Asking the file
//! system is the caller's part.

use vstd::prelude::*;

verus! {

/// Name of the converter where none is configured.
pub const DEFAULT_TOOL_NAME: &'static str = "crystal-eye";

/// A place on the search path where the converter may be, and whether
/// something exists there.
#[derive(Clone, Debug, PartialEq, Eq)]
pub struct SearchHit {
    pub candidate: String,
    pub exists: bool,
}

/// The converter for this run.
#[derive(Clone, Debug, PartialEq, Eq)]
pub enum ToolLocation {
    /// The converter is at this path.
    Found(String),
    /// There is no converter: legacy-format files are passed over.
    Disabled,
}

/// The first place of the search path at which something exists.
pub open spec fn first_hit(hits: Seq<SearchHit>) -> Option<Seq<char>>
    decreases hits.len(),
{
    if hits.len() == 0 {
        None
    } else if hits[0].exists {
        Some(hits[0].candidate@)
    } else {
        first_hit(hits.drop_first())
    }
}

/// The path of the converter, if there is one: the configured location
/// where it exists, else the first hit on the search path.
pub open spec fn resolved_tool(configured: Seq<char>, configured_exists: bool, hits: Seq<SearchHit>)
    -> Option<Seq<char>> {
    if configured_exists {
        Some(configured)
    } else {
        first_hit(hits)
    }
}

impl ToolLocation {
    /// The path of the converter, if there is one.
    pub open spec fn path(self) -> Option<Seq<char>> {
        match self {
            ToolLocation::Found(p) => Some(p@),
            ToolLocation::Disabled => None,
        }
    }

    /// Whether the legacy-format strategy is on.
    pub fn is_available(&self) -> (out: bool)
        ensures
            out == self.path() is Some,
    {
        match self {
            ToolLocation::Found(_) => true,
            ToolLocation::Disabled => false,
        }
    }
}

/// Settles where the converter is. `hits` are the places of the search
/// path in order, each the directory joined with the configured name.
pub fn check_crystal_eye_path(configured: &str, configured_exists: bool, hits: &Vec<SearchHit>)
    -> (out: ToolLocation)
    ensures
        out.path() == resolved_tool(configured@, configured_exists, hits@),
{
    if configured_exists {
        return ToolLocation::Found(configured.to_owned());
    }
    let mut i: usize = 0;
    assert(hits@.skip(0) =~= hits@);
    while i < hits.len()
        invariant
            0 <= i <= hits.len(),
            !configured_exists,
            first_hit(hits@) == first_hit(hits@.skip(i as int)),
        decreases hits.len() - i,
    {
        let ghost rest = hits@.skip(i as int);
        assert(rest[0] == hits@[i as int]);
        assert(rest.drop_first() =~= hits@.skip(i + 1));
        if hits[i].exists {
            return ToolLocation::Found(hits[i].candidate.clone());
        }
        i = i + 1;
    }
    assert(hits@.skip(i as int).len() == 0);
    ToolLocation::Disabled
}

} // verus!
