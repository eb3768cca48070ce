//! Trying a VRL program on an event before a hook uses it.
use vstd::prelude::*;

verus! {

/// A VRL program and, optionally, the JSON text of an event to run it on.
#[derive(Clone, Debug, Default, PartialEq, Eq)]
pub struct VrlScriptTestRequest {
    pub program: String,
    pub event: Option<String>,
}

} // verus!
