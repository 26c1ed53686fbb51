//! Placeholder cleanup: after scaffolding, any regular file whose path
//! contains the substring `Counter` is a scaffold template and is removed
//! before real sources are written. This module decides which paths match;
//! the traversal and deletion are filesystem work done by the caller.

use vstd::prelude::*;
use crate::chars::{chars_of, contains_sub, spec_contains_sub};

verus! {

/// Whether a path names a scaffold placeholder file.
pub open spec fn spec_is_placeholder(path: Seq<char>) -> bool {
    spec_contains_sub(path, "Counter"@)
}

/// Decides whether the file at `path` is a scaffold placeholder: true
/// exactly when the path contains the substring `Counter`.
pub fn is_placeholder(path: &str) -> (r: bool)
    ensures
        r == spec_is_placeholder(path@),
{
    let pv = chars_of(path);
    let nv = chars_of("Counter");
    contains_sub(&pv, &nv)
}

} // verus!
