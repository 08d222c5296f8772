//! Task primitives in background thread flavour.

use crate::spawner::Type;
use vstd::prelude::*;

verus! {

/// Whether the current thread, of type `current`, is a background thread;
/// a background-only primitive refuses to run where this is false.
pub fn is_current(current: Type) -> (r: bool)
    ensures
        r == (current == Type::Background),
{
    current == Type::Background
}

} // verus!
