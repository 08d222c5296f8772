//! Task primitives in foreground thread flavour.

use crate::spawner::Type;
use vstd::prelude::*;

verus! {

/// Whether the current thread, of type `current`, is the foreground thread;
/// a foreground-only primitive refuses to run where this is false.
pub fn is_current(current: Type) -> (r: bool)
    ensures
        r == (current == Type::Foreground),
{
    current == Type::Foreground
}

} // verus!
