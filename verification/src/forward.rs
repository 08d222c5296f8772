//! The decisions of the forwarding attributes: which arguments of a
//! method are passed on, and whether the underlying object is borrowed
//! mutably.

use vstd::prelude::*;

verus! {

/// One parameter of the decorated method, as far as forwarding looks at it.
pub enum FnInput {
    /// `self`, `&self` or `&mut self`.
    Receiver { mutable: bool },
    /// A typed parameter bound to a plain identifier.
    TypedIdent,
    /// A typed parameter bound to any other pattern.
    TypedOther,
}

/// How the forwarded method reaches the underlying object.
#[derive(PartialEq, Eq, Debug, Clone, Copy, Structural)]
pub enum Access {
    /// Through a shared borrow.
    Shared,
    /// Through a mutable borrow.
    Exclusive,
}

/// The positions of the parameters bound to plain identifiers.
pub open spec fn spec_forwarded_args(inputs: Seq<FnInput>) -> Seq<usize>
    decreases inputs.len(),
{
    if inputs.len() == 0 {
        Seq::empty()
    } else {
        let rest = spec_forwarded_args(inputs.drop_last());
        if inputs.last() is TypedIdent {
            rest.push((inputs.len() - 1) as usize)
        } else {
            rest
        }
    }
}

/// The positions, in order, of the parameters that are passed on: those
/// bound to plain identifiers.
pub fn collect_fn_args(inputs: &Vec<FnInput>) -> (r: Vec<usize>)
    ensures
        r@ == spec_forwarded_args(inputs@),
{
    let mut out: Vec<usize> = Vec::new();
    let mut i: usize = 0;
    while i < inputs.len()
        invariant
            i <= inputs@.len(),
            out@ == spec_forwarded_args(inputs@.subrange(0, i as int)),
        decreases inputs@.len() - i,
    {
        proof {
            assert(inputs@.subrange(0, (i + 1) as int).drop_last() =~= inputs@.subrange(0, i as int));
        }
        match &inputs[i] {
            FnInput::TypedIdent => out.push(i),
            _ => {},
        }
        i = i + 1;
    }
    proof {
        assert(inputs@.subrange(0, inputs@.len() as int) =~= inputs@);
    }
    out
}

/// The mutability of the first receiver; `None` when there is none, which
/// is not a method.
pub open spec fn spec_is_mutable_method(inputs: Seq<FnInput>) -> Option<bool>
    decreases inputs.len(),
{
    if inputs.len() == 0 {
        None
    } else {
        match inputs[0] {
            FnInput::Receiver { mutable } => Some(mutable),
            _ => spec_is_mutable_method(inputs.drop_first()),
        }
    }
}

pub fn is_mutable_method(inputs: &Vec<FnInput>) -> (r: Option<bool>)
    ensures
        r == spec_is_mutable_method(inputs@),
{
    let mut i: usize = 0;
    proof {
        assert(inputs@.subrange(0, inputs@.len() as int) =~= inputs@);
    }
    while i < inputs.len()
        invariant
            i <= inputs@.len(),
            spec_is_mutable_method(inputs@) == spec_is_mutable_method(inputs@.subrange(i as int, inputs@.len() as int)),
        decreases inputs@.len() - i,
    {
        proof {
            assert(inputs@.subrange(i as int, inputs@.len() as int).drop_first() =~= inputs@.subrange(
                i + 1,
                inputs@.len() as int,
            ));
        }
        match &inputs[i] {
            FnInput::Receiver { mutable } => {
                return Some(*mutable);
            },
            _ => {},
        }
        i = i + 1;
    }
    None
}

/// The accessor a forwarded window method goes through: the mutable one
/// for a method taking `&mut self`.
pub fn window_access(mutable: bool) -> (a: Access)
    ensures
        a == (if mutable {
            Access::Exclusive
        } else {
            Access::Shared
        }),
{
    if mutable {
        Access::Exclusive
    } else {
        Access::Shared
    }
}

} // verus!
