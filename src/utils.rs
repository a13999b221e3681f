//! Small helpers.
use vstd::prelude::*;

verus! {

/// A wrapper that lets the crate give foreign values its own impls.
#[derive(Debug, Default, Clone, Copy, PartialEq, Eq, Structural)]
pub struct W<T>(pub T);

} // verus!
