//! Matmul algorithm families, as type-level descriptors that a tunable set
//! lists among its candidates.
use vstd::prelude::*;
use std::marker::PhantomData;

verus! {

/// A single-stage matmul that loads full stages asynchronously behind a
/// barrier, parameterised by its tile matmul, its loading strategy and its
/// dispatch of batches to cubes.
pub struct SimpleBarrierAlgorithm<TMM, L, Dispatch> {
    pub _tmm: PhantomData<TMM>,
    pub _l: PhantomData<L>,
    pub _dispatch: PhantomData<Dispatch>,
}

/// A single-stage matmul that loads stages through the tensor memory
/// accelerator, parameterised by its tile matmul and its dispatch.
pub struct SimpleTmaAlgorithm<TMM, Dispatch> {
    pub _tmm: PhantomData<TMM>,
    pub _dispatch: PhantomData<Dispatch>,
}

} // verus!
