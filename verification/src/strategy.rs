//! Queuing strategies: how the size of a chunk is found.
use vstd::prelude::*;

verus! {

/// The size algorithm of a stream: every chunk counts 1, or the strategy's
/// size function (by its handle) measures it.
#[derive(Clone, Copy, PartialEq, Eq, Structural, Debug)]
pub enum SizeAlgorithm {
    AlwaysOne,
    SizeFunction(u64),
}

/// ExtractSizeAlgorithm: the strategy's size function when it has one,
/// otherwise an algorithm that returns 1.
pub fn extract_size_algorithm(size: Option<u64>) -> (r: SizeAlgorithm)
    ensures
        size is None ==> r == SizeAlgorithm::AlwaysOne,
        size matches Some(f) ==> r == SizeAlgorithm::SizeFunction(f),
{
    match size {
        Option::None => SizeAlgorithm::AlwaysOne,
        Option::Some(f) => SizeAlgorithm::SizeFunction(f),
    }
}

} // verus!
