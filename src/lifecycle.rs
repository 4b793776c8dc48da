//! Laws of the seed lifecycle over several calls.

use crate::bytes::be_u64;
use crate::contract::{initialized, Contract, ContractError};
use crate::generator::chacha12_first_word;
use vstd::prelude::*;

verus! {

/// Initialization under context `c` with entropy `e` stores `c` as the
/// context and the big-endian value of the first eight bytes of `e` as the
/// seed.
pub proof fn lemma_initialize_takes_entropy(c: u64, e: Seq<u8>)
    ensures
        initialized(None, c, e).0 == Some(Contract { block_index: c, seed: be_u64(e) as u64 }),
        initialized(None, c, e).1 == Ok::<(), ContractError>(()),
{
}

/// A second initialization of the same instance fails with
/// `AlreadyInitialized` and leaves the state the first one created.
pub proof fn lemma_reinitialize_rejected(c1: u64, e1: Seq<u8>, c2: u64, e2: Seq<u8>)
    ensures
        ({
            let first = initialized(None, c1, e1);
            let second = initialized(first.0, c2, e2);
            &&& second.1 == Err::<(), ContractError>(ContractError::AlreadyInitialized)
            &&& second.0 == first.0
        }),
{
}

/// When the context changes between two calls of `generate`, the second call
/// records the new context and, before the generator step, takes the seed
/// from the new entropy sample.
pub proof fn lemma_context_change_refreshes(
    s: Contract,
    c1: u64,
    e1: Seq<u8>,
    c2: u64,
    e2: Seq<u8>,
)
    requires
        c1 != c2,
    ensures
        ({
            let s1 = s.generated(c1, e1);
            &&& s1.refreshed(c2, e2) == Contract { block_index: c2, seed: be_u64(e2) as u64 }
            &&& s1.generated(c2, e2).block_index == c2
            &&& s1.generated(c2, e2).seed == chacha12_first_word(be_u64(e2) as u64)
        }),
{
}

/// Two calls of `generate` under one context: the second ignores the entropy
/// sample, and its seed is the generator's word drawn from the seed the first
/// call left.
pub proof fn lemma_same_context_advances(
    s: Contract,
    c: u64,
    e1: Seq<u8>,
    e2: Seq<u8>,
    e3: Seq<u8>,
)
    ensures
        ({
            let s1 = s.generated(c, e1);
            &&& s1.refreshed(c, e2) == s1
            &&& s1.generated(c, e2) == s1.generated(c, e3)
            &&& s1.generated(c, e2) == Contract {
                block_index: c,
                seed: chacha12_first_word(s1.seed),
            }
        }),
{
}

} // verus!
