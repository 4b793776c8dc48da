//! The persisted state and its two operations, initialization and generation.

use crate::bytes::{be_u64, u64_from_be_prefix};
use crate::generator::{chacha12_first_word, chacha12_next};
use vstd::prelude::*;

verus! {

/// Why initialization was refused.
#[derive(Debug, Clone, Copy, PartialEq, Eq, Structural)]
pub enum ContractError {
    /// The instance already holds state.
    AlreadyInitialized,
}

/// The persisted state: the context in which the seed was last taken from
/// entropy, and the generator's current seed.
#[derive(Debug, Clone, Copy, PartialEq, Eq, Structural)]
pub struct Contract {
    /// The execution context (block height) of the last refresh.
    pub block_index: u64,
    /// The current seed; after a call of `generate`, the value it returned.
    pub seed: u64,
}

impl Contract {
    /// The state created under context `c` with entropy sample `e`: the seed
    /// is the big-endian value of the sample's first eight bytes.
    pub open spec fn initial(c: u64, e: Seq<u8>) -> Contract {
        Contract { block_index: c, seed: be_u64(e) as u64 }
    }

    /// The state once the refresh step has seen context `c`: taken anew from
    /// entropy `e` when `c` differs from the stored context, else unchanged.
    pub open spec fn refreshed(self, c: u64, e: Seq<u8>) -> Contract {
        if c != self.block_index {
            Contract::initial(c, e)
        } else {
            self
        }
    }

    /// The state after one `generate` under context `c` with entropy `e`:
    /// the refreshed seed run once through the ChaCha12 generator.
    pub open spec fn generated(self, c: u64, e: Seq<u8>) -> Contract {
        let s = self.refreshed(c, e);
        Contract { block_index: s.block_index, seed: chacha12_first_word(s.seed) }
    }

    /// What `new` returns: an error where state already exists, else the
    /// initial state.
    pub open spec fn init_result(state_exists: bool, c: u64, e: Seq<u8>) -> Result<
        Contract,
        ContractError,
    > {
        if state_exists {
            Err(ContractError::AlreadyInitialized)
        } else {
            Ok(Contract::initial(c, e))
        }
    }

    /// Creates the state for context `context_id` from the entropy sample,
    /// unless the instance already holds state.
    pub fn new(state_exists: bool, context_id: u64, entropy: &[u8]) -> (r: Result<
        Contract,
        ContractError,
    >)
        requires
            !state_exists ==> entropy@.len() >= 8,
        ensures
            r == Contract::init_result(state_exists, context_id, entropy@),
    {
        if state_exists {
            Err(ContractError::AlreadyInitialized)
        } else {
            Ok(Contract { block_index: context_id, seed: u64_from_be_prefix(entropy) })
        }
    }

    /// The refresh step of `generate`: on a context other than the stored one,
    /// records it and takes the seed from the entropy sample.
    pub fn refresh(&mut self, context_id: u64, entropy: &[u8])
        requires
            context_id != old(self).block_index ==> entropy@.len() >= 8,
        ensures
            *final(self) == old(self).refreshed(context_id, entropy@),
    {
        if context_id != self.block_index {
            self.block_index = context_id;
            self.seed = u64_from_be_prefix(entropy);
        }
    }

    /// Produces the next pseudo-random value under context `context_id`:
    /// refreshes the seed if the context changed, replaces it by the first
    /// ChaCha12 word drawn from it, and returns that word.
    pub fn generate(&mut self, context_id: u64, entropy: &[u8]) -> (r: u64)
        requires
            context_id != old(self).block_index ==> entropy@.len() >= 8,
        ensures
            *final(self) == old(self).generated(context_id, entropy@),
            r == final(self).seed,
            final(self).block_index == context_id,
    {
        self.refresh(context_id, entropy);
        self.seed = chacha12_next(self.seed);
        self.seed
    }
}

/// What `initialize` leaves in the slot, and what it returns.
pub open spec fn initialized(slot: Option<Contract>, c: u64, e: Seq<u8>) -> (
    Option<Contract>,
    Result<(), ContractError>,
) {
    match slot {
        Some(s) => (Some(s), Err(ContractError::AlreadyInitialized)),
        None => (Some(Contract::initial(c, e)), Ok(())),
    }
}

/// Initializes the persisted state held in `slot`. Where it already holds
/// state, fails with `AlreadyInitialized` and leaves it as it was.
pub fn initialize(slot: &mut Option<Contract>, context_id: u64, entropy: &[u8]) -> (r: Result<
    (),
    ContractError,
>)
    requires
        old(slot).is_none() ==> entropy@.len() >= 8,
    ensures
        (*final(slot), r) == initialized(*old(slot), context_id, entropy@),
{
    match Contract::new(slot.is_some(), context_id, entropy) {
        Ok(c) => {
            *slot = Some(c);
            Ok(())
        },
        Err(e) => Err(e),
    }
}

} // verus!
