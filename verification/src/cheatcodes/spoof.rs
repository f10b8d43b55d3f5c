//! The cheat that substitutes fields of the transaction info.

use crate::felt::Felt252;
use crate::state::{start_cheat, stop_cheat, CheatTarget, CheatValue, CheatnetState};
use vstd::prelude::*;

verus! {

/// The fields of the transaction info that a contract is to see in place of
/// the real ones. A field that is `None` is not substituted: the contract
/// sees the real value.
#[derive(Debug, PartialEq, Eq)]
pub struct TxInfoMock {
    pub version: Option<Felt252>,
    pub account_contract_address: Option<Felt252>,
    pub max_fee: Option<Felt252>,
    pub signature: Option<Vec<Felt252>>,
    pub transaction_hash: Option<Felt252>,
    pub chain_id: Option<Felt252>,
    pub nonce: Option<Felt252>,
}

/// What a `TxInfoMock` stands for.
pub struct TxInfoView {
    pub version: Option<Felt252>,
    pub account_contract_address: Option<Felt252>,
    pub max_fee: Option<Felt252>,
    pub signature: Option<Seq<Felt252>>,
    pub transaction_hash: Option<Felt252>,
    pub chain_id: Option<Felt252>,
    pub nonce: Option<Felt252>,
}

/// The elements of an optional signature.
pub open spec fn signature_view(signature: Option<Vec<Felt252>>) -> Option<Seq<Felt252>> {
    match signature {
        Some(elements) => Some(elements@),
        None => None,
    }
}

impl View for TxInfoMock {
    type V = TxInfoView;

    open spec fn view(&self) -> TxInfoView {
        TxInfoView {
            version: self.version,
            account_contract_address: self.account_contract_address,
            max_fee: self.max_fee,
            signature: signature_view(self.signature),
            transaction_hash: self.transaction_hash,
            chain_id: self.chain_id,
            nonce: self.nonce,
        }
    }
}

/// A copy of a signature.
fn copy_signature(signature: &Option<Vec<Felt252>>) -> (copy: Option<Vec<Felt252>>)
    ensures
        signature_view(copy) == signature_view(*signature),
{
    match signature {
        Some(elements) => {
            let mut copied: Vec<Felt252> = Vec::new();
            let mut i: usize = 0;
            while i < elements.len()
                invariant
                    i <= elements.len(),
                    copied@ == elements@.take(i as int),
                decreases elements.len() - i,
            {
                copied.push(elements[i]);
                assert(copied@ =~= elements@.take(i as int + 1));
                i += 1;
            }
            assert(copied@ =~= elements@);
            Some(copied)
        },
        None => None,
    }
}

impl CheatValue for TxInfoMock {
    fn duplicate(&self) -> (copy: Self) {
        TxInfoMock {
            version: self.version,
            account_contract_address: self.account_contract_address,
            max_fee: self.max_fee,
            signature: copy_signature(&self.signature),
            transaction_hash: self.transaction_hash,
            chain_id: self.chain_id,
            nonce: self.nonce,
        }
    }
}

impl Clone for TxInfoMock {
    fn clone(&self) -> (copy: Self)
        ensures
            copy@ == self@,
    {
        self.duplicate()
    }
}

impl CheatnetState {
    /// Starts to substitute the given fields of the transaction info for the
    /// contracts that `target` names.
    pub fn start_spoof(
        &mut self,
        target: CheatTarget,
        version: Option<Felt252>,
        account_contract_address: Option<Felt252>,
        max_fee: Option<Felt252>,
        signature: Option<Vec<Felt252>>,
        transaction_hash: Option<Felt252>,
        chain_id: Option<Felt252>,
        nonce: Option<Felt252>,
    )
        ensures
            final(self).spoof@ == old(self).spoof@.start(
                target,
                TxInfoView {
                    version,
                    account_contract_address,
                    max_fee,
                    signature: signature_view(signature),
                    transaction_hash,
                    chain_id,
                    nonce,
                },
            ),
    {
        let tx_info = TxInfoMock {
            version,
            account_contract_address,
            max_fee,
            signature,
            transaction_hash,
            chain_id,
            nonce,
        };
        start_cheat(&mut self.spoof, target, tx_info);
    }

    /// Stops the substitution for the contracts that `target` names.
    pub fn stop_spoof(&mut self, target: CheatTarget)
        ensures
            final(self).spoof@ == old(self).spoof@.stop(target),
    {
        stop_cheat(&mut self.spoof, target);
    }
}

} // verus!
