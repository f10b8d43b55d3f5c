//! Cheat overlays: per kind of cheat, an optional override for every contract
//! and overrides for single contract addresses, which take precedence.

use crate::cheatcodes::spoof::{TxInfoMock, TxInfoView};
use crate::felt::Felt252;
use vstd::prelude::*;
use vstd::seq_lib::seq_to_set_is_finite;

verus! {

/// The address of a contract.
#[derive(Clone, Copy, Debug, PartialEq, Eq, Hash, Structural)]
pub struct ContractAddress(pub Felt252);

/// The contracts that a cheat is started or stopped for.
#[derive(Debug, PartialEq, Eq)]
pub enum CheatTarget {
    /// Every contract. A value set for all contracts is the fallback of the
    /// contracts that have no value of their own.
    All,
    /// One contract.
    One(ContractAddress),
    /// The listed contracts. The list may be empty.
    Multiple(Vec<ContractAddress>),
}

impl CheatTarget {
    /// Whether the target names `address`.
    pub open spec fn covers(self, address: ContractAddress) -> bool {
        match self {
            CheatTarget::All => true,
            CheatTarget::One(one) => one == address,
            CheatTarget::Multiple(addresses) => addresses@.contains(address),
        }
    }
}

/// A value that a cheat can substitute. Starting a cheat for several
/// contracts stores one copy of the value per contract.
pub trait CheatValue: View + Sized {
    /// A copy of the value.
    fn duplicate(&self) -> (copy: Self)
        ensures
            copy@ == self@,
    ;
}

/// A field element is the value of cheats such as a timestamp, a block
/// number or a caller address.
impl CheatValue for Felt252 {
    fn duplicate(&self) -> (copy: Self) {
        *self
    }
}

/// What an overlay store holds: the override for all contracts, if any, and
/// the overrides of single addresses.
#[verifier::ext_equal]
pub struct Overlay<T> {
    pub global: Option<T>,
    pub by_address: Map<ContractAddress, T>,
}

impl<T> Overlay<T> {
    /// The overlay without any override.
    pub open spec fn empty() -> Overlay<T> {
        Overlay { global: None, by_address: Map::empty() }
    }

    /// The override in force at `address`: the address's own, else the one
    /// for all contracts, else none.
    pub open spec fn effective(self, address: ContractAddress) -> Option<T> {
        if self.by_address.contains_key(address) {
            Some(self.by_address[address])
        } else {
            self.global
        }
    }

    /// The overlay after `value` became the override of each of `addresses`.
    pub open spec fn assign_all(self, addresses: Set<ContractAddress>, value: T) -> Overlay<T> {
        Overlay {
            global: self.global,
            by_address: Map::new(
                |a: ContractAddress| addresses.contains(a) || self.by_address.contains_key(a),
                |a: ContractAddress|
                    if addresses.contains(a) {
                        value
                    } else {
                        self.by_address[a]
                    },
            ),
        }
    }

    /// The overlay after a cheat with `value` was started for `target`.
    /// Starting it for all contracts leaves the overrides of single addresses
    /// in place.
    pub open spec fn start(self, target: CheatTarget, value: T) -> Overlay<T> {
        match target {
            CheatTarget::All => Overlay { global: Some(value), by_address: self.by_address },
            CheatTarget::One(address) => Overlay {
                global: self.global,
                by_address: self.by_address.insert(address, value),
            },
            CheatTarget::Multiple(addresses) => self.assign_all(addresses@.to_set(), value),
        }
    }

    /// The overlay after the cheat was stopped for `target`. Stopping it for
    /// all contracts removes every override; stopping it for named contracts
    /// removes only their own.
    pub open spec fn stop(self, target: CheatTarget) -> Overlay<T> {
        match target {
            CheatTarget::All => Overlay::empty(),
            CheatTarget::One(address) => Overlay {
                global: self.global,
                by_address: self.by_address.remove(address),
            },
            CheatTarget::Multiple(addresses) => Overlay {
                global: self.global,
                by_address: self.by_address.remove_keys(addresses@.to_set()),
            },
        }
    }
}

/// Whether no address occurs twice among the entries.
spec fn distinct<V>(entries: Seq<(ContractAddress, V)>) -> bool {
    forall|i: int, j: int|
        0 <= i < j < entries.len() ==> (#[trigger] entries[i]).0 != (#[trigger] entries[j]).0
}

/// Whether an entry for `address` is among the entries.
spec fn holds<V>(entries: Seq<(ContractAddress, V)>, address: ContractAddress) -> bool {
    exists|i: int| 0 <= i < entries.len() && (#[trigger] entries[i]).0 == address
}

/// The place of an entry for `address`.
spec fn position<V>(entries: Seq<(ContractAddress, V)>, address: ContractAddress) -> int {
    choose|i: int| 0 <= i < entries.len() && (#[trigger] entries[i]).0 == address
}

/// The map from each address among the entries to the value stored with it.
spec fn entries_map<V: View>(entries: Seq<(ContractAddress, V)>) -> Map<
    ContractAddress,
    V::V,
> {
    Map::new(
        |a: ContractAddress| holds(entries, a),
        |a: ContractAddress| entries[position(entries, a)].1@,
    )
}

/// The place of the entry for `address`, if there is one.
fn find<V>(entries: &Vec<(ContractAddress, V)>, address: ContractAddress) -> (found: Option<usize>)
    ensures
        found matches Some(i) ==> i < entries.len() && entries[i as int].0 == address,
        found is None ==> !holds(entries@, address),
{
    let mut i: usize = 0;
    while i < entries.len()
        invariant
            i <= entries.len(),
            forall|k: int| 0 <= k < i ==> (#[trigger] entries[k]).0 != address,
        decreases entries.len() - i,
    {
        if entries[i].0 == address {
            return Some(i);
        }
        i += 1;
    }
    None
}

/// Stores `value` for `address`, in place of an earlier value for it.
fn assign<V: View>(entries: &mut Vec<(ContractAddress, V)>, address: ContractAddress, value: V)
    requires
        distinct(old(entries)@),
    ensures
        distinct(final(entries)@),
        entries_map(final(entries)@) == entries_map(old(entries)@).insert(address, value@),
{
    let ghost before = entries@;
    match find(entries, address) {
        Some(i) => {
            entries.set(i, (address, value));
            proof {
                let after = entries@;
                assert forall|a: ContractAddress| holds(after, a) <==> (a == address || holds(
                    before,
                    a,
                )) by {
                    if holds(after, a) {
                        let k = position(after, a);
                        assert(k == i || before[k].0 == a);
                    }
                    if holds(before, a) {
                        let k = position(before, a);
                        assert(after[k].0 == a);
                    }
                    assert(after[i as int].0 == address);
                }
                assert forall|a: ContractAddress| holds(after, a) implies entries_map(after)[a]
                    == entries_map(before).insert(address, value@)[a] by {
                    let k = position(after, a);
                    if a != address {
                        assert(before[k].0 == a);
                        let m = position(before, a);
                        assert(m == k);
                    } else {
                        assert(after[i as int].0 == address);
                        assert(k == i);
                    }
                }
                assert(entries_map(after) =~= entries_map(before).insert(address, value@));
            }
        },
        None => {
            entries.push((address, value));
            proof {
                let after = entries@;
                let last = before.len() as int;
                assert(after[last].0 == address);
                assert forall|a: ContractAddress| holds(after, a) <==> (a == address || holds(
                    before,
                    a,
                )) by {
                    if holds(after, a) {
                        let k = position(after, a);
                        assert(k == last || before[k].0 == a);
                    }
                    if holds(before, a) {
                        let k = position(before, a);
                        assert(after[k].0 == a);
                    }
                }
                assert forall|a: ContractAddress| holds(after, a) implies entries_map(after)[a]
                    == entries_map(before).insert(address, value@)[a] by {
                    let k = position(after, a);
                    if a != address {
                        assert(before[k].0 == a);
                        let m = position(before, a);
                        assert(m == k);
                    } else {
                        if k != last {
                            assert(before[k].0 == address);
                        }
                    }
                }
                assert(entries_map(after) =~= entries_map(before).insert(address, value@));
            }
        },
    }
}

/// Removes the entry for `address`, if there is one.
fn unassign<V: View>(entries: &mut Vec<(ContractAddress, V)>, address: ContractAddress)
    requires
        distinct(old(entries)@),
    ensures
        distinct(final(entries)@),
        entries_map(final(entries)@) == entries_map(old(entries)@).remove(address),
{
    let ghost before = entries@;
    match find(entries, address) {
        Some(i) => {
            let _ = entries.remove(i);
            proof {
                let after = entries@;
                assert forall|k: int| 0 <= k < after.len() implies #[trigger] after[k] == before[if k
                    < i {
                    k
                } else {
                    k + 1
                }] by {}
                assert forall|a: ContractAddress| holds(after, a) <==> (a != address && holds(
                    before,
                    a,
                )) by {
                    if holds(after, a) {
                        let k = position(after, a);
                        let m = if k < i {
                            k
                        } else {
                            k + 1
                        };
                        assert(before[m].0 == a);
                    }
                    if holds(before, a) && a != address {
                        let m = position(before, a);
                        let k = if m < i {
                            m
                        } else {
                            m - 1
                        };
                        assert(after[k].0 == a);
                    }
                }
                assert forall|a: ContractAddress| holds(after, a) implies entries_map(after)[a]
                    == entries_map(before)[a] by {
                    let k = position(after, a);
                    let m = if k < i {
                        k
                    } else {
                        k + 1
                    };
                    assert(before[m].0 == a);
                    assert(position(before, a) == m);
                }
                assert(entries_map(after) =~= entries_map(before).remove(address));
            }
        },
        None => {
            proof {
                assert(entries_map(before) =~= entries_map(before).remove(address));
            }
        },
    }
}

/// The overrides of one kind of cheat.
pub struct OverlayStore<V> {
    global: Option<V>,
    entries: Vec<(ContractAddress, V)>,
}

/// The value that an optional cheat value stands for.
pub open spec fn value_of<V: View>(value: Option<V>) -> Option<V::V> {
    match value {
        Some(v) => Some(v@),
        None => None,
    }
}

impl<V: View> View for OverlayStore<V> {
    type V = Overlay<V::V>;

    closed spec fn view(&self) -> Overlay<V::V> {
        Overlay { global: value_of(self.global), by_address: entries_map(self.entries@) }
    }
}

impl<V> OverlayStore<V> {
    #[verifier::type_invariant]
    closed spec fn well_formed(self) -> bool {
        distinct(self.entries@)
    }
}

impl<V: View> OverlayStore<V> {
    /// A store without any override.
    pub fn new() -> (store: Self)
        ensures
            store@ == Overlay::<V::V>::empty(),
    {
        let store = OverlayStore { global: None, entries: Vec::new() };
        assert(store@.by_address =~= Map::empty());
        store
    }

    /// The override in force at `address`: the address's own, else the one
    /// for all contracts, else none.
    pub fn effective(&self, address: ContractAddress) -> (value: Option<&V>)
        ensures
            value_of(value) == self@.effective(address),
    {
        proof {
            use_type_invariant(&*self);
        }
        match find(&self.entries, address) {
            Some(i) => {
                assert(self.entries@[i as int].0 == address);
                assert(position(self.entries@, address) == i);
                Some(&self.entries[i].1)
            },
            None => self.global.as_ref(),
        }
    }

    /// Makes `value` the override for all contracts.
    pub fn set_global(&mut self, value: V)
        ensures
            final(self)@ == (Overlay { global: Some(value@), by_address: old(self)@.by_address }),
    {
        proof {
            use_type_invariant(&*self);
        }
        self.global = Some(value);
    }

    /// Makes `value` the override of `address`.
    pub fn set(&mut self, address: ContractAddress, value: V)
        ensures
            final(self)@ == (Overlay {
                global: old(self)@.global,
                by_address: old(self)@.by_address.insert(address, value@),
            }),
    {
        proof {
            use_type_invariant(&*self);
        }
        let mut entries: Vec<(ContractAddress, V)> = Vec::new();
        std::mem::swap(&mut entries, &mut self.entries);
        assign(&mut entries, address, value);
        self.entries = entries;
    }

    /// Removes the override of `address`, if it has one.
    pub fn remove(&mut self, address: ContractAddress)
        ensures
            final(self)@ == (Overlay {
                global: old(self)@.global,
                by_address: old(self)@.by_address.remove(address),
            }),
    {
        proof {
            use_type_invariant(&*self);
        }
        let mut entries: Vec<(ContractAddress, V)> = Vec::new();
        std::mem::swap(&mut entries, &mut self.entries);
        unassign(&mut entries, address);
        self.entries = entries;
    }

    /// Only finitely many addresses have an override of their own, so they
    /// can be counted.
    pub proof fn lemma_overrides_finite(&self)
        ensures
            self@.by_address.dom().finite(),
    {
        let entries = self.entries@;
        let addresses = Seq::new(entries.len(), |i: int| entries[i].0);
        assert forall|a: ContractAddress|
            self@.by_address.dom().contains(a) <==> addresses.to_set().contains(a) by {
            if holds(entries, a) {
                let i = position(entries, a);
                assert(addresses[i] == a);
            }
            if addresses.contains(a) {
                let i = choose|i: int| 0 <= i < addresses.len() && addresses[i] == a;
                assert(entries[i].0 == a);
            }
        }
        assert(self@.by_address.dom() =~= addresses.to_set());
        seq_to_set_is_finite(addresses);
    }

    /// Removes every override.
    pub fn clear(&mut self)
        ensures
            final(self)@ == Overlay::<V::V>::empty(),
    {
        self.entries = Vec::new();
        self.global = None;
        assert(self@.by_address =~= Map::empty());
    }
}

/// The cheats of one test. A test has a state of its own, which is handed
/// to each call that reads or changes a cheat.
pub struct CheatnetState {
    /// The substituted fields of the transaction info.
    pub spoof: OverlayStore<TxInfoMock>,
}

impl CheatnetState {
    /// The state of a test that has started no cheat.
    pub fn new() -> (state: CheatnetState)
        ensures
            state.spoof@ == Overlay::<TxInfoView>::empty(),
    {
        CheatnetState { spoof: OverlayStore::new() }
    }
}

/// The addresses among the first `n` of a list.
spec fn named(addresses: Seq<ContractAddress>, n: int) -> Set<ContractAddress> {
    addresses.take(n).to_set()
}

proof fn lemma_named_step(addresses: Seq<ContractAddress>, n: int)
    requires
        0 <= n < addresses.len(),
    ensures
        named(addresses, n + 1) == named(addresses, n).insert(addresses[n]),
{
    let shorter = addresses.take(n);
    let longer = addresses.take(n + 1);
    assert forall|a: ContractAddress| longer.contains(a) <==> (shorter.contains(a) || a
        == addresses[n]) by {
        if longer.contains(a) {
            let k = choose|k: int| 0 <= k < longer.len() && longer[k] == a;
            if k < n {
                assert(shorter[k] == a);
            }
        }
        if shorter.contains(a) {
            let k = choose|k: int| 0 <= k < shorter.len() && shorter[k] == a;
            assert(longer[k] == a);
        }
        assert(longer[n] == addresses[n]);
    }
    assert(named(addresses, n + 1) =~= named(addresses, n).insert(addresses[n]));
}

/// Starts a cheat: makes `value` the override of the contracts that `target`
/// names. For all contracts it becomes the fallback, and the overrides of
/// single addresses stay in place and keep their precedence.
pub fn start_cheat<V: CheatValue>(store: &mut OverlayStore<V>, target: CheatTarget, value: V)
    ensures
        final(store)@ == old(store)@.start(target, value@),
{
    match target {
        CheatTarget::All => {
            store.set_global(value);
        },
        CheatTarget::One(address) => {
            store.set(address, value);
        },
        CheatTarget::Multiple(addresses) => {
            let mut i: usize = 0;
            proof {
                assert(named(addresses@, 0) =~= Set::<ContractAddress>::empty());
                assert(store@ =~= old(store)@.assign_all(named(addresses@, 0), value@));
            }
            while i < addresses.len()
                invariant
                    i <= addresses.len(),
                    store@ == old(store)@.assign_all(named(addresses@, i as int), value@),
                decreases addresses.len() - i,
            {
                proof {
                    lemma_named_step(addresses@, i as int);
                }
                store.set(addresses[i], value.duplicate());
                assert(store@ =~= old(store)@.assign_all(
                    named(addresses@, i as int + 1),
                    value@,
                ));
                i += 1;
            }
            proof {
                assert(addresses@.take(addresses@.len() as int) =~= addresses@);
            }
        },
    }
}

/// Stops a cheat. For all contracts this removes every override, those of
/// single addresses too; for named contracts it removes their own overrides
/// and leaves the one for all contracts in place. Stopping a cheat that is
/// not active changes nothing.
pub fn stop_cheat<V: View>(store: &mut OverlayStore<V>, target: CheatTarget)
    ensures
        final(store)@ == old(store)@.stop(target),
{
    match target {
        CheatTarget::All => {
            store.clear();
        },
        CheatTarget::One(address) => {
            store.remove(address);
        },
        CheatTarget::Multiple(addresses) => {
            let mut i: usize = 0;
            proof {
                assert(named(addresses@, 0) =~= Set::<ContractAddress>::empty());
                assert(store@.by_address =~= old(store)@.by_address.remove_keys(
                    named(addresses@, 0),
                ));
            }
            while i < addresses.len()
                invariant
                    i <= addresses.len(),
                    store@.global == old(store)@.global,
                    store@.by_address == old(store)@.by_address.remove_keys(
                        named(addresses@, i as int),
                    ),
                decreases addresses.len() - i,
            {
                proof {
                    lemma_named_step(addresses@, i as int);
                }
                store.remove(addresses[i]);
                assert(store@.by_address =~= old(store)@.by_address.remove_keys(
                    named(addresses@, i as int + 1),
                ));
                i += 1;
            }
            proof {
                assert(addresses@.take(addresses@.len() as int) =~= addresses@);
            }
        },
    }
}

/// A cheat that is started or stopped for an empty list of contracts changes
/// nothing.
pub proof fn lemma_empty_target_changes_nothing<T>(
    overlay: Overlay<T>,
    addresses: Vec<ContractAddress>,
    value: T,
)
    requires
        addresses@.len() == 0,
    ensures
        overlay.start(CheatTarget::Multiple(addresses), value) == overlay,
        overlay.stop(CheatTarget::Multiple(addresses)) == overlay,
{
    assert(addresses@.to_set() =~= Set::<ContractAddress>::empty());
    assert(overlay.start(CheatTarget::Multiple(addresses), value) =~= overlay);
    assert(overlay.stop(CheatTarget::Multiple(addresses)) =~= overlay);
}

/// After a cheat was started, each contract that the target names has the
/// new value in force, and every other contract has what it had before. The
/// one exception is a start for all contracts: a contract with an override
/// of its own keeps it.
pub proof fn lemma_start_reaches_target<T>(
    overlay: Overlay<T>,
    target: CheatTarget,
    value: T,
    address: ContractAddress,
)
    requires
        !(target is All && overlay.by_address.contains_key(address)),
    ensures
        target.covers(address) ==> overlay.start(target, value).effective(address) == Some(value),
        !target.covers(address) ==> overlay.start(target, value).effective(address)
            == overlay.effective(address),
{
}

/// A start for all contracts changes nothing at a contract that has an
/// override of its own.
pub proof fn lemma_start_for_all_keeps_own<T>(
    overlay: Overlay<T>,
    value: T,
    address: ContractAddress,
)
    requires
        overlay.by_address.contains_key(address),
    ensures
        overlay.start(CheatTarget::All, value).effective(address) == overlay.effective(address),
{
}

/// The override of a single address takes precedence over the one for all
/// contracts.
pub proof fn lemma_own_override_wins<T>(overlay: Overlay<T>, address: ContractAddress)
    requires
        overlay.by_address.contains_key(address),
    ensures
        overlay.effective(address) == Some(overlay.by_address[address]),
{
}

/// After a stop for all contracts no contract has an override, whatever it
/// had before.
pub proof fn lemma_stop_for_all_clears<T>(overlay: Overlay<T>, address: ContractAddress)
    ensures
        overlay.stop(CheatTarget::All).effective(address) is None,
{
}

/// A stop for one contract removes that contract's own override and nothing
/// else: the contract then has the override for all contracts, if there is
/// one, and every other contract has what it had before.
pub proof fn lemma_stop_for_one_removes_own<T>(
    overlay: Overlay<T>,
    address: ContractAddress,
    other: ContractAddress,
)
    ensures
        overlay.stop(CheatTarget::One(address)).global == overlay.global,
        overlay.stop(CheatTarget::One(address)).by_address == overlay.by_address.remove(address),
        overlay.stop(CheatTarget::One(address)).effective(address) == overlay.global,
        other != address ==> overlay.stop(CheatTarget::One(address)).effective(other)
            == overlay.effective(other),
{
}

/// A stop for one contract takes one from the number of contracts with an
/// override of their own if the contract had one, and leaves the number as it
/// was if not.
pub proof fn lemma_stop_for_one_count<T>(overlay: Overlay<T>, address: ContractAddress)
    requires
        overlay.by_address.dom().finite(),
    ensures
        overlay.stop(CheatTarget::One(address)).by_address.dom().finite(),
        overlay.by_address.contains_key(address) ==> overlay.stop(
            CheatTarget::One(address),
        ).by_address.dom().len() == overlay.by_address.dom().len() - 1,
        !overlay.by_address.contains_key(address) ==> overlay.stop(
            CheatTarget::One(address),
        ).by_address.dom().len() == overlay.by_address.dom().len(),
{
    assert(overlay.by_address.remove(address).dom() =~= overlay.by_address.dom().remove(address));
}

/// Starting and stopping a cheat keep the contracts with an override of
/// their own finitely many.
pub proof fn lemma_start_and_stop_keep_finite<T>(overlay: Overlay<T>, target: CheatTarget, value: T)
    requires
        overlay.by_address.dom().finite(),
    ensures
        overlay.start(target, value).by_address.dom().finite(),
        overlay.stop(target).by_address.dom().finite(),
{
    match target {
        CheatTarget::All => {
            assert(overlay.stop(target).by_address.dom() =~= Set::<ContractAddress>::empty());
        },
        CheatTarget::One(address) => {
            assert(overlay.start(target, value).by_address.dom() =~= overlay.by_address.dom().insert(
                address,
            ));
            assert(overlay.stop(target).by_address.dom() =~= overlay.by_address.dom().remove(
                address,
            ));
        },
        CheatTarget::Multiple(addresses) => {
            seq_to_set_is_finite(addresses@);
            assert(overlay.start(target, value).by_address.dom() =~= overlay.by_address.dom().union(
                addresses@.to_set(),
            ));
            assert(overlay.stop(target).by_address.dom() =~= overlay.by_address.dom().difference(
                addresses@.to_set(),
            ));
        },
    }
}

} // verus!
