//! What holds of calls on time and on the forks of a chain.

use vstd::prelude::*;
use vstd::std_specs::cmp::PartialEqSpec;

use crate::chain_spec::{ChainSpec, Domain, EthSpec, Fork, ForkName, SigningContext};
use crate::laws::plain::{commits_to, has_started, is_fork_of_last_upgrade, lies_in};
use crate::primitives::{bytes_equal, epoch_of, Epoch, PublicKeyBytes, Slot};
use crate::store::{StoreView, ValidatorStore};

verus! {

/// A slot lies in the epoch that it is divided into, and in no other.
pub proof fn lemma_epoch_holds_slot(slot: Slot, epoch: Epoch, slots_per_epoch: u64)
    requires
        slots_per_epoch > 0,
    ensures
        lies_in(slot, epoch, slots_per_epoch) <==> epoch == epoch_of(slot, slots_per_epoch),
{
    let s = slot.0 as int;
    let n = slots_per_epoch as int;
    let e = epoch.0 as int;
    assert(s / n == e <==> e * n <= s < (e + 1) * n) by (nonlinear_arith)
        requires
            n > 0,
            s >= 0,
            e >= 0,
    ;
    assert(epoch_of(slot, slots_per_epoch).0 == s / n);
}

/// A slot lies in its epoch, and in no other.
pub proof fn law_slot_lies_in_its_epoch(slot: Slot, slots_per_epoch: u64, epoch: Epoch, other: Epoch)
    requires
        slots_per_epoch > 0,
        call_ensures(Slot::epoch, (slot, slots_per_epoch), epoch),
    ensures
        lies_in(slot, epoch, slots_per_epoch),
        lies_in(slot, other, slots_per_epoch) ==> other == epoch,
{
    lemma_epoch_holds_slot(slot, epoch, slots_per_epoch);
    lemma_epoch_holds_slot(slot, other, slots_per_epoch);
}

/// An epoch starts at the first of its slots: that one lies in it, and none before it does. Where an
/// epoch has no slot that fits, the last slot there is stands for it.
pub proof fn law_epoch_starts_at_its_first_slot(
    epoch: Epoch,
    slots_per_epoch: u64,
    first: Slot,
    slot: Slot,
)
    requires
        slots_per_epoch > 0,
        call_ensures(Epoch::start_slot, (epoch, slots_per_epoch), first),
    ensures
        epoch.0 * slots_per_epoch <= u64::MAX ==> first.0 == epoch.0 * slots_per_epoch && lies_in(
            first,
            epoch,
            slots_per_epoch,
        ),
        epoch.0 * slots_per_epoch > u64::MAX ==> first.0 == u64::MAX,
        lies_in(slot, epoch, slots_per_epoch) ==> first.0 <= slot.0,
{
    let n = slots_per_epoch as int;
    let e = epoch.0 as int;
    assert(e * n < (e + 1) * n) by (nonlinear_arith)
        requires
            n > 0,
    ;
}

/// An epoch that many before another is found by going back, and no further than to the first.
pub proof fn law_going_back_stops_at_genesis(epoch: Epoch, epochs: u64, earlier: Epoch)
    requires
        call_ensures(Epoch::saturating_sub, (epoch, epochs), earlier),
    ensures
        epoch.0 >= epochs ==> earlier.0 + epochs == epoch.0,
        epoch.0 < epochs ==> earlier.0 == 0,
{
}

/// Epochs have as many slots as they were made with.
pub proof fn law_epochs_have_their_slots(slots_per_epoch: u64, eth_spec: EthSpec, slots: u64)
    requires
        slots_per_epoch > 0,
        call_ensures(EthSpec::new, (slots_per_epoch,), eth_spec),
        call_ensures(EthSpec::slots_per_epoch, (&eth_spec,), slots),
    ensures
        slots == slots_per_epoch,
{
}

/// Two byte arrays are the same exactly if they agree everywhere, and two keys exactly if their
/// bytes are the same.
pub proof fn law_bytes_are_compared_everywhere<const N: usize>(
    a: [u8; N],
    b: [u8; N],
    same: bool,
    k: PublicKeyBytes,
    l: PublicKeyBytes,
)
    requires
        call_ensures(bytes_equal::<N>, (&a, &b), same),
    ensures
        same <==> forall|i: int| 0 <= i < N ==> #[trigger] a[i] == b[i],
        k.eq_spec(&l) <==> k == l,
{
    if forall|i: int| 0 <= i < N ==> #[trigger] a[i] == b[i] {
        assert(a =~= b);
    }
}

/// The last upgrade that has started is the active one, by the epochs of the spec.
pub proof fn law_active_upgrade_by_fields(spec: ChainSpec, epoch: Epoch, name: ForkName)
    requires
        call_ensures(ChainSpec::fork_name_at_epoch, (&spec, epoch), name),
    ensures
        name is Deneb <==> has_started(spec.deneb_fork_epoch, epoch),
        name is Capella <==> has_started(spec.capella_fork_epoch, epoch) && !has_started(
            spec.deneb_fork_epoch,
            epoch,
        ),
        name is Merge <==> has_started(spec.bellatrix_fork_epoch, epoch) && !has_started(
            spec.capella_fork_epoch,
            epoch,
        ) && !has_started(spec.deneb_fork_epoch, epoch),
        name is Altair <==> has_started(spec.altair_fork_epoch, epoch) && !has_started(
            spec.bellatrix_fork_epoch,
            epoch,
        ) && !has_started(spec.capella_fork_epoch, epoch) && !has_started(
            spec.deneb_fork_epoch,
            epoch,
        ),
{
}

/// Each upgrade has the version and the first epoch that the spec gives it, and comes after the one
/// before it.
pub proof fn law_upgrades_by_fields(
    spec: ChainSpec,
    name: ForkName,
    version: [u8; 4],
    start: Option<Epoch>,
    previous: Option<ForkName>,
)
    requires
        call_ensures(ChainSpec::fork_version_for_name, (&spec, name), version),
        call_ensures(ChainSpec::fork_epoch, (&spec, name), start),
        call_ensures(ForkName::previous_fork, (name,), previous),
    ensures
        name is Base ==> version == spec.genesis_fork_version && start == Some(Epoch(0))
            && previous is None,
        name is Altair ==> version == spec.altair_fork_version && start == spec.altair_fork_epoch
            && previous == Some(ForkName::Base),
        name is Merge ==> version == spec.bellatrix_fork_version && start
            == spec.bellatrix_fork_epoch && previous == Some(ForkName::Altair),
        name is Capella ==> version == spec.capella_fork_version && start
            == spec.capella_fork_epoch && previous == Some(ForkName::Merge),
        name is Deneb ==> version == spec.deneb_fork_version && start == spec.deneb_fork_epoch
            && previous == Some(ForkName::Capella),
{
}

/// The fork at an epoch is that of the last upgrade that has started, by the versions and epochs of
/// the spec. A store gives the fork of its chain.
pub proof fn law_fork_is_of_last_upgrade(
    spec: ChainSpec,
    epoch: Epoch,
    fork: Fork,
    store: ValidatorStore,
    of_store: Fork,
)
    requires
        call_ensures(ChainSpec::fork_at_epoch, (&spec, epoch), fork),
        call_ensures(ValidatorStore::fork, (&store, epoch), of_store),
    ensures
        is_fork_of_last_upgrade(spec, epoch, fork),
        is_fork_of_last_upgrade(store@.spec, epoch, of_store),
{
}

/// What signatures commit to, by the fields of the spec.
pub proof fn lemma_context(store: StoreView, domain: Domain, epoch: Epoch)
    ensures
        commits_to(store, store.context(domain, epoch), domain, epoch),
{
}

/// A signature commits to its domain and epoch, to the chain of the store, and to the fork of the
/// last upgrade that has started; an exit to Capella once Deneb has.
pub proof fn law_context_by_fields(
    store: ValidatorStore,
    domain: Domain,
    epoch: Epoch,
    context: SigningContext,
)
    requires
        call_ensures(ValidatorStore::signing_context, (&store, domain, epoch), context),
    ensures
        commits_to(store@, context, domain, epoch),
{
    lemma_context(store@, domain, epoch);
}

} // verus!
