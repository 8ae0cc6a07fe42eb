//! What holds of forks and of what signatures commit to.

use vstd::prelude::*;

use crate::chain_spec::{ChainSpec, Domain, ForkName};
use crate::primitives::Epoch;
use crate::store::StoreView;

verus! {

/// The active upgrade has started, and no later one has.
pub proof fn law_active_fork_is_last_started(spec: ChainSpec, epoch: Epoch, other: ForkName)
    ensures
        spec.started(spec.active_at(epoch), epoch),
        spec.started(other, epoch) ==> other.rank() <= spec.active_at(epoch).rank(),
        spec.fork_at(epoch).epoch.0 <= epoch.0,
{
}

/// The chain never goes back to an earlier upgrade.
pub proof fn law_forks_only_advance(spec: ChainSpec, earlier: Epoch, later: Epoch)
    requires
        earlier.0 <= later.0,
    ensures
        spec.active_at(earlier).rank() <= spec.active_at(later).rank(),
{
    law_active_fork_is_last_started(spec, earlier, spec.active_at(earlier));
    law_active_fork_is_last_started(spec, later, spec.active_at(earlier));
}

/// A signature commits to its domain, its epoch, the chain of the store and, but for exits, the
/// fork that is active at its epoch.
pub proof fn law_context_commits_to_epoch(store: StoreView, domain: Domain, epoch: Epoch)
    ensures
        store.context(domain, epoch).domain == domain,
        store.context(domain, epoch).epoch == epoch,
        store.context(domain, epoch).genesis_validators_root == store.genesis_validators_root,
        domain != Domain::VoluntaryExit ==> store.context(domain, epoch).fork
            == store.spec.fork_at(epoch),
        !(store.spec.active_at(epoch) is Deneb) ==> store.context(domain, epoch).fork
            == store.spec.fork_at(epoch),
{
}

/// An exit that is signed in Capella or later commits to the version of Capella for good, so that
/// it stays valid over the upgrades that follow (EIP-7044). From Deneb on it commits to no other.
pub proof fn law_exits_commit_to_capella(store: StoreView, epoch: Epoch)
    requires
        store.spec.active_at(epoch).rank() >= ForkName::Capella.rank(),
    ensures
        store.context(Domain::VoluntaryExit, epoch).fork.current_version
            == store.spec.capella_fork_version,
        store.spec.active_at(epoch) is Deneb ==> store.context(
            Domain::VoluntaryExit,
            epoch,
        ).fork.previous_version == store.spec.capella_fork_version,
{
}

} // verus!
