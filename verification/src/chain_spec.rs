//! The fork schedule of a chain and the signing domains that depend on it.

use vstd::prelude::*;

use crate::primitives::{Epoch, Hash256};

verus! {

/// The upgrades of the chain, in the order in which they come.
#[derive(Clone, Copy, Debug, PartialEq, Eq, Structural)]
pub enum ForkName {
    Base,
    Altair,
    Merge,
    Capella,
    Deneb,
}

impl ForkName {
    /// Where this upgrade stands in the order.
    pub open spec fn rank(self) -> int {
        match self {
            ForkName::Base => 0,
            ForkName::Altair => 1,
            ForkName::Merge => 2,
            ForkName::Capella => 3,
            ForkName::Deneb => 4,
        }
    }

    /// The upgrade before this one. Nothing stands before the first, which stands for itself.
    pub open spec fn before(self) -> ForkName {
        match self {
            ForkName::Base => ForkName::Base,
            ForkName::Altair => ForkName::Base,
            ForkName::Merge => ForkName::Altair,
            ForkName::Capella => ForkName::Merge,
            ForkName::Deneb => ForkName::Capella,
        }
    }

    /// The upgrade before this one.
    pub fn previous_fork(self) -> (previous: Option<ForkName>)
        ensures
            previous == (if self == ForkName::Base { None } else { Some(self.before()) }),
    {
        match self {
            ForkName::Base => None,
            ForkName::Altair => Some(ForkName::Base),
            ForkName::Merge => Some(ForkName::Altair),
            ForkName::Capella => Some(ForkName::Merge),
            ForkName::Deneb => Some(ForkName::Capella),
        }
    }
}

/// Two fork versions and the epoch at which the second took over from the first.
#[derive(Clone, Copy, Debug, PartialEq, Eq)]
pub struct Fork {
    pub previous_version: [u8; 4],
    pub current_version: [u8; 4],
    pub epoch: Epoch,
}

/// The versions of the upgrades, and the epochs at which they start. An upgrade without an epoch
/// is not scheduled.
#[derive(Clone, Copy, Debug, PartialEq, Eq)]
pub struct ChainSpec {
    pub genesis_fork_version: [u8; 4],
    pub altair_fork_version: [u8; 4],
    pub altair_fork_epoch: Option<Epoch>,
    pub bellatrix_fork_version: [u8; 4],
    pub bellatrix_fork_epoch: Option<Epoch>,
    pub capella_fork_version: [u8; 4],
    pub capella_fork_epoch: Option<Epoch>,
    pub deneb_fork_version: [u8; 4],
    pub deneb_fork_epoch: Option<Epoch>,
}

impl ChainSpec {
    /// The version of the upgrade `name`.
    pub open spec fn version_of(self, name: ForkName) -> [u8; 4] {
        match name {
            ForkName::Base => self.genesis_fork_version,
            ForkName::Altair => self.altair_fork_version,
            ForkName::Merge => self.bellatrix_fork_version,
            ForkName::Capella => self.capella_fork_version,
            ForkName::Deneb => self.deneb_fork_version,
        }
    }

    /// The epoch at which the upgrade `name` starts.
    pub open spec fn start_of(self, name: ForkName) -> Option<Epoch> {
        match name {
            ForkName::Base => Some(Epoch(0)),
            ForkName::Altair => self.altair_fork_epoch,
            ForkName::Merge => self.bellatrix_fork_epoch,
            ForkName::Capella => self.capella_fork_epoch,
            ForkName::Deneb => self.deneb_fork_epoch,
        }
    }

    /// The upgrade `name` has started at `epoch`.
    pub open spec fn started(self, name: ForkName, epoch: Epoch) -> bool {
        self.start_of(name) matches Some(start) && start.0 <= epoch.0
    }

    /// The last of the upgrades that have started at `epoch`.
    pub open spec fn active_at(self, epoch: Epoch) -> ForkName {
        if self.started(ForkName::Deneb, epoch) {
            ForkName::Deneb
        } else if self.started(ForkName::Capella, epoch) {
            ForkName::Capella
        } else if self.started(ForkName::Merge, epoch) {
            ForkName::Merge
        } else if self.started(ForkName::Altair, epoch) {
            ForkName::Altair
        } else {
            ForkName::Base
        }
    }

    /// The versions of the upgrade that is active at `epoch` and of the one before it, and the
    /// epoch at which the active one started.
    pub open spec fn fork_at(self, epoch: Epoch) -> Fork {
        let name = self.active_at(epoch);
        Fork {
            previous_version: self.version_of(name.before()),
            current_version: self.version_of(name),
            epoch: self.start_of(name)->0,
        }
    }

    /// The upgrade that is active at `epoch`.
    pub fn fork_name_at_epoch(&self, epoch: Epoch) -> (name: ForkName)
        ensures
            name == self.active_at(epoch),
    {
        match self.deneb_fork_epoch {
            Some(start) if epoch.0 >= start.0 => {
                return ForkName::Deneb;
            },
            _ => {},
        }
        match self.capella_fork_epoch {
            Some(start) if epoch.0 >= start.0 => {
                return ForkName::Capella;
            },
            _ => {},
        }
        match self.bellatrix_fork_epoch {
            Some(start) if epoch.0 >= start.0 => {
                return ForkName::Merge;
            },
            _ => {},
        }
        match self.altair_fork_epoch {
            Some(start) if epoch.0 >= start.0 => {
                return ForkName::Altair;
            },
            _ => {},
        }
        ForkName::Base
    }

    /// The version of the upgrade `name`.
    pub fn fork_version_for_name(&self, name: ForkName) -> (version: [u8; 4])
        ensures
            version == self.version_of(name),
    {
        match name {
            ForkName::Base => self.genesis_fork_version,
            ForkName::Altair => self.altair_fork_version,
            ForkName::Merge => self.bellatrix_fork_version,
            ForkName::Capella => self.capella_fork_version,
            ForkName::Deneb => self.deneb_fork_version,
        }
    }

    /// The epoch at which the upgrade `name` starts.
    pub fn fork_epoch(&self, name: ForkName) -> (start: Option<Epoch>)
        ensures
            start == self.start_of(name),
    {
        match name {
            ForkName::Base => Some(Epoch(0)),
            ForkName::Altair => self.altair_fork_epoch,
            ForkName::Merge => self.bellatrix_fork_epoch,
            ForkName::Capella => self.capella_fork_epoch,
            ForkName::Deneb => self.deneb_fork_epoch,
        }
    }

    /// The fork that signatures made for `epoch` commit to.
    pub fn fork_at_epoch(&self, epoch: Epoch) -> (fork: Fork)
        ensures
            fork == self.fork_at(epoch),
    {
        let name = self.fork_name_at_epoch(epoch);
        let previous = match name.previous_fork() {
            Some(previous) => previous,
            None => ForkName::Base,
        };
        let start = match self.fork_epoch(name) {
            Some(start) => start,
            None => Epoch(0),
        };
        Fork {
            previous_version: self.fork_version_for_name(previous),
            current_version: self.fork_version_for_name(name),
            epoch: start,
        }
    }
}

/// What a signature is for. Signatures for different domains never stand for each other.
#[derive(Clone, Copy, Debug, PartialEq, Eq, Structural)]
pub enum Domain {
    BeaconProposer,
    BeaconAttester,
    Randao,
    VoluntaryExit,
    SelectionProof,
    AggregateAndProof,
    SyncCommittee,
    ContributionAndProof,
    SyncCommitteeSelectionProof,
}

/// What the domain hash of a signature is computed from.
#[derive(Clone, Copy, Debug, PartialEq, Eq)]
pub struct SigningContext {
    pub domain: Domain,
    pub epoch: Epoch,
    pub fork: Fork,
    pub genesis_validators_root: Hash256,
}

/// Sizes that are fixed for a chain at build time.
#[derive(Clone, Copy, Debug, PartialEq, Eq)]
pub struct EthSpec {
    slots_per_epoch: u64,
}

impl EthSpec {
    /// How many slots an epoch has.
    pub closed spec fn slots(&self) -> u64 {
        self.slots_per_epoch
    }

    /// An epoch has at least one slot.
    #[verifier::type_invariant]
    pub open spec fn wf(&self) -> bool {
        self.slots() > 0
    }

    /// Epochs of `slots_per_epoch` slots.
    pub fn new(slots_per_epoch: u64) -> (eth_spec: Self)
        requires
            slots_per_epoch > 0,
        ensures
            eth_spec.wf(),
            eth_spec.slots() == slots_per_epoch,
    {
        EthSpec { slots_per_epoch }
    }

    /// How many slots an epoch has.
    pub fn slots_per_epoch(&self) -> (slots: u64)
        ensures
            slots == self.slots(),
            slots > 0,
    {
        proof {
            use_type_invariant(self);
        }
        self.slots_per_epoch
    }
}

} // verus!
