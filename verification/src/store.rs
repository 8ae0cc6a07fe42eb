//! The store that decides what is signed for which validator, and with which settings.

pub mod interchange;
pub mod pruning;
pub mod registration;
pub mod sessions;
pub mod signing;

use vstd::prelude::*;

use crate::chain_spec::{ChainSpec, Domain, EthSpec, Fork, ForkName, SigningContext};
use crate::doppelganger::{status_in, DoppelgangerService, DoppelgangerState, DoppelgangerStatus};
use crate::error::Error;
use crate::initialized_validators::{InitializedValidator, InitializedValidators, SigningMethod};
use crate::primitives::{Address, Epoch, Graffiti, Hash256, PublicKeyBytes};

verus! {

/// Currently used as the default gas limit in execution clients.
///
/// https://github.com/ethereum/builder-specs/issues/17
pub const DEFAULT_GAS_LIMIT: u64 = 30_000_000;

/// The settings of the process. A validator's own settings come before them.
#[derive(Clone, Copy, Debug, PartialEq, Eq)]
pub struct Config {
    pub fee_recipient: Option<Address>,
    pub gas_limit: Option<u64>,
    pub builder_proposals: bool,
    pub produce_block_v3: bool,
    pub prefer_builder_proposals: bool,
    pub builder_boost_factor: Option<u64>,
}

/// What a proposer tells the beacon node ahead of its proposals.
#[derive(Clone, Copy, Debug, PartialEq, Eq)]
pub struct ProposalData {
    pub validator_index: Option<u64>,
    pub fee_recipient: Option<Address>,
    pub gas_limit: u64,
    pub builder_proposals: bool,
}

/// The validators of this process, with what is needed to decide on their messages.
pub struct ValidatorStore {
    validators: InitializedValidators,
    slashing_protection_last_prune: Epoch,
    genesis_validators_root: Hash256,
    spec: ChainSpec,
    eth_spec: EthSpec,
    doppelganger_service: Option<DoppelgangerService>,
    config: Config,
}

/// What a store holds.
#[verifier::ext_equal]
pub struct StoreView {
    /// The enabled validators.
    pub validators: Map<PublicKeyBytes, InitializedValidator>,
    /// Their keys, in the order in which they came.
    pub voting_pubkeys: Seq<PublicKeyBytes>,
    /// What doppelganger protection knows, where it is enabled.
    pub doppelganger: Option<Map<PublicKeyBytes, DoppelgangerState>>,
    /// The epoch at which slashing protection was last pruned.
    pub last_prune: Epoch,
    pub genesis_validators_root: Hash256,
    pub spec: ChainSpec,
    pub slots_per_epoch: u64,
    pub config: Config,
}

/// The first of two values that is there.
pub open spec fn first_of<T>(first: Option<T>, second: Option<T>) -> Option<T> {
    if first is Some { first } else { second }
}

impl StoreView {
    /// The voting keys are those of the validators, each once, and an epoch has slots.
    pub open spec fn wf(self) -> bool {
        &&& self.voting_pubkeys.no_duplicates()
        &&& self.voting_pubkeys.to_set() == self.validators.dom()
        &&& self.slots_per_epoch > 0
    }

    /// The validator with the voting key `pubkey`.
    pub open spec fn validator(self, pubkey: PublicKeyBytes) -> Option<InitializedValidator> {
        if self.validators.contains_key(pubkey) {
            Some(self.validators[pubkey])
        } else {
            None
        }
    }

    /// What doppelganger protection says of `pubkey`. Where it is disabled, every key may sign.
    pub open spec fn status(self, pubkey: PublicKeyBytes) -> DoppelgangerStatus {
        match self.doppelganger {
            Some(states) => status_in(states, pubkey),
            None => DoppelgangerStatus::SigningEnabled(pubkey),
        }
    }

    /// Doppelganger protection lets `pubkey` sign.
    pub open spec fn allows_signing(self, pubkey: PublicKeyBytes) -> bool {
        self.status(pubkey) is SigningEnabled
    }

    /// The store, where protection has come to know `state` of `pubkey`, or knows it no more. There
    /// is nothing to know where protection is disabled.
    pub open spec fn watching(
        self,
        pubkey: PublicKeyBytes,
        state: Option<DoppelgangerState>,
    ) -> StoreView {
        StoreView {
            doppelganger: match (self.doppelganger, state) {
                (Some(states), Some(state)) => Some(states.insert(pubkey, state)),
                (Some(states), None) => Some(states.remove(pubkey)),
                (None, _) => None,
            },
            ..self
        }
    }

    /// The store, where `validators` are the enabled ones.
    pub open spec fn with_validators(self, validators: InitializedValidators) -> StoreView {
        StoreView { validators: validators@, voting_pubkeys: validators.keys(), ..self }
    }

    /// The statuses of the validators, in the order of their keys.
    pub open spec fn statuses(self) -> Seq<DoppelgangerStatus> {
        Seq::new(self.voting_pubkeys.len(), |i: int| self.status(self.voting_pubkeys[i]))
    }

    /// How `pubkey` signs, whatever doppelganger protection says.
    pub open spec fn bypassed_method<X>(self, pubkey: PublicKeyBytes) -> Result<
        SigningMethod,
        Error<X>,
    > {
        match self.validator(pubkey) {
            Some(validator) => Ok(validator.signing_method),
            None => Err(Error::UnknownPubkey(pubkey)),
        }
    }

    /// How `pubkey` signs, if doppelganger protection lets it.
    pub open spec fn checked_method<X>(self, pubkey: PublicKeyBytes) -> Result<
        SigningMethod,
        Error<X>,
    > {
        if self.allows_signing(pubkey) {
            self.bypassed_method(pubkey)
        } else {
            Err(Error::DoppelgangerProtected(pubkey))
        }
    }

    /// The fork that signatures of `domain` for `epoch` commit to: the active one. Exits are the
    /// exception from Deneb on, where they commit to Capella for good (EIP-7044).
    pub open spec fn signing_fork(self, domain: Domain, epoch: Epoch) -> Fork {
        if domain == Domain::VoluntaryExit && self.spec.active_at(epoch) == ForkName::Deneb {
            Fork {
                previous_version: self.spec.capella_fork_version,
                current_version: self.spec.capella_fork_version,
                epoch,
            }
        } else {
            self.spec.fork_at(epoch)
        }
    }

    /// What signatures of `domain` for `epoch` commit to.
    pub open spec fn context(self, domain: Domain, epoch: Epoch) -> SigningContext {
        SigningContext {
            domain,
            epoch,
            fork: self.signing_fork(domain, epoch),
            genesis_validators_root: self.genesis_validators_root,
        }
    }

    /// A setting of the validator's definition, if the validator is known and has it.
    pub open spec fn own<T>(
        self,
        pubkey: PublicKeyBytes,
        setting: spec_fn(InitializedValidator) -> Option<T>,
    ) -> Option<T> {
        match self.validator(pubkey) {
            Some(validator) => setting(validator),
            None => None,
        }
    }

    /// `fee_recipient`, else that of the process.
    pub open spec fn fee_recipient_or(self, fee_recipient: Option<Address>) -> Option<Address> {
        first_of(fee_recipient, self.config.fee_recipient)
    }

    /// `gas_limit`, else that of the process, else the default.
    pub open spec fn gas_limit_or(self, gas_limit: Option<u64>) -> u64 {
        match first_of(gas_limit, self.config.gas_limit) {
            Some(limit) => limit,
            None => DEFAULT_GAS_LIMIT,
        }
    }

    /// `builder_proposals`, else the flag of the process.
    pub open spec fn builder_proposals_or(self, builder_proposals: Option<bool>) -> bool {
        match builder_proposals {
            Some(proposals) => proposals,
            None => self.config.builder_proposals,
        }
    }

    /// The fee recipient for `pubkey`.
    pub open spec fn fee_recipient(self, pubkey: PublicKeyBytes) -> Option<Address> {
        self.fee_recipient_or(
            self.own(pubkey, |validator: InitializedValidator| validator.suggested_fee_recipient),
        )
    }

    /// The gas limit for `pubkey`.
    pub open spec fn gas_limit(self, pubkey: PublicKeyBytes) -> u64 {
        self.gas_limit_or(
            self.own(pubkey, |validator: InitializedValidator| validator.gas_limit),
        )
    }

    /// Whether `pubkey` uses the builder API.
    pub open spec fn builder_proposals(self, pubkey: PublicKeyBytes) -> bool {
        self.builder_proposals_or(
            self.own(pubkey, |validator: InitializedValidator| validator.builder_proposals),
        )
    }

    /// The builder boost factor of `pubkey`.
    pub open spec fn builder_boost_factor(self, pubkey: PublicKeyBytes) -> Option<u64> {
        first_of(
            self.own(pubkey, |validator: InitializedValidator| validator.builder_boost_factor),
            self.config.builder_boost_factor,
        )
    }

    /// Whether `pubkey` prefers builder payloads.
    pub open spec fn prefer_builder_proposals(self, pubkey: PublicKeyBytes) -> bool {
        match self.own(
            pubkey,
            |validator: InitializedValidator| validator.prefer_builder_proposals,
        ) {
            Some(prefer) => prefer,
            None => self.config.prefer_builder_proposals,
        }
    }

    /// What the beacon node is told of the proposals of `pubkey`.
    pub open spec fn proposal_data(self, pubkey: PublicKeyBytes) -> Option<ProposalData> {
        match self.validator(pubkey) {
            Some(validator) => Some(
                ProposalData {
                    validator_index: validator.index,
                    fee_recipient: self.fee_recipient_or(validator.suggested_fee_recipient),
                    gas_limit: self.gas_limit_or(validator.gas_limit),
                    builder_proposals: self.builder_proposals_or(validator.builder_proposals),
                },
            ),
            None => None,
        }
    }

    /// The keys of the validators that doppelganger protection lets sign.
    pub open spec fn safe_pubkeys(self) -> Seq<PublicKeyBytes> {
        self.voting_pubkeys.filter(|pubkey: PublicKeyBytes| self.allows_signing(pubkey))
    }

    /// The keys of the validators that doppelganger protection knows, or all where it is disabled.
    pub open spec fn watched_pubkeys(self) -> Seq<PublicKeyBytes> {
        self.voting_pubkeys.filter(
            |pubkey: PublicKeyBytes| !(self.status(pubkey) is UnknownToDoppelganger),
        )
    }
}

/// The values that are there, in order.
pub open spec fn somes<T>(values: Seq<Option<T>>) -> Seq<T>
    decreases values.len(),
{
    if values.len() == 0 {
        Seq::empty()
    } else {
        match values.last() {
            Some(value) => somes(values.drop_last()).push(value),
            None => somes(values.drop_last()),
        }
    }
}

/// `picked` holds what `filter_func` may return for each of `statuses`.
pub open spec fn answers<F: Fn(DoppelgangerStatus) -> Option<PublicKeyBytes>>(
    filter_func: F,
    statuses: Seq<DoppelgangerStatus>,
    picked: Seq<Option<PublicKeyBytes>>,
) -> bool {
    &&& picked.len() == statuses.len()
    &&& forall|i: int|
        0 <= i < statuses.len() ==> call_ensures(filter_func, (statuses[i],), #[trigger] picked[i])
}

/// The boost factor that settings stand for. A preference for the builder comes first, an explicit
/// factor second, and builder proposals that are switched off third.
pub open spec fn boost_factor(
    prefer_builder_proposals: Option<bool>,
    builder_boost_factor: Option<u64>,
    builder_proposals: Option<bool>,
) -> Option<u64> {
    if prefer_builder_proposals == Some(true) {
        Some(u64::MAX)
    } else if builder_boost_factor is Some {
        builder_boost_factor
    } else if builder_proposals == Some(false) {
        Some(0)
    } else {
        None
    }
}

impl View for ValidatorStore {
    type V = StoreView;

    closed spec fn view(&self) -> StoreView {
        StoreView {
            validators: self.validators@,
            voting_pubkeys: self.validators.keys(),
            doppelganger: match self.doppelganger_service {
                Some(service) => Some(service@),
                None => None,
            },
            last_prune: self.slashing_protection_last_prune,
            genesis_validators_root: self.genesis_validators_root,
            spec: self.spec,
            slots_per_epoch: self.eth_spec.slots(),
            config: self.config,
        }
    }
}

impl ValidatorStore {
    /// What the store holds is well formed.
    #[verifier::type_invariant]
    pub open spec fn wf(&self) -> bool {
        self@.wf()
    }

    /// A store that was never pruned.
    pub fn new(
        validators: InitializedValidators,
        genesis_validators_root: Hash256,
        spec: ChainSpec,
        eth_spec: EthSpec,
        doppelganger_service: Option<DoppelgangerService>,
        config: &Config,
    ) -> (store: Self)
        ensures
            store@.wf(),
            store@ == (StoreView {
                validators: validators@,
                voting_pubkeys: validators.keys(),
                doppelganger: match doppelganger_service {
                    Some(service) => Some(service@),
                    None => None,
                },
                last_prune: Epoch(0),
                genesis_validators_root,
                spec,
                slots_per_epoch: eth_spec.slots(),
                config: *config,
            }),
    {
        proof {
            use_type_invariant(&validators);
            use_type_invariant(&eth_spec);
        }
        ValidatorStore {
            validators,
            slashing_protection_last_prune: Epoch(0),
            genesis_validators_root,
            spec,
            eth_spec,
            doppelganger_service,
            config: *config,
        }
    }

    /// Takes over the validators as they are from now on.
    pub fn set_initialized_validators(&mut self, validators: InitializedValidators)
        ensures
            final(self)@.wf(),
            final(self)@ == old(self)@.with_validators(validators),
    {
        proof {
            use_type_invariant(&*self);
            use_type_invariant(&validators);
        }
        self.validators = validators;
    }

    /// Takes over what doppelganger protection knows of `pubkey` from now on, if anything. There is
    /// nothing to take over where protection is disabled.
    pub fn set_doppelganger_state(
        &mut self,
        pubkey: PublicKeyBytes,
        state: Option<DoppelgangerState>,
    )
        ensures
            final(self)@.wf(),
            final(self)@ == old(self)@.watching(pubkey, state),
    {
        proof {
            use_type_invariant(&*self);
        }
        let mut service: Option<DoppelgangerService> = None;
        std::mem::swap(&mut service, &mut self.doppelganger_service);
        if let Some(mut watched) = service {
            match state {
                Some(state) => watched.set_state(pubkey, state),
                None => watched.remove(&pubkey),
            }
            self.doppelganger_service = Some(watched);
        }
    }

    /// Whether doppelganger protection is enabled.
    pub fn doppelganger_protection_enabled(&self) -> (enabled: bool)
        ensures
            enabled == self@.doppelganger is Some,
    {
        self.doppelganger_service.is_some()
    }

    /// The enabled validators.
    pub fn initialized_validators(&self) -> (validators: &InitializedValidators)
        ensures
            validators@ == self@.validators,
            validators.keys() == self@.voting_pubkeys,
    {
        &self.validators
    }

    /// Whether the `voting_public_key` exists in the store and is enabled.
    pub fn has_validator(&self, voting_public_key: &PublicKeyBytes) -> (has: bool)
        ensures
            has == self@.validators.contains_key(*voting_public_key),
    {
        self.validators.validator(voting_public_key).is_some()
    }

    /// What the beacon node is told of the proposals of `pubkey`, if it is enabled. Settings that
    /// the validator does not have are those of the process.
    pub fn proposal_data(&self, pubkey: &PublicKeyBytes) -> (data: Option<ProposalData>)
        ensures
            data == self@.proposal_data(*pubkey),
    {
        match self.validators.validator(pubkey) {
            Some(validator) => Some(
                ProposalData {
                    validator_index: validator.index,
                    fee_recipient: self.get_fee_recipient_defaulting(
                        validator.suggested_fee_recipient,
                    ),
                    gas_limit: self.get_gas_limit_defaulting(validator.gas_limit),
                    builder_proposals: self.get_builder_proposals_defaulting(
                        validator.builder_proposals,
                    ),
                },
            ),
            None => None,
        }
    }

    /// The index of the validator, if the key is known and its index too.
    pub fn validator_index(&self, pubkey: &PublicKeyBytes) -> (index: Option<u64>)
        ensures
            index == self@.own(*pubkey, |validator: InitializedValidator| validator.index),
    {
        match self.validators.validator(pubkey) {
            Some(validator) => validator.index,
            None => None,
        }
    }

    /// What doppelganger protection says of `pubkey`.
    fn doppelganger_status(&self, pubkey: PublicKeyBytes) -> (status: DoppelgangerStatus)
        ensures
            status == self@.status(pubkey),
    {
        match &self.doppelganger_service {
            Some(service) => service.validator_status(pubkey),
            // Allow signing on all pubkeys if doppelganger protection is disabled.
            None => DoppelgangerStatus::SigningEnabled(pubkey),
        }
    }

    /// The statuses of all enabled validators.
    pub fn doppelganger_statuses(&self) -> (statuses: Vec<DoppelgangerStatus>)
        ensures
            statuses@ == self@.statuses(),
    {
        let pubkeys = self.validators.voting_pubkeys();
        let mut statuses: Vec<DoppelgangerStatus> = Vec::new();
        let mut i: usize = 0;
        while i < pubkeys.len()
            invariant
                0 <= i <= pubkeys@.len(),
                pubkeys@ == self@.voting_pubkeys,
                statuses@ == self@.statuses().take(i as int),
            decreases pubkeys@.len() - i,
        {
            statuses.push(self.doppelganger_status(pubkeys[i]));
            i += 1;
        }
        assert(statuses@ =~= self@.statuses());
        statuses
    }

    /// The keys that `filter_func` picks by the statuses of the enabled validators, in the order
    /// of the validators. Two filters are common:
    ///
    /// - `DoppelgangerStatus::only_safe` picks the keys that passed doppelganger protection and
    ///   are safe enough to sign with.
    /// - `DoppelgangerStatus::ignored` picks those and the keys that still undergo protection. This
    ///   serves to collect duties and for other tasks that do not sign.
    pub fn voting_pubkeys<F: Fn(DoppelgangerStatus) -> Option<PublicKeyBytes>>(
        &self,
        filter_func: F,
    ) -> (pubkeys: Vec<PublicKeyBytes>)
        requires
            forall|i: int|
                0 <= i < self@.statuses().len() ==> call_requires(
                    filter_func,
                    (#[trigger] self@.statuses()[i],),
                ),
        ensures
            exists|picked: Seq<Option<PublicKeyBytes>>|
                #[trigger] answers(filter_func, self@.statuses(), picked) && pubkeys@ == somes(
                    picked,
                ),
    {
        let statuses = self.doppelganger_statuses();
        let mut pubkeys: Vec<PublicKeyBytes> = Vec::new();
        let ghost mut picked: Seq<Option<PublicKeyBytes>> = Seq::empty();
        let mut i: usize = 0;
        while i < statuses.len()
            invariant
                0 <= i <= statuses@.len(),
                statuses@ == self@.statuses(),
                forall|j: int|
                    0 <= j < self@.statuses().len() ==> call_requires(
                        filter_func,
                        (#[trigger] self@.statuses()[j],),
                    ),
                answers(filter_func, statuses@.take(i as int), picked),
                pubkeys@ == somes(picked),
            decreases statuses@.len() - i,
        {
            assert(statuses@[i as int] == self@.statuses()[i as int]);
            let pick = filter_func(statuses[i]);
            let ghost before = picked;
            proof {
                picked = picked.push(pick);
                assert(picked.drop_last() =~= before);
            }
            if let Some(pubkey) = pick {
                pubkeys.push(pubkey);
            }
            i += 1;
        }
        assert(statuses@.take(i as int) =~= statuses@);
        pubkeys
    }

    /// Whether doppelganger protection lets `validator_pubkey` sign.
    pub fn doppelganger_protection_allows_signing(
        &self,
        validator_pubkey: PublicKeyBytes,
    ) -> (allows: bool)
        ensures
            allows == self@.allows_signing(validator_pubkey),
    {
        self.doppelganger_status(validator_pubkey).only_safe().is_some()
    }

    /// How many validators are enabled.
    pub fn num_voting_validators(&self) -> (count: usize)
        ensures
            count == self@.voting_pubkeys.len(),
            self@.validators.dom().finite(),
            count == self@.validators.dom().len(),
    {
        self.validators.num_enabled()
    }

    /// The fork that is active at `epoch`.
    pub fn fork(&self, epoch: Epoch) -> (fork: Fork)
        ensures
            fork == self@.spec.fork_at(epoch),
    {
        self.spec.fork_at_epoch(epoch)
    }

    /// Whether blocks are produced over the third version of the endpoint.
    pub fn produce_block_v3(&self) -> (v3: bool)
        ensures
            v3 == self@.config.produce_block_v3,
    {
        self.config.produce_block_v3
    }

    /// How `validator_pubkey` signs, *only if* doppelganger protection considers it safe.
    pub fn doppelganger_checked_signing_method<X>(
        &self,
        validator_pubkey: PublicKeyBytes,
    ) -> (method: Result<SigningMethod, Error<X>>)
        ensures
            method == self@.checked_method::<X>(validator_pubkey),
    {
        if self.doppelganger_protection_allows_signing(validator_pubkey) {
            self.doppelganger_bypassed_signing_method(validator_pubkey)
        } else {
            Err(Error::DoppelgangerProtected(validator_pubkey))
        }
    }

    /// How `validator_pubkey` signs, whatever doppelganger protection says.
    ///
    /// This serves only for messages that cannot be slashed.
    pub fn doppelganger_bypassed_signing_method<X>(
        &self,
        validator_pubkey: PublicKeyBytes,
    ) -> (method: Result<SigningMethod, Error<X>>)
        ensures
            method == self@.bypassed_method::<X>(validator_pubkey),
    {
        match self.validators.validator(&validator_pubkey) {
            Some(validator) => Ok(validator.signing_method),
            None => Err(Error::UnknownPubkey(validator_pubkey)),
        }
    }

    /// What signatures of `domain` for `signing_epoch` commit to.
    pub fn signing_context(&self, domain: Domain, signing_epoch: Epoch) -> (context: SigningContext)
        ensures
            context == self@.context(domain, signing_epoch),
    {
        let fork = if domain == Domain::VoluntaryExit {
            match self.spec.fork_name_at_epoch(signing_epoch) {
                ForkName::Base | ForkName::Altair | ForkName::Merge | ForkName::Capella => {
                    self.fork(signing_epoch)
                },
                // EIP-7044
                ForkName::Deneb => Fork {
                    previous_version: self.spec.capella_fork_version,
                    current_version: self.spec.capella_fork_version,
                    epoch: signing_epoch,
                },
            }
        } else {
            self.fork(signing_epoch)
        };
        SigningContext {
            domain,
            epoch: signing_epoch,
            fork,
            genesis_validators_root: self.genesis_validators_root,
        }
    }

    /// The graffiti of the validator, if it has one.
    pub fn graffiti(&self, validator_pubkey: &PublicKeyBytes) -> (graffiti: Option<Graffiti>)
        ensures
            graffiti == self@.own(
                *validator_pubkey,
                |validator: InitializedValidator| validator.graffiti,
            ),
    {
        match self.validators.validator(validator_pubkey) {
            Some(validator) => validator.graffiti,
            None => None,
        }
    }

    /// The fee recipient for the key: that of the validator's definition, else that of the
    /// process.
    pub fn get_fee_recipient(&self, validator_pubkey: &PublicKeyBytes) -> (recipient: Option<
        Address,
    >)
        ensures
            recipient == self@.fee_recipient(*validator_pubkey),
    {
        self.get_fee_recipient_defaulting(self.suggested_fee_recipient(validator_pubkey))
    }

    /// `fee_recipient`, or that of the process where there is none.
    pub fn get_fee_recipient_defaulting(&self, fee_recipient: Option<Address>) -> (recipient:
        Option<Address>)
        ensures
            recipient == self@.fee_recipient_or(fee_recipient),
    {
        match fee_recipient {
            Some(recipient) => Some(recipient),
            None => self.config.fee_recipient,
        }
    }

    /// The fee recipient of the validator's definition, if any.
    fn suggested_fee_recipient(&self, validator_pubkey: &PublicKeyBytes) -> (recipient: Option<
        Address,
    >)
        ensures
            recipient == self@.own(
                *validator_pubkey,
                |validator: InitializedValidator| validator.suggested_fee_recipient,
            ),
    {
        match self.validators.validator(validator_pubkey) {
            Some(validator) => validator.suggested_fee_recipient,
            None => None,
        }
    }

    /// The gas limit for the key: that of the validator's definition, else that of the process,
    /// else `DEFAULT_GAS_LIMIT`.
    pub fn get_gas_limit(&self, validator_pubkey: &PublicKeyBytes) -> (limit: u64)
        ensures
            limit == self@.gas_limit(*validator_pubkey),
    {
        let gas_limit: Option<u64> = match self.validators.validator(validator_pubkey) {
            Some(validator) => validator.gas_limit,
            None => None,
        };
        self.get_gas_limit_defaulting(gas_limit)
    }

    /// `gas_limit`, or that of the process where there is none, or the default.
    pub fn get_gas_limit_defaulting(&self, gas_limit: Option<u64>) -> (limit: u64)
        ensures
            limit == self@.gas_limit_or(gas_limit),
    {
        match (gas_limit, self.config.gas_limit) {
            (Some(limit), _) => limit,
            (None, Some(limit)) => limit,
            (None, None) => DEFAULT_GAS_LIMIT,
        }
    }

    /// Whether the validator uses the builder API: the flag of its definition, else that of the
    /// process.
    pub fn get_builder_proposals(&self, validator_pubkey: &PublicKeyBytes) -> (proposals: bool)
        ensures
            proposals == self@.builder_proposals(*validator_pubkey),
    {
        let builder_proposals = match self.validators.validator(validator_pubkey) {
            Some(validator) => validator.builder_proposals,
            None => None,
        };
        self.get_builder_proposals_defaulting(builder_proposals)
    }

    /// `builder_proposals`, or the flag of the process where there is none.
    pub fn get_builder_proposals_defaulting(&self, builder_proposals: Option<bool>) -> (proposals:
        bool)
        ensures
            proposals == self@.builder_proposals_or(builder_proposals),
    {
        match builder_proposals {
            Some(proposals) => proposals,
            None => self.config.builder_proposals,
        }
    }

    /// The builder boost factor: that of the validator's definition, else that of the process.
    pub fn get_builder_boost_factor(&self, validator_pubkey: &PublicKeyBytes) -> (factor: Option<
        u64,
    >)
        ensures
            factor == self@.builder_boost_factor(*validator_pubkey),
    {
        let builder_boost_factor: Option<u64> = match self.validators.validator(validator_pubkey) {
            Some(validator) => validator.builder_boost_factor,
            None => None,
        };
        match builder_boost_factor {
            Some(factor) => Some(factor),
            None => self.config.builder_boost_factor,
        }
    }

    /// Whether the validator prefers builder payloads: the flag of its definition, else that of
    /// the process.
    pub fn get_prefer_builder_proposals(&self, validator_pubkey: &PublicKeyBytes) -> (prefer: bool)
        ensures
            prefer == self@.prefer_builder_proposals(*validator_pubkey),
    {
        let prefer_builder_proposals = match self.validators.validator(validator_pubkey) {
            Some(validator) => validator.prefer_builder_proposals,
            None => None,
        };
        match prefer_builder_proposals {
            Some(prefer) => prefer,
            None => self.config.prefer_builder_proposals,
        }
    }

    /// The boost factor that the settings of the validator's definition stand for, if any.
    ///
    /// - A preference for builder payloads is `u64::MAX`.
    /// - Else an explicit boost factor is itself.
    /// - Else builder proposals that are switched off are 0, a preference for local payloads.
    /// - Else there is no preference.
    pub fn determine_validator_builder_boost_factor(
        &self,
        validator_pubkey: &PublicKeyBytes,
    ) -> (factor: Option<u64>)
        ensures
            factor == self@.own(
                *validator_pubkey,
                |validator: InitializedValidator|
                    boost_factor(
                        validator.prefer_builder_proposals,
                        validator.builder_boost_factor,
                        validator.builder_proposals,
                    ),
            ),
    {
        match self.validators.validator(validator_pubkey) {
            Some(validator) => {
                if let Some(true) = validator.prefer_builder_proposals {
                    return Some(u64::MAX);
                }
                match validator.builder_boost_factor {
                    Some(factor) => Some(factor),
                    None => match validator.builder_proposals {
                        Some(false) => Some(0),
                        _ => None,
                    },
                }
            },
            None => None,
        }
    }

    /// The boost factor that the settings of the process stand for, if any. They are read as those
    /// of a validator are.
    pub fn determine_default_builder_boost_factor(&self) -> (factor: Option<u64>)
        ensures
            factor == boost_factor(
                Some(self@.config.prefer_builder_proposals),
                self@.config.builder_boost_factor,
                Some(self@.config.builder_proposals),
            ),
    {
        if self.config.prefer_builder_proposals {
            return Some(u64::MAX);
        }
        match self.config.builder_boost_factor {
            Some(factor) => Some(factor),
            None => {
                if self.config.builder_proposals {
                    None
                } else {
                    Some(0)
                }
            },
        }
    }
}

} // verus!
