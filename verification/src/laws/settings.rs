//! What holds of the settings of validators and of the process.

use vstd::prelude::*;

use crate::initialized_validators::InitializedValidator;
use crate::primitives::{Address, Graffiti, PublicKeyBytes};
use crate::store::{boost_factor, ProposalData, StoreView, ValidatorStore, DEFAULT_GAS_LIMIT};

verus! {

/// There is proposal data for a key exactly if its validator is enabled, and it holds what is told
/// of each setting on its own.
pub proof fn law_proposal_data_agrees(store: StoreView, pubkey: PublicKeyBytes)
    ensures
        store.proposal_data(pubkey) is Some <==> store.validators.contains_key(pubkey),
        store.proposal_data(pubkey) matches Some(data) ==> {
            &&& data.validator_index == store.own(
                pubkey,
                |validator: InitializedValidator| validator.index,
            )
            &&& data.fee_recipient == store.fee_recipient(pubkey)
            &&& data.gas_limit == store.gas_limit(pubkey)
            &&& data.builder_proposals == store.builder_proposals(pubkey)
        },
{
}

/// A key that is not enabled gets the settings of the process.
pub proof fn law_unknown_key_gets_process_settings(store: StoreView, pubkey: PublicKeyBytes)
    requires
        !store.validators.contains_key(pubkey),
    ensures
        store.fee_recipient(pubkey) == store.config.fee_recipient,
        store.gas_limit(pubkey) == (match store.config.gas_limit {
            Some(limit) => limit,
            None => DEFAULT_GAS_LIMIT,
        }),
        store.builder_proposals(pubkey) == store.config.builder_proposals,
        store.builder_boost_factor(pubkey) == store.config.builder_boost_factor,
        store.prefer_builder_proposals(pubkey) == store.config.prefer_builder_proposals,
{
}

/// What a validator's definition sets comes before what the process sets.
pub proof fn law_own_settings_come_first(store: StoreView, pubkey: PublicKeyBytes)
    requires
        store.validators.contains_key(pubkey),
    ensures
        ({
            let validator = store.validators[pubkey];
            &&& validator.suggested_fee_recipient is Some ==> store.fee_recipient(pubkey)
                == validator.suggested_fee_recipient
            &&& validator.gas_limit is Some ==> Some(store.gas_limit(pubkey))
                == validator.gas_limit
            &&& validator.builder_proposals is Some ==> Some(store.builder_proposals(pubkey))
                == validator.builder_proposals
            &&& validator.builder_boost_factor is Some ==> store.builder_boost_factor(pubkey)
                == validator.builder_boost_factor
            &&& validator.prefer_builder_proposals is Some ==> Some(
                store.prefer_builder_proposals(pubkey),
            ) == validator.prefer_builder_proposals
        }),
{
}

/// The settings of the process stand for the boost factor that the same settings stand for in a
/// validator's definition. They stand for none exactly if builder proposals are on, no factor is
/// set and builder payloads are not preferred.
pub proof fn law_process_boost_factor(store: StoreView, validator: InitializedValidator)
    requires
        validator.prefer_builder_proposals == Some(store.config.prefer_builder_proposals),
        validator.builder_boost_factor == store.config.builder_boost_factor,
        validator.builder_proposals == Some(store.config.builder_proposals),
    ensures
        ({
            let process = boost_factor(
                Some(store.config.prefer_builder_proposals),
                store.config.builder_boost_factor,
                Some(store.config.builder_proposals),
            );
            &&& process == boost_factor(
                validator.prefer_builder_proposals,
                validator.builder_boost_factor,
                validator.builder_proposals,
            )
            &&& process is None <==> {
                &&& !store.config.prefer_builder_proposals
                &&& store.config.builder_boost_factor is None
                &&& store.config.builder_proposals
            }
        }),
{
}

/// A fee recipient is that of the validator's definition, and where that has none, or the validator
/// is not enabled, that of the process.
pub proof fn law_fee_recipient_by_fields(
    store: ValidatorStore,
    pubkey: PublicKeyBytes,
    recipient: Option<Address>,
    given: Option<Address>,
    defaulting: Option<Address>,
)
    requires
        call_ensures(ValidatorStore::get_fee_recipient, (&store, &pubkey), recipient),
        call_ensures(ValidatorStore::get_fee_recipient_defaulting, (&store, given), defaulting),
    ensures
        store@.validators.contains_key(pubkey)
            && store@.validators[pubkey].suggested_fee_recipient is Some ==> recipient
            == store@.validators[pubkey].suggested_fee_recipient,
        !store@.validators.contains_key(pubkey)
            || store@.validators[pubkey].suggested_fee_recipient is None ==> recipient
            == store@.config.fee_recipient,
        given is Some ==> defaulting == given,
        given is None ==> defaulting == store@.config.fee_recipient,
{
}

/// A gas limit is that of the validator's definition, else that of the process, else 30 million.
pub proof fn law_gas_limit_by_fields(
    store: ValidatorStore,
    pubkey: PublicKeyBytes,
    limit: u64,
    given: Option<u64>,
    defaulting: u64,
)
    requires
        call_ensures(ValidatorStore::get_gas_limit, (&store, &pubkey), limit),
        call_ensures(ValidatorStore::get_gas_limit_defaulting, (&store, given), defaulting),
    ensures
        ({
            let own = store@.validators.contains_key(pubkey)
                && store@.validators[pubkey].gas_limit is Some;
            &&& own ==> store@.validators[pubkey].gas_limit == Some(limit)
            &&& !own && store@.config.gas_limit is Some ==> store@.config.gas_limit == Some(limit)
            &&& !own && store@.config.gas_limit is None ==> limit == 30_000_000
            &&& given is Some ==> given == Some(defaulting)
            &&& given is None && store@.config.gas_limit is Some ==> store@.config.gas_limit
                == Some(defaulting)
            &&& given is None && store@.config.gas_limit is None ==> defaulting == 30_000_000
        }),
{
}

/// Whether the builder is used is said by the validator's definition, else by the process.
pub proof fn law_builder_proposals_by_fields(
    store: ValidatorStore,
    pubkey: PublicKeyBytes,
    proposals: bool,
    given: Option<bool>,
    defaulting: bool,
)
    requires
        call_ensures(ValidatorStore::get_builder_proposals, (&store, &pubkey), proposals),
        call_ensures(ValidatorStore::get_builder_proposals_defaulting, (&store, given), defaulting),
    ensures
        ({
            let own = store@.validators.contains_key(pubkey)
                && store@.validators[pubkey].builder_proposals is Some;
            &&& own ==> store@.validators[pubkey].builder_proposals == Some(proposals)
            &&& !own ==> proposals == store@.config.builder_proposals
            &&& given is Some ==> given == Some(defaulting)
            &&& given is None ==> defaulting == store@.config.builder_proposals
        }),
{
}

/// A boost factor and a preference for the builder are those of the validator's definition, else
/// those of the process.
pub proof fn law_builder_preferences_by_fields(
    store: ValidatorStore,
    pubkey: PublicKeyBytes,
    factor: Option<u64>,
    prefer: bool,
)
    requires
        call_ensures(ValidatorStore::get_builder_boost_factor, (&store, &pubkey), factor),
        call_ensures(ValidatorStore::get_prefer_builder_proposals, (&store, &pubkey), prefer),
    ensures
        ({
            let enabled = store@.validators.contains_key(pubkey);
            let validator = store@.validators[pubkey];
            &&& enabled && validator.builder_boost_factor is Some ==> factor
                == validator.builder_boost_factor
            &&& !enabled || validator.builder_boost_factor is None ==> factor
                == store@.config.builder_boost_factor
            &&& enabled && validator.prefer_builder_proposals is Some
                ==> validator.prefer_builder_proposals == Some(prefer)
            &&& !enabled || validator.prefer_builder_proposals is None ==> prefer
                == store@.config.prefer_builder_proposals
        }),
{
}

/// The boost factor of a validator, whatever its definition sets or leaves unset. A preference for
/// the builder is the highest factor. Where there is none, a factor that is set is itself. Where
/// that is not set either, builder proposals that are off are 0. All else, and a key that is not
/// enabled, stands for no factor.
pub proof fn law_validator_boost_factor_by_fields(
    store: ValidatorStore,
    pubkey: PublicKeyBytes,
    factor: Option<u64>,
)
    requires
        call_ensures(
            ValidatorStore::determine_validator_builder_boost_factor,
            (&store, &pubkey),
            factor,
        ),
    ensures
        ({
            let validator = store@.validators[pubkey];
            let preferred = validator.prefer_builder_proposals == Some(true);
            &&& !store@.validators.contains_key(pubkey) ==> factor is None
            &&& store@.validators.contains_key(pubkey) ==> {
                &&& preferred ==> factor == Some(0xffff_ffff_ffff_ffffu64)
                &&& !preferred && validator.builder_boost_factor is Some ==> factor
                    == validator.builder_boost_factor
                &&& !preferred && validator.builder_boost_factor is None
                    && validator.builder_proposals == Some(false) ==> factor == Some(0u64)
                &&& !preferred && validator.builder_boost_factor is None
                    && validator.builder_proposals != Some(false) ==> factor is None
            }
        }),
{
}

/// The boost factor of the process. A preference for the builder is the highest factor. Where there
/// is none, a factor that is set is itself. Where that is not set either, builder proposals that are
/// off are 0, and those that are on stand for no factor.
pub proof fn law_process_boost_factor_by_fields(store: ValidatorStore, factor: Option<u64>)
    requires
        call_ensures(ValidatorStore::determine_default_builder_boost_factor, (&store,), factor),
    ensures
        ({
            let config = store@.config;
            &&& config.prefer_builder_proposals ==> factor == Some(0xffff_ffff_ffff_ffffu64)
            &&& !config.prefer_builder_proposals && config.builder_boost_factor is Some ==> factor
                == config.builder_boost_factor
            &&& !config.prefer_builder_proposals && config.builder_boost_factor is None
                && !config.builder_proposals ==> factor == Some(0u64)
            &&& !config.prefer_builder_proposals && config.builder_boost_factor is None
                && config.builder_proposals ==> factor is None
        }),
{
}

/// What is told of a validator as a whole is what is told of it setting by setting. It is told
/// exactly of the enabled ones.
pub proof fn law_proposal_data_holds_what_is_told(
    store: ValidatorStore,
    pubkey: PublicKeyBytes,
    data: Option<ProposalData>,
    index: Option<u64>,
    recipient: Option<Address>,
    limit: u64,
    proposals: bool,
    has: bool,
)
    requires
        call_ensures(ValidatorStore::proposal_data, (&store, &pubkey), data),
        call_ensures(ValidatorStore::validator_index, (&store, &pubkey), index),
        call_ensures(ValidatorStore::get_fee_recipient, (&store, &pubkey), recipient),
        call_ensures(ValidatorStore::get_gas_limit, (&store, &pubkey), limit),
        call_ensures(ValidatorStore::get_builder_proposals, (&store, &pubkey), proposals),
        call_ensures(ValidatorStore::has_validator, (&store, &pubkey), has),
    ensures
        data is Some <==> has,
        has <==> store@.validators.contains_key(pubkey),
        data matches Some(told) ==> {
            &&& told.validator_index == index
            &&& told.fee_recipient == recipient
            &&& told.gas_limit == limit
            &&& told.builder_proposals == proposals
        },
{
}

/// The index and the graffiti of a validator are those that it has, if it is enabled. Blocks are
/// produced over the version of the endpoint that the process is set to.
pub proof fn law_index_and_graffiti_by_fields(
    store: ValidatorStore,
    pubkey: PublicKeyBytes,
    index: Option<u64>,
    graffiti: Option<Graffiti>,
    v3: bool,
)
    requires
        call_ensures(ValidatorStore::validator_index, (&store, &pubkey), index),
        call_ensures(ValidatorStore::graffiti, (&store, &pubkey), graffiti),
        call_ensures(ValidatorStore::produce_block_v3, (&store,), v3),
    ensures
        store@.validators.contains_key(pubkey) ==> index == store@.validators[pubkey].index
            && graffiti == store@.validators[pubkey].graffiti,
        !store@.validators.contains_key(pubkey) ==> index is None && graffiti is None,
        v3 == store@.config.produce_block_v3,
{
}

} // verus!
