# validator_store

The validator store of an Ethereum validator client, verified with Verus. It decides which messages
may be signed for which validator, what each signature commits to, and which settings apply to a
proposal.

Signatures, the slashing protection database, keystores and metrics lie outside. Where a decision
needs one of them, the store says what to ask for next and takes the answer as an event, so that
everything between two questions is verified for every answer. What is asked for comes as a
`Pending` value, which everybody can read and only the store can make.

- `src/store.rs`: the store, its view, settings, doppelganger protection and signing contexts.
- `src/store/signing.rs`: messages that are signed after one question.
- `src/store/sessions.rs`: blocks and attestations, which can be slashed.
- `src/store/registration.rs`: how validators are taken in.
- `src/store/interchange.rs`, `src/store/pruning.rs`: the slashing protection database.
- `src/laws/`: what holds of the store as a whole. `database.rs` states what follows from what a
  slashing protection database promises.
- `app/`: the store under locks, between the services that it asks.
