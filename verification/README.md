# velox_contracts

The verified core of the Velox payment protocol on Soroban.

- `src/` — the library, proved with Verus:
  - `payment_stream` — continuous streams: claimable balance, withdraw, cancel, top-up;
  - `recurring_payment` — fixed-interval schedules: due payments and cancellation;
  - `stream_factory` — validation of new streams and schedules, and the launch plan of
    each: the code and fresh salt to deploy, the parameters the new instance is
    initialised with, and the entry registered for it in the factory's registry;
  - `velox_registry` — the index of streams and schedules, lookups and listings, and the
    factory it answers to, fixed when the registry is set up;
  - `address`, `transfer`, `digest` — strkey addresses, requested token movements, and the
    host's SHA-256.
  Each contract state has a model (`StreamModel`, `ScheduleModel`, `FactoryModel`,
  `RegistryModel`); every operation's contract states its exact outcome over the model,
  and the `lemma_*` proof functions state the protocol's laws.  The `*_signer` functions
  name the account whose authorisation each operation needs, and the `initialize_once`
  functions refuse to set up a stream, schedule or factory a second time.
- `app/` — the Soroban contracts: each entry point loads storage into the library's
  types, reads the ledger time, requires the authorisation the library names, asks the
  library for the outcome, writes storage back and performs the token transfers,
  deployments and the factory's initialise-and-register calls.
  The registry takes its factory's address in its constructor, so a deployment creates
  the factory first, then the registry, then initialises the factory with the registry.
- `tests/` — the library's tests.
