# stellar-tickets-ticketing

The rules of the StellarTickets ticketing contract (events, ticket issuance,
primary sales with optional escrow, direct and batch transfers, gift claims,
admission, revocation and refunds, and the capped resale marketplace with
organizer royalties), written in Verus and proved against a mathematical
model of the contract's storage.

- `src/model.rs`: the model. `ContractState` is the contract's storage, the
  ledger and the addresses that authorized the invocation, as plain values;
  each entry point is a spec function from a state and the call's arguments to
  a `Transition` (new state and result, an error, or a host trap on arithmetic
  overflow), and demands the acting address's authorization where the
  contract does.
- `src/contract.rs`: `TicketingContract`, whose every public method ensures
  that it did exactly what its spec function says.
- `src/laws.rs`: properties across calls, proved over the model: the
  contract's invariant is kept by every call, revocation and admission are
  final, event terms never change, resale payments add up to the asking price,
  escrow and payment-token changes wait for their ledgers, unauthorized calls
  reveal nothing, and laws over whole sequences of invocations.
- `src/host.rs`: the host service the rules use (SHA-256), behind a trusted
  wrapper of `soroban-sdk`.
- `app/lib.rs`: the Soroban contract itself: authorization, storage, token
  transfers, event publishing and the lottery's PRNG draw around the verified
  core.
