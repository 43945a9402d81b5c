# treasury

The XION treasury contract: it issues bounded fee grants so that applications
can sponsor gas for their users, and keeps the grant configurations, the fee
configuration, the display parameters and the admin controls that scope what
each grant may spend.

- `src/` is the verified library. `treasury.rs` holds the treasury's state and
  every operation on it, each with a contract over the state's model;
  `fee_grant.rs` decides a fee grant from the chain's answers about the
  user's authz grants; `allowance.rs` shapes the allowance that is granted;
  `grant.rs` keeps the grant configurations in the order of the chain's store;
  `params.rs` validates the display parameters; `proto.rs` holds the protobuf
  messages and their codecs; `laws.rs` states and proves what holds across
  operations.
- `app/` is the CosmWasm contract around it: entry points, storage, JSON
  messages and the chain queries whose answers the library decides on.
- `tests/` runs the library with the real protobuf, URL and JSON crates.

## The xion allowances

The three `xion.v1` allowances are not part of the `cosmos-sdk-proto`
release used here, and the fork that defines them cannot be depended on
from this crate. Their codecs rest on one assumption, taken from xion's
`feegrant.proto` and not checked by anything in this repository: each has
the field numbers and field types of a message that the crate does have,
and prost encodes and decodes messages by field number and type alone.

| xion message | fields | decoded and encoded as |
|---|---|---|
| `AuthzAllowance` | `Any allowance = 1; string authz_grantee = 2` | `cosmos.gov.v1.MsgExecLegacyContent` |
| `ContractsAllowance` | `Any allowance = 1; repeated string contract_addresses = 2` | `cosmos.feegrant.v1beta1.AllowedMsgAllowance` |
| `MultiAnyAllowance` | `repeated Any allowances = 1` | `cosmos.auth.v1beta1.QueryModuleAccountsResponse` |

The tests build and read these allowances through the same messages, so
they cannot show a difference from the fork's definitions.

## Samples and test scaffolding

`src/samples.rs` holds sample configuration values (a basic allowance,
grant and fee configurations, an expiration) with their contracts. The
scaffolding that needs the chain's mock environment (mock addresses, a
treasury set up for a test) lives in `tests/`.
