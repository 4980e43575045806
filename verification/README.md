# tap-query

Pay The Graph's indexers directly with TAP receipts, and query them, without a gateway in the path.

Every indexer answers an unpaid query with `402 No Tap receipt was found in the request`. Normally
the gateway pays, which means anyone *measuring* indexer quality has to route through a gateway and
accept whichever indexer it picks. This crate removes the gateway from that path.

## The wire format

Two details that are expensive to get wrong, because both fail as an indistinguishable `402`:

- The `tap-receipt` header is **base64 of protobuf**, not JSON.
- The EIP-712 domain name for Horizon (v2) is **`GraphTallyCollector`**, not `TAP` (which was v1).

Signing under the wrong domain produces a valid signature that recovers to a different address, one
with no escrow, and the indexer reports insufficient balance.

## Layout

- `src/` is the library, verified with Verus: the receipt and its nonce, the protobuf messages and
  their wire format, the header, the signing of a receipt, the request that carries it, the reading
  of the reply, and the verdict on a probe. What an outside crate computes (the hash, the
  signature, base64, the fields of the wire format) stands behind a small function whose contract
  says what is relied on.
- `tests/` runs the library, with the outside crates linked.
- `app/` sends the requests over HTTP, and holds the probe: one signed receipt to a real indexer,
  and a report of why it was accepted or refused.

## Proved

- A header that was signed reads back as the receipt for its parameters and its time.
- It recovers to the address of the signer, wherever the x-coordinate behind the signature was not
  reduced. `alloy` does not keep that bit of the recovery id, but an `r` that is not below the
  field's excess over the group's order shows it, and all but about one in 2^127 are such.
- Under another domain it does not recover to the signer, as long as the receipt hashes to another
  scalar there and the key recovered there does not happen to share the signer's address.
- Two times, or two sets of parameters, never share a header. Two receipts, or two queries, at two
  readings of the clock less than 2^64 nanoseconds apart have different headers.
- A clock before the unix epoch gives an error and no request.
- A client never writes a receipt that is worth nothing.

## Scope

Signing and sending. Escrow funding, RAV aggregation and on-chain redemption are the payee's side of
the protocol and deliberately out of scope: a prober needs to pay, never to collect.

## Licence

MIT OR Apache-2.0
