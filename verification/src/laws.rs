//! What the operations of the library are for, said of their inputs and results alone.
use std::time::SystemTimeError;

use vstd::prelude::*;

use crate::client::{PaidQueryClient, PaidRequest, QueryError};
use crate::domain::{DomainView, Eip712Domain};
use crate::fields::FieldValue;
use crate::primitives::{Address, FixedBytes, U256};
use crate::probe::Verdict;
use crate::proto::{
    ReceiptProto, ReceiptProtoView, SignedReceiptProto, SignedReceiptProtoView, Uint128,
};
use crate::receipt::{ParamsView, Receipt, ReceiptParams, ReceiptView, SignError};

verus! {

// ---------------------------------------------------------------------------------------------
// The domain
// ---------------------------------------------------------------------------------------------

/// Whatever the chain and the contract, receipts are signed under the name `GraphTallyCollector` and
/// the version `1`, for that chain and that contract, without a salt.
pub proof fn domain_is_graph_tally_collector(chain_id: u64, verifier: Seq<u8>)
    ensures
        crate::domain::horizon_domain_view(chain_id, verifier).name == Some(
            "GraphTallyCollector"@,
        ),
        crate::domain::horizon_domain_view(chain_id, verifier).version == Some("1"@),
        crate::domain::horizon_domain_view(chain_id, verifier).chain_id == Some(chain_id as nat),
        crate::domain::horizon_domain_view(chain_id, verifier).verifying_contract == Some(verifier),
        crate::domain::horizon_domain_view(chain_id, verifier).salt is None,
{
}

/// Arbitrum One is chain 42161.
pub proof fn arbitrum_one_is_its_chain()
    ensures
        crate::domain::ARBITRUM_ONE_CHAIN_ID == 42161,
{
}

// ---------------------------------------------------------------------------------------------
// The header
// ---------------------------------------------------------------------------------------------

/// What a signed header holds in its bytes, found by keys and lengths alone.
///
/// Field 1 is the receipt: its fields 1 to 4 are the collection identifier, the payer, the data
/// service and the service provider as they were given, its field 5 is the very time, its field 6
/// is that time rotated left by 17 bits, exclusive-or the first eight bytes of the provider, and its
/// field 7 is the value in two halves. Field 2 is the signature. Returned are the bytes of the
/// receipt, of the value and of the signature.
pub proof fn header_holds_the_receipt(
    key: Seq<u8>,
    domain: DomainView,
    params: ParamsView,
    timestamp_ns: u64,
    header: Seq<char>,
    bytes: Seq<u8>,
) -> (r: (Seq<u8>, Seq<u8>, Seq<u8>))
    requires
        params.collection_id.len() == 32,
        params.payer.len() == 20,
        params.data_service.len() == 20,
        params.service_provider.len() == 20,
        crate::receipt::signs_to(key, domain, params, timestamp_ns, header),
        crate::header::base64_text(bytes) == header,
    ensures
        crate::fields::fields(bytes) == Some(
            seq![(1u32, FieldValue::Bytes(r.0)), (2u32, FieldValue::Bytes(r.2))],
        ),
        ({
            let p = params.service_provider;
            let nonce = ((timestamp_ns << 17) | (timestamp_ns >> 47)) ^ ((p[0] + p[1] * 0x100
                + p[2] * 0x1_0000 + p[3] * 0x100_0000 + p[4] * 0x1_0000_0000 + p[5]
                * 0x100_0000_0000 + p[6] * 0x1_0000_0000_0000 + p[7]
                * 0x100_0000_0000_0000) as u64);
            crate::fields::fields(r.0) == Some(
                seq![
                    (1u32, FieldValue::Bytes(params.collection_id)),
                    (2u32, FieldValue::Bytes(params.payer)),
                    (3u32, FieldValue::Bytes(params.data_service)),
                    (4u32, FieldValue::Bytes(params.service_provider)),
                ] + (crate::fields::integer_unless_zero(5, timestamp_ns) + (
                crate::fields::integer_unless_zero(6, nonce) + seq![
                    (7u32, FieldValue::Bytes(r.1)),
                ])),
            )
        }),
        crate::fields::fields(r.1) == Some(
            crate::fields::integer_unless_zero(
                1,
                (params.value / 0x1_0000_0000_0000_0000) as u64,
            ) + crate::fields::integer_unless_zero(
                2,
                (params.value % 0x1_0000_0000_0000_0000) as u64,
            ),
        ),
        r.2.len() == 65,
{
    let receipt = crate::receipt::receipt_at(params, timestamp_ns);
    let (rs, recovery_id) = crate::signer::ecdsa_signature(
        key,
        crate::receipt::receipt_hash(domain, receipt),
    )->0;
    let signature = crate::signer::signature_bytes(rs, recovery_id);
    let m = crate::receipt::signed_message(receipt, signature);
    let inner = crate::receipt::receipt_message(receipt);
    let amount = Uint128::split(params.value);
    crate::header::base64_is_injective(bytes, crate::proto::signed_receipt_wire(m));
    crate::proto::lemma_receipt_wire_len(inner);
    crate::fields::signed_receipt_fields(m);
    crate::fields::receipt_fields(inner);
    crate::fields::uint128_fields(amount);
    let body = crate::proto::receipt_wire(inner);
    let halves = crate::proto::uint128_wire(amount);
    assert(crate::fields::fields(bytes)->0 =~= seq![
        (1u32, FieldValue::Bytes(body)),
        (2u32, FieldValue::Bytes(signature)),
    ]);
    let tail = crate::fields::integer_unless_zero(5, timestamp_ns) + (
    crate::fields::integer_unless_zero(6, inner.nonce) + seq![(7u32, FieldValue::Bytes(halves))]);
    assert(crate::fields::fields(body)->0 =~= seq![
        (1u32, FieldValue::Bytes(params.collection_id)),
        (2u32, FieldValue::Bytes(params.payer)),
        (3u32, FieldValue::Bytes(params.data_service)),
        (4u32, FieldValue::Bytes(params.service_provider)),
    ] + tail);
    (body, halves, signature)
}

/// What is read from a signed header: every field of the message is the parameter it stands for, the
/// timestamp is the very time, the nonce is that time rotated left by 17 bits, exclusive-or the
/// first eight bytes of the provider. The signature is the one of the key over the hash of exactly
/// what the message holds.
pub proof fn header_reads_as_the_receipt(
    key: Seq<u8>,
    domain: DomainView,
    params: ParamsView,
    timestamp_ns: u64,
    header: Seq<char>,
    bytes: Seq<u8>,
)
    requires
        params.collection_id.len() == 32,
        params.payer.len() == 20,
        params.data_service.len() == 20,
        params.service_provider.len() == 20,
        crate::receipt::signs_to(key, domain, params, timestamp_ns, header),
        crate::header::base64_text(bytes) == header,
    ensures
        crate::proto::signed_receipt_read(bytes) matches Some(m) && (m.message matches Some(receipt)
            && {
            let p = params.service_provider;
            &&& receipt.collection_id == params.collection_id
            &&& receipt.payer == params.payer
            &&& receipt.data_service == params.data_service
            &&& receipt.service_provider == params.service_provider
            &&& receipt.timestamp_ns == timestamp_ns
            &&& receipt.nonce == ((timestamp_ns << 17) | (timestamp_ns >> 47)) ^ ((p[0] + p[1]
                * 0x100 + p[2] * 0x1_0000 + p[3] * 0x100_0000 + p[4] * 0x1_0000_0000 + p[5]
                * 0x100_0000_0000 + p[6] * 0x1_0000_0000_0000 + p[7]
                * 0x100_0000_0000_0000) as u64)
            &&& (receipt.value matches Some(v) && v.high as int * 0x1_0000_0000_0000_0000 + v.low
                == params.value)
            &&& (crate::signer::ecdsa_signature(
                key,
                crate::receipt::receipt_hash(
                    domain,
                    ReceiptView {
                        collection_id: receipt.collection_id,
                        payer: receipt.payer,
                        data_service: receipt.data_service,
                        service_provider: receipt.service_provider,
                        timestamp_ns: receipt.timestamp_ns,
                        nonce: receipt.nonce,
                        value: params.value,
                    },
                ),
            ) matches Some((rs, recovery_id)) && rs.len() == 64 && m.signature == rs.push(
                if recovery_id % 2 == 0 {
                    27u8
                } else {
                    28u8
                },
            ))
        }),
{
    crate::receipt::signed_header_reads_back(key, domain, params, timestamp_ns, header, bytes);
    let receipt = crate::receipt::receipt_at(params, timestamp_ns);
    let (rs, recovery_id) = crate::signer::ecdsa_signature(
        key,
        crate::receipt::receipt_hash(domain, receipt),
    )->0;
    crate::receipt::header_reads_back(
        receipt,
        crate::signer::signature_bytes(rs, recovery_id),
        bytes,
    );
}

/// A receipt that is not signed fails with the signer's own error on the hash of that receipt, and
/// only where it has no signature.
pub proof fn signing_fails_only_without_a_signature(
    key: Seq<u8>,
    domain: DomainView,
    params: ParamsView,
    timestamp_ns: u64,
    e: SignError,
)
    requires
        crate::receipt::signing_fails(key, domain, params, timestamp_ns, e),
    ensures
        ({
            let p = params.service_provider;
            let hash = crate::receipt::receipt_hash(
                domain,
                ReceiptView {
                    collection_id: params.collection_id,
                    payer: params.payer,
                    data_service: params.data_service,
                    service_provider: params.service_provider,
                    timestamp_ns,
                    nonce: ((timestamp_ns << 17) | (timestamp_ns >> 47)) ^ ((p[0] + p[1] * 0x100
                        + p[2] * 0x1_0000 + p[3] * 0x100_0000 + p[4] * 0x1_0000_0000 + p[5]
                        * 0x100_0000_0000 + p[6] * 0x1_0000_0000_0000 + p[7]
                        * 0x100_0000_0000_0000) as u64),
                    value: params.value,
                },
            );
            &&& crate::signer::ecdsa_signature(key, hash) is None
            &&& e matches SignError::SigningFailed { cause }
            &&& cause == crate::signer::signing_error(key, hash)
        }),
{
}

/// A reading of the clock decides what becomes of signing: before the epoch there is an error that
/// keeps the clock's, and no header; otherwise a header carries the low 64 bits of the nanoseconds.
pub proof fn signing_goes_by_the_clock(
    key: Seq<u8>,
    domain: DomainView,
    params: ParamsView,
    reading: Result<u128, SystemTimeError>,
    r: Result<String, SignError>,
)
    requires
        crate::receipt::signing_outcome(key, domain, params, reading, r),
    ensures
        reading is Err <==> (r is Err && r->Err_0 is ClockBeforeEpoch),
        reading matches Err(cause) ==> r == Err::<String, SignError>(
            SignError::ClockBeforeEpoch { cause },
        ),
        r matches Ok(header) ==> reading is Ok && crate::receipt::signs_to(
            key,
            domain,
            params,
            (reading->Ok_0 % 0x1_0000_0000_0000_0000) as u64,
            header@,
        ),
        (reading is Ok && r is Err) ==> crate::receipt::signing_fails(
            key,
            domain,
            params,
            (reading->Ok_0 % 0x1_0000_0000_0000_0000) as u64,
            r->Err_0,
        ),
{
}

// ---------------------------------------------------------------------------------------------
// The query
// ---------------------------------------------------------------------------------------------

/// A paid query at a reading of the clock is a `POST` of the query itself, to the indexer's address
/// without the slashes at its end, with the path of the deployment. Its `tap-receipt` header is
/// signed with the client's key, under the domain of the client's chain and contract, for the
/// client's payer, data service and value, the given indexer, the padded allocation, and the low 64
/// bits of the nanoseconds. Returned is how much of the indexer's address is kept.
pub proof fn query_pays_the_indexer(
    client: PaidQueryClient,
    indexer_url: Seq<char>,
    indexer_address: Seq<u8>,
    allocation: Seq<u8>,
    deployment: Seq<char>,
    query: Seq<char>,
    reading: Result<u128, SystemTimeError>,
    request: PaidRequest,
) -> (k: int)
    requires
        client.query_outcome(
            indexer_url,
            indexer_address,
            allocation,
            deployment,
            query,
            reading,
            Ok(request),
        ),
    ensures
        reading is Ok,
        request.method@ == "POST"@,
        request.body@ == query,
        0 <= k <= indexer_url.len(),
        forall|i: int| k <= i < indexer_url.len() ==> indexer_url[i] == '/',
        k > 0 ==> indexer_url[k - 1] != '/',
        request.url@ == indexer_url.take(k) + "/subgraphs/id/"@ + deployment,
        request.headers@.len() == 2,
        request.headers@[0].name@ == "tap-receipt"@,
        request.headers@[1].name@ == "content-type"@,
        request.headers@[1].value@ == "application/json"@,
        crate::receipt::signs_to(
            client.key(),
            DomainView {
                name: Some("GraphTallyCollector"@),
                version: Some("1"@),
                chain_id: Some(client.context().chain_id as nat),
                verifying_contract: Some(client.context().verifier.0@),
                salt: None,
            },
            ParamsView {
                collection_id: seq![0u8, 0, 0, 0, 0, 0, 0, 0, 0, 0, 0, 0] + allocation,
                payer: client.context().payer.0@,
                data_service: client.context().data_service.0@,
                service_provider: indexer_address,
                value: client.value(),
            },
            (reading->Ok_0 % 0x1_0000_0000_0000_0000) as u64,
            request.headers@[0].value@,
        ),
{
    let t = crate::clock::timestamp_of(reading->Ok_0);
    let header = choose|h: Seq<char>|
        {
            &&& #[trigger] client.pays_with(indexer_address, allocation, t, h)
            &&& request@ == crate::client::request_view(indexer_url, deployment, query, h)
        };
    assert(request@.headers.len() == 2);
    assert(request@.headers[0] == ("tap-receipt"@, header));
    assert(request@.headers[0] == (request.headers@[0].name@, request.headers@[0].value@));
    assert(request@.headers[1] == ("content-type"@, "application/json"@));
    assert(request@.headers[1] == (request.headers@[1].name@, request.headers@[1].value@));
    assert(crate::client::collection_id(allocation) =~= seq![
        0u8,
        0,
        0,
        0,
        0,
        0,
        0,
        0,
        0,
        0,
        0,
        0,
    ] + allocation);
    crate::client::slashes_are_cut(indexer_url)
}

/// A query gives no request exactly where the clock stands before the epoch, whose error is kept, or
/// where the receipt has no signature, and then the signer's error on that receipt is kept.
pub proof fn query_errs_only_without_a_receipt(
    client: PaidQueryClient,
    indexer_url: Seq<char>,
    indexer_address: Seq<u8>,
    allocation: Seq<u8>,
    deployment: Seq<char>,
    query: Seq<char>,
    reading: Result<u128, SystemTimeError>,
    r: Result<PaidRequest, QueryError>,
)
    requires
        client.query_outcome(
            indexer_url,
            indexer_address,
            allocation,
            deployment,
            query,
            reading,
            r,
        ),
    ensures
        reading matches Err(cause) ==> r == Err::<PaidRequest, QueryError>(
            QueryError::Sign(SignError::ClockBeforeEpoch { cause }),
        ),
        (reading is Ok && r is Err) ==> (r->Err_0 matches QueryError::Sign(e)
            && crate::receipt::signing_fails(
            client.key(),
            DomainView {
                name: Some("GraphTallyCollector"@),
                version: Some("1"@),
                chain_id: Some(client.context().chain_id as nat),
                verifying_contract: Some(client.context().verifier.0@),
                salt: None,
            },
            ParamsView {
                collection_id: seq![0u8, 0, 0, 0, 0, 0, 0, 0, 0, 0, 0, 0] + allocation,
                payer: client.context().payer.0@,
                data_service: client.context().data_service.0@,
                service_provider: indexer_address,
                value: client.value(),
            },
            (reading->Ok_0 % 0x1_0000_0000_0000_0000) as u64,
            e,
        )),
{
    assert(crate::client::collection_id(allocation) =~= seq![
        0u8,
        0,
        0,
        0,
        0,
        0,
        0,
        0,
        0,
        0,
        0,
        0,
    ] + allocation);
}

/// The receipt in a query that was made by the clock carries the clock's own nanoseconds: where the
/// result is a request, the clock showed some duration since the epoch, and what is read from the
/// header has its nanoseconds, modulo 2^64, for a timestamp.
pub proof fn query_carries_the_clocks_nanoseconds(
    client: PaidQueryClient,
    indexer_url: Seq<char>,
    indexer_address: Seq<u8>,
    allocation: Seq<u8>,
    deployment: Seq<char>,
    query: Seq<char>,
    reading: Result<u128, SystemTimeError>,
    request: PaidRequest,
    bytes: Seq<u8>,
)
    requires
        indexer_address.len() == 20,
        allocation.len() == 20,
        crate::clock::clock_shows(reading),
        client.query_outcome(
            indexer_url,
            indexer_address,
            allocation,
            deployment,
            query,
            reading,
            Ok(request),
        ),
        crate::header::base64_text(bytes) == request.headers@[0].value@,
    ensures
        exists|duration: std::time::Duration|
            {
                &&& reading == Ok::<u128, SystemTimeError>(
                    #[trigger] crate::clock::duration_nanos(duration),
                )
                &&& (crate::proto::signed_receipt_read(bytes) matches Some(m) && (
                m.message matches Some(receipt) && receipt.timestamp_ns
                    == crate::clock::duration_nanos(duration) as int % 0x1_0000_0000_0000_0000))
            },
{
    let k = query_pays_the_indexer(
        client,
        indexer_url,
        indexer_address,
        allocation,
        deployment,
        query,
        reading,
        request,
    );
    crate::clock::clock_counts_nanoseconds(reading);
    header_reads_as_the_receipt(
        client.key(),
        client.domain_view(),
        client.params(indexer_address, allocation),
        crate::clock::timestamp_of(reading->Ok_0),
        request.headers@[0].value@,
        bytes,
    );
    let duration = choose|duration: std::time::Duration|
        reading->Ok_0 == #[trigger] crate::clock::duration_nanos(duration);
    assert(reading == Ok::<u128, SystemTimeError>(crate::clock::duration_nanos(duration)));
}

/// What a client writes into a receipt: its own payer, data service and value, the indexer, and the
/// allocation behind twelve zero bytes.
pub proof fn client_writes_its_own_parameters(
    client: PaidQueryClient,
    indexer_address: Seq<u8>,
    allocation: Seq<u8>,
)
    ensures
        client.params(indexer_address, allocation).payer == client.context().payer.0@,
        client.params(indexer_address, allocation).data_service
            == client.context().data_service.0@,
        client.params(indexer_address, allocation).service_provider == indexer_address,
        client.params(indexer_address, allocation).value == client.value(),
        client.params(indexer_address, allocation).collection_id.len() == 12 + allocation.len(),
        forall|i: int|
            0 <= i < 12 ==> client.params(indexer_address, allocation).collection_id[i] == 0,
        client.params(indexer_address, allocation).collection_id.skip(12) == allocation,
{
    assert(client.params(indexer_address, allocation).collection_id.skip(12) =~= allocation);
}

// ---------------------------------------------------------------------------------------------
// The payee's reading
// ---------------------------------------------------------------------------------------------

/// The signer of a message is found over the hash of exactly what the message holds: a receipt whose
/// identifier has 32 bytes, whose addresses have 20, and whose value is there. Nothing else has a
/// signer.
pub proof fn signer_is_found_over_the_message(domain: DomainView, m: SignedReceiptProtoView)
    ensures
        m.message is None ==> crate::indexer::message_signer(domain, m) is None,
        m.message matches Some(r) ==> {
            let complete = r.collection_id.len() == 32 && r.payer.len() == 20
                && r.data_service.len() == 20 && r.service_provider.len() == 20 && r.value is Some;
            let hash = crate::receipt::receipt_hash(
                domain,
                ReceiptView {
                    collection_id: r.collection_id,
                    payer: r.payer,
                    data_service: r.data_service,
                    service_provider: r.service_provider,
                    timestamp_ns: r.timestamp_ns,
                    nonce: r.nonce,
                    value: (r.value->0.high * 0x1_0000_0000_0000_0000 + r.value->0.low) as u128,
                },
            );
            &&& !complete ==> crate::indexer::message_signer(domain, m) is None
            &&& (complete && crate::signer::recovered_key(m.signature, hash) is None)
                ==> crate::indexer::message_signer(domain, m) is None
            &&& (complete && crate::signer::recovered_key(m.signature, hash) is Some)
                ==> crate::indexer::message_signer(domain, m) == Some(
                crate::signer::public_key_address(
                    crate::signer::recovered_key(m.signature, hash)->0,
                ),
            )
        },
{
}

// ---------------------------------------------------------------------------------------------
// The readers
// ---------------------------------------------------------------------------------------------

/// A wide number is read field by field: field 1 sets the high half and field 2 the low half, as
/// integers; any other field leaves both as they are; at the end of the bytes they stand.
pub proof fn uint128_is_read_by_number(acc: Uint128, b: Seq<u8>, limit: nat)
    ensures
        b.len() == 0 ==> crate::proto::uint128_merge(acc, b, limit) == Some(acc),
        b.len() > 0 && crate::wire::read_key(b) is None ==> crate::proto::uint128_merge(
            acc,
            b,
            limit,
        ) is None,
        b.len() > 0 ==> (crate::wire::read_key(b) matches Some((number, wire_type, after)) ==> {
            let read = crate::proto::uint128_merge(acc, b, limit);
            let integer = crate::wire::read_uint64(wire_type, after);
            let passed = crate::wire::skip_unknown(number, wire_type, after, limit);
            &&& number == 1 && integer is Some ==> read == crate::proto::uint128_merge(
                Uint128 { high: (integer->0).0, low: acc.low },
                (integer->0).1,
                limit,
            )
            &&& number == 2 && integer is Some ==> read == crate::proto::uint128_merge(
                Uint128 { high: acc.high, low: (integer->0).0 },
                (integer->0).1,
                limit,
            )
            &&& 1 <= number <= 2 && integer is None ==> read is None
            &&& number > 2 && passed is Some ==> read == crate::proto::uint128_merge(
                acc,
                passed->0,
                limit,
            )
            &&& number > 2 && passed is None ==> read is None
        }),
{
}

/// A receipt is read field by field: the fields 1 to 4 set the collection identifier, the payer, the
/// data service and the service provider, as bytes; 5 and 6 set the timestamp and the nonce, as
/// integers; 7 is read into the value that is there, or into zero, one level deeper; any other field
/// changes nothing; at the end of the bytes the receipt stands.
pub proof fn receipt_is_read_by_number(acc: ReceiptProtoView, b: Seq<u8>, limit: nat)
    ensures
        b.len() == 0 ==> crate::proto::receipt_merge(acc, b, limit) == Some(acc),
        b.len() > 0 && crate::wire::read_key(b) is None ==> crate::proto::receipt_merge(
            acc,
            b,
            limit,
        ) is None,
        b.len() > 0 ==> (crate::wire::read_key(b) matches Some((number, wire_type, after)) ==> {
            let read = crate::proto::receipt_merge(acc, b, limit);
            let bytes = crate::wire::read_bytes(wire_type, after);
            let integer = crate::wire::read_uint64(wire_type, after);
            let passed = crate::wire::skip_unknown(number, wire_type, after, limit);
            let there = match acc.value {
                Some(v) => v,
                None => Uint128 { high: 0, low: 0 },
            };
            let inner = crate::proto::uint128_merge(there, (bytes->0).0, (limit - 1) as nat);
            &&& number == 1 && bytes is Some ==> read == crate::proto::receipt_merge(
                ReceiptProtoView { collection_id: (bytes->0).0, ..acc },
                (bytes->0).1,
                limit,
            )
            &&& number == 2 && bytes is Some ==> read == crate::proto::receipt_merge(
                ReceiptProtoView { payer: (bytes->0).0, ..acc },
                (bytes->0).1,
                limit,
            )
            &&& number == 3 && bytes is Some ==> read == crate::proto::receipt_merge(
                ReceiptProtoView { data_service: (bytes->0).0, ..acc },
                (bytes->0).1,
                limit,
            )
            &&& number == 4 && bytes is Some ==> read == crate::proto::receipt_merge(
                ReceiptProtoView { service_provider: (bytes->0).0, ..acc },
                (bytes->0).1,
                limit,
            )
            &&& number == 5 && integer is Some ==> read == crate::proto::receipt_merge(
                ReceiptProtoView { timestamp_ns: (integer->0).0, ..acc },
                (integer->0).1,
                limit,
            )
            &&& number == 6 && integer is Some ==> read == crate::proto::receipt_merge(
                ReceiptProtoView { nonce: (integer->0).0, ..acc },
                (integer->0).1,
                limit,
            )
            &&& number == 7 && bytes is Some && limit > 0 && inner is Some ==> read
                == crate::proto::receipt_merge(
                ReceiptProtoView { value: inner, ..acc },
                (bytes->0).1,
                limit,
            )
            &&& number == 7 && (bytes is None || limit == 0 || inner is None) ==> read is None
            &&& 1 <= number <= 4 && bytes is None ==> read is None
            &&& 5 <= number <= 6 && integer is None ==> read is None
            &&& number > 7 && passed is Some ==> read == crate::proto::receipt_merge(
                acc,
                passed->0,
                limit,
            )
            &&& number > 7 && passed is None ==> read is None
        }),
{
}

/// A signed receipt is read field by field: field 1 is read into the receipt that is there, or into
/// an empty one, one level deeper; field 2 sets the signature; any other field changes nothing; at
/// the end of the bytes the message stands.
pub proof fn signed_receipt_is_read_by_number(acc: SignedReceiptProtoView, b: Seq<u8>, limit: nat)
    ensures
        b.len() == 0 ==> crate::proto::signed_receipt_merge(acc, b, limit) == Some(acc),
        b.len() > 0 && crate::wire::read_key(b) is None ==> crate::proto::signed_receipt_merge(
            acc,
            b,
            limit,
        ) is None,
        b.len() > 0 ==> (crate::wire::read_key(b) matches Some((number, wire_type, after)) ==> {
            let read = crate::proto::signed_receipt_merge(acc, b, limit);
            let bytes = crate::wire::read_bytes(wire_type, after);
            let passed = crate::wire::skip_unknown(number, wire_type, after, limit);
            let there = match acc.message {
                Some(m) => m,
                None => ReceiptProtoView {
                    collection_id: seq![],
                    payer: seq![],
                    data_service: seq![],
                    service_provider: seq![],
                    timestamp_ns: 0,
                    nonce: 0,
                    value: None,
                },
            };
            let inner = crate::proto::receipt_merge(there, (bytes->0).0, (limit - 1) as nat);
            &&& number == 1 && bytes is Some && limit > 0 && inner is Some ==> read
                == crate::proto::signed_receipt_merge(
                SignedReceiptProtoView { message: inner, ..acc },
                (bytes->0).1,
                limit,
            )
            &&& number == 1 && (bytes is None || limit == 0 || inner is None) ==> read is None
            &&& number == 2 && bytes is Some ==> read == crate::proto::signed_receipt_merge(
                SignedReceiptProtoView { signature: (bytes->0).0, ..acc },
                (bytes->0).1,
                limit,
            )
            &&& number == 2 && bytes is None ==> read is None
            &&& number > 2 && passed is Some ==> read == crate::proto::signed_receipt_merge(
                acc,
                passed->0,
                limit,
            )
            &&& number > 2 && passed is None ==> read is None
        }),
{
}

/// A reader starts from a message in which nothing is set, and descends a hundred levels.
pub proof fn readers_start_empty(b: Seq<u8>)
    ensures
        crate::proto::uint128_read(b) == crate::proto::uint128_merge(
            Uint128 { high: 0, low: 0 },
            b,
            100,
        ),
        crate::proto::receipt_read(b) == crate::proto::receipt_merge(
            ReceiptProtoView {
                collection_id: seq![],
                payer: seq![],
                data_service: seq![],
                service_provider: seq![],
                timestamp_ns: 0,
                nonce: 0,
                value: None,
            },
            b,
            100,
        ),
        crate::proto::signed_receipt_read(b) == crate::proto::signed_receipt_merge(
            SignedReceiptProtoView { message: None, signature: seq![] },
            b,
            100,
        ),
{
}

// ---------------------------------------------------------------------------------------------
// The wire format
// ---------------------------------------------------------------------------------------------

/// An integer is written seven bits a byte, the lowest first, with the top bit set on all bytes but
/// the last, and read back so.
pub proof fn integers_are_seven_bits_a_byte(n: nat, b: Seq<u8>, count: nat)
    ensures
        n < 0x80 ==> crate::wire::varint(n) == seq![n as u8],
        n >= 0x80 ==> crate::wire::varint(n) == seq![(0x80 + n % 0x80) as u8]
            + crate::wire::varint(n / 0x80),
        crate::wire::read_varint(b) == crate::wire::read_varint_from(b, 0),
        b.len() == 0 || count >= 10 ==> crate::wire::read_varint_from(b, count) is None,
        b.len() > 0 && count < 9 && b[0] < 0x80 ==> crate::wire::read_varint_from(b, count) == Some(
            (b[0] as nat, b.skip(1)),
        ),
        b.len() > 0 && count == 9 && b[0] < 2 ==> crate::wire::read_varint_from(b, count) == Some(
            (b[0] as nat, b.skip(1)),
        ),
        b.len() > 0 && count == 9 && b[0] >= 2 ==> crate::wire::read_varint_from(b, count) is None,
        b.len() > 0 && count < 9 && b[0] >= 0x80 ==> match crate::wire::read_varint_from(
            b.skip(1),
            count + 1,
        ) {
            Some((high, rest)) => crate::wire::read_varint_from(b, count) == Some(
                ((b[0] - 0x80 + 0x80 * high) as nat, rest),
            ),
            None => crate::wire::read_varint_from(b, count) is None,
        },
{
    if b.len() > 0 && count == 9 {
        assert(crate::wire::read_varint_from(b.skip(1), 10) is None);
    }
}

/// A field is a key, which is eight times its number and its wire type, and then an integer, or a
/// length and so many bytes. A field that holds zero, or no bytes, is not written.
pub proof fn fields_are_keys_and_values(number: nat, wire_type: u8, value: u64, bytes: Seq<u8>)
    ensures
        crate::wire::field_key(number, wire_type) == crate::wire::varint(
            8 * number + wire_type as nat,
        ),
        crate::wire::varint_field(number, value as nat) == crate::wire::varint(8 * number)
            + crate::wire::varint(value as nat),
        crate::wire::bytes_field(number, bytes) == crate::wire::varint(8 * number + 2)
            + crate::wire::varint(bytes.len()) + bytes,
        crate::wire::implicit_uint64(number, 0).len() == 0,
        value != 0 ==> crate::wire::implicit_uint64(number, value) == crate::wire::varint(
            8 * number,
        ) + crate::wire::varint(value as nat),
        bytes.len() == 0 ==> crate::wire::implicit_bytes(number, bytes).len() == 0,
        bytes.len() > 0 ==> crate::wire::implicit_bytes(number, bytes) == crate::wire::varint(
            8 * number + 2,
        ) + crate::wire::varint(bytes.len()) + bytes,
{
}

/// A key is read as an integer of 32 bits: the low three bits are the wire type, of which six and
/// seven are none, and the rest is the number, which is not zero.
pub proof fn keys_are_numbers_and_wire_types(b: Seq<u8>)
    ensures
        match crate::wire::read_varint(b) {
            Some((key, rest)) => if 8 <= key < 0x1_0000_0000 && key % 8 < 6 {
                crate::wire::read_key(b) == Some(((key / 8) as u32, (key % 8) as u8, rest))
            } else {
                crate::wire::read_key(b) is None
            },
            None => crate::wire::read_key(b) is None,
        },
{
}

/// The value of a field is read by its wire type, zero for an integer and two for bytes behind their
/// length, and not otherwise. What follows is left as it is.
pub proof fn values_are_read_by_wire_type(wire_type: u8, b: Seq<u8>)
    ensures
        wire_type != 0 ==> crate::wire::read_uint64(wire_type, b) is None,
        match crate::wire::read_varint(b) {
            Some((n, rest)) => crate::wire::read_uint64(0, b) == Some((n as u64, rest)),
            None => crate::wire::read_uint64(0, b) is None,
        },
        wire_type != 2 ==> crate::wire::read_bytes(wire_type, b) is None,
        match crate::wire::read_varint(b) {
            Some((n, rest)) => if n <= rest.len() {
                crate::wire::read_bytes(2, b) == Some((rest.take(n as int), rest.skip(n as int)))
            } else {
                crate::wire::read_bytes(2, b) is None
            },
            None => crate::wire::read_bytes(2, b) is None,
        },
{
}

/// An unknown field is passed over by its wire type: an integer, eight bytes, bytes behind their
/// length, a group up to the key that closes it, or four bytes. A key that closes a group is no
/// field, and at the last level nothing is passed over.
pub proof fn unknown_fields_are_passed_over(number: u32, wire_type: u8, b: Seq<u8>, limit: nat)
    ensures
        limit == 0 ==> crate::wire::skip_unknown(number, wire_type, b, limit) is None,
        limit > 0 ==> {
            &&& match crate::wire::read_varint(b) {
                Some((_, rest)) => crate::wire::skip_unknown(number, 0, b, limit) == Some(rest),
                None => crate::wire::skip_unknown(number, 0, b, limit) is None,
            }
            &&& b.len() < 8 ==> crate::wire::skip_unknown(number, 1, b, limit) is None
            &&& b.len() >= 8 ==> crate::wire::skip_unknown(number, 1, b, limit) == Some(b.skip(8))
            &&& match crate::wire::read_bytes(2, b) {
                Some((_, rest)) => crate::wire::skip_unknown(number, 2, b, limit) == Some(rest),
                None => crate::wire::skip_unknown(number, 2, b, limit) is None,
            }
            &&& crate::wire::skip_unknown(number, 3, b, limit) == crate::wire::skip_groups(
                seq![number],
                b,
                limit,
            )
            &&& crate::wire::skip_unknown(number, 4, b, limit) is None
            &&& b.len() < 4 ==> crate::wire::skip_unknown(number, 5, b, limit) is None
            &&& b.len() >= 4 ==> crate::wire::skip_unknown(number, 5, b, limit) == Some(b.skip(4))
        },
{
}

/// Groups are passed over key by key: a key that closes a group has the number of the innermost
/// one; every other field counts against the levels that are left, and is passed over as an unknown
/// field is, a group by being opened.
pub proof fn groups_are_passed_over(open: Seq<u32>, b: Seq<u8>, limit: nat)
    ensures
        open.len() == 0 ==> crate::wire::skip_groups(open, b, limit) == Some(b),
        open.len() > 0 ==> match crate::wire::read_key(b) {
            None => crate::wire::skip_groups(open, b, limit) is None,
            Some((number, wire_type, after)) => {
                let passed = crate::wire::skip_groups(open, b, limit);
                let value = crate::wire::skip_unknown(number, wire_type, after, 1);
                &&& wire_type == 4 && number == open.last() ==> passed == crate::wire::skip_groups(
                    open.drop_last(),
                    after,
                    limit,
                )
                &&& wire_type == 4 && number != open.last() ==> passed is None
                &&& wire_type != 4 && open.len() >= limit ==> passed is None
                &&& wire_type == 3 && open.len() < limit ==> passed == crate::wire::skip_groups(
                    open.push(number),
                    after,
                    limit,
                )
                &&& wire_type != 3 && wire_type != 4 && open.len() < limit && value is Some
                    ==> passed == crate::wire::skip_groups(open, value->0, limit)
                &&& wire_type != 3 && wire_type != 4 && open.len() < limit && value is None
                    ==> passed is None
            },
        },
{
}

// ---------------------------------------------------------------------------------------------
// Base64
// ---------------------------------------------------------------------------------------------

proof fn lemma_alphabet(v: int)
    requires
        0 <= v < 64,
    ensures
        "ABCDEFGHIJKLMNOPQRSTUVWXYZabcdefghijklmnopqrstuvwxyz0123456789+/"@.len() == 64,
        crate::header::base64_char(v)
            == "ABCDEFGHIJKLMNOPQRSTUVWXYZabcdefghijklmnopqrstuvwxyz0123456789+/"@[v],
{
    reveal_strlit("ABCDEFGHIJKLMNOPQRSTUVWXYZabcdefghijklmnopqrstuvwxyz0123456789+/");
}

proof fn lemma_cut_in_four(a: u8, b: u8, c: u8)
    ensures
        (a * 0x1_0000 + b * 0x100 + c) / 0x4_0000 == a as int / 4,
        (a * 0x1_0000 + b * 0x100 + c) / 0x1000 % 64 == a as int % 4 * 16 + b as int / 16,
        (a * 0x1_0000 + b * 0x100 + c) / 64 % 64 == b as int % 16 * 4 + c as int / 64,
        (a * 0x1_0000 + b * 0x100 + c) % 64 == c as int % 64,
{
    let n = a * 0x1_0000 + b * 0x100 + c;
    assert(n / 0x4_0000 == a as int / 4);
    assert(n / 0x1000 == 16 * a + b as int / 16);
    assert((16 * a + b as int / 16) % 64 == a as int % 4 * 16 + b as int / 16);
    assert(n / 64 == 0x400 * a + 4 * b + c as int / 64);
    assert((0x400 * a + 4 * b + c as int / 64) % 64 == b as int % 16 * 4 + c as int / 64);
}

/// In the base64 form of bytes, each group of four characters spells three bytes as one number in
/// base 64, in the standard alphabet, with zero for bytes that are not there; characters that would
/// spell no bit of a byte are `=`.
pub proof fn base64_spells_three_bytes_in_four(b: Seq<u8>, i: int)
    requires
        0 <= i < 4 * ((b.len() + 2) / 3),
    ensures
        crate::header::base64_text(b).len() == 4 * ((b.len() + 2) / 3),
        6 * i >= 8 * b.len() ==> crate::header::base64_text(b)[i] == '=',
        6 * i < 8 * b.len() ==> {
            let k = i / 4 * 3;
            let first = b[k] as int;
            let second = if k + 1 < b.len() {
                b[k + 1] as int
            } else {
                0
            };
            let third = if k + 2 < b.len() {
                b[k + 2] as int
            } else {
                0
            };
            let number = first * 0x1_0000 + second * 0x100 + third;
            let digit = if i % 4 == 0 {
                number / 0x4_0000
            } else if i % 4 == 1 {
                number / 0x1000 % 64
            } else if i % 4 == 2 {
                number / 64 % 64
            } else {
                number % 64
            };
            crate::header::base64_text(b)[i]
                == "ABCDEFGHIJKLMNOPQRSTUVWXYZabcdefghijklmnopqrstuvwxyz0123456789+/"@[digit]
        },
{
    if 6 * i < 8 * b.len() {
        let k = i / 4 * 3;
        let first = b[k];
        let second = crate::header::byte_or_zero(b, k + 1) as u8;
        let third = crate::header::byte_or_zero(b, k + 2) as u8;
        assert(k < b.len());
        lemma_cut_in_four(first, second, third);
        lemma_alphabet(crate::header::sextet(b, i));
        assert(crate::header::base64_text(b)[i] == crate::header::base64_char(
            crate::header::sextet(b, i),
        ));
    }
}

// ---------------------------------------------------------------------------------------------
// The probe
// ---------------------------------------------------------------------------------------------

/// A text occurs in another exactly where the other is something, that text, and something.
pub proof fn occurring_is_standing_between(part: Seq<char>, text: Seq<char>)
    ensures
        crate::probe::occurs_in(part, text) <==> exists|before: Seq<char>, after: Seq<char>|
            text == #[trigger] (before + part + after),
{
    if crate::probe::occurs_in(part, text) {
        let i = choose|i: int|
            0 <= i <= text.len() - part.len() && #[trigger] text.subrange(i, i + part.len())
                == part;
        let before = text.take(i);
        let after = text.skip(i + part.len());
        assert(before + part + after =~= text) by {
            assert forall|j: int| 0 <= j < text.len() implies (before + part + after)[j]
                == text[j] by {
                if i <= j < i + part.len() {
                    assert(text.subrange(i, i + part.len())[j - i] == text[j]);
                }
            }
        }
    }
    if exists|before: Seq<char>, after: Seq<char>| text == #[trigger] (before + part + after) {
        let (before, after) = choose|before: Seq<char>, after: Seq<char>|
            text == #[trigger] (before + part + after);
        let i: int = before.len() as int;
        assert(text.subrange(i, i + part.len()) =~= part);
    }
}

/// Each verdict, by the status and the words that occur in the answer: an answer is served exactly
/// where its status is 200; of the others the first complaint that is known decides, escrow before
/// the denylist, the denylist before a receipt that was not seen, and that before a signature; and
/// what complains of nothing known is not recognised.
pub proof fn verdicts_go_by_status_and_words(status: u16, text: Seq<char>, signer: Seq<u8>)
    ensures
        ({
            let verdict = crate::probe::verdict_on(status, text, signer);
            let escrow = crate::probe::occurs_in("balance"@, text) || crate::probe::occurs_in(
                "escrow"@,
                text,
            ) || crate::probe::occurs_in("no sender"@, text);
            let ours = crate::probe::occurs_in(crate::probe::hex_text(signer), text);
            let denied = crate::probe::occurs_in("denylist"@, text);
            let unseen = crate::probe::occurs_in("no tap receipt"@, text)
                || crate::probe::occurs_in("not found"@, text);
            let signature = crate::probe::occurs_in("signature"@, text) || crate::probe::occurs_in(
                "recover"@,
                text,
            ) || crate::probe::occurs_in("invalid"@, text);
            &&& verdict == Verdict::Served <==> status == 200
            &&& verdict == Verdict::WireFormatVerified <==> status != 200 && escrow && ours
            &&& verdict == Verdict::AddressMismatch <==> status != 200 && escrow && !ours
            &&& verdict == Verdict::Denylisted <==> status != 200 && !escrow && denied
            &&& verdict == Verdict::ReceiptNotSeen <==> status != 200 && !escrow && !denied
                && unseen
            &&& verdict == Verdict::SignatureRejected <==> status != 200 && !escrow && !denied
                && !unseen && signature
            &&& verdict == Verdict::Unrecognised <==> status != 200 && !escrow && !denied
                && !unseen && !signature
        }),
{
}

/// Bytes are spelled two digits each, the high half first, in the digits `0` to `f`.
pub proof fn bytes_are_spelled_in_two_digits(b: Seq<u8>, i: int)
    requires
        0 <= i < b.len(),
    ensures
        crate::probe::hex_text(b).len() == 2 * b.len(),
        crate::probe::hex_text(b)[2 * i] == "0123456789abcdef"@[b[i] as int / 16],
        crate::probe::hex_text(b)[2 * i + 1] == "0123456789abcdef"@[b[i] as int % 16],
{
    reveal_strlit("0123456789abcdef");
    assert((2 * i) / 2 == i && (2 * i + 1) / 2 == i);
}

/// What is said of each verdict.
pub proof fn verdicts_in_words()
    ensures
        Verdict::Served.words() == "SERVED. receipt accepted and paid for."@,
        Verdict::WireFormatVerified.words()
            == "WIRE FORMAT VERIFIED. It decoded our receipt and recovered OUR address,\n   refusing only for escrow. Authorise this signer and fund it."@,
        Verdict::AddressMismatch.words()
            == "ADDRESS MISMATCH. It recovered someone else, so the domain or encoding is\n   wrong. Check TAP_VERIFIER - funding will not fix this."@,
        Verdict::Denylisted.words()
            == "DENYLISTED. Their tap-agent has not seen the escrow deposit yet, or has\n   denylisted this sender. Usually transient after funding - retry later."@,
        Verdict::ReceiptNotSeen.words()
            == "RECEIPT NOT SEEN. Header name or encoding is wrong; funding would not help."@,
        Verdict::SignatureRejected.words()
            == "SIGNATURE REJECTED. Domain, type hash or encoding is wrong."@,
        Verdict::Unrecognised.words() == "Unrecognised rejection; read the body above."@,
{
}

/// What is said of each failure to sign.
pub proof fn signing_errors_in_words(e: SignError)
    ensures
        e is ClockBeforeEpoch ==> e.words() == "system clock is before the unix epoch"@,
        e is SigningFailed ==> e.words() == "failed to sign the receipt hash"@,
{
}

// ---------------------------------------------------------------------------------------------
// Numbers and bytes
// ---------------------------------------------------------------------------------------------

/// A wide number is its high half times 2^64 and its low half.
pub proof fn wide_numbers_have_two_halves(v: u128, h: Uint128)
    ensures
        Uint128::split(v).high == v / 0x1_0000_0000_0000_0000,
        Uint128::split(v).low == v % 0x1_0000_0000_0000_0000,
        h.value() == h.high * 0x1_0000_0000_0000_0000 + h.low,
        <Uint128 as vstd::std_specs::convert::FromSpec<u128>>::from_spec(v) == Uint128::split(v),
{
}

/// A timestamp is the low 64 bits of a count of nanoseconds.
pub proof fn timestamps_are_the_low_bits(nanos: u128)
    ensures
        crate::clock::timestamp_of(nanos) as int == nanos as int % 0x1_0000_0000_0000_0000,
{
}

/// The bytes of a signature are `r` and `s`, and 27 or 28 by the parity of the recovery id.
pub proof fn signatures_end_in_their_parity(rs: Seq<u8>, recovery_id: nat)
    requires
        rs.len() == 64,
    ensures
        crate::signer::signature_bytes(rs, recovery_id).len() == 65,
        crate::signer::signature_bytes(rs, recovery_id).take(64) == rs,
        recovery_id % 2 == 0 ==> crate::signer::signature_bytes(rs, recovery_id)[64] == 27,
        recovery_id % 2 == 1 ==> crate::signer::signature_bytes(rs, recovery_id)[64] == 28,
{
    assert(crate::signer::signature_bytes(rs, recovery_id).take(64) =~= rs);
}

/// A private key is a big-endian number above zero and below the order of the group.
pub proof fn keys_are_numbers_below_the_order(b: Seq<u8>, last: u8)
    ensures
        crate::signer::big_endian(seq![]) == 0,
        crate::signer::big_endian(b.push(last)) == 256 * crate::signer::big_endian(b) + last,
        crate::signer::valid_key(b) <==> 0 < crate::signer::big_endian(b)
            < 0xFFFF_FFFF_FFFF_FFFF_FFFF_FFFF_FFFF_FFFE_BAAE_DCE6_AF48_A03B_BFD2_5E8C_D036_4141nat,
{
    assert(b.push(last).drop_last() =~= b);
}

/// A hash stands for itself modulo the order of the group. The prime of the field,
/// 2^256 - 2^32 - 977, is the order and the excess.
pub proof fn hashes_are_scalars(hash: Seq<u8>)
    ensures
        crate::signer::hash_scalar(hash) == crate::signer::big_endian(hash)
            % 0xFFFF_FFFF_FFFF_FFFF_FFFF_FFFF_FFFF_FFFE_BAAE_DCE6_AF48_A03B_BFD2_5E8C_D036_4141nat,
        crate::signer::field_excess()
            + 0xFFFF_FFFF_FFFF_FFFF_FFFF_FFFF_FFFF_FFFE_BAAE_DCE6_AF48_A03B_BFD2_5E8C_D036_4141nat
            == 0x1_0000_0000_0000_0000_0000_0000_0000_0000_0000_0000_0000_0000_0000_0000_0000_0000nat
            - 0x1_0000_0000nat - 977,
{
}

/// A signature belongs to a key over a hash where it recovers to the key's public key over it, and
/// over no hash of 32 bytes that stands for another scalar.
pub proof fn signatures_belong_to_one_scalar(
    key: Seq<u8>,
    signature: Seq<u8>,
    hash: Seq<u8>,
    other: Seq<u8>,
)
    requires
        crate::signer::signed_by(key, signature, hash),
        other.len() == 32,
    ensures
        crate::signer::recovered_key(signature, hash) == Some(crate::signer::public_key(key)),
        crate::signer::recovered_key(signature, other) == Some(crate::signer::public_key(key))
            ==> crate::signer::hash_scalar(other) == crate::signer::hash_scalar(hash),
{
}

/// An address is the address of the public key: of the one that belongs to a private key, and of the
/// one that a signature recovers to.
pub proof fn addresses_are_of_public_keys(key: Seq<u8>, signature: Seq<u8>, hash: Seq<u8>)
    ensures
        crate::signer::key_address(key) == crate::signer::public_key_address(
            crate::signer::public_key(key),
        ),
        match crate::signer::recovered_key(signature, hash) {
            Some(k) => crate::signer::recovered_address(signature, hash) == Some(
                crate::signer::public_key_address(k),
            ),
            None => crate::signer::recovered_address(signature, hash) is None,
        },
{
}

// ---------------------------------------------------------------------------------------------
// What the types hold
// ---------------------------------------------------------------------------------------------

/// Addresses and byte strings are their bytes, and a 256-bit integer is its limbs.
pub proof fn primitives_are_what_they_hold(a: Address, b: FixedBytes<32>, n: U256)
    ensures
        a@ == a.0@,
        b@ == b.0@,
        n@ == n.limbs@[0] + n.limbs@[1] * 0x1_0000_0000_0000_0000 + n.limbs@[2]
            * 0x1_0000_0000_0000_0000_0000_0000_0000_0000 + n.limbs@[3]
            * 0x1_0000_0000_0000_0000_0000_0000_0000_0000_0000_0000_0000_0000,
{
}

/// A domain is its fields.
pub proof fn domains_are_what_they_hold(d: Eip712Domain)
    ensures
        d@.name is Some == d.name is Some,
        d.name matches Some(s) ==> d@.name == Some(s@),
        d@.version is Some == d.version is Some,
        d.version matches Some(s) ==> d@.version == Some(s@),
        d@.chain_id is Some == d.chain_id is Some,
        d.chain_id matches Some(n) ==> d@.chain_id == Some(n@),
        d@.verifying_contract is Some == d.verifying_contract is Some,
        d.verifying_contract matches Some(a) ==> d@.verifying_contract == Some(a.0@),
        d@.salt is Some == d.salt is Some,
        d.salt matches Some(b) ==> d@.salt == Some(b.0@),
{
}

/// The parameters of a receipt, and a receipt, are their fields.
pub proof fn receipts_are_what_they_hold(p: ReceiptParams, r: Receipt)
    ensures
        p@.collection_id == p.collection_id.0@,
        p@.payer == p.payer.0@,
        p@.data_service == p.data_service.0@,
        p@.service_provider == p.service_provider.0@,
        p@.value == p.value,
        r@.collection_id == r.collection_id.0@,
        r@.payer == r.payer.0@,
        r@.data_service == r.data_service.0@,
        r@.service_provider == r.service_provider.0@,
        r@.timestamp_ns == r.timestamp_ns,
        r@.nonce == r.nonce,
        r@.value == r.value,
{
}

/// The messages are their fields.
pub proof fn messages_are_what_they_hold(r: ReceiptProto, m: SignedReceiptProto)
    ensures
        r@.collection_id == r.collection_id@,
        r@.payer == r.payer@,
        r@.data_service == r.data_service@,
        r@.service_provider == r.service_provider@,
        r@.timestamp_ns == r.timestamp_ns,
        r@.nonce == r.nonce,
        r@.value == r.value,
        m@.message is Some == m.message is Some,
        m.message matches Some(inner) ==> m@.message == Some(inner@),
        m@.signature == m.signature@,
{
}

/// A request is its method, address, headers and body.
pub proof fn requests_are_what_they_hold(r: PaidRequest, i: int)
    requires
        0 <= i < r.headers@.len(),
    ensures
        r@.method == r.method@,
        r@.url == r.url@,
        r@.body == r.body@,
        r@.headers.len() == r.headers@.len(),
        r@.headers[i] == (r.headers@[i].name@, r.headers@[i].value@),
{
}

} // verus!
