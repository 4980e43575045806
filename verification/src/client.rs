//! Paying an indexer for a query: the request that carries a receipt, and what is made of the
//! reply.
use std::time::{Duration, SystemTimeError};

use vstd::prelude::*;
use vstd::string::{StrSliceExecFns, StringExecFns};

use crate::clock::{nanos_since_epoch, timestamp_from_nanos};
use crate::domain::{horizon_domain, Eip712Domain};
use crate::primitives::{is_greater, Address, FixedBytes, U256};
use crate::receipt::{sign_receipt_at, ReceiptParams, SignError};
use crate::signer::PrivateKeySigner;

verus! {

/// The identifier of an allocation's collection: twelve zero bytes, then the address.
pub open spec fn collection_id(allocation: Seq<u8>) -> Seq<u8> {
    Seq::new(12, |i: int| 0u8) + allocation
}

/// A collection identifier, as the receipt carries it.
///
/// Under Horizon this is the allocation address left-padded into 32 bytes: the low 20 bytes are
/// the allocation, the high 12 are zero. Getting it wrong yields a receipt that verifies and then
/// fails allocation-eligibility.
pub fn collection_id_from_allocation(allocation: Address) -> (r: FixedBytes<32>)
    ensures
        r@ == collection_id(allocation@),
        forall|i: int| 0 <= i < 12 ==> r.0@[i] == 0,
        forall|i: int| 12 <= i < 32 ==> r.0@[i] == allocation.0@[i - 12],
{
    let mut buf: [u8; 32] = [0u8;32];
    let mut i: usize = 0;
    while i < 20
        invariant
            i <= 20,
            forall|j: int| 0 <= j < 12 ==> buf@[j] == 0,
            forall|j: int| 0 <= j < i ==> buf@[12 + j] == allocation@[j],
        decreases 20 - i,
    {
        buf[12 + i] = allocation.0[i];
        i = i + 1;
    }
    assert forall|j: int| 12 <= j < 32 implies buf@[j] == allocation@[j - 12] by {
        assert(buf@[12 + (j - 12)] == allocation@[j - 12]);
    }
    assert(buf@ =~= collection_id(allocation@));
    FixedBytes(buf)
}

/// The collection identifier of an allocation, by the conversion of `thegraph-core`.
///
/// `CollectionId::from` on an `AllocationId`: it pads the address with twelve zero bytes in front.
#[verifier::external_body]
fn convert_allocation(allocation: &Address) -> (r: FixedBytes<32>)
    ensures
        r@ == collection_id(allocation@),
{
    let allocation = thegraph_core::AllocationId::new(allocation.0.into());
    FixedBytes(thegraph_core::CollectionId::from(allocation).into_inner().0)
}

/// The collection identifier of an allocation, by the conversion of `thegraph-core`. It has the
/// same bytes as what [`collection_id_from_allocation`] writes out by hand.
pub fn collection_id_by_conversion(allocation: Address) -> (r: FixedBytes<32>)
    ensures
        r@ == collection_id(allocation@),
        forall|i: int| 0 <= i < 12 ==> r.0@[i] == 0,
        forall|i: int| 12 <= i < 32 ==> r.0@[i] == allocation.0@[i - 12],
{
    convert_allocation(&allocation)
}

/// Two allocations have two collection identifiers, and the allocation is the low 20 bytes.
pub proof fn collection_ids_differ(a: Seq<u8>, b: Seq<u8>)
    requires
        a.len() == 20,
        b.len() == 20,
    ensures
        collection_id(a).len() == 32,
        collection_id(a).skip(12) == a,
        a != b ==> collection_id(a) != collection_id(b),
{
    assert(collection_id(a).skip(12) =~= a);
    assert(collection_id(b).skip(12) =~= b);
}

/// Everything needed to pay one indexer for one query.
#[derive(Debug, Clone, Copy)]
pub struct PaymentContext {
    /// Chain the escrow and collector live on.
    pub chain_id: u64,
    /// The `GraphTallyCollector` contract: the EIP-712 verifying contract.
    pub verifier: Address,
    /// The `SubgraphService` contract. Checked by the indexer against its own allowed list, so a
    /// mismatch is rejected even when everything else is valid.
    pub data_service: Address,
    /// The escrow account paying. Recovered from the signature, so it must match the funded
    /// account.
    pub payer: Address,
}

impl PaymentContext {
    /// The domain that receipts are signed under.
    pub fn domain(&self) -> (r: Eip712Domain)
        ensures
            r@ == crate::domain::horizon_domain_view(self.chain_id, self.verifier@),
            r.name matches Some(name) && name@ == "GraphTallyCollector"@,
            r.version matches Some(version) && version@ == "1"@,
            r.chain_id matches Some(id) && id@ == self.chain_id,
            r.verifying_contract == Some(self.verifier),
            r.salt is None,
    {
        horizon_domain(self.chain_id, self.verifier)
    }
}

/// A client was configured to pay nothing.
#[derive(Debug, Clone, Copy, PartialEq, Eq)]
pub struct ZeroReceiptValue;

impl ZeroReceiptValue {
    /// The error in words.
    pub fn message(&self) -> (r: &'static str)
        ensures
            r@
                == "receipt_value is 0 — every indexer with a cost model will refuse this as 'does not have the minimum value', which reads like an indexer fault and is not"@,
    {
        "receipt_value is 0 — every indexer with a cost model will refuse this as 'does not have the minimum value', which reads like an indexer fault and is not"
    }
}

/// Why a paid query came to nothing.
#[derive(Debug)]
pub enum QueryError {
    /// The receipt could not be signed.
    Sign(SignError),
    /// The request could not be sent, or no reply came.
    RequestFailed { cause: String },
}

impl QueryError {
    /// The error in words.
    pub fn message(&self) -> (r: &'static str)
        ensures
            r@ == match self {
                QueryError::Sign(_) => "failed to sign TAP receipt"@,
                QueryError::RequestFailed { .. } => "indexer request failed"@,
            },
    {
        match self {
            QueryError::Sign(_) => "failed to sign TAP receipt",
            QueryError::RequestFailed { .. } => "indexer request failed",
        }
    }

    /// What lies behind the error, in words.
    pub fn cause(&self) -> (r: &str)
        ensures
            match self {
                QueryError::Sign(e) => r@ == e.words(),
                QueryError::RequestFailed { cause } => r@ == cause@,
            },
    {
        match self {
            QueryError::Sign(e) => e.message(),
            QueryError::RequestFailed { cause } => cause.as_str(),
        }
    }
}

/// A header of a request.
#[derive(Debug, Clone, PartialEq, Eq)]
pub struct Header {
    pub name: String,
    pub value: String,
}

/// A request to an indexer.
#[derive(Debug, Clone, PartialEq, Eq)]
pub struct PaidRequest {
    pub method: String,
    pub url: String,
    pub headers: Vec<Header>,
    pub body: String,
}

/// What a [`PaidRequest`] holds; a header is a name and a value.
pub struct RequestView {
    pub method: Seq<char>,
    pub url: Seq<char>,
    pub headers: Seq<(Seq<char>, Seq<char>)>,
    pub body: Seq<char>,
}

impl View for PaidRequest {
    type V = RequestView;

    open spec fn view(&self) -> RequestView {
        RequestView {
            method: self.method@,
            url: self.url@,
            headers: self.headers@.map_values(|h: Header| (h.name@, h.value@)),
            body: self.body@,
        }
    }
}

/// A text without the slashes at its end.
pub open spec fn without_trailing_slashes(text: Seq<char>) -> Seq<char>
    decreases text.len(),
{
    if text.len() > 0 && text.last() == '/' {
        without_trailing_slashes(text.drop_last())
    } else {
        text
    }
}

/// Where an indexer serves a deployment.
pub open spec fn deployment_url(indexer_url: Seq<char>, deployment: Seq<char>) -> Seq<char> {
    without_trailing_slashes(indexer_url) + "/subgraphs/id/"@ + deployment
}

/// The request that asks an indexer about a deployment and carries a receipt.
pub open spec fn request_view(
    indexer_url: Seq<char>,
    deployment: Seq<char>,
    query: Seq<char>,
    header: Seq<char>,
) -> RequestView {
    RequestView {
        method: "POST"@,
        url: deployment_url(indexer_url, deployment),
        headers: seq![
            ("tap-receipt"@, header),
            ("content-type"@, "application/json"@),
        ],
        body: query,
    }
}

/// Whether the first `k` characters are what is left when the slashes at the end are cut: behind
/// them stand slashes alone, and the last of them is none.
pub open spec fn cuts_slashes(text: Seq<char>, k: int) -> bool {
    &&& 0 <= k <= text.len()
    &&& forall|i: int| k <= i < text.len() ==> text[i] == '/'
    &&& k > 0 ==> text[k - 1] != '/'
}

/// What is left of a text without the slashes at its end is its beginning, up to the last character
/// that is no slash.
pub proof fn slashes_are_cut(text: Seq<char>) -> (k: int)
    ensures
        0 <= k <= text.len(),
        forall|i: int| k <= i < text.len() ==> text[i] == '/',
        k > 0 ==> text[k - 1] != '/',
        cuts_slashes(text, k),
        without_trailing_slashes(text) == text.take(k),
    decreases text.len(),
{
    if text.len() > 0 && text.last() == '/' {
        let k = slashes_are_cut(text.drop_last());
        assert(text.drop_last().take(k) =~= text.take(k));
        assert forall|i: int| k <= i < text.len() implies text[i] == '/' by {
            if i < text.len() - 1 {
                assert(text.drop_last()[i] == '/');
            }
        }
        if k > 0 {
            assert(text.drop_last()[k - 1] == text[k - 1]);
        }
        k
    } else {
        assert(text.take(text.len() as int) =~= text);
        text.len() as int
    }
}

/// Slashes at the end of an indexer's address do not change where a deployment is served, and
/// what they are cut to ends in none.
pub proof fn trailing_slashes_do_not_matter(indexer_url: Seq<char>, deployment: Seq<char>)
    ensures
        deployment_url(indexer_url.push('/'), deployment) == deployment_url(
            indexer_url,
            deployment,
        ),
        without_trailing_slashes(indexer_url).len() > 0 ==> without_trailing_slashes(
            indexer_url,
        ).last() != '/',
    decreases indexer_url.len(),
{
    assert(indexer_url.push('/').drop_last() =~= indexer_url);
    if indexer_url.len() > 0 && indexer_url.last() == '/' {
        trailing_slashes_do_not_matter(indexer_url.drop_last(), deployment);
    }
}

/// The text without the slashes at its end.
fn trim_trailing_slashes(text: &str) -> (r: &str)
    ensures
        r@ == without_trailing_slashes(text@),
{
    let mut n: usize = text.unicode_len();
    assert(text@.take(n as int) =~= text@);
    while n > 0 && text.get_char(n - 1) == '/'
        invariant
            n <= text@.len(),
            without_trailing_slashes(text@) == without_trailing_slashes(text@.take(n as int)),
        decreases n,
    {
        assert(text@.take(n as int).drop_last() =~= text@.take(n - 1));
        n = n - 1;
    }
    text.substring_char(0, n)
}

impl PaidRequest {
    /// The request that asks an indexer about a deployment and carries a receipt.
    ///
    /// `indexer_url` is the indexer's service endpoint; the deployment path is appended, matching
    /// what the gateway does.
    pub fn new(indexer_url: &str, deployment: &str, query: &str, header: String) -> (r: Self)
        ensures
            r@ == request_view(indexer_url@, deployment@, query@, header@),
            r.method@ == "POST"@,
            r.body@ == query@,
            r.headers@.len() == 2,
            r.headers@[0].name@ == "tap-receipt"@,
            r.headers@[0].value@ == header@,
            r.headers@[1].name@ == "content-type"@,
            r.headers@[1].value@ == "application/json"@,
            exists|k: int|
                #[trigger] cuts_slashes(indexer_url@, k) && r.url@ == indexer_url@.take(k)
                    + "/subgraphs/id/"@ + deployment@,
    {
        proof {
            let k = slashes_are_cut(indexer_url@);
        }
        let mut url: String = trim_trailing_slashes(indexer_url).to_string();
        url.append("/subgraphs/id/");
        url.append(deployment);
        let mut headers: Vec<Header> = Vec::new();
        headers.push(Header { name: "tap-receipt".to_string(), value: header });
        headers.push(
            Header { name: "content-type".to_string(), value: "application/json".to_string() },
        );
        let request: PaidRequest = PaidRequest {
            method: "POST".to_string(),
            url,
            headers,
            body: query.to_string(),
        };
        assert(request@.headers =~= request_view(
            indexer_url@,
            deployment@,
            query@,
            header@,
        ).headers);
        request
    }
}

/// What came of sending a request.
#[derive(Debug, Clone, PartialEq, Eq)]
pub enum Reply {
    /// No reply came, and why.
    Failed { cause: String },
    /// A reply came. Its body is absent where it could not be read.
    Received { status: u16, body: Option<String>, elapsed_ms: u128 },
}

/// What an indexer answered.
#[derive(Debug, Clone)]
pub struct PaidResponse {
    pub status: u16,
    pub body: String,
    pub latency_ms: u64,
}

impl PaidResponse {
    /// A 402 means the receipt was refused, and the body says why.
    ///
    /// Distinguishing "escrow empty" from "receipt malformed" matters more than it looks: both
    /// arrive as 402, and treating a signing bug as an unfunded account sends you off to add
    /// money that will not help.
    pub fn payment_refused(&self) -> (r: Option<&str>)
        ensures
            match r {
                Some(body) => self.status == 402 && body@ == self.body@,
                None => self.status != 402,
            },
    {
        if self.status == 402 {
            Some(self.body.as_str())
        } else {
            None
        }
    }

    /// The response that a reply stands for: a body that could not be read is empty, and of the
    /// milliseconds the low 64 bits are kept.
    pub fn from_reply(reply: Reply) -> (r: Result<Self, QueryError>)
        ensures
            match (r, reply) {
                (Ok(response), Reply::Received { status, body, elapsed_ms }) => {
                    &&& response.status == status
                    &&& match body {
                        Some(text) => response.body@ == text@,
                        None => response.body@.len() == 0,
                    }
                    &&& response.latency_ms as int == elapsed_ms % 0x1_0000_0000_0000_0000
                },
                (Err(QueryError::RequestFailed { cause }), Reply::Failed { cause: why }) => cause@
                    == why@,
                _ => false,
            },
    {
        match reply {
            Reply::Failed { cause } => Err(QueryError::RequestFailed { cause }),
            Reply::Received { status, body, elapsed_ms } => {
                assert(elapsed_ms as u64 == elapsed_ms % 0x1_0000_0000_0000_0000) by (bit_vector);
                let latency_ms: u64 = #[verifier::truncate]
                (elapsed_ms as u64);
                let body: String = match body {
                    Some(text) => text,
                    None => String::new(),
                };
                Ok(PaidResponse { status, body, latency_ms })
            },
        }
    }
}

/// A client that pays for what it queries.
pub struct PaidQueryClient {
    signer: PrivateKeySigner,
    ctx: PaymentContext,
    timeout: Duration,
    /// Value written into every receipt, in the escrow token's smallest unit.
    ///
    /// Held on the client rather than passed per query: a receipt worth nothing is refused by
    /// every indexer with a cost model, with a 400 that looks like the indexer misbehaving.
    /// Configured once, here, it cannot be got wrong at a call site.
    receipt_value: u128,
}

impl PaidQueryClient {
    #[verifier::type_invariant]
    spec fn well_formed(self) -> bool {
        self.receipt_value != 0
    }

    /// The key that receipts are signed with.
    pub closed spec fn key(&self) -> Seq<u8> {
        self.signer@
    }

    /// Whom the receipts are paid by, and under which contracts.
    pub closed spec fn context(&self) -> PaymentContext {
        self.ctx
    }

    /// How long a request may take.
    pub closed spec fn time_limit(&self) -> Duration {
        self.timeout
    }

    /// The value in every receipt.
    pub closed spec fn value(&self) -> u128 {
        self.receipt_value
    }

    /// The parameters of the receipt for a query to an indexer about an allocation.
    pub open spec fn params(
        &self,
        indexer_address: Seq<u8>,
        allocation: Seq<u8>,
    ) -> crate::receipt::ParamsView {
        crate::receipt::ParamsView {
            collection_id: collection_id(allocation),
            payer: self.context().payer@,
            data_service: self.context().data_service@,
            service_provider: indexer_address,
            value: self.value(),
        }
    }

    /// The domain that receipts are signed under.
    pub open spec fn domain_view(&self) -> crate::domain::DomainView {
        crate::domain::horizon_domain_view(self.context().chain_id, self.context().verifier@)
    }

    /// Whether a header pays an indexer for a query about an allocation at a time.
    pub open spec fn pays_with(
        &self,
        indexer_address: Seq<u8>,
        allocation: Seq<u8>,
        timestamp_ns: u64,
        header: Seq<char>,
    ) -> bool {
        crate::receipt::signs_to(
            self.key(),
            self.domain_view(),
            self.params(indexer_address, allocation),
            timestamp_ns,
            header,
        )
    }

    /// Whether the receipt to an indexer for an allocation at a time has no signature, with this
    /// error.
    pub open spec fn cannot_sign(
        &self,
        indexer_address: Seq<u8>,
        allocation: Seq<u8>,
        timestamp_ns: u64,
        e: QueryError,
    ) -> bool {
        e matches QueryError::Sign(signing) && crate::receipt::signing_fails(
            self.key(),
            self.domain_view(),
            self.params(indexer_address, allocation),
            timestamp_ns,
            signing,
        )
    }

    /// Whether a request is the one that queries an indexer about a deployment and pays for it with
    /// a receipt of the given time.
    pub open spec fn asks_with(
        &self,
        indexer_url: Seq<char>,
        indexer_address: Seq<u8>,
        allocation: Seq<u8>,
        deployment: Seq<char>,
        query: Seq<char>,
        timestamp_ns: u64,
        request: RequestView,
    ) -> bool {
        exists|header: Seq<char>|
            {
                &&& #[trigger] self.pays_with(indexer_address, allocation, timestamp_ns, header)
                &&& request == request_view(indexer_url, deployment, query, header)
            }
    }

    /// Whether a result is what comes of preparing a query at a reading of the clock: so many
    /// nanoseconds since the unix epoch, or the error that it stands before the epoch. Then there is
    /// no request, and that error is kept.
    pub open spec fn query_outcome(
        &self,
        indexer_url: Seq<char>,
        indexer_address: Seq<u8>,
        allocation: Seq<u8>,
        deployment: Seq<char>,
        query: Seq<char>,
        reading: Result<u128, SystemTimeError>,
        r: Result<PaidRequest, QueryError>,
    ) -> bool {
        match reading {
            Ok(n) => {
                let timestamp_ns = crate::clock::timestamp_of(n);
                match r {
                    Ok(request) => self.asks_with(
                        indexer_url,
                        indexer_address,
                        allocation,
                        deployment,
                        query,
                        timestamp_ns,
                        request@,
                    ),
                    Err(e) => self.cannot_sign(indexer_address, allocation, timestamp_ns, e),
                }
            },
            Err(cause) => r matches Err(e) && e == QueryError::Sign(
                SignError::ClockBeforeEpoch { cause },
            ),
        }
    }

    /// A client that pays with a signer in a context. A receipt value of zero is refused.
    pub fn new(
        signer: PrivateKeySigner,
        ctx: PaymentContext,
        timeout: Duration,
        receipt_value: u128,
    ) -> (r: Result<Self, ZeroReceiptValue>)
        ensures
            match r {
                Ok(client) => {
                    &&& receipt_value != 0
                    &&& client.key() == signer@
                    &&& client.context() == ctx
                    &&& client.time_limit() == timeout
                    &&& client.value() == receipt_value
                },
                Err(_) => receipt_value == 0,
            },
    {
        if receipt_value == 0 {
            return Err(ZeroReceiptValue);
        }
        Ok(PaidQueryClient { signer, ctx, timeout, receipt_value })
    }

    /// The value each receipt carries.
    pub fn receipt_value(&self) -> (r: u128)
        ensures
            r == self.value(),
            r != 0,
    {
        proof {
            use_type_invariant(self);
        }
        self.receipt_value
    }

    /// The address receipts will be signed by, which is the escrow account that must hold a
    /// balance.
    pub fn signer_address(&self) -> (r: Address)
        ensures
            r@ == crate::signer::key_address(self.key()),
    {
        self.signer.address()
    }

    /// How long a request may take.
    pub fn timeout(&self) -> (r: Duration)
        ensures
            r == self.time_limit(),
    {
        self.timeout
    }

    /// The parameters of the receipt for a query to an indexer about an allocation.
    pub fn receipt_params(&self, indexer_address: Address, allocation: Address) -> (r:
        ReceiptParams)
        ensures
            r@ == self.params(indexer_address@, allocation@),
            r.value != 0,
            r.value == self.value(),
            r.payer == self.context().payer,
            r.data_service == self.context().data_service,
            r.service_provider == indexer_address,
            forall|i: int| 0 <= i < 12 ==> r.collection_id.0@[i] == 0,
            forall|i: int| 12 <= i < 32 ==> r.collection_id.0@[i] == allocation.0@[i - 12],
    {
        proof {
            use_type_invariant(self);
        }
        ReceiptParams {
            collection_id: collection_id_from_allocation(allocation),
            payer: self.ctx.payer,
            data_service: self.ctx.data_service,
            service_provider: indexer_address,
            value: self.receipt_value,
        }
    }

    /// The request that queries one indexer for one deployment and pays for it, with a receipt of
    /// the given time.
    pub fn query_at(
        &self,
        indexer_url: &str,
        indexer_address: Address,
        allocation: Address,
        deployment_ipfs_hash: &str,
        query: &str,
        timestamp_ns: u64,
    ) -> (r: Result<PaidRequest, QueryError>)
        ensures
            match r {
                Ok(request) => self.asks_with(
                    indexer_url@,
                    indexer_address@,
                    allocation@,
                    deployment_ipfs_hash@,
                    query@,
                    timestamp_ns,
                    request@,
                ),
                Err(e) => self.cannot_sign(indexer_address@, allocation@, timestamp_ns, e),
            },
    {
        let params: ReceiptParams = self.receipt_params(indexer_address, allocation);
        match sign_receipt_at(&self.signer, &self.ctx.domain(), &params, timestamp_ns) {
            Ok(header) => {
                assert(self.pays_with(indexer_address@, allocation@, timestamp_ns, header@));
                Ok(PaidRequest::new(indexer_url, deployment_ipfs_hash, query, header))
            },
            Err(e) => Err(QueryError::Sign(e)),
        }
    }

    /// The request that queries one indexer for one deployment and pays for it, at a reading of the
    /// clock: so many nanoseconds since the unix epoch, or the error that it stands before the epoch.
    pub fn query_by_clock(
        &self,
        indexer_url: &str,
        indexer_address: Address,
        allocation: Address,
        deployment_ipfs_hash: &str,
        query: &str,
        reading: Result<u128, SystemTimeError>,
    ) -> (r: Result<PaidRequest, QueryError>)
        ensures
            self.query_outcome(
                indexer_url@,
                indexer_address@,
                allocation@,
                deployment_ipfs_hash@,
                query@,
                reading,
                r,
            ),
    {
        match reading {
            Ok(n) => self.query_at(
                indexer_url,
                indexer_address,
                allocation,
                deployment_ipfs_hash,
                query,
                timestamp_from_nanos(n),
            ),
            Err(cause) => Err(QueryError::Sign(SignError::ClockBeforeEpoch { cause })),
        }
    }

    /// The request that queries one indexer for one deployment and pays for it.
    ///
    /// The receipt value comes from the client (see `receipt_value`) and must clear the indexer's
    /// cost model: an underpriced receipt is rejected with a 400 that looks like a refusal to
    /// serve rather than the pricing error it is.
    ///
    /// The result is that of [`PaidQueryClient::query_by_clock`] at a reading that the clock gave.
    pub fn query(
        &self,
        indexer_url: &str,
        indexer_address: Address,
        allocation: Address,
        deployment_ipfs_hash: &str,
        query: &str,
    ) -> (r: Result<PaidRequest, QueryError>)
        ensures
            exists|reading: Result<u128, SystemTimeError>|
                crate::clock::clock_shows(reading) && #[trigger] self.query_outcome(
                    indexer_url@,
                    indexer_address@,
                    allocation@,
                    deployment_ipfs_hash@,
                    query@,
                    reading,
                    r,
                ),
    {
        self.query_by_clock(
            indexer_url,
            indexer_address,
            allocation,
            deployment_ipfs_hash,
            query,
            nanos_since_epoch(),
        )
    }
}

/// A receipt is made anew for each query: two queries at two readings of the clock, less than 2^64
/// nanoseconds apart, carry different `tap-receipt` headers, with different timestamps and, for
/// one indexer, different nonces.
pub proof fn queries_at_two_readings_differ(
    client: PaidQueryClient,
    indexer_url: Seq<char>,
    indexer_address: Seq<u8>,
    allocation: Seq<u8>,
    deployment: Seq<char>,
    query: Seq<char>,
    nanos: u128,
    other_nanos: u128,
    request: PaidRequest,
    other_request: PaidRequest,
)
    requires
        indexer_address.len() == 20,
        allocation.len() == 20,
        nanos < other_nanos < nanos + 0x1_0000_0000_0000_0000,
        client.query_outcome(
            indexer_url,
            indexer_address,
            allocation,
            deployment,
            query,
            Ok(nanos),
            Ok(request),
        ),
        client.query_outcome(
            indexer_url,
            indexer_address,
            allocation,
            deployment,
            query,
            Ok(other_nanos),
            Ok(other_request),
        ),
    ensures
        request@.headers[0].0 == "tap-receipt"@,
        other_request@.headers[0].0 == "tap-receipt"@,
        request@.headers[0].1 != other_request@.headers[0].1,
        crate::clock::timestamp_of(nanos) != crate::clock::timestamp_of(other_nanos),
        crate::receipt::nonce_at(crate::clock::timestamp_of(nanos), indexer_address)
            != crate::receipt::nonce_at(crate::clock::timestamp_of(other_nanos), indexer_address),
{
    let t = crate::clock::timestamp_of(nanos);
    let other_t = crate::clock::timestamp_of(other_nanos);
    crate::clock::timestamps_differ(nanos, other_nanos);
    crate::receipt::nonces_differ_by_time(t, other_t, indexer_address);
    let header = choose|h: Seq<char>|
        {
            &&& #[trigger] client.pays_with(indexer_address, allocation, t, h)
            &&& request@ == request_view(indexer_url, deployment, query, h)
        };
    let other_header = choose|h: Seq<char>|
        {
            &&& #[trigger] client.pays_with(indexer_address, allocation, other_t, h)
            &&& other_request@ == request_view(indexer_url, deployment, query, h)
        };
    if header == other_header {
        let params = client.params(indexer_address, allocation);
        crate::receipt::headers_are_unique(
            client.key(),
            client.domain_view(),
            params,
            t,
            client.key(),
            client.domain_view(),
            params,
            other_t,
            header,
        );
    }
}

/// What an indexer reads from the header of a paid query is a receipt over the client's own value,
/// from the client's payer, to that indexer.
pub proof fn paid_header_carries_the_value(
    client: PaidQueryClient,
    indexer_address: Seq<u8>,
    allocation: Seq<u8>,
    timestamp_ns: u64,
    header: Seq<char>,
    bytes: Seq<u8>,
)
    requires
        indexer_address.len() == 20,
        allocation.len() == 20,
        client.pays_with(indexer_address, allocation, timestamp_ns, header),
        crate::header::base64_text(bytes) == header,
    ensures
        crate::proto::signed_receipt_read(bytes) matches Some(m) && (m.message matches Some(receipt)
            && {
            &&& receipt.collection_id == collection_id(allocation)
            &&& receipt.payer == client.context().payer@
            &&& receipt.data_service == client.context().data_service@
            &&& receipt.service_provider == indexer_address
            &&& (receipt.value matches Some(value) && value.value() == client.value())
        }),
{
    crate::receipt::signed_header_reads_back(
        client.key(),
        client.domain_view(),
        client.params(indexer_address, allocation),
        timestamp_ns,
        header,
        bytes,
    );
    crate::proto::uint128_keeps_the_value(client.value());
}

/// Escrow balance is checked as `> 0`, so this is a convenience rather than a rule.
pub fn has_balance(balance: U256) -> (r: bool)
    ensures
        r == (balance@ > 0),
        r == exists|i: int| 0 <= i < 4 && balance.limbs@[i] != 0,
{
    is_greater(&balance, &U256::from_u64(0))
}

} // verus!
