//! The deploy data model: a content-addressed transaction with a payment and
//! a session executable item and a set of cryptographic approvals, plus the
//! origin tag that decides which validators run.

use vstd::prelude::*;

verus! {

/// Where a deploy came from: a relaying peer (by node identifier) or a
/// directly submitting client. Economic checks run for client deploys only.
#[derive(Clone, Copy, Debug, PartialEq, Eq, Structural)]
pub enum Source {
    Peer(u64),
    Client,
}

impl Source {
    /// Whether the deploy was submitted directly by a client.
    pub fn from_client(&self) -> (r: bool)
        ensures
            r == (*self is Client),
    {
        matches!(self, Source::Client)
    }
}

/// One cryptographic approval: the signing key and the deploy hash the
/// signature covers. A signature is valid exactly when the covered hash is
/// the deploy's own hash.
#[derive(Clone, Copy, Debug, PartialEq, Eq, Structural)]
pub struct Approval {
    pub signer: u64,
    pub signed_hash: u64,
}

/// Payment or session logic of a deploy.
#[derive(Clone, Debug, PartialEq, Eq)]
pub enum ExecutableItem {
    /// Inline module code; empty bytes are not a runnable session.
    ModuleBytes { module_bytes: Vec<u8> },
    /// A stored contract addressed by its hash.
    StoredContractByHash { hash: u64, entry_point: u64 },
    /// A stored contract addressed by a named key of the account.
    StoredContractByName { name: u64, entry_point: u64 },
    /// A stored contract package addressed by its hash, optionally pinned to
    /// one version.
    StoredVersionedContractByHash { hash: u64, version: Option<u32>, entry_point: u64 },
    /// A stored contract package addressed by a named key, optionally pinned
    /// to one version.
    StoredVersionedContractByName { name: u64, version: Option<u32>, entry_point: u64 },
    /// The native transfer; disallowed as payment logic.
    Transfer,
}

/// The header of a deploy; the deploy's identity is a digest of it.
#[derive(Clone, Copy, Debug, PartialEq, Eq, Structural)]
pub struct DeployHeader {
    pub account: u64,
    pub timestamp: u64,
    pub ttl: u64,
    pub chain_name: u64,
    pub body_hash: u64,
}

/// A content-addressed transaction pending admission. Never mutated by the
/// pipeline, only classified.
#[derive(Clone, Debug, PartialEq, Eq)]
pub struct Deploy {
    pub hash: u64,
    pub header: DeployHeader,
    pub payment: ExecutableItem,
    pub session: ExecutableItem,
    pub approvals: Vec<Approval>,
}

/// One digest step: rotate the accumulator and fold a word in.
pub open spec fn mix(h: u64, x: u64) -> u64 {
    ((h << 5) | (h >> 59)) ^ x
}

/// The digest accumulator's starting value.
pub const DIGEST_SEED: u64 = 0xcbf29ce484222325;

/// Digest of a byte sequence, folded left to right.
pub open spec fn bytes_digest_seq(s: Seq<u8>) -> u64
    decreases s.len(),
{
    if s.len() == 0 {
        DIGEST_SEED
    } else {
        mix(bytes_digest_seq(s.drop_last()), s.last() as u64)
    }
}

fn mix_word(h: u64, x: u64) -> (r: u64)
    ensures
        r == mix(h, x),
{
    ((h << 5u64) | (h >> 59u64)) ^ x
}

/// Digest of a byte vector.
pub fn bytes_digest(bytes: &Vec<u8>) -> (r: u64)
    ensures
        r == bytes_digest_seq(bytes@),
{
    let mut h: u64 = 0xcbf29ce484222325;
    let mut i: usize = 0;
    while i < bytes.len()
        invariant
            i <= bytes@.len(),
            h == bytes_digest_seq(bytes@.take(i as int)),
        decreases bytes@.len() - i,
    {
        h = mix_word(h, bytes[i] as u64);
        i = i + 1;
        proof {
            assert(bytes@.take(i as int).drop_last() =~= bytes@.take(i - 1 as int));
            assert(bytes@.take(i as int).last() == bytes@[i - 1]);
        }
    }
    proof {
        assert(bytes@.take(bytes@.len() as int) =~= bytes@);
    }
    h
}

/// Encodes an optional version for digesting: zero for none, the successor
/// for a pinned version.
pub open spec fn version_code(v: Option<u32>) -> u64 {
    match v {
        None => 0,
        Some(n) => (n + 1) as u64,
    }
}

fn version_code_exec(v: &Option<u32>) -> (r: u64)
    ensures
        r == version_code(*v),
{
    match v {
        None => 0,
        Some(n) => *n as u64 + 1,
    }
}

/// Digest of one executable item.
pub open spec fn item_digest_spec(item: ExecutableItem) -> u64 {
    match item {
        ExecutableItem::ModuleBytes { module_bytes } => mix(1, bytes_digest_seq(module_bytes@)),
        ExecutableItem::StoredContractByHash { hash, entry_point } => mix(mix(2, hash), entry_point),
        ExecutableItem::StoredContractByName { name, entry_point } => mix(mix(3, name), entry_point),
        ExecutableItem::StoredVersionedContractByHash { hash, version, entry_point } =>
            mix(mix(mix(4, hash), version_code(version)), entry_point),
        ExecutableItem::StoredVersionedContractByName { name, version, entry_point } =>
            mix(mix(mix(5, name), version_code(version)), entry_point),
        ExecutableItem::Transfer => mix(6, 0),
    }
}

/// Digest of one executable item.
pub fn item_digest(item: &ExecutableItem) -> (r: u64)
    ensures
        r == item_digest_spec(*item),
{
    match item {
        ExecutableItem::ModuleBytes { module_bytes } => mix_word(1, bytes_digest(module_bytes)),
        ExecutableItem::StoredContractByHash { hash, entry_point } =>
            mix_word(mix_word(2, *hash), *entry_point),
        ExecutableItem::StoredContractByName { name, entry_point } =>
            mix_word(mix_word(3, *name), *entry_point),
        ExecutableItem::StoredVersionedContractByHash { hash, version, entry_point } =>
            mix_word(mix_word(mix_word(4, *hash), version_code_exec(version)), *entry_point),
        ExecutableItem::StoredVersionedContractByName { name, version, entry_point } =>
            mix_word(mix_word(mix_word(5, *name), version_code_exec(version)), *entry_point),
        ExecutableItem::Transfer => mix_word(6, 0),
    }
}

/// Digest of a deploy's body: its payment and session items.
pub open spec fn body_digest_spec(payment: ExecutableItem, session: ExecutableItem) -> u64 {
    mix(item_digest_spec(payment), item_digest_spec(session))
}

/// Digest of a deploy's body: its payment and session items.
pub fn body_digest(payment: &ExecutableItem, session: &ExecutableItem) -> (r: u64)
    ensures
        r == body_digest_spec(*payment, *session),
{
    mix_word(item_digest(payment), item_digest(session))
}

/// The deploy identity: a digest of the header.
pub open spec fn header_digest_spec(h: DeployHeader) -> u64 {
    mix(mix(mix(mix(mix(7, h.account), h.timestamp), h.ttl), h.chain_name), h.body_hash)
}

/// The deploy identity: a digest of the header.
pub fn header_digest(h: &DeployHeader) -> (r: u64)
    ensures
        r == header_digest_spec(*h),
{
    mix_word(
        mix_word(mix_word(mix_word(mix_word(7, h.account), h.timestamp), h.ttl), h.chain_name),
        h.body_hash,
    )
}

/// Serialized size of one executable item, in bytes.
pub open spec fn item_size_spec(item: ExecutableItem) -> int {
    match item {
        ExecutableItem::ModuleBytes { module_bytes } => 8 + module_bytes@.len() as int,
        ExecutableItem::StoredContractByHash { .. } => 24,
        ExecutableItem::StoredContractByName { .. } => 24,
        ExecutableItem::StoredVersionedContractByHash { .. } => 32,
        ExecutableItem::StoredVersionedContractByName { .. } => 32,
        ExecutableItem::Transfer => 8,
    }
}

fn item_size(item: &ExecutableItem) -> (r: u128)
    ensures
        r == item_size_spec(*item),
        r <= 8 + 0xffff_ffff_ffff_ffffu128,
{
    match item {
        ExecutableItem::ModuleBytes { module_bytes } => 8 + module_bytes.len() as u128,
        ExecutableItem::StoredContractByHash { .. } => 24,
        ExecutableItem::StoredContractByName { .. } => 24,
        ExecutableItem::StoredVersionedContractByHash { .. } => 32,
        ExecutableItem::StoredVersionedContractByName { .. } => 32,
        ExecutableItem::Transfer => 8,
    }
}

/// Serialized size of a whole deploy, in bytes.
pub open spec fn deploy_size_spec(d: Deploy) -> int {
    64 + item_size_spec(d.payment) + item_size_spec(d.session) + 72 * d.approvals@.len()
}

/// Serialized size of a whole deploy, in bytes.
pub fn deploy_size(d: &Deploy) -> (r: u128)
    ensures
        r == deploy_size_spec(*d),
{
    64 + item_size(&d.payment) + item_size(&d.session) + 72 * (d.approvals.len() as u128)
}

/// Approvals are a set: no two carry the same signer.
pub open spec fn approvals_wf(approvals: Seq<Approval>) -> bool {
    forall|i: int, j: int|
        0 <= i < j < approvals.len() ==> approvals[i].signer != approvals[j].signer
}

/// A well-formed deploy: its approvals form a set of signers.
pub open spec fn deploy_wf(d: Deploy) -> bool {
    approvals_wf(d.approvals@)
}

impl Deploy {
    /// Builds a deploy whose claimed identity and body digest are computed
    /// from its contents, so that it passes the digest checks.
    pub fn new(
        account: u64,
        timestamp: u64,
        ttl: u64,
        chain_name: u64,
        payment: ExecutableItem,
        session: ExecutableItem,
        signers: &Vec<u64>,
    ) -> (r: Deploy)
        ensures
            r.header.account == account,
            r.header.timestamp == timestamp,
            r.header.ttl == ttl,
            r.header.chain_name == chain_name,
            r.header.body_hash == body_digest_spec(payment, session),
            r.hash == header_digest_spec(r.header),
            r.payment == payment,
            r.session == session,
            r.approvals@.len() == signers@.len(),
            forall|i: int| 0 <= i < signers@.len()
                ==> r.approvals@[i] == (Approval { signer: signers@[i], signed_hash: r.hash }),
    {
        let body_hash = body_digest(&payment, &session);
        let header = DeployHeader { account, timestamp, ttl, chain_name, body_hash };
        let hash = header_digest(&header);
        let mut approvals: Vec<Approval> = Vec::new();
        let mut i: usize = 0;
        while i < signers.len()
            invariant
                i <= signers@.len(),
                approvals@.len() == i,
                forall|k: int| 0 <= k < i
                    ==> approvals@[k] == (Approval { signer: signers@[k], signed_hash: hash }),
            decreases signers@.len() - i,
        {
            approvals.push(Approval { signer: signers[i], signed_hash: hash });
            i = i + 1;
        }
        Deploy { hash, header, payment, session, approvals }
    }

    /// Corrupts the claimed identity so the deploy fails the digest check.
    pub fn invalidate(&mut self)
        ensures
            final(self).hash != header_digest_spec(final(self).header),
            final(self).header == old(self).header,
            final(self).payment == old(self).payment,
            final(self).session == old(self).session,
            final(self).approvals == old(self).approvals,
    {
        let good = header_digest(&self.header);
        let bad = good ^ 1;
        proof {
            assert(good ^ 1 != good) by (bit_vector);
        }
        self.hash = bad;
    }
}

} // verus!
