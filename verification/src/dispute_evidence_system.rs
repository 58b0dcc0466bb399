//! Dispute evidence: evidence records with integrity hashes, a hash-linked
//! chain of custody per dispute, validation rules, an action history and
//! aggregation of evidence into an outcome.
use vstd::prelude::*;
use vstd::utf8::*;
use crate::bytes::{append_bytes, bytes_eq, le_bytes_i64, le_bytes_u32, slice_to_vec, spec_le_bytes_i64, spec_le_bytes_u32};
use crate::crypto::{keccak_hashv, spec_keccak_hashv};
use crate::error::BettingPlatformError;
use crate::text::{matches_literal, spec_contains, str_contains};
use vstd::string::StringExecFns;

verus! {

/// Evidence records one dispute can hold.
pub const MAX_EVIDENCE_PER_DISPUTE: usize = 100;
/// Size limit of one evidence record (10KB).
pub const MAX_EVIDENCE_SIZE_BYTES: usize = 10240;

/// Evidence format types.
#[derive(Clone, Debug)]
pub enum EvidenceFormat {
    Text { content: String },
    Url { url: String, hash: Option<[u8; 32]> },
    Image { ipfs_hash: [u8; 32], format: String },
    Document { ipfs_hash: [u8; 32], mime_type: String },
    OnChainData { account: [u8; 32], offset: u32, length: u32 },
    OracleAttestation { oracle: [u8; 32], signature: [u8; 64] },
}

/// Verification status.
#[derive(Clone, Debug)]
pub enum VerificationStatus {
    Pending,
    Verified { verifier: [u8; 32], timestamp: i64 },
    Rejected { reason: String, timestamp: i64 },
    Expired,
}

/// Evidence metadata.
#[derive(Clone, Debug)]
pub struct EvidenceMetadata {
    pub evidence_id: [u8; 16],
    pub dispute_id: String,
    pub submitter: [u8; 32],
    pub format: EvidenceFormat,
    pub timestamp: i64,
    pub block_height: u64,
    pub hash: [u8; 32],
    pub previous_hash: Option<[u8; 32]>,
    pub verification_status: VerificationStatus,
    pub weight: u32,
}

/// Borsh image of a string (length as u32, then UTF-8 bytes), or nothing
/// when it is too long.
pub open spec fn spec_borsh_str(s: Seq<char>) -> Option<Seq<u8>> {
    let b = encode_utf8(s);
    if b.len() <= u32::MAX { Some(spec_le_bytes_u32(b.len() as u32) + b) } else { None }
}

/// Borsh image of an evidence format; the empty sequence when a string in
/// it has no image.
pub open spec fn spec_format_bytes(f: EvidenceFormat) -> Seq<u8> {
    match f {
        EvidenceFormat::Text { content } => match spec_borsh_str(content@) {
            Some(b) => seq![0u8] + b,
            None => Seq::empty(),
        },
        EvidenceFormat::Url { url, hash } => match spec_borsh_str(url@) {
            Some(b) => seq![1u8] + b + match hash {
                Some(h) => seq![1u8] + h@,
                None => seq![0u8],
            },
            None => Seq::empty(),
        },
        EvidenceFormat::Image { ipfs_hash, format } => match spec_borsh_str(format@) {
            Some(b) => seq![2u8] + ipfs_hash@ + b,
            None => Seq::empty(),
        },
        EvidenceFormat::Document { ipfs_hash, mime_type } => match spec_borsh_str(mime_type@) {
            Some(b) => seq![3u8] + ipfs_hash@ + b,
            None => Seq::empty(),
        },
        EvidenceFormat::OnChainData { account, offset, length } => seq![4u8] + account@ + spec_le_bytes_u32(offset)
            + spec_le_bytes_u32(length),
        EvidenceFormat::OracleAttestation { oracle, signature } => seq![5u8] + oracle@ + signature@,
    }
}

/// Id of an evidence record: the first 16 bytes of the Keccak digest of
/// the dispute id, the submitter and the timestamp.
pub open spec fn spec_evidence_id(dispute_id: Seq<char>, submitter: Seq<u8>, timestamp: i64) -> Seq<u8> {
    spec_keccak_hashv(seq![encode_utf8(dispute_id), submitter, spec_le_bytes_i64(timestamp)]).take(16)
}

/// Integrity hash of an evidence record: the Keccak digest of its id, its
/// format's Borsh image and its timestamp.
pub open spec fn spec_evidence_hash(id: Seq<u8>, f: EvidenceFormat, timestamp: i64) -> Seq<u8> {
    spec_keccak_hashv(seq![id, spec_format_bytes(f), spec_le_bytes_i64(timestamp)])
}

/// Whether a record's hash matches its content.
pub open spec fn spec_intact(e: EvidenceMetadata) -> bool {
    spec_evidence_hash(e.evidence_id@, e.format, e.timestamp) == e.hash@
}

/// Appends the Borsh image of a string; false when it is too long.
fn push_borsh_str(out: &mut Vec<u8>, s: &String) -> (ok: bool)
    ensures
        ok == spec_borsh_str(s@) is Some,
        ok ==> final(out)@ == old(out)@ + spec_borsh_str(s@)->0,
{
    let b = s.as_str().as_bytes();
    if b.len() <= 0xffff_ffffusize {
        let len_bytes = le_bytes_u32(b.len() as u32);
        append_bytes(out, len_bytes.as_slice());
        append_bytes(out, b);
        assert(out@ =~= old(out)@ + spec_borsh_str(s@)->0);
        true
    } else {
        false
    }
}

/// Serializes an evidence format in Borsh layout (empty when a string in it
/// is too long).
pub fn format_bytes(f: &EvidenceFormat) -> (r: Vec<u8>)
    ensures
        r@ == spec_format_bytes(*f),
{
    let mut out: Vec<u8> = Vec::new();
    match f {
        EvidenceFormat::Text { content } => {
            out.push(0u8);
            if !push_borsh_str(&mut out, content) {
                return Vec::new();
            }
        },
        EvidenceFormat::Url { url, hash } => {
            out.push(1u8);
            if !push_borsh_str(&mut out, url) {
                return Vec::new();
            }
            match hash {
                Some(h) => {
                    out.push(1u8);
                    append_bytes(&mut out, h.as_slice());
                },
                None => {
                    out.push(0u8);
                },
            }
        },
        EvidenceFormat::Image { ipfs_hash, format } => {
            out.push(2u8);
            append_bytes(&mut out, ipfs_hash.as_slice());
            if !push_borsh_str(&mut out, format) {
                return Vec::new();
            }
        },
        EvidenceFormat::Document { ipfs_hash, mime_type } => {
            out.push(3u8);
            append_bytes(&mut out, ipfs_hash.as_slice());
            if !push_borsh_str(&mut out, mime_type) {
                return Vec::new();
            }
        },
        EvidenceFormat::OnChainData { account, offset, length } => {
            out.push(4u8);
            append_bytes(&mut out, account.as_slice());
            let o = le_bytes_u32(*offset);
            append_bytes(&mut out, o.as_slice());
            let l = le_bytes_u32(*length);
            append_bytes(&mut out, l.as_slice());
        },
        EvidenceFormat::OracleAttestation { oracle, signature } => {
            out.push(5u8);
            append_bytes(&mut out, oracle.as_slice());
            append_bytes(&mut out, signature.as_slice());
        },
    }
    assert(out@ =~= spec_format_bytes(*f));
    out
}

impl EvidenceMetadata {
    pub const SIZE: usize = 256;

    /// A pending record of evidence for `dispute_id`, with its id and
    /// integrity hash.
    pub fn new(
        dispute_id: String,
        submitter: [u8; 32],
        format: EvidenceFormat,
        timestamp: i64,
        block_height: u64,
        previous_hash: Option<[u8; 32]>,
    ) -> (r: Self)
        ensures
            r.evidence_id@ == spec_evidence_id(dispute_id@, submitter@, timestamp),
            r.hash@ == spec_evidence_hash(r.evidence_id@, format, timestamp),
            spec_intact(r),
            r.dispute_id@ == dispute_id@,
            r.submitter == submitter,
            r.format == format,
            r.timestamp == timestamp,
            r.block_height == block_height,
            r.previous_hash == previous_hash,
            r.verification_status is Pending,
            r.weight == 0,
    {
        let evidence_id = Self::generate_id(&dispute_id, &submitter, timestamp);
        let hash = Self::calculate_hash(&evidence_id, &format, timestamp);
        EvidenceMetadata {
            evidence_id,
            dispute_id,
            submitter,
            format,
            timestamp,
            block_height,
            hash,
            previous_hash,
            verification_status: VerificationStatus::Pending,
            weight: 0,
        }
    }

    fn generate_id(dispute_id: &String, submitter: &[u8; 32], timestamp: i64) -> (r: [u8; 16])
        ensures
            r@ == spec_evidence_id(dispute_id@, submitter@, timestamp),
    {
        let mut parts: Vec<Vec<u8>> = Vec::new();
        parts.push(slice_to_vec(dispute_id.as_str().as_bytes()));
        parts.push(slice_to_vec(submitter.as_slice()));
        parts.push(le_bytes_i64(timestamp));
        assert(parts@.map_values(|p: Vec<u8>| p@) =~= seq![encode_utf8(dispute_id@), submitter@, spec_le_bytes_i64(timestamp)]);
        let hash = keccak_hashv(&parts);
        let mut id = [0u8; 16];
        let mut i: usize = 0;
        while i < 16
            invariant
                i <= 16,
                hash@.len() == 32,
                id@.len() == 16,
                forall|j: int| 0 <= j < i ==> id@[j] == hash@[j],
            decreases 16 - i,
        {
            id[i] = hash[i];
            i = i + 1;
        }
        assert(id@ =~= hash@.take(16));
        id
    }

    fn calculate_hash(id: &[u8; 16], format: &EvidenceFormat, timestamp: i64) -> (r: [u8; 32])
        ensures
            r@ == spec_evidence_hash(id@, *format, timestamp),
    {
        let mut parts: Vec<Vec<u8>> = Vec::new();
        parts.push(slice_to_vec(id.as_slice()));
        parts.push(format_bytes(format));
        parts.push(le_bytes_i64(timestamp));
        assert(parts@.map_values(|p: Vec<u8>| p@) =~= seq![id@, spec_format_bytes(*format), spec_le_bytes_i64(timestamp)]);
        keccak_hashv(&parts)
    }

    /// Checks the record's hash against its content.
    pub fn verify_integrity(&self) -> (r: Result<(), BettingPlatformError>)
        ensures
            r is Ok <==> spec_intact(*self),
            r matches Err(e) ==> e == BettingPlatformError::InvalidProof,
    {
        let calculated = Self::calculate_hash(&self.evidence_id, &self.format, self.timestamp);
        if !bytes_eq(&calculated, &self.hash) {
            return Err(BettingPlatformError::InvalidProof);
        }
        Ok(())
    }
}

/// Evidence chain of a dispute.
#[derive(Clone, Debug)]
pub struct EvidenceChain {
    pub dispute_id: String,
    /// Evidence ids in submission order.
    pub evidence_list: Vec<[u8; 16]>,
    /// The stored records, at most one per id.
    pub evidence_map: Vec<EvidenceMetadata>,
    pub total_evidence: u32,
    pub last_update: i64,
    /// Keccak digest of the concatenated evidence ids.
    pub chain_hash: [u8; 32],
}

/// The stored record with id `id`.
pub open spec fn spec_lookup(store: Seq<EvidenceMetadata>, id: Seq<u8>) -> Option<EvidenceMetadata> {
    if exists|j: int| 0 <= j < store.len() && store[j].evidence_id@ == id {
        Some(store[choose|j: int| 0 <= j < store.len() && store[j].evidence_id@ == id])
    } else {
        None
    }
}

/// The records of the listed ids that are stored, in list order.
pub open spec fn spec_chronological(ids: Seq<[u8; 16]>, store: Seq<EvidenceMetadata>) -> Seq<EvidenceMetadata>
    decreases ids.len(),
{
    if ids.len() == 0 {
        Seq::empty()
    } else {
        spec_chronological(ids.drop_last(), store) + match spec_lookup(store, ids.last()@) {
            Some(e) => seq![e],
            None => Seq::empty(),
        }
    }
}

/// Concatenation of the ids.
pub open spec fn spec_concat_ids(ids: Seq<[u8; 16]>) -> Seq<u8>
    decreases ids.len(),
{
    if ids.len() == 0 { Seq::empty() } else { spec_concat_ids(ids.drop_last()) + ids.last()@ }
}

/// Outcome of checking the chain from position `i`, the previous record
/// having hash `prev`: every listed id is stored, every record is intact,
/// and each record after the first names its predecessor's hash.
pub open spec fn spec_chain_check(ids: Seq<[u8; 16]>, store: Seq<EvidenceMetadata>, i: int, prev: Option<[u8; 32]>) -> Result<(), BettingPlatformError>
    decreases ids.len() - i,
{
    if i < 0 || i >= ids.len() {
        Ok(())
    } else {
        match spec_lookup(store, ids[i]@) {
            None => Err(BettingPlatformError::InvalidProof),
            Some(e) => if !spec_intact(e) {
                Err(BettingPlatformError::InvalidProof)
            } else if i > 0 && !spec_same_hash(e.previous_hash, prev) {
                Err(BettingPlatformError::InvalidEvidenceOrder)
            } else {
                spec_chain_check(ids, store, i + 1, Some(e.hash))
            },
        }
    }
}

/// Equality of two optional hashes by content.
pub open spec fn spec_same_hash(a: Option<[u8; 32]>, b: Option<[u8; 32]>) -> bool {
    match (a, b) {
        (Some(x), Some(y)) => x@ == y@,
        (None, None) => true,
        _ => false,
    }
}

/// Stored records after `e` is stored: it replaces the record with its id,
/// or is appended.
pub open spec fn spec_store_after(old_s: Seq<EvidenceMetadata>, new_s: Seq<EvidenceMetadata>, e: EvidenceMetadata) -> bool {
    if exists|j: int| 0 <= j < old_s.len() && old_s[j].evidence_id@ == e.evidence_id@ {
        forall|j: int| 0 <= j < old_s.len() && old_s[j].evidence_id@ == e.evidence_id@ ==> new_s == old_s.update(j, e)
    } else {
        new_s == old_s.push(e)
    }
}

/// Why a record cannot join the chain, if it cannot.
pub open spec fn spec_add_refusal(c: EvidenceChain, e: EvidenceMetadata) -> Option<BettingPlatformError> {
    if c.evidence_list@.len() >= MAX_EVIDENCE_PER_DISPUTE {
        Some(BettingPlatformError::AccountDataTooSmall)
    } else if !spec_intact(e) {
        Some(BettingPlatformError::InvalidProof)
    } else {
        match e.previous_hash {
            Some(p) => if c.evidence_list@.len() == 0 {
                Some(BettingPlatformError::InvalidEvidenceOrder)
            } else {
                match spec_lookup(c.evidence_map@, c.evidence_list@.last()@) {
                    Some(last) => if last.hash@ != p@ { Some(BettingPlatformError::InvalidEvidenceOrder) } else { None },
                    None => None,
                }
            },
            None => None,
        }
    }
}

proof fn lemma_lookup_at(store: Seq<EvidenceMetadata>, j: int)
    requires
        0 <= j < store.len(),
        forall|a: int, b: int| 0 <= a < b < store.len() ==> store[a].evidence_id@ != store[b].evidence_id@,
    ensures
        spec_lookup(store, store[j].evidence_id@) == Some(store[j]),
{
    let id = store[j].evidence_id@;
    let k = choose|k: int| 0 <= k < store.len() && store[k].evidence_id@ == id;
    assert(0 <= k < store.len() && store[k].evidence_id@ == id);
    if k < j {
        assert(store[k].evidence_id@ != store[j].evidence_id@);
    } else if k > j {
        assert(store[j].evidence_id@ != store[k].evidence_id@);
    }
}

proof fn lemma_chain_check_extends(
    ids: Seq<[u8; 16]>,
    store: Seq<EvidenceMetadata>,
    e: EvidenceMetadata,
    i: int,
    prev: Option<[u8; 32]>,
)
    requires
        0 <= i <= ids.len(),
        forall|a: int, b: int| 0 <= a < b < store.len() ==> store[a].evidence_id@ != store[b].evidence_id@,
        spec_lookup(store, e.evidence_id@) is None,
        spec_chain_check(ids, store, i, prev) is Ok,
        spec_intact(e),
        ids.len() > 0 ==> (e.previous_hash matches Some(p) && (spec_lookup(store, ids.last()@) matches Some(last)
            ==> last.hash@ == p@)),
        i == ids.len() && i > 0 ==> (spec_lookup(store, ids.last()@) matches Some(last) && prev == Some(last.hash)),
    ensures
        spec_chain_check(ids.push(e.evidence_id), store.push(e), i, prev) is Ok,
    decreases ids.len() - i,
{
    let nids = ids.push(e.evidence_id);
    let nstore = store.push(e);
    assert forall|a: int, b: int| 0 <= a < b < nstore.len() implies nstore[a].evidence_id@ != nstore[b].evidence_id@ by {
        if b == store.len() {
            if nstore[a].evidence_id@ == e.evidence_id@ {
                assert(store[a].evidence_id@ == e.evidence_id@);
            }
        }
    }
    if i < ids.len() {
        match spec_lookup(store, ids[i]@) {
            Some(r) => {
                let j = choose|j: int| 0 <= j < store.len() && store[j].evidence_id@ == ids[i]@;
                assert(0 <= j < store.len() && store[j].evidence_id@ == ids[i]@);
                lemma_lookup_at(store, j);
                lemma_lookup_at(nstore, j);
                assert(nstore[j] == store[j]);
                assert(nids[i] == ids[i]);
                if i + 1 == ids.len() {
                    assert(ids.last() == ids[i]);
                }
                lemma_chain_check_extends(ids, store, e, i + 1, Some(r.hash));
            },
            None => {},
        }
    } else {
        lemma_lookup_at(nstore, store.len() as int);
        assert(nids[i] == e.evidence_id);
        assert(spec_chain_check(nids, nstore, i + 1, Some(e.hash)) is Ok);
    }
}

/// Appending evidence that names the last record's hash keeps a valid chain
/// valid: a chain that checks out still checks out after `add_evidence`
/// accepts a record with a new id that links to its predecessor.
pub proof fn lemma_linked_append_keeps_chain_valid(before: EvidenceChain, e: EvidenceMetadata, after: EvidenceChain)
    requires
        before.wf(),
        spec_chain_check(before.evidence_list@, before.evidence_map@, 0, None) is Ok,
        spec_add_refusal(before, e) is None,
        spec_lookup(before.evidence_map@, e.evidence_id@) is None,
        before.evidence_list@.len() > 0 ==> e.previous_hash is Some,
        after.evidence_list@ == before.evidence_list@.push(e.evidence_id),
        spec_store_after(before.evidence_map@, after.evidence_map@, e),
    ensures
        spec_chain_check(after.evidence_list@, after.evidence_map@, 0, None) is Ok,
{
    let ids = before.evidence_list@;
    let store = before.evidence_map@;
    assert(!(exists|j: int| 0 <= j < store.len() && store[j].evidence_id@ == e.evidence_id@));
    assert(after.evidence_map@ == store.push(e));
    lemma_chain_check_extends(ids, store, e, 0, None);
}

impl EvidenceChain {
    pub const SIZE: usize = 65536;

    /// Each id is stored at most once.
    pub open spec fn wf(&self) -> bool {
        forall|i: int, j: int| 0 <= i < j < self.evidence_map@.len() ==> self.evidence_map@[i].evidence_id@
            != self.evidence_map@[j].evidence_id@
    }

    /// An empty chain for a dispute.
    pub fn new(dispute_id: String) -> (r: Self)
        ensures
            r.wf(),
            r.dispute_id@ == dispute_id@,
            r.evidence_list@.len() == 0,
            r.evidence_map@.len() == 0,
            r.total_evidence == 0,
            r.last_update == 0,
            r.chain_hash@ == Seq::new(32, |i: int| 0u8),
    {
        let r = EvidenceChain {
            dispute_id,
            evidence_list: Vec::new(),
            evidence_map: Vec::new(),
            total_evidence: 0,
            last_update: 0,
            chain_hash: [0u8; 32],
        };
        assert(r.chain_hash@ =~= Seq::new(32, |i: int| 0u8));
        r
    }

    fn find(&self, id: &[u8; 16]) -> (r: Option<usize>)
        requires
            self.wf(),
        ensures
            r is None ==> spec_lookup(self.evidence_map@, id@) is None,
            r matches Some(j) ==> j < self.evidence_map@.len() && spec_lookup(self.evidence_map@, id@) == Some(
                self.evidence_map@[j as int],
            ) && self.evidence_map@[j as int].evidence_id@ == id@,
    {
        let mut j: usize = 0;
        while j < self.evidence_map.len()
            invariant
                j <= self.evidence_map@.len(),
                self.wf(),
                forall|k: int| 0 <= k < j ==> self.evidence_map@[k].evidence_id@ != id@,
            decreases self.evidence_map@.len() - j,
        {
            if bytes_eq(&self.evidence_map[j].evidence_id, id) {
                proof {
                    let m = self.evidence_map@;
                    let k = choose|k: int| 0 <= k < m.len() && m[k].evidence_id@ == id@;
                    if k != j as int {
                        if k < j as int {
                            assert(m[k].evidence_id@ != m[j as int].evidence_id@);
                        } else {
                            assert(m[j as int].evidence_id@ != m[k].evidence_id@);
                        }
                    }
                }
                return Some(j);
            }
            j = j + 1;
        }
        None
    }

    /// The record with id `id`, when stored.
    pub fn get_evidence(&self, id: &[u8; 16]) -> (r: Option<&EvidenceMetadata>)
        requires
            self.wf(),
        ensures
            r is None <==> spec_lookup(self.evidence_map@, id@) is None,
            r matches Some(e) ==> spec_lookup(self.evidence_map@, id@) == Some(*e),
    {
        match self.find(id) {
            Some(j) => Some(&self.evidence_map[j]),
            None => None,
        }
    }

    /// The stored records of the listed ids, in submission order.
    pub fn get_chronological_evidence(&self) -> (r: Vec<&EvidenceMetadata>)
        requires
            self.wf(),
        ensures
            r@.map_values(|e: &EvidenceMetadata| *e) == spec_chronological(self.evidence_list@, self.evidence_map@),
    {
        let mut out: Vec<&EvidenceMetadata> = Vec::new();
        let mut i: usize = 0;
        while i < self.evidence_list.len()
            invariant
                i <= self.evidence_list@.len(),
                self.wf(),
                out@.map_values(|e: &EvidenceMetadata| *e) == spec_chronological(
                    self.evidence_list@.subrange(0, i as int),
                    self.evidence_map@,
                ),
            decreases self.evidence_list@.len() - i,
        {
            proof {
                assert(self.evidence_list@.subrange(0, i + 1).drop_last() =~= self.evidence_list@.subrange(0, i as int));
            }
            match self.find(&self.evidence_list[i]) {
                Some(j) => {
                    out.push(&self.evidence_map[j]);
                },
                None => {},
            }
            i = i + 1;
            assert(out@.map_values(|e: &EvidenceMetadata| *e) =~= spec_chronological(
                self.evidence_list@.subrange(0, i as int),
                self.evidence_map@,
            ));
        }
        assert(self.evidence_list@.subrange(0, i as int) =~= self.evidence_list@);
        out
    }

    fn update_chain_hash(&mut self)
        ensures
            final(self).chain_hash@ == spec_keccak_hashv(seq![spec_concat_ids(old(self).evidence_list@)]),
            *final(self) == (EvidenceChain { chain_hash: final(self).chain_hash, ..*old(self) }),
    {
        let mut bytes: Vec<u8> = Vec::new();
        let mut i: usize = 0;
        while i < self.evidence_list.len()
            invariant
                i <= self.evidence_list@.len(),
                bytes@ == spec_concat_ids(self.evidence_list@.subrange(0, i as int)),
            decreases self.evidence_list@.len() - i,
        {
            proof {
                assert(self.evidence_list@.subrange(0, i + 1).drop_last() =~= self.evidence_list@.subrange(0, i as int));
            }
            append_bytes(&mut bytes, self.evidence_list[i].as_slice());
            i = i + 1;
        }
        assert(self.evidence_list@.subrange(0, i as int) =~= self.evidence_list@);
        let mut parts: Vec<Vec<u8>> = Vec::new();
        parts.push(bytes);
        assert(parts@.map_values(|p: Vec<u8>| p@) =~= seq![spec_concat_ids(self.evidence_list@)]);
        self.chain_hash = keccak_hashv(&parts);
    }

    /// Appends a record to the chain at `current_timestamp`: refused when
    /// the chain is full, the record's hash does not match its content, or
    /// it names a predecessor hash that is not the last record's.
    pub fn add_evidence(&mut self, metadata: EvidenceMetadata, current_timestamp: i64) -> (r: Result<(), BettingPlatformError>)
        requires
            old(self).wf(),
            old(self).total_evidence < u32::MAX,
        ensures
            final(self).wf(),
            spec_add_refusal(*old(self), metadata) matches Some(e) ==> r == Err::<(), BettingPlatformError>(e)
                && *final(self) == *old(self),
            spec_add_refusal(*old(self), metadata) is None ==> {
                &&& r is Ok
                &&& final(self).evidence_list@ == old(self).evidence_list@.push(metadata.evidence_id)
                &&& spec_store_after(old(self).evidence_map@, final(self).evidence_map@, metadata)
                &&& final(self).total_evidence == old(self).total_evidence + 1
                &&& final(self).last_update == current_timestamp
                &&& final(self).chain_hash@ == spec_keccak_hashv(seq![spec_concat_ids(final(self).evidence_list@)])
                &&& final(self).dispute_id == old(self).dispute_id
            },
    {
        if self.evidence_list.len() >= MAX_EVIDENCE_PER_DISPUTE {
            return Err(BettingPlatformError::AccountDataTooSmall);
        }
        match metadata.verify_integrity() {
            Ok(()) => {},
            Err(e) => return Err(e),
        }
        if let Some(prev_hash) = metadata.previous_hash {
            if self.evidence_list.len() == 0 {
                return Err(BettingPlatformError::InvalidEvidenceOrder);
            }
            let last_id = self.evidence_list[self.evidence_list.len() - 1];
            match self.find(&last_id) {
                Some(j) => {
                    if !bytes_eq(&self.evidence_map[j].hash, &prev_hash) {
                        return Err(BettingPlatformError::InvalidEvidenceOrder);
                    }
                },
                None => {},
            }
        }
        let id = metadata.evidence_id;
        self.evidence_list.push(id);
        let ghost m0 = self.evidence_map@;
        let ghost md = metadata;
        match self.find(&id) {
            Some(j) => {
                let _old = self.evidence_map.remove(j);
                self.evidence_map.insert(j, metadata);
                proof {
                    assert(self.evidence_map@ =~= m0.update(j as int, md));
                    assert forall|k: int| 0 <= k < m0.len() && m0[k].evidence_id@ == md.evidence_id@
                        implies self.evidence_map@ == m0.update(k, md) by {
                        if k != j as int {
                            if k < j as int {
                                assert(m0[k].evidence_id@ != m0[j as int].evidence_id@);
                            } else {
                                assert(m0[j as int].evidence_id@ != m0[k].evidence_id@);
                            }
                        }
                    }
                }
            },
            None => {
                self.evidence_map.push(metadata);
                proof {
                    assert(!(exists|k: int| 0 <= k < m0.len() && m0[k].evidence_id@ == md.evidence_id@));
                }
            },
        }
        self.total_evidence = self.total_evidence + 1;
        self.last_update = current_timestamp;
        self.update_chain_hash();
        Ok(())
    }

    /// Checks the whole chain: every listed record is stored and intact, and
    /// each one after the first names its predecessor's hash.
    pub fn verify_chain(&self) -> (r: Result<(), BettingPlatformError>)
        requires
            self.wf(),
        ensures
            r == spec_chain_check(self.evidence_list@, self.evidence_map@, 0, None),
    {
        let mut previous_hash: Option<[u8; 32]> = None;
        let mut i: usize = 0;
        while i < self.evidence_list.len()
            invariant
                i <= self.evidence_list@.len(),
                self.wf(),
                spec_chain_check(self.evidence_list@, self.evidence_map@, 0, None) == spec_chain_check(
                    self.evidence_list@,
                    self.evidence_map@,
                    i as int,
                    previous_hash,
                ),
            decreases self.evidence_list@.len() - i,
        {
            let j = match self.find(&self.evidence_list[i]) {
                Some(j) => j,
                None => return Err(BettingPlatformError::InvalidProof),
            };
            let evidence = &self.evidence_map[j];
            match evidence.verify_integrity() {
                Ok(()) => {},
                Err(e) => return Err(e),
            }
            if i > 0 {
                let same = match (evidence.previous_hash, previous_hash) {
                    (Some(x), Some(y)) => bytes_eq(&x, &y),
                    (None, None) => true,
                    _ => false,
                };
                if !same {
                    return Err(BettingPlatformError::InvalidEvidenceOrder);
                }
            }
            previous_hash = Some(evidence.hash);
            i = i + 1;
        }
        Ok(())
    }
}

/// Evidence validator with its rules.
#[derive(Clone, Copy, Debug)]
pub struct EvidenceValidator {
    pub max_age_days: i64,
    pub min_weight_threshold: u32,
    pub required_verifications: u32,
}

/// The characters of `https://`.
pub open spec fn spec_https_prefix() -> Seq<char> {
    seq!['h', 't', 't', 'p', 's', ':', '/', '/']
}

/// Whether an evidence format passes the format rules: non-empty text of at
/// most 10000 bytes, an https URL of at most 500 bytes, a png, jpg, jpeg,
/// gif or webp image, a PDF, plain-text or JSON document; other formats
/// pass.
pub open spec fn spec_format_valid(f: EvidenceFormat) -> bool {
    match f {
        EvidenceFormat::Text { content } => content@.len() > 0 && encode_utf8(content@).len() <= 10000,
        EvidenceFormat::Url { url, .. } => url@.len() >= 8 && url@.subrange(0, 8) == spec_https_prefix()
            && encode_utf8(url@).len() <= 500,
        EvidenceFormat::Image { format, .. } => format@ == "png"@ || format@ == "jpg"@ || format@ == "jpeg"@
            || format@ == "gif"@ || format@ == "webp"@,
        EvidenceFormat::Document { mime_type, .. } => mime_type@ == "application/pdf"@ || mime_type@
            == "text/plain"@ || mime_type@ == "application/json"@,
        _ => true,
    }
}

/// Weight of a record: by format (oracle 1000, on-chain 800, document 600,
/// image 400, URL 200, text 100), plus 500 once verified.
pub open spec fn spec_weight(e: EvidenceMetadata) -> int {
    let base = match e.format {
        EvidenceFormat::OracleAttestation { .. } => 1000int,
        EvidenceFormat::OnChainData { .. } => 800,
        EvidenceFormat::Document { .. } => 600,
        EvidenceFormat::Image { .. } => 400,
        EvidenceFormat::Url { .. } => 200,
        EvidenceFormat::Text { .. } => 100,
    };
    base + match e.verification_status {
        VerificationStatus::Verified { .. } => 500int,
        _ => 0,
    }
}

/// Total weight of records.
pub open spec fn spec_weight_sum(es: Seq<EvidenceMetadata>) -> int
    decreases es.len(),
{
    if es.len() == 0 { 0 } else { spec_weight_sum(es.drop_last()) + spec_weight(es.last()) }
}

/// Whole days in `secs`, rounding toward zero as integer division does.
pub open spec fn spec_whole_days(secs: int) -> int {
    if secs >= 0 { secs / 86400 } else { -((-secs) / 86400) }
}

fn has_https_prefix(url: &String) -> (r: bool)
    ensures
        r == (url@.len() >= 8 && url@.subrange(0, 8) == spec_https_prefix()),
{
    let cs = crate::text::chars_of(url.as_str());
    if cs.len() < 8 {
        return false;
    }
    let r = cs[0] == 'h' && cs[1] == 't' && cs[2] == 't' && cs[3] == 'p' && cs[4] == 's' && cs[5] == ':' && cs[6] == '/'
        && cs[7] == '/';
    proof {
        if r {
            assert(url@.subrange(0, 8) =~= spec_https_prefix());
        } else {
            assert(url@.subrange(0, 8) != spec_https_prefix()) by {
                if url@.subrange(0, 8) == spec_https_prefix() {
                    assert(url@.subrange(0, 8)[0] == 'h');
                }
            }
        }
    }
    r
}

impl EvidenceValidator {
    pub const DEFAULT_MAX_AGE_DAYS: i64 = 30;
    pub const DEFAULT_MIN_WEIGHT: u32 = 100;
    pub const DEFAULT_REQUIRED_VERIFICATIONS: u32 = 2;

    /// The default rules: 30 days, weight 100, two verifications.
    pub fn new() -> (r: Self)
        ensures
            r.max_age_days == 30,
            r.min_weight_threshold == 100,
            r.required_verifications == 2,
    {
        EvidenceValidator {
            max_age_days: Self::DEFAULT_MAX_AGE_DAYS,
            min_weight_threshold: Self::DEFAULT_MIN_WEIGHT,
            required_verifications: Self::DEFAULT_REQUIRED_VERIFICATIONS,
        }
    }

    /// Checks an evidence format against the format rules.
    pub fn validate_format(&self, format: &EvidenceFormat) -> (r: Result<(), BettingPlatformError>)
        ensures
            r is Ok <==> spec_format_valid(*format),
            r matches Err(e) ==> e == BettingPlatformError::InvalidEvidenceType,
    {
        let ok = match format {
            EvidenceFormat::Text { content } => {
                let t = content.as_str();
                !t.is_empty() && t.as_bytes().len() <= 10000
            },
            EvidenceFormat::Url { url, .. } => has_https_prefix(url) && url.as_str().as_bytes().len() <= 500,
            EvidenceFormat::Image { format, .. } => matches_literal(format, "png") || matches_literal(format, "jpg")
                || matches_literal(format, "jpeg") || matches_literal(format, "gif") || matches_literal(format, "webp"),
            EvidenceFormat::Document { mime_type, .. } => matches_literal(mime_type, "application/pdf") || matches_literal(
                mime_type,
                "text/plain",
            ) || matches_literal(mime_type, "application/json"),
            _ => true,
        };
        if !ok {
            return Err(BettingPlatformError::InvalidEvidenceType);
        }
        Ok(())
    }

    /// Evidence older than `max_age_days` whole days is stale.
    pub fn validate_age(&self, evidence_timestamp: i64, current_timestamp: i64) -> (r: Result<(), BettingPlatformError>)
        requires
            i64::MIN <= current_timestamp - evidence_timestamp <= i64::MAX,
        ensures
            r is Ok <==> spec_whole_days(current_timestamp - evidence_timestamp) <= self.max_age_days,
            r matches Err(e) ==> e == BettingPlatformError::StaleEvidence,
    {
        let age_seconds = current_timestamp - evidence_timestamp;
        let age_days: i64 = if age_seconds >= 0 {
            age_seconds / 86400
        } else {
            let neg: i128 = -(age_seconds as i128);
            (-(neg / 86400)) as i64
        };
        if age_days > self.max_age_days {
            return Err(BettingPlatformError::StaleEvidence);
        }
        Ok(())
    }

    /// Weight of a record by format and verification.
    pub fn calculate_weight(&self, evidence: &EvidenceMetadata) -> (r: u32)
        ensures
            r == spec_weight(*evidence),
            r <= 1500,
    {
        let base_weight: u32 = match &evidence.format {
            EvidenceFormat::OracleAttestation { .. } => 1000,
            EvidenceFormat::OnChainData { .. } => 800,
            EvidenceFormat::Document { .. } => 600,
            EvidenceFormat::Image { .. } => 400,
            EvidenceFormat::Url { .. } => 200,
            EvidenceFormat::Text { .. } => 100,
        };
        let verification_bonus: u32 = match &evidence.verification_status {
            VerificationStatus::Verified { .. } => 500,
            _ => 0,
        };
        base_weight + verification_bonus
    }

    /// Whether a chain is complete: it checks out, holds evidence, and its
    /// records weigh at least the minimum.
    pub fn validate_chain_completeness(&self, chain: &EvidenceChain) -> (r: Result<bool, BettingPlatformError>)
        requires
            chain.wf(),
            spec_weight_sum(spec_chronological(chain.evidence_list@, chain.evidence_map@)) <= u32::MAX,
        ensures
            spec_chain_check(chain.evidence_list@, chain.evidence_map@, 0, None) matches Err(e) ==> r == Err::<bool, BettingPlatformError>(e),
            spec_chain_check(chain.evidence_list@, chain.evidence_map@, 0, None) is Ok ==> r == Ok::<bool, BettingPlatformError>(
                chain.total_evidence >= 1 && spec_weight_sum(spec_chronological(chain.evidence_list@, chain.evidence_map@))
                    >= self.min_weight_threshold),
    {
        match chain.verify_chain() {
            Ok(()) => {},
            Err(e) => return Err(e),
        }
        if chain.total_evidence < 1 {
            return Ok(false);
        }
        let es = chain.get_chronological_evidence();
        let ghost all = es@.map_values(|e: &EvidenceMetadata| *e);
        let mut total: u32 = 0;
        let mut i: usize = 0;
        while i < es.len()
            invariant
                i <= es@.len(),
                all == es@.map_values(|e: &EvidenceMetadata| *e),
                spec_weight_sum(all) <= u32::MAX,
                total == spec_weight_sum(all.subrange(0, i as int)),
            decreases es@.len() - i,
        {
            proof {
                assert(all.subrange(0, i + 1).drop_last() =~= all.subrange(0, i as int));
                lemma_weight_sum_prefix(all, i + 1);
            }
            total = total + self.calculate_weight(es[i]);
            i = i + 1;
        }
        assert(all.subrange(0, i as int) =~= all);
        Ok(total >= self.min_weight_threshold)
    }
}

proof fn lemma_weight_sum_prefix(es: Seq<EvidenceMetadata>, j: int)
    requires
        0 <= j <= es.len(),
    ensures
        0 <= spec_weight_sum(es.subrange(0, j)) <= spec_weight_sum(es),
    decreases es.len() - j,
{
    if j < es.len() {
        lemma_weight_sum_prefix(es, j + 1);
        assert(es.subrange(0, j + 1).drop_last() =~= es.subrange(0, j));
    } else {
        assert(es.subrange(0, j) =~= es);
    }
    lemma_weight_sum_nonneg(es.subrange(0, j));
}

proof fn lemma_weight_sum_nonneg(es: Seq<EvidenceMetadata>)
    ensures
        spec_weight_sum(es) >= 0,
    decreases es.len(),
{
    if es.len() > 0 {
        lemma_weight_sum_nonneg(es.drop_last());
    }
}

/// An action recorded in the evidence history.
#[derive(Clone, Copy, Debug, PartialEq, Eq, Structural)]
pub enum HistoryAction {
    Submitted,
    Verified,
    Rejected,
    Updated,
    Expired,
}

/// One history entry.
#[derive(Clone, Debug)]
pub struct HistoryEntry {
    pub timestamp: i64,
    pub action: HistoryAction,
    pub actor: [u8; 32],
    pub evidence_id: [u8; 16],
    pub details: String,
}

/// Evidence history, keeping the latest `MAX_ENTRIES` entries.
#[derive(Clone, Debug)]
pub struct EvidenceHistory {
    pub entries: Vec<HistoryEntry>,
    pub total_entries: u64,
    pub oldest_entry: i64,
    pub newest_entry: i64,
}

impl EvidenceHistory {
    pub const SIZE: usize = 16384;
    pub const MAX_ENTRIES: usize = 1000;

    /// An empty history.
    pub fn new() -> (r: Self)
        ensures
            r.entries@.len() == 0,
            r.total_entries == 0,
            r.oldest_entry == 0,
            r.newest_entry == 0,
    {
        EvidenceHistory { entries: Vec::new(), total_entries: 0, oldest_entry: 0, newest_entry: 0 }
    }

    /// Records an action; the oldest entry makes room once the history is
    /// full. The oldest and newest times widen to include `timestamp` (an
    /// oldest time of 0 counts as unset).
    pub fn add_entry(
        &mut self,
        action: HistoryAction,
        actor: [u8; 32],
        evidence_id: [u8; 16],
        details: String,
        timestamp: i64,
    ) -> (r: Result<(), BettingPlatformError>)
        requires
            old(self).total_entries < u64::MAX,
        ensures
            r is Ok,
            ({
                let kept = if old(self).entries@.len() >= Self::MAX_ENTRIES { old(self).entries@.drop_first() } else { old(self).entries@ };
                &&& final(self).entries@.len() == kept.len() + 1
                &&& final(self).entries@.subrange(0, kept.len() as int) == kept
                &&& final(self).entries@.last().timestamp == timestamp
                &&& final(self).entries@.last().action == action
                &&& final(self).entries@.last().actor == actor
                &&& final(self).entries@.last().evidence_id == evidence_id
                &&& final(self).entries@.last().details@ == details@
            }),
            final(self).total_entries == old(self).total_entries + 1,
            final(self).oldest_entry == (if old(self).oldest_entry == 0 || timestamp < old(self).oldest_entry { timestamp } else { old(self).oldest_entry }),
            final(self).newest_entry == (if timestamp > old(self).newest_entry { timestamp } else { old(self).newest_entry }),
    {
        if self.entries.len() >= Self::MAX_ENTRIES {
            let _dropped = self.entries.remove(0);
        }
        let ghost kept = self.entries@;
        self.entries.push(HistoryEntry { timestamp, action, actor, evidence_id, details });
        assert(self.entries@.subrange(0, kept.len() as int) =~= kept);
        self.total_entries = self.total_entries + 1;
        if self.oldest_entry == 0 || timestamp < self.oldest_entry {
            self.oldest_entry = timestamp;
        }
        if timestamp > self.newest_entry {
            self.newest_entry = timestamp;
        }
        Ok(())
    }

    /// The entries about one evidence record, oldest first.
    pub fn get_evidence_history(&self, evidence_id: &[u8; 16]) -> (r: Vec<&HistoryEntry>)
        ensures
            r@.map_values(|e: &HistoryEntry| *e) == self.entries@.filter(|e: HistoryEntry| e.evidence_id@ == evidence_id@),
    {
        let ghost pred = |e: HistoryEntry| e.evidence_id@ == evidence_id@;
        let mut out: Vec<&HistoryEntry> = Vec::new();
        let mut i: usize = 0;
        while i < self.entries.len()
            invariant
                i <= self.entries@.len(),
                pred == (|e: HistoryEntry| e.evidence_id@ == evidence_id@),
                out@.map_values(|e: &HistoryEntry| *e) == self.entries@.subrange(0, i as int).filter(pred),
            decreases self.entries@.len() - i,
        {
            proof {
                reveal_with_fuel(Seq::filter, 1);
                assert(self.entries@.subrange(0, i + 1).drop_last() =~= self.entries@.subrange(0, i as int));
            }
            if bytes_eq(&self.entries[i].evidence_id, evidence_id) {
                out.push(&self.entries[i]);
            }
            i = i + 1;
            assert(out@.map_values(|e: &HistoryEntry| *e) =~= self.entries@.subrange(0, i as int).filter(pred));
        }
        assert(self.entries@.subrange(0, i as int) =~= self.entries@);
        out
    }
}

/// Evidence aggregator for dispute resolution.
pub struct EvidenceAggregator;

/// The outcome a record argues for: a text naming YES, else one naming NO.
pub open spec fn spec_outcome(e: EvidenceMetadata) -> Option<Seq<char>> {
    match e.format {
        EvidenceFormat::Text { content } => if spec_contains(content@, "YES"@) {
            Some("YES"@)
        } else if spec_contains(content@, "NO"@) {
            Some("NO"@)
        } else {
            None
        },
        _ => None,
    }
}

/// Position of the first entry for `outcome`, or -1.
pub open spec fn spec_score_pos(scores: Seq<(Seq<char>, int)>, outcome: Seq<char>) -> int
    decreases scores.len(),
{
    if scores.len() == 0 {
        -1
    } else {
        let p = spec_score_pos(scores.drop_last(), outcome);
        if p >= 0 { p } else if scores.last().0 == outcome { scores.len() - 1 } else { -1 }
    }
}

/// Scores with `w` added to `outcome`, a new entry at the end when the
/// outcome has none yet.
pub open spec fn spec_add_score(scores: Seq<(Seq<char>, int)>, outcome: Seq<char>, w: int) -> Seq<(Seq<char>, int)> {
    let k = spec_score_pos(scores, outcome);
    if k >= 0 {
        scores.update(k, (outcome, scores[k].1 + w))
    } else {
        scores.push((outcome, w))
    }
}

proof fn lemma_score_pos(scores: Seq<(Seq<char>, int)>, outcome: Seq<char>)
    ensures
        -1 <= spec_score_pos(scores, outcome) < scores.len(),
        spec_score_pos(scores, outcome) >= 0 ==> scores[spec_score_pos(scores, outcome)].0 == outcome,
        forall|q: int| 0 <= q < scores.len() && (spec_score_pos(scores, outcome) < 0 || q < spec_score_pos(scores, outcome))
            ==> #[trigger] scores[q].0 != outcome,
    decreases scores.len(),
{
    if scores.len() > 0 {
        lemma_score_pos(scores.drop_last(), outcome);
        let p = spec_score_pos(scores.drop_last(), outcome);
        assert forall|q: int| 0 <= q < scores.len() && (spec_score_pos(scores, outcome) < 0 || q < spec_score_pos(scores, outcome))
            implies #[trigger] scores[q].0 != outcome by {
            if q < scores.len() - 1 {
                assert(scores[q] == scores.drop_last()[q]);
            }
        }
    }
}

/// Outcome scores of records, outcomes in order of first appearance.
pub open spec fn spec_scores(es: Seq<EvidenceMetadata>) -> Seq<(Seq<char>, int)>
    decreases es.len(),
{
    if es.len() == 0 {
        Seq::empty()
    } else {
        let prev = spec_scores(es.drop_last());
        match spec_outcome(es.last()) {
            Some(o) => spec_add_score(prev, o, spec_weight(es.last())),
            None => prev,
        }
    }
}

/// A score table with text as character sequences.
pub open spec fn spec_score_view(v: Seq<(String, u32)>) -> Seq<(Seq<char>, int)> {
    v.map_values(|e: (String, u32)| (e.0@, e.1 as int))
}

/// Sum of the scores.
pub open spec fn spec_score_total(v: Seq<(String, u32)>) -> int
    decreases v.len(),
{
    if v.len() == 0 { 0 } else { spec_score_total(v.drop_last()) + v.last().1 }
}

/// Position of the first outcome whose share reaches `threshold` percent.
pub open spec fn spec_first_consensus(v: Seq<(String, u32)>, total: int, threshold: u32) -> Option<int>
    decreases v.len(),
{
    if v.len() == 0 {
        None
    } else {
        match spec_first_consensus(v.drop_last(), total, threshold) {
            Some(k) => Some(k),
            None => if v.last().1 * 100 / total >= threshold { Some(v.len() - 1) } else { None },
        }
    }
}

proof fn lemma_score_total_prefix(v: Seq<(String, u32)>, j: int)
    requires
        0 <= j <= v.len(),
    ensures
        0 <= spec_score_total(v.subrange(0, j)) <= spec_score_total(v),
    decreases v.len() - j,
{
    if j < v.len() {
        lemma_score_total_prefix(v, j + 1);
        assert(v.subrange(0, j + 1).drop_last() =~= v.subrange(0, j));
    } else {
        assert(v.subrange(0, j) =~= v);
    }
    lemma_score_total_nonneg(v.subrange(0, j));
}

proof fn lemma_score_total_nonneg(v: Seq<(String, u32)>)
    ensures
        spec_score_total(v) >= 0,
    decreases v.len(),
{
    if v.len() > 0 {
        lemma_score_total_nonneg(v.drop_last());
    }
}

proof fn lemma_weight_le_sum(es: Seq<EvidenceMetadata>, k: int)
    requires
        0 <= k < es.len(),
    ensures
        spec_weight(es[k]) + spec_weight_sum(es.subrange(0, k)) <= spec_weight_sum(es),
    decreases es.len(),
{
    lemma_weight_sum_prefix(es, k);
    if k < es.len() - 1 {
        lemma_weight_le_sum(es.drop_last(), k);
        assert(es.drop_last().subrange(0, k) =~= es.subrange(0, k));
        lemma_weight_sum_nonneg(es.drop_last());
    } else {
        assert(es.subrange(0, k) =~= es.drop_last());
    }
}

proof fn lemma_scores_bounded(es: Seq<EvidenceMetadata>)
    ensures
        forall|k: int| 0 <= k < spec_scores(es).len() ==> 0 <= #[trigger] spec_scores(es)[k].1 <= spec_weight_sum(es),
    decreases es.len(),
{
    if es.len() > 0 {
        lemma_scores_bounded(es.drop_last());
        lemma_weight_sum_nonneg(es.drop_last());
        let prev = spec_scores(es.drop_last());
        let total_prev = spec_weight_sum(es.drop_last());
        assert forall|k: int| 0 <= k < prev.len() implies 0 <= #[trigger] prev[k].1 <= total_prev by {}
        let w = spec_weight(es.last());
        assert(w >= 0);
        match spec_outcome(es.last()) {
            Some(o) => {
                let r = spec_add_score(prev, o, w);
                lemma_score_pos(prev, o);
                let p = spec_score_pos(prev, o);
                assert forall|k: int| 0 <= k < r.len() implies 0 <= #[trigger] r[k].1 <= spec_weight_sum(es) by {
                    if p >= 0 {
                        if k == p {
                            assert(r[k].1 == prev[p].1 + w);
                        } else {
                            assert(r[k] == prev[k]);
                        }
                    } else {
                        if k < prev.len() {
                            assert(r[k] == prev[k]);
                        }
                    }
                }
            },
            None => {},
        }
    }
}

impl EvidenceAggregator {
    /// Sums the weight of the chain's records per outcome they argue for
    /// (texts naming YES or NO); outcomes appear in order of first mention.
    pub fn aggregate_evidence_scores(chain: &EvidenceChain, validator: &EvidenceValidator) -> (r: Vec<(String, u32)>)
        requires
            chain.wf(),
            spec_weight_sum(spec_chronological(chain.evidence_list@, chain.evidence_map@)) <= u32::MAX,
        ensures
            spec_score_view(r@) == spec_scores(spec_chronological(chain.evidence_list@, chain.evidence_map@)),
    {
        let es = chain.get_chronological_evidence();
        let ghost all = es@.map_values(|e: &EvidenceMetadata| *e);
        let mut scores: Vec<(String, u32)> = Vec::new();
        let mut i: usize = 0;
        while i < es.len()
            invariant
                i <= es@.len(),
                all == es@.map_values(|e: &EvidenceMetadata| *e),
                spec_weight_sum(all) <= u32::MAX,
                spec_score_view(scores@) == spec_scores(all.subrange(0, i as int)),
            decreases es@.len() - i,
        {
            let e = es[i];
            let ghost sub = all.subrange(0, i + 1);
            proof {
                assert(sub.drop_last() =~= all.subrange(0, i as int));
                assert(sub.last() == *e);
                lemma_scores_bounded(all.subrange(0, i as int));
                lemma_weight_le_sum(all, i as int);
            }
            let weight = validator.calculate_weight(e);
            let outcome: Option<&str> = match &e.format {
                EvidenceFormat::Text { content } => {
                    if str_contains(content.as_str(), "YES") {
                        Some("YES")
                    } else if str_contains(content.as_str(), "NO") {
                        Some("NO")
                    } else {
                        None
                    }
                },
                _ => None,
            };
            match outcome {
                Some(o) => {
                    let ghost prev = spec_score_view(scores@);
                    let mut k: usize = 0;
                    while k < scores.len()
                        invariant
                            k <= scores@.len(),
                            forall|q: int| 0 <= q < k ==> scores@[q].0@ != o@,
                        ensures
                            k <= scores@.len(),
                            forall|q: int| 0 <= q < k ==> scores@[q].0@ != o@,
                            k < scores@.len() ==> scores@[k as int].0@ == o@,
                        decreases scores@.len() - k,
                    {
                        if matches_literal(&scores[k].0, o) {
                            break;
                        }
                        k = k + 1;
                    }
                    proof {
                        lemma_score_pos(prev, o@);
                        let p = spec_score_pos(prev, o@);
                        if k < scores.len() {
                            assert(prev[k as int].0 == o@);
                            if p >= 0 && p != k as int {
                                if p < k as int {
                                    assert(prev[p].0 == scores@[p].0@);
                                } else {
                                    assert(prev[k as int].0 != o@);
                                }
                            }
                            assert(p == k as int);
                        } else {
                            if p >= 0 {
                                assert(prev[p].0 == scores@[p].0@);
                            }
                            assert(p == -1);
                        }
                    }
                    if k < scores.len() {
                        let (name, score) = scores.remove(k);
                        proof {
                            assert(prev[k as int].1 <= spec_weight_sum(all.subrange(0, i as int)));
                        }
                        scores.insert(k, (name, score + weight));
                    } else {
                        scores.push((String::from_str(o), weight));
                    }
                    assert(spec_score_view(scores@) =~= spec_scores(sub));
                },
                None => {},
            }
            i = i + 1;
        }
        assert(all.subrange(0, i as int) =~= all);
        scores
    }

    /// The first outcome, in table order, whose share of the total score
    /// reaches `threshold_percentage`; none when there is no score.
    pub fn determine_consensus(scores: &Vec<(String, u32)>, threshold_percentage: u32) -> (r: Option<String>)
        requires
            spec_score_total(scores@) <= u32::MAX,
            forall|k: int| 0 <= k < scores@.len() ==> #[trigger] scores@[k].1 * 100 <= u32::MAX,
        ensures
            spec_score_total(scores@) == 0 ==> r is None,
            spec_score_total(scores@) > 0 ==> match spec_first_consensus(scores@, spec_score_total(scores@), threshold_percentage) {
                Some(k) => r matches Some(s) && s@ == scores@[k].0@,
                None => r is None,
            },
    {
        let mut total: u32 = 0;
        let mut i: usize = 0;
        while i < scores.len()
            invariant
                i <= scores@.len(),
                spec_score_total(scores@) <= u32::MAX,
                total == spec_score_total(scores@.subrange(0, i as int)),
            decreases scores@.len() - i,
        {
            proof {
                assert(scores@.subrange(0, i + 1).drop_last() =~= scores@.subrange(0, i as int));
                lemma_score_total_prefix(scores@, i + 1);
            }
            total = total + scores[i].1;
            i = i + 1;
        }
        assert(scores@.subrange(0, i as int) =~= scores@);
        if total == 0 {
            return None;
        }
        let mut j: usize = 0;
        while j < scores.len()
            invariant
                j <= scores@.len(),
                total == spec_score_total(scores@),
                total > 0,
                forall|k: int| 0 <= k < scores@.len() ==> #[trigger] scores@[k].1 * 100 <= u32::MAX,
                spec_first_consensus(scores@.subrange(0, j as int), total as int, threshold_percentage) is None,
            decreases scores@.len() - j,
        {
            proof {
                assert(scores@.subrange(0, j + 1).drop_last() =~= scores@.subrange(0, j as int));
                assert(scores@[j as int].1 * 100 <= u32::MAX);
            }
            let percentage = (scores[j].1 * 100) / total;
            if percentage >= threshold_percentage {
                proof {
                    lemma_first_consensus_extends(scores@, j as int + 1, total as int, threshold_percentage);
                }
                return Some(scores[j].0.clone());
            }
            j = j + 1;
            proof {
                lemma_first_consensus_extends(scores@, j as int, total as int, threshold_percentage);
            }
        }
        assert(scores@.subrange(0, j as int) =~= scores@);
        None
    }
}

proof fn lemma_first_consensus_extends(v: Seq<(String, u32)>, j: int, total: int, threshold: u32)
    requires
        0 <= j <= v.len(),
    ensures
        spec_first_consensus(v.subrange(0, j), total, threshold) matches Some(k) ==> spec_first_consensus(v, total, threshold) == Some(k),
        spec_first_consensus(v.subrange(0, j), total, threshold) is None && j < v.len() && v[j].1 * 100 / total >= threshold
            ==> spec_first_consensus(v, total, threshold) == Some(j),
    decreases v.len() - j,
{
    if j < v.len() {
        let next = v.subrange(0, j + 1);
        assert(next.drop_last() =~= v.subrange(0, j));
        lemma_first_consensus_extends(v, j + 1, total, threshold);
    } else {
        assert(v.subrange(0, j) =~= v);
    }
}

} // verus!
