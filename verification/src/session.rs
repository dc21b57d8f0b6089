//! Key agreement: an ephemeral Diffie-Hellman exchange on P-256 that leaves
//! a session secret for the peer's identity, and the store of such secrets.

use vstd::prelude::*;
use crate::error::{HsmError, Malformed};

verus! {

/// The secret that a peer shares with the oracle. The identity is the
/// peer's public key as it was received.
#[derive(Clone, Debug)]
pub struct SessionKeyRecord {
    pub identity: Vec<u8>,
    pub shared_secret: Vec<u8>,
}

/// What a key agreement yields: the oracle's ephemeral public key, which
/// goes back to the peer; the record to store; and key material derived
/// from the secret, which is not stored.
#[derive(Clone, Debug)]
pub struct Handshake {
    pub public_key: Vec<u8>,
    pub record: SessionKeyRecord,
    pub derived_key: Vec<u8>,
}

/// Whether bytes are the SEC1 form of a point of P-256 that can serve as a public key.
pub uninterp spec fn p256_public_key(bytes: Seq<u8>) -> bool;

/// The 32 bytes that HKDF with SHA-256 and no salt expands from a secret and a context.
pub uninterp spec fn hkdf_sha256(secret: Seq<u8>, info: Seq<u8>) -> Seq<u8>;

/// `PublicKey::from_sec1_bytes` of `p256`, then `EphemeralSecret::random`
/// on the operating system's generator, `public_key` and `diffie_hellman`
/// of `p256::ecdh`. There is an outcome exactly where the peer's key can be
/// read. The ephemeral secret is random, so of the outcome only the shape is
/// known: the public key is an uncompressed point, 65 bytes that begin with
/// 4, and the shared secret is one coordinate, 32 bytes.
#[verifier::external_body]
fn ephemeral_exchange(peer: &[u8]) -> (out: Option<(Vec<u8>, Vec<u8>)>)
    ensures
        out is Some == p256_public_key(peer@),
        out matches Some((public, shared)) ==> public@.len() == 65 && public@[0] == 4
            && shared@.len() == 32,
{
    let peer = p256::PublicKey::from_sec1_bytes(peer).ok()?;
    let secret = p256::ecdh::EphemeralSecret::random(&mut rand_core::OsRng);
    let public = p256::EncodedPoint::from(secret.public_key()).to_bytes().to_vec();
    let shared = secret.diffie_hellman(&peer).raw_secret_bytes().to_vec();
    Some((public, shared))
}

/// `Hkdf::new` and `Hkdf::expand` of `hkdf` with SHA-256, no salt and 32
/// bytes of output, a length that the expansion never refuses.
#[verifier::external_body]
fn hkdf_expand(secret: &[u8], info: &[u8]) -> (out: Vec<u8>)
    ensures
        out@ == hkdf_sha256(secret@, info@),
        out@.len() == 32,
{
    let mut okm = vec![0u8; 32];
    let _ = hkdf::Hkdf::<sha2::Sha256>::new(None, secret).expand(info, &mut okm);
    okm
}

/// Makes of a shared secret what a session needs: the record that maps the
/// peer's key to the secret as it is, and key material derived from the
/// secret with the peer's key as context.
pub fn generate_sk(pk_bytes: &[u8], shared: Vec<u8>) -> (out: (SessionKeyRecord, Vec<u8>))
    ensures
        out.0.identity@ == pk_bytes@,
        out.0.shared_secret@ == shared@,
        out.1@ == hkdf_sha256(shared@, pk_bytes@),
        out.1@.len() == 32,
{
    let derived = hkdf_expand(shared.as_slice(), pk_bytes);
    let identity = vstd::slice::slice_to_vec(pk_bytes);
    (SessionKeyRecord { identity, shared_secret: shared }, derived)
}

/// Agrees on a session secret with a peer: makes a fresh key pair, combines
/// it with the peer's public key and hands back the public half together
/// with the record to store. A peer key that cannot be read is refused.
pub fn hsm_generate_pk(origin_pk: &[u8]) -> (out: Result<Handshake, HsmError>)
    ensures
        match out {
            Ok(handshake) => {
                &&& p256_public_key(origin_pk@)
                &&& handshake.public_key@.len() == 65
                &&& handshake.public_key@[0] == 4
                &&& handshake.record.identity@ == origin_pk@
                &&& handshake.record.shared_secret@.len() == 32
                &&& handshake.derived_key@ == hkdf_sha256(
                    handshake.record.shared_secret@,
                    origin_pk@,
                )
            },
            Err(e) => !p256_public_key(origin_pk@) && e == HsmError::Decode(Malformed::PeerKey),
        },
{
    match ephemeral_exchange(origin_pk) {
        Some((public_key, shared)) => {
            let (record, derived_key) = generate_sk(origin_pk, shared);
            Ok(Handshake { public_key, record, derived_key })
        },
        None => Err(HsmError::Decode(Malformed::PeerKey)),
    }
}


/// The map that a sequence of records stands for; a later record for an
/// identity takes the place of an earlier one.
pub open spec fn records_map(records: Seq<SessionKeyRecord>) -> Map<Seq<u8>, Seq<u8>>
    decreases records.len(),
{
    if records.len() == 0 {
        Map::empty()
    } else {
        records_map(records.drop_last()).insert(
            records.last().identity@,
            records.last().shared_secret@,
        )
    }
}

/// No two records are for the same identity.
pub open spec fn distinct_identities(records: Seq<SessionKeyRecord>) -> bool {
    forall|i: int, j: int|
        0 <= i < j < records.len() ==> (#[trigger] records[i]).identity@ != (
        #[trigger] records[j]).identity@
}

/// An identity that no record names is not in the map.
proof fn lemma_absent(records: Seq<SessionKeyRecord>, identity: Seq<u8>)
    requires
        forall|i: int| 0 <= i < records.len() ==> (#[trigger] records[i]).identity@ != identity,
    ensures
        !records_map(records).contains_key(identity),
    decreases records.len(),
{
    if records.len() > 0 {
        assert(records.last() == records[records.len() - 1]);
        assert forall|i: int| 0 <= i < records.drop_last().len() implies (
        #[trigger] records.drop_last()[i]).identity@ != identity by {
            assert(records.drop_last()[i] == records[i]);
        }
        lemma_absent(records.drop_last(), identity);
    }
}

/// Where identities are distinct, the map gives each record's identity that record's secret.
proof fn lemma_present(records: Seq<SessionKeyRecord>, k: int)
    requires
        distinct_identities(records),
        0 <= k < records.len(),
    ensures
        records_map(records).contains_key(records[k].identity@),
        records_map(records)[records[k].identity@] == records[k].shared_secret@,
    decreases records.len(),
{
    let front = records.drop_last();
    if k < records.len() - 1 {
        assert forall|i: int, j: int| 0 <= i < j < front.len() implies (
        #[trigger] front[i]).identity@ != (#[trigger] front[j]).identity@ by {
            assert(front[i] == records[i] && front[j] == records[j]);
        }
        lemma_present(front, k);
        assert(front[k] == records[k]);
        assert(records[k].identity@ != records[records.len() - 1].identity@);
    }
}

/// Where identities are distinct, putting a new secret in the place of a
/// record's secret is an insertion into the map.
proof fn lemma_replace(records: Seq<SessionKeyRecord>, k: int, record: SessionKeyRecord)
    requires
        distinct_identities(records),
        0 <= k < records.len(),
        records[k].identity@ == record.identity@,
    ensures
        distinct_identities(records.update(k, record)),
        records_map(records.update(k, record)) == records_map(records).insert(
            record.identity@,
            record.shared_secret@,
        ),
    decreases records.len(),
{
    let changed = records.update(k, record);
    assert forall|i: int, j: int| 0 <= i < j < changed.len() implies (
    #[trigger] changed[i]).identity@ != (#[trigger] changed[j]).identity@ by {
        assert(changed[i].identity@ == records[i].identity@);
        assert(changed[j].identity@ == records[j].identity@);
    }
    let front = records.drop_last();
    let last = records.last();
    if k == records.len() - 1 {
        assert(changed.drop_last() =~= front);
        assert(records_map(changed) =~= records_map(records).insert(
            record.identity@,
            record.shared_secret@,
        ));
    } else {
        assert forall|i: int, j: int| 0 <= i < j < front.len() implies (
        #[trigger] front[i]).identity@ != (#[trigger] front[j]).identity@ by {
            assert(front[i] == records[i] && front[j] == records[j]);
        }
        assert(front[k] == records[k]);
        lemma_replace(front, k, record);
        assert(changed.drop_last() =~= front.update(k, record));
        assert(changed.last() == last);
        assert(records[k].identity@ != records[records.len() - 1].identity@);
        assert(records_map(changed) =~= records_map(records).insert(
            record.identity@,
            record.shared_secret@,
        ));
    }
}

/// Whether two byte strings are the same.
pub fn bytes_equal(left: &[u8], right: &[u8]) -> (out: bool)
    ensures
        out == (left@ == right@),
{
    if left.len() != right.len() {
        return false;
    }
    let mut i: usize = 0;
    while i < left.len()
        invariant
            left@.len() == right@.len(),
            i <= left@.len(),
            forall|j: int| 0 <= j < i ==> left@[j] == right@[j],
        decreases left@.len() - i,
    {
        if left[i] != right[i] {
            return false;
        }
        i += 1;
    }
    assert(left@ =~= right@);
    true
}

/// Session secrets by identity, one for each identity and no history.
pub struct SessionStore {
    records: Vec<SessionKeyRecord>,
}

impl View for SessionStore {
    type V = Map<Seq<u8>, Seq<u8>>;

    closed spec fn view(&self) -> Map<Seq<u8>, Seq<u8>> {
        records_map(self.records@)
    }
}

impl SessionStore {
    /// The store holds at most one record for an identity.
    pub closed spec fn wf(&self) -> bool {
        distinct_identities(self.records@)
    }

    /// A store without secrets.
    pub fn new() -> (out: SessionStore)
        ensures
            out.wf(),
            out@ == Map::<Seq<u8>, Seq<u8>>::empty(),
    {
        SessionStore { records: Vec::new() }
    }

    /// Where the record of an identity stands, if there is one.
    fn position(&self, identity: &[u8]) -> (out: Option<usize>)
        ensures
            match out {
                Some(k) => k < self.records@.len() && self.records@[k as int].identity@
                    == identity@,
                None => forall|i: int|
                    0 <= i < self.records@.len() ==> (#[trigger] self.records@[i]).identity@
                        != identity@,
            },
    {
        let mut i: usize = 0;
        while i < self.records.len()
            invariant
                i <= self.records@.len(),
                forall|j: int| 0 <= j < i ==> (#[trigger] self.records@[j]).identity@ != identity@,
            decreases self.records@.len() - i,
        {
            if bytes_equal(self.records[i].identity.as_slice(), identity) {
                return Some(i);
            }
            i += 1;
        }
        None
    }

    /// The secret stored for an identity, if there is one.
    pub fn get(&self, identity: &[u8]) -> (out: Option<Vec<u8>>)
        requires
            self.wf(),
        ensures
            match out {
                Some(secret) => self@.contains_key(identity@) && secret@ == self@[identity@],
                None => !self@.contains_key(identity@),
            },
    {
        match self.position(identity) {
            Some(k) => {
                proof {
                    lemma_present(self.records@, k as int);
                }
                Some(vstd::slice::slice_to_vec(self.records[k].shared_secret.as_slice()))
            },
            None => {
                proof {
                    lemma_absent(self.records@, identity@);
                }
                None
            },
        }
    }

    /// Stores a secret for an identity. A secret that was stored for the
    /// same identity is gone; the secrets of other identities stay.
    pub fn set(&mut self, record: SessionKeyRecord)
        requires
            old(self).wf(),
        ensures
            final(self).wf(),
            final(self)@ == old(self)@.insert(record.identity@, record.shared_secret@),
    {
        match self.position(record.identity.as_slice()) {
            Some(k) => {
                proof {
                    lemma_replace(self.records@, k as int, record);
                }
                self.records[k] = record;
            },
            None => {
                proof {
                    assert(self.records@.push(record).drop_last() =~= self.records@);
                }
                self.records.push(record);
            },
        }
    }
}

/// A later key agreement for an identity overwrites the secret of an
/// earlier one: after both, the store answers with the later secret, and it
/// is the store that the later agreement alone would have left.
pub proof fn lemma_later_secret_wins(
    store: Map<Seq<u8>, Seq<u8>>,
    identity: Seq<u8>,
    earlier: Seq<u8>,
    later: Seq<u8>,
)
    ensures
        store.insert(identity, earlier).insert(identity, later)[identity] == later,
        store.insert(identity, earlier).insert(identity, later) == store.insert(identity, later),
{
    assert(store.insert(identity, earlier).insert(identity, later) =~= store.insert(
        identity,
        later,
    ));
}

} // verus!
