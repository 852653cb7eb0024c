//! Blobs: their bytes, their versioned hashes, and what vouches for them.
use vstd::prelude::*;
use vstd::utf8::is_ascii_chars;
use crate::error::{ErrorKind, Failure, PreflightError};
use crate::outside::{hex_decode, lowercase, to_lowercase};
use crate::text::{
    ascii_lower, ascii_lowered, has_no_capitals, hex_decoded, hex_encoded, hex_value,
    is_digit_pairs, lemma_pairs_give_back_their_bytes, lemma_without_0x, trim_0x, without_0x,
};
use crate::types::{same_hash, BlobProofType, TxData, B256};

verus! {

/// The bytes that a text in small letters spells in hexadecimal digits, after any number of `0x`.
pub open spec fn digits_decoded(lower: Seq<char>) -> Option<Seq<u8>> {
    hex_decoded(without_0x(lower))
}

/// The bytes that the text of a blob spells, in digits of either case.
pub open spec fn blob_decoded(blob: Seq<char>) -> Option<Seq<u8>> {
    digits_decoded(lowercase(blob))
}

/// The text of a blob spells these bytes, also where it is ASCII and read as such.
pub open spec fn text_decoded(blob: Seq<char>, bytes: Seq<u8>) -> bool {
    &&& blob_decoded(blob) == Some(bytes)
    &&& is_ascii_chars(blob) ==> digits_decoded(ascii_lowered(blob)) == Some(bytes)
}

/// The bytes, or none at all.
pub open spec fn or_empty(bytes: Option<Seq<u8>>) -> Seq<u8> {
    match bytes {
        Some(b) => b,
        None => Seq::empty(),
    }
}

/// Reads the digits of a text that is in small letters already.
pub fn decode_digits(lower: &str) -> (r: Option<Vec<u8>>)
    ensures
        match r {
            Some(bytes) => digits_decoded(lower@) == Some(bytes@),
            None => digits_decoded(lower@) is None,
        },
{
    match hex_decode(trim_0x(lower)) {
        Ok(bytes) => Some(bytes),
        Err(_) => None,
    }
}

/// Reads the digits of a blob.
pub fn decode_blob(blob_str: &str) -> (r: Option<Vec<u8>>)
    ensures
        match r {
            Some(bytes) => blob_decoded(blob_str@) == Some(bytes@),
            None => blob_decoded(blob_str@) is None,
        },
        r is Some <==> is_digit_pairs(without_0x(lowercase(blob_str@))),
        is_ascii_chars(blob_str@) ==> match r {
            Some(bytes) => digits_decoded(ascii_lowered(blob_str@)) == Some(bytes@),
            None => digits_decoded(ascii_lowered(blob_str@)) is None,
        },
{
    let lower: String = to_lowercase(blob_str);
    proof {
        law_only_pairs_of_digits_have_bytes(lower@);
    }
    decode_digits(lower.as_str())
}

/// The bytes of a blob; none where its text is not hexadecimal.
pub fn blob_to_bytes(blob_str: &str) -> (r: Vec<u8>)
    ensures
        r@ == or_empty(blob_decoded(blob_str@)),
        !is_digit_pairs(without_0x(lowercase(blob_str@))) ==> r@.len() == 0,
        is_ascii_chars(blob_str@) ==> r@ == or_empty(digits_decoded(ascii_lowered(blob_str@))),
{
    match decode_blob(blob_str) {
        Some(bytes) => bytes,
        None => {
            let none: Vec<u8> = Vec::new();
            assert(none@ =~= Seq::empty());
            none
        },
    }
}

/// Why a blob has no commitment.
#[derive(Clone, Copy, Debug, PartialEq, Eq, Structural)]
pub enum CommitFault {
    /// Its bytes are no blob.
    NotCreated,
    /// Its words are no field elements.
    NotDeserialized,
    /// The commitment could not be computed.
    NotCommitted,
}

impl CommitFault {
    /// The failure that it is.
    pub open spec fn error_of(self) -> PreflightError {
        match self {
            CommitFault::NotCreated => PreflightError::BlobNotCreated,
            CommitFault::NotDeserialized => PreflightError::BlobNotDeserialized,
            CommitFault::NotCommitted => PreflightError::BlobNotCommitted,
        }
    }

    /// The failure that it is.
    pub fn error(self) -> (r: PreflightError)
        ensures
            r == self.error_of(),
    {
        match self {
            CommitFault::NotCreated => PreflightError::BlobNotCreated,
            CommitFault::NotDeserialized => PreflightError::BlobNotDeserialized,
            CommitFault::NotCommitted => PreflightError::BlobNotCommitted,
        }
    }
}

/// The computations on blobs and commitments that the caller brings.
pub struct Kzg<C, V, K, Q, P> {
    /// The commitment that a blob is recognised by.
    pub blob_commitment: C,
    /// The versioned hash of a commitment.
    pub version_hash: V,
    /// The commitment that goes along with a blob.
    pub commitment: K,
    /// The point and the value at which a blob of a given hash is to be opened.
    pub equivalence: Q,
    /// The proof for an opening at a point.
    pub prove: P,
}

impl<C, V, K, Q, P> Kzg<C, V, K, Q, P> where
    C: Fn(&Vec<u8>) -> Result<Vec<u8>, CommitFault>,
    V: Fn(&Vec<u8>) -> B256,
 {
    /// Blobs can be hashed: both computations take any argument.
    pub open spec fn can_hash(self) -> bool {
        &&& forall|blob: Vec<u8>| call_requires(self.blob_commitment, (&blob,))
        &&& forall|commitment: Vec<u8>| call_requires(self.version_hash, (&commitment,))
    }

    /// `r` can be the versioned hash of a blob with this text: that of its bytes.
    pub open spec fn hashed(self, text: Seq<char>, r: Result<B256, PreflightError>) -> bool {
        self.hashed_bytes(blob_decoded(text), r)
    }

    /// `r` can be the versioned hash of these bytes: the hash of their commitment. A text that
    /// spells no bytes has none.
    pub open spec fn hashed_bytes(
        self,
        decoded: Option<Seq<u8>>,
        r: Result<B256, PreflightError>,
    ) -> bool {
        match decoded {
            None => r == Err::<B256, _>(PreflightError::BlobNotDecoded),
            Some(bytes) => exists|blob: Vec<u8>, c: Result<Vec<u8>, CommitFault>|
                blob@ == bytes && #[trigger] call_ensures(self.blob_commitment, (&blob,), c)
                    && match c {
                    Err(fault) => r == Err::<B256, _>(fault.error_of()),
                    Ok(commitment) => r is Ok && call_ensures(
                        self.version_hash,
                        (&commitment,),
                        r->Ok_0,
                    ),
                },
        }
    }

    /// `r` can be the versioned hash of a blob with this text, also where the text is ASCII and read
    /// as such.
    pub open spec fn text_hashed(self, text: Seq<char>, r: Result<B256, PreflightError>) -> bool {
        &&& self.hashed(text, r)
        &&& is_ascii_chars(text) ==> self.hashed_bytes(digits_decoded(ascii_lowered(text)), r)
    }

    /// `r` can be the outcome of looking for the blob of hash `wanted`, where `hashes` are the
    /// hashes of the blobs that were looked at: they are looked at in order, the first match ends
    /// the search, and so does the first blob without a hash.
    pub open spec fn searched(
        self,
        blobs: Seq<String>,
        wanted: B256,
        hashes: Seq<Result<B256, PreflightError>>,
        r: Result<Vec<u8>, PreflightError>,
    ) -> bool {
        &&& hashes.len() <= blobs.len()
        &&& forall|i: int|
            0 <= i < hashes.len() ==> self.text_hashed(blobs[i]@, #[trigger] hashes[i])
        &&& forall|i: int|
            0 <= i < hashes.len() - 1 ==> (#[trigger] hashes[i]) is Ok && hashes[i]->Ok_0 != wanted
        &&& match r {
            Ok(blob) => {
                &&& hashes.len() > 0
                &&& hashes.last() == Ok::<_, PreflightError>(wanted)
                &&& text_decoded(blobs[hashes.len() - 1]@, blob@)
            },
            Err(e) => {
                ||| hashes.len() > 0 && hashes.last() == Err::<B256, _>(e)
                ||| hashes.len() == blobs.len() && e == PreflightError::BlobNotFound && (
                hashes.len() > 0 ==> hashes.last() is Ok && hashes.last()->Ok_0 != wanted)
            },
        }
    }

    /// `r` can be the outcome of looking for the blob of hash `wanted`.
    pub open spec fn found(
        self,
        blobs: Seq<String>,
        wanted: B256,
        r: Result<Vec<u8>, PreflightError>,
    ) -> bool {
        exists|hashes: Seq<Result<B256, PreflightError>>|
            self.searched(blobs, wanted, hashes, r)
    }

    /// Hashing is a function of bytes: the same bytes have the same commitment, and the same
    /// commitment has the same hash.
    pub open spec fn hashing_is_a_function(self) -> bool {
        &&& forall|
            a: Vec<u8>,
            b: Vec<u8>,
            x: Result<Vec<u8>, CommitFault>,
            y: Result<Vec<u8>, CommitFault>,
        |
            a@ == b@ && #[trigger] call_ensures(self.blob_commitment, (&a,), x)
                && #[trigger] call_ensures(self.blob_commitment, (&b,), y) ==> same_outcome(x, y)
        &&& forall|a: Vec<u8>, b: Vec<u8>, x: B256, y: B256|
            a@ == b@ && #[trigger] call_ensures(self.version_hash, (&a,), x)
                && #[trigger] call_ensures(self.version_hash, (&b,), y) ==> x == y
    }
}

/// Both are the same bytes, or both the same failure.
pub open spec fn same_outcome<E>(a: Result<Vec<u8>, E>, b: Result<Vec<u8>, E>) -> bool {
    match (a, b) {
        (Ok(x), Ok(y)) => x@ == y@,
        (Err(x), Err(y)) => x == y,
        _ => false,
    }
}

/// Both are the same bytes, or neither is any.
pub open spec fn same_bytes(a: Option<Vec<u8>>, b: Option<Vec<u8>>) -> bool {
    match (a, b) {
        (Some(x), Some(y)) => x@ == y@,
        (None, None) => true,
        _ => false,
    }
}

/// Both hold the same bytes.
pub open spec fn same_data(a: TxData, b: TxData) -> bool {
    &&& a.data@ == b.data@
    &&& same_bytes(a.commitment, b.commitment)
    &&& same_bytes(a.blob_proof, b.blob_proof)
}

/// Both are the same data, or both the same failure.
pub open spec fn same_data_outcome<E>(a: Result<TxData, E>, b: Result<TxData, E>) -> bool {
    match (a, b) {
        (Ok(x), Ok(y)) => same_data(x, y),
        (Err(x), Err(y)) => x == y,
        _ => false,
    }
}

/// Both lists are of the same texts.
pub open spec fn same_texts(a: Seq<String>, b: Seq<String>) -> bool {
    &&& a.len() == b.len()
    &&& forall|i: int| 0 <= i < a.len() ==> (#[trigger] a[i])@ == b[i]@
}

/// The versioned hash of a blob.
pub fn calc_blob_versioned_hash<C, V, K, Q, P>(blob_str: &str, kzg: &Kzg<C, V, K, Q, P>) -> (r: Result<
    B256,
    PreflightError,
>) where
    C: Fn(&Vec<u8>) -> Result<Vec<u8>, CommitFault>,
    V: Fn(&Vec<u8>) -> B256,

    requires
        kzg.can_hash(),
    ensures
        kzg.text_hashed(blob_str@, r),
{
    match decode_blob(blob_str) {
        None => Err(PreflightError::BlobNotDecoded),
        Some(blob) => match (kzg.blob_commitment)(&blob) {
            Err(fault) => Err(fault.error()),
            Ok(commitment) => Ok((kzg.version_hash)(&commitment)),
        },
    }
}

/// The bytes of the first blob whose versioned hash is `blob_hash`.
pub fn filter_blob_data_beacon<C, V, K, Q, P>(
    blobs: &Vec<String>,
    blob_hash: &B256,
    kzg: &Kzg<C, V, K, Q, P>,
) -> (r: Result<Vec<u8>, PreflightError>) where
    C: Fn(&Vec<u8>) -> Result<Vec<u8>, CommitFault>,
    V: Fn(&Vec<u8>) -> B256,

    requires
        kzg.can_hash(),
    ensures
        kzg.found(blobs@, *blob_hash, r),
{
    let ghost mut hashes: Seq<Result<B256, PreflightError>> = Seq::empty();
    let mut i: usize = 0;
    while i < blobs.len()
        invariant
            kzg.can_hash(),
            i <= blobs@.len(),
            hashes.len() == i,
            forall|j: int| 0 <= j < i ==> kzg.text_hashed(blobs@[j]@, #[trigger] hashes[j]),
            forall|j: int|
                0 <= j < i ==> (#[trigger] hashes[j]) is Ok && hashes[j]->Ok_0 != *blob_hash,
        decreases blobs@.len() - i,
    {
        let hash: Result<B256, PreflightError> = calc_blob_versioned_hash(
            blobs[i].as_str(),
            kzg,
        );
        proof {
            hashes = hashes.push(hash);
        }
        match hash {
            Err(e) => {
                let r: Result<Vec<u8>, PreflightError> = Err(e);
                assert(kzg.searched(blobs@, *blob_hash, hashes, r));
                return r;
            },
            Ok(found) => {
                if same_hash(&found, blob_hash) {
                    let r: Result<Vec<u8>, PreflightError> = Ok(
                        blob_to_bytes(blobs[i].as_str()),
                    );
                    assert(kzg.searched(blobs@, *blob_hash, hashes, r));
                    return r;
                }
            },
        }
        i += 1;
    }
    let r: Result<Vec<u8>, PreflightError> = Err(PreflightError::BlobNotFound);
    assert(kzg.searched(blobs@, *blob_hash, hashes, r));
    r
}

impl<E, C, V, K, Q, P> Kzg<C, V, K, Q, P> where
    V: Fn(&Vec<u8>) -> B256,
    K: Fn(&Vec<u8>) -> Result<Vec<u8>, E>,
    Q: Fn(&Vec<u8>, &B256) -> Result<(B256, B256), E>,
    P: Fn(&Vec<u8>, &B256) -> Result<Vec<u8>, E>,
 {
    /// Blobs can be vouched for: the computations take any argument.
    pub open spec fn can_prove(self) -> bool {
        &&& forall|commitment: Vec<u8>| call_requires(self.version_hash, (&commitment,))
        &&& forall|blob: Vec<u8>| call_requires(self.commitment, (&blob,))
        &&& forall|blob: Vec<u8>, hash: B256| call_requires(self.equivalence, (&blob, &hash))
        &&& forall|blob: Vec<u8>, x: B256| call_requires(self.prove, (&blob, &x))
    }

    /// `r` can be the proof that goes along with a blob of this commitment: none where the
    /// versioned hash is enough, else a proof for the opening at the point that the blob and the
    /// versioned hash of its commitment give.
    pub open spec fn opened(
        self,
        blob: Vec<u8>,
        commitment: Vec<u8>,
        proof_type: BlobProofType,
        r: Result<Option<Vec<u8>>, E>,
    ) -> bool {
        match proof_type {
            BlobProofType::KzgVersionedHash => r == Ok::<Option<Vec<u8>>, E>(None),
            BlobProofType::ProofOfEquivalence => exists|
                hash: B256,
                point: Result<(B256, B256), E>,
            |
                call_ensures(self.version_hash, (&commitment,), hash) && #[trigger] call_ensures(
                    self.equivalence,
                    (&blob, &hash),
                    point,
                ) && match point {
                    Err(e) => r == Err::<Option<Vec<u8>>, E>(e),
                    Ok((x, _)) => exists|made: Result<Vec<u8>, E>|
                        call_ensures(self.prove, (&blob, &x), made) && match made {
                            Err(e) => r == Err::<Option<Vec<u8>>, E>(e),
                            Ok(p) => r == Ok::<_, E>(Some(p)),
                        },
                },
        }
    }

    /// Vouching is a function of bytes: the same bytes have the same commitment, the same hash of
    /// it, the same point to be opened at, and the same proof.
    pub open spec fn vouching_is_a_function(self) -> bool {
        &&& forall|a: Vec<u8>, b: Vec<u8>, x: B256, y: B256|
            a@ == b@ && #[trigger] call_ensures(self.version_hash, (&a,), x)
                && #[trigger] call_ensures(self.version_hash, (&b,), y) ==> x == y
        &&& forall|a: Vec<u8>, b: Vec<u8>, x: Result<Vec<u8>, E>, y: Result<Vec<u8>, E>|
            a@ == b@ && #[trigger] call_ensures(self.commitment, (&a,), x)
                && #[trigger] call_ensures(self.commitment, (&b,), y) ==> same_outcome(x, y)
        &&& forall|
            a: Vec<u8>,
            b: Vec<u8>,
            hash: B256,
            x: Result<(B256, B256), E>,
            y: Result<(B256, B256), E>,
        |
            a@ == b@ && #[trigger] call_ensures(self.equivalence, (&a, &hash), x)
                && #[trigger] call_ensures(self.equivalence, (&b, &hash), y) ==> x == y
        &&& forall|
            a: Vec<u8>,
            b: Vec<u8>,
            at: B256,
            x: Result<Vec<u8>, E>,
            y: Result<Vec<u8>, E>,
        |
            a@ == b@ && #[trigger] call_ensures(self.prove, (&a, &at), x)
                && #[trigger] call_ensures(self.prove, (&b, &at), y) ==> same_outcome(x, y)
    }

    /// `r` can be a blob together with what vouches for it.
    pub open spec fn vouched(
        self,
        blob: Vec<u8>,
        proof_type: BlobProofType,
        r: Result<TxData, E>,
    ) -> bool {
        exists|c: Result<Vec<u8>, E>| #[trigger]
            call_ensures(self.commitment, (&blob,), c) && match c {
                Err(e) => r == Err::<TxData, E>(e),
                Ok(commitment) => exists|p: Result<Option<Vec<u8>>, E>| #[trigger]
                    self.opened(blob, commitment, proof_type, p) && match p {
                        Err(e) => r == Err::<TxData, E>(e),
                        Ok(blob_proof) => r == Ok::<_, E>(
                            TxData { data: blob, commitment: Some(commitment), blob_proof },
                        ),
                    },
            }
    }
}

/// The proof that goes along with a blob of the given commitment.
fn open_blob<E, C, V, K, Q, P>(
    blob: &Vec<u8>,
    commitment: &Vec<u8>,
    blob_proof_type: BlobProofType,
    kzg: &Kzg<C, V, K, Q, P>,
) -> (r: Result<Option<Vec<u8>>, E>) where
    V: Fn(&Vec<u8>) -> B256,
    K: Fn(&Vec<u8>) -> Result<Vec<u8>, E>,
    Q: Fn(&Vec<u8>, &B256) -> Result<(B256, B256), E>,
    P: Fn(&Vec<u8>, &B256) -> Result<Vec<u8>, E>,

    requires
        kzg.can_prove(),
    ensures
        kzg.opened(*blob, *commitment, blob_proof_type, r),
{
    match blob_proof_type {
        BlobProofType::KzgVersionedHash => Ok(None),
        BlobProofType::ProofOfEquivalence => {
            let hash: B256 = (kzg.version_hash)(commitment);
            match (kzg.equivalence)(blob, &hash) {
                Err(e) => Err(e),
                Ok((x, _)) => match (kzg.prove)(blob, &x) {
                    Err(e) => Err(e),
                    Ok(p) => Ok(Some(p)),
                },
            }
        },
    }
}

/// A blob together with its commitment and, where it is asked for, the proof of an opening.
pub fn blob_with_proof<E, C, V, K, Q, P>(
    blob: Vec<u8>,
    blob_proof_type: BlobProofType,
    kzg: &Kzg<C, V, K, Q, P>,
) -> (r: Result<TxData, E>) where
    V: Fn(&Vec<u8>) -> B256,
    K: Fn(&Vec<u8>) -> Result<Vec<u8>, E>,
    Q: Fn(&Vec<u8>, &B256) -> Result<(B256, B256), E>,
    P: Fn(&Vec<u8>, &B256) -> Result<Vec<u8>, E>,

    requires
        kzg.can_prove(),
    ensures
        kzg.vouched(blob, blob_proof_type, r),
{
    match (kzg.commitment)(&blob) {
        Err(e) => Err(e),
        Ok(commitment) => match open_blob(&blob, &commitment, blob_proof_type, kzg) {
            Err(e) => Err(e),
            Ok(blob_proof) => Ok(TxData { data: blob, commitment: Some(commitment), blob_proof }),
        },
    }
}

impl<E, C, V, K, Q, P> Kzg<C, V, K, Q, P> where
    C: Fn(&Vec<u8>) -> Result<Vec<u8>, CommitFault>,
    V: Fn(&Vec<u8>) -> B256,
    K: Fn(&Vec<u8>) -> Result<Vec<u8>, E>,
    Q: Fn(&Vec<u8>, &B256) -> Result<(B256, B256), E>,
    P: Fn(&Vec<u8>, &B256) -> Result<Vec<u8>, E>,
 {
    /// `r` can be the blob of hash `wanted`, found among `blobs`, with what vouches for it.
    pub open spec fn found_with_proof(
        self,
        blobs: Seq<String>,
        wanted: B256,
        proof_type: BlobProofType,
        r: Result<TxData, Failure<E>>,
    ) -> bool {
        exists|hashes: Seq<Result<B256, PreflightError>>, found: Result<Vec<u8>, PreflightError>|
         #[trigger]
            self.searched(blobs, wanted, hashes, found) && match found {
                Err(e) => r == Err::<TxData, _>(Failure::<E>::Preflight(e)),
                Ok(blob) => exists|v: Result<TxData, E>| #[trigger]
                    self.vouched(blob, proof_type, v) && match v {
                        Err(e) => r == Err::<TxData, _>(Failure::Outside(e)),
                        Ok(data) => r == Ok::<_, Failure<E>>(data),
                    },
            }
    }

    /// `r` can be the blobs of the hashes `wanted`, in their order, each with what vouches for it,
    /// or the failure of the first that cannot be had.
    pub open spec fn all_found(
        self,
        wanted: Seq<B256>,
        blobs: Seq<String>,
        proof_type: BlobProofType,
        r: Result<Vec<TxData>, Failure<E>>,
    ) -> bool {
        match r {
            Ok(all) => all@.len() == wanted.len() && self.found_so_far(
                wanted,
                blobs,
                proof_type,
                all@,
            ),
            Err(e) => exists|done: Seq<TxData>|
                {
                    &&& done.len() < wanted.len()
                    &&& #[trigger] self.found_so_far(wanted, blobs, proof_type, done)
                    &&& self.found_with_proof(
                        blobs,
                        wanted[done.len() as int],
                        proof_type,
                        Err(e),
                    )
                },
        }
    }

    /// `done` can be the blobs of the first of the hashes.
    pub open spec fn found_so_far(
        self,
        wanted: Seq<B256>,
        blobs: Seq<String>,
        proof_type: BlobProofType,
        done: Seq<TxData>,
    ) -> bool {
        forall|i: int|
            0 <= i < done.len() ==> self.found_with_proof(
                blobs,
                wanted[i],
                proof_type,
                Ok(#[trigger] done[i]),
            )
    }
}

/// The blob of the given hash, found among the texts of `blobs`, with what vouches for it.
pub fn filter_tx_blob_beacon_with_proof<E, C, V, K, Q, P>(
    blob_hash: &B256,
    blobs: &Vec<String>,
    blob_proof_type: BlobProofType,
    kzg: &Kzg<C, V, K, Q, P>,
) -> (r: Result<TxData, Failure<E>>) where
    C: Fn(&Vec<u8>) -> Result<Vec<u8>, CommitFault>,
    V: Fn(&Vec<u8>) -> B256,
    K: Fn(&Vec<u8>) -> Result<Vec<u8>, E>,
    Q: Fn(&Vec<u8>, &B256) -> Result<(B256, B256), E>,
    P: Fn(&Vec<u8>, &B256) -> Result<Vec<u8>, E>,

    requires
        kzg.can_hash(),
        kzg.can_prove(),
    ensures
        kzg.found_with_proof(blobs@, *blob_hash, blob_proof_type, r),
{
    let found: Result<Vec<u8>, PreflightError> = filter_blob_data_beacon(blobs, blob_hash, kzg);
    match found {
        Err(e) => Err(Failure::Preflight(e)),
        Ok(blob) => match blob_with_proof(blob, blob_proof_type, kzg) {
            Err(e) => Err(Failure::Outside(e)),
            Ok(data) => Ok(data),
        },
    }
}

/// The blobs of the given hashes, in their order, each with what vouches for it. The first one
/// that cannot be had ends the work.
pub fn get_batch_tx_data_with_proofs<E, C, V, K, Q, P>(
    blob_hashes: &Vec<B256>,
    blobs: &Vec<String>,
    blob_proof_type: BlobProofType,
    kzg: &Kzg<C, V, K, Q, P>,
) -> (r: Result<Vec<TxData>, Failure<E>>) where
    C: Fn(&Vec<u8>) -> Result<Vec<u8>, CommitFault>,
    V: Fn(&Vec<u8>) -> B256,
    K: Fn(&Vec<u8>) -> Result<Vec<u8>, E>,
    Q: Fn(&Vec<u8>, &B256) -> Result<(B256, B256), E>,
    P: Fn(&Vec<u8>, &B256) -> Result<Vec<u8>, E>,

    requires
        kzg.can_hash(),
        kzg.can_prove(),
    ensures
        kzg.all_found(blob_hashes@, blobs@, blob_proof_type, r),
{
    let mut all: Vec<TxData> = Vec::new();
    let mut i: usize = 0;
    while i < blob_hashes.len()
        invariant
            kzg.can_hash(),
            kzg.can_prove(),
            i <= blob_hashes@.len(),
            all@.len() == i,
            kzg.found_so_far(blob_hashes@, blobs@, blob_proof_type, all@),
        decreases blob_hashes@.len() - i,
    {
        match filter_tx_blob_beacon_with_proof(&blob_hashes[i], blobs, blob_proof_type, kzg) {
            Err(e) => {
                return Err(e);
            },
            Ok(data) => {
                all.push(data);
            },
        }
        i += 1;
    }
    Ok(all)
}

/// The text of bytes in two digits each: as such, or after `0x`.
pub open spec fn spells(lower: Seq<char>, bytes: Seq<u8>) -> bool {
    lower == hex_encoded(bytes) || lower == seq!['0', 'x'] + hex_encoded(bytes)
}

/// What a blob is written as is what is read of it: of two digits for each byte, with `0x` before
/// them or without, in small letters, capitals or both, the bytes come back.
pub proof fn law_blob_text_gives_back_its_bytes(text: Seq<char>, bytes: Seq<u8>)
    requires
        spells(ascii_lowered(text), bytes),
    ensures
        is_ascii_chars(text),
        digits_decoded(ascii_lowered(text)) == Some(bytes),
{
    let h = hex_encoded(bytes);
    let lower = ascii_lowered(text);
    lemma_pairs_give_back_their_bytes(bytes);
    if lower != h {
        assert(lower.skip(2) =~= h);
        assert forall|i: int| 0 <= i < lower.len() implies '\0' <= #[trigger] lower[i]
            <= '\u{7f}' by {
            if i >= 2 {
                assert(lower[i] == h[i - 2]);
            }
        }
    }
    assert forall|i: int| 0 <= i < text.len() implies '\0' <= #[trigger] text[i] <= '\u{7f}' by {
        assert(ascii_lower(text[i]) == lower[i]);
    }
}

/// Of a text in small letters, bytes are read exactly where pairs of digits are all that is left
/// once each `0x` at its front is gone: one character that is no digit, or a digit without a
/// second one, and nothing is read at all.
pub proof fn law_only_pairs_of_digits_have_bytes(lower: Seq<char>)
    requires
        has_no_capitals(lower),
    ensures
        digits_decoded(lower) is Some <==> is_digit_pairs(without_0x(lower)),
        !is_digit_pairs(without_0x(lower)) ==> or_empty(digits_decoded(lower)).len() == 0,
{
    lemma_without_0x(lower);
}

proof fn lemma_other_characters_stay(s: Seq<char>, i: int)
    requires
        0 <= i < s.len(),
        s[i] != '0',
        s[i] != 'x',
    ensures
        without_0x(s).contains(s[i]),
    decreases s.len(),
{
    if s.len() >= 2 && s[0] == '0' && s[1] == 'x' {
        assert(s.skip(2)[i - 2] == s[i]);
        lemma_other_characters_stay(s.skip(2), i - 2);
    }
}

/// A text with a character that is no digit, and is no part of a `0x` either, spells no bytes.
pub proof fn law_text_with_a_non_digit_has_no_bytes(text: Seq<char>, i: int)
    requires
        0 <= i < text.len(),
        hex_value(text[i]) is None,
        text[i] != 'x',
        text[i] != 'X',
    ensures
        digits_decoded(ascii_lowered(text)) is None,
        or_empty(digits_decoded(ascii_lowered(text))).len() == 0,
{
    let lower = ascii_lowered(text);
    let rest = without_0x(lower);
    assert(lower[i] == ascii_lower(text[i]));
    lemma_other_characters_stay(lower, i);
    let k = choose|k: int| 0 <= k < rest.len() && rest[k] == lower[i];
    assert(hex_value(rest[k]) is None);
    law_only_pairs_of_digits_have_bytes(lower);
}

/// Texts that spell the same bytes have the same hash, and fail alike where they have none.
pub proof fn law_spelling_makes_no_difference_to_the_hash<C, V, K, Q, P>(
    kzg: Kzg<C, V, K, Q, P>,
    a: Seq<char>,
    b: Seq<char>,
    r: Result<B256, PreflightError>,
) where C: Fn(&Vec<u8>) -> Result<Vec<u8>, CommitFault>, V: Fn(&Vec<u8>) -> B256
    requires
        blob_decoded(a) == blob_decoded(b),
    ensures
        kzg.hashed(a, r) <==> kzg.hashed(b, r),
{
}

/// The hash of a blob is that of its bytes, however they are spelled: with `0x` or without, in
/// small letters, capitals or both.
pub proof fn law_every_spelling_has_the_hash_of_its_bytes<C, V, K, Q, P>(
    kzg: Kzg<C, V, K, Q, P>,
    text: Seq<char>,
    bytes: Seq<u8>,
    r: Result<B256, PreflightError>,
) where C: Fn(&Vec<u8>) -> Result<Vec<u8>, CommitFault>, V: Fn(&Vec<u8>) -> B256
    requires
        spells(ascii_lowered(text), bytes),
    ensures
        is_ascii_chars(text),
        kzg.hashed_bytes(digits_decoded(ascii_lowered(text)), r) <==> kzg.hashed_bytes(
            Some(bytes),
            r,
        ),
{
    law_blob_text_gives_back_its_bytes(text, bytes);
}

/// The hash of a blob is a versioned one: where every versioned hash starts with the same byte, so
/// does the hash of every blob.
pub proof fn law_blob_hash_has_the_version_byte<C, V, K, Q, P>(
    kzg: Kzg<C, V, K, Q, P>,
    text: Seq<char>,
    version: u8,
    hash: B256,
) where C: Fn(&Vec<u8>) -> Result<Vec<u8>, CommitFault>, V: Fn(&Vec<u8>) -> B256
    requires
        forall|commitment: Vec<u8>, h: B256| #[trigger]
            call_ensures(kzg.version_hash, (&commitment,), h) ==> h@[0] == version,
        kzg.hashed(text, Ok(hash)),
    ensures
        hash@[0] == version,
{
}

/// A blob that has no hash breaks off, and a text that spells no bytes has none.
pub proof fn law_blob_without_a_hash_breaks_off<C, V, K, Q, P>(
    kzg: Kzg<C, V, K, Q, P>,
    text: Seq<char>,
    r: Result<B256, PreflightError>,
) where C: Fn(&Vec<u8>) -> Result<Vec<u8>, CommitFault>, V: Fn(&Vec<u8>) -> B256
    requires
        kzg.hashed(text, r),
    ensures
        blob_decoded(text) is None ==> r is Err,
        r matches Err(e) ==> e.kind_of() == ErrorKind::Panic,
{
}

/// A blob that is found is one of those that were searched, and has the hash that was wanted; no
/// blob before it has.
pub proof fn law_found_blob_has_the_hash<C, V, K, Q, P>(
    kzg: Kzg<C, V, K, Q, P>,
    blobs: Seq<String>,
    wanted: B256,
    hashes: Seq<Result<B256, PreflightError>>,
    found: Vec<u8>,
) where C: Fn(&Vec<u8>) -> Result<Vec<u8>, CommitFault>, V: Fn(&Vec<u8>) -> B256
    requires
        kzg.searched(blobs, wanted, hashes, Ok(found)),
    ensures
        0 < hashes.len() <= blobs.len(),
        kzg.text_hashed(blobs[hashes.len() - 1]@, Ok(wanted)),
        text_decoded(blobs[hashes.len() - 1]@, found@),
        forall|i: int| 0 <= i < hashes.len() - 1 ==> #[trigger] hashes[i] != Ok::<_, PreflightError>(
            wanted,
        ),
{
    assert(hashes.last() == hashes[hashes.len() - 1]);
}

/// A blob that is vouched for always has its commitment, and has the proof of an opening exactly
/// where one is asked for.
pub proof fn law_proof_comes_where_it_is_asked_for<E, C, V, K, Q, P>(
    kzg: Kzg<C, V, K, Q, P>,
    blob: Vec<u8>,
    proof_type: BlobProofType,
    made: TxData,
) where
    V: Fn(&Vec<u8>) -> B256,
    K: Fn(&Vec<u8>) -> Result<Vec<u8>, E>,
    Q: Fn(&Vec<u8>, &B256) -> Result<(B256, B256), E>,
    P: Fn(&Vec<u8>, &B256) -> Result<Vec<u8>, E>,

    requires
        kzg.vouched(blob, proof_type, Ok(made)),
    ensures
        made.data == blob,
        made.commitment is Some,
        made.blob_proof is Some <==> proof_type == BlobProofType::ProofOfEquivalence,
{
}

/// The transactions that are handed over for a hash are the bytes of one of the blobs that were
/// served, and that blob has the hash.
pub proof fn law_tx_data_is_of_the_wanted_blob<E, C, V, K, Q, P>(
    kzg: Kzg<C, V, K, Q, P>,
    blobs: Seq<String>,
    wanted: B256,
    proof_type: BlobProofType,
    made: TxData,
) where
    C: Fn(&Vec<u8>) -> Result<Vec<u8>, CommitFault>,
    V: Fn(&Vec<u8>) -> B256,
    K: Fn(&Vec<u8>) -> Result<Vec<u8>, E>,
    Q: Fn(&Vec<u8>, &B256) -> Result<(B256, B256), E>,
    P: Fn(&Vec<u8>, &B256) -> Result<Vec<u8>, E>,

    requires
        kzg.found_with_proof(blobs, wanted, proof_type, Ok(made)),
    ensures
        exists|i: int|
            0 <= i < blobs.len() && #[trigger] kzg.text_hashed(blobs[i]@, Ok(wanted))
                && text_decoded(blobs[i]@, made.data@),
        made.commitment is Some,
        made.blob_proof is Some <==> proof_type == BlobProofType::ProofOfEquivalence,
{
    let (hashes, found) = choose|
        hashes: Seq<Result<B256, PreflightError>>,
        found: Result<Vec<u8>, PreflightError>,
    | #[trigger]
        kzg.searched(blobs, wanted, hashes, found) && found is Ok && kzg.vouched(
            found->Ok_0,
            proof_type,
            Ok(made),
        );
    law_found_blob_has_the_hash(kzg, blobs, wanted, hashes, found->Ok_0);
    law_proof_comes_where_it_is_asked_for(kzg, found->Ok_0, proof_type, made);
}

proof fn lemma_one_hash<C, V, K, Q, P>(
    kzg: Kzg<C, V, K, Q, P>,
    text: Seq<char>,
    x: Result<B256, PreflightError>,
    y: Result<B256, PreflightError>,
) where C: Fn(&Vec<u8>) -> Result<Vec<u8>, CommitFault>, V: Fn(&Vec<u8>) -> B256
    requires
        kzg.hashing_is_a_function(),
        kzg.hashed(text, x),
        kzg.hashed(text, y),
    ensures
        x == y,
{
}

/// Where hashing is a function, a search has one outcome: lists of the same texts, searched for
/// the same hash, give the same bytes or the same failure.
pub proof fn law_search_has_one_outcome<C, V, K, Q, P>(
    kzg: Kzg<C, V, K, Q, P>,
    blobs: Seq<String>,
    others: Seq<String>,
    wanted: B256,
    r: Result<Vec<u8>, PreflightError>,
    s: Result<Vec<u8>, PreflightError>,
) where C: Fn(&Vec<u8>) -> Result<Vec<u8>, CommitFault>, V: Fn(&Vec<u8>) -> B256
    requires
        kzg.hashing_is_a_function(),
        same_texts(blobs, others),
        kzg.found(blobs, wanted, r),
        kzg.found(others, wanted, s),
    ensures
        same_outcome(r, s),
{
    let h = choose|h: Seq<Result<B256, PreflightError>>| kzg.searched(blobs, wanted, h, r);
    let k = choose|k: Seq<Result<B256, PreflightError>>| kzg.searched(others, wanted, k, s);
    assert forall|i: int| 0 <= i < h.len() && i < k.len() implies h[i] == k[i] by {
        assert(blobs[i]@ == others[i]@);
        lemma_one_hash(kzg, blobs[i]@, h[i], k[i]);
    }
    if h.len() < k.len() && h.len() > 0 {
        assert(h.last() == k[h.len() - 1]);
    }
    if k.len() < h.len() && k.len() > 0 {
        assert(k.last() == h[k.len() - 1]);
    }
    assert(h.len() == k.len());
    if h.len() > 0 {
        assert(h.last() == k.last());
        assert(blobs[h.len() - 1]@ == others[h.len() - 1]@);
    }
}

proof fn lemma_one_opening<E, C, V, K, Q, P>(
    kzg: Kzg<C, V, K, Q, P>,
    a: Vec<u8>,
    b: Vec<u8>,
    commitment: Vec<u8>,
    other: Vec<u8>,
    proof_type: BlobProofType,
    x: Result<Option<Vec<u8>>, E>,
    y: Result<Option<Vec<u8>>, E>,
) where
    V: Fn(&Vec<u8>) -> B256,
    K: Fn(&Vec<u8>) -> Result<Vec<u8>, E>,
    Q: Fn(&Vec<u8>, &B256) -> Result<(B256, B256), E>,
    P: Fn(&Vec<u8>, &B256) -> Result<Vec<u8>, E>,

    requires
        kzg.vouching_is_a_function(),
        a@ == b@,
        commitment@ == other@,
        kzg.opened(a, commitment, proof_type, x),
        kzg.opened(b, other, proof_type, y),
    ensures
        match (x, y) {
            (Ok(p), Ok(q)) => same_bytes(p, q),
            (Err(e), Err(f)) => e == f,
            _ => false,
        },
{
}

/// Where vouching is a function, the same bytes are vouched for in one way.
pub proof fn law_vouching_has_one_outcome<E, C, V, K, Q, P>(
    kzg: Kzg<C, V, K, Q, P>,
    a: Vec<u8>,
    b: Vec<u8>,
    proof_type: BlobProofType,
    r: Result<TxData, E>,
    s: Result<TxData, E>,
) where
    V: Fn(&Vec<u8>) -> B256,
    K: Fn(&Vec<u8>) -> Result<Vec<u8>, E>,
    Q: Fn(&Vec<u8>, &B256) -> Result<(B256, B256), E>,
    P: Fn(&Vec<u8>, &B256) -> Result<Vec<u8>, E>,

    requires
        kzg.vouching_is_a_function(),
        a@ == b@,
        kzg.vouched(a, proof_type, r),
        kzg.vouched(b, proof_type, s),
    ensures
        same_data_outcome(r, s),
{
    let x = choose|x: Result<Vec<u8>, E>| #[trigger]
        call_ensures(kzg.commitment, (&a,), x) && match x {
            Err(e) => r == Err::<TxData, E>(e),
            Ok(commitment) => exists|p: Result<Option<Vec<u8>>, E>| #[trigger]
                kzg.opened(a, commitment, proof_type, p) && match p {
                    Err(e) => r == Err::<TxData, E>(e),
                    Ok(blob_proof) => r == Ok::<_, E>(
                        TxData { data: a, commitment: Some(commitment), blob_proof },
                    ),
                },
        };
    let y = choose|y: Result<Vec<u8>, E>| #[trigger]
        call_ensures(kzg.commitment, (&b,), y) && match y {
            Err(e) => s == Err::<TxData, E>(e),
            Ok(commitment) => exists|p: Result<Option<Vec<u8>>, E>| #[trigger]
                kzg.opened(b, commitment, proof_type, p) && match p {
                    Err(e) => s == Err::<TxData, E>(e),
                    Ok(blob_proof) => s == Ok::<_, E>(
                        TxData { data: b, commitment: Some(commitment), blob_proof },
                    ),
                },
        };
    assert(same_outcome(x, y));
    if x is Ok {
        let (c, d) = (x->Ok_0, y->Ok_0);
        let p = choose|p: Result<Option<Vec<u8>>, E>| #[trigger]
            kzg.opened(a, c, proof_type, p) && match p {
                Err(e) => r == Err::<TxData, E>(e),
                Ok(blob_proof) => r == Ok::<_, E>(
                    TxData { data: a, commitment: Some(c), blob_proof },
                ),
            };
        let q = choose|q: Result<Option<Vec<u8>>, E>| #[trigger]
            kzg.opened(b, d, proof_type, q) && match q {
                Err(e) => s == Err::<TxData, E>(e),
                Ok(blob_proof) => s == Ok::<_, E>(
                    TxData { data: b, commitment: Some(d), blob_proof },
                ),
            };
        lemma_one_opening(kzg, a, b, c, d, proof_type, p, q);
    }
}

/// Where hashing and vouching are functions, the blob of a hash has one outcome: from lists of the
/// same texts come the same data or the same failure.
pub proof fn law_blob_of_a_hash_has_one_outcome<E, C, V, K, Q, P>(
    kzg: Kzg<C, V, K, Q, P>,
    blobs: Seq<String>,
    others: Seq<String>,
    wanted: B256,
    proof_type: BlobProofType,
    r: Result<TxData, Failure<E>>,
    s: Result<TxData, Failure<E>>,
) where
    C: Fn(&Vec<u8>) -> Result<Vec<u8>, CommitFault>,
    V: Fn(&Vec<u8>) -> B256,
    K: Fn(&Vec<u8>) -> Result<Vec<u8>, E>,
    Q: Fn(&Vec<u8>, &B256) -> Result<(B256, B256), E>,
    P: Fn(&Vec<u8>, &B256) -> Result<Vec<u8>, E>,

    requires
        kzg.hashing_is_a_function(),
        kzg.vouching_is_a_function(),
        same_texts(blobs, others),
        kzg.found_with_proof(blobs, wanted, proof_type, r),
        kzg.found_with_proof(others, wanted, proof_type, s),
    ensures
        same_data_outcome(r, s),
{
    let (h, f) = choose|
        h: Seq<Result<B256, PreflightError>>,
        f: Result<Vec<u8>, PreflightError>,
    | #[trigger]
        kzg.searched(blobs, wanted, h, f) && match f {
            Err(e) => r == Err::<TxData, _>(Failure::<E>::Preflight(e)),
            Ok(blob) => exists|v: Result<TxData, E>| #[trigger]
                kzg.vouched(blob, proof_type, v) && match v {
                    Err(e) => r == Err::<TxData, _>(Failure::Outside(e)),
                    Ok(data) => r == Ok::<_, Failure<E>>(data),
                },
        };
    let (k, g) = choose|
        k: Seq<Result<B256, PreflightError>>,
        g: Result<Vec<u8>, PreflightError>,
    | #[trigger]
        kzg.searched(others, wanted, k, g) && match g {
            Err(e) => s == Err::<TxData, _>(Failure::<E>::Preflight(e)),
            Ok(blob) => exists|v: Result<TxData, E>| #[trigger]
                kzg.vouched(blob, proof_type, v) && match v {
                    Err(e) => s == Err::<TxData, _>(Failure::Outside(e)),
                    Ok(data) => s == Ok::<_, Failure<E>>(data),
                },
        };
    law_search_has_one_outcome(kzg, blobs, others, wanted, f, g);
    if f is Ok {
        let v = choose|v: Result<TxData, E>| #[trigger]
            kzg.vouched(f->Ok_0, proof_type, v) && match v {
                Err(e) => r == Err::<TxData, _>(Failure::Outside(e)),
                Ok(data) => r == Ok::<_, Failure<E>>(data),
            };
        let w = choose|w: Result<TxData, E>| #[trigger]
            kzg.vouched(g->Ok_0, proof_type, w) && match w {
                Err(e) => s == Err::<TxData, _>(Failure::Outside(e)),
                Ok(data) => s == Ok::<_, Failure<E>>(data),
            };
        law_vouching_has_one_outcome(kzg, f->Ok_0, g->Ok_0, proof_type, v, w);
    }
}

/// The blobs of a batch are what each hash gives by itself, in the order of the hashes: where the
/// batch succeeds, so does each hash, with the same data; where one hash fails, so does the batch.
pub proof fn law_batch_gives_what_each_hash_gives<E, C, V, K, Q, P>(
    kzg: Kzg<C, V, K, Q, P>,
    wanted: Seq<B256>,
    blobs: Seq<String>,
    proof_type: BlobProofType,
    batch: Result<Vec<TxData>, Failure<E>>,
    i: int,
    single: Result<TxData, Failure<E>>,
) where
    C: Fn(&Vec<u8>) -> Result<Vec<u8>, CommitFault>,
    V: Fn(&Vec<u8>) -> B256,
    K: Fn(&Vec<u8>) -> Result<Vec<u8>, E>,
    Q: Fn(&Vec<u8>, &B256) -> Result<(B256, B256), E>,
    P: Fn(&Vec<u8>, &B256) -> Result<Vec<u8>, E>,

    requires
        kzg.hashing_is_a_function(),
        kzg.vouching_is_a_function(),
        kzg.all_found(wanted, blobs, proof_type, batch),
        0 <= i < wanted.len(),
        kzg.found_with_proof(blobs, wanted[i], proof_type, single),
    ensures
        batch is Ok ==> batch->Ok_0@.len() == wanted.len() && single is Ok && same_data(
            batch->Ok_0@[i],
            single->Ok_0,
        ),
        single is Err ==> batch is Err,
        wanted.len() == 1 && batch is Err ==> single is Err && batch->Err_0 == single->Err_0,
{
    match batch {
        Ok(all) => {
            assert(kzg.found_with_proof(blobs, wanted[i], proof_type, Ok(all@[i])));
            law_blob_of_a_hash_has_one_outcome(
                kzg,
                blobs,
                blobs,
                wanted[i],
                proof_type,
                Ok(all@[i]),
                single,
            );
        },
        Err(e) => {
            if wanted.len() == 1 {
                assert(kzg.found_with_proof(blobs, wanted[0], proof_type, Err(e)));
                law_blob_of_a_hash_has_one_outcome(
                    kzg,
                    blobs,
                    blobs,
                    wanted[0],
                    proof_type,
                    Err(e),
                    single,
                );
            }
        },
    }
}

/// A hash that is asked for twice is answered twice, with the same data.
pub proof fn law_repeated_hashes_are_repeated<E, C, V, K, Q, P>(
    kzg: Kzg<C, V, K, Q, P>,
    wanted: Seq<B256>,
    blobs: Seq<String>,
    proof_type: BlobProofType,
    all: Vec<TxData>,
    i: int,
    j: int,
) where
    C: Fn(&Vec<u8>) -> Result<Vec<u8>, CommitFault>,
    V: Fn(&Vec<u8>) -> B256,
    K: Fn(&Vec<u8>) -> Result<Vec<u8>, E>,
    Q: Fn(&Vec<u8>, &B256) -> Result<(B256, B256), E>,
    P: Fn(&Vec<u8>, &B256) -> Result<Vec<u8>, E>,

    requires
        kzg.hashing_is_a_function(),
        kzg.vouching_is_a_function(),
        kzg.all_found(wanted, blobs, proof_type, Ok(all)),
        0 <= i < wanted.len(),
        0 <= j < wanted.len(),
        wanted[i] == wanted[j],
    ensures
        same_data(all@[i], all@[j]),
{
    assert(kzg.found_with_proof(blobs, wanted[j], proof_type, Ok(all@[j])));
    law_batch_gives_what_each_hash_gives(kzg, wanted, blobs, proof_type, Ok(all), i, Ok(all@[j]));
}

/// A batch fails where no blob has one of its hashes: it never comes out shorter.
pub proof fn law_missing_blob_fails_the_batch<E, C, V, K, Q, P>(
    kzg: Kzg<C, V, K, Q, P>,
    wanted: Seq<B256>,
    blobs: Seq<String>,
    proof_type: BlobProofType,
    batch: Result<Vec<TxData>, Failure<E>>,
    i: int,
) where
    C: Fn(&Vec<u8>) -> Result<Vec<u8>, CommitFault>,
    V: Fn(&Vec<u8>) -> B256,
    K: Fn(&Vec<u8>) -> Result<Vec<u8>, E>,
    Q: Fn(&Vec<u8>, &B256) -> Result<(B256, B256), E>,
    P: Fn(&Vec<u8>, &B256) -> Result<Vec<u8>, E>,

    requires
        kzg.all_found(wanted, blobs, proof_type, batch),
        0 <= i < wanted.len(),
        forall|j: int| 0 <= j < blobs.len() ==> !kzg.hashed((#[trigger] blobs[j])@, Ok(wanted[i])),
    ensures
        batch is Err,
{
    if batch is Ok {
        let all = batch->Ok_0;
        assert(kzg.found_with_proof(blobs, wanted[i], proof_type, Ok(all@[i])));
        law_tx_data_is_of_the_wanted_blob(kzg, blobs, wanted[i], proof_type, all@[i]);
    }
}

/// The text of a blob is lowered, rid of each `0x` at its front, and read as pairs of digits; what
/// is no pairs of digits counts as no bytes at all.
pub proof fn law_blob_is_read_from_its_lowered_text(blob: Seq<char>, bytes: Seq<u8>)
    ensures
        blob_decoded(blob) == hex_decoded(without_0x(lowercase(blob))),
        digits_decoded(blob) == hex_decoded(without_0x(blob)),
        text_decoded(blob, bytes) <==> blob_decoded(blob) == Some(bytes) && (is_ascii_chars(blob)
            ==> digits_decoded(ascii_lowered(blob)) == Some(bytes)),
        or_empty(Some(bytes)) == bytes,
        or_empty(None).len() == 0,
{
}

/// A versioned hash is the hash of the commitment of the very bytes that the text spells.
pub proof fn law_hash_is_that_of_the_commitment<C, V, K, Q, P>(
    kzg: Kzg<C, V, K, Q, P>,
    text: Seq<char>,
    hash: B256,
) where C: Fn(&Vec<u8>) -> Result<Vec<u8>, CommitFault>, V: Fn(&Vec<u8>) -> B256
    requires
        kzg.text_hashed(text, Ok(hash)),
    ensures
        exists|blob: Vec<u8>, commitment: Vec<u8>|
            {
                &&& blob_decoded(text) == Some(blob@)
                &&& #[trigger] call_ensures(kzg.blob_commitment, (&blob,), Ok(commitment))
                &&& #[trigger] call_ensures(kzg.version_hash, (&commitment,), hash)
            },
        is_ascii_chars(text) ==> exists|blob: Vec<u8>, commitment: Vec<u8>|
            {
                &&& digits_decoded(ascii_lowered(text)) == Some(blob@)
                &&& #[trigger] call_ensures(kzg.blob_commitment, (&blob,), Ok(commitment))
                &&& #[trigger] call_ensures(kzg.version_hash, (&commitment,), hash)
            },
{
    lemma_bytes_are_committed_to(kzg, blob_decoded(text), hash);
    if is_ascii_chars(text) {
        lemma_bytes_are_committed_to(kzg, digits_decoded(ascii_lowered(text)), hash);
    }
}

proof fn lemma_bytes_are_committed_to<C, V, K, Q, P>(
    kzg: Kzg<C, V, K, Q, P>,
    decoded: Option<Seq<u8>>,
    hash: B256,
) where C: Fn(&Vec<u8>) -> Result<Vec<u8>, CommitFault>, V: Fn(&Vec<u8>) -> B256
    requires
        kzg.hashed_bytes(decoded, Ok(hash)),
    ensures
        exists|blob: Vec<u8>, commitment: Vec<u8>|
            {
                &&& decoded == Some(blob@)
                &&& #[trigger] call_ensures(kzg.blob_commitment, (&blob,), Ok(commitment))
                &&& #[trigger] call_ensures(kzg.version_hash, (&commitment,), hash)
            },
{
    let (blob, c) = choose|blob: Vec<u8>, c: Result<Vec<u8>, CommitFault>|
        decoded == Some(blob@) && #[trigger] call_ensures(kzg.blob_commitment, (&blob,), c)
            && match c {
            Err(fault) => false,
            Ok(commitment) => call_ensures(kzg.version_hash, (&commitment,), hash),
        };
    assert(c == Ok::<Vec<u8>, CommitFault>(c->Ok_0));
}

/// A blob has no hash only where its text spells no bytes or its bytes have no commitment, and the
/// failure tells at which point the commitment failed.
pub proof fn law_failed_commitment_says_where<C, V, K, Q, P>(
    kzg: Kzg<C, V, K, Q, P>,
    text: Seq<char>,
    failure: PreflightError,
) where C: Fn(&Vec<u8>) -> Result<Vec<u8>, CommitFault>, V: Fn(&Vec<u8>) -> B256
    requires
        kzg.text_hashed(text, Err(failure)),
    ensures
        failure == PreflightError::BlobNotDecoded <==> blob_decoded(text) is None,
        is_ascii_chars(text) ==> (failure == PreflightError::BlobNotDecoded <==> digits_decoded(
            ascii_lowered(text),
        ) is None),
        match failure {
            PreflightError::BlobNotDecoded => true,
            PreflightError::BlobNotCreated => exists|blob: Vec<u8>|
                blob_decoded(text) == Some(blob@) && #[trigger] call_ensures(
                    kzg.blob_commitment,
                    (&blob,),
                    Err(CommitFault::NotCreated),
                ),
            PreflightError::BlobNotDeserialized => exists|blob: Vec<u8>|
                blob_decoded(text) == Some(blob@) && #[trigger] call_ensures(
                    kzg.blob_commitment,
                    (&blob,),
                    Err(CommitFault::NotDeserialized),
                ),
            PreflightError::BlobNotCommitted => exists|blob: Vec<u8>|
                blob_decoded(text) == Some(blob@) && #[trigger] call_ensures(
                    kzg.blob_commitment,
                    (&blob,),
                    Err(CommitFault::NotCommitted),
                ),
            _ => false,
        },
{
    if blob_decoded(text) is Some {
        let (blob, fault) = choose|blob: Vec<u8>, fault: CommitFault|
            blob_decoded(text) == Some(blob@) && #[trigger] call_ensures(
                kzg.blob_commitment,
                (&blob,),
                Err(fault),
            ) && failure == fault.error_of();
        assert(fault == CommitFault::NotCreated || fault == CommitFault::NotDeserialized || fault
            == CommitFault::NotCommitted);
    }
}

/// Blobs are looked at in the order in which they were served, each by its own text, and the search
/// fails only where one that comes before any match has no hash, or where none has the wanted one.
pub proof fn law_blob_search_fails_only_for_cause<C, V, K, Q, P>(
    kzg: Kzg<C, V, K, Q, P>,
    blobs: Seq<String>,
    wanted: B256,
    failure: PreflightError,
) where C: Fn(&Vec<u8>) -> Result<Vec<u8>, CommitFault>, V: Fn(&Vec<u8>) -> B256
    requires
        kzg.found(blobs, wanted, Err(failure)),
    ensures
        exists|hashes: Seq<Result<B256, PreflightError>>|
            {
                &&& #[trigger] hashes.len() <= blobs.len()
                &&& forall|i: int|
                    0 <= i < hashes.len() ==> kzg.text_hashed(blobs[i]@, #[trigger] hashes[i])
                &&& forall|i: int|
                    0 <= i < hashes.len() - 1 ==> (#[trigger] hashes[i]) is Ok && hashes[i]->Ok_0
                        != wanted
                &&& {
                    ||| hashes.len() > 0 && hashes[hashes.len() - 1] == Err::<B256, _>(failure)
                    ||| {
                        &&& failure == PreflightError::BlobNotFound
                        &&& hashes.len() == blobs.len()
                        &&& forall|i: int|
                            0 <= i < hashes.len() ==> (#[trigger] hashes[i]) is Ok && hashes[i]->Ok_0
                                != wanted
                    }
                }
            },
{
    let hashes = choose|hashes: Seq<Result<B256, PreflightError>>|
        kzg.searched(blobs, wanted, hashes, Err(failure));
    assert(hashes.len() <= blobs.len());
    if hashes.len() > 0 {
        assert(hashes.last() == hashes[hashes.len() - 1]);
    }
}

/// A blob that is there is found: where hashing is a function, and all blobs before it have hashes
/// and other ones, the bytes of the first blob with the wanted hash come back.
pub proof fn law_first_blob_with_the_hash_is_found<C, V, K, Q, P>(
    kzg: Kzg<C, V, K, Q, P>,
    blobs: Seq<String>,
    wanted: B256,
    others: Seq<B256>,
    r: Result<Vec<u8>, PreflightError>,
) where C: Fn(&Vec<u8>) -> Result<Vec<u8>, CommitFault>, V: Fn(&Vec<u8>) -> B256
    requires
        kzg.hashing_is_a_function(),
        kzg.found(blobs, wanted, r),
        others.len() < blobs.len(),
        forall|i: int|
            0 <= i < others.len() ==> others[i] != wanted && kzg.hashed(
                blobs[i]@,
                Ok(#[trigger] others[i]),
            ),
        kzg.hashed(blobs[others.len() as int]@, Ok(wanted)),
    ensures
        r matches Ok(blob) && blob_decoded(blobs[others.len() as int]@) == Some(blob@),
{
    let hashes = choose|hashes: Seq<Result<B256, PreflightError>>|
        kzg.searched(blobs, wanted, hashes, r);
    let k = others.len() as int;
    assert forall|i: int| 0 <= i < hashes.len() && i <= k implies hashes[i] == (if i < k {
        Ok::<_, PreflightError>(others[i])
    } else {
        Ok::<_, PreflightError>(wanted)
    }) by {
        if i < k {
            lemma_one_hash(kzg, blobs[i]@, hashes[i], Ok(others[i]));
        } else {
            lemma_one_hash(kzg, blobs[i]@, hashes[i], Ok(wanted));
        }
    }
    if hashes.len() > k + 1 {
        assert(hashes[k] is Ok && hashes[k]->Ok_0 != wanted);
    }
    if 0 < hashes.len() <= k {
        assert(hashes.last() == hashes[hashes.len() - 1]);
    }
    assert(hashes.len() == k + 1);
    assert(hashes.last() == hashes[k]);
}

/// A blob that is vouched for is handed over as it is, with the commitment that was computed for
/// it. Where a proof is asked for, it is the one for the opening of these bytes at the point that
/// they and the versioned hash of that commitment give; else there is none.
pub proof fn law_proof_is_for_the_point_of_the_blob<E, C, V, K, Q, P>(
    kzg: Kzg<C, V, K, Q, P>,
    blob: Vec<u8>,
    proof_type: BlobProofType,
    made: TxData,
) where
    V: Fn(&Vec<u8>) -> B256,
    K: Fn(&Vec<u8>) -> Result<Vec<u8>, E>,
    Q: Fn(&Vec<u8>, &B256) -> Result<(B256, B256), E>,
    P: Fn(&Vec<u8>, &B256) -> Result<Vec<u8>, E>,

    requires
        kzg.vouched(blob, proof_type, Ok(made)),
    ensures
        made.data == blob,
        made.commitment matches Some(commitment) && call_ensures(
            kzg.commitment,
            (&blob,),
            Ok(commitment),
        ),
        proof_type == BlobProofType::KzgVersionedHash ==> made.blob_proof is None,
        proof_type == BlobProofType::ProofOfEquivalence ==> exists|hash: B256, x: B256, y: B256|
            {
                &&& call_ensures(kzg.version_hash, (&made.commitment->0,), hash)
                &&& #[trigger] call_ensures(kzg.equivalence, (&blob, &hash), Ok((x, y)))
                &&& made.blob_proof matches Some(p) && call_ensures(kzg.prove, (&blob, &x), Ok(p))
            },
{
    let commitment = choose|commitment: Vec<u8>|
        call_ensures(kzg.commitment, (&blob,), Ok(commitment)) && made.commitment == Some(
            commitment,
        ) && made.data == blob && #[trigger] kzg.opened(
            blob,
            commitment,
            proof_type,
            Ok(made.blob_proof),
        );
    assert(kzg.opened(blob, commitment, proof_type, Ok(made.blob_proof)));
    if proof_type == BlobProofType::ProofOfEquivalence {
        let (hash, point) = choose|hash: B256, point: Result<(B256, B256), E>|
            call_ensures(kzg.version_hash, (&commitment,), hash) && #[trigger] call_ensures(
                kzg.equivalence,
                (&blob, &hash),
                point,
            ) && match point {
                Err(e) => false,
                Ok((x, _)) => exists|made_proof: Result<Vec<u8>, E>|
                    call_ensures(kzg.prove, (&blob, &x), made_proof) && match made_proof {
                        Err(e) => false,
                        Ok(p) => made.blob_proof == Some(p),
                    },
            };
        let (x, y) = point->Ok_0;
        assert(point == Ok::<_, E>((x, y)));
        let made_proof = choose|made_proof: Result<Vec<u8>, E>|
            call_ensures(kzg.prove, (&blob, &x), made_proof) && match made_proof {
                Err(e) => false,
                Ok(p) => made.blob_proof == Some(p),
            };
        assert(made_proof == Ok::<_, E>(made_proof->Ok_0));
        assert(call_ensures(kzg.equivalence, (&blob, &hash), Ok((x, y))));
    }
}

/// Vouching fails only with what a computation gave: that of the commitment, or, where a proof is
/// asked for, that of the point or that of the proof at the point.
pub proof fn law_vouching_fails_only_for_cause<E, C, V, K, Q, P>(
    kzg: Kzg<C, V, K, Q, P>,
    blob: Vec<u8>,
    proof_type: BlobProofType,
    e: E,
) where
    V: Fn(&Vec<u8>) -> B256,
    K: Fn(&Vec<u8>) -> Result<Vec<u8>, E>,
    Q: Fn(&Vec<u8>, &B256) -> Result<(B256, B256), E>,
    P: Fn(&Vec<u8>, &B256) -> Result<Vec<u8>, E>,

    requires
        kzg.vouched(blob, proof_type, Err(e)),
    ensures
        call_ensures(kzg.commitment, (&blob,), Err(e)) || proof_type
            == BlobProofType::ProofOfEquivalence && exists|commitment: Vec<u8>, hash: B256|
            {
                &&& call_ensures(kzg.commitment, (&blob,), Ok(commitment))
                &&& #[trigger] call_ensures(kzg.version_hash, (&commitment,), hash)
                &&& call_ensures(kzg.equivalence, (&blob, &hash), Err(e)) || exists|x: B256, y: B256|
                    #[trigger] call_ensures(kzg.equivalence, (&blob, &hash), Ok((x, y)))
                        && call_ensures(kzg.prove, (&blob, &x), Err(e))
            },
{
    if !call_ensures(kzg.commitment, (&blob,), Err(e)) {
        let commitment = choose|commitment: Vec<u8>|
            call_ensures(kzg.commitment, (&blob,), Ok(commitment)) && #[trigger] kzg.opened(
                blob,
                commitment,
                proof_type,
                Err(e),
            );
        assert(kzg.opened(blob, commitment, proof_type, Err(e)));
        let (hash, point) = choose|hash: B256, point: Result<(B256, B256), E>|
            call_ensures(kzg.version_hash, (&commitment,), hash) && #[trigger] call_ensures(
                kzg.equivalence,
                (&blob, &hash),
                point,
            ) && match point {
                Err(f) => e == f,
                Ok((x, _)) => exists|made: Result<Vec<u8>, E>|
                    call_ensures(kzg.prove, (&blob, &x), made) && match made {
                        Err(f) => e == f,
                        Ok(p) => false,
                    },
            };
        assert(call_ensures(kzg.version_hash, (&commitment,), hash));
        if point is Ok {
            let (x, y) = point->Ok_0;
            assert(call_ensures(kzg.equivalence, (&blob, &hash), Ok((x, y))));
            assert(call_ensures(kzg.prove, (&blob, &x), Err(e)));
        } else {
            assert(call_ensures(kzg.equivalence, (&blob, &hash), Err(e)));
        }
    }
}

/// The blob of a hash is the one that the search gives, vouched for as such; a failure is that of
/// the search or that of vouching, told apart.
pub proof fn law_blob_of_a_hash_is_searched_and_vouched_for<E, C, V, K, Q, P>(
    kzg: Kzg<C, V, K, Q, P>,
    blobs: Seq<String>,
    wanted: B256,
    proof_type: BlobProofType,
    r: Result<TxData, Failure<E>>,
) where
    C: Fn(&Vec<u8>) -> Result<Vec<u8>, CommitFault>,
    V: Fn(&Vec<u8>) -> B256,
    K: Fn(&Vec<u8>) -> Result<Vec<u8>, E>,
    Q: Fn(&Vec<u8>, &B256) -> Result<(B256, B256), E>,
    P: Fn(&Vec<u8>, &B256) -> Result<Vec<u8>, E>,

    requires
        kzg.found_with_proof(blobs, wanted, proof_type, r),
    ensures
        r matches Ok(made) ==> kzg.found(blobs, wanted, Ok(made.data)) && kzg.vouched(
            made.data,
            proof_type,
            Ok(made),
        ),
        r matches Err(Failure::Preflight(e)) ==> kzg.found(blobs, wanted, Err(e)),
        r matches Err(Failure::Outside(e)) ==> exists|blob: Vec<u8>|
            kzg.found(blobs, wanted, Ok(blob)) && #[trigger] kzg.vouched(blob, proof_type, Err(e)),
        !(r matches Err(Failure::BatchBlock(_))),
{
    let (hashes, found) = choose|
        hashes: Seq<Result<B256, PreflightError>>,
        found: Result<Vec<u8>, PreflightError>,
    | #[trigger]
        kzg.searched(blobs, wanted, hashes, found) && match found {
            Err(e) => r == Err::<TxData, _>(Failure::<E>::Preflight(e)),
            Ok(blob) => exists|v: Result<TxData, E>| #[trigger]
                kzg.vouched(blob, proof_type, v) && match v {
                    Err(e) => r == Err::<TxData, _>(Failure::Outside(e)),
                    Ok(data) => r == Ok::<_, Failure<E>>(data),
                },
        };
    assert(kzg.found(blobs, wanted, found));
    if let Ok(blob) = found {
        let v = choose|v: Result<TxData, E>| #[trigger]
            kzg.vouched(blob, proof_type, v) && match v {
                Err(e) => r == Err::<TxData, _>(Failure::Outside(e)),
                Ok(data) => r == Ok::<_, Failure<E>>(data),
            };
        match v {
            Ok(data) => {
                law_proof_is_for_the_point_of_the_blob(kzg, blob, proof_type, data);
                assert(data.data == blob);
                assert(found == Ok::<_, PreflightError>(data.data));
                assert(kzg.vouched(data.data, proof_type, Ok(data)));
            },
            Err(e) => {
                assert(kzg.found(blobs, wanted, Ok(blob)));
                assert(kzg.vouched(blob, proof_type, Err(r->Err_0->Outside_0)));
            },
        }
    }
}

/// The blobs of a batch stand in the order of their hashes, one for each. A batch fails with what
/// one of its hashes fails with, all hashes before that one being found.
pub proof fn law_batch_goes_hash_by_hash<E, C, V, K, Q, P>(
    kzg: Kzg<C, V, K, Q, P>,
    wanted: Seq<B256>,
    blobs: Seq<String>,
    proof_type: BlobProofType,
    r: Result<Vec<TxData>, Failure<E>>,
) where
    C: Fn(&Vec<u8>) -> Result<Vec<u8>, CommitFault>,
    V: Fn(&Vec<u8>) -> B256,
    K: Fn(&Vec<u8>) -> Result<Vec<u8>, E>,
    Q: Fn(&Vec<u8>, &B256) -> Result<(B256, B256), E>,
    P: Fn(&Vec<u8>, &B256) -> Result<Vec<u8>, E>,

    requires
        kzg.all_found(wanted, blobs, proof_type, r),
    ensures
        match r {
            Ok(all) => all@.len() == wanted.len() && forall|i: int|
                0 <= i < wanted.len() ==> kzg.found_with_proof(
                    blobs,
                    wanted[i],
                    proof_type,
                    Ok(#[trigger] all@[i]),
                ),
            Err(e) => exists|done: Seq<TxData>|
                {
                    &&& #[trigger] done.len() < wanted.len()
                    &&& forall|i: int|
                        0 <= i < done.len() ==> kzg.found_with_proof(
                            blobs,
                            wanted[i],
                            proof_type,
                            Ok(#[trigger] done[i]),
                        )
                    &&& kzg.found_with_proof(blobs, wanted[done.len() as int], proof_type, Err(e))
                },
        },
{
}

} // verus!
