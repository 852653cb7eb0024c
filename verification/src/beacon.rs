//! Where blobs are asked for, and what is made of the answers.
use vstd::prelude::*;
use vstd::utf8::is_ascii_chars;
use crate::blob::{
    blob_decoded, blob_to_bytes, blob_with_proof, digits_decoded, filter_blob_data_beacon,
    get_batch_tx_data_with_proofs, law_batch_gives_what_each_hash_gives,
    law_batch_goes_hash_by_hash, law_blob_of_a_hash_is_searched_and_vouched_for,
    law_proof_is_for_the_point_of_the_blob, law_search_has_one_outcome,
    law_tx_data_is_of_the_wanted_blob, or_empty, same_data, same_outcome, same_texts, text_decoded,
    CommitFault, Kzg,
};
use crate::error::{hash_chars, Failure, PreflightError};
use crate::outside::hash_text;
use crate::slot::{
    block_time_to_block_slot, law_slot_is_owed_from_genesis_on, slot_defined, slot_result,
};
use crate::text::{
    ascii_lowered, contains, contains_text, decimal, hex_encoded,
    law_text_stands_between_what_is_around_it, lemma_decimal_is_injective, push_decimal,
    trim_trailing_slashes, without_trailing_slashes,
};
use crate::types::{BlobProofType, ChainSpec, TxData, B256};

verus! {

/// Whether blobs of this address are served by Blobscan and not by a beacon node.
pub open spec fn is_blobscan(beacon_rpc_url: Seq<char>) -> bool {
    contains_text(beacon_rpc_url, "blobscan.com"@)
}

/// Where a beacon node serves the blobs of a slot.
pub open spec fn beacon_url_chars(beacon_rpc_url: Seq<char>, block_id: u64) -> Seq<char> {
    without_trailing_slashes(beacon_rpc_url) + "/eth/v1/beacon/blob_sidecars/"@ + decimal(
        block_id as nat,
    )
}

/// Where Blobscan serves the blob of a hash.
pub open spec fn blobscan_url_chars(beacon_rpc_url: Seq<char>, blob_hash: B256) -> Seq<char> {
    without_trailing_slashes(beacon_rpc_url) + "/blobs/"@ + hash_chars(blob_hash)
}

/// Where a beacon node serves the blobs of a slot.
pub fn beacon_url(beacon_rpc_url: &str, block_id: u64) -> (r: String)
    ensures
        r@ == beacon_url_chars(beacon_rpc_url@, block_id),
{
    let mut url: String = trim_trailing_slashes(beacon_rpc_url).to_owned();
    url.append("/eth/v1/beacon/blob_sidecars/");
    push_decimal(&mut url, block_id);
    url
}

/// Where Blobscan serves the blob of a hash.
pub fn blobscan_url(beacon_rpc_url: &str, blob_hash: &B256) -> (r: String)
    ensures
        r@ == blobscan_url_chars(beacon_rpc_url@, *blob_hash),
{
    let mut url: String = trim_trailing_slashes(beacon_rpc_url).to_owned();
    url.append("/blobs/");
    let hash: String = hash_text(blob_hash);
    url.append(hash.as_str());
    url
}

/// A question for one blob, by the address to ask at.
#[derive(Debug, PartialEq, Eq)]
pub enum BlobRequest {
    /// All blobs of the slot, from a beacon node.
    Beacon(String),
    /// The one blob, from Blobscan.
    Blobscan(String),
}

/// How to ask for the blob of a hash: at Blobscan by the hash, elsewhere by the slot.
pub fn get_and_filter_blob_data(beacon_rpc_url: &str, block_id: u64, blob_hash: &B256) -> (r:
    BlobRequest)
    ensures
        match r {
            BlobRequest::Blobscan(url) => is_blobscan(beacon_rpc_url@) && url@
                == blobscan_url_chars(beacon_rpc_url@, *blob_hash),
            BlobRequest::Beacon(url) => !is_blobscan(beacon_rpc_url@) && url@ == beacon_url_chars(
                beacon_rpc_url@,
                block_id,
            ),
        },
{
    if contains(beacon_rpc_url, "blobscan.com") {
        BlobRequest::Blobscan(blobscan_url(beacon_rpc_url, blob_hash))
    } else {
        BlobRequest::Beacon(beacon_url(beacon_rpc_url, block_id))
    }
}

/// How to ask for all blobs of a slot. Blobscan does not serve them by slot.
pub fn get_blob_data(beacon_rpc_url: &str, block_id: u64) -> (r: Result<String, PreflightError>)
    ensures
        match r {
            Ok(url) => !is_blobscan(beacon_rpc_url@) && url@ == beacon_url_chars(
                beacon_rpc_url@,
                block_id,
            ),
            Err(e) => is_blobscan(beacon_rpc_url@) && e == PreflightError::BlobscanUnsupported,
        },
{
    if contains(beacon_rpc_url, "blobscan.com") {
        Err(PreflightError::BlobscanUnsupported)
    } else {
        Ok(beacon_url(beacon_rpc_url, block_id))
    }
}

/// `r` is how to ask for the blob of a hash that was posted at a time. A time without a slot fails
/// before a missing address does.
pub open spec fn blob_asked(
    blob_hash: B256,
    timestamp: u64,
    chain_spec: ChainSpec,
    r: Result<BlobRequest, PreflightError>,
) -> bool {
    match slot_result(timestamp, chain_spec.genesis_time, chain_spec.seconds_per_slot) {
        Err(e) => r == Err::<BlobRequest, _>(e),
        Ok(slot) => match chain_spec.beacon_rpc {
            None => r == Err::<BlobRequest, _>(PreflightError::NoBeaconRpc),
            Some(rpc) => match r {
                Err(_) => false,
                Ok(BlobRequest::Blobscan(url)) => is_blobscan(rpc@) && url@ == blobscan_url_chars(
                    rpc@,
                    blob_hash,
                ),
                Ok(BlobRequest::Beacon(url)) => !is_blobscan(rpc@) && url@ == beacon_url_chars(
                    rpc@,
                    slot,
                ),
            },
        },
    }
}

/// How to ask for the blob of a hash that was posted at a time.
pub fn get_tx_blob(blob_hash: &B256, timestamp: u64, chain_spec: &ChainSpec) -> (r: Result<
    BlobRequest,
    PreflightError,
>)
    requires
        slot_defined(timestamp, chain_spec.genesis_time, chain_spec.seconds_per_slot),
    ensures
        blob_asked(*blob_hash, timestamp, *chain_spec, r),
{
    match block_time_to_block_slot(
        timestamp,
        chain_spec.genesis_time,
        chain_spec.seconds_per_slot,
    ) {
        Err(e) => Err(e),
        Ok(slot) => match &chain_spec.beacon_rpc {
            None => Err(PreflightError::NoBeaconRpc),
            Some(rpc) => Ok(get_and_filter_blob_data(rpc.as_str(), slot, blob_hash)),
        },
    }
}

/// `r` is how to ask for the blobs of a batch that were posted at a time. A missing address fails
/// before a time without a slot does.
pub open spec fn blobs_asked(
    timestamp: u64,
    chain_spec: ChainSpec,
    r: Result<String, PreflightError>,
) -> bool {
    match chain_spec.beacon_rpc {
        None => r == Err::<String, _>(PreflightError::NoBeaconRpc),
        Some(rpc) => match slot_result(
            timestamp,
            chain_spec.genesis_time,
            chain_spec.seconds_per_slot,
        ) {
            Err(e) => r == Err::<String, _>(e),
            Ok(slot) => match r {
                Err(e) => is_blobscan(rpc@) && e == PreflightError::BlobscanUnsupported,
                Ok(url) => !is_blobscan(rpc@) && url@ == beacon_url_chars(rpc@, slot),
            },
        },
    }
}

/// How to ask for the blobs of a batch that were posted at a time.
pub fn get_batch_blobs(timestamp: u64, chain_spec: &ChainSpec) -> (r: Result<
    String,
    PreflightError,
>)
    requires
        chain_spec.beacon_rpc is Some ==> slot_defined(
            timestamp,
            chain_spec.genesis_time,
            chain_spec.seconds_per_slot,
        ),
    ensures
        blobs_asked(timestamp, *chain_spec, r),
{
    match &chain_spec.beacon_rpc {
        None => Err(PreflightError::NoBeaconRpc),
        Some(rpc) => match block_time_to_block_slot(
            timestamp,
            chain_spec.genesis_time,
            chain_spec.seconds_per_slot,
        ) {
            Err(e) => Err(e),
            Ok(slot) => get_blob_data(rpc.as_str(), slot),
        },
    }
}

/// The status of an answer: its code, and the code with its reason in words.
#[derive(Debug, PartialEq, Eq)]
pub struct HttpStatus {
    pub code: u16,
    pub text: String,
}

/// `r` is whether the request was successful, else its failure.
pub open spec fn status_checked(status: HttpStatus, r: Result<(), PreflightError>) -> bool {
    if 200 <= status.code < 300 {
        r is Ok
    } else {
        r == Err::<(), _>(PreflightError::RequestFailed(status.text))
    }
}

/// Whether the request was successful, else its failure.
pub fn check_status(status: HttpStatus) -> (r: Result<(), PreflightError>)
    ensures
        status_checked(status, r),
        200 <= status.code < 300 ==> r is Ok,
        !(200 <= status.code < 300) ==> r == Err::<(), _>(
            PreflightError::RequestFailed(status.text),
        ),
{
    if 200 <= status.code && status.code < 300 {
        Ok(())
    } else {
        Err(PreflightError::RequestFailed(status.text))
    }
}

/// One blob, as a beacon node serves it.
#[derive(Debug, PartialEq, Eq)]
pub struct GetBlobData {
    pub index: String,
    pub blob: String,
    pub kzg_commitment: String,
    pub kzg_proof: String,
}

/// The blobs of a slot, as a beacon node serves them.
#[derive(Debug, PartialEq, Eq)]
pub struct GetBlobsResponse {
    pub data: Vec<GetBlobData>,
}

/// One blob, as Blobscan serves it.
#[derive(Debug, PartialEq, Eq)]
pub struct BlobScanData {
    pub commitment: String,
    pub data: String,
}

/// The texts of the blobs.
pub open spec fn texts_of(data: Seq<GetBlobData>) -> Seq<String> {
    data.map_values(|b: GetBlobData| b.blob)
}

/// The texts of the blobs, where there are any.
pub fn get_blob_data_beacon(blobs: GetBlobsResponse) -> (r: Result<Vec<String>, PreflightError>)
    ensures
        match r {
            Ok(texts) => {
                &&& blobs.data@.len() > 0
                &&& texts@ == texts_of(blobs.data@)
            },
            Err(e) => blobs.data@.len() == 0 && e == PreflightError::NoBlobData,
        },
{
    if blobs.data.is_empty() {
        return Err(PreflightError::NoBlobData);
    }
    let mut texts: Vec<String> = Vec::new();
    let mut i: usize = 0;
    while i < blobs.data.len()
        invariant
            i <= blobs.data@.len(),
            texts@.len() == i,
            forall|j: int| 0 <= j < i ==> #[trigger] texts@[j] == blobs.data@[j].blob,
        decreases blobs.data@.len() - i,
    {
        texts.push(blobs.data[i].blob.clone());
        i += 1;
    }
    assert(texts@ =~= texts_of(blobs.data@));
    Ok(texts)
}

/// `r` can be the blob of a hash, out of the answer of a beacon node. An empty answer fails as such;
/// else the blobs are looked at in order, up to the first of that hash.
pub open spec fn found_in_answer<C, V, K, Q, P>(
    kzg: Kzg<C, V, K, Q, P>,
    answer: Seq<GetBlobData>,
    blob_hash: B256,
    r: Result<Vec<u8>, PreflightError>,
) -> bool where C: Fn(&Vec<u8>) -> Result<Vec<u8>, CommitFault>, V: Fn(&Vec<u8>) -> B256 {
    if answer.len() == 0 {
        r == Err::<Vec<u8>, _>(PreflightError::NoBlobData)
    } else {
        kzg.found(texts_of(answer), blob_hash, r)
    }
}

/// The bytes of the blob of the given hash, out of the answer of a beacon node.
pub fn get_and_filter_blob_data_beacon<C, V, K, Q, P>(
    blobs: GetBlobsResponse,
    blob_hash: &B256,
    kzg: &Kzg<C, V, K, Q, P>,
) -> (r: Result<Vec<u8>, PreflightError>) where
    C: Fn(&Vec<u8>) -> Result<Vec<u8>, CommitFault>,
    V: Fn(&Vec<u8>) -> B256,

    requires
        kzg.can_hash(),
    ensures
        found_in_answer(*kzg, blobs.data@, *blob_hash, r),
{
    match get_blob_data_beacon(blobs) {
        Err(e) => Err(e),
        Ok(texts) => filter_blob_data_beacon(&texts, blob_hash, kzg),
    }
}

/// The bytes of the blob that Blobscan served.
pub fn get_and_filter_blob_data_by_blobscan(blob: &BlobScanData) -> (r: Vec<u8>)
    ensures
        r@ == or_empty(blob_decoded(blob.data@)),
        is_ascii_chars(blob.data@) ==> r@ == or_empty(digits_decoded(ascii_lowered(blob.data@))),
{
    blob_to_bytes(blob.data.as_str())
}

/// The answer to a question for one blob.
#[derive(Debug, PartialEq, Eq)]
pub enum BlobReply {
    /// All blobs of the slot, from a beacon node.
    Beacon(GetBlobsResponse),
    /// The one blob, from Blobscan.
    Blobscan(BlobScanData),
}

/// `r` can be the blob that was asked for, with what vouches for it. Blobscan is believed that the
/// blob it sends is the one of the hash.
pub open spec fn received<E, C, V, K, Q, P>(
    kzg: Kzg<C, V, K, Q, P>,
    reply: BlobReply,
    blob_hash: B256,
    blob_proof_type: BlobProofType,
    r: Result<TxData, Failure<E>>,
) -> bool where
    C: Fn(&Vec<u8>) -> Result<Vec<u8>, CommitFault>,
    V: Fn(&Vec<u8>) -> B256,
    K: Fn(&Vec<u8>) -> Result<Vec<u8>, E>,
    Q: Fn(&Vec<u8>, &B256) -> Result<(B256, B256), E>,
    P: Fn(&Vec<u8>, &B256) -> Result<Vec<u8>, E>,
 {
    match reply {
        BlobReply::Beacon(blobs) => if blobs.data@.len() == 0 {
            r == Err::<TxData, _>(Failure::<E>::Preflight(PreflightError::NoBlobData))
        } else {
            kzg.found_with_proof(texts_of(blobs.data@), blob_hash, blob_proof_type, r)
        },
        BlobReply::Blobscan(answer) => exists|blob: Vec<u8>, v: Result<TxData, E>|
            blob@ == or_empty(blob_decoded(answer.data@)) && (is_ascii_chars(answer.data@) ==> blob@
                == or_empty(digits_decoded(ascii_lowered(answer.data@)))) && #[trigger] kzg.vouched(
                blob,
                blob_proof_type,
                v,
            ) && match v {
                Err(e) => r == Err::<TxData, _>(Failure::Outside(e)),
                Ok(data) => r == Ok::<_, Failure<E>>(data),
            },
    }
}

/// The blob that was asked for, with what vouches for it.
pub fn receive_tx_blob<E, C, V, K, Q, P>(
    reply: BlobReply,
    blob_hash: &B256,
    blob_proof_type: BlobProofType,
    kzg: &Kzg<C, V, K, Q, P>,
) -> (r: Result<TxData, Failure<E>>) where
    C: Fn(&Vec<u8>) -> Result<Vec<u8>, CommitFault>,
    V: Fn(&Vec<u8>) -> B256,
    K: Fn(&Vec<u8>) -> Result<Vec<u8>, E>,
    Q: Fn(&Vec<u8>, &B256) -> Result<(B256, B256), E>,
    P: Fn(&Vec<u8>, &B256) -> Result<Vec<u8>, E>,

    requires
        kzg.can_hash(),
        kzg.can_prove(),
    ensures
        received(*kzg, reply, *blob_hash, blob_proof_type, r),
{
    let blob: Vec<u8> = match reply {
        BlobReply::Beacon(blobs) => match get_and_filter_blob_data_beacon(blobs, blob_hash, kzg) {
            Err(e) => {
                return Err(Failure::Preflight(e));
            },
            Ok(blob) => blob,
        },
        BlobReply::Blobscan(answer) => get_and_filter_blob_data_by_blobscan(&answer),
    };
    match blob_with_proof(blob, blob_proof_type, kzg) {
        Err(e) => Err(Failure::Outside(e)),
        Ok(data) => Ok(data),
    }
}

/// `r` can be the blobs of a batch, out of the answer of a beacon node. An empty answer fails as
/// such.
pub open spec fn batch_received<E, C, V, K, Q, P>(
    kzg: Kzg<C, V, K, Q, P>,
    answer: Seq<GetBlobData>,
    blob_hashes: Seq<B256>,
    blob_proof_type: BlobProofType,
    r: Result<Vec<TxData>, Failure<E>>,
) -> bool where
    C: Fn(&Vec<u8>) -> Result<Vec<u8>, CommitFault>,
    V: Fn(&Vec<u8>) -> B256,
    K: Fn(&Vec<u8>) -> Result<Vec<u8>, E>,
    Q: Fn(&Vec<u8>, &B256) -> Result<(B256, B256), E>,
    P: Fn(&Vec<u8>, &B256) -> Result<Vec<u8>, E>,
 {
    if answer.len() == 0 {
        r == Err::<Vec<TxData>, _>(Failure::<E>::Preflight(PreflightError::NoBlobData))
    } else {
        kzg.all_found(blob_hashes, texts_of(answer), blob_proof_type, r)
    }
}

/// The blobs of a batch, out of the answer of a beacon node, each with what vouches for it.
pub fn receive_batch_blobs<E, C, V, K, Q, P>(
    blobs: GetBlobsResponse,
    blob_hashes: &Vec<B256>,
    blob_proof_type: BlobProofType,
    kzg: &Kzg<C, V, K, Q, P>,
) -> (r: Result<Vec<TxData>, Failure<E>>) where
    C: Fn(&Vec<u8>) -> Result<Vec<u8>, CommitFault>,
    V: Fn(&Vec<u8>) -> B256,
    K: Fn(&Vec<u8>) -> Result<Vec<u8>, E>,
    Q: Fn(&Vec<u8>, &B256) -> Result<(B256, B256), E>,
    P: Fn(&Vec<u8>, &B256) -> Result<Vec<u8>, E>,

    requires
        kzg.can_hash(),
        kzg.can_prove(),
    ensures
        batch_received(*kzg, blobs.data@, blob_hashes@, blob_proof_type, r),
{
    match get_blob_data_beacon(blobs) {
        Err(e) => Err(Failure::Preflight(e)),
        Ok(texts) => get_batch_tx_data_with_proofs(blob_hashes, &texts, blob_proof_type, kzg),
    }
}

/// A beacon node is asked for a batch of blobs as it is for one of them: at the same address, or
/// with the same failure.
pub proof fn law_batch_is_asked_for_like_one_blob(
    blob_hash: B256,
    timestamp: u64,
    chain_spec: ChainSpec,
    single: Result<BlobRequest, PreflightError>,
    batch: Result<String, PreflightError>,
)
    requires
        chain_spec.beacon_rpc is Some,
        !is_blobscan(chain_spec.beacon_rpc->0@),
        blob_asked(blob_hash, timestamp, chain_spec, single),
        blobs_asked(timestamp, chain_spec, batch),
    ensures
        match (single, batch) {
            (Ok(BlobRequest::Beacon(a)), Ok(b)) => a@ == b@,
            (Err(a), Err(b)) => a == b,
            _ => false,
        },
{
}

/// A batch of one blob is that blob: out of the same answer of a beacon node, with hashing and
/// vouching that are functions, come the same data or the same failure.
pub proof fn law_batch_of_one_hash_is_the_single_blob<E, C, V, K, Q, P>(
    kzg: Kzg<C, V, K, Q, P>,
    answer: GetBlobsResponse,
    blob_hash: B256,
    blob_proof_type: BlobProofType,
    single: Result<TxData, Failure<E>>,
    batch: Result<Vec<TxData>, Failure<E>>,
) where
    C: Fn(&Vec<u8>) -> Result<Vec<u8>, CommitFault>,
    V: Fn(&Vec<u8>) -> B256,
    K: Fn(&Vec<u8>) -> Result<Vec<u8>, E>,
    Q: Fn(&Vec<u8>, &B256) -> Result<(B256, B256), E>,
    P: Fn(&Vec<u8>, &B256) -> Result<Vec<u8>, E>,

    requires
        kzg.hashing_is_a_function(),
        kzg.vouching_is_a_function(),
        received(kzg, BlobReply::Beacon(answer), blob_hash, blob_proof_type, single),
        batch_received(kzg, answer.data@, seq![blob_hash], blob_proof_type, batch),
    ensures
        match (single, batch) {
            (Ok(one), Ok(all)) => all@.len() == 1 && same_data(all@[0], one),
            (Err(a), Err(b)) => a == b,
            _ => false,
        },
{
    if answer.data@.len() > 0 {
        law_batch_gives_what_each_hash_gives(
            kzg,
            seq![blob_hash],
            texts_of(answer.data@),
            blob_proof_type,
            batch,
            0,
            single,
        );
    }
}

/// A blob is recognised in the answer of a beacon node by its text alone: where hashing is a
/// function, an answer with blobs in it gives what the search through their texts gives, whatever
/// commitments, proofs and indices were served along with them.
pub proof fn law_answer_is_searched_by_its_blobs<C, V, K, Q, P>(
    kzg: Kzg<C, V, K, Q, P>,
    answer: Seq<GetBlobData>,
    blobs: Seq<String>,
    blob_hash: B256,
    r: Result<Vec<u8>, PreflightError>,
    s: Result<Vec<u8>, PreflightError>,
) where C: Fn(&Vec<u8>) -> Result<Vec<u8>, CommitFault>, V: Fn(&Vec<u8>) -> B256
    requires
        kzg.hashing_is_a_function(),
        same_texts(texts_of(answer), blobs),
        found_in_answer(kzg, answer, blob_hash, r),
        kzg.found(blobs, blob_hash, s),
    ensures
        answer.len() == 0 ==> r == Err::<Vec<u8>, _>(PreflightError::NoBlobData),
        answer.len() > 0 ==> same_outcome(r, s),
{
    if answer.len() > 0 {
        law_search_has_one_outcome(kzg, texts_of(answer), blobs, blob_hash, r, s);
    }
}

/// Slashes at the end of an address make no difference to what is asked for.
pub proof fn law_trailing_slash_makes_no_difference(
    beacon_rpc_url: Seq<char>,
    block_id: u64,
    blob_hash: B256,
)
    ensures
        beacon_url_chars(beacon_rpc_url.push('/'), block_id) == beacon_url_chars(
            beacon_rpc_url,
            block_id,
        ),
        blobscan_url_chars(beacon_rpc_url.push('/'), blob_hash) == blobscan_url_chars(
            beacon_rpc_url,
            blob_hash,
        ),
{
    assert(beacon_rpc_url.push('/').drop_last() =~= beacon_rpc_url);
}

/// Each slot is asked for at an address of its own.
pub proof fn law_slots_have_addresses_of_their_own(
    beacon_rpc_url: Seq<char>,
    block_id: u64,
    other_id: u64,
)
    requires
        beacon_url_chars(beacon_rpc_url, block_id) == beacon_url_chars(beacon_rpc_url, other_id),
    ensures
        block_id == other_id,
{
    let front = without_trailing_slashes(beacon_rpc_url) + "/eth/v1/beacon/blob_sidecars/"@;
    assert((front + decimal(block_id as nat)).skip(front.len() as int) =~= decimal(block_id as nat));
    assert((front + decimal(other_id as nat)).skip(front.len() as int) =~= decimal(other_id as nat));
    lemma_decimal_is_injective(block_id as nat, other_id as nat);
}

/// Blobscan is told by its name anywhere in the address.
pub proof fn law_blobscan_is_told_by_its_name(beacon_rpc_url: Seq<char>)
    ensures
        is_blobscan(beacon_rpc_url) <==> exists|before: Seq<char>, after: Seq<char>| beacon_rpc_url
            == #[trigger] (before + "blobscan.com"@ + after),
{
    law_text_stands_between_what_is_around_it(beacon_rpc_url, "blobscan.com"@);
}

/// An address is put together from the address of the node as far as it does not end with a slash,
/// a fixed path, and the number of the slot in decimal or the hash in print.
pub proof fn law_address_is_put_together_from_its_parts(
    beacon_rpc_url: Seq<char>,
    block_id: u64,
    blob_hash: B256,
)
    requires
        beacon_rpc_url.len() > 0 ==> beacon_rpc_url.last() != '/',
    ensures
        beacon_url_chars(beacon_rpc_url, block_id) == beacon_rpc_url
            + "/eth/v1/beacon/blob_sidecars/"@ + decimal(block_id as nat),
        blobscan_url_chars(beacon_rpc_url, blob_hash) == beacon_rpc_url + "/blobs/"@ + seq![
            '0',
            'x',
        ] + hex_encoded(blob_hash@),
{
    assert(beacon_rpc_url + "/blobs/"@ + (seq!['0', 'x'] + hex_encoded(blob_hash@))
        =~= beacon_rpc_url + "/blobs/"@ + seq!['0', 'x'] + hex_encoded(blob_hash@));
}

/// One blob is asked for at Blobscan by its hash, at any other address by the slot in which its
/// time lies. A genesis that is not set or lies after that time fails first, and then a missing
/// address; nothing else fails.
pub proof fn law_blob_is_asked_for_by_the_slot_of_its_time(
    blob_hash: B256,
    timestamp: u64,
    chain_spec: ChainSpec,
    r: Result<BlobRequest, PreflightError>,
)
    requires
        chain_spec.seconds_per_slot > 0,
        blob_asked(blob_hash, timestamp, chain_spec, r),
    ensures
        r == Err::<BlobRequest, _>(PreflightError::GenesisTimeZero) <==> chain_spec.genesis_time
            == 0,
        r == Err::<BlobRequest, _>(PreflightError::BlockTimeBeforeGenesis) <==> timestamp
            < chain_spec.genesis_time,
        r == Err::<BlobRequest, _>(PreflightError::NoBeaconRpc) <==> 0 < chain_spec.genesis_time
            <= timestamp && chain_spec.beacon_rpc is None,
        r is Ok <==> 0 < chain_spec.genesis_time <= timestamp && chain_spec.beacon_rpc is Some,
        r matches Ok(request) ==> (request is Blobscan <==> is_blobscan(chain_spec.beacon_rpc->0@)),
        r matches Ok(BlobRequest::Blobscan(url)) ==> url@ == blobscan_url_chars(
            chain_spec.beacon_rpc->0@,
            blob_hash,
        ),
        r matches Ok(BlobRequest::Beacon(url)) ==> exists|slot: u64|
            {
                &&& chain_spec.genesis_time + slot * chain_spec.seconds_per_slot <= timestamp
                &&& timestamp < chain_spec.genesis_time + (slot + 1) * chain_spec.seconds_per_slot
                &&& url@ == #[trigger] beacon_url_chars(chain_spec.beacon_rpc->0@, slot)
            },
{
    law_slot_is_owed_from_genesis_on(
        timestamp,
        chain_spec.genesis_time,
        chain_spec.seconds_per_slot,
    );
}

/// The blobs of a batch are asked for by the slot in which their time lies. A missing address fails
/// first, then a genesis that is not set or lies after that time, then Blobscan, which does not
/// serve them by slot; nothing else fails.
pub proof fn law_batch_is_asked_for_by_the_slot_of_its_time(
    timestamp: u64,
    chain_spec: ChainSpec,
    r: Result<String, PreflightError>,
)
    requires
        chain_spec.seconds_per_slot > 0,
        blobs_asked(timestamp, chain_spec, r),
    ensures
        r == Err::<String, _>(PreflightError::NoBeaconRpc) <==> chain_spec.beacon_rpc is None,
        r == Err::<String, _>(PreflightError::GenesisTimeZero) <==> chain_spec.beacon_rpc is Some
            && chain_spec.genesis_time == 0,
        r == Err::<String, _>(PreflightError::BlockTimeBeforeGenesis) <==> chain_spec.beacon_rpc
            is Some && timestamp < chain_spec.genesis_time,
        r == Err::<String, _>(PreflightError::BlobscanUnsupported) <==> chain_spec.beacon_rpc
            is Some && 0 < chain_spec.genesis_time <= timestamp && is_blobscan(
            chain_spec.beacon_rpc->0@,
        ),
        r is Ok <==> chain_spec.beacon_rpc is Some && 0 < chain_spec.genesis_time <= timestamp
            && !is_blobscan(chain_spec.beacon_rpc->0@),
        r matches Ok(url) ==> exists|slot: u64|
            {
                &&& chain_spec.genesis_time + slot * chain_spec.seconds_per_slot <= timestamp
                &&& timestamp < chain_spec.genesis_time + (slot + 1) * chain_spec.seconds_per_slot
                &&& url@ == #[trigger] beacon_url_chars(chain_spec.beacon_rpc->0@, slot)
            },
{
    law_slot_is_owed_from_genesis_on(
        timestamp,
        chain_spec.genesis_time,
        chain_spec.seconds_per_slot,
    );
}

/// Texts of blobs stand in the order in which the blobs were served.
pub proof fn law_texts_stand_where_their_blobs_do(data: Seq<GetBlobData>, i: int)
    requires
        0 <= i < data.len(),
    ensures
        texts_of(data).len() == data.len(),
        texts_of(data)[i] == data[i].blob,
{
}

/// Out of the answer of a beacon node comes what the search through its texts gives; an answer
/// without blobs is a failure of its own.
pub proof fn law_answer_gives_what_its_texts_give<C, V, K, Q, P>(
    kzg: Kzg<C, V, K, Q, P>,
    answer: Seq<GetBlobData>,
    blob_hash: B256,
    r: Result<Vec<u8>, PreflightError>,
) where C: Fn(&Vec<u8>) -> Result<Vec<u8>, CommitFault>, V: Fn(&Vec<u8>) -> B256
    requires
        found_in_answer(kzg, answer, blob_hash, r),
    ensures
        answer.len() == 0 ==> r == Err::<Vec<u8>, _>(PreflightError::NoBlobData),
        answer.len() > 0 ==> kzg.found(texts_of(answer), blob_hash, r),
{
}

/// Whoever serves it, a blob that is received comes with the commitment of its bytes, and with the
/// proof for the opening of these bytes at the point that they and the versioned hash of that
/// commitment give, exactly where such a proof is asked for.
pub proof fn law_received_blob_is_vouched_for<E, C, V, K, Q, P>(
    kzg: Kzg<C, V, K, Q, P>,
    reply: BlobReply,
    blob_hash: B256,
    blob_proof_type: BlobProofType,
    made: TxData,
) where
    C: Fn(&Vec<u8>) -> Result<Vec<u8>, CommitFault>,
    V: Fn(&Vec<u8>) -> B256,
    K: Fn(&Vec<u8>) -> Result<Vec<u8>, E>,
    Q: Fn(&Vec<u8>, &B256) -> Result<(B256, B256), E>,
    P: Fn(&Vec<u8>, &B256) -> Result<Vec<u8>, E>,

    requires
        received(kzg, reply, blob_hash, blob_proof_type, Ok(made)),
    ensures
        made.commitment matches Some(commitment) && call_ensures(
            kzg.commitment,
            (&made.data,),
            Ok(commitment),
        ),
        made.blob_proof is Some <==> blob_proof_type == BlobProofType::ProofOfEquivalence,
        blob_proof_type == BlobProofType::ProofOfEquivalence ==> exists|
            hash: B256,
            x: B256,
            y: B256,
        |
            {
                &&& call_ensures(kzg.version_hash, (&made.commitment->0,), hash)
                &&& #[trigger] call_ensures(kzg.equivalence, (&made.data, &hash), Ok((x, y)))
                &&& made.blob_proof matches Some(p) && call_ensures(
                    kzg.prove,
                    (&made.data, &x),
                    Ok(p),
                )
            },
{
    match reply {
        BlobReply::Beacon(blobs) => {
            law_blob_of_a_hash_is_searched_and_vouched_for(
                kzg,
                texts_of(blobs.data@),
                blob_hash,
                blob_proof_type,
                Ok(made),
            );
            law_proof_is_for_the_point_of_the_blob(kzg, made.data, blob_proof_type, made);
        },
        BlobReply::Blobscan(answer) => {
            let blob = choose|blob: Vec<u8>| #[trigger]
                kzg.vouched(blob, blob_proof_type, Ok(made));
            law_proof_is_for_the_point_of_the_blob(kzg, blob, blob_proof_type, made);
        },
    }
}

/// The bytes that are received are those of a blob that a beacon node served and that has the hash,
/// or those that the text from Blobscan spells.
pub proof fn law_received_bytes_are_those_that_were_served<E, C, V, K, Q, P>(
    kzg: Kzg<C, V, K, Q, P>,
    reply: BlobReply,
    blob_hash: B256,
    blob_proof_type: BlobProofType,
    made: TxData,
) where
    C: Fn(&Vec<u8>) -> Result<Vec<u8>, CommitFault>,
    V: Fn(&Vec<u8>) -> B256,
    K: Fn(&Vec<u8>) -> Result<Vec<u8>, E>,
    Q: Fn(&Vec<u8>, &B256) -> Result<(B256, B256), E>,
    P: Fn(&Vec<u8>, &B256) -> Result<Vec<u8>, E>,

    requires
        received(kzg, reply, blob_hash, blob_proof_type, Ok(made)),
    ensures
        match reply {
            BlobReply::Beacon(blobs) => exists|i: int|
                {
                    &&& 0 <= i < blobs.data@.len()
                    &&& kzg.text_hashed((#[trigger] blobs.data@[i]).blob@, Ok(blob_hash))
                    &&& blob_decoded(blobs.data@[i].blob@) == Some(made.data@)
                },
            BlobReply::Blobscan(answer) => {
                &&& made.data@ == or_empty(blob_decoded(answer.data@))
                &&& is_ascii_chars(answer.data@) ==> made.data@ == or_empty(
                    digits_decoded(ascii_lowered(answer.data@)),
                )
            },
        },
{
    match reply {
        BlobReply::Beacon(blobs) => {
            let texts = texts_of(blobs.data@);
            law_tx_data_is_of_the_wanted_blob(kzg, texts, blob_hash, blob_proof_type, made);
            let i = choose|i: int|
                0 <= i < texts.len() && #[trigger] kzg.text_hashed(texts[i]@, Ok(blob_hash))
                    && text_decoded(texts[i]@, made.data@);
            assert(texts[i] == blobs.data@[i].blob);
        },
        BlobReply::Blobscan(answer) => {
            let blob = choose|blob: Vec<u8>|
                blob@ == or_empty(blob_decoded(answer.data@)) && (is_ascii_chars(answer.data@)
                    ==> blob@ == or_empty(digits_decoded(ascii_lowered(answer.data@))))
                    && #[trigger] kzg.vouched(blob, blob_proof_type, Ok(made));
            law_proof_is_for_the_point_of_the_blob(kzg, blob, blob_proof_type, made);
        },
    }
}

/// A blob is not received only where a beacon node served none, where the search among those that
/// it served fails, or where a computation fails. What comes from Blobscan is not searched.
pub proof fn law_blob_is_refused_only_for_cause<E, C, V, K, Q, P>(
    kzg: Kzg<C, V, K, Q, P>,
    reply: BlobReply,
    blob_hash: B256,
    blob_proof_type: BlobProofType,
    failure: Failure<E>,
) where
    C: Fn(&Vec<u8>) -> Result<Vec<u8>, CommitFault>,
    V: Fn(&Vec<u8>) -> B256,
    K: Fn(&Vec<u8>) -> Result<Vec<u8>, E>,
    Q: Fn(&Vec<u8>, &B256) -> Result<(B256, B256), E>,
    P: Fn(&Vec<u8>, &B256) -> Result<Vec<u8>, E>,

    requires
        received(kzg, reply, blob_hash, blob_proof_type, Err(failure)),
    ensures
        failure is Preflight ==> reply is Beacon,
        reply matches BlobReply::Beacon(blobs) ==> blobs.data@.len() == 0 ==> failure == Failure::<
            E,
        >::Preflight(PreflightError::NoBlobData),
        (reply, failure) matches (BlobReply::Beacon(blobs), Failure::Preflight(e)) ==> blobs.data@.len()
            > 0 ==> kzg.found(texts_of(blobs.data@), blob_hash, Err(e)),
        failure matches Failure::Outside(e) ==> exists|blob: Vec<u8>|
            {
                &&& #[trigger] kzg.vouched(blob, blob_proof_type, Err(e))
                &&& match reply {
                    BlobReply::Beacon(blobs) => blobs.data@.len() > 0 && kzg.found(
                        texts_of(blobs.data@),
                        blob_hash,
                        Ok(blob),
                    ),
                    BlobReply::Blobscan(answer) => blob@ == or_empty(blob_decoded(answer.data@)),
                }
            },
        !(failure is BatchBlock),
{
    match reply {
        BlobReply::Beacon(blobs) => {
            if blobs.data@.len() > 0 {
                let r = Err::<TxData, _>(failure);
                law_blob_of_a_hash_is_searched_and_vouched_for(
                    kzg,
                    texts_of(blobs.data@),
                    blob_hash,
                    blob_proof_type,
                    r,
                );
                if failure is Outside {
                    let e = r->Err_0->Outside_0;
                    let blob = choose|blob: Vec<u8>|
                        kzg.found(texts_of(blobs.data@), blob_hash, Ok(blob))
                            && #[trigger] kzg.vouched(blob, blob_proof_type, Err(e));
                    assert(kzg.found(texts_of(blobs.data@), blob_hash, Ok(blob)));
                    assert(kzg.vouched(blob, blob_proof_type, Err(failure->Outside_0)));
                }
            }
        },
        BlobReply::Blobscan(answer) => {
            let (blob, v) = choose|blob: Vec<u8>, v: Result<TxData, E>|
                blob@ == or_empty(blob_decoded(answer.data@)) && #[trigger] kzg.vouched(
                    blob,
                    blob_proof_type,
                    v,
                ) && v is Err && failure == Failure::Outside(v->Err_0);
            assert(v == Err::<TxData, E>(failure->Outside_0));
            assert(kzg.vouched(blob, blob_proof_type, Err(failure->Outside_0)));
        },
    }
}

/// The blobs of a batch are those that its hashes give out of the answer, one for each hash and in
/// their order; an answer without blobs is a failure of its own.
pub proof fn law_batch_answer_gives_each_hash_its_blob<E, C, V, K, Q, P>(
    kzg: Kzg<C, V, K, Q, P>,
    answer: GetBlobsResponse,
    blob_hashes: Seq<B256>,
    blob_proof_type: BlobProofType,
    r: Result<Vec<TxData>, Failure<E>>,
) where
    C: Fn(&Vec<u8>) -> Result<Vec<u8>, CommitFault>,
    V: Fn(&Vec<u8>) -> B256,
    K: Fn(&Vec<u8>) -> Result<Vec<u8>, E>,
    Q: Fn(&Vec<u8>, &B256) -> Result<(B256, B256), E>,
    P: Fn(&Vec<u8>, &B256) -> Result<Vec<u8>, E>,

    requires
        batch_received(kzg, answer.data@, blob_hashes, blob_proof_type, r),
    ensures
        answer.data@.len() == 0 ==> r == Err::<Vec<TxData>, _>(
            Failure::<E>::Preflight(PreflightError::NoBlobData),
        ),
        r matches Ok(all) ==> all@.len() == blob_hashes.len() && forall|i: int|
            0 <= i < blob_hashes.len() ==> received(
                kzg,
                BlobReply::Beacon(answer),
                blob_hashes[i],
                blob_proof_type,
                Ok(#[trigger] all@[i]),
            ),
        answer.data@.len() > 0 && r is Err ==> exists|k: int|
            0 <= k < blob_hashes.len() && received(
                kzg,
                BlobReply::Beacon(answer),
                #[trigger] blob_hashes[k],
                blob_proof_type,
                Err(r->Err_0),
            ),
{
    if answer.data@.len() > 0 {
        law_batch_goes_hash_by_hash(kzg, blob_hashes, texts_of(answer.data@), blob_proof_type, r);
        if let Ok(all) = r {
            assert forall|i: int| 0 <= i < blob_hashes.len() implies received(
                kzg,
                BlobReply::Beacon(answer),
                blob_hashes[i],
                blob_proof_type,
                Ok(#[trigger] all@[i]),
            ) by {
                assert(kzg.found_with_proof(
                    texts_of(answer.data@),
                    blob_hashes[i],
                    blob_proof_type,
                    Ok(all@[i]),
                ));
            }
        }
    }
}

/// A request was successful exactly where its code is one of the two hundreds; else the failure
/// tells the code and its reason as they came.
pub proof fn law_success_is_a_code_of_the_two_hundreds(
    status: HttpStatus,
    r: Result<(), PreflightError>,
)
    requires
        status_checked(status, r),
    ensures
        r is Ok <==> status.code / 100 == 2,
        r matches Err(e) ==> (e matches PreflightError::RequestFailed(told) && told == status.text),
{
}

} // verus!
