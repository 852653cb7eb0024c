//! Why a preflight fails, and the words for it.
use vstd::prelude::*;
use crate::outside::hash_text;
use crate::text::{
    decimal, hex_decoded, hex_encoded, law_one_prefix_makes_no_difference,
    lemma_pairs_give_back_their_bytes, pairs_decoded, push_decimal,
};
use crate::types::B256;

verus! {

/// How a failure reaches the caller.
#[derive(Clone, Copy, Debug, PartialEq, Eq, Structural)]
pub enum ErrorKind {
    /// As an error of the preflight stage.
    Preflight,
    /// As an error of converting a block.
    Conversion,
    /// As an error without a kind of its own.
    Anyhow,
    /// As a broken assertion: the caller stops with a panic.
    Panic,
}

/// Why a preflight fails.
#[derive(Debug, PartialEq, Eq)]
pub enum PreflightError {
    NoDb,
    ExecutionFailed(String),
    NoAnchorTx,
    PacayaSingleBlock,
    NoL1StateBlockHash,
    NoL1InclusionBlockHash,
    ProposeBlockCallUndecodable,
    ProposeBatchCallUndecodable,
    NotPacayaProposal,
    NoBeaconRpc,
    NoBlockData,
    NoParentBlockData,
    BlockNotConverted(String),
    NoAnchorTxInBatch,
    NotPacayaBatch,
    NoL1Contract,
    LogNotCreated,
    LogNotDecoded,
    NoTransactionHash,
    NoProposalEvent(u64),
    NoCalldataEvent(u64),
    GenesisTimeZero,
    BlockTimeBeforeGenesis,
    BlobHashMismatch { expected: B256, found: Vec<B256> },
    RequestFailed(String),
    NoBlobData,
    BlobNotFound,
    StateRootMismatch,
    AnchorMismatch,
    InclusionMismatch,
    BatchInclusionMismatch,
    BatchNumbersOverflow,
    NoBlockNumber,
    BlockCountMismatch,
    BatchBlockNotConverted(String),
    BlobscanUnsupported,
    BlobNotDecoded,
    BlobNotCreated,
    BlobNotDeserialized,
    BlobNotCommitted,
}

/// A failure of this crate's own finding, or one that came back from a call.
#[derive(Debug, PartialEq, Eq)]
pub enum Failure<E> {
    Preflight(PreflightError),
    /// It came back from a call, and reaches the caller as it is.
    Outside(E),
    /// It came back from a call on a block of a batch, and reaches the caller without a kind of its
    /// own.
    BatchBlock(E),
}

/// The hashes one after the other, with a comma and a space between them.
pub open spec fn joined(hashes: Seq<B256>) -> Seq<char>
    decreases hashes.len(),
{
    if hashes.len() == 0 {
        Seq::empty()
    } else if hashes.len() == 1 {
        hash_chars(hashes[0])
    } else {
        joined(hashes.drop_last()) + ", "@ + hash_chars(hashes.last())
    }
}

/// A hash in print: `0x` and two digits for each byte.
pub open spec fn hash_chars(hash: B256) -> Seq<char> {
    seq!['0', 'x'] + hex_encoded(hash@)
}

fn push_hashes(text: &mut String, hashes: &Vec<B256>)
    ensures
        final(text)@ == old(text)@ + joined(hashes@),
{
    let ghost before = text@;
    let mut i: usize = 0;
    proof {
        assert(hashes@.take(0) =~= Seq::empty());
        assert(before + joined(hashes@.take(0)) =~= before);
    }
    while i < hashes.len()
        invariant
            i <= hashes@.len(),
            text@ == before + joined(hashes@.take(i as int)),
        decreases hashes@.len() - i,
    {
        let ghost so_far = text@;
        if i > 0 {
            text.append(", ");
        }
        let h: String = hash_text(&hashes[i]);
        text.append(h.as_str());
        proof {
            let next = hashes@.take(i + 1);
            assert(next.drop_last() =~= hashes@.take(i as int));
            assert(next.last() == hashes@[i as int]);
            if i > 0 {
                assert(text@ =~= before + (joined(hashes@.take(i as int)) + ", "@ + hash_chars(
                    hashes@[i as int],
                )));
            } else {
                assert(text@ =~= before + hash_chars(hashes@[0]));
            }
        }
        i += 1;
    }
    assert(hashes@.take(hashes@.len() as int) =~= hashes@);
}

impl PreflightError {
    /// How the failure reaches the caller.
    pub open spec fn kind_of(self) -> ErrorKind {
        match self {
            PreflightError::NoDb
            | PreflightError::ExecutionFailed(_)
            | PreflightError::NoAnchorTx
            | PreflightError::PacayaSingleBlock
            | PreflightError::NoL1StateBlockHash
            | PreflightError::NoL1InclusionBlockHash
            | PreflightError::ProposeBlockCallUndecodable
            | PreflightError::ProposeBatchCallUndecodable
            | PreflightError::NotPacayaProposal
            | PreflightError::NoBeaconRpc
            | PreflightError::NoBlockData
            | PreflightError::NoParentBlockData => ErrorKind::Preflight,
            PreflightError::BlockNotConverted(_) => ErrorKind::Conversion,
            PreflightError::NoAnchorTxInBatch
            | PreflightError::NotPacayaBatch
            | PreflightError::NoL1Contract
            | PreflightError::LogNotCreated
            | PreflightError::LogNotDecoded
            | PreflightError::NoTransactionHash
            | PreflightError::NoProposalEvent(_)
            | PreflightError::NoCalldataEvent(_)
            | PreflightError::GenesisTimeZero
            | PreflightError::BlockTimeBeforeGenesis
            | PreflightError::BlobHashMismatch { .. }
            | PreflightError::RequestFailed(_)
            | PreflightError::NoBlobData
            | PreflightError::BlobNotFound => ErrorKind::Anyhow,
            PreflightError::StateRootMismatch
            | PreflightError::AnchorMismatch
            | PreflightError::InclusionMismatch
            | PreflightError::BatchInclusionMismatch
            | PreflightError::BatchNumbersOverflow
            | PreflightError::NoBlockNumber
            | PreflightError::BlockCountMismatch
            | PreflightError::BatchBlockNotConverted(_)
            | PreflightError::BlobscanUnsupported
            | PreflightError::BlobNotDecoded
            | PreflightError::BlobNotCreated
            | PreflightError::BlobNotDeserialized
            | PreflightError::BlobNotCommitted => ErrorKind::Panic,
        }
    }

    /// How the failure reaches the caller.
    pub fn kind(&self) -> (r: ErrorKind)
        ensures
            r == self.kind_of(),
    {
        match self {
            PreflightError::NoDb
            | PreflightError::ExecutionFailed(_)
            | PreflightError::NoAnchorTx
            | PreflightError::PacayaSingleBlock
            | PreflightError::NoL1StateBlockHash
            | PreflightError::NoL1InclusionBlockHash
            | PreflightError::ProposeBlockCallUndecodable
            | PreflightError::ProposeBatchCallUndecodable
            | PreflightError::NotPacayaProposal
            | PreflightError::NoBeaconRpc
            | PreflightError::NoBlockData
            | PreflightError::NoParentBlockData => ErrorKind::Preflight,
            PreflightError::BlockNotConverted(_) => ErrorKind::Conversion,
            PreflightError::NoAnchorTxInBatch
            | PreflightError::NotPacayaBatch
            | PreflightError::NoL1Contract
            | PreflightError::LogNotCreated
            | PreflightError::LogNotDecoded
            | PreflightError::NoTransactionHash
            | PreflightError::NoProposalEvent(_)
            | PreflightError::NoCalldataEvent(_)
            | PreflightError::GenesisTimeZero
            | PreflightError::BlockTimeBeforeGenesis
            | PreflightError::BlobHashMismatch { .. }
            | PreflightError::RequestFailed(_)
            | PreflightError::NoBlobData
            | PreflightError::BlobNotFound => ErrorKind::Anyhow,
            PreflightError::StateRootMismatch
            | PreflightError::AnchorMismatch
            | PreflightError::InclusionMismatch
            | PreflightError::BatchInclusionMismatch
            | PreflightError::BatchNumbersOverflow
            | PreflightError::NoBlockNumber
            | PreflightError::BlockCountMismatch
            | PreflightError::BatchBlockNotConverted(_)
            | PreflightError::BlobscanUnsupported
            | PreflightError::BlobNotDecoded
            | PreflightError::BlobNotCreated
            | PreflightError::BlobNotDeserialized
            | PreflightError::BlobNotCommitted => ErrorKind::Panic,
        }
    }

    /// The failure in words.
    pub open spec fn words(self) -> Seq<char> {
        match self {
            PreflightError::NoDb => "No db in builder"@,
            PreflightError::ExecutionFailed(why) => "Executing transactions in builder failed: "@ + why@,
            PreflightError::NoAnchorTx => "No anchor tx in the block"@,
            PreflightError::PacayaSingleBlock => "pacaya fork does not support prepare_taiko_chain_input for single block"@,
            PreflightError::NoL1StateBlockHash => "No L1 state block hash for the requested block"@,
            PreflightError::NoL1InclusionBlockHash => "No L1 inclusion block hash for the requested block"@,
            PreflightError::ProposeBlockCallUndecodable => "Could not decode proposeBlockCall"@,
            PreflightError::ProposeBatchCallUndecodable => "Could not decode proposeBatchCall"@,
            PreflightError::NotPacayaProposal => "BatchProposedFork is not Pacaya"@,
            PreflightError::NoBeaconRpc => "Beacon RPC URL is required for Taiko chains"@,
            PreflightError::NoBlockData => "No block data for the requested block"@,
            PreflightError::NoParentBlockData => "No parent block data for the requested block"@,
            PreflightError::BlockNotConverted(why) => "Failed converting to reth block: "@ + why@,
            PreflightError::NoAnchorTxInBatch => "No anchor tx in the block"@,
            PreflightError::NotPacayaBatch => "Only pacaya fork supports batch"@,
            PreflightError::NoL1Contract => "No L1 contract address in the chain spec"@,
            PreflightError::LogNotCreated => "Could not create log"@,
            PreflightError::LogNotDecoded => "Could not decode log"@,
            PreflightError::NoTransactionHash => "No transaction hash in the log"@,
            PreflightError::NoProposalEvent(number) => "No BlockProposed event found for block "@ + decimal(number as nat),
            PreflightError::NoCalldataEvent(number) => "No BlockProposedV2 event found for block "@ + decimal(number as nat),
            PreflightError::GenesisTimeZero => "genesis time is 0, please check chain spec"@,
            PreflightError::BlockTimeBeforeGenesis => "provided block_time precedes genesis time"@,
            PreflightError::BlobHashMismatch { expected, found } => "Proposal blobs hash mismatch: "@
                + hash_chars(expected) + " not in ["@ + joined(found@) + "]"@,
            PreflightError::RequestFailed(why) => "Request failed with status code: "@ + why@,
            PreflightError::NoBlobData => "blob data not available anymore"@,
            PreflightError::BlobNotFound => "couldn't find blob data matching blob hash"@,
            PreflightError::StateRootMismatch => "anchor state root differs from the state root of the L1 header"@,
            PreflightError::AnchorMismatch => "batch anchor tx info mismatch"@,
            PreflightError::InclusionMismatch => "proposal tx inclusive block != proof_request block"@,
            PreflightError::BatchInclusionMismatch => "batch proposal is included in another L1 block"@,
            PreflightError::BatchNumbersOverflow => "attempt to subtract with overflow"@,
            PreflightError::NoBlockNumber => "No block number in the log"@,
            PreflightError::BlockCountMismatch => "blocks received differ in number from blocks requested"@,
            PreflightError::BatchBlockNotConverted(why) => "Failed converting to reth block: "@ + why@,
            PreflightError::BlobscanUnsupported => "not implemented: blobscan.com is not supported yet"@,
            PreflightError::BlobNotDecoded => "Could not decode blob"@,
            PreflightError::BlobNotCreated => "Could not create blob"@,
            PreflightError::BlobNotDeserialized => "Could not deserialize blob"@,
            PreflightError::BlobNotCommitted => "Could not create kzg commitment from blob"@,
        }
    }

    /// The failure in words.
    pub fn message(&self) -> (r: String)
        ensures
            r@ == self.words(),
    {
        match self {
            PreflightError::NoDb => "No db in builder".to_owned(),
            PreflightError::ExecutionFailed(why) => {
                let mut text: String = "Executing transactions in builder failed: ".to_owned();
                text.append(why.as_str());
                text
            },
            PreflightError::NoAnchorTx => "No anchor tx in the block".to_owned(),
            PreflightError::PacayaSingleBlock => "pacaya fork does not support prepare_taiko_chain_input for single block".to_owned(),
            PreflightError::NoL1StateBlockHash => "No L1 state block hash for the requested block".to_owned(),
            PreflightError::NoL1InclusionBlockHash => "No L1 inclusion block hash for the requested block".to_owned(),
            PreflightError::ProposeBlockCallUndecodable => "Could not decode proposeBlockCall".to_owned(),
            PreflightError::ProposeBatchCallUndecodable => "Could not decode proposeBatchCall".to_owned(),
            PreflightError::NotPacayaProposal => "BatchProposedFork is not Pacaya".to_owned(),
            PreflightError::NoBeaconRpc => "Beacon RPC URL is required for Taiko chains".to_owned(),
            PreflightError::NoBlockData => "No block data for the requested block".to_owned(),
            PreflightError::NoParentBlockData => "No parent block data for the requested block".to_owned(),
            PreflightError::BlockNotConverted(why) => {
                let mut text: String = "Failed converting to reth block: ".to_owned();
                text.append(why.as_str());
                text
            },
            PreflightError::NoAnchorTxInBatch => "No anchor tx in the block".to_owned(),
            PreflightError::NotPacayaBatch => "Only pacaya fork supports batch".to_owned(),
            PreflightError::NoL1Contract => "No L1 contract address in the chain spec".to_owned(),
            PreflightError::LogNotCreated => "Could not create log".to_owned(),
            PreflightError::LogNotDecoded => "Could not decode log".to_owned(),
            PreflightError::NoTransactionHash => "No transaction hash in the log".to_owned(),
            PreflightError::NoProposalEvent(number) => {
                let mut text: String = "No BlockProposed event found for block ".to_owned();
                push_decimal(&mut text, *number);
                text
            },
            PreflightError::NoCalldataEvent(number) => {
                let mut text: String = "No BlockProposedV2 event found for block ".to_owned();
                push_decimal(&mut text, *number);
                text
            },
            PreflightError::GenesisTimeZero => "genesis time is 0, please check chain spec".to_owned(),
            PreflightError::BlockTimeBeforeGenesis => "provided block_time precedes genesis time".to_owned(),
            PreflightError::BlobHashMismatch { expected, found } => {
                let mut text: String = "Proposal blobs hash mismatch: ".to_owned();
                let hash: String = hash_text(expected);
                text.append(hash.as_str());
                text.append(" not in [");
                push_hashes(&mut text, found);
                text.append("]");
                text
            },
            PreflightError::RequestFailed(why) => {
                let mut text: String = "Request failed with status code: ".to_owned();
                text.append(why.as_str());
                text
            },
            PreflightError::NoBlobData => "blob data not available anymore".to_owned(),
            PreflightError::BlobNotFound => "couldn't find blob data matching blob hash".to_owned(),
            PreflightError::StateRootMismatch => "anchor state root differs from the state root of the L1 header".to_owned(),
            PreflightError::AnchorMismatch => "batch anchor tx info mismatch".to_owned(),
            PreflightError::InclusionMismatch => "proposal tx inclusive block != proof_request block".to_owned(),
            PreflightError::BatchInclusionMismatch => "batch proposal is included in another L1 block".to_owned(),
            PreflightError::BatchNumbersOverflow => "attempt to subtract with overflow".to_owned(),
            PreflightError::NoBlockNumber => "No block number in the log".to_owned(),
            PreflightError::BlockCountMismatch => "blocks received differ in number from blocks requested".to_owned(),
            PreflightError::BatchBlockNotConverted(why) => {
                let mut text: String = "Failed converting to reth block: ".to_owned();
                text.append(why.as_str());
                text
            },
            PreflightError::BlobscanUnsupported => "not implemented: blobscan.com is not supported yet".to_owned(),
            PreflightError::BlobNotDecoded => "Could not decode blob".to_owned(),
            PreflightError::BlobNotCreated => "Could not create blob".to_owned(),
            PreflightError::BlobNotDeserialized => "Could not deserialize blob".to_owned(),
            PreflightError::BlobNotCommitted => "Could not create kzg commitment from blob".to_owned(),
        }
    }
}

/// A hash in print is as long as it should be, starts with `0x`, and reads back as the hash.
pub proof fn law_hash_in_print_reads_back(hash: B256)
    ensures
        hash_chars(hash).len() == 66,
        hash_chars(hash).take(2) == seq!['0', 'x'],
        hash_chars(hash).skip(2) == hex_encoded(hash@),
        hex_decoded(hash_chars(hash)) == Some(hash@),
{
    assert(hash_chars(hash).take(2) =~= seq!['0', 'x']);
    assert(hash_chars(hash).skip(2) =~= hex_encoded(hash@));
    lemma_pairs_give_back_their_bytes(hash@);
    law_one_prefix_makes_no_difference(hex_encoded(hash@));
    assert(pairs_decoded(hex_encoded(hash@)) == Some(hash@));
}

/// Hashes in a list stand one after the other, each in full, with a comma and a space between two.
pub proof fn law_listed_hashes_stand_side_by_side(hashes: Seq<B256>, i: int)
    requires
        0 <= i < hashes.len(),
    ensures
        joined(hashes).len() == 68 * hashes.len() - 2,
        joined(hashes).subrange(68 * i, 68 * i + 66) == seq!['0', 'x'] + hex_encoded(hashes[i]@),
        i + 1 < hashes.len() ==> joined(hashes).subrange(68 * i + 66, 68 * i + 68) == seq![',', ' '],
    decreases hashes.len(),
{
    reveal_strlit(", ");
    let all = joined(hashes);
    let n = hashes.len() as int;
    let h = hash_chars(hashes.last());
    assert(h.len() == 66);
    if n == 1 {
        assert(all.subrange(0, 66) =~= h);
    } else {
        let front = hashes.drop_last();
        let before = joined(front);
        law_listed_hashes_stand_side_by_side(front, 0);
        assert(before.len() == 68 * (n - 1) - 2);
        if i == n - 1 {
            assert(all.subrange(68 * i, 68 * i + 66) =~= h);
        } else {
            law_listed_hashes_stand_side_by_side(front, i);
            assert(all.subrange(68 * i, 68 * i + 66) =~= before.subrange(68 * i, 68 * i + 66));
            if i + 1 < n - 1 {
                assert(all.subrange(68 * i + 66, 68 * i + 68) =~= before.subrange(
                    68 * i + 66,
                    68 * i + 68,
                ));
            } else {
                assert(all.subrange(68 * i + 66, 68 * i + 68) =~= seq![',', ' ']);
            }
        }
    }
}

/// What went wrong outside is told in full at the end of the message.
pub proof fn law_message_ends_with_what_went_wrong(why: String)
    ensures
        PreflightError::ExecutionFailed(why).words()
            == "Executing transactions in builder failed: "@ + why@,
        PreflightError::BlockNotConverted(why).words() == "Failed converting to reth block: "@
            + why@,
        PreflightError::BatchBlockNotConverted(why).words() == "Failed converting to reth block: "@
            + why@,
        PreflightError::RequestFailed(why).words() == "Request failed with status code: "@ + why@,
{
}

/// The message names the block or batch that was looked for, and the hashes that do not fit.
pub proof fn law_message_names_what_was_looked_for(number: u64, expected: B256, found: Vec<B256>)
    ensures
        PreflightError::NoProposalEvent(number).words()
            == "No BlockProposed event found for block "@ + decimal(number as nat),
        PreflightError::NoCalldataEvent(number).words()
            == "No BlockProposedV2 event found for block "@ + decimal(number as nat),
        (PreflightError::BlobHashMismatch { expected, found }).words()
            == "Proposal blobs hash mismatch: "@ + hash_chars(expected) + " not in ["@ + joined(
            found@,
        ) + "]"@,
{
}

/// How a failure reaches the caller does not depend on what it tells.
pub proof fn law_kind_does_not_depend_on_what_is_told(
    why: String,
    number: u64,
    expected: B256,
    found: Vec<B256>,
)
    ensures
        PreflightError::ExecutionFailed(why).kind_of() == ErrorKind::Preflight,
        PreflightError::BlockNotConverted(why).kind_of() == ErrorKind::Conversion,
        PreflightError::BatchBlockNotConverted(why).kind_of() == ErrorKind::Panic,
        PreflightError::RequestFailed(why).kind_of() == ErrorKind::Anyhow,
        PreflightError::NoProposalEvent(number).kind_of() == ErrorKind::Anyhow,
        PreflightError::NoCalldataEvent(number).kind_of() == ErrorKind::Anyhow,
        (PreflightError::BlobHashMismatch { expected, found }).kind_of() == ErrorKind::Anyhow,
{
}

} // verus!
