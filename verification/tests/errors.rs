use preflight::error::{ErrorKind, PreflightError};

fn says(error: PreflightError, kind: ErrorKind, message: &str) {
    assert_eq!(error.kind(), kind);
    assert_eq!(error.message(), message);
}

#[test]
fn preflight_failures_have_their_words() {
    let kind = ErrorKind::Preflight;
    says(PreflightError::NoDb, kind, "No db in builder");
    says(
        PreflightError::ExecutionFailed(String::from("out of gas")),
        kind,
        "Executing transactions in builder failed: out of gas",
    );
    says(PreflightError::NoAnchorTx, kind, "No anchor tx in the block");
    says(
        PreflightError::PacayaSingleBlock,
        kind,
        "pacaya fork does not support prepare_taiko_chain_input for single block",
    );
    says(
        PreflightError::NoL1StateBlockHash,
        kind,
        "No L1 state block hash for the requested block",
    );
    says(
        PreflightError::NoL1InclusionBlockHash,
        kind,
        "No L1 inclusion block hash for the requested block",
    );
    says(PreflightError::ProposeBlockCallUndecodable, kind, "Could not decode proposeBlockCall");
    says(PreflightError::ProposeBatchCallUndecodable, kind, "Could not decode proposeBatchCall");
    says(PreflightError::NotPacayaProposal, kind, "BatchProposedFork is not Pacaya");
    says(PreflightError::NoBeaconRpc, kind, "Beacon RPC URL is required for Taiko chains");
    says(PreflightError::NoBlockData, kind, "No block data for the requested block");
    says(PreflightError::NoParentBlockData, kind, "No parent block data for the requested block");
    says(
        PreflightError::BlockNotConverted(String::from("bad signature")),
        ErrorKind::Conversion,
        "Failed converting to reth block: bad signature",
    );
}

#[test]
fn other_failures_have_their_words() {
    let kind = ErrorKind::Anyhow;
    says(PreflightError::NoAnchorTxInBatch, kind, "No anchor tx in the block");
    says(PreflightError::NotPacayaBatch, kind, "Only pacaya fork supports batch");
    says(PreflightError::NoL1Contract, kind, "No L1 contract address in the chain spec");
    says(PreflightError::LogNotCreated, kind, "Could not create log");
    says(PreflightError::LogNotDecoded, kind, "Could not decode log");
    says(PreflightError::NoTransactionHash, kind, "No transaction hash in the log");
    says(
        PreflightError::NoProposalEvent(1024),
        kind,
        "No BlockProposed event found for block 1024",
    );
    says(
        PreflightError::NoCalldataEvent(0),
        kind,
        "No BlockProposedV2 event found for block 0",
    );
    says(PreflightError::GenesisTimeZero, kind, "genesis time is 0, please check chain spec");
    says(
        PreflightError::BlockTimeBeforeGenesis,
        kind,
        "provided block_time precedes genesis time",
    );
    says(
        PreflightError::RequestFailed(String::from("404 Not Found")),
        kind,
        "Request failed with status code: 404 Not Found",
    );
    says(PreflightError::NoBlobData, kind, "blob data not available anymore");
    says(PreflightError::BlobNotFound, kind, "couldn't find blob data matching blob hash");
}

#[test]
fn hash_mismatch_lists_the_hashes() {
    let mut expected = [0u8; 32];
    expected[0] = 0x01;
    expected[31] = 0xef;
    let wanted = format!("0x01{}ef", "00".repeat(30));
    let a = format!("0x{}", "aa".repeat(32));
    let b = format!("0x{}", "0b".repeat(32));
    says(
        PreflightError::BlobHashMismatch { expected, found: vec![] },
        ErrorKind::Anyhow,
        &format!("Proposal blobs hash mismatch: {wanted} not in []"),
    );
    says(
        PreflightError::BlobHashMismatch { expected, found: vec![[0xaa; 32]] },
        ErrorKind::Anyhow,
        &format!("Proposal blobs hash mismatch: {wanted} not in [{a}]"),
    );
    says(
        PreflightError::BlobHashMismatch { expected, found: vec![[0xaa; 32], [0x0b; 32]] },
        ErrorKind::Anyhow,
        &format!("Proposal blobs hash mismatch: {wanted} not in [{a}, {b}]"),
    );
}

#[test]
fn broken_assertions_have_their_words() {
    let kind = ErrorKind::Panic;
    says(
        PreflightError::StateRootMismatch,
        kind,
        "anchor state root differs from the state root of the L1 header",
    );
    says(PreflightError::AnchorMismatch, kind, "batch anchor tx info mismatch");
    says(
        PreflightError::InclusionMismatch,
        kind,
        "proposal tx inclusive block != proof_request block",
    );
    says(
        PreflightError::BatchInclusionMismatch,
        kind,
        "batch proposal is included in another L1 block",
    );
    says(PreflightError::BatchNumbersOverflow, kind, "attempt to subtract with overflow");
    says(PreflightError::NoBlockNumber, kind, "No block number in the log");
    says(
        PreflightError::BlockCountMismatch,
        kind,
        "blocks received differ in number from blocks requested",
    );
    says(
        PreflightError::BatchBlockNotConverted(String::from("bad signature")),
        kind,
        "Failed converting to reth block: bad signature",
    );
    says(
        PreflightError::BlobscanUnsupported,
        kind,
        "not implemented: blobscan.com is not supported yet",
    );
    says(PreflightError::BlobNotDecoded, kind, "Could not decode blob");
    says(PreflightError::BlobNotCreated, kind, "Could not create blob");
    says(PreflightError::BlobNotDeserialized, kind, "Could not deserialize blob");
    says(PreflightError::BlobNotCommitted, kind, "Could not create kzg commitment from blob");
}
