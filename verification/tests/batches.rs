use preflight::anchor::{AnchorAbi, AnchorInfo};
use preflight::batch::{
    prepare_taiko_chain_batch_input, start_batch, BatchAction, BatchEvent, BatchRequest,
    BatchState, TaikoGuestBatchInput,
};
use preflight::error::{Failure, PreflightError};
use preflight::types::{
    BatchInfo, BlobProofType, BlockProposedFork, Fork, Header, L2Block, Proposal, ProposalTx,
    Proposed, SignedTx, TxData,
};

type State = BatchState<&'static str, &'static str, &'static str, u8>;
type Action = BatchAction<&'static str, &'static str, &'static str, u8>;
type Event = BatchEvent<&'static str, &'static str>;
type Step = (State, Action);

fn active_fork(number: u64, timestamp: u64) -> Result<Fork, String> {
    if timestamp == 0 {
        Err(String::from("no fork"))
    } else if number >= 200 {
        Ok(Fork::Pacaya)
    } else {
        Ok(Fork::Ontake)
    }
}

fn decode(abi: AnchorAbi, input: &Vec<u8>) -> Result<AnchorInfo, String> {
    assert_eq!(abi, AnchorAbi::Pacaya);
    let id = *input.first().ok_or_else(|| String::from("no anchor"))?;
    Ok(AnchorInfo { block_id: id as u64, state_root: [3; 32] })
}

fn block(number: u64, timestamp: u64, input: Option<Vec<u8>>) -> L2Block<&'static str> {
    L2Block { number, timestamp, first_tx: input.map(|input| SignedTx { input, data: "anchor" }) }
}

fn start(blocks: Vec<L2Block<&'static str>>) -> Result<Step, Failure<String>> {
    let request = BatchRequest {
        batch_id: 31,
        l1_inclusion_block_number: 70,
        chain_spec: "taiko",
        prover_data: 9,
        blob_proof_type: BlobProofType::ProofOfEquivalence,
    };
    start_batch(&blocks, request, &active_fork, &decode)
}

fn good_start() -> State {
    start(vec![block(200, 1, Some(vec![60])), block(201, 2, Some(vec![60]))]).unwrap().0
}

fn event(blob_hashes: Vec<[u8; 32]>, blob_created_in: u64) -> BlockProposedFork<&'static str> {
    let info = BatchInfo { last_block_id: 201, block_count: 2, blob_hashes, blob_created_in };
    BlockProposedFork {
        proposed: Proposed::Pacaya(info),
        blob_used: true,
        blob_hash: [0; 32],
        data: "event",
    }
}

fn proposal(l1_block_number: u64, event: BlockProposedFork<&'static str>) -> Proposal<&'static str> {
    let tx = ProposalTx { blob_versioned_hashes: None, input: vec![6, 7] };
    Proposal { l1_block_number, tx, event }
}

fn header(root: u8, timestamp: u64, data: &'static str) -> Header<&'static str> {
    Header { hash: None, state_root: [root; 32], timestamp, data }
}

fn advance(event: BlockProposedFork<&'static str>, root: u8) -> Step {
    let (state, action) =
        prepare_taiko_chain_batch_input(good_start(), Event::Proposed(proposal(70, event)));
    assert_eq!(action, Action::FetchHeaders(70, 60));
    prepare_taiko_chain_batch_input(
        state,
        Event::Headers(header(0, 1_234, "inclusion"), header(root, 1_000, "state")),
    )
}

fn input(event: BlockProposedFork<&'static str>) -> TaikoGuestBatchInput<&'static str, &'static str, &'static str, u8> {
    TaikoGuestBatchInput {
        batch_id: 31,
        l1_header: header(3, 1_000, "state"),
        batch_proposed: event,
        chain_spec: "taiko",
        prover_data: 9,
        tx_data_from_calldata: vec![],
        tx_data_from_blob: vec![],
        blob_commitments: vec![],
        blob_proofs: vec![],
        blob_proof_type: BlobProofType::ProofOfEquivalence,
    }
}

#[test]
fn batch_starts_with_its_proposal() {
    let (_, action) = start(vec![block(200, 1, Some(vec![60]))]).unwrap();
    assert_eq!(action, Action::FindProposal(70, 31, Fork::Pacaya));
}

#[test]
fn batch_blocks_share_their_anchor() {
    let BatchState::Searching(job) = good_start() else { panic!("the batch did not start") };
    assert_eq!(job.anchor, AnchorInfo { block_id: 60, state_root: [3; 32] });
    assert_eq!(job.request.batch_id, 31);
}

#[test]
fn batch_blocks_must_have_anchors_of_pacaya() {
    assert_eq!(
        start(vec![block(200, 1, Some(vec![60])), block(201, 2, None)]),
        Err(Failure::Preflight(PreflightError::NoAnchorTxInBatch))
    );
    assert_eq!(
        start(vec![block(199, 1, Some(vec![60])), block(200, 2, Some(vec![60]))]),
        Err(Failure::Preflight(PreflightError::NotPacayaBatch))
    );
    assert_eq!(
        start(vec![block(200, 0, Some(vec![60]))]),
        Err(Failure::BatchBlock(String::from("no fork")))
    );
    assert_eq!(
        start(vec![block(200, 1, Some(vec![]))]),
        Err(Failure::BatchBlock(String::from("no anchor")))
    );
}

#[test]
fn last_fork_of_a_batch_fails_as_it_is() {
    let asked = std::cell::Cell::new(0);
    let moody = |_: u64, _: u64| {
        asked.set(asked.get() + 1);
        if asked.get() <= 1 { Ok(Fork::Pacaya) } else { Err(String::from("no fork")) }
    };
    let request = BatchRequest {
        batch_id: 31,
        l1_inclusion_block_number: 70,
        chain_spec: "taiko",
        prover_data: 9,
        blob_proof_type: BlobProofType::KzgVersionedHash,
    };
    let r: Result<Step, Failure<String>> =
        start_batch(&vec![block(200, 1, Some(vec![60]))], request, &moody, &decode);
    assert_eq!(r, Err(Failure::Outside(String::from("no fork"))));
}

#[test]
fn anchors_of_a_batch_must_agree() {
    assert_eq!(
        start(vec![
            block(200, 1, Some(vec![60])),
            block(201, 2, Some(vec![60])),
            block(202, 3, Some(vec![61])),
        ]),
        Err(Failure::Preflight(PreflightError::AnchorMismatch))
    );
}

#[test]
fn batch_must_be_proposed_in_the_block_that_was_named() {
    assert_eq!(
        prepare_taiko_chain_batch_input(good_start(), Event::Proposed(proposal(71, event(vec![], 0)))),
        (State::Finished, Action::Fail(PreflightError::BatchInclusionMismatch))
    );
}

#[test]
fn batch_header_must_fit_the_anchors() {
    assert_eq!(
        advance(event(vec![], 0), 4),
        (State::Finished, Action::Fail(PreflightError::StateRootMismatch))
    );
}

#[test]
fn batch_proposal_must_be_of_a_batch() {
    let mut other = event(vec![], 0);
    other.proposed = Proposed::Ontake;
    assert_eq!(
        advance(other, 3),
        (State::Finished, Action::Fail(PreflightError::NotPacayaProposal))
    );
}

#[test]
fn batch_input_holds_what_was_asked_for() {
    let hashes = vec![[1; 32], [2; 32]];
    let (state, action) = advance(event(hashes.clone(), 0), 3);
    assert_eq!(action, Action::FetchBlobs(hashes.clone(), 1_234));
    let blobs = vec![
        TxData { data: vec![1], commitment: Some(vec![2]), blob_proof: Some(vec![3]) },
        TxData { data: vec![4], commitment: Some(vec![5]), blob_proof: None },
    ];
    let mut expected = input(event(hashes, 0));
    expected.tx_data_from_blob = vec![vec![1], vec![4]];
    expected.blob_commitments = vec![Some(vec![2]), Some(vec![5])];
    expected.blob_proofs = vec![Some(vec![3]), None];
    assert_eq!(
        prepare_taiko_chain_batch_input(state, Event::Blobs(blobs)),
        (State::Finished, Action::Done(expected))
    );
}

#[test]
fn calldata_and_blobs_exclude_each_other() {
    let (state, action) = advance(event(vec![], 0), 3);
    assert_eq!(action, Action::DecodeCalldata(vec![6, 7]));
    let mut expected = input(event(vec![], 0));
    expected.tx_data_from_calldata = vec![8];
    assert_eq!(
        prepare_taiko_chain_batch_input(state, Event::Calldata(Some(vec![8]))),
        (State::Finished, Action::Done(expected))
    );
}

#[test]
fn batch_call_data_must_be_decodable() {
    let (state, _) = advance(event(vec![], 0), 3);
    assert_eq!(
        prepare_taiko_chain_batch_input(state, Event::Calldata(None)),
        (State::Finished, Action::Fail(PreflightError::ProposeBatchCallUndecodable))
    );
}

#[test]
fn forced_blobs_are_as_old_as_the_block_they_were_created_in() {
    let (state, action) = advance(event(vec![[1; 32]], 55), 3);
    assert_eq!(action, Action::FetchHeaders(55, 60));
    let (state, action) = prepare_taiko_chain_batch_input(
        state,
        Event::Headers(header(7, 500, "forced"), header(8, 501, "other")),
    );
    assert_eq!(action, Action::FetchBlobs(vec![[1; 32]], 500));
    let blob = TxData { data: vec![1], commitment: None, blob_proof: None };
    let mut expected = input(event(vec![[1; 32]], 55));
    expected.tx_data_from_blob = vec![vec![1]];
    expected.blob_commitments = vec![None];
    expected.blob_proofs = vec![None];
    assert_eq!(
        prepare_taiko_chain_batch_input(state, Event::Blobs(vec![blob])),
        (State::Finished, Action::Done(expected))
    );
}

#[test]
fn blobs_of_the_proposal_block_are_not_forced() {
    let (_, action) = advance(event(vec![[1; 32]], 70), 3);
    assert_eq!(action, Action::FetchBlobs(vec![[1; 32]], 1_234));
}

#[test]
fn consistent_chain_gives_a_batch_input() {
    for (created_in, hashes) in [(0u64, vec![]), (55, vec![]), (70, vec![[1u8; 32]]), (55, vec![[1; 32]])] {
        let (mut state, mut action) = advance(event(hashes.clone(), created_in), 3);
        if created_in == 55 {
            let headers = Event::Headers(header(7, 500, "forced"), header(8, 501, "other"));
            (state, action) = prepare_taiko_chain_batch_input(state, headers);
        }
        let last = match action {
            Action::FetchBlobs(_, _) => Event::Blobs(vec![]),
            Action::DecodeCalldata(_) => Event::Calldata(Some(vec![])),
            other => panic!("unexpected {other:?}"),
        };
        let (state, action) = prepare_taiko_chain_batch_input(state, last);
        assert_eq!(state, State::Finished);
        assert!(matches!(action, Action::Done(_)));
    }
}

#[test]
fn batch_input_comes_to_an_end() {
    let state = good_start();
    assert!(matches!(state, State::Searching(_)));
    let (state, _) = prepare_taiko_chain_batch_input(
        state,
        Event::Proposed(proposal(70, event(vec![[1; 32]], 55))),
    );
    assert!(matches!(state, State::FetchingHeaders(_, _)));
    let headers = || Event::Headers(header(0, 1, "a"), header(3, 2, "b"));
    let (state, _) = prepare_taiko_chain_batch_input(state, headers());
    assert!(matches!(state, State::FetchingForcedHeaders(_, _, _)));
    let (state, _) = prepare_taiko_chain_batch_input(state, headers());
    assert!(matches!(state, State::FetchingBlobs(_, _, _)));
    let (state, action) = prepare_taiko_chain_batch_input(state, Event::Blobs(vec![]));
    assert_eq!(state, State::Finished);
    assert!(matches!(action, Action::Done(_)));
}
