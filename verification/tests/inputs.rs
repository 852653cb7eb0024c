use preflight::anchor::{
    get_anchor_tx_info_by_fork, get_anchors, get_block_anchor, get_single_anchor, same_anchor,
    AnchorAbi, AnchorInfo, Anchored,
};
use preflight::error::{Failure, PreflightError};
use preflight::input::{
    prepare_taiko_chain_input, start_input, InputAction, InputEvent, InputJob, InputState,
    ProposalSearch, TaikoGuestInput, TxKind,
};
use preflight::types::{
    BlobProofType, BlockProposedFork, Fork, Header, L2Block, Proposal, ProposalTx, Proposed,
    SignedTx, TxData,
};

type State = InputState<&'static str, &'static str, &'static str, u8>;
type Action = InputAction<&'static str, &'static str, &'static str, u8>;
type Event = InputEvent<&'static str, &'static str>;

/// Time 0 has no fork; the number of a block says which fork it is of.
fn active_fork(number: u64, timestamp: u64) -> Result<Fork, String> {
    if timestamp == 0 {
        Err(String::from("no fork"))
    } else if number >= 200 {
        Ok(Fork::Pacaya)
    } else if number >= 100 {
        Ok(Fork::Ontake)
    } else {
        Ok(Fork::Hekla)
    }
}

fn decode(abi: AnchorAbi, input: &Vec<u8>) -> Result<AnchorInfo, String> {
    let id = *input.first().ok_or_else(|| String::from("no anchor"))?;
    let root = match abi {
        AnchorAbi::Hekla => 1,
        AnchorAbi::Ontake => 2,
        AnchorAbi::Pacaya => 3,
    };
    Ok(AnchorInfo { block_id: id as u64, state_root: [root; 32] })
}

fn block(number: u64, timestamp: u64, input: Option<Vec<u8>>) -> L2Block<&'static str> {
    L2Block { number, timestamp, first_tx: input.map(|input| SignedTx { input, data: "anchor" }) }
}

fn header(hash: Option<u8>, root: u8, timestamp: u64, data: &'static str) -> Header<&'static str> {
    Header { hash: hash.map(|h| [h; 32]), state_root: [root; 32], timestamp, data }
}

fn proposal(blob_hash: Option<u8>, carried: Option<Vec<[u8; 32]>>) -> Proposal<&'static str> {
    Proposal {
        l1_block_number: 70,
        tx: ProposalTx { blob_versioned_hashes: carried, input: vec![6, 7] },
        event: event(blob_hash),
    }
}

fn event(blob_hash: Option<u8>) -> BlockProposedFork<&'static str> {
    BlockProposedFork {
        proposed: Proposed::Ontake,
        blob_used: blob_hash.is_some(),
        blob_hash: [blob_hash.unwrap_or(0); 32],
        data: "event",
    }
}

fn start(number: u64, l1_inclusion: Option<u64>) -> Result<(State, Action), Failure<String>> {
    start_input(
        block(number, 1, Some(vec![60])),
        number,
        l1_inclusion,
        9,
        BlobProofType::KzgVersionedHash,
        &active_fork,
        &decode,
    )
}

/// The state and the action after the proposal and the headers have come.
fn advance(number: u64, proposal: Proposal<&'static str>, inclusion: Header<&'static str>, state_header: Header<&'static str>) -> (State, Action) {
    let (state, _) = start(number, None).unwrap();
    let (state, action) = prepare_taiko_chain_input(state, Event::Proposed(proposal));
    assert_eq!(action, Action::FetchHeaders(70, 60));
    prepare_taiko_chain_input(state, Event::Headers(inclusion, state_header))
}

#[test]
fn anchor_is_read_in_the_form_of_the_fork() {
    for (fork, root) in [(Fork::Hekla, 1u8), (Fork::Ontake, 2), (Fork::Pacaya, 3)] {
        assert_eq!(
            get_anchor_tx_info_by_fork(fork, &vec![8], &decode),
            Ok(AnchorInfo { block_id: 8, state_root: [root; 32] })
        );
    }
    assert_eq!(
        get_anchor_tx_info_by_fork(Fork::Hekla, &vec![], &decode),
        Err(String::from("no anchor"))
    );
}

#[test]
fn anchor_of_a_single_block() {
    assert_eq!(
        get_single_anchor(&block(100, 1, Some(vec![60])), &active_fork, &decode),
        Ok(Anchored {
            fork: Fork::Ontake,
            anchor: AnchorInfo { block_id: 60, state_root: [2; 32] },
        })
    );
    assert_eq!(
        get_single_anchor(&block(100, 0, None), &active_fork, &decode),
        Err(Failure::Preflight(PreflightError::NoAnchorTx))
    );
    assert_eq!(
        get_single_anchor(&block(100, 0, Some(vec![60])), &active_fork, &decode),
        Err(Failure::Outside(String::from("no fork")))
    );
    assert_eq!(
        get_single_anchor(&block(200, 1, Some(vec![])), &active_fork, &decode),
        Err(Failure::Preflight(PreflightError::PacayaSingleBlock))
    );
    assert_eq!(
        get_single_anchor(&block(100, 1, Some(vec![])), &active_fork, &decode),
        Err(Failure::Outside(String::from("no anchor")))
    );
}

#[test]
fn anchor_of_a_batch_block() {
    assert_eq!(
        get_block_anchor(&block(200, 1, Some(vec![60])), &active_fork, &decode),
        Ok(AnchorInfo { block_id: 60, state_root: [3; 32] })
    );
    assert_eq!(
        get_block_anchor(&block(200, 1, None), &active_fork, &decode),
        Err(Failure::Preflight(PreflightError::NoAnchorTxInBatch))
    );
    assert_eq!(
        get_block_anchor(&block(200, 0, Some(vec![60])), &active_fork, &decode),
        Err(Failure::BatchBlock(String::from("no fork")))
    );
    assert_eq!(
        get_block_anchor(&block(100, 1, Some(vec![60])), &active_fork, &decode),
        Err(Failure::Preflight(PreflightError::NotPacayaBatch))
    );
}

#[test]
fn anchors_of_a_batch() {
    let blocks = vec![block(200, 1, Some(vec![60])), block(201, 2, Some(vec![61]))];
    let anchors = get_anchors(&blocks, &active_fork, &decode).unwrap();
    assert_eq!(
        anchors,
        vec![
            AnchorInfo { block_id: 60, state_root: [3; 32] },
            AnchorInfo { block_id: 61, state_root: [3; 32] },
        ]
    );
    assert!(!same_anchor(&anchors[0], &anchors[1]));
    assert!(same_anchor(&anchors[0], &anchors[0]));
    let blocks = vec![block(200, 1, Some(vec![60])), block(20, 2, Some(vec![61])), block(202, 3, None)];
    assert_eq!(
        get_anchors(&blocks, &active_fork, &decode),
        Err(Failure::Preflight(PreflightError::NotPacayaBatch))
    );
}

#[test]
fn proposal_is_looked_for_where_the_request_says() {
    let (state, action) = start(100, Some(50)).unwrap();
    assert_eq!(action, Action::FindProposal(ProposalSearch::AtHeight(50), 100, Fork::Ontake));
    assert_eq!(
        state,
        State::Searching(InputJob {
            block_number: 100,
            anchored: Anchored {
                fork: Fork::Ontake,
                anchor: AnchorInfo { block_id: 60, state_root: [2; 32] },
            },
            anchor_tx: SignedTx { input: vec![60], data: "anchor" },
            prover_data: 9,
            blob_proof_type: BlobProofType::KzgVersionedHash,
        })
    );
    let (_, action) = start(5, None).unwrap();
    assert_eq!(action, Action::FindProposal(ProposalSearch::AfterAnchor(60), 5, Fork::Hekla));
}

#[test]
fn single_block_of_pacaya_is_refused() {
    assert_eq!(start(200, None), Err(Failure::Preflight(PreflightError::PacayaSingleBlock)));
}

#[test]
fn input_holds_what_was_asked_for() {
    let (state, action) = advance(
        100,
        proposal(Some(4), Some(vec![[3; 32], [4; 32]])),
        header(Some(8), 0, 1_234, "inclusion"),
        header(Some(9), 2, 1_000, "state"),
    );
    assert_eq!(action, Action::FetchBlob([4; 32], 1_234));
    let blob = TxData { data: vec![1, 2], commitment: Some(vec![3]), blob_proof: Some(vec![4]) };
    let (state, action) = prepare_taiko_chain_input(state, Event::Blob(blob));
    assert_eq!(state, State::Finished);
    assert_eq!(
        action,
        Action::Done(TaikoGuestInput {
            l1_header: header(Some(9), 2, 1_000, "state"),
            tx_data: vec![1, 2],
            anchor_tx: Some("anchor"),
            blob_commitment: Some(vec![3]),
            block_proposed: event(Some(4)),
            prover_data: 9,
            blob_proof: Some(vec![4]),
            blob_proof_type: BlobProofType::KzgVersionedHash,
        })
    );
}

#[test]
fn consistent_chain_gives_an_input() {
    let (state, action) = advance(
        100,
        proposal(None, None),
        header(Some(8), 0, 1_234, "inclusion"),
        header(Some(9), 2, 1_000, "state"),
    );
    assert_eq!(action, Action::FetchCalldataEvent([8; 32], 100));
    let (_, action) = prepare_taiko_chain_input(state, Event::CalldataEvent(vec![5]));
    assert!(matches!(
        action,
        Action::Done(input)
            if input.tx_data == vec![5] && input.blob_commitment.is_none() && input.blob_proof.is_none()
    ));

    let (state, action) = advance(
        5,
        proposal(None, None),
        header(Some(8), 0, 1_234, "inclusion"),
        header(Some(9), 1, 1_000, "state"),
    );
    assert_eq!(action, Action::DecodeCalldata(vec![6, 7]));
    let (_, action) = prepare_taiko_chain_input(state, Event::Calldata(Some(vec![7])));
    assert!(matches!(action, Action::Done(input) if input.tx_data == vec![7]));
}

#[test]
fn blob_must_be_carried_by_the_proposal() {
    for carried in [None, Some(vec![]), Some(vec![[3; 32]])] {
        let found = carried.clone().unwrap_or_default();
        let (state, action) = advance(
            100,
            proposal(Some(4), carried),
            header(Some(8), 0, 1_234, "inclusion"),
            header(Some(9), 2, 1_000, "state"),
        );
        assert_eq!(state, State::Finished);
        assert_eq!(
            action,
            Action::Fail(PreflightError::BlobHashMismatch { expected: [4; 32], found })
        );
    }
}

#[test]
fn headers_must_fit_the_anchor() {
    let fails = |inclusion: Option<u8>, state_hash: Option<u8>, root: u8| {
        advance(
            100,
            proposal(None, None),
            header(inclusion, 0, 1_234, "inclusion"),
            header(state_hash, root, 1_000, "state"),
        )
    };
    assert_eq!(
        fails(None, None, 9),
        (State::Finished, Action::Fail(PreflightError::StateRootMismatch))
    );
    assert_eq!(
        fails(None, None, 2),
        (State::Finished, Action::Fail(PreflightError::NoL1StateBlockHash))
    );
    assert_eq!(
        fails(None, Some(9), 2),
        (State::Finished, Action::Fail(PreflightError::NoL1InclusionBlockHash))
    );
}

#[test]
fn call_data_must_be_decodable() {
    let (state, _) = advance(
        5,
        proposal(None, None),
        header(Some(8), 0, 1_234, "inclusion"),
        header(Some(9), 1, 1_000, "state"),
    );
    assert_eq!(
        prepare_taiko_chain_input(state, Event::Calldata(None)),
        (State::Finished, Action::Fail(PreflightError::ProposeBlockCallUndecodable))
    );
}

#[test]
fn input_comes_to_an_end() {
    let (state, _) = start(100, Some(70)).unwrap();
    assert!(matches!(state, State::Searching(_)));
    let (state, _) = prepare_taiko_chain_input(state, Event::Proposed(proposal(None, None)));
    assert!(matches!(state, State::FetchingHeaders(_, _)));
    let headers = Event::Headers(header(Some(8), 0, 1, "a"), header(Some(9), 2, 1, "b"));
    let (state, _) = prepare_taiko_chain_input(state, headers);
    assert!(matches!(state, State::FetchingTxs(_, _, _, TxKind::CalldataEvent)));
    let (state, action) = prepare_taiko_chain_input(state, Event::CalldataEvent(vec![]));
    assert_eq!(state, State::Finished);
    assert!(matches!(action, Action::Done(_)));
}
