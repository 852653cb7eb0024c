use preflight::batch::{
    batch_proposal_filter, find_batch_proposal, parse_l1_batch_proposal_tx_for_pacaya_fork,
};
use preflight::error::PreflightError;
use preflight::event::{
    _get_block_proposed_event_by_hash, block_proposed_filter, calldata_txlist_filter,
    filter_block_proposed_event, get_block_proposed_event_by_height,
    get_block_proposed_event_by_traversal, get_calldata_txlist_event, judge, proposal_of,
    BatchProposedEvent, BlockProposedEvent, CalldataTxList, EventFilter, EventFilterConditioin,
    EventKind, FilterBlocks, Found, ProposalDecoders, RpcLog,
};
use preflight::outside::LogStruct;
use preflight::types::{
    BatchInfo, BlockProposedFork, Fork, Proposal, ProposalTx, Proposed, U256,
};

const CONTRACT: [u8; 20] = [7; 20];

/// A log whose data is the number that it is for; no data stands for a log that is not understood.
fn log(data: &[u8], topics: usize, tx: Option<u8>) -> RpcLog {
    RpcLog {
        address: CONTRACT,
        topics: vec![[3; 32]; topics],
        data: data.to_vec(),
        transaction_hash: tx.map(|t| [t; 32]),
        block_number: Some(900),
    }
}

fn block_event(log: &LogStruct) -> Option<BlockProposedEvent<&'static str>> {
    Some(BlockProposedEvent {
        block_id: U256::from_u64(*log.data.first()? as u64),
        blob_used: log.topics.len() == 2,
        blob_hash: [log.address[0]; 32],
        data: "block",
    })
}

fn decoders() -> ProposalDecoders<
    impl Fn(&LogStruct) -> Option<BatchProposedEvent<&'static str>>,
    impl Fn(&LogStruct) -> Option<BlockProposedEvent<&'static str>>,
    impl Fn(&LogStruct) -> Option<BlockProposedEvent<&'static str>>,
> {
    ProposalDecoders {
        batch_proposed: |log: &LogStruct| {
            let batch_id = *log.data.first()? as u64;
            Some(BatchProposedEvent {
                batch_id,
                info: BatchInfo {
                    last_block_id: 100 + batch_id,
                    block_count: 2,
                    blob_hashes: vec![],
                    blob_created_in: 0,
                },
                blob_used: false,
                blob_hash: [0; 32],
                data: "batch",
            })
        },
        block_proposed_v2: |log: &LogStruct| block_event(log),
        block_proposed: |log: &LogStruct| block_event(log).map(|e| BlockProposedEvent { data: "first", ..e }),
    }
}

#[test]
fn event_of_each_fork() {
    for (fork, event) in [
        (Fork::Hekla, EventKind::BlockProposed),
        (Fork::Ontake, EventKind::BlockProposedV2),
        (Fork::Pacaya, EventKind::BatchProposed),
    ] {
        assert_eq!(
            block_proposed_filter(Some(CONTRACT), EventFilterConditioin::Range((4, 9)), fork),
            Ok(EventFilter {
                address: CONTRACT,
                blocks: FilterBlocks::Between { from_block: 4, to_block: 9 },
                event,
            })
        );
    }
}

#[test]
fn height_reaches_to_the_block_after() {
    assert_eq!(
        get_block_proposed_event_by_height(Some(CONTRACT), 50, Fork::Ontake),
        Ok(EventFilter {
            address: CONTRACT,
            blocks: FilterBlocks::Between { from_block: 50, to_block: 51 },
            event: EventKind::BlockProposedV2,
        })
    );
}

#[test]
fn hash_names_one_block() {
    assert_eq!(
        _get_block_proposed_event_by_hash(Some(CONTRACT), [8; 32], Fork::Hekla),
        Ok(EventFilter {
            address: CONTRACT,
            blocks: FilterBlocks::AtHash([8; 32]),
            event: EventKind::BlockProposed,
        })
    );
    assert_eq!(
        calldata_txlist_filter(Some(CONTRACT), [8; 32]),
        Ok(EventFilter {
            address: CONTRACT,
            blocks: FilterBlocks::AtHash([8; 32]),
            event: EventKind::CalldataTxList,
        })
    );
}

#[test]
fn traversal_is_the_next_blocks() {
    let blocks = |anchor: u64, latest: u64| {
        get_block_proposed_event_by_traversal(Some(CONTRACT), anchor, latest, Fork::Hekla)
            .unwrap()
            .blocks
    };
    assert_eq!(blocks(100, 500), FilterBlocks::Between { from_block: 101, to_block: 164 });
    assert_eq!(blocks(100, 164), FilterBlocks::Between { from_block: 101, to_block: 164 });
    assert_eq!(blocks(100, 130), FilterBlocks::Between { from_block: 101, to_block: 130 });
    assert_eq!(blocks(100, 90), FilterBlocks::Between { from_block: 101, to_block: 90 });
}

#[test]
fn filters_need_a_contract() {
    let missing = Err(PreflightError::NoL1Contract);
    assert_eq!(get_block_proposed_event_by_height(None, 50, Fork::Ontake), missing);
    assert_eq!(get_block_proposed_event_by_height(None, u64::MAX, Fork::Ontake), missing);
    assert_eq!(_get_block_proposed_event_by_hash(None, [8; 32], Fork::Ontake), missing);
    assert_eq!(get_block_proposed_event_by_traversal(None, 1, 2, Fork::Ontake), missing);
    assert_eq!(calldata_txlist_filter(None, [8; 32]), missing);
}

#[test]
fn search_finds_the_first() {
    let logs = vec![
        log(&[4], 1, Some(1)),
        log(&[5], 2, Some(2)),
        log(&[5], 1, Some(3)),
        log(&[], 1, Some(4)),
    ];
    assert_eq!(
        filter_block_proposed_event(&logs, 5, Fork::Ontake, &decoders()),
        Ok(Found {
            transaction_hash: [2; 32],
            block_number: Some(900),
            event: BlockProposedFork {
                proposed: Proposed::Ontake,
                blob_used: true,
                blob_hash: [7; 32],
                data: "block",
            },
        })
    );
}

#[test]
fn proposal_is_of_its_fork() {
    let logs = vec![log(&[5], 1, Some(2))];
    let found = filter_block_proposed_event(&logs, 5, Fork::Hekla, &decoders()).unwrap();
    assert_eq!(found.event.proposed, Proposed::Hekla);
    assert_eq!(found.event.data, "first");
    let found = filter_block_proposed_event(&logs, 5, Fork::Pacaya, &decoders()).unwrap();
    assert_eq!(
        found.event.proposed,
        Proposed::Pacaya(BatchInfo {
            last_block_id: 105,
            block_count: 2,
            blob_hashes: vec![],
            blob_created_in: 0,
        })
    );
    assert_eq!(found.event.data, "batch");
}

#[test]
fn missing_event_is_nowhere() {
    let logs = vec![log(&[4], 1, None), log(&[6], 4, Some(1))];
    assert_eq!(
        filter_block_proposed_event(&logs, 5, Fork::Ontake, &decoders()),
        Err(PreflightError::NoProposalEvent(5))
    );
    assert_eq!(
        filter_block_proposed_event(&vec![], 5, Fork::Pacaya, &decoders()),
        Err(PreflightError::NoProposalEvent(5))
    );
}

#[test]
fn search_stops_at_a_log_that_fails() {
    let wanted = || log(&[5], 1, Some(9));
    assert_eq!(
        filter_block_proposed_event(&vec![log(&[4], 5, Some(1)), wanted()], 5, Fork::Ontake, &decoders()),
        Err(PreflightError::LogNotCreated)
    );
    assert_eq!(
        filter_block_proposed_event(&vec![log(&[], 1, Some(1)), wanted()], 5, Fork::Hekla, &decoders()),
        Err(PreflightError::LogNotDecoded)
    );
    assert_eq!(
        filter_block_proposed_event(&vec![log(&[5], 1, None), wanted()], 5, Fork::Pacaya, &decoders()),
        Err(PreflightError::NoTransactionHash)
    );
}

#[test]
fn calldata_event_of_the_block() {
    let decode = |log: &LogStruct| {
        let id = *log.data.first()?;
        Some(CalldataTxList { block_id: U256::from_u64(id as u64), tx_list: log.data[1..].to_vec() })
    };
    let logs = vec![log(&[4, 1], 1, Some(1)), log(&[5, 2, 3], 4, Some(2)), log(&[5, 4], 1, Some(3))];
    assert_eq!(
        get_calldata_txlist_event(&logs, 5, &decode),
        Ok(Found { transaction_hash: [2; 32], block_number: Some(900), event: vec![2, 3] })
    );
    assert_eq!(
        get_calldata_txlist_event(&logs, 6, &decode),
        Err(PreflightError::NoCalldataEvent(6))
    );
    assert_eq!(
        get_calldata_txlist_event(&vec![log(&[5, 2], 5, Some(2))], 5, &decode),
        Err(PreflightError::LogNotCreated)
    );
    assert_eq!(
        get_calldata_txlist_event(&vec![log(&[], 0, Some(2))], 5, &decode),
        Err(PreflightError::LogNotDecoded)
    );
    assert_eq!(
        get_calldata_txlist_event(&vec![log(&[5], 0, None)], 5, &decode),
        Err(PreflightError::NoTransactionHash)
    );
}

#[test]
fn number_of_an_event_is_compared_in_full() {
    let wide = U256 { limbs: [5, 1, 0, 0] };
    assert_eq!(judge(&log(&[], 0, Some(1)), Some((wide, "event")), 5), None);
    assert_eq!(
        judge(&log(&[], 0, Some(1)), Some((U256::from_u64(5), "event")), 5),
        Some(Ok(Found { transaction_hash: [1; 32], block_number: Some(900), event: "event" }))
    );
}

#[test]
fn proposal_needs_a_block_number() {
    let found = |block_number: Option<u64>| Found {
        transaction_hash: [1; 32],
        block_number,
        event: BlockProposedFork {
            proposed: Proposed::Hekla,
            blob_used: false,
            blob_hash: [0; 32],
            data: "event",
        },
    };
    let tx = || ProposalTx { blob_versioned_hashes: Some(vec![[4; 32]]), input: vec![1] };
    assert_eq!(
        proposal_of(found(Some(12)), tx()),
        Ok(Proposal { l1_block_number: 12, tx: tx(), event: found(None).event })
    );
    assert_eq!(proposal_of(found(None), tx()), Err(PreflightError::NoBlockNumber));
}

#[test]
fn batch_is_searched_for_under_pacaya() {
    assert_eq!(
        batch_proposal_filter(Some(CONTRACT), 50),
        Ok(EventFilter {
            address: CONTRACT,
            blocks: FilterBlocks::Between { from_block: 50, to_block: 51 },
            event: EventKind::BatchProposed,
        })
    );
    assert_eq!(batch_proposal_filter(None, u64::MAX), Err(PreflightError::NoL1Contract));
    let logs = vec![log(&[4], 1, Some(1)), log(&[5], 1, Some(2))];
    let found = find_batch_proposal(&logs, 5, &decoders()).unwrap();
    assert_eq!(found.transaction_hash, [2; 32]);
    assert_eq!(found.event.data, "batch");
    assert_eq!(
        find_batch_proposal(&logs, 6, &decoders()),
        Err(PreflightError::NoProposalEvent(6))
    );
}

#[test]
fn parsed_batch_was_proposed_in_its_block() {
    let parse = |l1_number: u64| {
        let found = find_batch_proposal(&vec![log(&[5], 1, Some(2))], 5, &decoders()).unwrap();
        let tx = ProposalTx { blob_versioned_hashes: None, input: vec![] };
        parse_l1_batch_proposal_tx_for_pacaya_fork(l1_number, &proposal_of(found, tx).unwrap())
    };
    assert_eq!(parse(900), Ok(vec![104, 105]));
    assert_eq!(parse(899), Err(PreflightError::InclusionMismatch));
}
