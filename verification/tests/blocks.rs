use preflight::batch::{batch_block_numbers, parse_l1_batch_proposal_tx_for_pacaya_fork};
use preflight::block::{
    batch_blocks_and_parent_numbers, block_and_parent_numbers, get_batch_blocks_and_parent_data,
    get_block_and_parent_data, get_headers, header_numbers,
};
use preflight::error::PreflightError;
use preflight::types::{BatchInfo, BlockProposedFork, Proposal, ProposalTx, Proposed};

fn convert(block: &u64) -> Result<String, String> {
    if *block < 1000 {
        Ok(format!("block {block}"))
    } else {
        Err(format!("{block} is too large"))
    }
}

fn proposal(l1_block_number: u64, proposed: Proposed) -> Proposal<u8> {
    Proposal {
        l1_block_number,
        tx: ProposalTx { blob_versioned_hashes: None, input: vec![] },
        event: BlockProposedFork { proposed, blob_used: false, blob_hash: [0; 32], data: 0 },
    }
}

fn batch(last_block_id: u64, block_count: usize) -> Proposed {
    Proposed::Pacaya(BatchInfo { last_block_id, block_count, blob_hashes: vec![], blob_created_in: 0 })
}

#[test]
fn block_is_asked_for_with_its_parent() {
    assert_eq!(block_and_parent_numbers(17), vec![(17, true), (16, false)]);
    assert_eq!(block_and_parent_numbers(1), vec![(1, true), (0, false)]);
    assert_eq!(header_numbers(9, 4), vec![(9, true), (4, false)]);
}

#[test]
fn block_is_converted_and_parent_is_not() {
    assert_eq!(
        get_block_and_parent_data(vec![17u64, 16], &convert),
        Ok((String::from("block 17"), 16))
    );
    assert_eq!(
        get_block_and_parent_data(vec![17u64, 2000, 15], &convert),
        Ok((String::from("block 17"), 2000))
    );
}

#[test]
fn block_or_parent_may_be_missing() {
    assert_eq!(
        get_block_and_parent_data(Vec::<u64>::new(), &convert),
        Err(PreflightError::NoBlockData)
    );
    assert_eq!(
        get_block_and_parent_data(vec![17u64], &convert),
        Err(PreflightError::NoParentBlockData)
    );
    assert_eq!(
        get_block_and_parent_data(vec![1000u64, 16], &convert),
        Err(PreflightError::BlockNotConverted(String::from("1000 is too large")))
    );
}

#[test]
fn batch_is_asked_for_with_the_first_parent() {
    assert_eq!(
        batch_blocks_and_parent_numbers(&vec![5, 6, 7]),
        vec![(4, false), (5, true), (6, true), (7, true)]
    );
    assert_eq!(batch_blocks_and_parent_numbers(&vec![1]), vec![(0, false), (1, true)]);
}

#[test]
fn batch_blocks_come_with_their_parents() {
    assert_eq!(
        get_batch_blocks_and_parent_data(vec![4u64, 5, 6], &vec![5, 6], &convert),
        Ok(vec![(String::from("block 5"), 4), (String::from("block 6"), 5)])
    );
}

#[test]
fn batch_of_another_size_is_refused() {
    for blocks in [vec![], vec![4u64, 5], vec![4, 5, 6, 7]] {
        assert_eq!(
            get_batch_blocks_and_parent_data(blocks, &vec![5, 6], &convert),
            Err(PreflightError::BlockCountMismatch)
        );
    }
}

#[test]
fn batch_block_that_is_not_converted_says_why() {
    assert_eq!(
        get_batch_blocks_and_parent_data(vec![4u64, 5, 2001, 2002], &vec![5, 6, 7], &convert),
        Err(PreflightError::BatchBlockNotConverted(String::from("2001 is too large")))
    );
}

#[test]
fn headers_are_the_first_two() {
    assert_eq!(get_headers(vec!["a", "b", "c"]), Ok(("a", "b")));
    assert_eq!(get_headers(vec!["a"]), Err(PreflightError::NoBlockData));
    assert_eq!(get_headers(Vec::<u8>::new()), Err(PreflightError::NoBlockData));
}

#[test]
fn numbers_of_a_batch() {
    assert_eq!(batch_block_numbers(10, 3), vec![8, 9, 10]);
    assert_eq!(batch_block_numbers(0, 1), vec![0]);
    assert_eq!(batch_block_numbers(2, 3), vec![0, 1, 2]);
    assert_eq!(batch_block_numbers(u64::MAX, 2), vec![u64::MAX - 1, u64::MAX]);
}

#[test]
fn batch_numbers_are_consecutive() {
    let numbers = batch_block_numbers(1_000, 768);
    assert_eq!(numbers.len(), 768);
    assert_eq!(numbers[0], 233);
    assert_eq!(numbers[767], 1_000);
    for pair in numbers.windows(2) {
        assert_eq!(pair[0] + 1, pair[1]);
    }
}

#[test]
fn batch_blocks_follow_their_parents() {
    let wanted = batch_blocks_and_parent_numbers(&batch_block_numbers(40, 12));
    assert_eq!(wanted.len(), 13);
    for pair in wanted.windows(2) {
        assert_eq!(pair[0].0 + 1, pair[1].0);
        assert!(pair[1].1);
    }
}

#[test]
fn numbers_of_a_proposed_batch() {
    assert_eq!(
        parse_l1_batch_proposal_tx_for_pacaya_fork(70, &proposal(70, batch(10, 3))),
        Ok(vec![8, 9, 10])
    );
}

#[test]
fn proposal_must_stand_in_the_block_that_was_named() {
    assert_eq!(
        parse_l1_batch_proposal_tx_for_pacaya_fork(70, &proposal(71, batch(10, 3))),
        Err(PreflightError::InclusionMismatch)
    );
    assert_eq!(
        parse_l1_batch_proposal_tx_for_pacaya_fork(70, &proposal(71, Proposed::Ontake)),
        Err(PreflightError::InclusionMismatch)
    );
}

#[test]
fn proposal_must_be_of_a_batch() {
    for proposed in [Proposed::Hekla, Proposed::Ontake] {
        assert_eq!(
            parse_l1_batch_proposal_tx_for_pacaya_fork(70, &proposal(70, proposed)),
            Err(PreflightError::NotPacayaProposal)
        );
    }
}

#[test]
fn numbers_of_a_batch_must_fit() {
    for (last, count) in [(5u64, 0usize), (1, 3)] {
        assert_eq!(
            parse_l1_batch_proposal_tx_for_pacaya_fork(70, &proposal(70, batch(last, count))),
            Err(PreflightError::BatchNumbersOverflow)
        );
    }
}

#[test]
fn batch_of_one_block_is_the_single_block() {
    let served = |asked: Vec<(u64, bool)>| asked.iter().map(|(n, _)| *n).collect::<Vec<u64>>();
    let single = get_block_and_parent_data(served(block_and_parent_numbers(17)), &convert);
    let batch = get_batch_blocks_and_parent_data(
        served(batch_blocks_and_parent_numbers(&vec![17])),
        &vec![17],
        &convert,
    );
    assert_eq!(batch, single.map(|pair| vec![pair]));
    let why = String::from("1000 is too large");
    assert_eq!(
        get_block_and_parent_data(served(block_and_parent_numbers(1000)), &convert),
        Err(PreflightError::BlockNotConverted(why.clone()))
    );
    assert_eq!(
        get_batch_blocks_and_parent_data(
            served(batch_blocks_and_parent_numbers(&vec![1000])),
            &vec![1000],
            &convert,
        ),
        Err(PreflightError::BatchBlockNotConverted(why))
    );
}
