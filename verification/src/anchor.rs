//! The anchor transaction of a block, and the L1 block that it names.
use vstd::prelude::*;
use crate::error::{Failure, PreflightError};
use crate::types::{same_hash, Fork, L2Block, B256};

verus! {

/// The forms that an anchor call has had.
#[derive(Clone, Copy, Debug, PartialEq, Eq, Structural)]
pub enum AnchorAbi {
    Hekla,
    Ontake,
    Pacaya,
}

/// What an anchor call says: the number of an L1 block, and the state root of it.
#[derive(Clone, Copy, Debug, PartialEq, Eq)]
pub struct AnchorInfo {
    pub block_id: u64,
    pub state_root: B256,
}

/// The form that anchor calls have under a fork.
pub open spec fn abi_of(fork: Fork) -> AnchorAbi {
    match fork {
        Fork::Pacaya => AnchorAbi::Pacaya,
        Fork::Ontake => AnchorAbi::Ontake,
        Fork::Hekla => AnchorAbi::Hekla,
    }
}

/// What the anchor call of a transaction says, read in the form of the fork.
pub fn get_anchor_tx_info_by_fork<E, D: Fn(AnchorAbi, &Vec<u8>) -> Result<AnchorInfo, E>>(
    fork: Fork,
    input: &Vec<u8>,
    decode: &D,
) -> (r: Result<AnchorInfo, E>)
    requires
        forall|abi: AnchorAbi, data: Vec<u8>| call_requires(*decode, (abi, &data)),
    ensures
        call_ensures(*decode, (abi_of(fork), input), r),
{
    match fork {
        Fork::Pacaya => decode(AnchorAbi::Pacaya, input),
        Fork::Ontake => decode(AnchorAbi::Ontake, input),
        Fork::Hekla => decode(AnchorAbi::Hekla, input),
    }
}

/// The fork of a block, and what its anchor call says.
#[derive(Clone, Copy, Debug, PartialEq, Eq)]
pub struct Anchored {
    pub fork: Fork,
    pub anchor: AnchorInfo,
}

/// `r` can be the anchor of a single block: the fork of its number and time, and what its first
/// transaction says in the form of that fork. A block of the Pacaya fork is refused.
pub open spec fn single_anchor<T, E, F, D>(
    block: L2Block<T>,
    active_fork: F,
    decode: D,
    r: Result<Anchored, Failure<E>>,
) -> bool where
    F: Fn(u64, u64) -> Result<Fork, E>,
    D: Fn(AnchorAbi, &Vec<u8>) -> Result<AnchorInfo, E>,
 {
    match block.first_tx {
        None => r == Err::<Anchored, _>(Failure::<E>::Preflight(PreflightError::NoAnchorTx)),
        Some(tx) => exists|f: Result<Fork, E>| #[trigger]
            call_ensures(active_fork, (block.number, block.timestamp), f) && match f {
                Err(e) => r == Err::<Anchored, _>(Failure::Outside(e)),
                Ok(Fork::Pacaya) => r == Err::<Anchored, _>(
                    Failure::<E>::Preflight(PreflightError::PacayaSingleBlock),
                ),
                Ok(fork) => exists|a: Result<AnchorInfo, E>| #[trigger]
                    call_ensures(decode, (abi_of(fork), &tx.input), a) && match a {
                        Err(e) => r == Err::<Anchored, _>(Failure::Outside(e)),
                        Ok(anchor) => r == Ok::<_, Failure<E>>(Anchored { fork, anchor }),
                    },
            },
    }
}

/// The anchor of a single block.
pub fn get_single_anchor<T, E, F, D>(block: &L2Block<T>, active_fork: &F, decode: &D) -> (r: Result<
    Anchored,
    Failure<E>,
>) where
    F: Fn(u64, u64) -> Result<Fork, E>,
    D: Fn(AnchorAbi, &Vec<u8>) -> Result<AnchorInfo, E>,

    requires
        forall|number: u64, timestamp: u64| call_requires(*active_fork, (number, timestamp)),
        forall|abi: AnchorAbi, data: Vec<u8>| call_requires(*decode, (abi, &data)),
    ensures
        single_anchor(*block, *active_fork, *decode, r),
{
    match &block.first_tx {
        None => Err(Failure::Preflight(PreflightError::NoAnchorTx)),
        Some(tx) => match active_fork(block.number, block.timestamp) {
            Err(e) => Err(Failure::Outside(e)),
            Ok(fork) => match fork {
                Fork::Pacaya => Err(Failure::Preflight(PreflightError::PacayaSingleBlock)),
                _ => match get_anchor_tx_info_by_fork(fork, &tx.input, decode) {
                    Err(e) => Err(Failure::Outside(e)),
                    Ok(anchor) => Ok(Anchored { fork, anchor }),
                },
            },
        },
    }
}

/// `r` can be the anchor of a block of a batch: what its first transaction says, where its number
/// and time are of the Pacaya fork.
pub open spec fn block_anchor<T, E, F, D>(
    block: L2Block<T>,
    active_fork: F,
    decode: D,
    r: Result<AnchorInfo, Failure<E>>,
) -> bool where
    F: Fn(u64, u64) -> Result<Fork, E>,
    D: Fn(AnchorAbi, &Vec<u8>) -> Result<AnchorInfo, E>,
 {
    match block.first_tx {
        None => r == Err::<AnchorInfo, _>(
            Failure::<E>::Preflight(PreflightError::NoAnchorTxInBatch),
        ),
        Some(tx) => exists|f: Result<Fork, E>| #[trigger]
            call_ensures(active_fork, (block.number, block.timestamp), f) && match f {
                Err(e) => r == Err::<AnchorInfo, _>(Failure::BatchBlock(e)),
                Ok(Fork::Pacaya) => exists|a: Result<AnchorInfo, E>| #[trigger]
                    call_ensures(decode, (AnchorAbi::Pacaya, &tx.input), a) && match a {
                        Err(e) => r == Err::<AnchorInfo, _>(Failure::BatchBlock(e)),
                        Ok(anchor) => r == Ok::<_, Failure<E>>(anchor),
                    },
                Ok(_) => r == Err::<AnchorInfo, _>(
                    Failure::<E>::Preflight(PreflightError::NotPacayaBatch),
                ),
            },
    }
}

/// The anchor of a block of a batch.
pub fn get_block_anchor<T, E, F, D>(block: &L2Block<T>, active_fork: &F, decode: &D) -> (r: Result<
    AnchorInfo,
    Failure<E>,
>) where
    F: Fn(u64, u64) -> Result<Fork, E>,
    D: Fn(AnchorAbi, &Vec<u8>) -> Result<AnchorInfo, E>,

    requires
        forall|number: u64, timestamp: u64| call_requires(*active_fork, (number, timestamp)),
        forall|abi: AnchorAbi, data: Vec<u8>| call_requires(*decode, (abi, &data)),
    ensures
        block_anchor(*block, *active_fork, *decode, r),
{
    match &block.first_tx {
        None => Err(Failure::Preflight(PreflightError::NoAnchorTxInBatch)),
        Some(tx) => match active_fork(block.number, block.timestamp) {
            Err(e) => Err(Failure::BatchBlock(e)),
            Ok(fork) => {
                if fork != Fork::Pacaya {
                    return Err(Failure::Preflight(PreflightError::NotPacayaBatch));
                }
                match get_anchor_tx_info_by_fork(fork, &tx.input, decode) {
                    Err(e) => Err(Failure::BatchBlock(e)),
                    Ok(anchor) => Ok(anchor),
                }
            },
        },
    }
}

/// Whether two anchor calls say the same.
pub fn same_anchor(a: &AnchorInfo, b: &AnchorInfo) -> (r: bool)
    ensures
        r == (*a == *b),
{
    a.block_id == b.block_id && same_hash(&a.state_root, &b.state_root)
}

/// `anchors` are the anchors of the blocks, in their order.
pub open spec fn anchors_of<T, E, F, D>(
    blocks: Seq<L2Block<T>>,
    active_fork: F,
    decode: D,
    anchors: Seq<AnchorInfo>,
) -> bool where
    F: Fn(u64, u64) -> Result<Fork, E>,
    D: Fn(AnchorAbi, &Vec<u8>) -> Result<AnchorInfo, E>,
 {
    &&& anchors.len() <= blocks.len()
    &&& forall|i: int|
        0 <= i < anchors.len() ==> block_anchor(
            blocks[i],
            active_fork,
            decode,
            Ok(#[trigger] anchors[i]),
        )
}

/// The anchors of the blocks; the first block without one ends the work.
pub fn get_anchors<T, E, F, D>(blocks: &Vec<L2Block<T>>, active_fork: &F, decode: &D) -> (r: Result<
    Vec<AnchorInfo>,
    Failure<E>,
>) where
    F: Fn(u64, u64) -> Result<Fork, E>,
    D: Fn(AnchorAbi, &Vec<u8>) -> Result<AnchorInfo, E>,

    requires
        forall|number: u64, timestamp: u64| call_requires(*active_fork, (number, timestamp)),
        forall|abi: AnchorAbi, data: Vec<u8>| call_requires(*decode, (abi, &data)),
    ensures
        match r {
            Ok(anchors) => anchors@.len() == blocks@.len() && anchors_of(
                blocks@,
                *active_fork,
                *decode,
                anchors@,
            ),
            Err(e) => exists|done: Seq<AnchorInfo>| #[trigger]
                anchors_of(blocks@, *active_fork, *decode, done) && done.len() < blocks@.len()
                    && block_anchor(blocks@[done.len() as int], *active_fork, *decode, Err(e)),
        },
{
    let mut anchors: Vec<AnchorInfo> = Vec::new();
    let mut i: usize = 0;
    while i < blocks.len()
        invariant
            forall|number: u64, timestamp: u64| call_requires(*active_fork, (number, timestamp)),
            forall|abi: AnchorAbi, data: Vec<u8>| call_requires(*decode, (abi, &data)),
            i <= blocks@.len(),
            anchors@.len() == i,
            anchors_of(blocks@, *active_fork, *decode, anchors@),
        decreases blocks@.len() - i,
    {
        match get_block_anchor(&blocks[i], active_fork, decode) {
            Err(e) => {
                return Err(e);
            },
            Ok(anchor) => {
                anchors.push(anchor);
            },
        }
        i += 1;
    }
    Ok(anchors)
}

/// A single block that is anchored has a transaction, and is never of the Pacaya fork.
pub proof fn law_single_block_is_never_of_pacaya<T, E, F, D>(
    block: L2Block<T>,
    active_fork: F,
    decode: D,
    anchored: Anchored,
) where
    F: Fn(u64, u64) -> Result<Fork, E>,
    D: Fn(AnchorAbi, &Vec<u8>) -> Result<AnchorInfo, E>,

    requires
        single_anchor(block, active_fork, decode, Ok(anchored)),
    ensures
        block.first_tx is Some,
        anchored.fork != Fork::Pacaya,
{
}

/// The anchor of a single block comes from the fork of the number and time of that block and from
/// the call data of its first transaction, read in the form of that fork.
pub proof fn law_single_anchor_is_read_from_its_block<T, E, F, D>(
    block: L2Block<T>,
    active_fork: F,
    decode: D,
    anchored: Anchored,
) where
    F: Fn(u64, u64) -> Result<Fork, E>,
    D: Fn(AnchorAbi, &Vec<u8>) -> Result<AnchorInfo, E>,

    requires
        single_anchor(block, active_fork, decode, Ok(anchored)),
    ensures
        call_ensures(active_fork, (block.number, block.timestamp), Ok(anchored.fork)),
        block.first_tx matches Some(tx) && {
            ||| anchored.fork == Fork::Hekla && call_ensures(
                decode,
                (AnchorAbi::Hekla, &tx.input),
                Ok(anchored.anchor),
            )
            ||| anchored.fork == Fork::Ontake && call_ensures(
                decode,
                (AnchorAbi::Ontake, &tx.input),
                Ok(anchored.anchor),
            )
        },
{
}

/// A single block has no anchor only where it has no transaction, is of the Pacaya fork, or its
/// fork or its anchor call cannot be told; each has a failure of its own.
pub proof fn law_single_anchor_fails_only_for_cause<T, E, F, D>(
    block: L2Block<T>,
    active_fork: F,
    decode: D,
    failure: Failure<E>,
) where
    F: Fn(u64, u64) -> Result<Fork, E>,
    D: Fn(AnchorAbi, &Vec<u8>) -> Result<AnchorInfo, E>,

    requires
        single_anchor(block, active_fork, decode, Err(failure)),
    ensures
        failure == Failure::<E>::Preflight(PreflightError::NoAnchorTx) <==> block.first_tx is None,
        match failure {
            Failure::Preflight(PreflightError::NoAnchorTx) => true,
            Failure::Preflight(PreflightError::PacayaSingleBlock) => call_ensures(
                active_fork,
                (block.number, block.timestamp),
                Ok(Fork::Pacaya),
            ),
            Failure::Outside(e) => {
                ||| call_ensures(active_fork, (block.number, block.timestamp), Err(e))
                ||| block.first_tx matches Some(tx) && {
                    ||| call_ensures(active_fork, (block.number, block.timestamp), Ok(Fork::Hekla))
                        && call_ensures(decode, (AnchorAbi::Hekla, &tx.input), Err(e))
                    ||| call_ensures(active_fork, (block.number, block.timestamp), Ok(Fork::Ontake))
                        && call_ensures(decode, (AnchorAbi::Ontake, &tx.input), Err(e))
                }
            },
            _ => false,
        },
{
}

/// The anchor of a block of a batch is what the call data of its first transaction say in the form
/// of the Pacaya fork, and the block is of that fork.
pub proof fn law_batch_anchor_is_read_from_its_block<T, E, F, D>(
    block: L2Block<T>,
    active_fork: F,
    decode: D,
    anchor: AnchorInfo,
) where
    F: Fn(u64, u64) -> Result<Fork, E>,
    D: Fn(AnchorAbi, &Vec<u8>) -> Result<AnchorInfo, E>,

    requires
        block_anchor(block, active_fork, decode, Ok(anchor)),
    ensures
        call_ensures(active_fork, (block.number, block.timestamp), Ok(Fork::Pacaya)),
        block.first_tx matches Some(tx) && call_ensures(
            decode,
            (AnchorAbi::Pacaya, &tx.input),
            Ok(anchor),
        ),
{
}

/// A block of a batch has no anchor only where it has no transaction, is not of the Pacaya fork, or
/// its fork or its anchor call cannot be told; each has a failure of its own.
pub proof fn law_batch_anchor_fails_only_for_cause<T, E, F, D>(
    block: L2Block<T>,
    active_fork: F,
    decode: D,
    failure: Failure<E>,
) where
    F: Fn(u64, u64) -> Result<Fork, E>,
    D: Fn(AnchorAbi, &Vec<u8>) -> Result<AnchorInfo, E>,

    requires
        block_anchor(block, active_fork, decode, Err(failure)),
    ensures
        failure == Failure::<E>::Preflight(PreflightError::NoAnchorTxInBatch) <==> block.first_tx
            is None,
        match failure {
            Failure::Preflight(PreflightError::NoAnchorTxInBatch) => true,
            Failure::Preflight(PreflightError::NotPacayaBatch) => {
                ||| call_ensures(active_fork, (block.number, block.timestamp), Ok(Fork::Hekla))
                ||| call_ensures(active_fork, (block.number, block.timestamp), Ok(Fork::Ontake))
            },
            Failure::BatchBlock(e) => {
                ||| call_ensures(active_fork, (block.number, block.timestamp), Err(e))
                ||| block.first_tx matches Some(tx) && call_ensures(
                    active_fork,
                    (block.number, block.timestamp),
                    Ok(Fork::Pacaya),
                ) && call_ensures(decode, (AnchorAbi::Pacaya, &tx.input), Err(e))
            },
            _ => false,
        },
{
}

/// Each anchor of a list is that of the block at the same place.
pub proof fn law_anchors_stand_where_their_blocks_do<T, E, F, D>(
    blocks: Seq<L2Block<T>>,
    active_fork: F,
    decode: D,
    anchors: Seq<AnchorInfo>,
    i: int,
) where
    F: Fn(u64, u64) -> Result<Fork, E>,
    D: Fn(AnchorAbi, &Vec<u8>) -> Result<AnchorInfo, E>,

    requires
        anchors_of(blocks, active_fork, decode, anchors),
        0 <= i < anchors.len(),
    ensures
        anchors.len() <= blocks.len(),
        block_anchor(blocks[i], active_fork, decode, Ok(anchors[i])),
{
}

/// Each fork has the form of anchor calls that bears its name.
pub proof fn law_anchor_calls_have_the_form_of_their_fork(fork: Fork)
    ensures
        abi_of(fork) == AnchorAbi::Hekla <==> fork == Fork::Hekla,
        abi_of(fork) == AnchorAbi::Ontake <==> fork == Fork::Ontake,
        abi_of(fork) == AnchorAbi::Pacaya <==> fork == Fork::Pacaya,
{
}

} // verus!
