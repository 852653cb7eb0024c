//! Proposal events: which logs of the L1 chain to ask for, and which of them is the one.
use vstd::prelude::*;
use crate::error::PreflightError;
use crate::outside::{new_log, LogStruct};
use crate::types::{
    Address, BatchInfo, BlockProposedFork, Fork, Proposal, ProposalTx, Proposed, B256, U256,
};

verus! {

/// Which part of the L1 chain to search for an event.
#[derive(Clone, Copy, Debug, PartialEq, Eq)]
pub enum EventFilterConditioin {
    /// The block of this hash.
    Hash(B256),
    /// The block of this number.
    Height(u64),
    /// The blocks from the first number to the second, both included.
    Range((u64, u64)),
}

/// The events that are searched for.
#[derive(Clone, Copy, Debug, PartialEq, Eq, Structural)]
pub enum EventKind {
    BlockProposed,
    BlockProposedV2,
    BatchProposed,
    CalldataTxList,
}

/// The blocks that a filter lets through.
#[derive(Clone, Copy, Debug, PartialEq, Eq)]
pub enum FilterBlocks {
    AtHash(B256),
    Between { from_block: u64, to_block: u64 },
}

/// A question for logs: of one contract, in some blocks, of one event.
#[derive(Clone, Copy, Debug, PartialEq, Eq)]
pub struct EventFilter {
    pub address: Address,
    pub blocks: FilterBlocks,
    pub event: EventKind,
}

/// The event that proposes a block under a fork.
pub open spec fn event_of_fork(fork: Fork) -> EventKind {
    match fork {
        Fork::Pacaya => EventKind::BatchProposed,
        Fork::Ontake => EventKind::BlockProposedV2,
        Fork::Hekla => EventKind::BlockProposed,
    }
}

/// The blocks that a condition asks for. A height reaches to the block after it.
pub open spec fn blocks_of(condition: EventFilterConditioin) -> FilterBlocks {
    match condition {
        EventFilterConditioin::Hash(hash) => FilterBlocks::AtHash(hash),
        EventFilterConditioin::Height(n) => FilterBlocks::Between {
            from_block: n,
            to_block: (n + 1) as u64,
        },
        EventFilterConditioin::Range((from_block, to_block)) => FilterBlocks::Between {
            from_block,
            to_block,
        },
    }
}

/// The filter for proposal events, or the failure where the contract is not known.
pub open spec fn proposed_filter(
    l1_contract: Option<Address>,
    condition: EventFilterConditioin,
    fork: Fork,
) -> Result<EventFilter, PreflightError> {
    match l1_contract {
        None => Err(PreflightError::NoL1Contract),
        Some(address) => Ok(
            EventFilter { address, blocks: blocks_of(condition), event: event_of_fork(fork) },
        ),
    }
}

/// The filter for the proposal events of a fork.
pub fn block_proposed_filter(
    l1_contract: Option<Address>,
    filter_condition: EventFilterConditioin,
    fork: Fork,
) -> (r: Result<EventFilter, PreflightError>)
    requires
        l1_contract is Some ==> (filter_condition matches EventFilterConditioin::Height(n) ==> n
            < u64::MAX),
    ensures
        r == proposed_filter(l1_contract, filter_condition, fork),
{
    match l1_contract {
        None => Err(PreflightError::NoL1Contract),
        Some(address) => {
            let event: EventKind = match fork {
                Fork::Pacaya => EventKind::BatchProposed,
                Fork::Ontake => EventKind::BlockProposedV2,
                Fork::Hekla => EventKind::BlockProposed,
            };
            let blocks: FilterBlocks = match filter_condition {
                EventFilterConditioin::Hash(hash) => FilterBlocks::AtHash(hash),
                EventFilterConditioin::Height(n) => FilterBlocks::Between {
                    from_block: n,
                    to_block: n + 1,
                },
                EventFilterConditioin::Range((from_block, to_block)) => FilterBlocks::Between {
                    from_block,
                    to_block,
                },
            };
            Ok(EventFilter { address, blocks, event })
        },
    }
}

/// The filter for the proposal events in the block of a hash.
pub open spec fn filter_by_hash(
    l1_contract: Option<Address>,
    l1_inclusion_block_hash: B256,
    fork: Fork,
) -> Result<EventFilter, PreflightError> {
    proposed_filter(l1_contract, EventFilterConditioin::Hash(l1_inclusion_block_hash), fork)
}

/// The filter for the proposal events at a height.
pub open spec fn filter_by_height(
    l1_contract: Option<Address>,
    l1_inclusion_block_number: u64,
    fork: Fork,
) -> Result<EventFilter, PreflightError> {
    proposed_filter(l1_contract, EventFilterConditioin::Height(l1_inclusion_block_number), fork)
}

/// The filter for the proposal events in the blocks after an anchor block.
pub open spec fn filter_by_traversal(
    l1_contract: Option<Address>,
    l1_anchor_block_number: u64,
    latest_block_number: u64,
    fork: Fork,
) -> Result<EventFilter, PreflightError> {
    proposed_filter(
        l1_contract,
        EventFilterConditioin::Range(traversal(l1_anchor_block_number, latest_block_number)),
        fork,
    )
}

/// The filter for the transaction lists that were posted as call data in the block of a hash.
pub open spec fn filter_for_lists(l1_contract: Option<Address>, block_hash: B256) -> Result<
    EventFilter,
    PreflightError,
> {
    match l1_contract {
        None => Err(PreflightError::NoL1Contract),
        Some(address) => Ok(
            EventFilter {
                address,
                blocks: FilterBlocks::AtHash(block_hash),
                event: EventKind::CalldataTxList,
            },
        ),
    }
}

/// The filter for the proposal events in the block of a hash.
pub fn _get_block_proposed_event_by_hash(
    l1_contract: Option<Address>,
    l1_inclusion_block_hash: B256,
    fork: Fork,
) -> (r: Result<EventFilter, PreflightError>)
    ensures
        r == filter_by_hash(l1_contract, l1_inclusion_block_hash, fork),
        r == proposed_filter(
            l1_contract,
            EventFilterConditioin::Hash(l1_inclusion_block_hash),
            fork,
        ),
{
    block_proposed_filter(l1_contract, EventFilterConditioin::Hash(l1_inclusion_block_hash), fork)
}

/// The filter for the proposal events at a height.
pub fn get_block_proposed_event_by_height(
    l1_contract: Option<Address>,
    l1_inclusion_block_number: u64,
    fork: Fork,
) -> (r: Result<EventFilter, PreflightError>)
    requires
        l1_contract is Some ==> l1_inclusion_block_number < u64::MAX,
    ensures
        r == filter_by_height(l1_contract, l1_inclusion_block_number, fork),
        r == proposed_filter(
            l1_contract,
            EventFilterConditioin::Height(l1_inclusion_block_number),
            fork,
        ),
{
    block_proposed_filter(
        l1_contract,
        EventFilterConditioin::Height(l1_inclusion_block_number),
        fork,
    )
}

/// The blocks in which the proposal for an anchor block is to be found: the next sixty-four, as
/// far as the chain has come.
pub open spec fn traversal(l1_anchor_block_number: u64, latest_block_number: u64) -> (u64, u64) {
    (
        (l1_anchor_block_number + 1) as u64,
        if l1_anchor_block_number + 64 <= latest_block_number {
            (l1_anchor_block_number + 64) as u64
        } else {
            latest_block_number
        },
    )
}

/// The filter for the proposal events in the blocks after an anchor block.
pub fn get_block_proposed_event_by_traversal(
    l1_contract: Option<Address>,
    l1_anchor_block_number: u64,
    latest_block_number: u64,
    fork: Fork,
) -> (r: Result<EventFilter, PreflightError>)
    requires
        l1_anchor_block_number + 64 <= u64::MAX,
    ensures
        r == filter_by_traversal(l1_contract, l1_anchor_block_number, latest_block_number, fork),
        r == proposed_filter(
            l1_contract,
            EventFilterConditioin::Range(traversal(l1_anchor_block_number, latest_block_number)),
            fork,
        ),
{
    let range_start: u64 = l1_anchor_block_number + 1;
    let reach: u64 = l1_anchor_block_number + 64;
    let range_end: u64 = if reach <= latest_block_number {
        reach
    } else {
        latest_block_number
    };
    block_proposed_filter(
        l1_contract,
        EventFilterConditioin::Range((range_start, range_end)),
        fork,
    )
}

/// The filter for the transaction lists that were posted as call data in the block of a hash.
pub fn calldata_txlist_filter(l1_contract: Option<Address>, block_hash: B256) -> (r: Result<
    EventFilter,
    PreflightError,
>)
    ensures
        r == filter_for_lists(l1_contract, block_hash),
        r == match l1_contract {
            None => Err(PreflightError::NoL1Contract),
            Some(address) => Ok(
                EventFilter {
                    address,
                    blocks: FilterBlocks::AtHash(block_hash),
                    event: EventKind::CalldataTxList,
                },
            ),
        },
{
    match l1_contract {
        None => Err(PreflightError::NoL1Contract),
        Some(address) => Ok(
            EventFilter {
                address,
                blocks: FilterBlocks::AtHash(block_hash),
                event: EventKind::CalldataTxList,
            },
        ),
    }
}

/// A log, as the L1 chain serves it.
#[derive(Debug, PartialEq, Eq)]
pub struct RpcLog {
    pub address: Address,
    pub topics: Vec<B256>,
    pub data: Vec<u8>,
    pub transaction_hash: Option<B256>,
    pub block_number: Option<u64>,
}

impl RpcLog {
    /// A log has four topics at most.
    pub open spec fn well_formed(self) -> bool {
        self.topics@.len() <= 4
    }

    /// `log` is the emitted part of this one.
    pub open spec fn carries(self, log: LogStruct) -> bool {
        &&& log.address == self.address
        &&& log.topics@ == self.topics@
        &&& log.data@ == self.data@
    }
}

/// The event that was searched for, with the transaction and the block that its log names.
#[derive(Debug, PartialEq, Eq)]
pub struct Found<D> {
    pub transaction_hash: B256,
    pub block_number: Option<u64>,
    pub event: D,
}

/// What one log means for the search: `None` to go on, else the outcome.
pub open spec fn verdict<D>(
    log: RpcLog,
    decoded: Option<(U256, D)>,
    wanted: u64,
) -> Option<Result<Found<D>, PreflightError>> {
    if !log.well_formed() {
        Some(Err(PreflightError::LogNotCreated))
    } else {
        match decoded {
            None => Some(Err(PreflightError::LogNotDecoded)),
            Some((id, event)) => if id.value() != wanted {
                None
            } else {
                match log.transaction_hash {
                    None => Some(Err(PreflightError::NoTransactionHash)),
                    Some(transaction_hash) => Some(
                        Ok(Found { transaction_hash, block_number: log.block_number, event }),
                    ),
                }
            },
        }
    }
}

/// `r` can be the outcome of a search, where `decoded` is what the logs that were looked at turned
/// out to be: the logs are looked at in order, and the first one with a verdict ends the search.
/// A search that no log ends fails with `missing`.
pub open spec fn scanned<D>(
    logs: Seq<RpcLog>,
    decoded: Seq<Option<(U256, D)>>,
    wanted: u64,
    missing: PreflightError,
    r: Result<Found<D>, PreflightError>,
) -> bool {
    &&& decoded.len() <= logs.len()
    &&& forall|i: int|
        0 <= i < decoded.len() - 1 ==> verdict(logs[i], #[trigger] decoded[i], wanted) is None
    &&& {
        ||| decoded.len() > 0 && verdict(logs[decoded.len() - 1], decoded.last(), wanted) == Some(r)
        ||| {
            &&& decoded.len() == logs.len()
            &&& decoded.len() > 0 ==> verdict(logs.last(), decoded.last(), wanted) is None
            &&& r == Err::<Found<D>, _>(missing)
        }
    }
}

/// What one log means for the search, once it is decoded.
pub fn judge<D>(
    log: &RpcLog,
    decoded: Option<(U256, D)>,
    wanted: u64,
) -> (r: Option<Result<Found<D>, PreflightError>>)
    requires
        log.well_formed(),
    ensures
        r == verdict(*log, decoded, wanted),
{
    match decoded {
        None => Some(Err(PreflightError::LogNotDecoded)),
        Some((id, event)) => {
            if !id.equals(&U256::from_u64(wanted)) {
                None
            } else {
                match log.transaction_hash {
                    None => Some(Err(PreflightError::NoTransactionHash)),
                    Some(transaction_hash) => Some(
                        Ok(Found { transaction_hash, block_number: log.block_number, event }),
                    ),
                }
            }
        },
    }
}

/// A batch proposal, as its log spells it.
#[derive(Debug, PartialEq, Eq)]
pub struct BatchProposedEvent<D> {
    pub batch_id: u64,
    pub info: BatchInfo,
    pub blob_used: bool,
    pub blob_hash: B256,
    pub data: D,
}

/// A block proposal, as its log spells it.
#[derive(Debug, PartialEq, Eq)]
pub struct BlockProposedEvent<D> {
    pub block_id: U256,
    pub blob_used: bool,
    pub blob_hash: B256,
    pub data: D,
}

/// The decoders of the proposal events that the caller brings.
pub struct ProposalDecoders<A, B, C> {
    pub batch_proposed: A,
    pub block_proposed_v2: B,
    pub block_proposed: C,
}

impl<D, A, B, C> ProposalDecoders<A, B, C> where
    A: Fn(&LogStruct) -> Option<BatchProposedEvent<D>>,
    B: Fn(&LogStruct) -> Option<BlockProposedEvent<D>>,
    C: Fn(&LogStruct) -> Option<BlockProposedEvent<D>>,
 {
    /// The decoders take any log.
    pub open spec fn can_decode(self) -> bool {
        &&& forall|log: LogStruct| call_requires(self.batch_proposed, (&log,))
        &&& forall|log: LogStruct| call_requires(self.block_proposed_v2, (&log,))
        &&& forall|log: LogStruct| call_requires(self.block_proposed, (&log,))
    }

    /// `r` can be the proposal that the decoder of the fork finds in a log, with the number of its
    /// batch or block.
    pub open spec fn decodes(
        self,
        fork: Fork,
        log: LogStruct,
        r: Option<(U256, BlockProposedFork<D>)>,
    ) -> bool {
        match fork {
            Fork::Pacaya => exists|e: Option<BatchProposedEvent<D>>| #[trigger]
                call_ensures(self.batch_proposed, (&log,), e) && match (e, r) {
                    (None, None) => true,
                    (Some(event), Some((id, proposal))) => id.value() == event.batch_id && proposal
                        == batch_proposed(event),
                    _ => false,
                },
            Fork::Ontake => exists|e: Option<BlockProposedEvent<D>>| #[trigger]
                call_ensures(self.block_proposed_v2, (&log,), e) && r == match e {
                    None => None,
                    Some(event) => Some((event.block_id, block_proposed(Proposed::Ontake, event))),
                },
            Fork::Hekla => exists|e: Option<BlockProposedEvent<D>>| #[trigger]
                call_ensures(self.block_proposed, (&log,), e) && r == match e {
                    None => None,
                    Some(event) => Some((event.block_id, block_proposed(Proposed::Hekla, event))),
                },
        }
    }

    /// `r` can be what a log turns out to be, decoded as it was emitted.
    pub open spec fn decodes_rpc(
        self,
        fork: Fork,
        log: RpcLog,
        r: Option<(U256, BlockProposedFork<D>)>,
    ) -> bool {
        exists|emitted: LogStruct| log.carries(emitted) && #[trigger] self.decodes(fork, emitted, r)
    }

    /// `decoded` can be what the logs turn out to be, as far as they are well formed.
    pub open spec fn decodes_all(
        self,
        fork: Fork,
        logs: Seq<RpcLog>,
        decoded: Seq<Option<(U256, BlockProposedFork<D>)>>,
    ) -> bool {
        forall|i: int|
            0 <= i < decoded.len() && logs[i].well_formed() ==> self.decodes_rpc(
                fork,
                logs[i],
                #[trigger] decoded[i],
            )
    }
}

/// A batch proposal.
pub open spec fn batch_proposed<D>(event: BatchProposedEvent<D>) -> BlockProposedFork<D> {
    BlockProposedFork {
        proposed: Proposed::Pacaya(event.info),
        blob_used: event.blob_used,
        blob_hash: event.blob_hash,
        data: event.data,
    }
}

/// A block proposal of the given kind.
pub open spec fn block_proposed<D>(proposed: Proposed, event: BlockProposedEvent<D>) -> BlockProposedFork<
    D,
> {
    BlockProposedFork {
        proposed,
        blob_used: event.blob_used,
        blob_hash: event.blob_hash,
        data: event.data,
    }
}

/// The proposal that the decoder of the fork finds in a log.
fn decode_proposal<D, A, B, C>(
    fork: Fork,
    log: &LogStruct,
    decoders: &ProposalDecoders<A, B, C>,
) -> (r: Option<(U256, BlockProposedFork<D>)>) where
    A: Fn(&LogStruct) -> Option<BatchProposedEvent<D>>,
    B: Fn(&LogStruct) -> Option<BlockProposedEvent<D>>,
    C: Fn(&LogStruct) -> Option<BlockProposedEvent<D>>,

    requires
        decoders.can_decode(),
    ensures
        decoders.decodes(fork, *log, r),
{
    match fork {
        Fork::Pacaya => match (decoders.batch_proposed)(log) {
            None => None,
            Some(event) => Some(
                (
                    U256::from_u64(event.batch_id),
                    BlockProposedFork {
                        proposed: Proposed::Pacaya(event.info),
                        blob_used: event.blob_used,
                        blob_hash: event.blob_hash,
                        data: event.data,
                    },
                ),
            ),
        },
        Fork::Ontake => match (decoders.block_proposed_v2)(log) {
            None => None,
            Some(event) => Some(
                (
                    event.block_id,
                    BlockProposedFork {
                        proposed: Proposed::Ontake,
                        blob_used: event.blob_used,
                        blob_hash: event.blob_hash,
                        data: event.data,
                    },
                ),
            ),
        },
        Fork::Hekla => match (decoders.block_proposed)(log) {
            None => None,
            Some(event) => Some(
                (
                    event.block_id,
                    BlockProposedFork {
                        proposed: Proposed::Hekla,
                        blob_used: event.blob_used,
                        blob_hash: event.blob_hash,
                        data: event.data,
                    },
                ),
            ),
        },
    }
}

/// `r` can be the outcome of the search for the proposal of a block or batch under a fork.
pub open spec fn proposal_searched<D, A, B, C>(
    logs: Seq<RpcLog>,
    block_num_or_batch_id: u64,
    fork: Fork,
    decoders: ProposalDecoders<A, B, C>,
    r: Result<Found<BlockProposedFork<D>>, PreflightError>,
) -> bool where
    A: Fn(&LogStruct) -> Option<BatchProposedEvent<D>>,
    B: Fn(&LogStruct) -> Option<BlockProposedEvent<D>>,
    C: Fn(&LogStruct) -> Option<BlockProposedEvent<D>>,
 {
    exists|decoded: Seq<Option<(U256, BlockProposedFork<D>)>>| #[trigger]
        decoders.decodes_all(fork, logs, decoded) && scanned(
            logs,
            decoded,
            block_num_or_batch_id,
            PreflightError::NoProposalEvent(block_num_or_batch_id),
            r,
        )
}

/// The first of the logs that proposes the block or batch of the given number.
pub fn filter_block_proposed_event<D, A, B, C>(
    logs: &Vec<RpcLog>,
    block_num_or_batch_id: u64,
    fork: Fork,
    decoders: &ProposalDecoders<A, B, C>,
) -> (r: Result<Found<BlockProposedFork<D>>, PreflightError>) where
    A: Fn(&LogStruct) -> Option<BatchProposedEvent<D>>,
    B: Fn(&LogStruct) -> Option<BlockProposedEvent<D>>,
    C: Fn(&LogStruct) -> Option<BlockProposedEvent<D>>,

    requires
        decoders.can_decode(),
    ensures
        proposal_searched(logs@, block_num_or_batch_id, fork, *decoders, r),
        exists|decoded: Seq<Option<(U256, BlockProposedFork<D>)>>| #[trigger]
            decoders.decodes_all(fork, logs@, decoded) && scanned(
                logs@,
                decoded,
                block_num_or_batch_id,
                PreflightError::NoProposalEvent(block_num_or_batch_id),
                r,
            ),
{
    let ghost mut decoded: Seq<Option<(U256, BlockProposedFork<D>)>> = Seq::empty();
    let mut i: usize = 0;
    while i < logs.len()
        invariant
            decoders.can_decode(),
            i <= logs@.len(),
            decoded.len() == i,
            decoders.decodes_all(fork, logs@, decoded),
            forall|j: int|
                0 <= j < i ==> verdict(logs@[j], #[trigger] decoded[j], block_num_or_batch_id) is None,
        decreases logs@.len() - i,
    {
        let log: &RpcLog = &logs[i];
        match new_log(&log.address, &log.topics, &log.data) {
            None => {
                proof {
                    decoded = decoded.push(None);
                    assert(decoders.decodes_all(fork, logs@, decoded));
                }
                return Err(PreflightError::LogNotCreated);
            },
            Some(log_struct) => {
                let event: Option<(U256, BlockProposedFork<D>)> = decode_proposal(
                    fork,
                    &log_struct,
                    decoders,
                );
                proof {
                    decoded = decoded.push(event);
                    assert(decoders.decodes_rpc(fork, *log, event));
                    assert(decoders.decodes_all(fork, logs@, decoded));
                }
                match judge(log, event, block_num_or_batch_id) {
                    Some(outcome) => {
                        return outcome;
                    },
                    None => {},
                }
            },
        }
        i += 1;
    }
    Err(PreflightError::NoProposalEvent(block_num_or_batch_id))
}

/// A list of transactions that was posted as call data, as its log spells it.
#[derive(Debug, PartialEq, Eq)]
pub struct CalldataTxList {
    pub block_id: U256,
    pub tx_list: Vec<u8>,
}

/// `r` can be the list that a decoder finds in a log, decoded as it was emitted, with the number
/// of its block.
pub open spec fn list_decoded<F: Fn(&LogStruct) -> Option<CalldataTxList>>(
    decode: F,
    log: RpcLog,
    r: Option<(U256, Vec<u8>)>,
) -> bool {
    exists|emitted: LogStruct, list: Option<CalldataTxList>|
        log.carries(emitted) && #[trigger] call_ensures(decode, (&emitted,), list) && r
            == match list {
            None => None,
            Some(l) => Some((l.block_id, l.tx_list)),
        }
}

/// `decoded` can be what the logs turn out to be, as far as they are well formed.
pub open spec fn lists_decoded<F: Fn(&LogStruct) -> Option<CalldataTxList>>(
    decode: F,
    logs: Seq<RpcLog>,
    decoded: Seq<Option<(U256, Vec<u8>)>>,
) -> bool {
    forall|i: int|
        0 <= i < decoded.len() && logs[i].well_formed() ==> list_decoded(
            decode,
            logs[i],
            #[trigger] decoded[i],
        )
}

/// `r` can be the outcome of the search for the transactions of a block.
pub open spec fn list_searched<F: Fn(&LogStruct) -> Option<CalldataTxList>>(
    logs: Seq<RpcLog>,
    l2_block_number: u64,
    decode: F,
    r: Result<Found<Vec<u8>>, PreflightError>,
) -> bool {
    exists|decoded: Seq<Option<(U256, Vec<u8>)>>| #[trigger]
        lists_decoded(decode, logs, decoded) && scanned(
            logs,
            decoded,
            l2_block_number,
            PreflightError::NoCalldataEvent(l2_block_number),
            r,
        )
}

/// The first of the logs that holds the transactions of the given block.
pub fn get_calldata_txlist_event<F: Fn(&LogStruct) -> Option<CalldataTxList>>(
    logs: &Vec<RpcLog>,
    l2_block_number: u64,
    decode: &F,
) -> (r: Result<Found<Vec<u8>>, PreflightError>)
    requires
        forall|log: LogStruct| call_requires(*decode, (&log,)),
    ensures
        list_searched(logs@, l2_block_number, *decode, r),
        exists|decoded: Seq<Option<(U256, Vec<u8>)>>| #[trigger]
            lists_decoded(*decode, logs@, decoded) && scanned(
                logs@,
                decoded,
                l2_block_number,
                PreflightError::NoCalldataEvent(l2_block_number),
                r,
            ),
{
    let ghost mut decoded: Seq<Option<(U256, Vec<u8>)>> = Seq::empty();
    let mut i: usize = 0;
    while i < logs.len()
        invariant
            forall|log: LogStruct| call_requires(*decode, (&log,)),
            i <= logs@.len(),
            decoded.len() == i,
            lists_decoded(*decode, logs@, decoded),
            forall|j: int|
                0 <= j < i ==> verdict(logs@[j], #[trigger] decoded[j], l2_block_number) is None,
        decreases logs@.len() - i,
    {
        let log: &RpcLog = &logs[i];
        match new_log(&log.address, &log.topics, &log.data) {
            None => {
                proof {
                    decoded = decoded.push(None);
                    assert(lists_decoded(*decode, logs@, decoded));
                }
                return Err(PreflightError::LogNotCreated);
            },
            Some(log_struct) => {
                let list: Option<CalldataTxList> = decode(&log_struct);
                let ghost given = list;
                let event: Option<(U256, Vec<u8>)> = match list {
                    None => None,
                    Some(l) => Some((l.block_id, l.tx_list)),
                };
                proof {
                    decoded = decoded.push(event);
                    assert(call_ensures(*decode, (&log_struct,), given));
                    assert(list_decoded(*decode, *log, event));
                    assert(lists_decoded(*decode, logs@, decoded));
                }
                match judge(log, event, l2_block_number) {
                    Some(outcome) => {
                        return outcome;
                    },
                    None => {},
                }
            },
        }
        i += 1;
    }
    Err(PreflightError::NoCalldataEvent(l2_block_number))
}

/// The proposal, once its transaction has been fetched. A log that names no block breaks off.
pub open spec fn proposal_from<D>(found: Found<BlockProposedFork<D>>, tx: ProposalTx) -> Result<
    Proposal<D>,
    PreflightError,
> {
    match found.block_number {
        None => Err(PreflightError::NoBlockNumber),
        Some(l1_block_number) => Ok(Proposal { l1_block_number, tx, event: found.event }),
    }
}

/// The proposal, once its transaction has been fetched.
pub fn proposal_of<D>(found: Found<BlockProposedFork<D>>, tx: ProposalTx) -> (r: Result<
    Proposal<D>,
    PreflightError,
>)
    ensures
        r == proposal_from(found, tx),
{
    match found.block_number {
        None => Err(PreflightError::NoBlockNumber),
        Some(l1_block_number) => Ok(Proposal { l1_block_number, tx, event: found.event }),
    }
}

/// The traversal takes in the sixty-four blocks after the anchor block that the chain has already,
/// and no others.
pub proof fn law_traversal_is_the_next_blocks(
    l1_anchor_block_number: u64,
    latest_block_number: u64,
    number: int,
)
    requires
        l1_anchor_block_number + 64 <= u64::MAX,
    ensures
        ({
            let (from_block, to_block) = traversal(l1_anchor_block_number, latest_block_number);
            &&& from_block <= number <= to_block <==> l1_anchor_block_number < number
                <= l1_anchor_block_number + 64 && number <= latest_block_number
            &&& from_block == l1_anchor_block_number + 1
            &&& to_block <= l1_anchor_block_number + 64 && to_block <= latest_block_number
            &&& to_block == l1_anchor_block_number + 64 || to_block == latest_block_number
        }),
{
}

/// The event that a search finds is the first of the number that was wanted: its log names the
/// transaction, and each log before it is well formed and of another number.
pub proof fn law_search_finds_the_first<D>(
    logs: Seq<RpcLog>,
    decoded: Seq<Option<(U256, D)>>,
    wanted: u64,
    missing: PreflightError,
    found: Found<D>,
)
    requires
        scanned(logs, decoded, wanted, missing, Ok(found)),
    ensures
        0 < decoded.len() <= logs.len(),
        decoded.last() matches Some((id, event)) && id.value() == wanted && event == found.event,
        logs[decoded.len() - 1].transaction_hash == Some(found.transaction_hash),
        logs[decoded.len() - 1].block_number == found.block_number,
        forall|i: int|
            0 <= i < decoded.len() - 1 ==> logs[i].well_formed() && (
            #[trigger] decoded[i] matches Some((id, _)) && id.value() != wanted),
{
    assert forall|i: int| 0 <= i < decoded.len() - 1 implies logs[i].well_formed() && (
    #[trigger] decoded[i] matches Some((id, _)) && id.value() != wanted) by {
        assert(verdict(logs[i], decoded[i], wanted) is None);
    }
}

/// A search that fails for want of an event has looked at every log, and none is of the number
/// that was wanted.
pub proof fn law_missing_event_is_nowhere<D>(
    logs: Seq<RpcLog>,
    decoded: Seq<Option<(U256, D)>>,
    wanted: u64,
    missing: PreflightError,
)
    requires
        missing is NoProposalEvent || missing is NoCalldataEvent,
        scanned(logs, decoded, wanted, missing, Err::<Found<D>, _>(missing)),
    ensures
        decoded.len() == logs.len(),
        forall|i: int|
            0 <= i < logs.len() ==> logs[i].well_formed() && (
            #[trigger] decoded[i] matches Some((id, _)) && id.value() != wanted),
{
    assert forall|i: int| 0 <= i < logs.len() implies logs[i].well_formed() && (
    #[trigger] decoded[i] matches Some((id, _)) && id.value() != wanted) by {
        assert(verdict(logs[i], decoded[i], wanted) is None);
    }
}

/// A proposal that is found under a fork is one of that fork, so that a batch is never taken for a
/// block or the other way round.
pub proof fn law_proposal_is_of_its_fork<D, A, B, C>(
    decoders: ProposalDecoders<A, B, C>,
    fork: Fork,
    logs: Seq<RpcLog>,
    decoded: Seq<Option<(U256, BlockProposedFork<D>)>>,
    wanted: u64,
    missing: PreflightError,
    found: Found<BlockProposedFork<D>>,
) where
    A: Fn(&LogStruct) -> Option<BatchProposedEvent<D>>,
    B: Fn(&LogStruct) -> Option<BlockProposedEvent<D>>,
    C: Fn(&LogStruct) -> Option<BlockProposedEvent<D>>,

    requires
        decoders.decodes_all(fork, logs, decoded),
        scanned(logs, decoded, wanted, missing, Ok(found)),
    ensures
        match fork {
            Fork::Pacaya => found.event.proposed is Pacaya,
            Fork::Ontake => found.event.proposed is Ontake,
            Fork::Hekla => found.event.proposed is Hekla,
        },
{
    let k = decoded.len() - 1;
    assert(decoded[k] == decoded.last());
    assert(logs[k].well_formed());
    assert(decoders.decodes_rpc(fork, logs[k], decoded[k]));
}

/// A filter is for the contract that is known, in the block of a hash, in a block and the one after
/// it, or in a range as it is; without a contract there is none.
pub proof fn law_filter_is_for_the_blocks_that_are_named(
    address: Address,
    fork: Fork,
    hash: B256,
    number: u64,
    last: u64,
)
    requires
        number < u64::MAX,
    ensures
        proposed_filter(None, EventFilterConditioin::Hash(hash), fork) == Err::<EventFilter, _>(
            PreflightError::NoL1Contract,
        ),
        proposed_filter(None, EventFilterConditioin::Height(number), fork) == Err::<EventFilter, _>(
            PreflightError::NoL1Contract,
        ),
        proposed_filter(None, EventFilterConditioin::Range((number, last)), fork) == Err::<
            EventFilter,
            _,
        >(PreflightError::NoL1Contract),
        proposed_filter(Some(address), EventFilterConditioin::Hash(hash), fork) matches Ok(f)
            && f.address == address && f.blocks == FilterBlocks::AtHash(hash),
        proposed_filter(Some(address), EventFilterConditioin::Height(number), fork) matches Ok(f)
            && f.address == address && (f.blocks matches FilterBlocks::Between {
            from_block,
            to_block,
        } && from_block == number && to_block == number + 1),
        proposed_filter(Some(address), EventFilterConditioin::Range((number, last)), fork)
            matches Ok(f) && f.address == address && (f.blocks matches FilterBlocks::Between {
            from_block,
            to_block,
        } && from_block == number && to_block == last),
{
}

/// A filter lets through the event by which blocks are proposed under its fork: batches under
/// Pacaya, the second form of block proposals under Ontake, the first under every other fork.
pub proof fn law_filter_is_for_the_event_of_its_fork(
    address: Address,
    condition: EventFilterConditioin,
)
    ensures
        proposed_filter(Some(address), condition, Fork::Hekla) matches Ok(f) && f.event
            == EventKind::BlockProposed,
        proposed_filter(Some(address), condition, Fork::Ontake) matches Ok(f) && f.event
            == EventKind::BlockProposedV2,
        proposed_filter(Some(address), condition, Fork::Pacaya) matches Ok(f) && f.event
            == EventKind::BatchProposed,
{
}

/// A search fails only for a log with too many topics, a log that is not understood, a match whose
/// log names no transaction, or for want of a match; and each log before that one has four topics
/// at most, is understood, and is of another number.
pub proof fn law_search_fails_only_for_cause<D>(
    logs: Seq<RpcLog>,
    decoded: Seq<Option<(U256, D)>>,
    wanted: u64,
    missing: PreflightError,
    failure: PreflightError,
)
    requires
        scanned(logs, decoded, wanted, missing, Err::<Found<D>, _>(failure)),
    ensures
        decoded.len() <= logs.len(),
        ({
            let k = decoded.len() - 1;
            ||| {
                &&& k >= 0
                &&& failure == PreflightError::LogNotCreated
                &&& logs[k].topics@.len() > 4
            }
            ||| {
                &&& k >= 0
                &&& failure == PreflightError::LogNotDecoded
                &&& logs[k].topics@.len() <= 4
                &&& decoded[k] is None
            }
            ||| {
                &&& k >= 0
                &&& failure == PreflightError::NoTransactionHash
                &&& logs[k].topics@.len() <= 4
                &&& decoded[k] matches Some((id, _)) && id.value() == wanted
                &&& logs[k].transaction_hash is None
            }
            ||| {
                &&& failure == missing
                &&& decoded.len() == logs.len()
                &&& k >= 0 ==> logs[k].topics@.len() <= 4 && (decoded[k] matches Some((id, _))
                    && id.value() != wanted)
            }
        }),
        forall|i: int|
            0 <= i < decoded.len() - 1 ==> (#[trigger] logs[i]).topics@.len() <= 4 && (decoded[i]
                matches Some((id, _)) && id.value() != wanted),
{
    assert forall|i: int| 0 <= i < decoded.len() - 1 implies (#[trigger] logs[i]).topics@.len() <= 4
        && (decoded[i] matches Some((id, _)) && id.value() != wanted) by {
        assert(verdict(logs[i], decoded[i], wanted) is None);
    }
}

/// A search succeeds where it should: if a log of the wanted number names its transaction, and all
/// logs before it are understood and of other numbers, that log ends the search.
pub proof fn law_first_match_ends_the_search<D>(
    logs: Seq<RpcLog>,
    decoded: Seq<Option<(U256, D)>>,
    wanted: u64,
    missing: PreflightError,
    r: Result<Found<D>, PreflightError>,
    k: int,
    number: U256,
    event: D,
)
    requires
        scanned(logs, decoded, wanted, missing, r),
        0 <= k < decoded.len(),
        forall|i: int|
            0 <= i < k ==> (#[trigger] logs[i]).topics@.len() <= 4 && (decoded[i] matches Some(
                (id, _),
            ) && id.value() != wanted),
        logs[k].topics@.len() <= 4,
        decoded[k] == Some((number, event)),
        number.value() == wanted,
        logs[k].transaction_hash is Some,
    ensures
        decoded.len() == k + 1,
        r matches Ok(found) && found.event == event && found.block_number
            == logs[k].block_number && Some(found.transaction_hash) == logs[k].transaction_hash,
{
    if decoded.len() > k + 1 {
        assert(verdict(logs[k], decoded[k], wanted) is None);
    }
    assert(decoded.last() == decoded[k]);
    assert(verdict(logs[k], decoded[k], wanted) is Some);
}

/// A log is decoded as it was emitted: by its own address, topics and data.
pub proof fn law_logs_are_decoded_as_emitted<D, A, B, C>(
    decoders: ProposalDecoders<A, B, C>,
    fork: Fork,
    logs: Seq<RpcLog>,
    decoded: Seq<Option<(U256, BlockProposedFork<D>)>>,
    i: int,
) where
    A: Fn(&LogStruct) -> Option<BatchProposedEvent<D>>,
    B: Fn(&LogStruct) -> Option<BlockProposedEvent<D>>,
    C: Fn(&LogStruct) -> Option<BlockProposedEvent<D>>,

    requires
        decoders.decodes_all(fork, logs, decoded),
        0 <= i < decoded.len(),
        logs[i].topics@.len() <= 4,
    ensures
        exists|emitted: LogStruct|
            {
                &&& emitted.address == logs[i].address
                &&& emitted.topics@ == logs[i].topics@
                &&& emitted.data@ == logs[i].data@
                &&& #[trigger] decoders.decodes(fork, emitted, decoded[i])
            },
{
    assert(decoders.decodes_rpc(fork, logs[i], decoded[i]));
}

proof fn lemma_log_is_decoded<D, A, B, C>(
    decoders: ProposalDecoders<A, B, C>,
    fork: Fork,
    logs: Seq<RpcLog>,
    decoded: Seq<Option<(U256, BlockProposedFork<D>)>>,
    i: int,
) -> (emitted: LogStruct) where
    A: Fn(&LogStruct) -> Option<BatchProposedEvent<D>>,
    B: Fn(&LogStruct) -> Option<BlockProposedEvent<D>>,
    C: Fn(&LogStruct) -> Option<BlockProposedEvent<D>>,

    requires
        decoders.decodes_all(fork, logs, decoded),
        0 <= i < decoded.len(),
        logs[i].topics@.len() <= 4,
    ensures
        emitted.address == logs[i].address,
        emitted.topics@ == logs[i].topics@,
        emitted.data@ == logs[i].data@,
        decoders.decodes(fork, emitted, decoded[i]),
{
    law_logs_are_decoded_as_emitted(decoders, fork, logs, decoded, i);
    choose|emitted: LogStruct|
        {
            &&& emitted.address == logs[i].address
            &&& emitted.topics@ == logs[i].topics@
            &&& emitted.data@ == logs[i].data@
            &&& #[trigger] decoders.decodes(fork, emitted, decoded[i])
        }
}

/// Under the Hekla fork a log is what the decoder of the first form of block proposals makes of it, in every field, or
/// nothing where that decoder fails.
pub proof fn law_hekla_logs_are_decoded_in_full<D, A, B, C>(
    decoders: ProposalDecoders<A, B, C>,
    log: LogStruct,
    r: Option<(U256, BlockProposedFork<D>)>,
) where
    A: Fn(&LogStruct) -> Option<BatchProposedEvent<D>>,
    B: Fn(&LogStruct) -> Option<BlockProposedEvent<D>>,
    C: Fn(&LogStruct) -> Option<BlockProposedEvent<D>>,

    requires
        decoders.decodes(Fork::Hekla, log, r),
    ensures
        r is None ==> call_ensures(decoders.block_proposed, (&log,), None::<BlockProposedEvent<D>>),
        r is Some ==> exists|event: BlockProposedEvent<D>|
            {
                &&& #[trigger] call_ensures(decoders.block_proposed, (&log,), Some(event))
                &&& r matches Some((id, proposal)) && id.value() == event.block_id.value() && proposal.proposed
                    == Proposed::Hekla && proposal.blob_used == event.blob_used && proposal.blob_hash
                    == event.blob_hash && proposal.data == event.data
            },
{
    let e = choose|e: Option<BlockProposedEvent<D>>| #[trigger]
        call_ensures(decoders.block_proposed, (&log,), e) && (e is None <==> r is None) && (e is Some ==> (r
            matches Some((id, proposal)) && id.value() == e->0.block_id.value()
            && proposal.blob_used == e->0.blob_used && proposal.blob_hash == e->0.blob_hash
            && proposal.data == e->0.data));
    if r is None {
        assert(call_ensures(decoders.block_proposed, (&log,), None::<BlockProposedEvent<D>>));
    } else {
        assert(call_ensures(decoders.block_proposed, (&log,), Some(e->0)));
    }
}

/// Under the Ontake fork a log is what the decoder of the second form of block proposals makes of it, in every field, or
/// nothing where that decoder fails.
pub proof fn law_ontake_logs_are_decoded_in_full<D, A, B, C>(
    decoders: ProposalDecoders<A, B, C>,
    log: LogStruct,
    r: Option<(U256, BlockProposedFork<D>)>,
) where
    A: Fn(&LogStruct) -> Option<BatchProposedEvent<D>>,
    B: Fn(&LogStruct) -> Option<BlockProposedEvent<D>>,
    C: Fn(&LogStruct) -> Option<BlockProposedEvent<D>>,

    requires
        decoders.decodes(Fork::Ontake, log, r),
    ensures
        r is None ==> call_ensures(decoders.block_proposed_v2, (&log,), None::<BlockProposedEvent<D>>),
        r is Some ==> exists|event: BlockProposedEvent<D>|
            {
                &&& #[trigger] call_ensures(decoders.block_proposed_v2, (&log,), Some(event))
                &&& r matches Some((id, proposal)) && id.value() == event.block_id.value() && proposal.proposed
                    == Proposed::Ontake && proposal.blob_used == event.blob_used && proposal.blob_hash
                    == event.blob_hash && proposal.data == event.data
            },
{
    let e = choose|e: Option<BlockProposedEvent<D>>| #[trigger]
        call_ensures(decoders.block_proposed_v2, (&log,), e) && (e is None <==> r is None) && (e is Some ==> (r
            matches Some((id, proposal)) && id.value() == e->0.block_id.value()
            && proposal.blob_used == e->0.blob_used && proposal.blob_hash == e->0.blob_hash
            && proposal.data == e->0.data));
    if r is None {
        assert(call_ensures(decoders.block_proposed_v2, (&log,), None::<BlockProposedEvent<D>>));
    } else {
        assert(call_ensures(decoders.block_proposed_v2, (&log,), Some(e->0)));
    }
}

/// Under the Pacaya fork a log is what the decoder of batch proposals makes of it, in every field, or
/// nothing where that decoder fails.
pub proof fn law_pacaya_logs_are_decoded_in_full<D, A, B, C>(
    decoders: ProposalDecoders<A, B, C>,
    log: LogStruct,
    r: Option<(U256, BlockProposedFork<D>)>,
) where
    A: Fn(&LogStruct) -> Option<BatchProposedEvent<D>>,
    B: Fn(&LogStruct) -> Option<BlockProposedEvent<D>>,
    C: Fn(&LogStruct) -> Option<BlockProposedEvent<D>>,

    requires
        decoders.decodes(Fork::Pacaya, log, r),
    ensures
        r is None ==> call_ensures(decoders.batch_proposed, (&log,), None::<BatchProposedEvent<D>>),
        r is Some ==> exists|event: BatchProposedEvent<D>|
            {
                &&& #[trigger] call_ensures(decoders.batch_proposed, (&log,), Some(event))
                &&& r matches Some((id, proposal)) && id.value() == event.batch_id && proposal.proposed
                    == Proposed::Pacaya(event.info) && proposal.blob_used == event.blob_used && proposal.blob_hash
                    == event.blob_hash && proposal.data == event.data
            },
{
    let e = choose|e: Option<BatchProposedEvent<D>>| #[trigger]
        call_ensures(decoders.batch_proposed, (&log,), e) && (e is None <==> r is None) && (e is Some ==> (r
            matches Some((id, proposal)) && id.value() == e->0.batch_id
            && proposal.blob_used == e->0.blob_used && proposal.blob_hash == e->0.blob_hash
            && proposal.data == e->0.data));
    if r is None {
        assert(call_ensures(decoders.batch_proposed, (&log,), None::<BatchProposedEvent<D>>));
    } else {
        assert(call_ensures(decoders.batch_proposed, (&log,), Some(e->0)));
    }
}

/// A proposal that is found under the Hekla fork is the event of its log as the decoder of
/// the first form of block proposals gave it, in every field, and has the number that was wanted.
pub proof fn law_hekla_proposal_is_as_it_was_emitted<D, A, B, C>(
    decoders: ProposalDecoders<A, B, C>,
    logs: Seq<RpcLog>,
    decoded: Seq<Option<(U256, BlockProposedFork<D>)>>,
    wanted: u64,
    missing: PreflightError,
    found: Found<BlockProposedFork<D>>,
) where
    A: Fn(&LogStruct) -> Option<BatchProposedEvent<D>>,
    B: Fn(&LogStruct) -> Option<BlockProposedEvent<D>>,
    C: Fn(&LogStruct) -> Option<BlockProposedEvent<D>>,

    requires
        decoders.decodes_all(Fork::Hekla, logs, decoded),
        scanned(logs, decoded, wanted, missing, Ok(found)),
    ensures
        exists|i: int, emitted: LogStruct, event: BlockProposedEvent<D>|
            {
                &&& 0 <= i < logs.len()
                &&& emitted.address == (#[trigger] logs[i]).address
                &&& emitted.topics@ == logs[i].topics@
                &&& emitted.data@ == logs[i].data@
                &&& #[trigger] call_ensures(decoders.block_proposed, (&emitted,), Some(event))
                &&& event.block_id.value() == wanted
                &&& logs[i].transaction_hash == Some(found.transaction_hash)
                &&& logs[i].block_number == found.block_number
                &&& found.event.proposed == Proposed::Hekla
                &&& found.event.blob_used == event.blob_used
                &&& found.event.blob_hash == event.blob_hash
                &&& found.event.data == event.data
            },
{
    let k = decoded.len() - 1;
    assert(decoded[k] == decoded.last());
    assert(logs[k].topics@.len() <= 4);
    let emitted = lemma_log_is_decoded(decoders, Fork::Hekla, logs, decoded, k);
    law_hekla_logs_are_decoded_in_full(decoders, emitted, decoded[k]);
    let event = choose|event: BlockProposedEvent<D>| #[trigger]
        call_ensures(decoders.block_proposed, (&emitted,), Some(event)) && (decoded[k] matches Some(
            (id, proposal),
        ) && id.value() == event.block_id.value() && proposal.proposed == Proposed::Hekla && proposal.blob_used
            == event.blob_used && proposal.blob_hash == event.blob_hash && proposal.data
            == event.data);
    assert(logs[k].transaction_hash == Some(found.transaction_hash));
}

/// A proposal that is found under the Ontake fork is the event of its log as the decoder of
/// the second form of block proposals gave it, in every field, and has the number that was wanted.
pub proof fn law_ontake_proposal_is_as_it_was_emitted<D, A, B, C>(
    decoders: ProposalDecoders<A, B, C>,
    logs: Seq<RpcLog>,
    decoded: Seq<Option<(U256, BlockProposedFork<D>)>>,
    wanted: u64,
    missing: PreflightError,
    found: Found<BlockProposedFork<D>>,
) where
    A: Fn(&LogStruct) -> Option<BatchProposedEvent<D>>,
    B: Fn(&LogStruct) -> Option<BlockProposedEvent<D>>,
    C: Fn(&LogStruct) -> Option<BlockProposedEvent<D>>,

    requires
        decoders.decodes_all(Fork::Ontake, logs, decoded),
        scanned(logs, decoded, wanted, missing, Ok(found)),
    ensures
        exists|i: int, emitted: LogStruct, event: BlockProposedEvent<D>|
            {
                &&& 0 <= i < logs.len()
                &&& emitted.address == (#[trigger] logs[i]).address
                &&& emitted.topics@ == logs[i].topics@
                &&& emitted.data@ == logs[i].data@
                &&& #[trigger] call_ensures(decoders.block_proposed_v2, (&emitted,), Some(event))
                &&& event.block_id.value() == wanted
                &&& logs[i].transaction_hash == Some(found.transaction_hash)
                &&& logs[i].block_number == found.block_number
                &&& found.event.proposed == Proposed::Ontake
                &&& found.event.blob_used == event.blob_used
                &&& found.event.blob_hash == event.blob_hash
                &&& found.event.data == event.data
            },
{
    let k = decoded.len() - 1;
    assert(decoded[k] == decoded.last());
    assert(logs[k].topics@.len() <= 4);
    let emitted = lemma_log_is_decoded(decoders, Fork::Ontake, logs, decoded, k);
    law_ontake_logs_are_decoded_in_full(decoders, emitted, decoded[k]);
    let event = choose|event: BlockProposedEvent<D>| #[trigger]
        call_ensures(decoders.block_proposed_v2, (&emitted,), Some(event)) && (decoded[k] matches Some(
            (id, proposal),
        ) && id.value() == event.block_id.value() && proposal.proposed == Proposed::Ontake && proposal.blob_used
            == event.blob_used && proposal.blob_hash == event.blob_hash && proposal.data
            == event.data);
    assert(logs[k].transaction_hash == Some(found.transaction_hash));
}

/// A proposal that is found under the Pacaya fork is the event of its log as the decoder of
/// batch proposals gave it, in every field, and has the number that was wanted.
pub proof fn law_pacaya_proposal_is_as_it_was_emitted<D, A, B, C>(
    decoders: ProposalDecoders<A, B, C>,
    logs: Seq<RpcLog>,
    decoded: Seq<Option<(U256, BlockProposedFork<D>)>>,
    wanted: u64,
    missing: PreflightError,
    found: Found<BlockProposedFork<D>>,
) where
    A: Fn(&LogStruct) -> Option<BatchProposedEvent<D>>,
    B: Fn(&LogStruct) -> Option<BlockProposedEvent<D>>,
    C: Fn(&LogStruct) -> Option<BlockProposedEvent<D>>,

    requires
        decoders.decodes_all(Fork::Pacaya, logs, decoded),
        scanned(logs, decoded, wanted, missing, Ok(found)),
    ensures
        exists|i: int, emitted: LogStruct, event: BatchProposedEvent<D>|
            {
                &&& 0 <= i < logs.len()
                &&& emitted.address == (#[trigger] logs[i]).address
                &&& emitted.topics@ == logs[i].topics@
                &&& emitted.data@ == logs[i].data@
                &&& #[trigger] call_ensures(decoders.batch_proposed, (&emitted,), Some(event))
                &&& event.batch_id == wanted
                &&& logs[i].transaction_hash == Some(found.transaction_hash)
                &&& logs[i].block_number == found.block_number
                &&& found.event.proposed == Proposed::Pacaya(event.info)
                &&& found.event.blob_used == event.blob_used
                &&& found.event.blob_hash == event.blob_hash
                &&& found.event.data == event.data
            },
{
    let k = decoded.len() - 1;
    assert(decoded[k] == decoded.last());
    assert(logs[k].topics@.len() <= 4);
    let emitted = lemma_log_is_decoded(decoders, Fork::Pacaya, logs, decoded, k);
    law_pacaya_logs_are_decoded_in_full(decoders, emitted, decoded[k]);
    let event = choose|event: BatchProposedEvent<D>| #[trigger]
        call_ensures(decoders.batch_proposed, (&emitted,), Some(event)) && (decoded[k] matches Some(
            (id, proposal),
        ) && id.value() == event.batch_id && proposal.proposed == Proposed::Pacaya(event.info) && proposal.blob_used
            == event.blob_used && proposal.blob_hash == event.blob_hash && proposal.data
            == event.data);
    assert(logs[k].transaction_hash == Some(found.transaction_hash));
}

/// The list of transactions that is found is the one that the decoder gave for a log of the wanted
/// number, as that log was emitted.
pub proof fn law_tx_list_is_as_it_was_emitted<F: Fn(&LogStruct) -> Option<CalldataTxList>>(
    decode: F,
    logs: Seq<RpcLog>,
    decoded: Seq<Option<(U256, Vec<u8>)>>,
    wanted: u64,
    missing: PreflightError,
    found: Found<Vec<u8>>,
)
    requires
        lists_decoded(decode, logs, decoded),
        scanned(logs, decoded, wanted, missing, Ok(found)),
    ensures
        exists|i: int, emitted: LogStruct, list: CalldataTxList|
            {
                &&& 0 <= i < logs.len()
                &&& emitted.address == (#[trigger] logs[i]).address
                &&& emitted.topics@ == logs[i].topics@
                &&& emitted.data@ == logs[i].data@
                &&& #[trigger] call_ensures(decode, (&emitted,), Some(list))
                &&& list.block_id.value() == wanted
                &&& found.event == list.tx_list
                &&& logs[i].transaction_hash == Some(found.transaction_hash)
            },
{
    let k = decoded.len() - 1;
    assert(decoded[k] == decoded.last());
    assert(logs[k].topics@.len() <= 4);
    law_lists_are_decoded_as_emitted(decode, logs, decoded, k);
    let (emitted, list) = choose|emitted: LogStruct, list: Option<CalldataTxList>|
        {
            &&& emitted.address == logs[k].address
            &&& emitted.topics@ == logs[k].topics@
            &&& emitted.data@ == logs[k].data@
            &&& #[trigger] call_ensures(decode, (&emitted,), list)
            &&& list is Some <==> decoded[k] is Some
            &&& list matches Some(l) ==> decoded[k] == Some((l.block_id, l.tx_list))
        };
    assert(list == Some(list->0));
}

/// A log is what the decoder of transaction lists makes of it as it was emitted, number and list,
/// or nothing where the decoder fails.
pub proof fn law_lists_are_decoded_as_emitted<F: Fn(&LogStruct) -> Option<CalldataTxList>>(
    decode: F,
    logs: Seq<RpcLog>,
    decoded: Seq<Option<(U256, Vec<u8>)>>,
    i: int,
)
    requires
        lists_decoded(decode, logs, decoded),
        0 <= i < decoded.len(),
        logs[i].topics@.len() <= 4,
    ensures
        exists|emitted: LogStruct, list: Option<CalldataTxList>|
            {
                &&& emitted.address == logs[i].address
                &&& emitted.topics@ == logs[i].topics@
                &&& emitted.data@ == logs[i].data@
                &&& #[trigger] call_ensures(decode, (&emitted,), list)
                &&& list is Some <==> decoded[i] is Some
                &&& list matches Some(l) ==> decoded[i] == Some((l.block_id, l.tx_list))
            },
{
    assert(list_decoded(decode, logs[i], decoded[i]));
}

/// A proposal holds the event that was found and the transaction that was fetched for it, and
/// stands in the L1 block that the log names; where the log names none, there is no proposal.
pub proof fn law_proposal_holds_what_was_found<D>(
    found: Found<BlockProposedFork<D>>,
    tx: ProposalTx,
)
    ensures
        match proposal_from(found, tx) {
            Ok(proposal) => found.block_number == Some(proposal.l1_block_number) && proposal.tx == tx
                && proposal.event == found.event,
            Err(e) => found.block_number is None && e == PreflightError::NoBlockNumber,
        },
{
}

/// Each way of searching looks at its own blocks and no others: the block of the hash, the block at
/// the height and the next one, or the sixty-four blocks after the anchor that the chain has; and
/// lists of transactions are looked for in the block of the hash by their own event.
pub proof fn law_each_search_looks_at_its_own_blocks(
    address: Address,
    hash: B256,
    number: u64,
    latest: u64,
    fork: Fork,
    n: int,
)
    requires
        number + 64 <= u64::MAX,
    ensures
        filter_by_hash(Some(address), hash, fork) matches Ok(f) && f.address == address && f.blocks
            == FilterBlocks::AtHash(hash),
        filter_by_height(Some(address), number, fork) matches Ok(f) && f.address == address && (
        f.blocks matches FilterBlocks::Between { from_block, to_block } && (from_block <= n
            <= to_block <==> n == number || n == number + 1)),
        filter_by_traversal(Some(address), number, latest, fork) matches Ok(f) && f.address
            == address && (f.blocks matches FilterBlocks::Between { from_block, to_block } && (
        from_block <= n <= to_block <==> number < n <= number + 64 && n <= latest)),
        filter_for_lists(Some(address), hash) matches Ok(f) && f.address == address && f.blocks
            == FilterBlocks::AtHash(hash) && f.event == EventKind::CalldataTxList,
{
}

/// Whichever way is searched, it is for the event of the fork, and needs to know the contract.
pub proof fn law_each_search_is_for_the_event_of_its_fork(
    address: Address,
    hash: B256,
    number: u64,
    latest: u64,
    fork: Fork,
)
    ensures
        ({
            let event = match fork {
                Fork::Hekla => EventKind::BlockProposed,
                Fork::Ontake => EventKind::BlockProposedV2,
                Fork::Pacaya => EventKind::BatchProposed,
            };
            &&& filter_by_hash(Some(address), hash, fork)->Ok_0.event == event
            &&& filter_by_height(Some(address), number, fork)->Ok_0.event == event
            &&& filter_by_traversal(Some(address), number, latest, fork)->Ok_0.event == event
        }),
        filter_by_hash(None, hash, fork) == Err::<EventFilter, _>(PreflightError::NoL1Contract),
        filter_by_height(None, number, fork) == Err::<EventFilter, _>(PreflightError::NoL1Contract),
        filter_by_traversal(None, number, latest, fork) == Err::<EventFilter, _>(
            PreflightError::NoL1Contract,
        ),
        filter_for_lists(None, hash) == Err::<EventFilter, _>(PreflightError::NoL1Contract),
{
}

/// A search for a proposal goes by the decoder of its fork and by the number that is wanted, and
/// names that number where it finds nothing.
pub proof fn law_proposal_is_searched_for_by_its_number<D, A, B, C>(
    logs: Seq<RpcLog>,
    wanted: u64,
    fork: Fork,
    decoders: ProposalDecoders<A, B, C>,
    r: Result<Found<BlockProposedFork<D>>, PreflightError>,
) where
    A: Fn(&LogStruct) -> Option<BatchProposedEvent<D>>,
    B: Fn(&LogStruct) -> Option<BlockProposedEvent<D>>,
    C: Fn(&LogStruct) -> Option<BlockProposedEvent<D>>,

    requires
        proposal_searched(logs, wanted, fork, decoders, r),
    ensures
        exists|decoded: Seq<Option<(U256, BlockProposedFork<D>)>>|
            {
                &&& #[trigger] decoders.decodes_all(fork, logs, decoded)
                &&& scanned(logs, decoded, wanted, PreflightError::NoProposalEvent(wanted), r)
            },
        logs.len() == 0 ==> r == Err::<Found<BlockProposedFork<D>>, _>(
            PreflightError::NoProposalEvent(wanted),
        ),
        r matches Err(PreflightError::NoProposalEvent(told)) ==> told == wanted,
{
}

/// A search for a list of transactions goes by the number of its block, and names that number where
/// it finds nothing.
pub proof fn law_list_is_searched_for_by_its_number<F: Fn(&LogStruct) -> Option<CalldataTxList>>(
    logs: Seq<RpcLog>,
    wanted: u64,
    decode: F,
    r: Result<Found<Vec<u8>>, PreflightError>,
)
    requires
        list_searched(logs, wanted, decode, r),
    ensures
        exists|decoded: Seq<Option<(U256, Vec<u8>)>>|
            {
                &&& #[trigger] lists_decoded(decode, logs, decoded)
                &&& scanned(logs, decoded, wanted, PreflightError::NoCalldataEvent(wanted), r)
            },
        logs.len() == 0 ==> r == Err::<Found<Vec<u8>>, _>(PreflightError::NoCalldataEvent(wanted)),
        r matches Err(PreflightError::NoCalldataEvent(told)) ==> told == wanted,
{
}

} // verus!
