//! The input for proving a batch of blocks, and the numbers of its blocks.
use vstd::prelude::*;
use crate::anchor::{anchors_of, block_anchor, get_anchors, same_anchor, AnchorAbi, AnchorInfo};
use crate::error::{Failure, PreflightError};
use crate::event::{
    batch_proposed, filter_block_proposed_event, get_block_proposed_event_by_height,
    law_search_finds_the_first, proposal_from, proposed_filter, scanned, BatchProposedEvent,
    BlockProposedEvent, EventFilter, EventFilterConditioin, Found, ProposalDecoders, RpcLog,
};
use crate::outside::LogStruct;
use crate::types::{
    same_hash, Address, BatchInfo, BlobProofType, BlockProposedFork, Fork, Header, L2Block, Proposal,
    ProposalTx, Proposed, TxData, B256, U256,
};

verus! {

/// The numbers of the blocks of a batch: so many, up to the last one.
pub open spec fn numbers_of(last_block_id: u64, block_count: nat) -> Seq<u64> {
    Seq::new(block_count, |i: int| (last_block_id - block_count + 1 + i) as u64)
}

/// Whether a batch can have so many blocks and this last one.
pub open spec fn numbers_fit(last_block_id: u64, block_count: nat) -> bool {
    1 <= block_count && block_count - 1 <= last_block_id
}

/// The numbers of the blocks of a batch.
pub fn batch_block_numbers(last_block_id: u64, block_count: u64) -> (r: Vec<u64>)
    requires
        numbers_fit(last_block_id, block_count as nat),
    ensures
        r@ == numbers_of(last_block_id, block_count as nat),
{
    let start: u64 = last_block_id - (block_count - 1);
    let mut numbers: Vec<u64> = Vec::new();
    let mut i: u64 = 0;
    while i < block_count
        invariant
            i <= block_count,
            start + (block_count - 1) == last_block_id,
            numbers@.len() == i,
            forall|j: int|
                0 <= j < i ==> #[trigger] numbers@[j] == numbers_of(
                    last_block_id,
                    block_count as nat,
                )[j],
        decreases block_count - i,
    {
        numbers.push(start + i);
        i += 1;
    }
    assert(numbers@ =~= numbers_of(last_block_id, block_count as nat));
    numbers
}

/// The filter for the proposal of a batch at a height: only the Pacaya fork has batches, so its
/// event is searched for whatever forks the chain has active.
pub fn batch_proposal_filter(l1_contract: Option<Address>, l1_inclusion_block_number: u64) -> (r:
    Result<EventFilter, PreflightError>)
    requires
        l1_contract is Some ==> l1_inclusion_block_number < u64::MAX,
    ensures
        r == proposed_filter(
            l1_contract,
            EventFilterConditioin::Height(l1_inclusion_block_number),
            Fork::Pacaya,
        ),
{
    get_block_proposed_event_by_height(l1_contract, l1_inclusion_block_number, Fork::Pacaya)
}

/// `r` can be the outcome of the search for the proposal of a batch among these logs.
pub open spec fn batch_searched<D, A, B, C>(
    logs: Seq<RpcLog>,
    batch_id: u64,
    decoders: ProposalDecoders<A, B, C>,
    r: Result<Found<BlockProposedFork<D>>, PreflightError>,
) -> bool where
    A: Fn(&LogStruct) -> Option<BatchProposedEvent<D>>,
    B: Fn(&LogStruct) -> Option<BlockProposedEvent<D>>,
    C: Fn(&LogStruct) -> Option<BlockProposedEvent<D>>,
 {
    exists|decoded: Seq<Option<(U256, BlockProposedFork<D>)>>| #[trigger]
        decoders.decodes_all(Fork::Pacaya, logs, decoded) && scanned(
            logs,
            decoded,
            batch_id,
            PreflightError::NoProposalEvent(batch_id),
            r,
        )
}

/// The first of the logs that proposes the batch of the given number.
pub fn find_batch_proposal<D, A, B, C>(
    logs: &Vec<RpcLog>,
    batch_id: u64,
    decoders: &ProposalDecoders<A, B, C>,
) -> (r: Result<Found<BlockProposedFork<D>>, PreflightError>) where
    A: Fn(&LogStruct) -> Option<BatchProposedEvent<D>>,
    B: Fn(&LogStruct) -> Option<BlockProposedEvent<D>>,
    C: Fn(&LogStruct) -> Option<BlockProposedEvent<D>>,

    requires
        decoders.can_decode(),
    ensures
        batch_searched(logs@, batch_id, *decoders, r),
{
    filter_block_proposed_event(logs, batch_id, Fork::Pacaya, decoders)
}

/// `r` is the numbers of the blocks of the batch that was proposed. The proposal must stand in the
/// L1 block that was named, and must be one of a batch.
pub open spec fn batch_parsed<D>(
    l1_inclusion_block_number: u64,
    proposal: Proposal<D>,
    r: Result<Vec<u64>, PreflightError>,
) -> bool {
    if proposal.l1_block_number != l1_inclusion_block_number {
        r == Err::<Vec<u64>, _>(PreflightError::InclusionMismatch)
    } else {
        match proposal.event.proposed {
            Proposed::Pacaya(info) => if numbers_fit(info.last_block_id, info.block_count as nat) {
                r is Ok && r->Ok_0@ == numbers_of(info.last_block_id, info.block_count as nat)
            } else {
                r == Err::<Vec<u64>, _>(PreflightError::BatchNumbersOverflow)
            },
            _ => r == Err::<Vec<u64>, _>(PreflightError::NotPacayaProposal),
        }
    }
}

/// The numbers of the blocks of the batch that was proposed.
pub fn parse_l1_batch_proposal_tx_for_pacaya_fork<D>(
    l1_inclusion_block_number: u64,
    proposal: &Proposal<D>,
) -> (r: Result<Vec<u64>, PreflightError>)
    ensures
        batch_parsed(l1_inclusion_block_number, *proposal, r),
{
    if l1_inclusion_block_number != proposal.l1_block_number {
        return Err(PreflightError::InclusionMismatch);
    }
    match &proposal.event.proposed {
        Proposed::Pacaya(info) => {
            let count: u64 = info.block_count as u64;
            if count == 0 || info.last_block_id < count - 1 {
                return Err(PreflightError::BatchNumbersOverflow);
            }
            Ok(batch_block_numbers(info.last_block_id, count))
        },
        _ => Err(PreflightError::NotPacayaProposal),
    }
}

/// The numbers of a batch follow one another, end with the last one, and are as many as the batch
/// has blocks.
pub proof fn law_batch_numbers_are_consecutive(last_block_id: u64, block_count: nat)
    requires
        numbers_fit(last_block_id, block_count),
    ensures
        numbers_of(last_block_id, block_count).len() == block_count,
        numbers_of(last_block_id, block_count).first() == last_block_id - block_count + 1,
        numbers_of(last_block_id, block_count).last() == last_block_id,
        forall|i: int|
            0 <= i < block_count - 1 ==> #[trigger] numbers_of(last_block_id, block_count)[i] + 1
                == numbers_of(last_block_id, block_count)[i + 1],
{
}

/// `event` can be what the decoder of batch proposals finds in a log.
pub open spec fn emits_batch<D, A, B, C>(
    decoders: ProposalDecoders<A, B, C>,
    log: RpcLog,
    event: BatchProposedEvent<D>,
) -> bool where
    A: Fn(&LogStruct) -> Option<BatchProposedEvent<D>>,
    B: Fn(&LogStruct) -> Option<BlockProposedEvent<D>>,
    C: Fn(&LogStruct) -> Option<BlockProposedEvent<D>>,
 {
    exists|emitted: LogStruct|
        log.carries(emitted) && #[trigger] call_ensures(
            decoders.batch_proposed,
            (&emitted,),
            Some(event),
        )
}

/// Numbers that are handed over for a batch are those of an event that proposes a batch of the
/// wanted number, emitted in the very L1 block that was named. An event in another block, such as
/// the next one that the filter lets through, breaks off.
pub proof fn law_parsed_batch_was_proposed_in_its_block<D, A, B, C>(
    decoders: ProposalDecoders<A, B, C>,
    logs: Seq<RpcLog>,
    batch_id: u64,
    l1_inclusion_block_number: u64,
    found: Found<BlockProposedFork<D>>,
    tx: ProposalTx,
    proposal: Proposal<D>,
    r: Result<Vec<u64>, PreflightError>,
) where
    A: Fn(&LogStruct) -> Option<BatchProposedEvent<D>>,
    B: Fn(&LogStruct) -> Option<BlockProposedEvent<D>>,
    C: Fn(&LogStruct) -> Option<BlockProposedEvent<D>>,

    requires
        batch_searched(logs, batch_id, decoders, Ok(found)),
        proposal_from(found, tx) == Ok::<_, PreflightError>(proposal),
        batch_parsed(l1_inclusion_block_number, proposal, r),
    ensures
        exists|i: int, event: BatchProposedEvent<D>|
            {
                &&& 0 <= i < logs.len()
                &&& #[trigger] emits_batch(decoders, logs[i], event)
                &&& event.batch_id == batch_id
                &&& logs[i].block_number == found.block_number
                &&& proposal.event == batch_proposed(event)
                &&& r is Ok ==> r->Ok_0@ == numbers_of(
                    event.info.last_block_id,
                    event.info.block_count as nat,
                )
            },
        r is Ok ==> found.block_number == Some(l1_inclusion_block_number),
        found.block_number != Some(l1_inclusion_block_number) ==> r == Err::<Vec<u64>, _>(
            PreflightError::InclusionMismatch,
        ),
{
    let missing = PreflightError::NoProposalEvent(batch_id);
    let decoded = choose|decoded: Seq<Option<(U256, BlockProposedFork<D>)>>| #[trigger]
        decoders.decodes_all(Fork::Pacaya, logs, decoded) && scanned(
            logs,
            decoded,
            batch_id,
            missing,
            Ok(found),
        );
    law_search_finds_the_first(logs, decoded, batch_id, missing, found);
    let k = decoded.len() - 1;
    assert(decoded[k] == decoded.last());
    assert(logs[k].well_formed());
    assert(decoders.decodes_rpc(Fork::Pacaya, logs[k], decoded[k]));
    let emitted = choose|emitted: LogStruct|
        logs[k].carries(emitted) && #[trigger] decoders.decodes(Fork::Pacaya, emitted, decoded[k]);
    let event = choose|e: Option<BatchProposedEvent<D>>| #[trigger]
        call_ensures(decoders.batch_proposed, (&emitted,), e) && match (e, decoded[k]) {
            (None, None) => true,
            (Some(event), Some((id, proposal))) => id.value() == event.batch_id && proposal
                == batch_proposed(event),
            _ => false,
        };
    assert(emits_batch(decoders, logs[k], event->0));
}

/// What is asked for with a batch.
#[derive(Debug, PartialEq, Eq)]
pub struct BatchRequest<S, P> {
    pub batch_id: u64,
    /// The L1 block that the proposal must stand in.
    pub l1_inclusion_block_number: u64,
    pub chain_spec: S,
    pub prover_data: P,
    pub blob_proof_type: BlobProofType,
}

/// What stays the same all through the preparation of a batch input.
#[derive(Debug, PartialEq, Eq)]
pub struct BatchJob<S, P> {
    pub request: BatchRequest<S, P>,
    /// What the anchor calls of all blocks say.
    pub anchor: AnchorInfo,
}

/// The input for proving a batch.
#[derive(Debug, PartialEq, Eq)]
pub struct TaikoGuestBatchInput<H, D, S, P> {
    pub batch_id: u64,
    pub l1_header: Header<H>,
    pub batch_proposed: BlockProposedFork<D>,
    pub chain_spec: S,
    pub prover_data: P,
    pub tx_data_from_calldata: Vec<u8>,
    pub tx_data_from_blob: Vec<Vec<u8>>,
    pub blob_commitments: Vec<Option<Vec<u8>>>,
    pub blob_proofs: Vec<Option<Vec<u8>>>,
    pub blob_proof_type: BlobProofType,
}

/// How far the preparation of a batch input has come.
#[derive(Debug, PartialEq, Eq)]
pub enum BatchState<H, D, S, P> {
    /// The proposal of the batch is being looked for.
    Searching(BatchJob<S, P>),
    /// The headers of two L1 blocks are being fetched.
    FetchingHeaders(BatchJob<S, P>, Proposal<D>),
    /// The header of the L1 block in which the blobs were created is being fetched.
    FetchingForcedHeaders(BatchJob<S, P>, Proposal<D>, Header<H>),
    /// The blobs are being fetched.
    FetchingBlobs(BatchJob<S, P>, BlockProposedFork<D>, Header<H>),
    /// The call data are being decoded.
    DecodingCalldata(BatchJob<S, P>, BlockProposedFork<D>, Header<H>),
    /// There is nothing left to do.
    Finished,
}

/// What came back from outside.
#[derive(Debug, PartialEq, Eq)]
pub enum BatchEvent<H, D> {
    /// The proposal of the batch.
    Proposed(Proposal<D>),
    /// The headers of the two L1 blocks.
    Headers(Header<H>, Header<H>),
    /// The blobs, each with what vouches for it.
    Blobs(Vec<TxData>),
    /// The transactions that the call data hold, if they could be decoded.
    Calldata(Option<Vec<u8>>),
}

/// What is to be done outside.
#[derive(Debug, PartialEq, Eq)]
pub enum BatchAction<H, D, S, P> {
    /// Look for the proposal of the batch of the given number, at this height, under this fork.
    FindProposal(u64, u64, Fork),
    /// Fetch the headers of the L1 blocks of these numbers.
    FetchHeaders(u64, u64),
    /// Fetch the blobs of these hashes, that were posted at this time.
    FetchBlobs(Vec<B256>, u64),
    /// Decode the call data of the proposal.
    DecodeCalldata(Vec<u8>),
    /// Hand over the input.
    Done(TaikoGuestBatchInput<H, D, S, P>),
    /// Give up.
    Fail(PreflightError),
}

/// Whether all anchors say the same.
pub open spec fn all_same(anchors: Seq<AnchorInfo>) -> bool {
    forall|i: int| 0 <= i < anchors.len() ==> #[trigger] anchors[i] == anchors[0]
}

fn are_all_same(anchors: &Vec<AnchorInfo>) -> (r: bool)
    ensures
        r == all_same(anchors@),
{
    let mut i: usize = 1;
    while i < anchors.len()
        invariant
            1 <= i,
            anchors@.len() > 0 ==> i <= anchors@.len(),
            forall|j: int| 0 <= j < i && j < anchors@.len() ==> #[trigger] anchors@[j] == anchors@[0],
        decreases anchors@.len() - i,
    {
        if !same_anchor(&anchors[i - 1], &anchors[i]) {
            assert(anchors@[i as int] != anchors@[0]) by {
                assert(anchors@[i - 1] == anchors@[0]);
            }
            return false;
        }
        assert(anchors@[i as int] == anchors@[0]) by {
            assert(anchors@[i - 1] == anchors@[0]);
        }
        i += 1;
    }
    true
}

/// `r` can be the start of a batch: each block must have an anchor of the Pacaya fork, all anchors
/// must say the same, and the proposal is looked for under the fork of the first block.
pub open spec fn started<H, T, D, S, P, E, F, G>(
    blocks: Seq<L2Block<T>>,
    request: BatchRequest<S, P>,
    active_fork: F,
    decode: G,
    r: Result<(BatchState<H, D, S, P>, BatchAction<H, D, S, P>), Failure<E>>,
) -> bool where
    F: Fn(u64, u64) -> Result<Fork, E>,
    G: Fn(AnchorAbi, &Vec<u8>) -> Result<AnchorInfo, E>,
 {
    exists|anchors: Seq<AnchorInfo>| #[trigger]
        anchors_of(blocks, active_fork, decode, anchors) && if anchors.len() < blocks.len() {
            r is Err && block_anchor(
                blocks[anchors.len() as int],
                active_fork,
                decode,
                Err(r->Err_0),
            )
        } else if !all_same(anchors) {
            r == Err::<(BatchState<H, D, S, P>, BatchAction<H, D, S, P>), _>(
                Failure::<E>::Preflight(PreflightError::AnchorMismatch),
            )
        } else {
            exists|f: Result<Fork, E>| #[trigger]
                call_ensures(active_fork, (blocks[0].number, blocks[0].timestamp), f) && match f {
                    Err(e) => r == Err::<(BatchState<H, D, S, P>, BatchAction<H, D, S, P>), _>(
                        Failure::Outside(e),
                    ),
                    Ok(fork) => r == Ok::<_, Failure<E>>(
                        (
                            BatchState::<H, D, S, P>::Searching(
                                BatchJob { request, anchor: anchors[0] },
                            ),
                            BatchAction::<H, D, S, P>::FindProposal(
                                request.l1_inclusion_block_number,
                                request.batch_id,
                                fork,
                            ),
                        ),
                    ),
                }
        }
}

/// Reads the anchors of the blocks, and settles where to look for their proposal.
pub fn start_batch<H, T, D, S, P, E, F, G>(
    batch_blocks: &Vec<L2Block<T>>,
    request: BatchRequest<S, P>,
    active_fork: &F,
    decode: &G,
) -> (r: Result<(BatchState<H, D, S, P>, BatchAction<H, D, S, P>), Failure<E>>) where
    F: Fn(u64, u64) -> Result<Fork, E>,
    G: Fn(AnchorAbi, &Vec<u8>) -> Result<AnchorInfo, E>,

    requires
        batch_blocks@.len() > 0,
        forall|number: u64, timestamp: u64| call_requires(*active_fork, (number, timestamp)),
        forall|abi: AnchorAbi, data: Vec<u8>| call_requires(*decode, (abi, &data)),
    ensures
        started(batch_blocks@, request, *active_fork, *decode, r),
{
    match get_anchors(batch_blocks, active_fork, decode) {
        Err(e) => Err(e),
        Ok(anchors) => {
            if !are_all_same(&anchors) {
                return Err(Failure::Preflight(PreflightError::AnchorMismatch));
            }
            let anchor: AnchorInfo = anchors[0];
            match active_fork(batch_blocks[0].number, batch_blocks[0].timestamp) {
                Err(e) => Err(Failure::Outside(e)),
                Ok(fork) => {
                    let action: BatchAction<H, D, S, P> = BatchAction::FindProposal(
                        request.l1_inclusion_block_number,
                        request.batch_id,
                        fork,
                    );
                    Ok((BatchState::Searching(BatchJob { request, anchor }), action))
                },
            }
        },
    }
}

/// A batch that starts has one anchor: that of each of its blocks.
pub proof fn law_batch_blocks_share_their_anchor<H, T, D, S, P, E, F, G>(
    blocks: Seq<L2Block<T>>,
    request: BatchRequest<S, P>,
    active_fork: F,
    decode: G,
    state: BatchState<H, D, S, P>,
    action: BatchAction<H, D, S, P>,
) where
    F: Fn(u64, u64) -> Result<Fork, E>,
    G: Fn(AnchorAbi, &Vec<u8>) -> Result<AnchorInfo, E>,

    requires
        started(blocks, request, active_fork, decode, Ok((state, action))),
    ensures
        state matches BatchState::Searching(job) && job.request == request && forall|i: int|
            0 <= i < blocks.len() ==> block_anchor(
                #[trigger] blocks[i],
                active_fork,
                decode,
                Ok(job.anchor),
            ),
{
    let anchors = choose|anchors: Seq<AnchorInfo>| #[trigger]
        anchors_of(blocks, active_fork, decode, anchors) && anchors.len() >= blocks.len()
            && all_same(anchors) && state == BatchState::<H, D, S, P>::Searching(
            BatchJob { request, anchor: anchors[0] },
        );
    assert forall|i: int| 0 <= i < blocks.len() implies block_anchor(
        #[trigger] blocks[i],
        active_fork,
        decode,
        Ok(anchors[0]),
    ) by {
        assert(anchors[i] == anchors[0]);
    }
}

/// Whether the event is an answer to what was asked last.
pub open spec fn answers<H, D, S, P>(
    state: BatchState<H, D, S, P>,
    event: BatchEvent<H, D>,
) -> bool {
    match (state, event) {
        (BatchState::Searching(_), BatchEvent::Proposed(_)) => true,
        (BatchState::FetchingHeaders(_, _), BatchEvent::Headers(_, _)) => true,
        (BatchState::FetchingForcedHeaders(_, _, _), BatchEvent::Headers(_, _)) => true,
        (BatchState::FetchingBlobs(_, _, _), BatchEvent::Blobs(_)) => true,
        (BatchState::DecodingCalldata(_, _, _), BatchEvent::Calldata(_)) => true,
        _ => false,
    }
}

/// What a batch proposal says of its batch, if it is one.
pub open spec fn info_of<D>(event: BlockProposedFork<D>) -> Option<BatchInfo> {
    match event.proposed {
        Proposed::Pacaya(info) => Some(info),
        _ => None,
    }
}

/// Whether the blobs were created in another L1 block than the one that the proposal stands in.
pub open spec fn is_forced(info: BatchInfo, l1_inclusion_block_number: u64) -> bool {
    info.blob_created_in != 0 && info.blob_created_in != l1_inclusion_block_number
}

/// `r` is how the transactions are to be fetched: from the blobs that the proposal names, or, where
/// it names none, from its call data.
pub open spec fn fetches<H, D, S, P>(
    job: BatchJob<S, P>,
    proposal: Proposal<D>,
    l1_header: Header<H>,
    timestamp: u64,
    r: (BatchState<H, D, S, P>, BatchAction<H, D, S, P>),
) -> bool {
    match info_of(proposal.event) {
        None => false,
        Some(info) => if info.blob_hashes@.len() == 0 {
            r == (
                BatchState::<H, D, S, P>::DecodingCalldata(job, proposal.event, l1_header),
                BatchAction::<H, D, S, P>::DecodeCalldata(proposal.tx.input),
            )
        } else {
            &&& r.0 == BatchState::<H, D, S, P>::FetchingBlobs(job, proposal.event, l1_header)
            &&& r.1 matches BatchAction::FetchBlobs(hashes, at) && hashes@ == info.blob_hashes@
                && at == timestamp
        },
    }
}

/// `r` gives up with this failure.
pub open spec fn fails<H, D, S, P>(
    r: (BatchState<H, D, S, P>, BatchAction<H, D, S, P>),
    e: PreflightError,
) -> bool {
    r == (BatchState::<H, D, S, P>::Finished, BatchAction::<H, D, S, P>::Fail(e))
}

/// `r` is what follows from the headers: the header of the anchor block must have the state root
/// that the anchor calls name, and the proposal must be one of a batch. The blobs of a forced
/// inclusion are as old as the L1 block that they were created in.
pub open spec fn after_headers<H, D, S, P>(
    job: BatchJob<S, P>,
    proposal: Proposal<D>,
    l1_inclusion_header: Header<H>,
    l1_state_header: Header<H>,
    r: (BatchState<H, D, S, P>, BatchAction<H, D, S, P>),
) -> bool {
    if job.anchor.state_root != l1_state_header.state_root {
        fails(r, PreflightError::StateRootMismatch)
    } else {
        match info_of(proposal.event) {
            None => fails(r, PreflightError::NotPacayaProposal),
            Some(info) => if is_forced(info, job.request.l1_inclusion_block_number) {
                r == (
                    BatchState::<H, D, S, P>::FetchingForcedHeaders(job, proposal, l1_state_header),
                    BatchAction::<H, D, S, P>::FetchHeaders(
                        info.blob_created_in,
                        job.anchor.block_id,
                    ),
                )
            } else {
                fetches(job, proposal, l1_state_header, l1_inclusion_header.timestamp, r)
            },
        }
    }
}

/// `input` is put together from its parts.
pub open spec fn assembled<H, D, S, P>(
    job: BatchJob<S, P>,
    batch_proposed: BlockProposedFork<D>,
    l1_header: Header<H>,
    calldata: Seq<u8>,
    blobs: Seq<TxData>,
    input: TaikoGuestBatchInput<H, D, S, P>,
) -> bool {
    &&& input.batch_id == job.request.batch_id
    &&& input.l1_header == l1_header
    &&& input.batch_proposed == batch_proposed
    &&& input.chain_spec == job.request.chain_spec
    &&& input.prover_data == job.request.prover_data
    &&& input.tx_data_from_calldata@ == calldata
    &&& input.tx_data_from_blob@ == blobs.map_values(|b: TxData| b.data)
    &&& input.blob_commitments@ == blobs.map_values(|b: TxData| b.commitment)
    &&& input.blob_proofs@ == blobs.map_values(|b: TxData| b.blob_proof)
    &&& input.blob_proof_type == job.request.blob_proof_type
}

/// `r` hands over an input that is put together from these parts.
pub open spec fn hands_over<H, D, S, P>(
    job: BatchJob<S, P>,
    batch_proposed: BlockProposedFork<D>,
    l1_header: Header<H>,
    calldata: Seq<u8>,
    blobs: Seq<TxData>,
    r: (BatchState<H, D, S, P>, BatchAction<H, D, S, P>),
) -> bool {
    &&& r.0 == BatchState::<H, D, S, P>::Finished
    &&& r.1 matches BatchAction::Done(input) && assembled(
        job,
        batch_proposed,
        l1_header,
        calldata,
        blobs,
        input,
    )
}

/// `r` is what follows from an answer.
pub open spec fn steps<H, D, S, P>(
    state: BatchState<H, D, S, P>,
    event: BatchEvent<H, D>,
    r: (BatchState<H, D, S, P>, BatchAction<H, D, S, P>),
) -> bool {
    match (state, event) {
        (BatchState::Searching(job), BatchEvent::Proposed(proposal)) => if proposal.l1_block_number
            != job.request.l1_inclusion_block_number {
            fails(r, PreflightError::BatchInclusionMismatch)
        } else {
            r == (
                BatchState::<H, D, S, P>::FetchingHeaders(job, proposal),
                BatchAction::<H, D, S, P>::FetchHeaders(
                    job.request.l1_inclusion_block_number,
                    job.anchor.block_id,
                ),
            )
        },
        (BatchState::FetchingHeaders(job, proposal), BatchEvent::Headers(inclusion, state_header)) =>
            after_headers(job, proposal, inclusion, state_header, r),
        (
            BatchState::FetchingForcedHeaders(job, proposal, l1_header),
            BatchEvent::Headers(forced, _),
        ) => match info_of(proposal.event) {
            None => fails(r, PreflightError::NotPacayaProposal),
            Some(_) => fetches(job, proposal, l1_header, forced.timestamp, r),
        },
        (BatchState::FetchingBlobs(job, proposed, l1_header), BatchEvent::Blobs(blobs)) =>
            hands_over(job, proposed, l1_header, Seq::empty(), blobs@, r),
        (
            BatchState::DecodingCalldata(job, proposed, l1_header),
            BatchEvent::Calldata(Some(tx_list)),
        ) => hands_over(job, proposed, l1_header, tx_list@, Seq::empty(), r),
        (BatchState::DecodingCalldata(_, _, _), BatchEvent::Calldata(None)) => fails(
            r,
            PreflightError::ProposeBatchCallUndecodable,
        ),
        _ => false,
    }
}

fn copy_hashes(hashes: &Vec<B256>) -> (r: Vec<B256>)
    ensures
        r@ == hashes@,
{
    let mut copy: Vec<B256> = Vec::new();
    let mut i: usize = 0;
    while i < hashes.len()
        invariant
            i <= hashes@.len(),
            copy@ == hashes@.take(i as int),
        decreases hashes@.len() - i,
    {
        copy.push(hashes[i]);
        assert(hashes@.take(i + 1) =~= hashes@.take(i as int).push(hashes@[i as int]));
        i += 1;
    }
    assert(hashes@.take(hashes@.len() as int) =~= hashes@);
    copy
}

fn fetch_txs<H, D, S, P>(
    job: BatchJob<S, P>,
    proposal: Proposal<D>,
    l1_header: Header<H>,
    timestamp: u64,
) -> (r: (BatchState<H, D, S, P>, BatchAction<H, D, S, P>))
    ensures
        match info_of(proposal.event) {
            None => fails(r, PreflightError::NotPacayaProposal),
            Some(_) => fetches(job, proposal, l1_header, timestamp, r),
        },
{
    let hashes: Vec<B256> = match &proposal.event.proposed {
        Proposed::Pacaya(info) => copy_hashes(&info.blob_hashes),
        _ => {
            return (
                BatchState::Finished,
                BatchAction::Fail(PreflightError::NotPacayaProposal),
            );
        },
    };
    if hashes.is_empty() {
        (
            BatchState::DecodingCalldata(job, proposal.event, l1_header),
            BatchAction::DecodeCalldata(proposal.tx.input),
        )
    } else {
        (
            BatchState::FetchingBlobs(job, proposal.event, l1_header),
            BatchAction::FetchBlobs(hashes, timestamp),
        )
    }
}

fn use_headers<H, D, S, P>(
    job: BatchJob<S, P>,
    proposal: Proposal<D>,
    l1_inclusion_header: Header<H>,
    l1_state_header: Header<H>,
) -> (r: (BatchState<H, D, S, P>, BatchAction<H, D, S, P>))
    ensures
        after_headers(job, proposal, l1_inclusion_header, l1_state_header, r),
{
    if !same_hash(&job.anchor.state_root, &l1_state_header.state_root) {
        return (BatchState::Finished, BatchAction::Fail(PreflightError::StateRootMismatch));
    }
    let created_in: u64 = match &proposal.event.proposed {
        Proposed::Pacaya(info) => info.blob_created_in,
        _ => {
            return (
                BatchState::Finished,
                BatchAction::Fail(PreflightError::NotPacayaProposal),
            );
        },
    };
    if created_in != 0 && created_in != job.request.l1_inclusion_block_number {
        let action: BatchAction<H, D, S, P> = BatchAction::FetchHeaders(
            created_in,
            job.anchor.block_id,
        );
        (BatchState::FetchingForcedHeaders(job, proposal, l1_state_header), action)
    } else {
        fetch_txs(job, proposal, l1_state_header, l1_inclusion_header.timestamp)
    }
}

fn assemble<H, D, S, P>(
    job: BatchJob<S, P>,
    batch_proposed: BlockProposedFork<D>,
    l1_header: Header<H>,
    tx_data_from_calldata: Vec<u8>,
    blobs: Vec<TxData>,
) -> (r: TaikoGuestBatchInput<H, D, S, P>)
    ensures
        assembled(job, batch_proposed, l1_header, tx_data_from_calldata@, blobs@, r),
{
    let ghost given = blobs@;
    let count: usize = blobs.len();
    let mut rest = blobs;
    let mut tx_data_from_blob: Vec<Vec<u8>> = Vec::new();
    let mut blob_commitments: Vec<Option<Vec<u8>>> = Vec::new();
    let mut blob_proofs: Vec<Option<Vec<u8>>> = Vec::new();
    let mut i: usize = 0;
    while i < count
        invariant
            i <= count,
            count == given.len(),
            rest@ == given.skip(i as int),
            tx_data_from_blob@ == given.take(i as int).map_values(|b: TxData| b.data),
            blob_commitments@ == given.take(i as int).map_values(|b: TxData| b.commitment),
            blob_proofs@ == given.take(i as int).map_values(|b: TxData| b.blob_proof),
        decreases count - i,
    {
        let blob: TxData = rest.remove(0);
        assert(given.skip(i as int).remove(0) =~= given.skip(i + 1));
        let ghost next = given.take(i + 1);
        tx_data_from_blob.push(blob.data);
        blob_commitments.push(blob.commitment);
        blob_proofs.push(blob.blob_proof);
        assert(tx_data_from_blob@ =~= next.map_values(|b: TxData| b.data));
        assert(blob_commitments@ =~= next.map_values(|b: TxData| b.commitment));
        assert(blob_proofs@ =~= next.map_values(|b: TxData| b.blob_proof));
        i += 1;
    }
    assert(given.take(count as int) =~= given);
    TaikoGuestBatchInput {
        batch_id: job.request.batch_id,
        l1_header,
        batch_proposed,
        chain_spec: job.request.chain_spec,
        prover_data: job.request.prover_data,
        tx_data_from_calldata,
        tx_data_from_blob,
        blob_commitments,
        blob_proofs,
        blob_proof_type: job.request.blob_proof_type,
    }
}

/// Takes an answer, and says what is to be done next.
pub fn prepare_taiko_chain_batch_input<H, D, S, P>(
    state: BatchState<H, D, S, P>,
    event: BatchEvent<H, D>,
) -> (r: (BatchState<H, D, S, P>, BatchAction<H, D, S, P>))
    requires
        answers(state, event),
    ensures
        steps(state, event, r),
{
    match (state, event) {
        (BatchState::Searching(job), BatchEvent::Proposed(proposal)) => {
            if proposal.l1_block_number != job.request.l1_inclusion_block_number {
                (BatchState::Finished, BatchAction::Fail(PreflightError::BatchInclusionMismatch))
            } else {
                let action: BatchAction<H, D, S, P> = BatchAction::FetchHeaders(
                    job.request.l1_inclusion_block_number,
                    job.anchor.block_id,
                );
                (BatchState::FetchingHeaders(job, proposal), action)
            }
        },
        (BatchState::FetchingHeaders(job, proposal), BatchEvent::Headers(inclusion, state_header)) =>
            use_headers(job, proposal, inclusion, state_header),
        (
            BatchState::FetchingForcedHeaders(job, proposal, l1_header),
            BatchEvent::Headers(forced, _),
        ) => fetch_txs(job, proposal, l1_header, forced.timestamp),
        (BatchState::FetchingBlobs(job, proposed, l1_header), BatchEvent::Blobs(blobs)) => {
            let none: Vec<u8> = Vec::new();
            assert(none@ =~= Seq::empty());
            (
                BatchState::Finished,
                BatchAction::Done(assemble(job, proposed, l1_header, none, blobs)),
            )
        },
        (
            BatchState::DecodingCalldata(job, proposed, l1_header),
            BatchEvent::Calldata(Some(tx_list)),
        ) => {
            let none: Vec<TxData> = Vec::new();
            assert(none@ =~= Seq::empty());
            (
                BatchState::Finished,
                BatchAction::Done(assemble(job, proposed, l1_header, tx_list, none)),
            )
        },
        _ => (
            BatchState::Finished,
            BatchAction::Fail(PreflightError::ProposeBatchCallUndecodable),
        ),
    }
}

/// `r` is what follows once the proposal and the headers have come, those of a forced inclusion
/// among them where they were asked for.
pub open spec fn brought<H, D, S, P>(
    job: BatchJob<S, P>,
    proposal: Proposal<D>,
    headers: (Header<H>, Header<H>),
    forced: Option<(Header<H>, Header<H>)>,
    r: (BatchState<H, D, S, P>, BatchAction<H, D, S, P>),
) -> bool {
    exists|
        first: (BatchState<H, D, S, P>, BatchAction<H, D, S, P>),
        second: (BatchState<H, D, S, P>, BatchAction<H, D, S, P>),
    |
        {
            &&& #[trigger] steps(BatchState::Searching(job), BatchEvent::Proposed(proposal), first)
            &&& #[trigger] steps(first.0, BatchEvent::Headers(headers.0, headers.1), second)
            &&& match forced {
                None => r == second,
                Some(more) => steps(second.0, BatchEvent::Headers(more.0, more.1), r),
            }
        }
}

/// A batch input that is handed over holds what was asked for and nothing else: the header of the
/// anchor block, with the state root that the anchor calls name; the proposal, from the L1 block
/// that was named; and the transactions, from the blobs that the proposal names or, where it names
/// none, from its call data. Each blob comes with its commitment and its proof, in the order of the
/// blobs. The time that the blobs are looked up by is that of the L1 block they
/// were created in.
pub proof fn law_batch_input_holds_what_was_asked_for<H, D, S, P>(
    job: BatchJob<S, P>,
    proposal: Proposal<D>,
    headers: (Header<H>, Header<H>),
    forced: Option<(Header<H>, Header<H>)>,
    fetch: (BatchState<H, D, S, P>, BatchAction<H, D, S, P>),
    last: BatchEvent<H, D>,
    end: BatchState<H, D, S, P>,
    input: TaikoGuestBatchInput<H, D, S, P>,
)
    requires
        brought(job, proposal, headers, forced, fetch),
        steps(fetch.0, last, (end, BatchAction::Done(input))),
    ensures
        proposal.l1_block_number == job.request.l1_inclusion_block_number,
        input.batch_id == job.request.batch_id,
        input.l1_header == headers.1,
        input.l1_header.state_root == job.anchor.state_root,
        input.batch_proposed == proposal.event,
        input.chain_spec == job.request.chain_spec,
        input.prover_data == job.request.prover_data,
        input.blob_proof_type == job.request.blob_proof_type,
        proposal.event.proposed matches Proposed::Pacaya(info) && {
            &&& forced is Some <==> info.blob_created_in != 0 && info.blob_created_in
                != job.request.l1_inclusion_block_number
            &&& info.blob_hashes@.len() == 0 ==> {
                &&& fetch.1 == BatchAction::<H, D, S, P>::DecodeCalldata(proposal.tx.input)
                &&& last matches BatchEvent::Calldata(Some(list)) && input.tx_data_from_calldata@
                    == list@
                &&& input.tx_data_from_blob@.len() == 0
                &&& input.blob_commitments@.len() == 0
                &&& input.blob_proofs@.len() == 0
            }
            &&& info.blob_hashes@.len() > 0 ==> {
                &&& fetch.1 matches BatchAction::FetchBlobs(hashes, at) && hashes@
                    == info.blob_hashes@ && at == match forced {
                    Some(more) => more.0.timestamp,
                    None => headers.0.timestamp,
                }
                &&& last matches BatchEvent::Blobs(blobs) && input.tx_data_from_blob@
                    == blobs@.map_values(|b: TxData| b.data) && input.blob_commitments@
                    == blobs@.map_values(|b: TxData| b.commitment) && input.blob_proofs@
                    == blobs@.map_values(|b: TxData| b.blob_proof)
                &&& input.tx_data_from_calldata@.len() == 0
            }
        },
        end == BatchState::<H, D, S, P>::Finished,
{
}

/// Call data and blobs exclude each other in a batch input, and each blob has its place in the
/// lists of commitments and proofs.
pub proof fn law_calldata_and_blobs_exclude_each_other<H, D, S, P>(
    state: BatchState<H, D, S, P>,
    event: BatchEvent<H, D>,
    end: BatchState<H, D, S, P>,
    input: TaikoGuestBatchInput<H, D, S, P>,
)
    requires
        steps(state, event, (end, BatchAction::Done(input))),
    ensures
        input.tx_data_from_calldata@.len() == 0 || input.tx_data_from_blob@.len() == 0,
        input.blob_commitments@.len() == input.tx_data_from_blob@.len(),
        input.blob_proofs@.len() == input.tx_data_from_blob@.len(),
{
}

/// Where the chain is consistent, the batch input is owed: with the proposal of a batch in the L1
/// block that was named, a header that fits the anchors, and call data that can be decoded, the
/// last answer brings it.
pub proof fn law_consistent_chain_gives_a_batch_input<H, D, S, P>(
    job: BatchJob<S, P>,
    proposal: Proposal<D>,
    headers: (Header<H>, Header<H>),
    forced: Option<(Header<H>, Header<H>)>,
    fetch: (BatchState<H, D, S, P>, BatchAction<H, D, S, P>),
    last: BatchEvent<H, D>,
    r: (BatchState<H, D, S, P>, BatchAction<H, D, S, P>),
)
    requires
        proposal.l1_block_number == job.request.l1_inclusion_block_number,
        job.anchor.state_root == headers.1.state_root,
        info_of(proposal.event) is Some,
        forced is Some <==> is_forced(
            info_of(proposal.event)->0,
            job.request.l1_inclusion_block_number,
        ),
        brought(job, proposal, headers, forced, fetch),
        answers(fetch.0, last),
        last != BatchEvent::<H, D>::Calldata(None),
        steps(fetch.0, last, r),
    ensures
        r.1 is Done,
{
}

/// How many answers a state waits for at most.
pub open spec fn answers_left<H, D, S, P>(state: BatchState<H, D, S, P>) -> nat {
    match state {
        BatchState::Searching(_) => 4,
        BatchState::FetchingHeaders(_, _) => 3,
        BatchState::FetchingForcedHeaders(_, _, _) => 2,
        BatchState::FetchingBlobs(_, _, _) => 1,
        BatchState::DecodingCalldata(_, _, _) => 1,
        BatchState::Finished => 0,
    }
}

/// Every answer brings the end nearer, and the last action of all, and no other, ends the work.
pub proof fn law_batch_input_comes_to_an_end<H, D, S, P>(
    state: BatchState<H, D, S, P>,
    event: BatchEvent<H, D>,
    r: (BatchState<H, D, S, P>, BatchAction<H, D, S, P>),
)
    requires
        steps(state, event, r),
    ensures
        answers_left(r.0) < answers_left(state),
        r.0 is Finished <==> r.1 is Done || r.1 is Fail,
{
}

/// A batch is looked for in the L1 block that the request names, by its own number, under the fork
/// of its first block.
pub proof fn law_batch_is_looked_for_where_the_request_says<H, T, D, S, P, E, F, G>(
    blocks: Seq<L2Block<T>>,
    request: BatchRequest<S, P>,
    active_fork: F,
    decode: G,
    state: BatchState<H, D, S, P>,
    action: BatchAction<H, D, S, P>,
) where
    F: Fn(u64, u64) -> Result<Fork, E>,
    G: Fn(AnchorAbi, &Vec<u8>) -> Result<AnchorInfo, E>,

    requires
        blocks.len() > 0,
        started(blocks, request, active_fork, decode, Ok((state, action))),
    ensures
        action matches BatchAction::FindProposal(height, number, fork) && height
            == request.l1_inclusion_block_number && number == request.batch_id && call_ensures(
            active_fork,
            (blocks[0].number, blocks[0].timestamp),
            Ok(fork),
        ),
        state matches BatchState::Searching(job) && job.request == request && block_anchor(
            blocks[0],
            active_fork,
            decode,
            Ok(job.anchor),
        ),
{
    law_batch_blocks_share_their_anchor(blocks, request, active_fork, decode, state, action);
    assert(block_anchor(blocks[0], active_fork, decode, Ok(state->Searching_0.anchor)));
}

/// A batch does not start only where one of its blocks has no anchor, all before it having one,
/// where two of its blocks say different things, or where the fork of its first block cannot be
/// told; each has a failure of its own.
pub proof fn law_batch_start_fails_only_for_cause<H, T, D, S, P, E, F, G>(
    blocks: Seq<L2Block<T>>,
    request: BatchRequest<S, P>,
    active_fork: F,
    decode: G,
    failure: Failure<E>,
) where
    F: Fn(u64, u64) -> Result<Fork, E>,
    G: Fn(AnchorAbi, &Vec<u8>) -> Result<AnchorInfo, E>,

    requires
        blocks.len() > 0,
        started::<H, T, D, S, P, E, F, G>(blocks, request, active_fork, decode, Err(failure)),
    ensures
        exists|anchors: Seq<AnchorInfo>|
            {
                &&& #[trigger] anchors.len() <= blocks.len()
                &&& forall|i: int|
                    0 <= i < anchors.len() ==> block_anchor(
                        blocks[i],
                        active_fork,
                        decode,
                        Ok(#[trigger] anchors[i]),
                    )
                &&& {
                    ||| anchors.len() < blocks.len() && block_anchor(
                        blocks[anchors.len() as int],
                        active_fork,
                        decode,
                        Err(failure),
                    )
                    ||| {
                        &&& anchors.len() == blocks.len()
                        &&& failure == Failure::<E>::Preflight(PreflightError::AnchorMismatch)
                        &&& exists|i: int, j: int|
                            0 <= i < anchors.len() && 0 <= j < anchors.len()
                                && #[trigger] anchors[i] != #[trigger] anchors[j]
                    }
                    ||| {
                        &&& anchors.len() == blocks.len()
                        &&& failure is Outside
                        &&& call_ensures(
                            active_fork,
                            (blocks[0].number, blocks[0].timestamp),
                            Err(failure->Outside_0),
                        )
                    }
                }
            },
{
    let anchors = choose|anchors: Seq<AnchorInfo>| #[trigger]
        anchors_of(blocks, active_fork, decode, anchors) && if anchors.len() < blocks.len() {
            block_anchor(blocks[anchors.len() as int], active_fork, decode, Err(failure))
        } else if !all_same(anchors) {
            failure == Failure::<E>::Preflight(PreflightError::AnchorMismatch)
        } else {
            exists|f: Result<Fork, E>| #[trigger]
                call_ensures(active_fork, (blocks[0].number, blocks[0].timestamp), f) && match f {
                    Err(e) => failure == Failure::Outside(e),
                    Ok(fork) => false,
                }
        };
    assert(anchors.len() <= blocks.len());
    if anchors.len() == blocks.len() && !all_same(anchors) {
        let i = choose|i: int| 0 <= i < anchors.len() && #[trigger] anchors[i] != anchors[0];
        assert(anchors[i] != anchors[0]);
    }
    if anchors.len() == blocks.len() && all_same(anchors) {
        let f = choose|f: Result<Fork, E>| #[trigger]
            call_ensures(active_fork, (blocks[0].number, blocks[0].timestamp), f) && match f {
                Err(e) => failure == Failure::Outside(e),
                Ok(fork) => false,
            };
        assert(f == Err::<Fork, E>(failure->Outside_0));
    }
}

/// The numbers of a batch that was proposed in the named L1 block are owed wherever it can have so
/// many blocks: each is one more than the one before it, up to the last block of the proposal. Else
/// another L1 block, a proposal that is not of a batch, or numbers that do not fit break off, in
/// this order.
pub proof fn law_batch_numbers_are_owed<D>(
    l1_inclusion_block_number: u64,
    proposal: Proposal<D>,
    r: Result<Vec<u64>, PreflightError>,
)
    requires
        batch_parsed(l1_inclusion_block_number, proposal, r),
    ensures
        r == Err::<Vec<u64>, _>(PreflightError::InclusionMismatch) <==> proposal.l1_block_number
            != l1_inclusion_block_number,
        r == Err::<Vec<u64>, _>(PreflightError::NotPacayaProposal) <==> proposal.l1_block_number
            == l1_inclusion_block_number && !(proposal.event.proposed is Pacaya),
        proposal.l1_block_number == l1_inclusion_block_number ==> (proposal.event.proposed
            matches Proposed::Pacaya(info) ==> if info.block_count == 0 || info.block_count
            > info.last_block_id + 1 {
            r == Err::<Vec<u64>, _>(PreflightError::BatchNumbersOverflow)
        } else {
            r matches Ok(numbers) && numbers@.len() == info.block_count && forall|i: int|
                0 <= i < numbers@.len() ==> #[trigger] numbers@[i] + (info.block_count - 1 - i)
                    == info.last_block_id
        }),
{
}

/// The numbers of a batch fit exactly where it has a block and its first number is not below zero.
pub proof fn law_batch_numbers_fit(last_block_id: u64, block_count: nat, i: int)
    ensures
        numbers_fit(last_block_id, block_count) <==> 0 < block_count <= last_block_id + 1,
        numbers_fit(last_block_id, block_count) && 0 <= i < block_count ==> numbers_of(
            last_block_id,
            block_count,
        )[i] + (block_count - 1 - i) == last_block_id,
{
}

/// The search for a batch goes through the logs by the decoder of batch proposals, for its number.
pub proof fn law_batch_is_searched_for_by_its_number<D, A, B, C>(
    logs: Seq<RpcLog>,
    batch_id: u64,
    decoders: ProposalDecoders<A, B, C>,
    r: Result<Found<BlockProposedFork<D>>, PreflightError>,
) where
    A: Fn(&LogStruct) -> Option<BatchProposedEvent<D>>,
    B: Fn(&LogStruct) -> Option<BlockProposedEvent<D>>,
    C: Fn(&LogStruct) -> Option<BlockProposedEvent<D>>,

    requires
        batch_searched(logs, batch_id, decoders, r),
    ensures
        exists|decoded: Seq<Option<(U256, BlockProposedFork<D>)>>| #[trigger]
            decoders.decodes_all(Fork::Pacaya, logs, decoded) && scanned(
                logs,
                decoded,
                batch_id,
                PreflightError::NoProposalEvent(batch_id),
                r,
            ),
{
}

/// Once the proposal has come, the headers that are fetched are those of the L1 block that the
/// request names and of the L1 block that the anchors name, in this order. A proposal from another
/// L1 block breaks off.
pub proof fn law_headers_of_inclusion_and_anchor_are_fetched<H, D, S, P>(
    job: BatchJob<S, P>,
    proposal: Proposal<D>,
    r: (BatchState<H, D, S, P>, BatchAction<H, D, S, P>),
)
    requires
        steps(BatchState::Searching(job), BatchEvent::Proposed(proposal), r),
    ensures
        proposal.l1_block_number != job.request.l1_inclusion_block_number <==> r.1
            == BatchAction::<H, D, S, P>::Fail(PreflightError::BatchInclusionMismatch),
        proposal.l1_block_number == job.request.l1_inclusion_block_number ==> {
            &&& r.0 == BatchState::<H, D, S, P>::FetchingHeaders(job, proposal)
            &&& r.1 matches BatchAction::FetchHeaders(first, second) && first
                == job.request.l1_inclusion_block_number && second == job.anchor.block_id
        },
        r.1 is Fail ==> r.0 == BatchState::<H, D, S, P>::Finished,
{
}

/// The headers decide: a header of the anchor block with another state root, or a proposal that is
/// not of a batch, ends the work, in this order. Where the blobs were created in another L1 block
/// than the one that the proposal stands in, the header of that very block is fetched next, with
/// that of the anchor block. Else the transactions are fetched: the blobs that the proposal names,
/// by the time of the block that it stands in, or, where it names none, its call data.
pub proof fn law_headers_decide_what_is_fetched<H, D, S, P>(
    job: BatchJob<S, P>,
    proposal: Proposal<D>,
    inclusion: Header<H>,
    anchor: Header<H>,
    r: (BatchState<H, D, S, P>, BatchAction<H, D, S, P>),
)
    requires
        steps(
            BatchState::FetchingHeaders(job, proposal),
            BatchEvent::Headers(inclusion, anchor),
            r,
        ),
    ensures
        r.1 == BatchAction::<H, D, S, P>::Fail(PreflightError::StateRootMismatch)
            <==> job.anchor.state_root != anchor.state_root,
        r.1 == BatchAction::<H, D, S, P>::Fail(PreflightError::NotPacayaProposal)
            <==> job.anchor.state_root == anchor.state_root && !(proposal.event.proposed is Pacaya),
        job.anchor.state_root == anchor.state_root ==> (proposal.event.proposed
            matches Proposed::Pacaya(info) ==> if info.blob_created_in != 0 && info.blob_created_in
            != job.request.l1_inclusion_block_number {
            &&& r.0 == BatchState::<H, D, S, P>::FetchingForcedHeaders(job, proposal, anchor)
            &&& r.1 matches BatchAction::FetchHeaders(first, second) && first
                == info.blob_created_in && second == job.anchor.block_id
        } else if info.blob_hashes@.len() == 0 {
            &&& r.0 == BatchState::<H, D, S, P>::DecodingCalldata(job, proposal.event, anchor)
            &&& r.1 == BatchAction::<H, D, S, P>::DecodeCalldata(proposal.tx.input)
        } else {
            &&& r.0 == BatchState::<H, D, S, P>::FetchingBlobs(job, proposal.event, anchor)
            &&& r.1 matches BatchAction::FetchBlobs(hashes, at) && hashes@ == info.blob_hashes@ && at
                == inclusion.timestamp
        }),
        r.1 is Fail ==> r.0 == BatchState::<H, D, S, P>::Finished,
{
}

/// Once the header of the L1 block in which the blobs were created has come, they are fetched by
/// its time; where the proposal names none, its call data are decoded.
pub proof fn law_forced_blobs_are_fetched_by_their_own_time<H, D, S, P>(
    job: BatchJob<S, P>,
    proposal: Proposal<D>,
    l1_header: Header<H>,
    created: Header<H>,
    anchor: Header<H>,
    r: (BatchState<H, D, S, P>, BatchAction<H, D, S, P>),
)
    requires
        steps(
            BatchState::FetchingForcedHeaders(job, proposal, l1_header),
            BatchEvent::Headers(created, anchor),
            r,
        ),
    ensures
        r.1 == BatchAction::<H, D, S, P>::Fail(PreflightError::NotPacayaProposal) <==> !(
        proposal.event.proposed is Pacaya),
        proposal.event.proposed matches Proposed::Pacaya(info) ==> if info.blob_hashes@.len() == 0 {
            &&& r.0 == BatchState::<H, D, S, P>::DecodingCalldata(job, proposal.event, l1_header)
            &&& r.1 == BatchAction::<H, D, S, P>::DecodeCalldata(proposal.tx.input)
        } else {
            &&& r.0 == BatchState::<H, D, S, P>::FetchingBlobs(job, proposal.event, l1_header)
            &&& r.1 matches BatchAction::FetchBlobs(hashes, at) && hashes@ == info.blob_hashes@ && at
                == created.timestamp
        },
{
}

/// What an action that asks for headers is answered with, where `header_of` is the header of each
/// L1 block.
pub open spec fn answered_with_headers<H, D, S, P>(
    asked: (BatchState<H, D, S, P>, BatchAction<H, D, S, P>),
    header_of: spec_fn(u64) -> Header<H>,
    r: (BatchState<H, D, S, P>, BatchAction<H, D, S, P>),
) -> bool {
    asked.1 matches BatchAction::FetchHeaders(first, second) && steps(
        asked.0,
        BatchEvent::Headers(header_of(first), header_of(second)),
        r,
    )
}

/// Blobs are looked up by the time of the L1 block in which they were created: the one that the
/// proposal names, and where it names none the one that the proposal stands in. This holds of every
/// chain of headers, where each question is answered with the headers of the blocks that it names.
pub proof fn law_blobs_are_looked_up_by_the_time_of_their_block<H, D, S, P>(
    job: BatchJob<S, P>,
    proposal: Proposal<D>,
    header_of: spec_fn(u64) -> Header<H>,
    first: (BatchState<H, D, S, P>, BatchAction<H, D, S, P>),
    second: (BatchState<H, D, S, P>, BatchAction<H, D, S, P>),
    third: (BatchState<H, D, S, P>, BatchAction<H, D, S, P>),
)
    requires
        steps(BatchState::Searching(job), BatchEvent::Proposed(proposal), first),
        answered_with_headers(first, header_of, second),
        second.1 is FetchHeaders ==> answered_with_headers(second, header_of, third),
        !(second.1 is FetchHeaders) ==> third == second,
    ensures
        first.1 == BatchAction::<H, D, S, P>::FetchHeaders(
            job.request.l1_inclusion_block_number,
            job.anchor.block_id,
        ),
        second.1 matches BatchAction::FetchHeaders(created_in, anchor) ==> {
            &&& proposal.event.proposed matches Proposed::Pacaya(info) && created_in
                == info.blob_created_in && created_in != 0
            &&& created_in != job.request.l1_inclusion_block_number
            &&& anchor == job.anchor.block_id
        },
        third.1 matches BatchAction::FetchBlobs(hashes, at) ==> (proposal.event.proposed
            matches Proposed::Pacaya(info) && hashes@ == info.blob_hashes@ && at == header_of(
            if info.blob_created_in == 0 {
                job.request.l1_inclusion_block_number
            } else {
                info.blob_created_in
            },
        ).timestamp),
        third.1 is FetchBlobs || third.1 is DecodeCalldata ==> header_of(
            job.anchor.block_id,
        ).state_root == job.anchor.state_root,
        header_of(job.anchor.block_id).state_root == job.anchor.state_root && (
        proposal.event.proposed is Pacaya) ==> third.1 is FetchBlobs || third.1 is DecodeCalldata,
{
}

/// The last answer is put into the batch input as it came: each blob with its commitment and its
/// proof at the place of the blob, or the list of transactions and no blob; all else is what was
/// known before. Only call data that cannot be decoded end the work without an input.
pub proof fn law_last_answer_is_put_into_the_batch_input<H, D, S, P>(
    job: BatchJob<S, P>,
    proposed: BlockProposedFork<D>,
    l1_header: Header<H>,
    state: BatchState<H, D, S, P>,
    last: BatchEvent<H, D>,
    r: (BatchState<H, D, S, P>, BatchAction<H, D, S, P>),
)
    requires
        state == BatchState::<H, D, S, P>::FetchingBlobs(job, proposed, l1_header) || state
            == BatchState::<H, D, S, P>::DecodingCalldata(job, proposed, l1_header),
        steps(state, last, r),
    ensures
        r.0 == BatchState::<H, D, S, P>::Finished,
        r.1 == BatchAction::<H, D, S, P>::Fail(PreflightError::ProposeBatchCallUndecodable)
            <==> last == BatchEvent::<H, D>::Calldata(None),
        last != BatchEvent::<H, D>::Calldata(None) ==> (r.1 matches BatchAction::Done(input) && {
            &&& input.batch_id == job.request.batch_id
            &&& input.l1_header == l1_header
            &&& input.batch_proposed == proposed
            &&& input.chain_spec == job.request.chain_spec
            &&& input.prover_data == job.request.prover_data
            &&& input.blob_proof_type == job.request.blob_proof_type
            &&& last matches BatchEvent::Calldata(Some(list)) ==> {
                &&& input.tx_data_from_calldata@ == list@
                &&& input.tx_data_from_blob@.len() == 0
                &&& input.blob_commitments@.len() == 0
                &&& input.blob_proofs@.len() == 0
            }
            &&& last matches BatchEvent::Blobs(blobs) ==> {
                &&& input.tx_data_from_calldata@.len() == 0
                &&& input.tx_data_from_blob@.len() == blobs@.len()
                &&& input.blob_commitments@.len() == blobs@.len()
                &&& input.blob_proofs@.len() == blobs@.len()
                &&& forall|i: int|
                    0 <= i < blobs@.len() ==> input.tx_data_from_blob@[i] == (#[trigger] blobs@[i]).data
                        && input.blob_commitments@[i] == blobs@[i].commitment
                        && input.blob_proofs@[i] == blobs@[i].blob_proof
            }
        }),
        last is Blobs <==> state is FetchingBlobs,
        last is Calldata <==> state is DecodingCalldata,
{
}

/// Each answer to what was asked is taken, whatever it holds.
pub proof fn law_every_answer_is_taken<H, D, S, P>(
    job: BatchJob<S, P>,
    proposal: Proposal<D>,
    headers: (Header<H>, Header<H>),
    blobs: Vec<TxData>,
    call: Option<Vec<u8>>,
)
    ensures
        answers(BatchState::<H, D, S, P>::Searching(job), BatchEvent::Proposed(proposal)),
        answers(
            BatchState::<H, D, S, P>::FetchingHeaders(job, proposal),
            BatchEvent::Headers(headers.0, headers.1),
        ),
        answers(
            BatchState::<H, D, S, P>::FetchingForcedHeaders(job, proposal, headers.1),
            BatchEvent::Headers(headers.0, headers.1),
        ),
        answers(
            BatchState::<H, D, S, P>::FetchingBlobs(job, proposal.event, headers.1),
            BatchEvent::Blobs(blobs),
        ),
        answers(
            BatchState::<H, D, S, P>::DecodingCalldata(job, proposal.event, headers.1),
            BatchEvent::Calldata(call),
        ),
{
}

} // verus!
