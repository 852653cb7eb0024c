//! The input for proving a single block.
use vstd::prelude::*;
use crate::anchor::{get_single_anchor, single_anchor, AnchorAbi, AnchorInfo, Anchored};
use crate::error::{Failure, PreflightError};
use crate::types::{
    has_hash, same_hash, BlobProofType, BlockProposedFork, Fork, Header, L2Block, Proposal,
    ProposalTx, SignedTx, TxData, B256,
};

verus! {

/// Where to look for the proposal of a block.
#[derive(Clone, Copy, Debug, PartialEq, Eq, Structural)]
pub enum ProposalSearch {
    /// In the L1 block of this number.
    AtHeight(u64),
    /// In the L1 blocks after the anchor block of this number.
    AfterAnchor(u64),
}

/// Where to look for the proposal: in the block that the request names, else after the anchor.
pub open spec fn search_of(
    l1_inclusion_block_number: Option<u64>,
    anchor: AnchorInfo,
) -> ProposalSearch {
    match l1_inclusion_block_number {
        Some(number) => ProposalSearch::AtHeight(number),
        None => ProposalSearch::AfterAnchor(anchor.block_id),
    }
}

/// What stays the same all through the preparation of an input.
#[derive(Debug, PartialEq, Eq)]
pub struct InputJob<T, P> {
    pub block_number: u64,
    /// The fork of the block, and what its anchor call says.
    pub anchored: Anchored,
    pub anchor_tx: SignedTx<T>,
    pub prover_data: P,
    pub blob_proof_type: BlobProofType,
}

/// The input for proving a single block.
#[derive(Debug, PartialEq, Eq)]
pub struct TaikoGuestInput<H, T, D, P> {
    pub l1_header: Header<H>,
    pub tx_data: Vec<u8>,
    pub anchor_tx: Option<T>,
    pub blob_commitment: Option<Vec<u8>>,
    pub block_proposed: BlockProposedFork<D>,
    pub prover_data: P,
    pub blob_proof: Option<Vec<u8>>,
    pub blob_proof_type: BlobProofType,
}

/// How far the preparation of an input has come.
#[derive(Debug, PartialEq, Eq)]
pub enum InputState<H, T, D, P> {
    /// The proposal of the block is being looked for.
    Searching(InputJob<T, P>),
    /// The headers of two L1 blocks are being fetched.
    FetchingHeaders(InputJob<T, P>, Proposal<D>),
    /// The transactions are being fetched.
    FetchingTxs(InputJob<T, P>, BlockProposedFork<D>, Header<H>, TxKind),
    /// There is nothing left to do.
    Finished,
}

/// Where the transactions of a block are.
#[derive(Clone, Copy, Debug, PartialEq, Eq, Structural)]
pub enum TxKind {
    Blob,
    CalldataEvent,
    Calldata,
}

/// What came back from outside.
#[derive(Debug, PartialEq, Eq)]
pub enum InputEvent<H, D> {
    /// The proposal of the block.
    Proposed(Proposal<D>),
    /// The headers of the two L1 blocks.
    Headers(Header<H>, Header<H>),
    /// The blob, with what vouches for it.
    Blob(TxData),
    /// The transactions that an event holds.
    CalldataEvent(Vec<u8>),
    /// The transactions that the call data hold, if they could be decoded.
    Calldata(Option<Vec<u8>>),
}

/// What is to be done outside.
#[derive(Debug, PartialEq, Eq)]
pub enum InputAction<H, T, D, P> {
    /// Look for the proposal of the block under its fork.
    FindProposal(ProposalSearch, u64, Fork),
    /// Fetch the headers of the L1 blocks of these numbers.
    FetchHeaders(u64, u64),
    /// Fetch the blob of this hash, that was posted at this time.
    FetchBlob(B256, u64),
    /// Fetch the event of the L1 block of this hash that holds the transactions of the Taiko block
    /// of this number.
    FetchCalldataEvent(B256, u64),
    /// Decode the call data of the proposal.
    DecodeCalldata(Vec<u8>),
    /// Hand over the input.
    Done(TaikoGuestInput<H, T, D, P>),
    /// Give up.
    Fail(PreflightError),
}

/// `r` can be the start of an input: the block must have an anchor, and the proposal is looked for
/// under the fork of the block.
pub open spec fn input_started<H, T, D, P, E, F, G>(
    block: L2Block<T>,
    block_number: u64,
    l1_inclusion_block_number: Option<u64>,
    prover_data: P,
    blob_proof_type: BlobProofType,
    active_fork: F,
    decode: G,
    r: Result<(InputState<H, T, D, P>, InputAction<H, T, D, P>), Failure<E>>,
) -> bool where
    F: Fn(u64, u64) -> Result<Fork, E>,
    G: Fn(AnchorAbi, &Vec<u8>) -> Result<AnchorInfo, E>,
 {
    exists|a: Result<Anchored, Failure<E>>| #[trigger]
        single_anchor(block, active_fork, decode, a) && match a {
            Err(e) => r == Err::<(InputState<H, T, D, P>, InputAction<H, T, D, P>), _>(e),
            Ok(anchored) => block.first_tx is Some && r == Ok::<_, Failure<E>>(
                (
                    InputState::<H, T, D, P>::Searching(
                        InputJob {
                            block_number,
                            anchored,
                            anchor_tx: block.first_tx->0,
                            prover_data,
                            blob_proof_type,
                        },
                    ),
                    InputAction::<H, T, D, P>::FindProposal(
                        search_of(l1_inclusion_block_number, anchored.anchor),
                        block_number,
                        anchored.fork,
                    ),
                ),
            ),
        }
}

/// Reads the anchor of the block, and settles where to look for its proposal: in the L1 block that
/// the request names, else in those after the anchor block.
pub fn start_input<H, T, D, P, E, F, G>(
    block: L2Block<T>,
    block_number: u64,
    l1_inclusion_block_number: Option<u64>,
    prover_data: P,
    blob_proof_type: BlobProofType,
    active_fork: &F,
    decode: &G,
) -> (r: Result<(InputState<H, T, D, P>, InputAction<H, T, D, P>), Failure<E>>) where
    F: Fn(u64, u64) -> Result<Fork, E>,
    G: Fn(AnchorAbi, &Vec<u8>) -> Result<AnchorInfo, E>,

    requires
        forall|number: u64, timestamp: u64| call_requires(*active_fork, (number, timestamp)),
        forall|abi: AnchorAbi, data: Vec<u8>| call_requires(*decode, (abi, &data)),
    ensures
        input_started(
            block,
            block_number,
            l1_inclusion_block_number,
            prover_data,
            blob_proof_type,
            *active_fork,
            *decode,
            r,
        ),
        r matches Ok((state, action)) ==> {
            &&& state matches InputState::Searching(job) && match l1_inclusion_block_number {
                Some(number) => action == InputAction::<H, T, D, P>::FindProposal(
                    ProposalSearch::AtHeight(number),
                    block_number,
                    job.anchored.fork,
                ),
                None => action == InputAction::<H, T, D, P>::FindProposal(
                    ProposalSearch::AfterAnchor(job.anchored.anchor.block_id),
                    block_number,
                    job.anchored.fork,
                ),
            }
        },
{
    match get_single_anchor(&block, active_fork, decode) {
        Err(e) => Err(e),
        Ok(anchored) => match block.first_tx {
            None => Err(Failure::Preflight(PreflightError::NoAnchorTx)),
            Some(anchor_tx) => {
                let search: ProposalSearch = match l1_inclusion_block_number {
                    Some(number) => ProposalSearch::AtHeight(number),
                    None => ProposalSearch::AfterAnchor(anchored.anchor.block_id),
                };
                let job = InputJob {
                    block_number,
                    anchored,
                    anchor_tx,
                    prover_data,
                    blob_proof_type,
                };
                Ok(
                    (
                        InputState::Searching(job),
                        InputAction::FindProposal(search, block_number, anchored.fork),
                    ),
                )
            },
        },
    }
}

/// The hashes of the blobs that a transaction carries.
pub open spec fn hashes_of(tx: ProposalTx) -> Seq<B256> {
    match tx.blob_versioned_hashes {
        Some(hashes) => hashes@,
        None => Seq::empty(),
    }
}

/// Whether the event is an answer to what was asked last.
pub open spec fn answers<H, T, D, P>(
    state: InputState<H, T, D, P>,
    event: InputEvent<H, D>,
) -> bool {
    match (state, event) {
        (InputState::Searching(_), InputEvent::Proposed(_)) => true,
        (InputState::FetchingHeaders(_, _), InputEvent::Headers(_, _)) => true,
        (InputState::FetchingTxs(_, _, _, TxKind::Blob), InputEvent::Blob(_)) => true,
        (
            InputState::FetchingTxs(_, _, _, TxKind::CalldataEvent),
            InputEvent::CalldataEvent(_),
        ) => true,
        (InputState::FetchingTxs(_, _, _, TxKind::Calldata), InputEvent::Calldata(_)) => true,
        _ => false,
    }
}

/// The input, put together from its parts.
pub open spec fn input_of<H, T, D, P>(
    job: InputJob<T, P>,
    block_proposed: BlockProposedFork<D>,
    l1_header: Header<H>,
    tx_data: TxData,
) -> TaikoGuestInput<H, T, D, P> {
    TaikoGuestInput {
        l1_header,
        tx_data: tx_data.data,
        anchor_tx: Some(job.anchor_tx.data),
        blob_commitment: tx_data.commitment,
        block_proposed,
        prover_data: job.prover_data,
        blob_proof: tx_data.blob_proof,
        blob_proof_type: job.blob_proof_type,
    }
}

/// Transactions that came without a blob.
pub open spec fn plain_tx_data(tx_list: Vec<u8>) -> TxData {
    TxData { data: tx_list, commitment: None, blob_proof: None }
}

/// Why the preparation cannot go on with these headers: the header of the anchor block must have
/// the state root that the anchor call names, and both headers must have a hash.
pub open spec fn headers_fault<H>(
    anchored: Anchored,
    l1_inclusion_header: Header<H>,
    l1_state_header: Header<H>,
) -> Option<PreflightError> {
    if anchored.anchor.state_root != l1_state_header.state_root {
        Some(PreflightError::StateRootMismatch)
    } else if l1_state_header.hash is None {
        Some(PreflightError::NoL1StateBlockHash)
    } else if l1_inclusion_header.hash is None {
        Some(PreflightError::NoL1InclusionBlockHash)
    } else {
        None
    }
}

/// `r` is what follows from the headers. A blob is fetched only where the proposal carries it;
/// without a blob, the fork says where the transactions are.
pub open spec fn after_headers<H, T, D, P>(
    job: InputJob<T, P>,
    proposal: Proposal<D>,
    l1_inclusion_header: Header<H>,
    l1_state_header: Header<H>,
    r: (InputState<H, T, D, P>, InputAction<H, T, D, P>),
) -> bool {
    match headers_fault(job.anchored, l1_inclusion_header, l1_state_header) {
        Some(e) => r == (InputState::<H, T, D, P>::Finished, InputAction::<H, T, D, P>::Fail(e)),
        None => if proposal.event.blob_used {
            if hashes_of(proposal.tx).contains(proposal.event.blob_hash) {
                r == (
                    InputState::<H, T, D, P>::FetchingTxs(
                        job,
                        proposal.event,
                        l1_state_header,
                        TxKind::Blob,
                    ),
                    InputAction::<H, T, D, P>::FetchBlob(
                        proposal.event.blob_hash,
                        l1_inclusion_header.timestamp,
                    ),
                )
            } else {
                &&& r.0 == InputState::<H, T, D, P>::Finished
                &&& r.1 matches InputAction::Fail(
                    PreflightError::BlobHashMismatch { expected, found },
                )
                &&& expected == proposal.event.blob_hash
                &&& found@ == hashes_of(proposal.tx)
            }
        } else {
            match job.anchored.fork {
                Fork::Pacaya => r == (
                    InputState::<H, T, D, P>::Finished,
                    InputAction::<H, T, D, P>::Fail(PreflightError::PacayaSingleBlock),
                ),
                Fork::Ontake => r == (
                    InputState::<H, T, D, P>::FetchingTxs(
                        job,
                        proposal.event,
                        l1_state_header,
                        TxKind::CalldataEvent,
                    ),
                    InputAction::<H, T, D, P>::FetchCalldataEvent(
                        l1_inclusion_header.hash->0,
                        job.block_number,
                    ),
                ),
                Fork::Hekla => r == (
                    InputState::<H, T, D, P>::FetchingTxs(
                        job,
                        proposal.event,
                        l1_state_header,
                        TxKind::Calldata,
                    ),
                    InputAction::<H, T, D, P>::DecodeCalldata(proposal.tx.input),
                ),
            }
        },
    }
}

/// `r` is what follows from an answer.
pub open spec fn steps<H, T, D, P>(
    state: InputState<H, T, D, P>,
    event: InputEvent<H, D>,
    r: (InputState<H, T, D, P>, InputAction<H, T, D, P>),
) -> bool {
    match (state, event) {
        (InputState::Searching(job), InputEvent::Proposed(proposal)) => r == (
            InputState::<H, T, D, P>::FetchingHeaders(job, proposal),
            InputAction::<H, T, D, P>::FetchHeaders(
                proposal.l1_block_number,
                job.anchored.anchor.block_id,
            ),
        ),
        (InputState::FetchingHeaders(job, proposal), InputEvent::Headers(inclusion, state_header)) =>
            after_headers(job, proposal, inclusion, state_header, r),
        (
            InputState::FetchingTxs(job, proposed, header, TxKind::Blob),
            InputEvent::Blob(tx_data),
        ) => r == (
            InputState::<H, T, D, P>::Finished,
            InputAction::Done(input_of(job, proposed, header, tx_data)),
        ),
        (
            InputState::FetchingTxs(job, proposed, header, TxKind::CalldataEvent),
            InputEvent::CalldataEvent(tx_list),
        ) => r == (
            InputState::<H, T, D, P>::Finished,
            InputAction::Done(input_of(job, proposed, header, plain_tx_data(tx_list))),
        ),
        (
            InputState::FetchingTxs(job, proposed, header, TxKind::Calldata),
            InputEvent::Calldata(Some(tx_list)),
        ) => r == (
            InputState::<H, T, D, P>::Finished,
            InputAction::Done(input_of(job, proposed, header, plain_tx_data(tx_list))),
        ),
        (
            InputState::FetchingTxs(_, _, _, TxKind::Calldata),
            InputEvent::Calldata(None),
        ) => r == (
            InputState::<H, T, D, P>::Finished,
            InputAction::<H, T, D, P>::Fail(PreflightError::ProposeBlockCallUndecodable),
        ),
        _ => false,
    }
}

fn input_with<H, T, D, P>(
    job: InputJob<T, P>,
    block_proposed: BlockProposedFork<D>,
    l1_header: Header<H>,
    tx_data: TxData,
) -> (r: TaikoGuestInput<H, T, D, P>)
    ensures
        r == input_of(job, block_proposed, l1_header, tx_data),
{
    TaikoGuestInput {
        l1_header,
        tx_data: tx_data.data,
        anchor_tx: Some(job.anchor_tx.data),
        blob_commitment: tx_data.commitment,
        block_proposed,
        prover_data: job.prover_data,
        blob_proof: tx_data.blob_proof,
        blob_proof_type: job.blob_proof_type,
    }
}

fn use_headers<H, T, D, P>(
    job: InputJob<T, P>,
    proposal: Proposal<D>,
    l1_inclusion_header: Header<H>,
    l1_state_header: Header<H>,
) -> (r: (InputState<H, T, D, P>, InputAction<H, T, D, P>))
    ensures
        after_headers(job, proposal, l1_inclusion_header, l1_state_header, r),
{
    if !same_hash(&job.anchored.anchor.state_root, &l1_state_header.state_root) {
        return (InputState::Finished, InputAction::Fail(PreflightError::StateRootMismatch));
    }
    if l1_state_header.hash.is_none() {
        return (InputState::Finished, InputAction::Fail(PreflightError::NoL1StateBlockHash));
    }
    match l1_inclusion_header.hash {
        None => (InputState::Finished, InputAction::Fail(PreflightError::NoL1InclusionBlockHash)),
        Some(block_hash) => {
            let number: u64 = job.block_number;
            let fork: Fork = job.anchored.fork;
            if proposal.event.blob_used {
                let blob_hash: B256 = proposal.event.blob_hash;
                let hashes: Vec<B256> = match proposal.tx.blob_versioned_hashes {
                    Some(hashes) => hashes,
                    None => Vec::new(),
                };
                assert(hashes@ =~= hashes_of(proposal.tx));
                if has_hash(&hashes, &blob_hash) {
                    (
                        InputState::FetchingTxs(job, proposal.event, l1_state_header, TxKind::Blob),
                        InputAction::FetchBlob(blob_hash, l1_inclusion_header.timestamp),
                    )
                } else {
                    (
                        InputState::Finished,
                        InputAction::Fail(
                            PreflightError::BlobHashMismatch { expected: blob_hash, found: hashes },
                        ),
                    )
                }
            } else {
                match fork {
                    Fork::Pacaya => (
                        InputState::Finished,
                        InputAction::Fail(PreflightError::PacayaSingleBlock),
                    ),
                    Fork::Ontake => (
                        InputState::FetchingTxs(
                            job,
                            proposal.event,
                            l1_state_header,
                            TxKind::CalldataEvent,
                        ),
                        InputAction::FetchCalldataEvent(block_hash, number),
                    ),
                    Fork::Hekla => (
                        InputState::FetchingTxs(
                            job,
                            proposal.event,
                            l1_state_header,
                            TxKind::Calldata,
                        ),
                        InputAction::DecodeCalldata(proposal.tx.input),
                    ),
                }
            }
        },
    }
}

/// Takes an answer, and says what is to be done next.
pub fn prepare_taiko_chain_input<H, T, D, P>(
    state: InputState<H, T, D, P>,
    event: InputEvent<H, D>,
) -> (r: (InputState<H, T, D, P>, InputAction<H, T, D, P>))
    requires
        answers(state, event),
    ensures
        steps(state, event, r),
{
    match (state, event) {
        (InputState::Searching(job), InputEvent::Proposed(proposal)) => {
            let action: InputAction<H, T, D, P> = InputAction::FetchHeaders(
                proposal.l1_block_number,
                job.anchored.anchor.block_id,
            );
            (InputState::FetchingHeaders(job, proposal), action)
        },
        (InputState::FetchingHeaders(job, proposal), InputEvent::Headers(inclusion, state_header)) =>
            use_headers(job, proposal, inclusion, state_header),
        (
            InputState::FetchingTxs(job, proposed, header, _),
            InputEvent::Blob(tx_data),
        ) => (
            InputState::Finished,
            InputAction::Done(input_with(job, proposed, header, tx_data)),
        ),
        (
            InputState::FetchingTxs(job, proposed, header, _),
            InputEvent::CalldataEvent(tx_list),
        ) => (
            InputState::Finished,
            InputAction::Done(
                input_with(
                    job,
                    proposed,
                    header,
                    TxData { data: tx_list, commitment: None, blob_proof: None },
                ),
            ),
        ),
        (
            InputState::FetchingTxs(job, proposed, header, _),
            InputEvent::Calldata(Some(tx_list)),
        ) => (
            InputState::Finished,
            InputAction::Done(
                input_with(
                    job,
                    proposed,
                    header,
                    TxData { data: tx_list, commitment: None, blob_proof: None },
                ),
            ),
        ),
        _ => (
            InputState::Finished,
            InputAction::Fail(PreflightError::ProposeBlockCallUndecodable),
        ),
    }
}

/// An input that is handed over holds what was asked for and nothing else: the header of the
/// anchor block, with the state root that the anchor call names; the proposal that was found; and
/// the transactions of the blob that the proposal names and carries, or, where it uses none, of
/// the call data, without commitment or proof.
pub proof fn law_input_holds_what_was_asked_for<H, T, D, P>(
    job: InputJob<T, P>,
    proposal: Proposal<D>,
    l1_inclusion_header: Header<H>,
    l1_state_header: Header<H>,
    last: InputEvent<H, D>,
    first: (InputState<H, T, D, P>, InputAction<H, T, D, P>),
    second: (InputState<H, T, D, P>, InputAction<H, T, D, P>),
    end: InputState<H, T, D, P>,
    input: TaikoGuestInput<H, T, D, P>,
)
    requires
        steps(InputState::Searching(job), InputEvent::Proposed(proposal), first),
        steps(first.0, InputEvent::Headers(l1_inclusion_header, l1_state_header), second),
        steps(second.0, last, (end, InputAction::Done(input))),
    ensures
        first.1 == InputAction::<H, T, D, P>::FetchHeaders(
            proposal.l1_block_number,
            job.anchored.anchor.block_id,
        ),
        input.l1_header == l1_state_header,
        input.l1_header.state_root == job.anchored.anchor.state_root,
        input.l1_header.hash is Some,
        input.block_proposed == proposal.event,
        input.anchor_tx == Some(job.anchor_tx.data),
        input.prover_data == job.prover_data,
        input.blob_proof_type == job.blob_proof_type,
        proposal.event.blob_used ==> {
            &&& proposal.tx.blob_versioned_hashes matches Some(hashes) && hashes@.contains(
                proposal.event.blob_hash,
            )
            &&& second.1 == InputAction::<H, T, D, P>::FetchBlob(
                proposal.event.blob_hash,
                l1_inclusion_header.timestamp,
            )
            &&& last == InputEvent::<H, D>::Blob(
                TxData {
                    data: input.tx_data,
                    commitment: input.blob_commitment,
                    blob_proof: input.blob_proof,
                },
            )
        },
        !proposal.event.blob_used ==> {
            &&& input.blob_commitment is None
            &&& input.blob_proof is None
            &&& match job.anchored.fork {
                Fork::Pacaya => false,
                Fork::Ontake => second.1 == InputAction::<H, T, D, P>::FetchCalldataEvent(
                    l1_inclusion_header.hash->0,
                    job.block_number,
                ) && last == InputEvent::<H, D>::CalldataEvent(input.tx_data),
                Fork::Hekla => second.1 == InputAction::<H, T, D, P>::DecodeCalldata(
                    proposal.tx.input,
                ) && last == InputEvent::<H, D>::Calldata(Some(input.tx_data)),
            }
        },
        end == InputState::<H, T, D, P>::Finished,
{
}

/// Where the chain is consistent, the input is owed: with headers that fit the anchor, a blob that
/// the proposal carries if it uses one, a fork that single blocks have, and call data that can be
/// decoded, the last answer brings it.
pub proof fn law_consistent_chain_gives_an_input<H, T, D, P>(
    job: InputJob<T, P>,
    proposal: Proposal<D>,
    l1_inclusion_header: Header<H>,
    l1_state_header: Header<H>,
    last: InputEvent<H, D>,
    first: (InputState<H, T, D, P>, InputAction<H, T, D, P>),
    second: (InputState<H, T, D, P>, InputAction<H, T, D, P>),
    third: (InputState<H, T, D, P>, InputAction<H, T, D, P>),
)
    requires
        job.anchored.anchor.state_root == l1_state_header.state_root,
        l1_state_header.hash is Some,
        l1_inclusion_header.hash is Some,
        proposal.event.blob_used ==> (proposal.tx.blob_versioned_hashes matches Some(hashes)
            && hashes@.contains(proposal.event.blob_hash)),
        !proposal.event.blob_used ==> job.anchored.fork != Fork::Pacaya,
        steps(InputState::Searching(job), InputEvent::Proposed(proposal), first),
        steps(first.0, InputEvent::Headers(l1_inclusion_header, l1_state_header), second),
        answers(second.0, last),
        last != InputEvent::<H, D>::Calldata(None),
        steps(second.0, last, third),
    ensures
        third.1 is Done,
{
}

/// How many answers a state waits for at most.
pub open spec fn answers_left<H, T, D, P>(state: InputState<H, T, D, P>) -> nat {
    match state {
        InputState::Searching(_) => 3,
        InputState::FetchingHeaders(_, _) => 2,
        InputState::FetchingTxs(_, _, _, _) => 1,
        InputState::Finished => 0,
    }
}

/// Every answer brings the end nearer, and the last action of all, and no other, ends the work.
pub proof fn law_input_comes_to_an_end<H, T, D, P>(
    state: InputState<H, T, D, P>,
    event: InputEvent<H, D>,
    r: (InputState<H, T, D, P>, InputAction<H, T, D, P>),
)
    requires
        steps(state, event, r),
    ensures
        answers_left(r.0) < answers_left(state),
        r.0 is Finished <==> r.1 is Done || r.1 is Fail,
{
}

/// The proposal is looked for in the L1 block that the request names, whatever the anchor of the
/// block says, and only where it names none in the blocks after the anchor block; in both cases for
/// the number that was asked for and under the fork of the block.
pub proof fn law_proposal_is_looked_for_where_the_request_says<H, T, D, P, E, F, G>(
    block: L2Block<T>,
    block_number: u64,
    l1_inclusion_block_number: Option<u64>,
    prover_data: P,
    blob_proof_type: BlobProofType,
    active_fork: F,
    decode: G,
    state: InputState<H, T, D, P>,
    action: InputAction<H, T, D, P>,
) where
    F: Fn(u64, u64) -> Result<Fork, E>,
    G: Fn(AnchorAbi, &Vec<u8>) -> Result<AnchorInfo, E>,

    requires
        input_started(
            block,
            block_number,
            l1_inclusion_block_number,
            prover_data,
            blob_proof_type,
            active_fork,
            decode,
            Ok((state, action)),
        ),
    ensures
        state matches InputState::Searching(job) && {
            &&& single_anchor(block, active_fork, decode, Ok(job.anchored))
            &&& block.first_tx == Some(job.anchor_tx)
            &&& job.block_number == block_number
            &&& job.prover_data == prover_data
            &&& job.blob_proof_type == blob_proof_type
            &&& l1_inclusion_block_number matches Some(number) ==> action == InputAction::<
                H,
                T,
                D,
                P,
            >::FindProposal(ProposalSearch::AtHeight(number), block_number, job.anchored.fork)
            &&& l1_inclusion_block_number is None ==> action == InputAction::<
                H,
                T,
                D,
                P,
            >::FindProposal(
                ProposalSearch::AfterAnchor(job.anchored.anchor.block_id),
                block_number,
                job.anchored.fork,
            )
        },
{
}

/// A preparation does not start only where the block has no anchor, and fails as that does.
pub proof fn law_input_starts_where_the_block_is_anchored<H, T, D, P, E, F, G>(
    block: L2Block<T>,
    block_number: u64,
    l1_inclusion_block_number: Option<u64>,
    prover_data: P,
    blob_proof_type: BlobProofType,
    active_fork: F,
    decode: G,
    failure: Failure<E>,
) where
    F: Fn(u64, u64) -> Result<Fork, E>,
    G: Fn(AnchorAbi, &Vec<u8>) -> Result<AnchorInfo, E>,

    requires
        input_started::<H, T, D, P, E, F, G>(
            block,
            block_number,
            l1_inclusion_block_number,
            prover_data,
            blob_proof_type,
            active_fork,
            decode,
            Err(failure),
        ),
    ensures
        single_anchor(block, active_fork, decode, Err(failure)),
{
}

/// Once the proposal has come, the headers that are fetched are those of the L1 block that it
/// stands in and of the L1 block that the anchor names, in this order.
pub proof fn law_headers_of_proposal_and_anchor_are_fetched<H, T, D, P>(
    job: InputJob<T, P>,
    proposal: Proposal<D>,
    r: (InputState<H, T, D, P>, InputAction<H, T, D, P>),
)
    requires
        steps(InputState::Searching(job), InputEvent::Proposed(proposal), r),
    ensures
        r.0 == InputState::<H, T, D, P>::FetchingHeaders(job, proposal),
        r.1 matches InputAction::FetchHeaders(first, second) && first == proposal.l1_block_number
            && second == job.anchored.anchor.block_id,
{
}

/// The headers decide: a header of the anchor block with another state root, or one of the two
/// without a hash, ends the work, in this order. A proposal that uses a blob must carry it; the
/// blob is then fetched by its hash and by the time of the block that the proposal stands in.
/// Without a blob, the transactions are fetched from the event in that block under Ontake, and from
/// the call data of the proposal under Hekla. Nothing else ends the work.
pub proof fn law_headers_decide_what_is_fetched<H, T, D, P>(
    job: InputJob<T, P>,
    proposal: Proposal<D>,
    inclusion: Header<H>,
    anchor: Header<H>,
    r: (InputState<H, T, D, P>, InputAction<H, T, D, P>),
)
    requires
        steps(
            InputState::FetchingHeaders(job, proposal),
            InputEvent::Headers(inclusion, anchor),
            r,
        ),
    ensures
        ({
            let fits = job.anchored.anchor.state_root == anchor.state_root;
            let hashed = anchor.hash is Some && inclusion.hash is Some;
            let carried = proposal.tx.blob_versioned_hashes is Some
                && proposal.tx.blob_versioned_hashes->0@.contains(proposal.event.blob_hash);
            &&& !fits <==> r.1 == InputAction::<H, T, D, P>::Fail(PreflightError::StateRootMismatch)
            &&& fits && anchor.hash is None <==> r.1 == InputAction::<H, T, D, P>::Fail(
                PreflightError::NoL1StateBlockHash,
            )
            &&& fits && anchor.hash is Some && inclusion.hash is None <==> r.1 == InputAction::<
                H,
                T,
                D,
                P,
            >::Fail(PreflightError::NoL1InclusionBlockHash)
            &&& fits && hashed && proposal.event.blob_used && !carried ==> (r.1
                matches InputAction::Fail(PreflightError::BlobHashMismatch { expected, found })
                && expected == proposal.event.blob_hash && found@ == (
            match proposal.tx.blob_versioned_hashes {
                Some(hashes) => hashes@,
                None => Seq::empty(),
            }))
            &&& fits && hashed && proposal.event.blob_used && carried ==> r == (
                InputState::<H, T, D, P>::FetchingTxs(job, proposal.event, anchor, TxKind::Blob),
                InputAction::<H, T, D, P>::FetchBlob(
                    proposal.event.blob_hash,
                    inclusion.timestamp,
                ),
            )
            &&& fits && hashed && !proposal.event.blob_used && job.anchored.fork == Fork::Ontake
                ==> r == (
                InputState::<H, T, D, P>::FetchingTxs(
                    job,
                    proposal.event,
                    anchor,
                    TxKind::CalldataEvent,
                ),
                InputAction::<H, T, D, P>::FetchCalldataEvent(
                    inclusion.hash->0,
                    job.block_number,
                ),
            )
            &&& fits && hashed && !proposal.event.blob_used && job.anchored.fork == Fork::Hekla
                ==> r == (
                InputState::<H, T, D, P>::FetchingTxs(
                    job,
                    proposal.event,
                    anchor,
                    TxKind::Calldata,
                ),
                InputAction::<H, T, D, P>::DecodeCalldata(proposal.tx.input),
            )
            &&& fits && hashed && !proposal.event.blob_used && job.anchored.fork == Fork::Pacaya
                ==> r.1 == InputAction::<H, T, D, P>::Fail(PreflightError::PacayaSingleBlock)
            &&& r.1 is Fail ==> r.0 == InputState::<H, T, D, P>::Finished
        }),
{
}

/// The last answer is put into the input as it came: a blob with what vouches for it, or a list of
/// transactions with nothing; all else is what was known before. Only call data that cannot be
/// decoded end the work without an input.
pub proof fn law_last_answer_is_put_into_the_input<H, T, D, P>(
    job: InputJob<T, P>,
    proposed: BlockProposedFork<D>,
    header: Header<H>,
    kind: TxKind,
    last: InputEvent<H, D>,
    r: (InputState<H, T, D, P>, InputAction<H, T, D, P>),
)
    requires
        steps(InputState::FetchingTxs(job, proposed, header, kind), last, r),
    ensures
        r.0 == InputState::<H, T, D, P>::Finished,
        r.1 == InputAction::<H, T, D, P>::Fail(PreflightError::ProposeBlockCallUndecodable)
            <==> last == InputEvent::<H, D>::Calldata(None),
        last != InputEvent::<H, D>::Calldata(None) ==> (r.1 matches InputAction::Done(input) && {
            &&& input.l1_header == header
            &&& input.block_proposed == proposed
            &&& input.anchor_tx == Some(job.anchor_tx.data)
            &&& input.prover_data == job.prover_data
            &&& input.blob_proof_type == job.blob_proof_type
            &&& last matches InputEvent::Blob(blob) ==> input.tx_data == blob.data
                && input.blob_commitment == blob.commitment && input.blob_proof == blob.blob_proof
            &&& last matches InputEvent::CalldataEvent(list) ==> input.tx_data == list
            &&& last matches InputEvent::Calldata(Some(list)) ==> input.tx_data == list
            &&& !(last is Blob) ==> input.blob_commitment is None && input.blob_proof is None
        }),
        last is Blob <==> kind == TxKind::Blob,
        last is CalldataEvent <==> kind == TxKind::CalldataEvent,
        last is Calldata <==> kind == TxKind::Calldata,
{
}

/// Each answer to what was asked is taken, whatever it holds.
pub proof fn law_every_answer_is_taken<H, T, D, P>(
    job: InputJob<T, P>,
    proposal: Proposal<D>,
    headers: (Header<H>, Header<H>),
    blob: TxData,
    list: Vec<u8>,
    call: Option<Vec<u8>>,
)
    ensures
        answers(InputState::<H, T, D, P>::Searching(job), InputEvent::Proposed(proposal)),
        answers(
            InputState::<H, T, D, P>::FetchingHeaders(job, proposal),
            InputEvent::Headers(headers.0, headers.1),
        ),
        answers(
            InputState::<H, T, D, P>::FetchingTxs(job, proposal.event, headers.1, TxKind::Blob),
            InputEvent::Blob(blob),
        ),
        answers(
            InputState::<H, T, D, P>::FetchingTxs(
                job,
                proposal.event,
                headers.1,
                TxKind::CalldataEvent,
            ),
            InputEvent::CalldataEvent(list),
        ),
        answers(
            InputState::<H, T, D, P>::FetchingTxs(job, proposal.event, headers.1, TxKind::Calldata),
            InputEvent::Calldata(call),
        ),
{
}

} // verus!
