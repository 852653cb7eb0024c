//! The values that the decisions are made on.
use vstd::prelude::*;

verus! {

/// A hash of thirty-two bytes.
pub type B256 = [u8; 32];

/// The address of a contract.
pub type Address = [u8; 20];

/// Whether two hashes are the same.
pub fn same_hash(a: &B256, b: &B256) -> (r: bool)
    ensures
        r == (*a == *b),
{
    let mut i: usize = 0;
    while i < 32
        invariant
            i <= 32,
            forall|j: int| 0 <= j < i ==> a@[j] == b@[j],
        decreases 32 - i,
    {
        if a[i] != b[i] {
            assert(a@[i as int] != b@[i as int]);
            return false;
        }
        i += 1;
    }
    assert(*a =~= *b);
    true
}

/// Whether `hash` is among `hashes`.
pub fn has_hash(hashes: &Vec<B256>, hash: &B256) -> (r: bool)
    ensures
        r == hashes@.contains(*hash),
{
    let mut i: usize = 0;
    while i < hashes.len()
        invariant
            i <= hashes@.len(),
            forall|j: int| 0 <= j < i ==> hashes@[j] != *hash,
        decreases hashes@.len() - i,
    {
        if same_hash(&hashes[i], hash) {
            return true;
        }
        i += 1;
    }
    false
}

/// A number of 256 bits, in four words, the least significant one first.
#[derive(Clone, Copy, Debug, PartialEq, Eq)]
pub struct U256 {
    pub limbs: [u64; 4],
}

/// Two to the sixty-fourth.
pub open spec fn word() -> int {
    0x1_0000_0000_0000_0000
}

impl U256 {
    /// The number.
    pub open spec fn value(self) -> int {
        self.limbs@[0] + word() * (self.limbs@[1] + word() * (self.limbs@[2] + word()
            * self.limbs@[3]))
    }

    /// The number `n`.
    pub fn from_u64(n: u64) -> (r: U256)
        ensures
            r.value() == n,
    {
        U256 { limbs: [n, 0, 0, 0] }
    }

    /// Whether the two numbers are equal.
    pub fn equals(&self, other: &U256) -> (r: bool)
        ensures
            r == (self.value() == other.value()),
    {
        let mut i: usize = 0;
        while i < 4
            invariant
                i <= 4,
                forall|j: int| 0 <= j < i ==> self.limbs@[j] == other.limbs@[j],
            decreases 4 - i,
        {
            if self.limbs[i] != other.limbs[i] {
                proof {
                    lemma_value_fixes_limbs(*self, *other);
                }
                return false;
            }
            i += 1;
        }
        true
    }
}

/// A number has one spelling in four words.
pub proof fn lemma_value_fixes_limbs(a: U256, b: U256)
    ensures
        a.value() == b.value() ==> forall|i: int|
            0 <= i < 4 ==> a.limbs@[i] == b.limbs@[i],
{
    if a.value() == b.value() {
        let (a1, b1) = (
            a.limbs@[1] + word() * (a.limbs@[2] + word() * a.limbs@[3]),
            b.limbs@[1] + word() * (b.limbs@[2] + word() * b.limbs@[3]),
        );
        assert(a.limbs@[0] == b.limbs@[0] && a1 == b1);
        let (a2, b2) = (a.limbs@[2] + word() * a.limbs@[3], b.limbs@[2] + word() * b.limbs@[3]);
        assert(a.limbs@[1] == b.limbs@[1] && a2 == b2);
        assert(a.limbs@[2] == b.limbs@[2] && a.limbs@[3] == b.limbs@[3]);
        assert forall|i: int| 0 <= i < 4 implies a.limbs@[i] == b.limbs@[i] by {
            assert(i == 0 || i == 1 || i == 2 || i == 3);
        }
    }
}

/// The rules that a block of the Taiko chain was proposed under.
#[derive(Clone, Copy, Debug, PartialEq, Eq, Structural)]
pub enum Fork {
    /// Any fork that is neither of the other two.
    Hekla,
    Ontake,
    Pacaya,
}

/// How the content of a blob is vouched for.
#[derive(Clone, Copy, Debug, PartialEq, Eq, Structural)]
pub enum BlobProofType {
    /// By its versioned hash alone.
    KzgVersionedHash,
    /// By an opening of its polynomial at a point.
    ProofOfEquivalence,
}

/// What is known of a chain.
#[derive(Debug, PartialEq, Eq)]
pub struct ChainSpec {
    /// The contract on the L1 chain that blocks are proposed to.
    pub l1_contract: Option<Address>,
    /// The time of the first slot of the beacon chain, in seconds.
    pub genesis_time: u64,
    /// The length of a slot, in seconds.
    pub seconds_per_slot: u64,
    /// Where blobs are asked for.
    pub beacon_rpc: Option<String>,
}

/// The header of an L1 block: what decisions read of it, and the header itself as `data`.
#[derive(Debug, PartialEq, Eq)]
pub struct Header<H> {
    pub hash: Option<B256>,
    pub state_root: B256,
    pub timestamp: u64,
    pub data: H,
}

/// A block of the Taiko chain, as far as decisions read it.
#[derive(Debug, PartialEq, Eq)]
pub struct L2Block<T> {
    pub number: u64,
    pub timestamp: u64,
    /// The first transaction of the block, if it has any.
    pub first_tx: Option<SignedTx<T>>,
}

/// A transaction of the Taiko chain: its call data, and the transaction itself as `data`.
#[derive(Debug, PartialEq, Eq)]
pub struct SignedTx<T> {
    pub input: Vec<u8>,
    pub data: T,
}

/// The L1 transaction that proposed a block or a batch.
#[derive(Debug, PartialEq, Eq)]
pub struct ProposalTx {
    pub blob_versioned_hashes: Option<Vec<B256>>,
    pub input: Vec<u8>,
}

/// What a batch proposal says of its batch.
#[derive(Debug, PartialEq, Eq)]
pub struct BatchInfo {
    /// The number of the last block of the batch.
    pub last_block_id: u64,
    /// How many blocks the batch has.
    pub block_count: usize,
    /// The hashes of the blobs that hold the transactions; none where they stand in the call data.
    pub blob_hashes: Vec<B256>,
    /// The L1 block in which the blobs were created, or zero.
    pub blob_created_in: u64,
}

/// Which of the proposal events it was.
#[derive(Debug, PartialEq, Eq)]
pub enum Proposed {
    Hekla,
    Ontake,
    Pacaya(BatchInfo),
}

/// A proposal event: what decisions read of it, and the event itself as `data`.
#[derive(Debug, PartialEq, Eq)]
pub struct BlockProposedFork<D> {
    pub proposed: Proposed,
    /// Whether the transactions stand in a blob.
    pub blob_used: bool,
    /// The hash of that blob.
    pub blob_hash: B256,
    pub data: D,
}

/// A proposal that was found: the L1 block it stands in, its transaction and its event.
#[derive(Debug, PartialEq, Eq)]
pub struct Proposal<D> {
    pub l1_block_number: u64,
    pub tx: ProposalTx,
    pub event: BlockProposedFork<D>,
}

/// The transactions of a block or a part of a batch, with what vouches for the blob they came
/// from.
#[derive(Debug, PartialEq, Eq)]
pub struct TxData {
    pub data: Vec<u8>,
    pub commitment: Option<Vec<u8>>,
    pub blob_proof: Option<Vec<u8>>,
}

/// A number is the sum of its words, each at its place.
pub proof fn law_value_is_the_sum_of_its_words(a: U256)
    ensures
        a.value() == a.limbs@[0] + 0x1_0000_0000_0000_0000 * a.limbs@[1]
            + 0x1_0000_0000_0000_0000_0000_0000_0000_0000int * a.limbs@[2]
            + 0x1_0000_0000_0000_0000_0000_0000_0000_0000_0000_0000_0000_0000int * a.limbs@[3],
{
}

} // verus!
