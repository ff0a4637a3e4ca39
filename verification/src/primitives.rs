//! The messages of the fragment stream and the values they carry.
//!
//! Hashes, addresses and bloom filters are fixed-size byte arrays, byte strings
//! are `Vec<u8>`, and every message type has a view in which each byte string
//! is a `Seq<u8>` and each list a `Seq`.

use vstd::prelude::*;

verus! {

/// A 32-byte hash or root.
pub type B256 = [u8; 32];

/// A 20-byte account address.
pub type Address = [u8; 20];

/// A 256-byte logs bloom filter.
pub type Bloom = [u8; 256];

/// A byte string of any length: an encoded transaction, a block's extra data.
pub type Bytes = Vec<u8>;

/// An unsigned 256-bit integer as four 64-bit limbs, the least significant
/// first.
#[derive(Clone, Copy, Debug, PartialEq, Eq)]
pub struct U256 {
    pub limbs: [u64; 4],
}

impl View for U256 {
    type V = nat;

    /// The number that the limbs stand for.
    open spec fn view(&self) -> nat {
        (self.limbs[0] as nat) + (self.limbs[1] as nat) * 0x1_0000_0000_0000_0000 + (
        self.limbs[2] as nat) * 0x1_0000_0000_0000_0000_0000_0000_0000_0000 + (
        self.limbs[3] as nat)
            * 0x1_0000_0000_0000_0000_0000_0000_0000_0000_0000_0000_0000_0000
    }
}

impl U256 {
    /// The number zero.
    pub fn zero() -> (z: Self)
        ensures
            z@ == 0,
            forall|i: int| 0 <= i < 4 ==> z.limbs[i] == 0,
    {
        U256 { limbs: [0; 4] }
    }
}

/// The identifier of one block-building job: the eight bytes that the
/// execution engine issued, read as a big-endian integer.
#[derive(Clone, Copy, Debug, PartialEq, Eq, Hash, Structural)]
pub struct PayloadId(pub u64);

impl Default for PayloadId {
    /// The all-zero identifier, which is current before any job is announced.
    fn default() -> (id: Self)
        ensures
            id == PayloadId(0),
    {
        PayloadId(0)
    }
}

/// A validator withdrawal from the consensus layer.
#[derive(Clone, Copy, Debug, PartialEq, Eq)]
pub struct Withdrawal {
    /// Identifier issued by the consensus layer.
    pub index: u64,
    /// Index of the validator that withdraws.
    pub validator_index: u64,
    /// Address that receives the ether.
    pub address: Address,
    /// Amount in gwei.
    pub amount: u64,
}

/// The block fields that are fixed when a job starts. Only the first fragment
/// of a job carries them.
#[derive(Clone, Debug, PartialEq, Eq)]
pub struct ExecutionPayloadBaseV1 {
    /// Root of the parent beacon block; used only in the final envelope.
    pub parent_beacon_block_root: B256,
    /// Hash of the parent block.
    pub parent_hash: B256,
    /// Address that receives the block's fees.
    pub fee_recipient: Address,
    /// The previous randao value.
    pub prev_randao: B256,
    /// Number of the block.
    pub block_number: u64,
    /// Gas limit of the block.
    pub gas_limit: u64,
    /// Timestamp of the block.
    pub timestamp: u64,
    /// Extra data of the block.
    pub extra_data: Bytes,
    /// Base fee per gas of the block.
    pub base_fee_per_gas: U256,
}

/// The view of an [`ExecutionPayloadBaseV1`].
pub struct BaseView {
    pub parent_beacon_block_root: B256,
    pub parent_hash: B256,
    pub fee_recipient: Address,
    pub prev_randao: B256,
    pub block_number: u64,
    pub gas_limit: u64,
    pub timestamp: u64,
    pub extra_data: Seq<u8>,
    pub base_fee_per_gas: nat,
}

impl View for ExecutionPayloadBaseV1 {
    type V = BaseView;

    open spec fn view(&self) -> BaseView {
        BaseView {
            parent_beacon_block_root: self.parent_beacon_block_root,
            parent_hash: self.parent_hash,
            fee_recipient: self.fee_recipient,
            prev_randao: self.prev_randao,
            block_number: self.block_number,
            gas_limit: self.gas_limit,
            timestamp: self.timestamp,
            extra_data: self.extra_data@,
            base_fee_per_gas: self.base_fee_per_gas@,
        }
    }
}

/// The block fields that a fragment refines or extends. Every fragment
/// carries them.
///
/// The roots, the bloom, the gas used and the block hash describe the block as
/// a whole up to and including this fragment. The transactions and withdrawals
/// are those that this fragment adds.
#[derive(Clone, Debug, PartialEq, Eq)]
pub struct ExecutionPayloadFlashblockDeltaV1 {
    /// State root of the block so far.
    pub state_root: B256,
    /// Receipts root of the block so far.
    pub receipts_root: B256,
    /// Logs bloom of the block so far.
    pub logs_bloom: Bloom,
    /// Gas used by the block so far.
    pub gas_used: u64,
    /// Hash of the block so far.
    pub block_hash: B256,
    /// The transactions that this fragment adds.
    pub transactions: Vec<Bytes>,
    /// The withdrawals that this fragment adds.
    pub withdrawals: Vec<Withdrawal>,
    /// Withdrawals root of the block so far.
    pub withdrawals_root: B256,
}

/// The view of an [`ExecutionPayloadFlashblockDeltaV1`].
pub struct DeltaView {
    pub state_root: B256,
    pub receipts_root: B256,
    pub logs_bloom: Bloom,
    pub gas_used: u64,
    pub block_hash: B256,
    pub transactions: Seq<Seq<u8>>,
    pub withdrawals: Seq<Withdrawal>,
    pub withdrawals_root: B256,
}

impl View for ExecutionPayloadFlashblockDeltaV1 {
    type V = DeltaView;

    open spec fn view(&self) -> DeltaView {
        DeltaView {
            state_root: self.state_root,
            receipts_root: self.receipts_root,
            logs_bloom: self.logs_bloom,
            gas_used: self.gas_used,
            block_hash: self.block_hash,
            transactions: self.transactions.deep_view(),
            withdrawals: self.withdrawals@,
            withdrawals_root: self.withdrawals_root,
        }
    }
}

/// One fragment of a block under construction.
#[derive(Clone, Debug, PartialEq, Eq)]
pub struct FlashblocksPayloadV1 {
    /// The job that this fragment belongs to.
    pub payload_id: PayloadId,
    /// Position of the fragment in its job's stream, counted from 0.
    pub index: u64,
    /// The fixed block fields: present on the first fragment of a job only.
    pub base: Option<ExecutionPayloadBaseV1>,
    /// The fields that this fragment refines or extends.
    pub diff: ExecutionPayloadFlashblockDeltaV1,
}

/// The view of a [`FlashblocksPayloadV1`].
pub struct FragmentView {
    pub payload_id: PayloadId,
    pub index: u64,
    pub base: Option<BaseView>,
    pub diff: DeltaView,
}

impl View for FlashblocksPayloadV1 {
    type V = FragmentView;

    open spec fn view(&self) -> FragmentView {
        FragmentView {
            payload_id: self.payload_id,
            index: self.index,
            base: match self.base {
                Some(base) => Some(base@),
                None => None,
            },
            diff: self.diff@,
        }
    }
}

} // verus!
