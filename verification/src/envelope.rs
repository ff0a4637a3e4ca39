//! The execution payload that the fragments of a job add up to, and the
//! envelope that answers a payload request.
//!
//! The execution payload has the same shape in every version. The version
//! decides the wrapper only: version 4 adds a withdrawals root beside the
//! payload and a list of execution requests.

use vstd::prelude::*;
use crate::primitives::{Address, B256, Bloom, Bytes, U256, Withdrawal};

verus! {

/// A 48-byte KZG commitment or proof.
pub type Bytes48 = [u8; 48];

/// One blob of 131072 bytes.
pub type Blob = [u8; 131072];

/// The version of the answer to a payload request.
#[derive(Clone, Copy, Debug, PartialEq, Eq, Structural)]
pub enum PayloadVersion {
    V3,
    V4,
}

/// A complete execution payload.
#[derive(Clone, Debug, PartialEq, Eq)]
pub struct ExecutionPayload {
    /// Hash of the parent block.
    pub parent_hash: B256,
    /// Address that receives the block's fees.
    pub fee_recipient: Address,
    /// State root of the block.
    pub state_root: B256,
    /// Receipts root of the block.
    pub receipts_root: B256,
    /// Logs bloom of the block.
    pub logs_bloom: Bloom,
    /// The previous randao value.
    pub prev_randao: B256,
    /// Number of the block.
    pub block_number: u64,
    /// Gas limit of the block.
    pub gas_limit: u64,
    /// Gas used by the block.
    pub gas_used: u64,
    /// Timestamp of the block.
    pub timestamp: u64,
    /// Extra data of the block.
    pub extra_data: Bytes,
    /// Base fee per gas of the block.
    pub base_fee_per_gas: U256,
    /// Hash of the block.
    pub block_hash: B256,
    /// The block's transactions, each in its encoded form.
    pub transactions: Vec<Bytes>,
    /// The block's withdrawals.
    pub withdrawals: Vec<Withdrawal>,
    /// Blob gas used by the block.
    pub blob_gas_used: u64,
    /// Excess blob gas of the block.
    pub excess_blob_gas: u64,
}

/// The view of an [`ExecutionPayload`].
pub struct ExecutionPayloadView {
    pub parent_hash: B256,
    pub fee_recipient: Address,
    pub state_root: B256,
    pub receipts_root: B256,
    pub logs_bloom: Bloom,
    pub prev_randao: B256,
    pub block_number: u64,
    pub gas_limit: u64,
    pub gas_used: u64,
    pub timestamp: u64,
    pub extra_data: Seq<u8>,
    pub base_fee_per_gas: nat,
    pub block_hash: B256,
    pub transactions: Seq<Seq<u8>>,
    pub withdrawals: Seq<Withdrawal>,
    pub blob_gas_used: u64,
    pub excess_blob_gas: u64,
}

impl View for ExecutionPayload {
    type V = ExecutionPayloadView;

    open spec fn view(&self) -> ExecutionPayloadView {
        ExecutionPayloadView {
            parent_hash: self.parent_hash,
            fee_recipient: self.fee_recipient,
            state_root: self.state_root,
            receipts_root: self.receipts_root,
            logs_bloom: self.logs_bloom,
            prev_randao: self.prev_randao,
            block_number: self.block_number,
            gas_limit: self.gas_limit,
            gas_used: self.gas_used,
            timestamp: self.timestamp,
            extra_data: self.extra_data@,
            base_fee_per_gas: self.base_fee_per_gas@,
            block_hash: self.block_hash,
            transactions: self.transactions.deep_view(),
            withdrawals: self.withdrawals@,
            blob_gas_used: self.blob_gas_used,
            excess_blob_gas: self.excess_blob_gas,
        }
    }
}

/// The blobs of a payload with their commitments and proofs.
#[derive(Clone, Debug, PartialEq, Eq)]
pub struct BlobsBundle {
    /// All commitments in the bundle.
    pub commitments: Vec<Bytes48>,
    /// All proofs in the bundle.
    pub proofs: Vec<Bytes48>,
    /// All blobs in the bundle.
    pub blobs: Vec<Blob>,
}

/// The view of a [`BlobsBundle`].
pub struct BlobsBundleView {
    pub commitments: Seq<Bytes48>,
    pub proofs: Seq<Bytes48>,
    pub blobs: Seq<Blob>,
}

impl BlobsBundleView {
    /// The bundle without any blob.
    pub open spec fn empty() -> BlobsBundleView {
        BlobsBundleView { commitments: Seq::empty(), proofs: Seq::empty(), blobs: Seq::empty() }
    }
}

impl View for BlobsBundle {
    type V = BlobsBundleView;

    open spec fn view(&self) -> BlobsBundleView {
        BlobsBundleView {
            commitments: self.commitments@,
            proofs: self.proofs@,
            blobs: self.blobs@,
        }
    }
}

impl BlobsBundle {
    /// The bundle without any blob.
    pub fn empty() -> (bundle: Self)
        ensures
            bundle@ == BlobsBundleView::empty(),
    {
        BlobsBundle { commitments: Vec::new(), proofs: Vec::new(), blobs: Vec::new() }
    }
}

/// The answer to a version 3 payload request.
#[derive(Clone, Debug, PartialEq, Eq)]
pub struct EnvelopeV3 {
    /// The execution payload.
    pub execution_payload: ExecutionPayload,
    /// The value that the fee recipient is expected to receive, in wei.
    pub block_value: U256,
    /// The blobs of the payload.
    pub blobs_bundle: BlobsBundle,
    /// Whether this payload should be used in place of one provided from outside.
    pub should_override_builder: bool,
    /// Root of the parent beacon block.
    pub parent_beacon_block_root: B256,
}

/// The view of an [`EnvelopeV3`].
pub struct EnvelopeV3View {
    pub execution_payload: ExecutionPayloadView,
    pub block_value: nat,
    pub blobs_bundle: BlobsBundleView,
    pub should_override_builder: bool,
    pub parent_beacon_block_root: B256,
}

impl View for EnvelopeV3 {
    type V = EnvelopeV3View;

    open spec fn view(&self) -> EnvelopeV3View {
        EnvelopeV3View {
            execution_payload: self.execution_payload@,
            block_value: self.block_value@,
            blobs_bundle: self.blobs_bundle@,
            should_override_builder: self.should_override_builder,
            parent_beacon_block_root: self.parent_beacon_block_root,
        }
    }
}

/// The answer to a version 4 payload request.
#[derive(Clone, Debug, PartialEq, Eq)]
pub struct EnvelopeV4 {
    /// The execution payload.
    pub execution_payload: ExecutionPayload,
    /// The withdrawals root, given directly in place of one computed from the
    /// withdrawals list.
    pub withdrawals_root: B256,
    /// The value that the fee recipient is expected to receive, in wei.
    pub block_value: U256,
    /// The blobs of the payload.
    pub blobs_bundle: BlobsBundle,
    /// Whether this payload should be used in place of one provided from outside.
    pub should_override_builder: bool,
    /// Root of the parent beacon block.
    pub parent_beacon_block_root: B256,
    /// The execution requests, each in its encoded form.
    pub execution_requests: Vec<Bytes>,
}

/// The view of an [`EnvelopeV4`].
pub struct EnvelopeV4View {
    pub execution_payload: ExecutionPayloadView,
    pub withdrawals_root: B256,
    pub block_value: nat,
    pub blobs_bundle: BlobsBundleView,
    pub should_override_builder: bool,
    pub parent_beacon_block_root: B256,
    pub execution_requests: Seq<Seq<u8>>,
}

impl View for EnvelopeV4 {
    type V = EnvelopeV4View;

    open spec fn view(&self) -> EnvelopeV4View {
        EnvelopeV4View {
            execution_payload: self.execution_payload@,
            withdrawals_root: self.withdrawals_root,
            block_value: self.block_value@,
            blobs_bundle: self.blobs_bundle@,
            should_override_builder: self.should_override_builder,
            parent_beacon_block_root: self.parent_beacon_block_root,
            execution_requests: self.execution_requests.deep_view(),
        }
    }
}

/// The answer to a payload request, in the version that was asked for.
#[derive(Clone, Debug, PartialEq, Eq)]
pub enum OpExecutionPayloadEnvelope {
    V3(EnvelopeV3),
    V4(EnvelopeV4),
}

/// The view of an [`OpExecutionPayloadEnvelope`].
pub enum EnvelopeView {
    V3(EnvelopeV3View),
    V4(EnvelopeV4View),
}

impl EnvelopeView {
    /// The version of the envelope.
    pub open spec fn version(self) -> PayloadVersion {
        match self {
            EnvelopeView::V3(_) => PayloadVersion::V3,
            EnvelopeView::V4(_) => PayloadVersion::V4,
        }
    }

    /// The execution payload inside the envelope.
    pub open spec fn execution_payload(self) -> ExecutionPayloadView {
        match self {
            EnvelopeView::V3(envelope) => envelope.execution_payload,
            EnvelopeView::V4(envelope) => envelope.execution_payload,
        }
    }
}

impl View for OpExecutionPayloadEnvelope {
    type V = EnvelopeView;

    open spec fn view(&self) -> EnvelopeView {
        match self {
            OpExecutionPayloadEnvelope::V3(envelope) => EnvelopeView::V3(envelope@),
            OpExecutionPayloadEnvelope::V4(envelope) => EnvelopeView::V4(envelope@),
        }
    }
}

impl OpExecutionPayloadEnvelope {
    /// The version of the envelope.
    pub fn version(&self) -> (version: PayloadVersion)
        ensures
            version == self@.version(),
    {
        match self {
            OpExecutionPayloadEnvelope::V3(_) => PayloadVersion::V3,
            OpExecutionPayloadEnvelope::V4(_) => PayloadVersion::V4,
        }
    }

    /// The execution payload inside the envelope.
    pub fn execution_payload(&self) -> (payload: &ExecutionPayload)
        ensures
            payload@ == self@.execution_payload(),
    {
        match self {
            OpExecutionPayloadEnvelope::V3(envelope) => &envelope.execution_payload,
            OpExecutionPayloadEnvelope::V4(envelope) => &envelope.execution_payload,
        }
    }
}

} // verus!
