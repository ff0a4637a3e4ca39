//! The accumulator that folds the fragments of one job into a payload.
//!
//! [`BuilderView`] is the mathematical model: the base captured so far and the
//! deltas accepted so far, in arrival order. [`BuilderView::extend`] and
//! [`BuilderView::envelope`] say what folding a fragment and materializing the
//! payload mean; [`FlashblockBuilder`] is the executable accumulator, whose
//! methods are proved to compute exactly that.

use vstd::prelude::*;
use crate::envelope::{
    BlobsBundle, BlobsBundleView, EnvelopeV3, EnvelopeV3View, EnvelopeV4, EnvelopeV4View,
    EnvelopeView, ExecutionPayload, ExecutionPayloadView, OpExecutionPayloadEnvelope,
    PayloadVersion,
};
use crate::error::FlashblocksError;
use crate::primitives::{
    BaseView, Bytes, DeltaView, ExecutionPayloadBaseV1, ExecutionPayloadFlashblockDeltaV1,
    FlashblocksPayloadV1, FragmentView, U256, Withdrawal,
};

verus! {

/// The transactions of all `deltas`, in order.
pub open spec fn all_transactions(deltas: Seq<DeltaView>) -> Seq<Seq<u8>> {
    deltas.map_values(|delta: DeltaView| delta.transactions).flatten()
}

/// The withdrawals of all `deltas`, in order.
pub open spec fn all_withdrawals(deltas: Seq<DeltaView>) -> Seq<Withdrawal> {
    deltas.map_values(|delta: DeltaView| delta.withdrawals).flatten()
}

/// No deltas hold no transactions and no withdrawals.
pub proof fn lemma_all_of_none()
    ensures
        all_transactions(Seq::empty()) == Seq::<Seq<u8>>::empty(),
        all_withdrawals(Seq::empty()) == Seq::<Withdrawal>::empty(),
{
    assert(Seq::<DeltaView>::empty().map_values(|delta: DeltaView| delta.transactions)
        =~= Seq::<Seq<Seq<u8>>>::empty());
    assert(Seq::<DeltaView>::empty().map_values(|delta: DeltaView| delta.withdrawals)
        =~= Seq::<Seq<Withdrawal>>::empty());
}

/// One more delta adds its transactions and its withdrawals at the end.
pub proof fn lemma_all_of_push(deltas: Seq<DeltaView>, delta: DeltaView)
    ensures
        all_transactions(deltas.push(delta)) == all_transactions(deltas) + delta.transactions,
        all_withdrawals(deltas.push(delta)) == all_withdrawals(deltas) + delta.withdrawals,
{
    let transactions = |delta: DeltaView| delta.transactions;
    let withdrawals = |delta: DeltaView| delta.withdrawals;
    assert(deltas.push(delta).map_values(transactions) =~= deltas.map_values(transactions).push(
        delta.transactions,
    ));
    assert(deltas.push(delta).map_values(withdrawals) =~= deltas.map_values(withdrawals).push(
        delta.withdrawals,
    ));
    deltas.map_values(transactions).lemma_flatten_push(delta.transactions);
    deltas.map_values(withdrawals).lemma_flatten_push(delta.withdrawals);
}

/// What an accumulator holds: the base of the job, once its first fragment has
/// brought it, and the deltas accepted so far, the delta of fragment `i` at
/// position `i`.
pub struct BuilderView {
    pub base: Option<BaseView>,
    pub flashblocks: Seq<DeltaView>,
}

impl BuilderView {
    /// The accumulator that has seen nothing.
    pub open spec fn empty() -> BuilderView {
        BuilderView { base: None, flashblocks: Seq::empty() }
    }

    /// A base is held exactly when at least one delta is. Every accumulator
    /// that was reached from the empty one by folding fragments is like this.
    pub open spec fn wf(self) -> bool {
        self.base is Some <==> self.flashblocks.len() > 0
    }

    /// The verdict on folding `fragment` into this accumulator.
    ///
    /// The base rule comes first: fragment 0 must carry a base and no other
    /// fragment may. Then the index must be the next position, the number of
    /// deltas held.
    pub open spec fn extend_result(self, fragment: FragmentView) -> Result<(), FlashblocksError> {
        if fragment.index == 0 && fragment.base is None {
            Err(FlashblocksError::MissingBasePayload)
        } else if fragment.index != 0 && fragment.base is Some {
            Err(FlashblocksError::UnexpectedBasePayload)
        } else if fragment.index != self.flashblocks.len() {
            Err(FlashblocksError::InvalidIndex)
        } else {
            Ok(())
        }
    }

    /// The accumulator after folding `fragment` into this one.
    ///
    /// A fragment that is refused, for whichever reason, leaves the
    /// accumulator exactly as it was. A fragment that is accepted adds its
    /// delta at the end, and fragment 0 brings the base.
    pub open spec fn extend(self, fragment: FragmentView) -> BuilderView {
        if self.extend_result(fragment) is Ok {
            BuilderView {
                base: if fragment.index == 0 {
                    fragment.base
                } else {
                    self.base
                },
                flashblocks: self.flashblocks.push(fragment.diff),
            }
        } else {
            self
        }
    }

    /// The execution payload that `base` and the deltas held add up to.
    ///
    /// The transactions and the withdrawals are those of all deltas, in
    /// arrival order. The roots, the bloom, the gas used and the block hash are
    /// those of the last delta alone: each delta states them for the block as
    /// a whole, so the latest supersedes the earlier ones. The remaining header
    /// fields are the base's, and the blob gas fields are zero.
    pub open spec fn execution_payload(self, base: BaseView) -> ExecutionPayloadView
        recommends
            self.flashblocks.len() > 0,
    {
        let last = self.flashblocks.last();
        ExecutionPayloadView {
            parent_hash: base.parent_hash,
            fee_recipient: base.fee_recipient,
            state_root: last.state_root,
            receipts_root: last.receipts_root,
            logs_bloom: last.logs_bloom,
            prev_randao: base.prev_randao,
            block_number: base.block_number,
            gas_limit: base.gas_limit,
            gas_used: last.gas_used,
            timestamp: base.timestamp,
            extra_data: base.extra_data,
            base_fee_per_gas: base.base_fee_per_gas,
            block_hash: last.block_hash,
            transactions: all_transactions(self.flashblocks),
            withdrawals: all_withdrawals(self.flashblocks),
            blob_gas_used: 0,
            excess_blob_gas: 0,
        }
    }

    /// The envelope of the given version around the payload of
    /// [`Self::execution_payload`]: zero block value, no blobs, no override of
    /// the builder and, in version 4, the last delta's withdrawals root and no
    /// execution requests.
    pub open spec fn wrap(self, base: BaseView, version: PayloadVersion) -> EnvelopeView
        recommends
            self.flashblocks.len() > 0,
    {
        match version {
            PayloadVersion::V3 => EnvelopeView::V3(
                EnvelopeV3View {
                    execution_payload: self.execution_payload(base),
                    block_value: 0,
                    blobs_bundle: BlobsBundleView::empty(),
                    should_override_builder: false,
                    parent_beacon_block_root: base.parent_beacon_block_root,
                },
            ),
            PayloadVersion::V4 => EnvelopeView::V4(
                EnvelopeV4View {
                    execution_payload: self.execution_payload(base),
                    withdrawals_root: self.flashblocks.last().withdrawals_root,
                    block_value: 0,
                    blobs_bundle: BlobsBundleView::empty(),
                    should_override_builder: false,
                    parent_beacon_block_root: base.parent_beacon_block_root,
                    execution_requests: Seq::empty(),
                },
            ),
        }
    }

    /// The result of materializing this accumulator: `MissingPayload` without a
    /// base, else `MissingDelta` without a delta, else the envelope.
    pub open spec fn envelope(self, version: PayloadVersion) -> Result<
        EnvelopeView,
        FlashblocksError,
    > {
        match self.base {
            None => Err(FlashblocksError::MissingPayload),
            Some(base) => if self.flashblocks.len() == 0 {
                Err(FlashblocksError::MissingDelta)
            } else {
                Ok(self.wrap(base, version))
            },
        }
    }
}

/// The views of a sequence of deltas.
spec fn delta_views(deltas: Seq<ExecutionPayloadFlashblockDeltaV1>) -> Seq<DeltaView> {
    deltas.map_values(|delta: ExecutionPayloadFlashblockDeltaV1| delta@)
}

/// A result of [`FlashblockBuilder::into_envelope`] with the envelope replaced
/// by its view.
pub open spec fn envelope_result_view(
    result: Result<OpExecutionPayloadEnvelope, FlashblocksError>,
) -> Result<EnvelopeView, FlashblocksError> {
    match result {
        Ok(envelope) => Ok(envelope@),
        Err(error) => Err(error),
    }
}

/// Appends a copy of every byte string of `source` to `target`.
fn append_copies(target: &mut Vec<Bytes>, source: &Vec<Bytes>)
    ensures
        final(target).deep_view() == old(target).deep_view() + source.deep_view(),
{
    let mut i: usize = 0;
    while i < source.len()
        invariant
            i <= source.len(),
            target.deep_view() == old(target).deep_view() + source.deep_view().take(i as int),
        decreases source.len() - i,
    {
        let ghost before = target.deep_view();
        let copy = source[i].clone();
        assert(copy.deep_view() =~= source[i as int].deep_view());
        target.push(copy);
        assert(target.deep_view() =~= before.push(source[i as int].deep_view()));
        assert(source.deep_view().take(i + 1) =~= source.deep_view().take(i as int).push(
            source[i as int].deep_view(),
        ));
        i += 1;
    }
    assert(source.deep_view().take(i as int) =~= source.deep_view());
}

/// Appends every withdrawal of `source` to `target`.
fn append_withdrawals(target: &mut Vec<Withdrawal>, source: &Vec<Withdrawal>)
    ensures
        final(target)@ == old(target)@ + source@,
{
    let mut i: usize = 0;
    while i < source.len()
        invariant
            i <= source.len(),
            target@ == old(target)@ + source@.take(i as int),
        decreases source.len() - i,
    {
        target.push(source[i]);
        assert(source@.take(i + 1) =~= source@.take(i as int).push(source[i as int]));
        i += 1;
    }
    assert(source@.take(i as int) =~= source@);
}

/// The accumulator for the fragments of one job.
#[derive(Debug)]
pub struct FlashblockBuilder {
    base: Option<ExecutionPayloadBaseV1>,
    flashblocks: Vec<ExecutionPayloadFlashblockDeltaV1>,
}

impl View for FlashblockBuilder {
    type V = BuilderView;

    closed spec fn view(&self) -> BuilderView {
        BuilderView {
            base: match self.base {
                Some(base) => Some(base@),
                None => None,
            },
            flashblocks: delta_views(self.flashblocks@),
        }
    }
}

impl Default for FlashblockBuilder {
    /// The accumulator that has seen nothing.
    fn default() -> (builder: Self)
        ensures
            builder@ == BuilderView::empty(),
    {
        FlashblockBuilder::new()
    }
}

impl FlashblockBuilder {
    /// The accumulator that has seen nothing.
    pub fn new() -> (builder: Self)
        ensures
            builder@ == BuilderView::empty(),
    {
        let builder = FlashblockBuilder { base: None, flashblocks: Vec::new() };
        assert(builder@.flashblocks =~= Seq::empty());
        builder
    }

    /// Validates one fragment and folds it in.
    ///
    /// Returns what [`BuilderView::extend_result`] says of the fragment and
    /// leaves the accumulator as [`BuilderView::extend`] says: a fragment that
    /// is refused changes nothing, neither the base nor the deltas, and one
    /// that is accepted adds its delta and, as fragment 0, brings the base.
    pub fn extend(&mut self, payload: FlashblocksPayloadV1) -> (result: Result<
        (),
        FlashblocksError,
    >)
        ensures
            result == old(self)@.extend_result(payload@),
            final(self)@ == old(self)@.extend(payload@),
            result is Err ==> final(self)@ == old(self)@,
    {
        let FlashblocksPayloadV1 { payload_id: _, index, base, diff } = payload;
        if index == 0 && base.is_none() {
            return Err(FlashblocksError::MissingBasePayload);
        }
        if index != 0 && base.is_some() {
            return Err(FlashblocksError::UnexpectedBasePayload);
        }
        if index != self.flashblocks.len() as u64 {
            return Err(FlashblocksError::InvalidIndex);
        }
        if index == 0 {
            self.base = base;
        }
        self.flashblocks.push(diff);
        assert(self@.flashblocks =~= old(self)@.flashblocks.push(diff@));
        Ok(())
    }

    /// Materializes what has been accumulated as an envelope of the given
    /// version, consuming the accumulator.
    ///
    /// Fails with `MissingPayload` when no base was captured and with
    /// `MissingDelta` when a base is held without any delta. Otherwise the
    /// envelope is that of [`BuilderView::wrap`].
    pub fn into_envelope(self, version: PayloadVersion) -> (result: Result<
        OpExecutionPayloadEnvelope,
        FlashblocksError,
    >)
        ensures
            envelope_result_view(result) == self@.envelope(version),
    {
        let ghost deltas = self@.flashblocks;
        let FlashblockBuilder { base, flashblocks } = self;
        let base = match base {
            Some(base) => base,
            None => {
                return Err(FlashblocksError::MissingPayload);
            },
        };
        let count = flashblocks.len();
        if count == 0 {
            return Err(FlashblocksError::MissingDelta);
        }
        let mut transactions: Vec<Bytes> = Vec::new();
        let mut withdrawals: Vec<Withdrawal> = Vec::new();
        proof {
            lemma_all_of_none();
            assert(deltas.take(0) =~= Seq::empty());
        }
        let mut i: usize = 0;
        while i < count
            invariant
                i <= count,
                count == flashblocks.len(),
                deltas == delta_views(flashblocks@),
                transactions.deep_view() == all_transactions(deltas.take(i as int)),
                withdrawals@ == all_withdrawals(deltas.take(i as int)),
            decreases count - i,
        {
            append_copies(&mut transactions, &flashblocks[i].transactions);
            append_withdrawals(&mut withdrawals, &flashblocks[i].withdrawals);
            proof {
                lemma_all_of_push(deltas.take(i as int), deltas[i as int]);
                assert(deltas.take(i + 1) =~= deltas.take(i as int).push(deltas[i as int]));
            }
            i += 1;
        }
        assert(deltas.take(count as int) =~= deltas);
        let last = &flashblocks[count - 1];
        let parent_beacon_block_root = base.parent_beacon_block_root;
        let execution_payload = ExecutionPayload {
            parent_hash: base.parent_hash,
            fee_recipient: base.fee_recipient,
            state_root: last.state_root,
            receipts_root: last.receipts_root,
            logs_bloom: last.logs_bloom,
            prev_randao: base.prev_randao,
            block_number: base.block_number,
            gas_limit: base.gas_limit,
            gas_used: last.gas_used,
            timestamp: base.timestamp,
            extra_data: base.extra_data,
            base_fee_per_gas: base.base_fee_per_gas,
            block_hash: last.block_hash,
            transactions,
            withdrawals,
            blob_gas_used: 0,
            excess_blob_gas: 0,
        };
        match version {
            PayloadVersion::V3 => Ok(
                OpExecutionPayloadEnvelope::V3(
                    EnvelopeV3 {
                        execution_payload,
                        block_value: U256::zero(),
                        blobs_bundle: BlobsBundle::empty(),
                        should_override_builder: false,
                        parent_beacon_block_root,
                    },
                ),
            ),
            PayloadVersion::V4 => {
                let execution_requests: Vec<Bytes> = Vec::new();
                assert(execution_requests.deep_view() =~= Seq::empty());
                Ok(
                    OpExecutionPayloadEnvelope::V4(
                        EnvelopeV4 {
                            execution_payload,
                            withdrawals_root: last.withdrawals_root,
                            block_value: U256::zero(),
                            blobs_bundle: BlobsBundle::empty(),
                            should_override_builder: false,
                            parent_beacon_block_root,
                            execution_requests,
                        },
                    ),
                )
            },
        }
    }
}

} // verus!
