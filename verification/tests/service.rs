use rollup_boost::envelope::{OpExecutionPayloadEnvelope, PayloadVersion};
use rollup_boost::error::FlashblocksError;
use rollup_boost::primitives::{
    ExecutionPayloadBaseV1, ExecutionPayloadFlashblockDeltaV1, FlashblocksPayloadV1, PayloadId,
    U256,
};
use rollup_boost::service::{
    FlashblocksEngineMessage, FlashblocksService, IntakeAction, PayloadSource,
};

fn job_base() -> ExecutionPayloadBaseV1 {
    ExecutionPayloadBaseV1 {
        parent_beacon_block_root: [1; 32],
        parent_hash: [2; 32],
        fee_recipient: [3; 20],
        prev_randao: [4; 32],
        block_number: 77,
        gas_limit: 30_000_000,
        timestamp: 1_700_000_000,
        extra_data: vec![],
        base_fee_per_gas: U256 { limbs: [7, 0, 0, 0] },
    }
}

fn job_delta(gas_used: u64, transaction: u8) -> ExecutionPayloadFlashblockDeltaV1 {
    ExecutionPayloadFlashblockDeltaV1 {
        state_root: [transaction; 32],
        receipts_root: [5; 32],
        logs_bloom: [0; 256],
        gas_used,
        block_hash: [transaction; 32],
        transactions: vec![vec![transaction]],
        withdrawals: vec![],
        withdrawals_root: [6; 32],
    }
}

fn message(job: u64, index: u64, gas_used: u64, transaction: u8) -> FlashblocksEngineMessage {
    FlashblocksEngineMessage::FlashblocksPayloadV1(FlashblocksPayloadV1 {
        payload_id: PayloadId(job),
        index,
        base: if index == 0 { Some(job_base()) } else { None },
        diff: job_delta(gas_used, transaction),
    })
}

fn service_on_job(job: u64) -> FlashblocksService {
    let mut service = FlashblocksService::new();
    service.set_current_payload_id(PayloadId(job));
    service
}

fn transactions_of(
    result: Result<Option<OpExecutionPayloadEnvelope>, FlashblocksError>,
) -> Vec<Vec<u8>> {
    result.unwrap().unwrap().execution_payload().transactions.clone()
}

#[test]
fn new_service_has_the_zero_job_and_no_payload() {
    let mut service = FlashblocksService::new();
    assert_eq!(service.current_payload_id(), PayloadId(0));
    assert_eq!(
        service.get_best_payload(PayloadVersion::V3),
        Err(FlashblocksError::MissingPayload)
    );
}

#[test]
fn fragment_of_the_zero_job_is_taken_before_any_announcement() {
    let mut service = FlashblocksService::new();
    assert_eq!(service.on_event(message(0, 0, 100, 0xa0)), IntakeAction::Broadcast);
    assert_eq!(transactions_of(service.get_best_payload(PayloadVersion::V3)), vec![vec![0xa0u8]]);
}

#[test]
fn fragments_of_the_current_job_are_broadcast_and_assembled() {
    let mut service = service_on_job(9);
    assert_eq!(service.on_event(message(9, 0, 100, 0xa0)), IntakeAction::Broadcast);
    assert_eq!(service.on_event(message(9, 1, 250, 0xa1)), IntakeAction::Broadcast);
    let envelope = service.get_best_payload(PayloadVersion::V4).unwrap().unwrap();
    assert_eq!(envelope.version(), PayloadVersion::V4);
    assert_eq!(envelope.execution_payload().transactions, vec![vec![0xa0u8], vec![0xa1]]);
    assert_eq!(envelope.execution_payload().gas_used, 250);
    assert_eq!(envelope.execution_payload().state_root, [0xa1u8; 32]);
    assert_eq!(envelope.execution_payload().block_hash, [0xa1u8; 32]);
}

#[test]
fn rejected_fragment_is_reported_and_the_rest_is_kept() {
    let mut service = service_on_job(9);
    assert_eq!(service.on_event(message(9, 0, 100, 0xa0)), IntakeAction::Broadcast);
    assert_eq!(
        service.on_event(message(9, 2, 300, 0xa2)),
        IntakeAction::ReportRejected(FlashblocksError::InvalidIndex)
    );
    assert_eq!(
        service.on_event(message(9, 0, 100, 0xa0)),
        IntakeAction::ReportRejected(FlashblocksError::InvalidIndex)
    );
    let without_base = FlashblocksEngineMessage::FlashblocksPayloadV1(FlashblocksPayloadV1 {
        payload_id: PayloadId(9),
        index: 0,
        base: None,
        diff: job_delta(1, 1),
    });
    assert_eq!(
        service.on_event(without_base),
        IntakeAction::ReportRejected(FlashblocksError::MissingBasePayload)
    );
    let with_base = FlashblocksEngineMessage::FlashblocksPayloadV1(FlashblocksPayloadV1 {
        payload_id: PayloadId(9),
        index: 1,
        base: Some(job_base()),
        diff: job_delta(1, 1),
    });
    assert_eq!(
        service.on_event(with_base),
        IntakeAction::ReportRejected(FlashblocksError::UnexpectedBasePayload)
    );
    assert_eq!(service.on_event(message(9, 1, 250, 0xa1)), IntakeAction::Broadcast);
    assert_eq!(
        transactions_of(service.get_best_payload(PayloadVersion::V3)),
        vec![vec![0xa0u8], vec![0xa1]]
    );
}

#[test]
fn rejected_fragment_changes_nothing() {
    let mut touched = service_on_job(9);
    let mut untouched = service_on_job(9);
    touched.on_event(message(9, 0, 100, 0xa0));
    untouched.on_event(message(9, 0, 100, 0xa0));
    // A second fragment 0 carries another base and is refused.
    let mut other_base = job_base();
    other_base.parent_hash = [0xee; 32];
    other_base.block_number = 78;
    let again = FlashblocksEngineMessage::FlashblocksPayloadV1(FlashblocksPayloadV1 {
        payload_id: PayloadId(9),
        index: 0,
        base: Some(other_base),
        diff: job_delta(999, 0xff),
    });
    assert_eq!(
        touched.on_event(again),
        IntakeAction::ReportRejected(FlashblocksError::InvalidIndex)
    );
    assert_eq!(
        touched.on_event(message(9, 5, 999, 0xff)),
        IntakeAction::ReportRejected(FlashblocksError::InvalidIndex)
    );
    assert_eq!(
        touched.get_best_payload(PayloadVersion::V4),
        untouched.get_best_payload(PayloadVersion::V4)
    );
}

#[test]
fn second_fetch_finds_nothing() {
    let mut service = service_on_job(9);
    service.on_event(message(9, 0, 100, 0xa0));
    assert_eq!(transactions_of(service.get_best_payload(PayloadVersion::V3)), vec![vec![0xa0u8]]);
    assert_eq!(
        service.get_best_payload(PayloadVersion::V3),
        Err(FlashblocksError::MissingPayload)
    );
    assert_eq!(service.current_payload_id(), PayloadId(9));
}

#[test]
fn second_fetch_after_a_failed_one_fails_the_same_way() {
    let mut service = service_on_job(9);
    assert_eq!(
        service.get_best_payload(PayloadVersion::V4),
        Err(FlashblocksError::MissingPayload)
    );
    assert_eq!(
        service.get_best_payload(PayloadVersion::V4),
        Err(FlashblocksError::MissingPayload)
    );
}

#[test]
fn fetch_starts_a_fresh_accumulation() {
    let mut service = service_on_job(9);
    service.on_event(message(9, 0, 100, 0xa0));
    service.on_event(message(9, 1, 250, 0xa1));
    service.get_best_payload(PayloadVersion::V3).unwrap();
    // The next fragment of the stream no longer fits: index 0 is expected again.
    assert_eq!(
        service.on_event(message(9, 2, 300, 0xa2)),
        IntakeAction::ReportRejected(FlashblocksError::InvalidIndex)
    );
    assert_eq!(service.on_event(message(9, 0, 50, 0xb0)), IntakeAction::Broadcast);
    assert_eq!(transactions_of(service.get_best_payload(PayloadVersion::V3)), vec![vec![0xb0u8]]);
}

#[test]
fn fragment_of_another_job_changes_nothing() {
    let mut touched = service_on_job(9);
    let mut untouched = service_on_job(9);
    touched.on_event(message(9, 0, 100, 0xa0));
    untouched.on_event(message(9, 0, 100, 0xa0));
    assert_eq!(touched.on_event(message(8, 1, 250, 0xa1)), IntakeAction::ReportMismatch);
    assert_eq!(touched.on_event(message(8, 0, 250, 0xa1)), IntakeAction::ReportMismatch);
    assert_eq!(touched.current_payload_id(), PayloadId(9));
    assert_eq!(
        touched.get_best_payload(PayloadVersion::V3),
        untouched.get_best_payload(PayloadVersion::V3)
    );
}

#[test]
fn fragment_of_another_job_leaves_an_empty_accumulator_empty() {
    let mut service = service_on_job(9);
    assert_eq!(service.on_event(message(8, 0, 100, 0xa0)), IntakeAction::ReportMismatch);
    assert_eq!(
        service.get_best_payload(PayloadVersion::V3),
        Err(FlashblocksError::MissingPayload)
    );
}

#[test]
fn fragment_of_the_previous_job_is_dropped_after_a_new_job_is_named() {
    let mut service = service_on_job(9);
    assert_eq!(service.on_event(message(9, 0, 100, 0xa0)), IntakeAction::Broadcast);
    service.on_fork_choice_updated(Some(PayloadId(10)));
    assert_eq!(service.current_payload_id(), PayloadId(10));
    // In turn and well formed, but of the job that is no longer current.
    assert_eq!(service.on_event(message(9, 1, 250, 0xa1)), IntakeAction::ReportMismatch);
    assert_eq!(service.on_event(message(9, 0, 100, 0xa0)), IntakeAction::ReportMismatch);
    assert_eq!(
        service.get_best_payload(PayloadVersion::V3),
        Err(FlashblocksError::MissingPayload)
    );
}

#[test]
fn new_job_abandons_what_was_accumulated() {
    let mut service = service_on_job(9);
    service.on_event(message(9, 0, 100, 0xa0));
    service.on_fork_choice_updated(Some(PayloadId(10)));
    assert_eq!(service.on_event(message(10, 0, 40, 0xc0)), IntakeAction::Broadcast);
    assert_eq!(transactions_of(service.get_best_payload(PayloadVersion::V3)), vec![vec![0xc0u8]]);
}

#[test]
fn naming_the_current_job_again_keeps_what_was_accumulated() {
    let mut service = service_on_job(9);
    service.on_event(message(9, 0, 100, 0xa0));
    service.on_fork_choice_updated(Some(PayloadId(9)));
    service.set_current_payload_id(PayloadId(9));
    assert_eq!(service.on_event(message(9, 1, 250, 0xa1)), IntakeAction::Broadcast);
    assert_eq!(
        transactions_of(service.get_best_payload(PayloadVersion::V3)),
        vec![vec![0xa0u8], vec![0xa1]]
    );
}

#[test]
fn fork_choice_answer_without_a_job_changes_nothing() {
    let mut service = service_on_job(9);
    service.on_event(message(9, 0, 100, 0xa0));
    service.on_fork_choice_updated(None);
    assert_eq!(service.current_payload_id(), PayloadId(9));
    assert_eq!(transactions_of(service.get_best_payload(PayloadVersion::V3)), vec![vec![0xa0u8]]);
}

#[test]
fn payload_request_is_answered_from_the_fragments() {
    let mut service = service_on_job(9);
    service.on_event(message(9, 0, 100, 0xa0));
    service.on_event(message(9, 1, 250, 0xa1));
    match service.get_payload(PayloadId(9), PayloadVersion::V4) {
        PayloadSource::Assembled(envelope) => {
            assert_eq!(envelope.version(), PayloadVersion::V4);
            assert_eq!(envelope.execution_payload().transactions, vec![vec![0xa0u8], vec![0xa1]]);
        },
        PayloadSource::Engine(reason) => panic!("sent to the engine: {:?}", reason),
    }
    // The fragments were consumed: the next request goes to the engine.
    assert_eq!(
        service.get_payload(PayloadId(9), PayloadVersion::V4),
        PayloadSource::Engine(FlashblocksError::MissingPayload)
    );
}

#[test]
fn payload_request_goes_to_the_engine_when_no_fragment_arrived() {
    let mut service = service_on_job(9);
    assert_eq!(
        service.get_payload(PayloadId(9), PayloadVersion::V3),
        PayloadSource::Engine(FlashblocksError::MissingPayload)
    );
}

#[test]
fn payload_request_for_any_job_takes_what_was_accumulated() {
    let mut service = service_on_job(9);
    service.on_event(message(9, 0, 100, 0xa0));
    match service.get_payload(PayloadId(1234), PayloadVersion::V3) {
        PayloadSource::Assembled(envelope) => {
            assert_eq!(envelope.execution_payload().transactions, vec![vec![0xa0u8]]);
        },
        PayloadSource::Engine(reason) => panic!("sent to the engine: {:?}", reason),
    }
}
