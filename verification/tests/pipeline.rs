use vault::cpi::Call;
use vault::pipeline::{Pipeline, PipelineState};
use vault::state::Pubkey;

fn transfer_of(lamports: u64) -> Call {
    Call::SystemTransfer {
        program: Pubkey { bytes: [0; 32] },
        from: Pubkey { bytes: [1; 32] },
        to: Pubkey { bytes: [2; 32] },
        lamports,
    }
}

#[test]
fn pipeline_names_its_calls_in_order() {
    let calls = vec![transfer_of(1), transfer_of(2), transfer_of(3)];
    let mut pipeline = Pipeline::new(calls.clone());
    assert_eq!(pipeline.state(), PipelineState::Calling { index: 0 });
    assert_eq!(pipeline.next_call(), Some(transfer_of(1)));
    pipeline.report(true);
    assert_eq!(pipeline.state(), PipelineState::Calling { index: 1 });
    assert_eq!(pipeline.next_call(), Some(transfer_of(2)));
    pipeline.report(true);
    assert_eq!(pipeline.state(), PipelineState::Calling { index: 2 });
    assert_eq!(pipeline.next_call(), Some(transfer_of(3)));
    pipeline.report(true);
    assert_eq!(pipeline.state(), PipelineState::Completed);
    assert_eq!(pipeline.next_call(), None);
    assert_eq!(pipeline.calls(), &calls);
}

#[test]
fn pipeline_stops_at_the_first_failure() {
    let mut pipeline = Pipeline::new(vec![transfer_of(1), transfer_of(2), transfer_of(3)]);
    pipeline.report(true);
    pipeline.report(false);
    assert_eq!(pipeline.state(), PipelineState::Failed { index: 1 });
    assert_eq!(pipeline.next_call(), None);
    // nothing is made of a report that no call stands behind
    pipeline.report(true);
    assert_eq!(pipeline.state(), PipelineState::Failed { index: 1 });
    assert_eq!(pipeline.next_call(), None);
}

#[test]
fn pipeline_that_fails_at_once() {
    let mut pipeline = Pipeline::new(vec![transfer_of(1)]);
    pipeline.report(false);
    assert_eq!(pipeline.state(), PipelineState::Failed { index: 0 });
    assert_eq!(pipeline.next_call(), None);
}

#[test]
fn pipeline_without_calls_is_complete() {
    let mut pipeline = Pipeline::new(Vec::new());
    assert_eq!(pipeline.state(), PipelineState::Completed);
    assert_eq!(pipeline.next_call(), None);
    pipeline.report(true);
    assert_eq!(pipeline.state(), PipelineState::Completed);
    pipeline.report(false);
    assert_eq!(pipeline.state(), PipelineState::Completed);
}

#[test]
fn pipeline_of_a_single_call() {
    let mut pipeline = Pipeline::new(vec![transfer_of(9)]);
    assert_eq!(pipeline.next_call(), Some(transfer_of(9)));
    pipeline.report(true);
    assert_eq!(pipeline.state(), PipelineState::Completed);
}
