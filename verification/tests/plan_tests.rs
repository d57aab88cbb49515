//! Tests of the step-by-step transaction plan.

use lr1120::plan::{PlanAction, PlanPhase, StatusCheck, WriteThenReadPlan};
use lr1120::Lr1120Error;

#[test]
fn plan_happy_path() {
    let mut plan = WriteThenReadPlan::new(vec![0x01, 0x01], 3, StatusCheck::Leading);
    assert_eq!(plan.phase, PlanPhase::SendRequest);
    let a = plan.start();
    assert!(matches!(a, PlanAction::WriteRequest));
    let a = plan.on_write(Ok(()));
    assert!(matches!(a, PlanAction::WaitReady));
    let a = plan.on_ready(Ok(()));
    assert!(matches!(a, PlanAction::ReadResponse(3)));
    let a = plan.on_read(Ok(vec![0x04, 0x12, 0x34]));
    match a {
        PlanAction::Finish(Ok(rsp)) => assert_eq!(rsp, vec![0x04, 0x12, 0x34]),
        _ => panic!("expected a successful finish"),
    }
    assert_eq!(plan.phase, PlanPhase::Complete);
}

#[test]
fn plan_decodes_leading_status_error() {
    let mut plan = WriteThenReadPlan::new(vec![0x01, 0x0E], 2, StatusCheck::Leading);
    let _ = plan.start();
    let _ = plan.on_write(Ok(()));
    let _ = plan.on_ready(Ok(()));
    let a = plan.on_read(Ok(vec![0x02, 0x00]));
    assert!(matches!(a, PlanAction::Finish(Err(Lr1120Error::CmdErr))));
}

#[test]
fn plan_decodes_status_word() {
    let mut plan = WriteThenReadPlan::new(vec![0x01, 0x0E], 2, StatusCheck::Word);
    let _ = plan.start();
    let _ = plan.on_write(Ok(()));
    let _ = plan.on_ready(Ok(()));
    let a = plan.on_read(Ok(vec![0x04, 0x00]));
    assert!(matches!(a, PlanAction::Finish(Ok(_))));

    let mut plan = WriteThenReadPlan::new(vec![0x01, 0x0E], 2, StatusCheck::Word);
    let _ = plan.start();
    let _ = plan.on_write(Ok(()));
    let _ = plan.on_ready(Ok(()));
    let a = plan.on_read(Ok(vec![0x00, 0x00]));
    assert!(matches!(a, PlanAction::Finish(Err(Lr1120Error::CmdFail))));
}

#[test]
fn plan_short_circuits_on_reported_failures() {
    let mut plan = WriteThenReadPlan::new(vec![0x01, 0x01], 2, StatusCheck::Unchecked);
    let _ = plan.start();
    let a = plan.on_write(Err(Lr1120Error::Spi));
    assert!(matches!(a, PlanAction::Finish(Err(Lr1120Error::Spi))));
    assert_eq!(plan.phase, PlanPhase::Complete);

    let mut plan = WriteThenReadPlan::new(vec![0x01, 0x01], 2, StatusCheck::Unchecked);
    let _ = plan.start();
    let _ = plan.on_write(Ok(()));
    let a = plan.on_ready(Err(Lr1120Error::Timeout));
    assert!(matches!(a, PlanAction::Finish(Err(Lr1120Error::Timeout))));
}

#[test]
fn plan_rejects_out_of_order_events() {
    let mut plan = WriteThenReadPlan::new(vec![0x01, 0x01], 2, StatusCheck::Unchecked);
    let a = plan.on_read(Ok(vec![0x04, 0x00]));
    assert!(matches!(a, PlanAction::Finish(Err(Lr1120Error::Unknown))));
    assert_eq!(plan.phase, PlanPhase::Complete);
}
