use proxy_pool::dispatch::{DispatchAction, DispatchEvent, Dispatcher};
use proxy_pool::error::{AttemptFailure, DispatchError};

#[test]
fn non_replayable_is_rejected_before_any_proxy() {
    let (machine, action) = Dispatcher::begin(false, 3);
    assert_eq!(
        action,
        DispatchAction::Reject(DispatchError::NonReplayableRequest)
    );
    // The machine is finished: no later action can record a failure,
    // because no event is accepted any more.
    assert!(matches!(
        machine.phase,
        proxy_pool::dispatch::DispatchPhase::Finished
    ));
}

#[test]
fn successful_attempt_records_success_and_finishes() {
    let (machine, action) = Dispatcher::begin(true, 3);
    assert_eq!(action, DispatchAction::SelectProxy);
    let (machine, action) = machine.step(DispatchEvent::ProxySelected("socks5://a:1".to_string()));
    assert_eq!(action, DispatchAction::Attempt("socks5://a:1".to_string()));
    let (_, action) = machine.step(DispatchEvent::AttemptSucceeded);
    assert_eq!(
        action,
        DispatchAction::RecordSuccessAndFinish("socks5://a:1".to_string())
    );
}

#[test]
fn empty_pool_rejects_as_exhaustion() {
    let (machine, _) = Dispatcher::begin(true, 3);
    let (_, action) = machine.step(DispatchEvent::NoHealthyProxy);
    assert_eq!(action, DispatchAction::Reject(DispatchError::NoProxyAvailable));
}

#[test]
fn failures_are_recorded_and_retried_until_the_bound() {
    let (machine, _) = Dispatcher::begin(true, 1);
    let (machine, action) = machine.step(DispatchEvent::ProxySelected("socks5://a:1".to_string()));
    assert_eq!(action, DispatchAction::Attempt("socks5://a:1".to_string()));

    // First failure: recorded, then another selection round.
    let (machine, action) =
        machine.step(DispatchEvent::AttemptFailed(AttemptFailure::Construction));
    assert_eq!(
        action,
        DispatchAction::RecordFailureAndSelect("socks5://a:1".to_string())
    );

    let (machine, action) = machine.step(DispatchEvent::ProxySelected("socks5://b:2".to_string()));
    assert_eq!(action, DispatchAction::Attempt("socks5://b:2".to_string()));

    // Second failure exceeds max_retries = 1: recorded, then the error of
    // this final attempt surfaces.
    let (_, action) = machine.step(DispatchEvent::AttemptFailed(AttemptFailure::Execution));
    assert_eq!(
        action,
        DispatchAction::RecordFailureAndFail(
            "socks5://b:2".to_string(),
            DispatchError::RequestExecution
        )
    );
}

#[test]
fn zero_retries_surfaces_first_error() {
    let (machine, _) = Dispatcher::begin(true, 0);
    let (machine, _) = machine.step(DispatchEvent::ProxySelected("socks5://a:1".to_string()));
    let (_, action) = machine.step(DispatchEvent::AttemptFailed(AttemptFailure::Construction));
    assert_eq!(
        action,
        DispatchAction::RecordFailureAndFail(
            "socks5://a:1".to_string(),
            DispatchError::ProxyConstruction
        )
    );
}
