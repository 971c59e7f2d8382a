use iothub::{
    setup_step, ClientResult, HandlerError, InitGuard, IotHubModuleClient, IotHubModuleEvent,
    ModuleEventHandler, SetupAction, SetupError, SetupEvent, SetupState, WorkStep,
    WORK_INTERVAL_MS,
};

struct Ignore;

impl ModuleEventHandler for Ignore {
    fn on_event(&mut self, _event: IotHubModuleEvent) -> Result<(), HandlerError> {
        Ok(())
    }
}

#[test]
fn test_mqtt() {
    let mut guard = InitGuard::new();
    let (state, action) = setup_step(SetupState::Start, &mut guard, SetupEvent::Begin);
    assert_eq!(action, SetupAction::Connect { init_first: true });
    assert!(guard.is_initialized());
    let (state, action) = setup_step(state, &mut guard, SetupEvent::Created(7));
    assert_eq!(action, SetupAction::RegisterInput { handle: 7 });
    let client = IotHubModuleClient::new(7, Ignore);
    assert_eq!(client.teardown(), 7);
    assert_eq!(state, SetupState::RegisteringInput(7));
}

#[test]
fn test_amqp() {
    let mut guard = InitGuard::new();
    assert!(guard.ensure_initialized());
    assert!(guard.is_initialized());
}

#[test]
fn init_runs_once_over_many_callers() {
    let mut guard = InitGuard::new();
    let mut runs = 0;
    for _ in 0..10 {
        if guard.ensure_initialized() {
            runs += 1;
        }
    }
    assert_eq!(runs, 1);
}

#[test]
fn second_client_does_not_init_again() {
    let mut guard = InitGuard::new();
    let (_, first) = setup_step(SetupState::Start, &mut guard, SetupEvent::Begin);
    let (_, second) = setup_step(SetupState::Start, &mut guard, SetupEvent::Begin);
    assert_eq!(first, SetupAction::Connect { init_first: true });
    assert_eq!(second, SetupAction::Connect { init_first: false });
}

#[test]
fn full_setup_reaches_ready() {
    let mut guard = InitGuard::new();
    let (s, _) = setup_step(SetupState::Start, &mut guard, SetupEvent::Begin);
    assert_eq!(s, SetupState::Connecting);
    let (s, _) = setup_step(s, &mut guard, SetupEvent::Created(42));
    let (s, a) = setup_step(s, &mut guard, SetupEvent::Registered(ClientResult::Success));
    assert_eq!(a, SetupAction::RegisterTwin { handle: 42 });
    let (s, a) = setup_step(s, &mut guard, SetupEvent::Registered(ClientResult::Success));
    assert_eq!(a, SetupAction::Finish { handle: 42 });
    assert_eq!(s, SetupState::Ready(42));
}

#[test]
fn null_handle_aborts_setup() {
    let mut guard = InitGuard::new();
    let (s, a) = setup_step(SetupState::Connecting, &mut guard, SetupEvent::Created(0));
    assert_eq!(s, SetupState::Failed(SetupError::NullHandle));
    assert_eq!(a, SetupAction::Abort(SetupError::NullHandle));
    assert!(!guard.is_initialized());
}

#[test]
fn failed_input_registration_aborts_setup() {
    let mut guard = InitGuard::new();
    let (s, a) = setup_step(
        SetupState::RegisteringInput(3),
        &mut guard,
        SetupEvent::Registered(ClientResult::Error),
    );
    assert_eq!(s, SetupState::Failed(SetupError::InputCallback));
    assert_eq!(a, SetupAction::Abort(SetupError::InputCallback));
}

#[test]
fn failed_twin_registration_aborts_setup() {
    let mut guard = InitGuard::new();
    let (s, a) = setup_step(
        SetupState::RegisteringTwin(3),
        &mut guard,
        SetupEvent::Registered(ClientResult::InvalidArg),
    );
    assert_eq!(s, SetupState::Failed(SetupError::TwinCallback));
    assert_eq!(a, SetupAction::Abort(SetupError::TwinCallback));
}

#[test]
fn out_of_order_event_is_ignored() {
    let mut guard = InitGuard::new();
    let (s, a) = setup_step(SetupState::Start, &mut guard, SetupEvent::Created(5));
    assert_eq!(s, SetupState::Start);
    assert_eq!(a, SetupAction::Ignore);
    assert!(!guard.is_initialized());
}

#[test]
fn work_loop_ticks_then_stops() {
    let client = IotHubModuleClient::new(9, Ignore);
    assert_eq!(client.do_work(false), WorkStep::Tick { handle: 9, sleep_ms: 100 });
    assert_eq!(WORK_INTERVAL_MS, 100);
    assert_eq!(client.do_work(true), WorkStep::Stop);
    assert_eq!(client.handle(), 9);
}
