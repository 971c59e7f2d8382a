//! The module client: one connection to the broker, the events that the
//! transport's callbacks turn into, and the decisions taken around each
//! transport operation.

use vstd::prelude::*;
use vstd::utf8::valid_utf8;
use crate::guard::InitGuard;
use crate::json::{is_json_text, parse_json};
use crate::message::{body_of_payload, release_count, utf8_to_string, ContentType, IotHubMessage, MessageModel, Ownership};

verus! {

/// An event delivered to the application: exactly one per callback.
#[derive(Debug)]
pub enum IotHubModuleEvent {
    /// An inbound message, lent by the transport for the callback's duration.
    Message(IotHubMessage),
    /// An update of the twin document.
    Twin(serde_json::Value),
}

/// Why a twin update could not be turned into an event.
#[derive(PartialEq, Eq, Structural, Clone, Copy, Debug)]
pub enum TwinError {
    /// The payload is not valid UTF-8.
    InvalidUtf8,
    /// The payload is UTF-8 but not a JSON document.
    InvalidJson,
}

/// The application's handler refused an event.
#[derive(PartialEq, Eq, Structural, Clone, Copy, Debug)]
pub struct HandlerError;

/// The outcome reported back to the transport for an inbound message.
#[derive(PartialEq, Eq, Structural, Clone, Copy, Debug)]
pub enum Disposition {
    Accepted,
    Rejected,
}

/// The status with which the transport answers an operation.
#[derive(PartialEq, Eq, Structural, Clone, Copy, Debug)]
pub enum ClientResult {
    Success,
    InvalidArg,
    Error,
    InvalidSize,
    IndefiniteTime,
}

/// A send that the transport did not queue.
#[derive(PartialEq, Eq, Structural, Clone, Copy, Debug)]
pub struct SendError;

/// Why a client could not be set up.
#[derive(PartialEq, Eq, Structural, Clone, Copy, Debug)]
pub enum SetupError {
    /// The transport gave a null connection handle.
    NullHandle,
    /// The input-message callback could not be registered.
    InputCallback,
    /// The twin-update callback could not be registered.
    TwinCallback,
}

/// The application's receiver of module events.
pub trait ModuleEventHandler {
    /// Handles one event; an error marks an inbound message as rejected.
    fn on_event(&mut self, event: IotHubModuleEvent) -> Result<(), HandlerError>;
}

/// The logical channel that outbound messages go to.
pub fn output_channel() -> (r: &'static str)
    ensures
        r@ == "output"@,
{
    "output"
}

/// The logical channel that inbound messages come from.
pub fn input_channel() -> (r: &'static str)
    ensures
        r@ == "input"@,
{
    "input"
}

/// The pause between two ticks of the work loop, in milliseconds.
pub const WORK_INTERVAL_MS: u64 = 100;

/// The outcome owed for a handler's result: accept on success, reject on error.
pub open spec fn disposition_of(outcome: Result<(), HandlerError>) -> Disposition {
    match outcome {
        Ok(_) => Disposition::Accepted,
        Err(_) => Disposition::Rejected,
    }
}

/// Maps a handler's result to the outcome reported to the transport.
pub fn disposition(outcome: &Result<(), HandlerError>) -> (r: Disposition)
    ensures
        r == disposition_of(*outcome),
{
    match outcome {
        Ok(_) => Disposition::Accepted,
        Err(_) => Disposition::Rejected,
    }
}

/// The error, if any, with which a twin payload is refused.
pub open spec fn twin_error_of(payload: Seq<u8>) -> Option<TwinError> {
    if !valid_utf8(payload) {
        Some(TwinError::InvalidUtf8)
    } else if !is_json_text(payload) {
        Some(TwinError::InvalidJson)
    } else {
        None
    }
}

/// Turns a twin payload into a `Twin` event, or says why it cannot be one.
pub fn twin_event(payload: &[u8]) -> (r: Result<IotHubModuleEvent, TwinError>)
    ensures
        match twin_error_of(payload@) {
            Some(e) => r == Err::<IotHubModuleEvent, TwinError>(e),
            None => r matches Ok(IotHubModuleEvent::Twin(_)),
        },
{
    if utf8_to_string(payload).is_none() {
        return Err(TwinError::InvalidUtf8);
    }
    match parse_json(payload) {
        Ok(v) => Ok(IotHubModuleEvent::Twin(v)),
        Err(_) => Err(TwinError::InvalidJson),
    }
}

/// Turns an inbound native message into a `Message` event that borrows it.
pub fn message_event(handle: u64, content: ContentType, raw: Vec<u8>) -> (r: IotHubModuleEvent)
    ensures
        match r {
            IotHubModuleEvent::Message(m) => m@ == (MessageModel {
                handle,
                own: Ownership::Borrowed,
                body: body_of_payload(content, raw@),
            }),
            IotHubModuleEvent::Twin(_) => false,
        },
{
    IotHubModuleEvent::Message(IotHubMessage::from_handle(handle, content, raw))
}

/// Where the setup of a connection stands.
#[derive(PartialEq, Eq, Structural, Clone, Copy, Debug)]
pub enum SetupState {
    /// Nothing has been done yet.
    Start,
    /// The connection has been asked for.
    Connecting,
    /// The input-message callback is being registered on the connection.
    RegisteringInput(u64),
    /// The twin-update callback is being registered on the connection.
    RegisteringTwin(u64),
    /// The connection is live with both callbacks registered.
    Ready(u64),
    /// Setup failed; the client is unusable.
    Failed(SetupError),
}

/// What the transport answered to the last setup action.
#[derive(PartialEq, Eq, Structural, Clone, Copy, Debug)]
pub enum SetupEvent {
    /// The application asks for a client.
    Begin,
    /// The connection was created; `0` stands for a null handle.
    Created(u64),
    /// A callback registration was answered.
    Registered(ClientResult),
}

/// What the application performs next on the transport during setup.
#[derive(PartialEq, Eq, Structural, Clone, Copy, Debug)]
pub enum SetupAction {
    /// Create a connection from the environment, after running the global
    /// initialisation if `init_first`.
    Connect { init_first: bool },
    /// Register the input-message callback on the input channel.
    RegisterInput { handle: u64 },
    /// Register the twin-update callback.
    RegisterTwin { handle: u64 },
    /// Setup is complete; the client on `handle` is ready.
    Finish { handle: u64 },
    /// Setup failed fatally.
    Abort(SetupError),
    /// The event does not belong to the current state; nothing to do.
    Ignore,
}

/// Handles stored in a setup state are never null.
pub open spec fn setup_wf(state: SetupState) -> bool {
    match state {
        SetupState::RegisteringInput(h) => h != 0,
        SetupState::RegisteringTwin(h) => h != 0,
        SetupState::Ready(h) => h != 0,
        _ => true,
    }
}

/// One step of setup from `state` on `event`, with the guard in state
/// `initialized`: the next state and the action to perform.
pub open spec fn setup_next(state: SetupState, initialized: bool, event: SetupEvent) -> (SetupState, SetupAction) {
    match (state, event) {
        (SetupState::Start, SetupEvent::Begin) => (
            SetupState::Connecting,
            SetupAction::Connect { init_first: !initialized },
        ),
        (SetupState::Connecting, SetupEvent::Created(h)) => if h == 0 {
            (SetupState::Failed(SetupError::NullHandle), SetupAction::Abort(SetupError::NullHandle))
        } else {
            (SetupState::RegisteringInput(h), SetupAction::RegisterInput { handle: h })
        },
        (SetupState::RegisteringInput(h), SetupEvent::Registered(res)) => if res == ClientResult::Success {
            (SetupState::RegisteringTwin(h), SetupAction::RegisterTwin { handle: h })
        } else {
            (SetupState::Failed(SetupError::InputCallback), SetupAction::Abort(SetupError::InputCallback))
        },
        (SetupState::RegisteringTwin(h), SetupEvent::Registered(res)) => if res == ClientResult::Success {
            (SetupState::Ready(h), SetupAction::Finish { handle: h })
        } else {
            (SetupState::Failed(SetupError::TwinCallback), SetupAction::Abort(SetupError::TwinCallback))
        },
        _ => (state, SetupAction::Ignore),
    }
}

/// Decides the next setup action. The guard is consulted only when the
/// connection is asked for, so the global initialisation always comes first.
pub fn setup_step(state: SetupState, guard: &mut InitGuard, event: SetupEvent) -> (r: (SetupState, SetupAction))
    requires
        setup_wf(state),
    ensures
        r == setup_next(state, old(guard).initialized_spec(), event),
        setup_wf(r.0),
        final(guard).initialized_spec() == (old(guard).initialized_spec() || r.1 is Connect),
        r.1 is Connect ==> state == SetupState::Start && final(guard).initialized_spec(),
{
    match (state, event) {
        (SetupState::Start, SetupEvent::Begin) => {
            let run = guard.ensure_initialized();
            (SetupState::Connecting, SetupAction::Connect { init_first: run })
        },
        (SetupState::Connecting, SetupEvent::Created(h)) => {
            if h == 0 {
                (SetupState::Failed(SetupError::NullHandle), SetupAction::Abort(SetupError::NullHandle))
            } else {
                (SetupState::RegisteringInput(h), SetupAction::RegisterInput { handle: h })
            }
        },
        (SetupState::RegisteringInput(h), SetupEvent::Registered(res)) => {
            if res == ClientResult::Success {
                (SetupState::RegisteringTwin(h), SetupAction::RegisterTwin { handle: h })
            } else {
                (SetupState::Failed(SetupError::InputCallback), SetupAction::Abort(SetupError::InputCallback))
            }
        },
        (SetupState::RegisteringTwin(h), SetupEvent::Registered(res)) => {
            if res == ClientResult::Success {
                (SetupState::Ready(h), SetupAction::Finish { handle: h })
            } else {
                (SetupState::Failed(SetupError::TwinCallback), SetupAction::Abort(SetupError::TwinCallback))
            }
        },
        _ => (state, SetupAction::Ignore),
    }
}

/// A send handed to the transport: the message goes asynchronously to
/// `channel` on `connection`. The request holds the message, so it is released
/// once, by whoever ends the request's life.
#[derive(Debug)]
pub struct SendRequest {
    pub connection: u64,
    pub message: IotHubMessage,
    pub channel: &'static str,
}

/// What the work loop does next.
#[derive(PartialEq, Eq, Structural, Clone, Copy, Debug)]
pub enum WorkStep {
    /// Run one tick of the transport on `handle`, then sleep `sleep_ms`.
    Tick { handle: u64, sleep_ms: u64 },
    /// Leave the loop.
    Stop,
}

/// The result of a send, from the transport's answer to queuing it: `Ok`
/// exactly when it was queued. Delivery is not reported here.
pub open spec fn send_result_of(status: ClientResult) -> Result<(), SendError> {
    if status == ClientResult::Success {
        Ok(())
    } else {
        Err(SendError)
    }
}

/// One connection to the broker, exclusively owned, and the handler that its
/// events go to for the client's whole life.
pub struct IotHubModuleClient<H: ModuleEventHandler> {
    handle: u64,
    callback: H,
}

impl<H: ModuleEventHandler> IotHubModuleClient<H> {
    /// The connection handle.
    pub closed spec fn connection(&self) -> u64 {
        self.handle
    }

    /// A client on the live connection `handle`, delivering to `callback`.
    /// A null handle cannot make a client.
    pub fn new(handle: u64, callback: H) -> (r: Self)
        requires
            handle != 0,
        ensures
            r.connection() == handle,
    {
        IotHubModuleClient { handle, callback }
    }

    /// The connection handle, for registering callbacks and running ticks.
    pub fn handle(&self) -> (r: u64)
        ensures
            r == self.connection(),
    {
        self.handle
    }

    /// The handler that events go to.
    pub closed spec fn event_handler(&self) -> H {
        self.callback
    }

    /// The handler, for reading what it has gathered.
    pub fn handler(&self) -> (r: &H)
        ensures
            *r == self.event_handler(),
    {
        &self.callback
    }

    /// What the transport's input-message callback does: wraps the lent
    /// native message, delivers it, and reports the handler's outcome.
    pub fn on_input_message(&mut self, handle: u64, content: ContentType, raw: Vec<u8>) -> (r: Disposition)
        ensures
            final(self).connection() == old(self).connection(),
    {
        let outcome = self.callback.on_event(message_event(handle, content, raw));
        disposition(&outcome)
    }

    /// What the transport's twin-update callback does: parses the payload and
    /// delivers the document. A payload that is no JSON document is reported,
    /// and nothing is delivered.
    pub fn twin_callback(&mut self, payload: &[u8]) -> (r: Result<(), TwinError>)
        ensures
            final(self).connection() == old(self).connection(),
            match twin_error_of(payload@) {
                Some(e) => r == Err::<(), TwinError>(e),
                None => r is Ok,
            },
            twin_error_of(payload@) is Some ==> final(self).event_handler() == old(self).event_handler(),
    {
        match twin_event(payload) {
            Ok(event) => {
                let _ = self.callback.on_event(event);
                Ok(())
            },
            Err(e) => Err(e),
        }
    }

    /// Prepares the asynchronous send of `message` to the output channel of
    /// this client's connection.
    pub fn send_message(&self, message: IotHubMessage) -> (r: SendRequest)
        ensures
            r.connection == self.connection(),
            r.message@ == message@,
            r.channel@ == "output"@,
    {
        SendRequest { connection: self.handle, message, channel: output_channel() }
    }

    /// The result of a send from the transport's answer to queuing it.
    pub fn send_result(status: ClientResult) -> (r: Result<(), SendError>)
        ensures
            r == send_result_of(status),
    {
        if status == ClientResult::Success {
            Ok(())
        } else {
            Err(SendError)
        }
    }

    /// The next step of the work loop: a tick followed by the fixed pause,
    /// unless a stop was asked for.
    pub fn do_work(&self, stop_requested: bool) -> (r: WorkStep)
        ensures
            r == (if stop_requested {
                WorkStep::Stop
            } else {
                WorkStep::Tick { handle: self.connection(), sleep_ms: WORK_INTERVAL_MS }
            }),
    {
        if stop_requested {
            WorkStep::Stop
        } else {
            WorkStep::Tick { handle: self.handle, sleep_ms: WORK_INTERVAL_MS }
        }
    }

    /// Ends the client: the connection handle to destroy, which must be
    /// destroyed before the client's memory is freed.
    pub fn teardown(self) -> (r: u64)
        ensures
            r == self.connection(),
    {
        self.handle
    }
}

/// A send is `Ok` exactly when the transport queued the message, and a failure
/// to queue is an error, not a fault. Either way the message travels in the
/// request unchanged, so its buffer is released at most once.
pub proof fn lemma_send_outcome(status: ClientResult, message: MessageModel, sent: MessageModel)
    requires
        sent == message,
    ensures
        send_result_of(status) is Ok <==> status == ClientResult::Success,
        send_result_of(status) is Err <==> status != ClientResult::Success,
        release_count(sent) == release_count(message),
        release_count(sent) <= 1,
{
}

} // verus!
