//! Client-side layer over a cloud message-broker transport: message
//! ownership, process-wide transport initialisation, connection setup and the
//! translation of transport callbacks into module events.

pub mod client;
pub mod guard;
pub mod json;
pub mod message;

pub use client::{
    disposition, input_channel, output_channel, setup_step, twin_event, message_event,
    ClientResult, Disposition, HandlerError, IotHubModuleClient, IotHubModuleEvent,
    ModuleEventHandler, SendError, SendRequest, SetupAction, SetupError, SetupEvent, SetupState,
    TwinError, WorkStep, WORK_INTERVAL_MS,
};
pub use guard::InitGuard;
pub use message::{
    decode_text, BodyModel, ContentType, IotHubMessage, MessageBody, MessageModel, Ownership,
};
