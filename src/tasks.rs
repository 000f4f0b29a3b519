use vstd::prelude::*;

use crate::config::{Config, GatewayEndpoint};
use crate::store::ConfigStore;

verus! {

/// Room for this many status events between the engine and the caller before
/// the engine waits.
pub const STATUS_CHANNEL_CAPACITY: usize = 128;

/// Errors of starting a run.
#[derive(Debug, Clone, Copy, PartialEq, Eq, Structural)]
pub enum RunnerError {
    /// No configuration is stored under the identifier.
    ConfigNotFound,
    /// The engine could not be built from the configuration.
    EngineConstructionFailed,
}

/// Commands to a running proxy engine.
#[derive(Debug, Clone, Copy, PartialEq, Eq, Structural)]
pub enum Socks5ControlMessage {
    /// Stop the engine gracefully.
    Stop,
}

/// The error with which a proxy engine ended its run.
#[derive(Debug)]
pub struct EngineError {
    pub message: String,
}

/// How a run of the proxy engine ended.
#[derive(Debug)]
pub enum Socks5ExitStatusMessage {
    /// The engine stopped.
    Stopped,
    /// The engine failed.
    Failed(EngineError),
}

/// What the exit listener reports once a run is over.
#[derive(Debug)]
pub enum ListenerEvent {
    /// The run reported that it stopped.
    Finished,
    /// The run reported this error.
    ReportedError(String),
    /// The run ended without reporting how.
    StoppedAbruptly,
}

#[verifier::external_type_specification]
#[verifier::external_body]
#[verifier::reject_recursive_types(T)]
pub struct ExOneshotSender<T>(futures::channel::oneshot::Sender<T>);

#[verifier::external_type_specification]
#[verifier::external_body]
pub struct ExCanceled(futures::channel::oneshot::Canceled);

#[verifier::external_type_specification]
#[verifier::external_body]
#[verifier::reject_recursive_types(T)]
pub struct ExUnboundedSender<T>(futures::channel::mpsc::UnboundedSender<T>);

/// Relies on futures' `oneshot::Sender::send`: it consumes the sender, and when
/// the receiver is already gone it hands the value back.
#[verifier::external_body]
fn send_exit_status(
    tx: futures::channel::oneshot::Sender<Socks5ExitStatusMessage>,
    msg: Socks5ExitStatusMessage,
) -> (r: Result<(), Socks5ExitStatusMessage>)
    ensures
        r matches Err(m) ==> m == msg,
{
    tx.send(msg)
}

/// Relies on futures' `mpsc::UnboundedSender::unbounded_send`, which never waits:
/// `true` when the message was queued, `false` when the receiver is gone.
#[verifier::external_body]
fn send_control(
    tx: &futures::channel::mpsc::UnboundedSender<Socks5ControlMessage>,
    msg: Socks5ControlMessage,
) -> (r: bool) {
    tx.unbounded_send(msg).is_ok()
}

/// The configuration a run uses and the gateway it connects through: the one
/// stored under `id`.
pub fn load_run_config(store: &ConfigStore, id: &str) -> (r: Result<(Config, GatewayEndpoint), RunnerError>)
    requires
        store.wf(),
    ensures
        r is Ok <==> store@.contains_key(id@),
        r matches Err(e) ==> e == RunnerError::ConfigNotFound,
        r matches Ok((c, g)) ==> c@ == store@[id@] && g@ == store@[id@].base.gateway,
{
    match store.load(id) {
        Some(config) => {
            let used_gateway = config.get_base().get_gateway_endpoint().duplicate();
            Ok((config, used_gateway))
        },
        None => Err(RunnerError::ConfigNotFound),
    }
}

/// The exit status for what the engine's run returned.
pub open spec fn exit_status_of(result: Result<(), EngineError>) -> Socks5ExitStatusMessage {
    match result {
        Ok(()) => Socks5ExitStatusMessage::Stopped,
        Err(e) => Socks5ExitStatusMessage::Failed(e),
    }
}

/// Maps what the engine's run returned to the exit status reported for the run.
pub fn exit_status_for(result: Result<(), EngineError>) -> (r: Socks5ExitStatusMessage)
    ensures
        r == exit_status_of(result),
{
    match result {
        Ok(()) => Socks5ExitStatusMessage::Stopped,
        Err(e) => Socks5ExitStatusMessage::Failed(e),
    }
}

/// Sends the exit status for `result` on the run's one-shot exit channel, which
/// this consumes, so that a run reports at most once. An `Err` holds the status
/// that could not be delivered because nobody listens any more.
pub fn report_exit(
    exit_tx: futures::channel::oneshot::Sender<Socks5ExitStatusMessage>,
    result: Result<(), EngineError>,
) -> (r: Result<(), Socks5ExitStatusMessage>)
    ensures
        r matches Err(m) ==> m == exit_status_of(result),
{
    let status = exit_status_for(result);
    send_exit_status(exit_tx, status)
}

/// The listener's report for what the exit channel yielded: a status, or
/// `Canceled` when the sender was dropped without sending.
pub open spec fn listener_event_of(
    received: Result<Socks5ExitStatusMessage, futures::channel::oneshot::Canceled>,
) -> ListenerEvent {
    match received {
        Ok(Socks5ExitStatusMessage::Stopped) => ListenerEvent::Finished,
        Ok(Socks5ExitStatusMessage::Failed(e)) => ListenerEvent::ReportedError(e.message),
        Err(_) => ListenerEvent::StoppedAbruptly,
    }
}

/// Decides what the exit listener reports for what the exit channel yielded.
pub fn disconnect_event(
    received: Result<Socks5ExitStatusMessage, futures::channel::oneshot::Canceled>,
) -> (r: ListenerEvent)
    ensures
        r == listener_event_of(received),
{
    match received {
        Ok(Socks5ExitStatusMessage::Stopped) => ListenerEvent::Finished,
        Ok(Socks5ExitStatusMessage::Failed(e)) => ListenerEvent::ReportedError(e.message),
        Err(_) => ListenerEvent::StoppedAbruptly,
    }
}

/// Whatever the engine's run returned, once its exit status arrives the listener
/// reports exactly that outcome: `Finished` for a stop, the engine's own error
/// message for a failure, and never an abrupt stop.
pub proof fn lemma_listener_reports_run_outcome(result: Result<(), EngineError>)
    ensures
        result is Ok <==> listener_event_of(Ok(exit_status_of(result))) is Finished,
        result matches Err(e) ==> listener_event_of(Ok(exit_status_of(result)))
            == ListenerEvent::ReportedError(e.message),
        !(listener_event_of(Ok(exit_status_of(result))) is StoppedAbruptly),
{
}

/// Asks the engine to stop. `true` when the request was queued; `false` when the
/// engine's side of the control channel is already gone.
pub fn send_stop(control_tx: &futures::channel::mpsc::UnboundedSender<Socks5ControlMessage>) -> (r: bool) {
    send_control(control_tx, Socks5ControlMessage::Stop)
}

} // verus!
