//! The exporter: what it answers, and what it does when listening goes
//! wrong.
//!
//! Every connection gets the same head and the snapshot of the metrics as
//! they stand when it is served. Binding, accepting and writing are done by
//! the caller, who reports what happened and is told what to do next.

use vstd::prelude::*;
use vstd::string::StringExecFns;
use vstd::utf8::encode_utf8;

verus! {

/// The head of every response: the status line, the type of the content, and
/// the empty line that ends the head.
pub open spec fn head_of(content_type: Seq<char>) -> Seq<char> {
    "HTTP/1.1 200 OK\r\nContent-Type: "@ + content_type + "\r\n\r\n"@
}

/// The head of every response, for a body of the given type.
pub fn headers(content_type: &str) -> (head: String)
    ensures
        head@ == head_of(content_type@),
{
    let mut head = String::from_str("HTTP/1.1 200 OK\r\nContent-Type: ");
    head.append(content_type);
    head.append("\r\n\r\n");
    head
}

/// What is written to a connection before it is closed: the head, then the
/// snapshot, byte for byte. The request is not looked at: whatever was asked
/// for, the answer is the metrics.
pub fn handle_connection(content_type: &str, snapshot: &[u8]) -> (response: Vec<u8>)
    ensures
        response@ == encode_utf8(head_of(content_type@)) + snapshot@,
{
    let head = headers(content_type);
    let mut response: Vec<u8> = Vec::new();
    response.extend_from_slice(head.as_str().as_bytes());
    response.extend_from_slice(snapshot);
    response
}

/// Where the exporter stands.
#[derive(Clone, Copy, Debug, PartialEq, Eq, Structural)]
pub enum Exporter {
    /// It has no port yet.
    Starting,
    /// It has its port and takes connections.
    Listening,
    /// It was shut down.
    Stopped,
    /// It could not get its port.
    Failed,
}

/// What the caller met while it did its duty.
#[derive(Clone, Copy, Debug, PartialEq, Eq, Structural)]
pub enum Incident {
    /// The port is bound.
    Bound,
    /// The port could not be bound.
    BindFailed,
    /// A connection came in.
    Accepted,
    /// Accepting a connection failed.
    AcceptFailed,
    /// Shutdown was requested.
    Shutdown,
}

/// What the caller has to do next.
#[derive(Clone, Copy, Debug, PartialEq, Eq, Structural)]
pub enum Duty {
    /// Bind the port.
    Bind,
    /// Wait for the next connection or for shutdown.
    Accept,
    /// Hand the connection that just came in to a handler of its own, and
    /// without waiting for that handler wait for the next connection or for
    /// shutdown.
    Serve,
    /// Take no more connections; handlers that are at work finish.
    Stop,
    /// Give up: without its port the exporter cannot serve.
    Abort,
}

/// The state that follows `state` when `incident` is met, and the duty that
/// comes with it.
///
/// Only a port that cannot be bound is fatal. A connection that cannot be
/// accepted is passed over. Shutdown ends the exporter from either of its
/// working states, and an exporter that has ended stays as it is. An incident
/// that does not belong to the state changes nothing.
pub open spec fn reaction(state: Exporter, incident: Incident) -> (Exporter, Duty) {
    match (state, incident) {
        (Exporter::Stopped, _) => (Exporter::Stopped, Duty::Stop),
        (Exporter::Failed, _) => (Exporter::Failed, Duty::Abort),
        (_, Incident::Shutdown) => (Exporter::Stopped, Duty::Stop),
        (Exporter::Starting, Incident::Bound) => (Exporter::Listening, Duty::Accept),
        (Exporter::Starting, Incident::BindFailed) => (Exporter::Failed, Duty::Abort),
        (Exporter::Starting, _) => (Exporter::Starting, Duty::Bind),
        (Exporter::Listening, Incident::Accepted) => (Exporter::Listening, Duty::Serve),
        (Exporter::Listening, _) => (Exporter::Listening, Duty::Accept),
    }
}

/// One turn of the accept loop: the state after `incident`, and what to do
/// next. The loop starts in [`Exporter::Starting`] with [`Duty::Bind`].
pub fn serve(state: Exporter, incident: Incident) -> (turn: (Exporter, Duty))
    ensures
        turn == reaction(state, incident),
{
    match state {
        Exporter::Stopped => (Exporter::Stopped, Duty::Stop),
        Exporter::Failed => (Exporter::Failed, Duty::Abort),
        Exporter::Starting => match incident {
            Incident::Shutdown => (Exporter::Stopped, Duty::Stop),
            Incident::Bound => (Exporter::Listening, Duty::Accept),
            Incident::BindFailed => (Exporter::Failed, Duty::Abort),
            Incident::Accepted => (Exporter::Starting, Duty::Bind),
            Incident::AcceptFailed => (Exporter::Starting, Duty::Bind),
        },
        Exporter::Listening => match incident {
            Incident::Shutdown => (Exporter::Stopped, Duty::Stop),
            Incident::Accepted => (Exporter::Listening, Duty::Serve),
            Incident::Bound => (Exporter::Listening, Duty::Accept),
            Incident::BindFailed => (Exporter::Listening, Duty::Accept),
            Incident::AcceptFailed => (Exporter::Listening, Duty::Accept),
        },
    }
}

/// No trouble with a connection ends the exporter: while it listens, nothing
/// but shutdown makes it stop, and it never fails.
pub proof fn law_connections_never_end_the_exporter(incident: Incident)
    ensures
        reaction(Exporter::Listening, incident).0 == if incident == Incident::Shutdown {
            Exporter::Stopped
        } else {
            Exporter::Listening
        },
{
}

/// Every connection that comes in is served, and the next one is waited for
/// at once.
pub proof fn law_every_connection_is_served()
    ensures
        reaction(Exporter::Listening, Incident::Accepted) == (Exporter::Listening, Duty::Serve),
{
}

/// The exporter gives up exactly if it cannot bind its port.
pub proof fn law_only_the_port_is_fatal(state: Exporter, incident: Incident)
    requires
        state != Exporter::Failed,
    ensures
        reaction(state, incident).0 == Exporter::Failed <==> state == Exporter::Starting
            && incident == Incident::BindFailed,
{
}

} // verus!
