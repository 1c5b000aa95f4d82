//! The course of a client's connection: when reading goes on, when it ends, and
//! what is noted of it.

use crate::launch;
use crate::launch::{Endpoint, restart_error};
use crate::relay;
use crate::relay::{is_normal_client_disconnect, is_timeout_error};
use crate::server::{ServerView, WaylandProxyServer};
use crate::session::WaylandClientId;
use crate::text;
use crate::text::{append_decimal, str_contains};
use vstd::prelude::*;
use vstd::string::*;

verus! {

/// What follows when nothing could be read from a client.
#[derive(Debug, PartialEq, Eq)]
pub enum ClientCourse {
    /// Reading is tried again.
    Continue,
    /// The client left; this is what is said of it.
    Left(String),
    /// The connection failed.
    Failed(String),
}

/// The value of what follows.
#[verifier::ext_equal]
pub enum CourseView {
    Continue,
    Left(Seq<char>),
    Failed(Seq<char>),
}

impl View for ClientCourse {
    type V = CourseView;

    open spec fn view(&self) -> CourseView {
        match self {
            ClientCourse::Continue => CourseView::Continue,
            ClientCourse::Left(detail) => CourseView::Left(detail@),
            ClientCourse::Failed(error) => CourseView::Failed(error@),
        }
    }
}

/// What follows when nothing could be read from the backend of a client.
#[derive(Debug, Clone, Copy, PartialEq, Eq, Structural)]
pub enum RelayCourse {
    /// Reading is tried again after a pause.
    Pause,
    /// Nothing is passed on any more.
    Stop,
}

/// A message about a client.
pub open spec fn about_client(client_id: u64, what: Seq<char>, error: Seq<char>) -> Seq<char> {
    "client "@ + text::decimal(client_id as nat) + what + error
}

/// What follows when nothing could be read from a client.
pub open spec fn client_course(error: Seq<char>) -> CourseView {
    if relay::says_timeout(error) {
        CourseView::Continue
    } else if relay::says_disconnect(error) {
        CourseView::Left(error)
    } else {
        CourseView::Failed(error)
    }
}

/// What is said of a connection that ended.
pub open spec fn close_detail(course: CourseView) -> Seq<char> {
    match course {
        CourseView::Left(detail) => detail,
        CourseView::Failed(error) => "session error: "@ + error,
        CourseView::Continue => "client closed its Wayland connection"@,
    }
}

impl ServerView {
    /// The proxy after nothing could be read from a client.
    pub open spec fn client_read_failed(self, client_id: u64, error: Seq<char>) -> Self {
        if client_course(error) is Failed {
            self.with_error(about_client(client_id, " read failed: "@, error))
        } else {
            self
        }
    }

    /// The proxy after nothing could be read from the backend of a client.
    pub open spec fn relay_read_failed(self, client_id: u64, error: Seq<char>) -> Self {
        if relay::says_timeout(error) || text::occurs_in(
            "backend Wayland stream reached EOF"@,
            error,
        ) {
            self
        } else {
            self.with_error(about_client(client_id, " backend read failed: "@, error))
        }
    }

    /// The proxy after an event could not be passed on to a client.
    pub open spec fn relay_send_failed(self, client_id: u64, error: Seq<char>) -> Self {
        if relay::says_disconnect(error) {
            self
        } else {
            self.with_error(about_client(client_id, " backend event forward failed: "@, error))
        }
    }

    /// The proxy after the connection of a client ended with an error.
    pub open spec fn client_exited(self, error: Seq<char>) -> Self {
        if relay::says_disconnect(error) {
            self
        } else {
            self.with_error("Wayland proxy client exited: "@ + error)
        }
    }
}

/// A client that leaves, or that is silent for a while, leaves no error behind.
pub proof fn leaving_is_no_error(server: ServerView, client_id: u64, error: Seq<char>)
    ensures
        relay::says_disconnect(error) ==> server.client_exited(error) == server
            && server.relay_send_failed(client_id, error) == server && server.client_read_failed(
            client_id,
            error,
        ) == server,
        relay::says_timeout(error) ==> server.client_read_failed(client_id, error) == server
            && server.relay_read_failed(client_id, error) == server,
{
}

fn client_message(client_id: WaylandClientId, what: &str, error: &str) -> (message: String)
    ensures
        message@ == about_client(client_id.0, what@, error@),
{
    let mut message = "client ".to_owned();
    append_decimal(&mut message, client_id.0);
    message.append(what);
    message.append(error);
    message
}

/// What is said of a connection that ended.
pub fn closing_detail(course: &ClientCourse) -> (detail: String)
    ensures
        detail@ == close_detail(course@),
{
    match course {
        ClientCourse::Left(detail) => detail.clone(),
        ClientCourse::Failed(error) => {
            let mut detail = "session error: ".to_owned();
            detail.append(error.as_str());
            detail
        },
        ClientCourse::Continue => "client closed its Wayland connection".to_owned(),
    }
}

impl WaylandProxyServer {
    /// Says what follows when nothing could be read from a client, and notes an
    /// error if it is one.
    pub fn note_client_read(&mut self, client_id: WaylandClientId, error: String) -> (course:
        ClientCourse)
        ensures
            course@ == client_course(error@),
            final(self)@ == old(self)@.client_read_failed(client_id.0, error@),
    {
        if is_timeout_error(error.as_str()) {
            return ClientCourse::Continue;
        }
        if is_normal_client_disconnect(error.as_str()) {
            return ClientCourse::Left(error);
        }
        self.note_runtime_error(client_message(client_id, " read failed: ", error.as_str()));
        ClientCourse::Failed(error)
    }

    /// Notes that a request of a client could not be taken.
    pub fn note_ingest_failure(&mut self, client_id: WaylandClientId, error: &str)
        ensures
            final(self)@ == old(self)@.with_error(
                about_client(client_id.0, " request ingest failed: "@, error@),
            ),
    {
        self.note_runtime_error(client_message(client_id, " request ingest failed: ", error));
    }

    /// Notes that passing on the events of a client's backend broke down.
    pub fn note_relay_panic(&mut self, client_id: WaylandClientId)
        ensures
            final(self)@ == old(self)@.with_error(
                about_client(
                    client_id.0,
                    " backend relay thread panicked during shutdown"@,
                    ""@,
                ),
            ),
    {
        self.note_runtime_error(
            client_message(client_id, " backend relay thread panicked during shutdown", ""),
        );
    }

    /// Says what follows when nothing could be read from the backend of a client,
    /// and notes an error if it is one. `stopping` tells whether the connection
    /// of the client has ended.
    pub fn note_relay_read(&mut self, client_id: WaylandClientId, error: &str, stopping: bool) -> (
    course: RelayCourse)
        ensures
            course == if relay::says_timeout(error@) && !stopping {
                RelayCourse::Pause
            } else {
                RelayCourse::Stop
            },
            final(self)@ == old(self)@.relay_read_failed(client_id.0, error@),
    {
        if is_timeout_error(error) {
            return if stopping {
                RelayCourse::Stop
            } else {
                RelayCourse::Pause
            };
        }
        if !str_contains(error, "backend Wayland stream reached EOF") {
            self.note_runtime_error(client_message(client_id, " backend read failed: ", error));
        }
        RelayCourse::Stop
    }

    /// Notes that an event of a client's backend could not be taken.
    pub fn note_relay_tracking(&mut self, client_id: WaylandClientId, error: &str)
        ensures
            final(self)@ == old(self)@.with_error(
                about_client(client_id.0, " backend event tracking failed: "@, error@),
            ),
    {
        self.note_runtime_error(
            client_message(client_id, " backend event tracking failed: ", error),
        );
    }

    /// Notes that an event could not be passed on to a client, unless the client
    /// left.
    pub fn note_relay_send(&mut self, client_id: WaylandClientId, error: &str)
        ensures
            final(self)@ == old(self)@.relay_send_failed(client_id.0, error@),
    {
        if !is_normal_client_disconnect(error) {
            self.note_runtime_error(
                client_message(client_id, " backend event forward failed: ", error),
            );
        }
    }

    /// Notes that the connection of a client ended with an error, unless the client
    /// left.
    pub fn note_client_exit(&mut self, error: &str)
        ensures
            final(self)@ == old(self)@.client_exited(error@),
    {
        if !is_normal_client_disconnect(error) {
            let mut message = "Wayland proxy client exited: ".to_owned();
            message.append(error);
            self.note_runtime_error(message);
        }
    }
}

/// Whether an endpoint is there and can be connected to.
pub fn endpoint_is_live(endpoint: &Option<Endpoint>) -> (live: bool)
    ensures
        live == (launch::optional_endpoint(*endpoint) matches Some(found) && found.error() is None),
{
    match endpoint {
        Some(found) => found.availability_error().is_none(),
        None => false,
    }
}

/// Why a new endpoint does not take the place of an old one, if it does not.
pub open spec fn replacement_error(
    old_endpoint: Option<launch::EndpointView>,
    new_endpoint: Result<launch::EndpointView, Seq<char>>,
) -> Option<Seq<char>> {
    match new_endpoint {
        Ok(endpoint) => endpoint.error(),
        Err(error) => Some(
            launch::restart_text(
                match old_endpoint {
                    Some(earlier) => earlier.error(),
                    None => None,
                },
                error,
            ),
        ),
    }
}

/// Says whether a new endpoint takes the place of an old one: not if it could not be
/// set up, and not if nobody can connect to it.
pub fn replace_endpoint(old_endpoint: &Option<Endpoint>, new_endpoint: Result<&Endpoint, String>) -> (
error: Option<String>)
    ensures
        text::optional(error) == replacement_error(
            launch::optional_endpoint(*old_endpoint),
            match new_endpoint {
                Ok(endpoint) => Ok(endpoint@),
                Err(message) => Err(message@),
            },
        ),
{
    match new_endpoint {
        Ok(endpoint) => endpoint.availability_error(),
        Err(message) => {
            let previous = match old_endpoint {
                Some(earlier) => earlier.availability_error(),
                None => None,
            };
            Some(restart_error(previous, message))
        },
    }
}

} // verus!
