//! One watch invocation: the directive handed to the request builder, the
//! query it yields, and the classification of the response that decides
//! between streaming, resynchronizing and giving up on this cycle.

use vstd::prelude::*;
use crate::client::Client;
use crate::resource_version::{State, opt_string_view};

verus! {

/// The HTTP status of a successful watch response.
pub const STATUS_OK: u16 = 200;

/// The HTTP status of a cursor whose history the server has evicted.
pub const STATUS_GONE: u16 = 410;

/// Errors of one invocation.
#[derive(Debug, Clone, PartialEq, Eq, Structural)]
pub enum Error {
    /// The request builder could not produce a request.
    RequestPreparation,
    /// The transport could not perform the request.
    Request,
    /// The response has a status other than success.
    BadStatus { status: u16 },
}

/// How an invocation failed, as the caller must react to it.
#[derive(Debug, Clone, PartialEq, Eq, Structural)]
pub enum InvocationError {
    /// The cursor can no longer be resumed: reset it and resynchronize.
    Desync { source: Error },
    /// Any other failure: the same cursor may be retried.
    Other { source: Error },
}

/// An invocation error that is not a desync is another failure.
impl From<Error> for InvocationError {
    fn from(source: Error) -> (r: InvocationError)
        ensures
            r == (InvocationError::Other { source }),
    {
        InvocationError::Other { source }
    }
}

impl vstd::std_specs::convert::FromSpecImpl<Error> for InvocationError {
    open spec fn obeys_from_spec() -> bool {
        true
    }

    open spec fn from_spec(source: Error) -> InvocationError {
        InvocationError::Other { source }
    }
}

/// What the status of a response means for the invocation.
pub open spec fn status_outcome(status: u16) -> Result<(), InvocationError> {
    if status == STATUS_OK {
        Ok(())
    } else if status == STATUS_GONE {
        Err(InvocationError::Desync { source: Error::BadStatus { status } })
    } else {
        Err(InvocationError::Other { source: Error::BadStatus { status } })
    }
}

/// Classifies the status of a watch response: success streams the body,
/// `410 Gone` is a desync, anything else another failure carrying the status.
pub fn classify_status(status: u16) -> (r: Result<(), InvocationError>)
    ensures
        r == status_outcome(status),
{
    if status == STATUS_OK {
        Ok(())
    } else if status == STATUS_GONE {
        Err(InvocationError::Desync { source: Error::BadStatus { status } })
    } else {
        Err(InvocationError::Other { source: Error::BadStatus { status } })
    }
}

/// The directive handed to the request builder: continue from this cursor,
/// or from now where there is none.
#[derive(Debug, Clone)]
pub struct WatchOptional {
    pub resource_version: Option<String>,
}

/// The name and value of each query parameter of a watch request, in order.
pub open spec fn query_spec(resource_version: Option<Seq<char>>) -> Seq<(Seq<char>, Seq<char>)> {
    match resource_version {
        Some(v) => seq![("resourceVersion"@, v), ("watch"@, "true"@)],
        None => seq![("watch"@, "true"@)],
    }
}

/// The views of a list of query parameters.
pub open spec fn params_view(p: Seq<(String, String)>) -> Seq<(Seq<char>, Seq<char>)> {
    p.map_values(|q: (String, String)| (q.0@, q.1@))
}

impl WatchOptional {
    /// The directive for the current cursor.
    pub fn from_state(state: &State) -> (r: Self)
        ensures
            opt_string_view(r.resource_version) == state@,
    {
        match state.get() {
            Some(v) => WatchOptional { resource_version: Some(v.to_owned()) },
            None => WatchOptional { resource_version: None },
        }
    }

    /// The query parameters of the watch request: the cursor verbatim where
    /// there is one, and the watch flag.
    pub fn query_pairs(&self) -> (r: Vec<(String, String)>)
        ensures
            params_view(r@) == query_spec(opt_string_view(self.resource_version)),
    {
        let mut r: Vec<(String, String)> = Vec::new();
        match &self.resource_version {
            Some(v) => {
                r.push(("resourceVersion".to_owned(), v.clone()));
            },
            None => {},
        }
        r.push(("watch".to_owned(), "true".to_owned()));
        assert(params_view(r@) =~= query_spec(opt_string_view(self.resource_version)));
        r
    }
}

/// The phases of one invocation. Sending the request and reading the status
/// of its response are one step: the transport reports either.
#[derive(Debug, Clone, PartialEq, Eq, Structural)]
pub enum Phase {
    Idle,
    RequestBuilt,
    Streaming,
    Failed { error: InvocationError },
}

/// What the outside world reports back to an invocation.
#[derive(Debug, Clone, Copy, PartialEq, Eq, Structural)]
pub enum InvocationEvent {
    /// The request builder produced a request.
    RequestPrepared,
    /// The request builder failed.
    RequestPreparationFailed,
    /// The transport returned a response with this status.
    ResponseReceived { status: u16 },
    /// The transport failed.
    RequestFailed,
}

/// The phase that follows an event; an event that does not belong to the
/// current phase leaves it unchanged.
pub open spec fn transition(phase: Phase, event: InvocationEvent) -> Phase {
    match (phase, event) {
        (Phase::Idle, InvocationEvent::RequestPrepared) => Phase::RequestBuilt,
        (Phase::Idle, InvocationEvent::RequestPreparationFailed) => Phase::Failed {
            error: InvocationError::Other { source: Error::RequestPreparation },
        },
        (Phase::RequestBuilt, InvocationEvent::ResponseReceived { status }) => match status_outcome(status) {
            Ok(()) => Phase::Streaming,
            Err(error) => Phase::Failed { error },
        },
        (Phase::RequestBuilt, InvocationEvent::RequestFailed) => Phase::Failed {
            error: InvocationError::Other { source: Error::Request },
        },
        _ => phase,
    }
}

impl Phase {
    /// Advances the invocation by one reported event.
    pub fn step(self, event: InvocationEvent) -> (r: Phase)
        ensures
            r == transition(self, event),
    {
        match (self, event) {
            (Phase::Idle, InvocationEvent::RequestPrepared) => Phase::RequestBuilt,
            (Phase::Idle, InvocationEvent::RequestPreparationFailed) => Phase::Failed {
                error: InvocationError::from(Error::RequestPreparation),
            },
            (Phase::RequestBuilt, InvocationEvent::ResponseReceived { status }) => match classify_status(status) {
                Ok(()) => Phase::Streaming,
                Err(error) => Phase::Failed { error },
            },
            (Phase::RequestBuilt, InvocationEvent::RequestFailed) => Phase::Failed {
                error: InvocationError::from(Error::Request),
            },
            (phase, _) => phase,
        }
    }
}

/// A response of status `410 Gone` ends the invocation in a desync, whatever
/// else the response holds.
pub proof fn lemma_gone_is_desync(status: u16)
    requires
        status == STATUS_GONE,
    ensures
        transition(Phase::RequestBuilt, InvocationEvent::ResponseReceived { status })
            == (Phase::Failed { error: InvocationError::Desync { source: Error::BadStatus { status } } }),
{
}

/// A response whose status is neither success nor `410 Gone` ends the
/// invocation in another failure that carries the status.
pub proof fn lemma_bad_status_is_other(status: u16)
    requires
        status != STATUS_OK,
        status != STATUS_GONE,
    ensures
        transition(Phase::RequestBuilt, InvocationEvent::ResponseReceived { status })
            == (Phase::Failed { error: InvocationError::Other { source: Error::BadStatus { status } } }),
{
}

/// The query of a watch request holds a resource-version parameter exactly
/// when there is a cursor, and its value is then the cursor verbatim.
pub proof fn lemma_cursor_in_query(cursor: Option<Seq<char>>)
    ensures
        (exists|i: int| 0 <= i < query_spec(cursor).len() && #[trigger] query_spec(cursor)[i].0 == "resourceVersion"@)
            <==> cursor is Some,
        forall|i: int| 0 <= i < query_spec(cursor).len() && #[trigger] query_spec(cursor)[i].0 == "resourceVersion"@
            ==> query_spec(cursor)[i].1 == cursor->0,
{
    reveal_strlit("resourceVersion");
    reveal_strlit("watch");
    assert("watch"@[0] != "resourceVersion"@[0]);
    if cursor is Some {
        assert(query_spec(cursor)[0].0 == "resourceVersion"@);
    }
}

/// A watcher atop the API client.
#[derive(Debug)]
pub struct ApiWatcher<B> {
    client: Client,
    request_builder: B,
}

impl<B> ApiWatcher<B> {
    /// A watcher that sends through `client` the requests of `request_builder`.
    pub fn new(client: Client, request_builder: B) -> (r: Self)
        ensures
            r.client_spec() == client,
            r.request_builder_spec() == request_builder,
    {
        ApiWatcher { client, request_builder }
    }

    /// The client requests go through.
    pub closed spec fn client_spec(&self) -> Client {
        self.client
    }

    /// The builder of the watch requests.
    pub closed spec fn request_builder_spec(&self) -> B {
        self.request_builder
    }

    /// The client requests go through.
    pub fn client(&self) -> (r: &Client)
        ensures
            *r == self.client_spec(),
    {
        &self.client
    }

    /// The builder of the watch requests.
    pub fn request_builder(&self) -> (r: &B)
        ensures
            *r == self.request_builder_spec(),
    {
        &self.request_builder
    }
}

} // verus!
