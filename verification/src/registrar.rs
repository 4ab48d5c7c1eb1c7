//! The route-registration protocol against the reverse proxy's admin API.
//!
//! Adding a route for a local port takes two POSTs, strictly in order:
//! first the route descriptor, then the TLS-automation subject for the same
//! address.  Deleting a route takes one DELETE by identifier.  Only
//! transport-level failure (nothing sent, or no response received) counts
//! as failure; any received HTTP response, whatever its status code, counts
//! as success.  The flow types below decide, after each transport outcome,
//! what to send next and what the operation returns; performing the I/O is
//! the caller's business.
//!
//! Deletion is deliberately narrower than addition, for compatibility with
//! the admin API's object-by-id endpoint: it removes the route object only
//! and leaves the TLS-automation subject registered.

use vstd::prelude::*;
use crate::decimal::decimal;
use crate::decimal::push_decimal;
use crate::descriptor::RouteDescriptor;
use crate::descriptor::descriptor_for_port;
use crate::descriptor::descriptor_json;
use crate::descriptor::json_string;
use crate::descriptor::route_id_text;

verus! {

/// The HTTP methods the admin API is driven with.
#[derive(Clone, Copy, Debug, PartialEq, Eq, Structural)]
pub enum Method {
    Post,
    Delete,
}

/// One HTTP header, by name and value.
pub struct Header {
    pub name: String,
    pub value: String,
}

/// A fully built admin-API request: everything the transport needs.
pub struct HttpRequest {
    pub method: Method,
    pub url: String,
    pub headers: Vec<Header>,
    pub body: Option<String>,
}

/// Which phase of an operation could not be carried out at the transport
/// level.
#[derive(Clone, Copy, Debug, PartialEq, Eq, Structural)]
pub enum RegistrarError {
    /// The route-creation POST could not be sent or answered.
    RouteCreationFailed,
    /// The TLS-subject POST could not be sent or answered, after the route
    /// was already created.
    TlsSubjectRegistrationFailed,
    /// The route-deletion DELETE could not be sent or answered.
    RouteDeletionFailed,
}

impl RegistrarError {
    /// A short description of the failed phase, for error reports.
    pub fn describe(&self) -> (m: &'static str)
        ensures
            self is RouteCreationFailed ==> m@ == "route creation failed"@,
            self is TlsSubjectRegistrationFailed ==> m@ == "tls subject registration failed"@,
            self is RouteDeletionFailed ==> m@ == "route deletion failed"@,
    {
        match self {
            RegistrarError::RouteCreationFailed => "route creation failed",
            RegistrarError::TlsSubjectRegistrationFailed => "tls subject registration failed",
            RegistrarError::RouteDeletionFailed => "route deletion failed",
        }
    }
}

/// The admin API's base URL: the proxy's well-known local control address.
pub open spec fn endpoint_text() -> Seq<char> {
    "http://127.0.0.1:2019"@
}

/// Where new routes of server `srv0` are POSTed.
pub open spec fn routes_url_text() -> Seq<char> {
    endpoint_text() + "/config/apps/http/servers/srv0/routes"@
}

/// Where TLS-automation subjects are POSTed.
pub open spec fn tls_subjects_url_text() -> Seq<char> {
    endpoint_text() + "/config/apps/tls/automation/policies/0/subjects"@
}

/// Where the configuration object with identifier `route_id` is DELETEd.
pub open spec fn deletion_url_text(route_id: Seq<char>) -> Seq<char> {
    endpoint_text() + "/id/"@ + route_id
}

/// The TLS-automation subject registered for `port`: the full dial string
/// `127.0.0.1:<port>`, not just the hostname.
pub open spec fn tls_subject_text(port: u32) -> Seq<char> {
    "127.0.0.1:"@ + decimal(port as nat)
}

/// The one header every admin-API request carries.
pub open spec fn json_content_type(headers: Seq<Header>) -> bool {
    &&& headers.len() == 1
    &&& headers[0].name@ == "Content-Type"@
    &&& headers[0].value@ == "application/json"@
}

/// `q` is exactly the POST that creates the route for `port`.
pub open spec fn is_route_creation_request(q: HttpRequest, port: u32) -> bool {
    &&& q.method is Post
    &&& q.url@ == routes_url_text()
    &&& json_content_type(q.headers@)
    &&& q.body matches Some(b) && b@ == descriptor_json(descriptor_for_port(port))
}

/// `q` is exactly the POST that registers the TLS subject for `port`: its
/// body is the JSON string `"127.0.0.1:<port>"`.
pub open spec fn is_tls_subject_request(q: HttpRequest, port: u32) -> bool {
    &&& q.method is Post
    &&& q.url@ == tls_subjects_url_text()
    &&& json_content_type(q.headers@)
    &&& q.body matches Some(b) && b@ == json_string(tls_subject_text(port))
}

/// `q` is exactly the DELETE that removes the object named `route_id`.
pub open spec fn is_route_deletion_request(q: HttpRequest, route_id: Seq<char>) -> bool {
    &&& q.method is Delete
    &&& q.url@ == deletion_url_text(route_id)
    &&& json_content_type(q.headers@)
    &&& q.body is None
}

/// The single `Content-Type: application/json` header.
fn json_headers() -> (hs: Vec<Header>)
    ensures
        json_content_type(hs@),
{
    let mut hs: Vec<Header> = Vec::new();
    hs.push(Header {
        name: String::from_str("Content-Type"),
        value: String::from_str("application/json"),
    });
    hs
}

/// Builds the POST that creates the route for `port`.
pub fn route_creation_request(port: u32) -> (q: HttpRequest)
    ensures
        is_route_creation_request(q, port),
{
    let descriptor = RouteDescriptor::for_port(port);
    let body = descriptor.to_json();
    let mut url = String::from_str("http://127.0.0.1:2019");
    url.append("/config/apps/http/servers/srv0/routes");
    HttpRequest { method: Method::Post, url, headers: json_headers(), body: Some(body) }
}

/// Builds the POST that registers the TLS subject for `port`.
pub fn tls_subject_request(port: u32) -> (q: HttpRequest)
    ensures
        is_tls_subject_request(q, port),
{
    let mut body = String::from_str("\"");
    body.append("127.0.0.1:");
    push_decimal(&mut body, port);
    body.append("\"");
    proof {
        assert(body@ =~= json_string(tls_subject_text(port)));
    }
    let mut url = String::from_str("http://127.0.0.1:2019");
    url.append("/config/apps/tls/automation/policies/0/subjects");
    HttpRequest { method: Method::Post, url, headers: json_headers(), body: Some(body) }
}

/// Builds the DELETE that removes the configuration object named
/// `route_id`.  The identifier is taken as an opaque string, as the admin
/// API does.
pub fn route_deletion_request(route_id: &str) -> (q: HttpRequest)
    ensures
        is_route_deletion_request(q, route_id@),
{
    let mut url = String::from_str("http://127.0.0.1:2019");
    url.append("/id/");
    url.append(route_id);
    proof {
        assert(url@ =~= deletion_url_text(route_id@));
    }
    HttpRequest { method: Method::Delete, url, headers: json_headers(), body: None }
}

/// What deleting a route returns for a given transport outcome: any
/// received response, whatever its status, is success; only a
/// transport-level failure is an error.
pub fn deletion_outcome(delivered: bool) -> (r: Result<(), RegistrarError>)
    ensures
        delivered <==> r is Ok,
        !delivered ==> r == Result::<(), RegistrarError>::Err(RegistrarError::RouteDeletionFailed),
{
    if delivered {
        Ok(())
    } else {
        Err(RegistrarError::RouteDeletionFailed)
    }
}

/// Where an add-route operation stands.
#[derive(Clone, Copy, Debug, PartialEq, Eq, Structural)]
pub enum AddPhase {
    /// The route-creation POST is pending.
    CreatingRoute,
    /// The route was created; the TLS-subject POST is pending.
    RegisteringTlsSubject,
    /// The operation is over, one way or the other.
    Finished,
}

/// The add-route operation for one port, as a step-by-step flow: the
/// caller sends each pending request and reports whether the transport
/// delivered it (received any response at all).  The flow decides what
/// follows; it never retries and fails fast on the first transport
/// failure.
#[derive(Clone, Copy, Debug, PartialEq, Eq, Structural)]
pub struct AddRouteFlow {
    pub port: u32,
    pub phase: AddPhase,
}

impl AddRouteFlow {
    /// A fresh flow, about to create the route for `port`.
    pub open spec fn spec_new(port: u32) -> AddRouteFlow {
        AddRouteFlow { port, phase: AddPhase::CreatingRoute }
    }

    /// The flow's whole transition relation: from a phase and a transport
    /// outcome to the next phase and, once the operation is over, its
    /// result.
    pub open spec fn spec_step(self, delivered: bool) -> (AddRouteFlow, Option<
        Result<(), RegistrarError>,
    >) {
        match self.phase {
            AddPhase::CreatingRoute => {
                if delivered {
                    (AddRouteFlow { port: self.port, phase: AddPhase::RegisteringTlsSubject }, None)
                } else {
                    (
                        AddRouteFlow { port: self.port, phase: AddPhase::Finished },
                        Some(Err(RegistrarError::RouteCreationFailed)),
                    )
                }
            },
            AddPhase::RegisteringTlsSubject => {
                if delivered {
                    (AddRouteFlow { port: self.port, phase: AddPhase::Finished }, Some(Ok(())))
                } else {
                    (
                        AddRouteFlow { port: self.port, phase: AddPhase::Finished },
                        Some(Err(RegistrarError::TlsSubjectRegistrationFailed)),
                    )
                }
            },
            AddPhase::Finished => (self, None),
        }
    }

    /// Starts adding a route for `port`.
    pub fn new(port: u32) -> (f: AddRouteFlow)
        ensures
            f == AddRouteFlow::spec_new(port),
    {
        AddRouteFlow { port, phase: AddPhase::CreatingRoute }
    }

    /// The request to send now, or `None` once the operation is over.
    /// While the flow runs it is exactly the route-creation POST, then
    /// exactly the TLS-subject POST.
    pub fn pending_request(&self) -> (r: Option<HttpRequest>)
        ensures
            (r is Some) <==> !(self.phase is Finished),
            self.phase is CreatingRoute ==> (r matches Some(q)
                && is_route_creation_request(q, self.port)),
            self.phase is RegisteringTlsSubject ==> (r matches Some(q)
                && is_tls_subject_request(q, self.port)),
    {
        match self.phase {
            AddPhase::CreatingRoute => Some(route_creation_request(self.port)),
            AddPhase::RegisteringTlsSubject => Some(tls_subject_request(self.port)),
            AddPhase::Finished => None,
        }
    }

    /// Advances the flow on the transport outcome of the pending request:
    /// `delivered` says whether any response arrived.  Returns the
    /// operation's result once it is decided, `None` while a request is
    /// still pending.  On a finished flow (nothing was pending) it changes
    /// nothing and returns `None`.
    pub fn on_transport_result(&mut self, delivered: bool) -> (r: Option<
        Result<(), RegistrarError>,
    >)
        ensures
            *final(self) == old(self).spec_step(delivered).0,
            r == old(self).spec_step(delivered).1,
    {
        match self.phase {
            AddPhase::CreatingRoute => {
                if delivered {
                    self.phase = AddPhase::RegisteringTlsSubject;
                    None
                } else {
                    self.phase = AddPhase::Finished;
                    Some(Err(RegistrarError::RouteCreationFailed))
                }
            },
            AddPhase::RegisteringTlsSubject => {
                self.phase = AddPhase::Finished;
                if delivered {
                    Some(Ok(()))
                } else {
                    Some(Err(RegistrarError::TlsSubjectRegistrationFailed))
                }
            },
            AddPhase::Finished => None,
        }
    }
}

/// Law: a step never changes which port the flow is about.
pub proof fn lemma_step_preserves_port(f: AddRouteFlow, delivered: bool)
    ensures
        f.spec_step(delivered).0.port == f.port,
{
}

/// Law: a transport failure of the route-creation request is fatal at
/// once.  The operation ends with `RouteCreationFailed`, and the flow is
/// finished, so no request is pending any more: the TLS-subject POST is
/// never attempted.
pub proof fn lemma_route_creation_failure_is_fatal(f: AddRouteFlow)
    requires
        f.phase is CreatingRoute,
    ensures
        f.spec_step(false).1 == Some(Result::<(), RegistrarError>::Err(
            RegistrarError::RouteCreationFailed,
        )),
        f.spec_step(false).0.phase is Finished,
{
}

/// Law: when the route-creation request is delivered and the TLS-subject
/// request then fails at the transport level, exactly those two requests
/// were pending, in that order, and the operation ends with
/// `TlsSubjectRegistrationFailed`.
pub proof fn lemma_tls_registration_failure(f: AddRouteFlow)
    requires
        f.phase is CreatingRoute,
    ensures
        f.spec_step(true).1 is None,
        f.spec_step(true).0.phase is RegisteringTlsSubject,
        f.spec_step(true).0.spec_step(false).1 == Some(Result::<(), RegistrarError>::Err(
            RegistrarError::TlsSubjectRegistrationFailed,
        )),
        f.spec_step(true).0.spec_step(false).0.phase is Finished,
{
}

/// Law: when both requests are delivered, the operation succeeds after
/// exactly the route-creation POST and then the TLS-subject POST, and the
/// flow is finished.
pub proof fn lemma_add_route_success(f: AddRouteFlow)
    requires
        f.phase is CreatingRoute,
    ensures
        f.spec_step(true).1 is None,
        f.spec_step(true).0.phase is RegisteringTlsSubject,
        f.spec_step(true).0.spec_step(true).1 == Some(Result::<(), RegistrarError>::Ok(())),
        f.spec_step(true).0.spec_step(true).0.phase is Finished,
{
}

} // verus!
