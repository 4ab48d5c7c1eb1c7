use caddy_admin::decimal::decimal_string;
use caddy_admin::descriptor::RouteDescriptor;
use caddy_admin::descriptor::route_id;
use caddy_admin::registrar::AddRouteFlow;
use caddy_admin::registrar::HttpRequest;
use caddy_admin::registrar::Method;
use caddy_admin::registrar::RegistrarError;
use caddy_admin::registrar::deletion_outcome;
use caddy_admin::registrar::route_creation_request;
use caddy_admin::registrar::route_deletion_request;
use caddy_admin::registrar::tls_subject_request;

/// Drives an add-route flow against a scripted transport: `outcomes[k]`
/// says whether the k-th request was delivered.  Returns every request the
/// flow asked to send, in order, and the operation's result.
fn drive_add_route(port: u32, outcomes: &[bool]) -> (Vec<HttpRequest>, Result<(), RegistrarError>) {
    let mut flow = AddRouteFlow::new(port);
    let mut sent: Vec<HttpRequest> = Vec::new();
    let mut k = 0usize;
    loop {
        let req = flow
            .pending_request()
            .expect("the flow must still have a pending request");
        assert!(k < outcomes.len(), "the flow asked for more calls than scripted");
        let delivered = outcomes[k];
        k += 1;
        sent.push(req);
        if let Some(result) = flow.on_transport_result(delivered) {
            assert!(
                flow.pending_request().is_none(),
                "a finished flow must have no pending request"
            );
            return (sent, result);
        }
    }
}

fn assert_json_header(req: &HttpRequest) {
    assert_eq!(req.headers.len(), 1);
    assert_eq!(req.headers[0].name, "Content-Type");
    assert_eq!(req.headers[0].value, "application/json");
}

#[test]
fn decimal_renders_edge_values() {
    assert_eq!(decimal_string(0), "0");
    assert_eq!(decimal_string(7), "7");
    assert_eq!(decimal_string(8080), "8080");
    assert_eq!(decimal_string(u32::MAX), "4294967295");
}

#[test]
fn route_id_is_route_dash_port() {
    assert_eq!(route_id(8080), "route-8080");
    assert_eq!(route_id(0), "route-0");
}

#[test]
fn descriptor_fields_for_port() {
    let d = RouteDescriptor::for_port(8080);
    assert_eq!(d.id, "route-8080");
    assert_eq!(d.match_rules.len(), 1);
    assert_eq!(d.match_rules[0].hosts, vec!["127.0.0.1".to_string()]);
    assert_eq!(d.handlers.len(), 1);
    assert_eq!(d.handlers[0].handler, "reverse_proxy");
    assert_eq!(d.handlers[0].upstreams.len(), 1);
    assert_eq!(d.handlers[0].upstreams[0].dial, ":8080");
}

#[test]
fn descriptor_json_matches_admin_schema() {
    let d = RouteDescriptor::for_port(9000);
    assert_eq!(
        d.to_json(),
        "{\"@id\":\"route-9000\",\"match\":[{\"host\":[\"127.0.0.1\"]}],\
         \"handle\":[{\"handler\":\"reverse_proxy\",\"upstreams\":[{\"dial\":\":9000\"}]}]}"
    );
}

#[test]
fn route_creation_request_is_exact() {
    let q = route_creation_request(9000);
    assert_eq!(q.method, Method::Post);
    assert_eq!(q.url, "http://127.0.0.1:2019/config/apps/http/servers/srv0/routes");
    assert_json_header(&q);
    assert_eq!(
        q.body.as_deref(),
        Some(
            "{\"@id\":\"route-9000\",\"match\":[{\"host\":[\"127.0.0.1\"]}],\
             \"handle\":[{\"handler\":\"reverse_proxy\",\"upstreams\":[{\"dial\":\":9000\"}]}]}"
        )
    );
}

#[test]
fn tls_subject_request_sends_full_dial_string() {
    let q = tls_subject_request(9000);
    assert_eq!(q.method, Method::Post);
    assert_eq!(q.url, "http://127.0.0.1:2019/config/apps/tls/automation/policies/0/subjects");
    assert_json_header(&q);
    assert_eq!(q.body.as_deref(), Some("\"127.0.0.1:9000\""));
}

#[test]
fn add_route_fails_fast_when_route_creation_fails() {
    let (sent, result) = drive_add_route(8080, &[false, true, true]);
    assert_eq!(result, Err(RegistrarError::RouteCreationFailed));
    assert_eq!(sent.len(), 1, "the TLS-subject call must not be attempted");
    assert_eq!(sent[0].url, "http://127.0.0.1:2019/config/apps/http/servers/srv0/routes");
}

#[test]
fn add_route_reports_tls_failure_after_route_success() {
    let (sent, result) = drive_add_route(8080, &[true, false]);
    assert_eq!(result, Err(RegistrarError::TlsSubjectRegistrationFailed));
    assert_eq!(sent.len(), 2);
    assert_eq!(sent[0].url, "http://127.0.0.1:2019/config/apps/http/servers/srv0/routes");
    assert_eq!(sent[1].url, "http://127.0.0.1:2019/config/apps/tls/automation/policies/0/subjects");
}

#[test]
fn add_route_end_to_end_success() {
    let (sent, result) = drive_add_route(9000, &[true, true]);
    assert_eq!(result, Ok(()));
    assert_eq!(sent.len(), 2);
    assert_eq!(sent[0].method, Method::Post);
    assert_eq!(
        sent[0].body.as_deref(),
        Some(
            "{\"@id\":\"route-9000\",\"match\":[{\"host\":[\"127.0.0.1\"]}],\
             \"handle\":[{\"handler\":\"reverse_proxy\",\"upstreams\":[{\"dial\":\":9000\"}]}]}"
        )
    );
    assert_eq!(sent[1].method, Method::Post);
    assert_eq!(sent[1].body.as_deref(), Some("\"127.0.0.1:9000\""));
}

#[test]
fn delete_route_issues_one_exact_delete() {
    let q = route_deletion_request("route-8080");
    assert_eq!(q.method, Method::Delete);
    assert_eq!(q.url, "http://127.0.0.1:2019/id/route-8080");
    assert_json_header(&q);
    assert!(q.body.is_none());
}

#[test]
fn delete_route_succeeds_on_any_received_response() {
    // Any received response counts as delivered, whatever its status code
    // (200, 404 or 500 alike); only transport-level failure is an error.
    assert_eq!(deletion_outcome(true), Ok(()));
    assert_eq!(deletion_outcome(false), Err(RegistrarError::RouteDeletionFailed));
}

#[test]
fn errors_describe_their_phase() {
    assert_eq!(RegistrarError::RouteCreationFailed.describe(), "route creation failed");
    assert_eq!(
        RegistrarError::TlsSubjectRegistrationFailed.describe(),
        "tls subject registration failed"
    );
    assert_eq!(RegistrarError::RouteDeletionFailed.describe(), "route deletion failed");
}
