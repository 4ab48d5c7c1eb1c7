//! The route descriptor sent to the admin API, and its exact wire form.
//!
//! A descriptor names a route (`@id`), the hosts it matches, and the
//! handlers that forward matched traffic to upstream dial targets.  The
//! admin server's schema fixes the JSON key names (`@id`, `match`,
//! `handle`); they are contractual, and `to_json` pins the full body, byte
//! for byte, in its postcondition.  Field strings are emitted verbatim:
//! every descriptor this crate builds holds only digits, dots, dashes and
//! letters, which JSON passes through unchanged.

use vstd::prelude::*;
use crate::decimal::decimal;
use crate::decimal::push_decimal;

verus! {

/// One upstream dial target of a reverse-proxy handler.
pub struct Upstream {
    pub dial: String,
}

/// One host-match rule: the request hosts that the route applies to.
pub struct MatchRule {
    pub hosts: Vec<String>,
}

/// One handler: its kind and, for a reverse proxy, its upstreams.
pub struct Handler {
    pub handler: String,
    pub upstreams: Vec<Upstream>,
}

/// A proxy route: its identifier, match rules and handlers.
pub struct RouteDescriptor {
    pub id: String,
    pub match_rules: Vec<MatchRule>,
    pub handlers: Vec<Handler>,
}

#[verifier::ext_equal]
pub struct UpstreamView {
    pub dial: Seq<char>,
}

#[verifier::ext_equal]
pub struct MatchRuleView {
    pub hosts: Seq<Seq<char>>,
}

#[verifier::ext_equal]
pub struct HandlerView {
    pub handler: Seq<char>,
    pub upstreams: Seq<UpstreamView>,
}

#[verifier::ext_equal]
pub struct RouteDescriptorView {
    pub id: Seq<char>,
    pub match_rules: Seq<MatchRuleView>,
    pub handlers: Seq<HandlerView>,
}

pub open spec fn strings_view(ss: Seq<String>) -> Seq<Seq<char>> {
    ss.map_values(|s: String| s@)
}

pub open spec fn upstreams_view(us: Seq<Upstream>) -> Seq<UpstreamView> {
    us.map_values(|u: Upstream| u@)
}

pub open spec fn match_rules_view(ms: Seq<MatchRule>) -> Seq<MatchRuleView> {
    ms.map_values(|m: MatchRule| m@)
}

pub open spec fn handlers_view(hs: Seq<Handler>) -> Seq<HandlerView> {
    hs.map_values(|h: Handler| h@)
}

impl View for Upstream {
    type V = UpstreamView;

    open spec fn view(&self) -> UpstreamView {
        UpstreamView { dial: self.dial@ }
    }
}

impl View for MatchRule {
    type V = MatchRuleView;

    open spec fn view(&self) -> MatchRuleView {
        MatchRuleView { hosts: strings_view(self.hosts@) }
    }
}

impl View for Handler {
    type V = HandlerView;

    open spec fn view(&self) -> HandlerView {
        HandlerView { handler: self.handler@, upstreams: upstreams_view(self.upstreams@) }
    }
}

impl View for RouteDescriptor {
    type V = RouteDescriptorView;

    open spec fn view(&self) -> RouteDescriptorView {
        RouteDescriptorView {
            id: self.id@,
            match_rules: match_rules_view(self.match_rules@),
            handlers: handlers_view(self.handlers@),
        }
    }
}

/// `s` written as a JSON string, verbatim (no escaping; see the module note).
pub open spec fn json_string(s: Seq<char>) -> Seq<char> {
    "\""@ + s + "\""@
}

/// `parts` joined with a comma between neighbours.
pub open spec fn comma_join(parts: Seq<Seq<char>>) -> Seq<char>
    decreases parts.len(),
{
    if parts.len() == 0 {
        Seq::<char>::empty()
    } else if parts.len() == 1 {
        parts[0]
    } else {
        comma_join(parts.drop_last()) + ","@ + parts.last()
    }
}

pub open spec fn quoted_all(ss: Seq<Seq<char>>) -> Seq<Seq<char>> {
    ss.map_values(|s: Seq<char>| json_string(s))
}

pub open spec fn upstream_json(u: UpstreamView) -> Seq<char> {
    "{\"dial\":"@ + json_string(u.dial) + "}"@
}

pub open spec fn upstreams_json(us: Seq<UpstreamView>) -> Seq<Seq<char>> {
    us.map_values(|u: UpstreamView| upstream_json(u))
}

pub open spec fn match_rule_json(m: MatchRuleView) -> Seq<char> {
    "{\"host\":["@ + comma_join(quoted_all(m.hosts)) + "]}"@
}

pub open spec fn match_rules_json(ms: Seq<MatchRuleView>) -> Seq<Seq<char>> {
    ms.map_values(|m: MatchRuleView| match_rule_json(m))
}

pub open spec fn handler_json(h: HandlerView) -> Seq<char> {
    "{\"handler\":"@ + json_string(h.handler) + ",\"upstreams\":["@
        + comma_join(upstreams_json(h.upstreams)) + "]}"@
}

pub open spec fn handlers_json(hs: Seq<HandlerView>) -> Seq<Seq<char>> {
    hs.map_values(|h: HandlerView| handler_json(h))
}

/// The full JSON body of a route descriptor.
pub open spec fn descriptor_json(d: RouteDescriptorView) -> Seq<char> {
    "{\"@id\":"@ + json_string(d.id)
        + ",\"match\":["@ + comma_join(match_rules_json(d.match_rules))
        + "],\"handle\":["@ + comma_join(handlers_json(d.handlers))
        + "]}"@
}

/// The identifier under which the route for `port` is created, and later
/// deleted: `route-` followed by the port in decimal.
pub open spec fn route_id_text(port: u32) -> Seq<char> {
    "route-"@ + decimal(port as nat)
}

/// The dial target the route forwards to: `:` followed by the port in
/// decimal (the empty host means any local interface).
pub open spec fn dial_text(port: u32) -> Seq<char> {
    ":"@ + decimal(port as nat)
}

/// The descriptor that forwards host `127.0.0.1` to local port `port`
/// through a single reverse-proxy handler.
pub open spec fn descriptor_for_port(port: u32) -> RouteDescriptorView {
    RouteDescriptorView {
        id: route_id_text(port),
        match_rules: seq![MatchRuleView { hosts: seq!["127.0.0.1"@] }],
        handlers: seq![
            HandlerView {
                handler: "reverse_proxy"@,
                upstreams: seq![UpstreamView { dial: dial_text(port) }],
            }
        ],
    }
}

/// The route identifier for `port`, as a string: `route-<port>`.
pub fn route_id(port: u32) -> (s: String)
    ensures
        s@ == route_id_text(port),
{
    let mut s = String::from_str("route-");
    push_decimal(&mut s, port);
    s
}

impl RouteDescriptor {
    /// Builds the descriptor that routes host `127.0.0.1` to `port`.
    pub fn for_port(port: u32) -> (d: RouteDescriptor)
        ensures
            d@ == descriptor_for_port(port),
    {
        let id = route_id(port);
        let mut dial = String::from_str(":");
        push_decimal(&mut dial, port);
        let mut hosts: Vec<String> = Vec::new();
        hosts.push(String::from_str("127.0.0.1"));
        let mut match_rules: Vec<MatchRule> = Vec::new();
        match_rules.push(MatchRule { hosts });
        let mut upstreams: Vec<Upstream> = Vec::new();
        upstreams.push(Upstream { dial });
        let mut handlers: Vec<Handler> = Vec::new();
        handlers.push(Handler { handler: String::from_str("reverse_proxy"), upstreams });
        let d = RouteDescriptor { id, match_rules, handlers };
        proof {
            assert(d@ =~~= descriptor_for_port(port));
        }
        d
    }

    /// Serializes the descriptor to its exact JSON wire form.
    pub fn to_json(&self) -> (s: String)
        ensures
            s@ == descriptor_json(self@),
    {
        let mut s = String::from_str("{\"@id\":");
        push_json_string(&mut s, self.id.as_str());
        s.append(",\"match\":[");
        push_match_rules(&mut s, &self.match_rules);
        s.append("],\"handle\":[");
        push_handlers(&mut s, &self.handlers);
        s.append("]}");
        proof {
            assert(s@ =~= descriptor_json(self@));
        }
        s
    }
}

/// Appends `s` as a JSON string (verbatim, between two quotes).
fn push_json_string(out: &mut String, s: &str)
    ensures
        final(out)@ == old(out)@ + json_string(s@),
{
    out.append("\"");
    out.append(s);
    out.append("\"");
    proof {
        assert(out@ =~= old(out)@ + json_string(s@));
    }
}

/// Appends the hosts of one match rule, each quoted, comma-separated.
fn push_hosts(out: &mut String, hosts: &Vec<String>)
    ensures
        final(out)@ == old(out)@ + comma_join(quoted_all(strings_view(hosts@))),
{
    let ghost parts = quoted_all(strings_view(hosts@));
    let ghost base = out@;
    let mut i: usize = 0;
    while i < hosts.len()
        invariant
            i <= hosts.len(),
            parts == quoted_all(strings_view(hosts@)),
            parts.len() == hosts.len(),
            out@ == base + comma_join(parts.take(i as int)),
        decreases hosts.len() - i,
    {
        if i > 0 {
            out.append(",");
        }
        push_json_string(out, hosts[i].as_str());
        proof {
            assert(parts[i as int] == json_string(hosts@[i as int]@));
            if i > 0 {
                assert(parts.take(i as int + 1).drop_last() =~= parts.take(i as int));
            }
            assert(out@ =~= base + comma_join(parts.take(i as int + 1)));
        }
        i += 1;
    }
    proof {
        assert(parts.take(hosts@.len() as int) =~= parts);
    }
}

/// Appends one match rule as a JSON object.
fn push_match_rule(out: &mut String, m: &MatchRule)
    ensures
        final(out)@ == old(out)@ + match_rule_json(m@),
{
    out.append("{\"host\":[");
    push_hosts(out, &m.hosts);
    out.append("]}");
    proof {
        assert(out@ =~= old(out)@ + match_rule_json(m@));
    }
}

/// Appends all match rules, comma-separated.
fn push_match_rules(out: &mut String, rules: &Vec<MatchRule>)
    ensures
        final(out)@ == old(out)@ + comma_join(match_rules_json(match_rules_view(rules@))),
{
    let ghost parts = match_rules_json(match_rules_view(rules@));
    let ghost base = out@;
    let mut i: usize = 0;
    while i < rules.len()
        invariant
            i <= rules.len(),
            parts == match_rules_json(match_rules_view(rules@)),
            parts.len() == rules.len(),
            out@ == base + comma_join(parts.take(i as int)),
        decreases rules.len() - i,
    {
        if i > 0 {
            out.append(",");
        }
        push_match_rule(out, &rules[i]);
        proof {
            assert(parts[i as int] == match_rule_json(rules@[i as int]@));
            if i > 0 {
                assert(parts.take(i as int + 1).drop_last() =~= parts.take(i as int));
            }
            assert(out@ =~= base + comma_join(parts.take(i as int + 1)));
        }
        i += 1;
    }
    proof {
        assert(parts.take(rules@.len() as int) =~= parts);
    }
}

/// Appends one upstream as a JSON object.
fn push_upstream(out: &mut String, u: &Upstream)
    ensures
        final(out)@ == old(out)@ + upstream_json(u@),
{
    out.append("{\"dial\":");
    push_json_string(out, u.dial.as_str());
    out.append("}");
    proof {
        assert(out@ =~= old(out)@ + upstream_json(u@));
    }
}

/// Appends all upstreams of one handler, comma-separated.
fn push_upstreams(out: &mut String, us: &Vec<Upstream>)
    ensures
        final(out)@ == old(out)@ + comma_join(upstreams_json(upstreams_view(us@))),
{
    let ghost parts = upstreams_json(upstreams_view(us@));
    let ghost base = out@;
    let mut i: usize = 0;
    while i < us.len()
        invariant
            i <= us.len(),
            parts == upstreams_json(upstreams_view(us@)),
            parts.len() == us.len(),
            out@ == base + comma_join(parts.take(i as int)),
        decreases us.len() - i,
    {
        if i > 0 {
            out.append(",");
        }
        push_upstream(out, &us[i]);
        proof {
            assert(parts[i as int] == upstream_json(us@[i as int]@));
            if i > 0 {
                assert(parts.take(i as int + 1).drop_last() =~= parts.take(i as int));
            }
            assert(out@ =~= base + comma_join(parts.take(i as int + 1)));
        }
        i += 1;
    }
    proof {
        assert(parts.take(us@.len() as int) =~= parts);
    }
}

/// Appends one handler as a JSON object.
fn push_handler(out: &mut String, h: &Handler)
    ensures
        final(out)@ == old(out)@ + handler_json(h@),
{
    out.append("{\"handler\":");
    push_json_string(out, h.handler.as_str());
    out.append(",\"upstreams\":[");
    push_upstreams(out, &h.upstreams);
    out.append("]}");
    proof {
        assert(out@ =~= old(out)@ + handler_json(h@));
    }
}

/// Appends all handlers, comma-separated.
fn push_handlers(out: &mut String, hs: &Vec<Handler>)
    ensures
        final(out)@ == old(out)@ + comma_join(handlers_json(handlers_view(hs@))),
{
    let ghost parts = handlers_json(handlers_view(hs@));
    let ghost base = out@;
    let mut i: usize = 0;
    while i < hs.len()
        invariant
            i <= hs.len(),
            parts == handlers_json(handlers_view(hs@)),
            parts.len() == hs.len(),
            out@ == base + comma_join(parts.take(i as int)),
        decreases hs.len() - i,
    {
        if i > 0 {
            out.append(",");
        }
        push_handler(out, &hs[i]);
        proof {
            assert(parts[i as int] == handler_json(hs@[i as int]@));
            if i > 0 {
                assert(parts.take(i as int + 1).drop_last() =~= parts.take(i as int));
            }
            assert(out@ =~= base + comma_join(parts.take(i as int + 1)));
        }
        i += 1;
    }
    proof {
        assert(parts.take(hs@.len() as int) =~= parts);
    }
}

} // verus!
