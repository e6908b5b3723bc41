//! The request/response logger: launch-time route dump and the
//! per-response outcome line.
//!
//! The hook only computes the text of each log line; handing the lines
//! to a sink is input/output work and stays outside the library, so a
//! failing sink can never disturb request processing.

use vstd::prelude::*;
use vstd::string::StringExecFns;
use crate::headers::{Environment, Response, spec_env_name};
use crate::text::{spec_dec, u64_to_dec, views_of};

verus! {

/// One registered route, as resolved from the framework's route table at
/// launch: its method, its URI template, and its dispatch-priority rank
/// when the route carries a non-default one.
pub struct RouteDescriptor {
    pub method: String,
    pub uri: String,
    pub rank: Option<u32>,
}

/// What the logger reads of an inbound request: method, URI, and the
/// route that matched it, if any did.
pub struct RequestInfo {
    pub method: String,
    pub uri: String,
    pub route: Option<RouteDescriptor>,
}

/// The resolved service configuration logged at launch.
pub struct LaunchConfig {
    pub address: String,
    pub port: u16,
    pub environment: Environment,
}

/// The transient record of one dispatched request: how it came in, which
/// route (if any) matched, and how it went out.
pub struct ResponseOutcome {
    pub method: String,
    pub uri: String,
    pub matched_route: Option<RouteDescriptor>,
    pub status_code: u16,
    pub status_reason: String,
}

/// The outcome of a request, read off the request information and the
/// finalized response.
pub open spec fn spec_outcome(request: RequestInfo, response: Response) -> ResponseOutcome {
    ResponseOutcome {
        method: request.method,
        uri: request.uri,
        matched_route: request.route,
        status_code: response.status_code,
        status_reason: response.status_reason,
    }
}

/// The identity of a route as it appears in a response log line.
pub open spec fn spec_route_identity(r: RouteDescriptor) -> Seq<char> {
    r.method@ + " "@ + r.uri@
}

/// One launch-dump line for a registered route; the dispatch-priority
/// rank is appended only when the route carries a non-default one.
pub open spec fn spec_route_launch_line(r: RouteDescriptor) -> Seq<char> {
    match r.rank {
        Some(k) => "\t"@ + r.method@ + " "@ + r.uri@ + " ["@ + spec_dec(k as nat) + "]"@,
        None => "\t"@ + r.method@ + " "@ + r.uri@,
    }
}

/// The per-response log line: method, URI, the matched route's identity
/// when one matched (and no matched-route field at all when none did),
/// then the outcome's status code and reason phrase.
pub open spec fn spec_response_line(o: ResponseOutcome) -> Seq<char> {
    o.method@ + " "@ + o.uri@ + (match o.matched_route {
        Some(r) => " (handler: "@ + spec_route_identity(r) + ")"@,
        None => Seq::<char>::empty(),
    }) + " => "@ + spec_dec(o.status_code as nat) + " "@ + o.status_reason@
}

/// The launch-time dump: the resolved bind address, the running
/// environment, and one line per registered route.
pub open spec fn spec_launch_lines(config: LaunchConfig, routes: Seq<RouteDescriptor>) -> Seq<
    Seq<char>,
> {
    seq![
        "Service is running on: http://["@ + config.address@ + "]:"@ + spec_dec(
            config.port as nat,
        ),
        "Currently running environment: "@ + spec_env_name(config.environment),
        "Service has the following routes configured:"@,
    ] + routes.map_values(|r: RouteDescriptor| spec_route_launch_line(r))
}

/// When no route matched the request, the log line carries no
/// matched-route field and consists of exactly the method, the URI, and
/// the outcome's status code and reason.
pub proof fn lemma_unmatched_line_shape(o: ResponseOutcome)
    requires
        o.matched_route is None,
    ensures
        spec_response_line(o) == o.method@ + " "@ + o.uri@ + " => "@ + spec_dec(
            o.status_code as nat,
        ) + " "@ + o.status_reason@,
{
    assert(spec_response_line(o) =~= o.method@ + " "@ + o.uri@ + " => "@ + spec_dec(
        o.status_code as nat,
    ) + " "@ + o.status_reason@);
}

/// Renders the launch-dump line of one route.
pub fn route_launch_line(r: &RouteDescriptor) -> (line: String)
    ensures
        line@ == spec_route_launch_line(*r),
{
    let mut line = String::from_str("\t");
    line.append(r.method.as_str());
    line.append(" ");
    line.append(r.uri.as_str());
    if let Some(k) = r.rank {
        line.append(" [");
        let rank = u64_to_dec(k as u64);
        line.append(rank.as_str());
        line.append("]");
    }
    proof {
        assert(line@ =~= spec_route_launch_line(*r));
    }
    line
}

/// One line of the logging sink's output format: the timestamp, the
/// level between brackets, then the message.
pub fn format_log_line(timestamp: &str, level: &str, message: &str) -> (line: String)
    ensures
        line@ == timestamp@ + "["@ + level@ + "] "@ + message@,
{
    let mut line = String::from_str(timestamp);
    line.append("[");
    line.append(level);
    line.append("] ");
    line.append(message);
    proof {
        assert(line@ =~= timestamp@ + "["@ + level@ + "] "@ + message@);
    }
    line
}

/// The launch- and response-time logging hook. It holds no state: every
/// line is a pure function of what it is shown.
pub struct RequestLogger;

impl RequestLogger {
    /// Produces the launch-time dump lines: bind address, environment,
    /// and one line per registered route, in registration order.
    pub fn on_launch(&self, config: &LaunchConfig, routes: &Vec<RouteDescriptor>) -> (lines: Vec<
        String,
    >)
        ensures
            lines@.len() == 3 + routes@.len(),
            views_of(lines@) == spec_launch_lines(*config, routes@),
    {
        let mut lines: Vec<String> = Vec::new();
        let mut address = String::from_str("Service is running on: http://[");
        address.append(config.address.as_str());
        address.append("]:");
        let port = u64_to_dec(config.port as u64);
        address.append(port.as_str());
        lines.push(address);
        let mut environment = String::from_str("Currently running environment: ");
        environment.append(config.environment.name());
        lines.push(environment);
        lines.push(String::from_str("Service has the following routes configured:"));
        proof {
            assert(views_of(lines@) =~~= spec_launch_lines(*config, routes@).take(3));
        }
        let n = routes.len();
        let mut i: usize = 0;
        while i < n
            invariant
                n == routes@.len(),
                i <= n,
                views_of(lines@) == spec_launch_lines(*config, routes@).take(3 + i),
            decreases n - i,
        {
            let line = route_launch_line(&routes[i]);
            let ghost gline = line;
            let ghost prev = lines@;
            lines.push(line);
            proof {
                let all = spec_launch_lines(*config, routes@);
                assert(all.len() == 3 + routes@.len());
                assert(all[3 + i] == routes@.map_values(
                    |r: RouteDescriptor| spec_route_launch_line(r),
                )[i as int]);
                assert(all[3 + i] == spec_route_launch_line(routes@[i as int]));
                assert(lines@ == prev.push(gline));
                assert(views_of(prev).len() == prev.len());
                assert(prev.len() == 3 + i);
                assert(lines@.len() == 3 + i + 1);
                assert(views_of(lines@).len() == lines@.len());
                assert forall|k: int| 0 <= k < 3 + i + 1 implies views_of(lines@)[k] == all.take(
                    3 + i + 1,
                )[k] by {
                    assert(views_of(lines@)[k] == lines@[k]@);
                    if k < 3 + i {
                        assert(lines@[k] == prev[k]);
                        assert(views_of(prev)[k] == prev[k]@);
                        assert(views_of(prev)[k] == all.take(3 + i)[k]);
                    } else {
                        assert(lines@[k] == gline);
                    }
                }
                assert(views_of(lines@) =~~= all.take(3 + i + 1));
            }
            i += 1;
        }
        proof {
            assert(views_of(lines@) =~~= spec_launch_lines(*config, routes@));
            assert(views_of(lines@).len() == lines@.len());
            assert(spec_launch_lines(*config, routes@).len() == 3 + routes@.len());
        }
        lines
    }

    /// Produces the outcome line for one dispatched request, read off
    /// the finalized response.
    pub fn on_response(&self, request: &RequestInfo, response: &Response) -> (line: String)
        ensures
            line@ == spec_response_line(spec_outcome(*request, *response)),
    {
        let mut line = String::from_str(request.method.as_str());
        line.append(" ");
        line.append(request.uri.as_str());
        if let Some(route) = &request.route {
            line.append(" (handler: ");
            line.append(route.method.as_str());
            line.append(" ");
            line.append(route.uri.as_str());
            line.append(")");
        }
        line.append(" => ");
        let code = u64_to_dec(response.status_code as u64);
        line.append(code.as_str());
        line.append(" ");
        line.append(response.status_reason.as_str());
        proof {
            assert(line@ =~= spec_response_line(spec_outcome(*request, *response)));
        }
        line
    }
}

} // verus!
