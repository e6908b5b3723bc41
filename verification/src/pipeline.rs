//! The lifecycle pipeline: the ordered list of hooks attached once at
//! process startup and applied around every request the framework
//! dispatches.
//!
//! Its only states are "not yet attached" and "attached"; there is no
//! runtime registration. In the standard composition the header policy
//! stands before the logger, so the per-response log line is computed
//! only after the security headers have been finalized and records the
//! response's final outcome.

use vstd::prelude::*;
use vstd::string::StringExecFns;
use crate::headers::{policy_post, Environment, Response, SecurityHeaders};
use crate::logging::{
    spec_launch_lines,
    spec_outcome,
    spec_response_line,
    LaunchConfig,
    RequestInfo,
    RequestLogger,
    RouteDescriptor,
};
use crate::text::views_of;

verus! {

/// At which lifecycle points a hook asks to run.
pub struct HookKind {
    pub launch: bool,
    pub response: bool,
}

/// How a hook describes itself to the pipeline.
pub struct FairingInfo {
    pub name: String,
    pub kind: HookKind,
}

impl RequestLogger {
    /// The logger runs at launch and on every response.
    pub fn info(&self) -> (i: FairingInfo)
        ensures
            i.name@ == "Request Logger"@,
            i.kind.launch,
            i.kind.response,
    {
        FairingInfo {
            name: String::from_str("Request Logger"),
            kind: HookKind { launch: true, response: true },
        }
    }
}

impl SecurityHeaders {
    /// The header policy runs on every response only.
    pub fn info(&self) -> (i: FairingInfo)
        ensures
            i.name@ == "Security Headers"@,
            !i.kind.launch,
            i.kind.response,
    {
        FairingInfo {
            name: String::from_str("Security Headers"),
            kind: HookKind { launch: false, response: true },
        }
    }
}

/// One attached hook: either the security-header policy or the
/// request/response logger.
pub enum Hook {
    Headers(SecurityHeaders),
    Logger(RequestLogger),
}

/// The attached pipeline: hooks in their registration order.
pub struct Pipeline {
    pub hooks: Vec<Hook>,
}

impl Pipeline {
    /// The standard composition: the header policy first, then the
    /// logger, so that the logged outcome reflects the finalized
    /// response.
    pub open spec fn wf(&self) -> bool {
        &&& self.hooks@.len() == 2
        &&& self.hooks@[0] is Headers
        &&& self.hooks@[1] is Logger
    }

    /// The environment the attached header policy branches on.
    pub open spec fn environment(&self) -> Environment
        recommends
            self.wf(),
    {
        self.hooks@[0]->Headers_0.environment
    }

    /// Attaches the standard hook list for the given environment.
    pub fn standard(env: Environment) -> (p: Pipeline)
        ensures
            p.wf(),
            p.environment() == env,
    {
        let mut hooks: Vec<Hook> = Vec::new();
        hooks.push(Hook::Headers(SecurityHeaders::new(env)));
        hooks.push(Hook::Logger(RequestLogger));
        Pipeline { hooks }
    }

    /// Runs the launch-time hooks in registration order and collects
    /// their log lines: the route dump, emitted exactly once, before the
    /// service starts accepting connections.
    pub fn on_launch(&self, config: &LaunchConfig, routes: &Vec<RouteDescriptor>) -> (lines: Vec<
        String,
    >)
        requires
            self.wf(),
        ensures
            lines@.len() == 3 + routes@.len(),
            views_of(lines@) == spec_launch_lines(*config, routes@),
    {
        let mut lines: Vec<String> = Vec::new();
        proof {
            assert(views_of(lines@) =~~= Seq::<Seq<char>>::empty());
        }
        let n = self.hooks.len();
        let mut i: usize = 0;
        while i < n
            invariant
                self.wf(),
                n == 2,
                i <= n,
                i < 2 ==> lines@.len() == 0 && views_of(lines@) == Seq::<Seq<char>>::empty(),
                i == 2 ==> lines@.len() == 3 + routes@.len() && views_of(lines@)
                    == spec_launch_lines(*config, routes@),
            decreases n - i,
        {
            match &self.hooks[i] {
                Hook::Headers(_) => {},
                Hook::Logger(logger) => {
                    let mut dumped = logger.on_launch(config, routes);
                    let ghost gdumped = dumped@;
                    let ghost prev = lines@;
                    lines.append(&mut dumped);
                    proof {
                        assert(lines@ == prev + gdumped);
                        assert(views_of(prev).len() == prev.len());
                        assert(prev.len() == 0);
                        assert(views_of(lines@).len() == lines@.len());
                        assert(views_of(gdumped).len() == gdumped.len());
                        assert forall|k: int| 0 <= k < lines@.len() implies views_of(lines@)[k]
                            == views_of(gdumped)[k] by {
                            assert(views_of(lines@)[k] == lines@[k]@);
                            assert(lines@[k] == gdumped[k]);
                            assert(views_of(gdumped)[k] == gdumped[k]@);
                        }
                        assert(views_of(lines@) =~~= views_of(gdumped));
                    }
                },
            }
            i += 1;
        }
        lines
    }

    /// Passes one outbound response through the hooks in registration
    /// order and collects the log lines. The header policy finalizes the
    /// headers first; the logger then records the final outcome, so the
    /// one emitted line speaks of the response as it leaves the process.
    pub fn on_response(&self, request: &RequestInfo, response: &mut Response) -> (lines: Vec<
        String,
    >)
        requires
            self.wf(),
            old(response).wf(),
        ensures
            final(response).wf(),
            policy_post(old(response).headers.entries@, final(response).headers.entries@,
                self.environment()),
            final(response).status_code == old(response).status_code,
            final(response).status_reason == old(response).status_reason,
            final(response).body == old(response).body,
            lines@.len() == 1,
            lines@[0]@ == spec_response_line(spec_outcome(*request, *final(response))),
    {
        let mut lines: Vec<String> = Vec::new();
        let n = self.hooks.len();
        let mut i: usize = 0;
        while i < n
            invariant
                self.wf(),
                n == 2,
                i <= n,
                response.wf(),
                response.status_code == old(response).status_code,
                response.status_reason == old(response).status_reason,
                response.body == old(response).body,
                i == 0 ==> *response == *old(response) && lines@.len() == 0,
                i >= 1 ==> policy_post(old(response).headers.entries@, response.headers.entries@,
                    self.environment()),
                i <= 1 ==> lines@.len() == 0,
                i == 2 ==> lines@.len() == 1 && lines@[0]@ == spec_response_line(
                    spec_outcome(*request, *response),
                ),
            decreases n - i,
        {
            match &self.hooks[i] {
                Hook::Headers(policy) => {
                    policy.on_response(response);
                },
                Hook::Logger(logger) => {
                    let line = logger.on_response(request, response);
                    lines.push(line);
                },
            }
            i += 1;
        }
        lines
    }
}

} // verus!
