//! The response-header model and the security-header policy.
//!
//! Headers are held as an association list with unique names; setting a
//! header replaces any previous value (set, not append), which is what
//! makes the policy idempotent. The policy itself is a pure function of
//! the deployment environment: a fixed set of hardening headers is
//! always applied, the header identifying the serving software is always
//! removed, and the transport-hardening pair is enforced outside
//! development and stripped in development.

use vstd::prelude::*;
use vstd::string::StringExecFns;
use crate::text::str_eq;

verus! {

/// The deployment classification, supplied externally at startup and
/// read-only afterwards.
#[derive(Clone, Copy, Debug, PartialEq, Eq, Structural)]
pub enum Environment {
    Development,
    Staging,
    Production,
}

/// The lower-case name of an environment.
pub open spec fn spec_env_name(e: Environment) -> Seq<char> {
    match e {
        Environment::Development => "development"@,
        Environment::Staging => "staging"@,
        Environment::Production => "production"@,
    }
}

impl Environment {
    /// Renders the environment name as it appears in log lines.
    pub fn name(&self) -> (s: &'static str)
        ensures
            s@ == spec_env_name(*self),
    {
        match self {
            Environment::Development => "development",
            Environment::Staging => "staging",
            Environment::Production => "production",
        }
    }
}

/// One response header.
pub struct Header {
    pub name: String,
    pub value: String,
}

/// Whether some entry of `s` carries the name `n`.
pub open spec fn has_name(s: Seq<Header>, n: Seq<char>) -> bool {
    exists|i: int| 0 <= i < s.len() && s[i].name@ == n
}

/// The value stored under the name `n`, if any. Meaningful on header
/// sequences with unique names, where at most one entry can match.
pub open spec fn spec_lookup(s: Seq<Header>, n: Seq<char>) -> Option<Seq<char>> {
    if has_name(s, n) {
        let i = choose|i: int| 0 <= i < s.len() && s[i].name@ == n;
        Some(s[i].value@)
    } else {
        None
    }
}

/// No two entries carry the same name.
pub open spec fn unique_names(s: Seq<Header>) -> bool {
    forall|i: int, j: int| 0 <= i < j < s.len() ==> s[i].name@ != s[j].name@
}

/// When the entry at `i` carries the name `n` and names are unique, the
/// lookup of `n` yields exactly that entry's value.
pub proof fn lemma_lookup_at(s: Seq<Header>, i: int, n: Seq<char>)
    requires
        unique_names(s),
        0 <= i < s.len(),
        s[i].name@ == n,
    ensures
        spec_lookup(s, n) == Some(s[i].value@),
{
    assert(has_name(s, n));
    let j = choose|j: int| 0 <= j < s.len() && s[j].name@ == n;
    if i < j {
        assert(s[i].name@ != s[j].name@);
    } else if j < i {
        assert(s[j].name@ != s[i].name@);
    }
}

/// When no entry carries the name `n`, the lookup of `n` is empty.
pub proof fn lemma_lookup_absent(s: Seq<Header>, n: Seq<char>)
    requires
        forall|i: int| 0 <= i < s.len() ==> s[i].name@ != n,
    ensures
        spec_lookup(s, n) is None,
{
    if has_name(s, n) {
        let i = choose|i: int| 0 <= i < s.len() && s[i].name@ == n;
        assert(false);
    }
}

/// The header set of an outbound response: an association list whose
/// names stay unique, so that setting a header is a replacement.
pub struct HeaderSet {
    pub entries: Vec<Header>,
}

impl HeaderSet {
    /// Well-formedness: no name occurs twice.
    pub open spec fn wf(&self) -> bool {
        unique_names(self.entries@)
    }

    /// An empty header set.
    pub fn new() -> (h: HeaderSet)
        ensures
            h.wf(),
            h.entries@.len() == 0,
            forall|m: Seq<char>| spec_lookup(h.entries@, m) is None,
    {
        let h = HeaderSet { entries: Vec::new() };
        proof {
            assert forall|m: Seq<char>| spec_lookup(h.entries@, m) is None by {
                lemma_lookup_absent(h.entries@, m);
            }
        }
        h
    }

    /// The value currently stored under `name`, if any.
    pub fn get(&self, name: &str) -> (r: Option<String>)
        requires
            self.wf(),
        ensures
            match spec_lookup(self.entries@, name@) {
                Some(v) => r is Some && r->0@ == v,
                None => r is None,
            },
    {
        let n = self.entries.len();
        let mut i: usize = 0;
        while i < n
            invariant
                self.wf(),
                n == self.entries.len(),
                i <= n,
                forall|j: int| 0 <= j < i ==> self.entries@[j].name@ != name@,
            decreases n - i,
        {
            if str_eq(self.entries[i].name.as_str(), name) {
                proof {
                    lemma_lookup_at(self.entries@, i as int, name@);
                }
                return Some(self.entries[i].value.clone());
            }
            i += 1;
        }
        proof {
            lemma_lookup_absent(self.entries@, name@);
        }
        None
    }

    /// Stores `value` under `name`, replacing any previous value: every
    /// other name keeps the value it had.
    pub fn set_raw_header(&mut self, name: &str, value: &str)
        requires
            old(self).wf(),
        ensures
            final(self).wf(),
            spec_lookup(final(self).entries@, name@) == Some(value@),
            forall|m: Seq<char>| m != name@ ==> spec_lookup(final(self).entries@, m)
                == spec_lookup(old(self).entries@, m),
    {
        self.remove_header(name);
        let ghost s1 = self.entries@;
        let h = Header { name: String::from_str(name), value: String::from_str(value) };
        let ghost gh = h;
        self.entries.push(h);
        proof {
            let post = self.entries@;
            assert(post == s1.push(gh));
            assert(gh.name@ == name@);
            assert(gh.value@ == value@);
            assert forall|k: int| 0 <= k < s1.len() implies s1[k].name@ != name@ by {
                if s1[k].name@ == name@ {
                    lemma_lookup_at(s1, k, name@);
                }
            }
            assert(unique_names(post));
            lemma_lookup_at(post, s1.len() as int, name@);
            assert forall|m: Seq<char>| m != name@ implies spec_lookup(post, m) == spec_lookup(
                s1,
                m,
            ) by {
                if has_name(s1, m) {
                    let j = choose|j: int| 0 <= j < s1.len() && s1[j].name@ == m;
                    lemma_lookup_at(s1, j, m);
                    lemma_lookup_at(post, j, m);
                } else {
                    lemma_lookup_absent(s1, m);
                    assert forall|k: int| 0 <= k < post.len() implies post[k].name@ != m by {}
                    lemma_lookup_absent(post, m);
                }
            }
        }
    }

    /// Removes the header named `name`, if present: afterwards the name
    /// is absent and every other name keeps its value.
    pub fn remove_header(&mut self, name: &str)
        requires
            old(self).wf(),
        ensures
            final(self).wf(),
            spec_lookup(final(self).entries@, name@) is None,
            forall|m: Seq<char>| m != name@ ==> spec_lookup(final(self).entries@, m)
                == spec_lookup(old(self).entries@, m),
    {
        let ghost pre = old(self).entries@;
        let n = self.entries.len();
        let mut i: usize = 0;
        while i < n
            invariant
                pre == old(self).entries@,
                self.entries@ == pre,
                unique_names(pre),
                n == pre.len(),
                i <= n,
                forall|j: int| 0 <= j < i ==> pre[j].name@ != name@,
            decreases n - i,
        {
            if str_eq(self.entries[i].name.as_str(), name) {
                self.entries.remove(i);
                proof {
                    let post = self.entries@;
                    pre.remove_ensures(i as int);
                    assert(post == pre.remove(i as int));
                    assert forall|k: int, l: int|
                        0 <= k < l < post.len() implies post[k].name@ != post[l].name@ by {
                        if l < i {
                            assert(post[k] == pre[k] && post[l] == pre[l]);
                        } else if k < i {
                            assert(post[k] == pre[k] && post[l] == pre[l + 1]);
                        } else {
                            assert(post[k] == pre[k + 1] && post[l] == pre[l + 1]);
                        }
                    }
                    assert forall|k: int| 0 <= k < post.len() implies post[k].name@ != name@ by {
                        if k < i {
                            assert(post[k] == pre[k]);
                        } else {
                            assert(post[k] == pre[k + 1]);
                            assert(pre[i as int].name@ == name@);
                        }
                    }
                    lemma_lookup_absent(post, name@);
                    assert forall|m: Seq<char>| m != name@ implies spec_lookup(post, m)
                        == spec_lookup(pre, m) by {
                        if has_name(pre, m) {
                            let j = choose|j: int| 0 <= j < pre.len() && pre[j].name@ == m;
                            lemma_lookup_at(pre, j, m);
                            assert(j != i);
                            if j < i {
                                assert(post[j] == pre[j]);
                                lemma_lookup_at(post, j, m);
                            } else {
                                assert(post[j - 1] == pre[j]);
                                lemma_lookup_at(post, j - 1, m);
                            }
                        } else {
                            lemma_lookup_absent(pre, m);
                            assert forall|k: int| 0 <= k < post.len() implies post[k].name@
                                != m by {
                                if k < i {
                                    assert(post[k] == pre[k]);
                                } else {
                                    assert(post[k] == pre[k + 1]);
                                }
                            }
                            lemma_lookup_absent(post, m);
                        }
                    }
                }
                return ;
            }
            i += 1;
        }
        proof {
            lemma_lookup_absent(pre, name@);
        }
    }
}

/// An outbound response as the lifecycle hooks see it: status, headers
/// and an opaque body that the hooks never inspect.
pub struct Response {
    pub status_code: u16,
    pub status_reason: String,
    pub headers: HeaderSet,
    pub body: String,
}

impl Response {
    /// Well-formedness: the header names are unique.
    pub open spec fn wf(&self) -> bool {
        self.headers.wf()
    }

    /// A response with the given status line and body and no headers yet.
    pub fn new(status_code: u16, status_reason: String, body: String) -> (r: Response)
        ensures
            r.wf(),
            r.status_code == status_code,
            r.status_reason == status_reason,
            r.body == body,
            r.headers.entries@.len() == 0,
            forall|m: Seq<char>| spec_lookup(r.headers.entries@, m) is None,
    {
        Response { status_code, status_reason, headers: HeaderSet::new(), body }
    }
}

/// Whether `m` is one of the header names the security policy manages.
pub open spec fn is_policy_header(m: Seq<char>) -> bool {
    ||| m == "Referrer-Policy"@
    ||| m == "X-Content-Type-Options"@
    ||| m == "X-Frame-Options"@
    ||| m == "X-XSS-Protection"@
    ||| m == "Cache-Control"@
    ||| m == "Server"@
    ||| m == "Strict-Transport-Security"@
    ||| m == "Expect-CT"@
}

/// What the security-header policy guarantees of a header set `post`
/// produced from `pre` under environment `env`: the hardening headers
/// are set to their fixed values, the software-identifying header is
/// gone, the transport pair is set exactly outside development and
/// absent in development, and every unmanaged name is unchanged.
pub open spec fn policy_post(pre: Seq<Header>, post: Seq<Header>, env: Environment) -> bool {
    &&& spec_lookup(post, "Referrer-Policy"@) == Some("strict-origin"@)
    &&& spec_lookup(post, "X-Content-Type-Options"@) == Some("nosniff"@)
    &&& spec_lookup(post, "X-Frame-Options"@) == Some("SAMEORIGIN"@)
    &&& spec_lookup(post, "X-XSS-Protection"@) == Some("1; mode=block"@)
    &&& spec_lookup(post, "Cache-Control"@) == Some("no-cache, no-store, max-age=0"@)
    &&& spec_lookup(post, "Server"@) is None
    &&& (env != Environment::Development ==> spec_lookup(post, "Strict-Transport-Security"@)
        == Some("max-age=31536000; includeSubDomains;"@) && spec_lookup(post, "Expect-CT"@)
        == Some("enforce, max-age=86400"@))
    &&& (env == Environment::Development ==> spec_lookup(post, "Strict-Transport-Security"@)
        is None && spec_lookup(post, "Expect-CT"@) is None)
    &&& (forall|m: Seq<char>| !is_policy_header(m) ==> spec_lookup(post, m) == spec_lookup(pre, m))
}

/// The names the policy manages are pairwise distinct.
pub proof fn lemma_policy_names_distinct()
    ensures
        "Referrer-Policy"@ != "X-Content-Type-Options"@,
        "Referrer-Policy"@ != "X-Frame-Options"@,
        "Referrer-Policy"@ != "X-XSS-Protection"@,
        "Referrer-Policy"@ != "Cache-Control"@,
        "Referrer-Policy"@ != "Server"@,
        "Referrer-Policy"@ != "Strict-Transport-Security"@,
        "Referrer-Policy"@ != "Expect-CT"@,
        "X-Content-Type-Options"@ != "X-Frame-Options"@,
        "X-Content-Type-Options"@ != "X-XSS-Protection"@,
        "X-Content-Type-Options"@ != "Cache-Control"@,
        "X-Content-Type-Options"@ != "Server"@,
        "X-Content-Type-Options"@ != "Strict-Transport-Security"@,
        "X-Content-Type-Options"@ != "Expect-CT"@,
        "X-Frame-Options"@ != "X-XSS-Protection"@,
        "X-Frame-Options"@ != "Cache-Control"@,
        "X-Frame-Options"@ != "Server"@,
        "X-Frame-Options"@ != "Strict-Transport-Security"@,
        "X-Frame-Options"@ != "Expect-CT"@,
        "X-XSS-Protection"@ != "Cache-Control"@,
        "X-XSS-Protection"@ != "Server"@,
        "X-XSS-Protection"@ != "Strict-Transport-Security"@,
        "X-XSS-Protection"@ != "Expect-CT"@,
        "Cache-Control"@ != "Server"@,
        "Cache-Control"@ != "Strict-Transport-Security"@,
        "Cache-Control"@ != "Expect-CT"@,
        "Server"@ != "Strict-Transport-Security"@,
        "Server"@ != "Expect-CT"@,
        "Strict-Transport-Security"@ != "Expect-CT"@,
{
    reveal_strlit("Referrer-Policy");
    reveal_strlit("X-Content-Type-Options");
    reveal_strlit("X-Frame-Options");
    reveal_strlit("X-XSS-Protection");
    reveal_strlit("Cache-Control");
    reveal_strlit("Server");
    reveal_strlit("Strict-Transport-Security");
    reveal_strlit("Expect-CT");
    assert("Referrer-Policy"@.len() == 15);
    assert("X-Content-Type-Options"@.len() == 22);
    assert("X-Frame-Options"@.len() == 15);
    assert("X-XSS-Protection"@.len() == 16);
    assert("Cache-Control"@.len() == 13);
    assert("Server"@.len() == 6);
    assert("Strict-Transport-Security"@.len() == 25);
    assert("Expect-CT"@.len() == 9);
    assert("Referrer-Policy"@[0] == 'R');
    assert("X-Frame-Options"@[0] == 'X');
}

/// The security-header hook: a pure function of the environment it was
/// constructed with.
pub struct SecurityHeaders {
    pub environment: Environment,
}

impl SecurityHeaders {
    /// A policy hook for the given environment.
    pub fn new(env: Environment) -> (s: Self)
        ensures
            s.environment == env,
    {
        Self { environment: env }
    }

    /// Applies the policy to an outbound response. Only the headers are
    /// touched: the status line and the body are left exactly as they
    /// were, and the hook cannot fail.
    pub fn on_response(&self, response: &mut Response)
        requires
            old(response).wf(),
        ensures
            final(response).wf(),
            policy_post(old(response).headers.entries@, final(response).headers.entries@,
                self.environment),
            final(response).status_code == old(response).status_code,
            final(response).status_reason == old(response).status_reason,
            final(response).body == old(response).body,
    {
        proof {
            lemma_policy_names_distinct();
        }
        response.headers.set_raw_header("Referrer-Policy", "strict-origin");
        response.headers.set_raw_header("X-Content-Type-Options", "nosniff");
        response.headers.set_raw_header("X-Frame-Options", "SAMEORIGIN");
        response.headers.set_raw_header("X-XSS-Protection", "1; mode=block");
        response.headers.set_raw_header("Cache-Control", "no-cache, no-store, max-age=0");
        // Exposing which software serves the responses is a needless
        // disclosure, whatever the environment.
        response.headers.remove_header("Server");
        // Outside development the service is only reachable over HTTPS,
        // and the transport-hardening pair enforces that choice; in
        // development both headers are stripped, so the final header set
        // is the same whatever the response carried before.
        if !matches!(self.environment, Environment::Development) {
            response.headers.set_raw_header(
                "Strict-Transport-Security",
                "max-age=31536000; includeSubDomains;",
            );
            response.headers.set_raw_header("Expect-CT", "enforce, max-age=86400");
        } else {
            response.headers.remove_header("Strict-Transport-Security");
            response.headers.remove_header("Expect-CT");
        }
    }
}

/// Applying the policy a second time changes nothing: every name reads
/// the same after the second application as after the first.
pub proof fn lemma_policy_idempotent(
    s0: Seq<Header>,
    s1: Seq<Header>,
    s2: Seq<Header>,
    env: Environment,
)
    requires
        policy_post(s0, s1, env),
        policy_post(s1, s2, env),
    ensures
        forall|m: Seq<char>| spec_lookup(s2, m) == spec_lookup(s1, m),
{
    assert forall|m: Seq<char>| spec_lookup(s2, m) == spec_lookup(s1, m) by {
        if !is_policy_header(m) {
            assert(spec_lookup(s2, m) == spec_lookup(s1, m));
        }
    }
}

/// In development the transport-hardening headers are absent from every
/// response the policy has touched, whatever it carried before; in
/// every other environment both are present with exactly these values.
pub proof fn lemma_transport_headers(pre: Seq<Header>, post: Seq<Header>, env: Environment)
    requires
        policy_post(pre, post, env),
    ensures
        env == Environment::Development ==> spec_lookup(post, "Strict-Transport-Security"@)
            is None && spec_lookup(post, "Expect-CT"@) is None,
        env != Environment::Development ==> spec_lookup(post, "Strict-Transport-Security"@)
            == Some("max-age=31536000; includeSubDomains;"@) && spec_lookup(post, "Expect-CT"@)
            == Some("enforce, max-age=86400"@),
{
}

/// The header identifying the serving software is absent from every
/// response the policy has touched, whatever the environment.
pub proof fn lemma_server_header_absent(pre: Seq<Header>, post: Seq<Header>, env: Environment)
    requires
        policy_post(pre, post, env),
    ensures
        spec_lookup(post, "Server"@) is None,
{
}

} // verus!
