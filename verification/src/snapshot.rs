//! The version snapshot: the build identity serialized once into a
//! JSON payload, cached for the process lifetime, and served by the
//! status query.
//!
//! The document layout — which fields appear, in which order, and that
//! absent optional facts are omitted entirely rather than emitted as
//! null or empty placeholders — is this crate's own verified logic; only
//! the JSON quoting of the individual string values is delegated to an
//! outside encoder.

use vstd::prelude::*;
use vstd::string::StringExecFns;
use crate::identity::{spec_bool, bool_str, BuildIdentity};

verus! {

/// The JSON string form of a character sequence: the value between
/// double quotes, with the escapes the encoder applies. A function of
/// the characters alone.
pub uninterp spec fn json_quoted(s: Seq<char>) -> Seq<char>;

/// Relies on `serde_json::to_string` applied to a string slice: the
/// returned JSON string form depends on the characters alone, and
/// serializing a string cannot fail (the documented error conditions —
/// a failing `Serialize` implementation or a map with non-string keys —
/// cannot arise for `str`).
#[verifier::external_body]
fn json_quote(s: &str) -> (r: String)
    ensures
        r@ == json_quoted(s@),
{
    serde_json::to_string(s).unwrap()
}

/// The serialized snapshot of a build identity: one JSON object whose
/// fields come in a fixed order, with the optional git facts omitted
/// when absent and the dirty flag emitted as a bare boolean.
pub open spec fn spec_snapshot_json(id: BuildIdentity) -> Seq<char> {
    "{\"build_profile\":"@ + json_quoted(id.build_profile@) + ",\"rust_version\":"@ + json_quoted(
        id.rust_version@,
    ) + ",\"rust_target\":"@ + json_quoted(id.rust_target@) + (match id.git_describe {
        Some(d) => ",\"git_describe\":"@ + json_quoted(d@),
        None => Seq::<char>::empty(),
    }) + ",\"git_dirty\":"@ + spec_bool(id.git_dirty) + (match id.git_revision {
        Some(r) => ",\"git_revision\":"@ + json_quoted(r@),
        None => Seq::<char>::empty(),
    }) + (match id.git_branch {
        Some(b) => ",\"git_branch\":"@ + json_quoted(b@),
        None => Seq::<char>::empty(),
    }) + (match id.git_tag {
        Some(t) => ",\"git_tag\":"@ + json_quoted(t@),
        None => Seq::<char>::empty(),
    }) + "}"@
}

/// Serializes the build identity into its snapshot payload.
pub fn render_snapshot(id: &BuildIdentity) -> (r: String)
    ensures
        r@ == spec_snapshot_json(*id),
{
    let ghost e0 = "{\"build_profile\":"@ + json_quoted(id.build_profile@) + ",\"rust_version\":"@
        + json_quoted(id.rust_version@) + ",\"rust_target\":"@ + json_quoted(id.rust_target@);
    let ghost e1 = e0 + (match &id.git_describe {
        Some(d) => ",\"git_describe\":"@ + json_quoted(d@),
        None => Seq::<char>::empty(),
    });
    let ghost e2 = e1 + ",\"git_dirty\":"@ + spec_bool(id.git_dirty);
    let ghost e3 = e2 + (match &id.git_revision {
        Some(rev) => ",\"git_revision\":"@ + json_quoted(rev@),
        None => Seq::<char>::empty(),
    });
    let ghost e4 = e3 + (match &id.git_branch {
        Some(b) => ",\"git_branch\":"@ + json_quoted(b@),
        None => Seq::<char>::empty(),
    });
    let ghost e5 = e4 + (match &id.git_tag {
        Some(t) => ",\"git_tag\":"@ + json_quoted(t@),
        None => Seq::<char>::empty(),
    });
    let mut r = String::from_str("{\"build_profile\":");
    let profile = json_quote(id.build_profile.as_str());
    r.append(profile.as_str());
    r.append(",\"rust_version\":");
    let version = json_quote(id.rust_version.as_str());
    r.append(version.as_str());
    r.append(",\"rust_target\":");
    let target = json_quote(id.rust_target.as_str());
    r.append(target.as_str());
    proof {
        assert(r@ =~= e0);
    }
    if let Some(describe) = &id.git_describe {
        r.append(",\"git_describe\":");
        let q = json_quote(describe.as_str());
        r.append(q.as_str());
    }
    proof {
        assert(r@ =~= e1);
    }
    r.append(",\"git_dirty\":");
    r.append(bool_str(id.git_dirty));
    proof {
        assert(r@ =~= e2);
    }
    if let Some(revision) = &id.git_revision {
        r.append(",\"git_revision\":");
        let q = json_quote(revision.as_str());
        r.append(q.as_str());
    }
    proof {
        assert(r@ =~= e3);
    }
    if let Some(branch) = &id.git_branch {
        r.append(",\"git_branch\":");
        let q = json_quote(branch.as_str());
        r.append(q.as_str());
    }
    proof {
        assert(r@ =~= e4);
    }
    if let Some(tag) = &id.git_tag {
        r.append(",\"git_tag\":");
        let q = json_quote(tag.as_str());
        r.append(q.as_str());
    }
    proof {
        assert(r@ =~= e5);
    }
    r.append("}");
    proof {
        assert(spec_snapshot_json(*id) == e5 + "}"@);
        assert(r@ =~= e5 + "}"@);
    }
    r
}

/// The process-wide version reporter: the build identity together with
/// the compute-once cache of its serialized snapshot. The cache starts
/// empty, is filled by the first query, and is only ever read afterwards.
pub struct VersionReporter {
    pub identity: BuildIdentity,
    pub cached: Option<String>,
}

impl VersionReporter {
    /// Well-formedness: whatever the cache holds is the snapshot of the
    /// identity it was computed from.
    pub open spec fn wf(&self) -> bool {
        match self.cached {
            Some(s) => s@ == spec_snapshot_json(self.identity),
            None => true,
        }
    }

    /// A reporter for the given identity, with the snapshot not yet
    /// computed.
    pub fn new(identity: BuildIdentity) -> (r: VersionReporter)
        ensures
            r.identity == identity,
            r.cached is None,
            r.wf(),
    {
        VersionReporter { identity, cached: None }
    }

    /// The serialized snapshot. The first call computes and publishes
    /// it; every later call reads the published value without
    /// recomputation, so all queries within one process run return the
    /// same payload.
    pub fn current_version(&mut self) -> (r: String)
        requires
            old(self).wf(),
        ensures
            final(self).wf(),
            r@ == spec_snapshot_json(old(self).identity),
            final(self).identity == old(self).identity,
            final(self).cached is Some,
            final(self).cached->0@ == r@,
            old(self).cached is Some ==> final(self).cached == old(self).cached,
    {
        match &self.cached {
            Some(s) => s.clone(),
            None => {
                let s = render_snapshot(&self.identity);
                self.cached = Some(s.clone());
                s
            },
        }
    }
}

/// Repeated status queries within one process run are byte-identical:
/// any two payloads serialized from the same build identity are equal.
pub proof fn lemma_snapshot_identical(id: BuildIdentity, r1: Seq<char>, r2: Seq<char>)
    requires
        r1 == spec_snapshot_json(id),
        r2 == spec_snapshot_json(id),
    ensures
        r1 == r2,
{
}

} // verus!
