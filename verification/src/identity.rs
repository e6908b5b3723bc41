//! Build-identity capture: the decision logic of the pre-build step that
//! turns the outcomes of toolchain and version-control sub-commands into
//! an immutable record of build facts.
//!
//! Running the external tools is input/output work and stays outside the
//! library; what stands here is the policy: the compiler identity is
//! mandatory, every git-derived fact is optional, the build profile and
//! target triple fall back to `"unknown"`, and the dirty flag fails safe
//! to `true` whenever the working-tree check could not run conclusively.

use vstd::prelude::*;
use vstd::string::StringExecFns;
use crate::text::views_of;

verus! {

/// The immutable record of facts captured once, before the binary is
/// produced. Absent facts (no git tool, no commits, no tag) are held as
/// `None`, never as empty strings conflated with real values.
pub struct BuildIdentity {
    pub build_profile: String,
    pub rust_version: String,
    pub rust_target: String,
    pub git_branch: Option<String>,
    pub git_describe: Option<String>,
    pub git_dirty: bool,
    pub git_revision: Option<String>,
    pub git_tag: Option<String>,
}

/// The one fatal outcome of the capture step: the compiler identity is a
/// hard dependency and cannot be defaulted.
#[derive(Clone, Copy, Debug, PartialEq, Eq, Structural)]
pub enum CaptureError {
    CompilerUnavailable,
}

/// Uniform classification of an external sub-command: the captured
/// standard output is a usable fact exactly when the command exited
/// successfully; any non-zero exit is "failed", regardless of the tool.
pub fn command_fact(exit_ok: bool, stdout: String) -> (r: Option<String>)
    ensures
        exit_ok ==> r == Some(stdout),
        !exit_ok ==> r is None,
{
    if exit_ok {
        Some(stdout)
    } else {
        None
    }
}

/// Assembles the build identity from the outcomes of the capture
/// sub-commands (`None` standing for a command that failed or a tool
/// that was unavailable).
///
/// The compiler identity is mandatory: without it the capture step
/// fails. The build profile and the target triple fall back to
/// `"unknown"`. Every git fact is optional and carried over as captured;
/// the dirty flag is `true` unless the working-tree check ran and
/// reported a clean tree.
pub fn capture_identity(
    build_profile: Option<String>,
    compiler_version: Option<String>,
    target_triple: Option<String>,
    git_branch: Option<String>,
    git_describe: Option<String>,
    git_diff_clean: bool,
    git_revision: Option<String>,
    git_tag: Option<String>,
) -> (r: Result<BuildIdentity, CaptureError>)
    ensures
        r is Err <==> compiler_version is None,
        r is Err ==> r->Err_0 == CaptureError::CompilerUnavailable,
        r is Ok ==> {
            let id = r->Ok_0;
            &&& id.rust_version == compiler_version->0
            &&& (match build_profile {
                Some(p) => id.build_profile == p,
                None => id.build_profile@ == "unknown"@,
            })
            &&& (match target_triple {
                Some(t) => id.rust_target == t,
                None => id.rust_target@ == "unknown"@,
            })
            &&& id.git_branch == git_branch
            &&& id.git_describe == git_describe
            &&& id.git_dirty == !git_diff_clean
            &&& id.git_revision == git_revision
            &&& id.git_tag == git_tag
        },
{
    let rust_version = match compiler_version {
        Some(v) => v,
        None => {
            return Err(CaptureError::CompilerUnavailable);
        },
    };
    let build_profile = match build_profile {
        Some(p) => p,
        None => String::from_str("unknown"),
    };
    let rust_target = match target_triple {
        Some(t) => t,
        None => String::from_str("unknown"),
    };
    Ok(BuildIdentity {
        build_profile,
        rust_version,
        rust_target,
        git_branch,
        git_describe,
        git_dirty: !git_diff_clean,
        git_revision,
        git_tag,
    })
}

/// A `"true"` / `"false"` rendering of a boolean.
pub open spec fn spec_bool(b: bool) -> Seq<char> {
    if b {
        "true"@
    } else {
        "false"@
    }
}

/// Renders a boolean as `"true"` or `"false"`.
pub fn bool_str(b: bool) -> (s: &'static str)
    ensures
        s@ == spec_bool(b),
{
    if b {
        "true"
    } else {
        "false"
    }
}

/// One dump line for an optional fact: a singleton when the fact is
/// present, nothing at all when it is absent.
pub open spec fn opt_line(prefix: Seq<char>, v: Option<String>) -> Seq<Seq<char>> {
    match v {
        Some(s) => seq![prefix + s@],
        None => seq![],
    }
}

/// The launch-time dump of the build identity, line by line: the three
/// mandatory facts, then each git fact that was captured, with absent
/// facts omitted rather than printed empty.
pub open spec fn spec_version_dump(id: BuildIdentity) -> Seq<Seq<char>> {
    seq![
        "BUILD_PROFILE: "@ + id.build_profile@,
        "RUSTC_VERSION: "@ + id.rust_version@,
        "RUST_TARGET: "@ + id.rust_target@,
    ] + opt_line("GIT_BRANCH: "@, id.git_branch) + opt_line("GIT_DESCRIBE: "@, id.git_describe)
        + seq!["GIT_DIRTY: "@ + spec_bool(id.git_dirty)] + opt_line(
        "GIT_REVISION: "@,
        id.git_revision,
    ) + opt_line("GIT_TAG: "@, id.git_tag)
}

/// Produces the launch-time dump lines of the build identity.
pub fn version_dump(id: &BuildIdentity) -> (lines: Vec<String>)
    ensures
        views_of(lines@) == spec_version_dump(*id),
{
    let mut lines: Vec<String> = Vec::new();
    lines.push(crate::text::concat2("BUILD_PROFILE: ", id.build_profile.as_str()));
    lines.push(crate::text::concat2("RUSTC_VERSION: ", id.rust_version.as_str()));
    lines.push(crate::text::concat2("RUST_TARGET: ", id.rust_target.as_str()));
    if let Some(branch) = &id.git_branch {
        lines.push(crate::text::concat2("GIT_BRANCH: ", branch.as_str()));
    }
    if let Some(describe) = &id.git_describe {
        lines.push(crate::text::concat2("GIT_DESCRIBE: ", describe.as_str()));
    }
    lines.push(crate::text::concat2("GIT_DIRTY: ", bool_str(id.git_dirty)));
    if let Some(revision) = &id.git_revision {
        lines.push(crate::text::concat2("GIT_REVISION: ", revision.as_str()));
    }
    if let Some(tag) = &id.git_tag {
        lines.push(crate::text::concat2("GIT_TAG: ", tag.as_str()));
    }
    proof {
        assert(views_of(lines@) =~~= spec_version_dump(*id));
    }
    lines
}

/// The opt-in diagnostic dump emitted when a capture sub-command fails:
/// nothing at all unless diagnostics are enabled, otherwise the captured
/// output of the failed command between separator lines.
pub open spec fn spec_diagnostic_dump(
    command: Seq<char>,
    stdout: Seq<char>,
    stderr: Seq<char>,
    enabled: bool,
) -> Seq<Seq<char>> {
    if enabled {
        seq![
            "--------------------------------------------------"@,
            "Dumping failed output for command: "@ + command,
            "--------------------------------------------------"@,
            "STDOUT:"@,
            stdout,
            "--------------------------------------------------"@,
            "STDERR:"@,
            stderr,
        ]
    } else {
        seq![]
    }
}

/// Produces the diagnostic lines for a failed capture sub-command.
pub fn diagnostic_dump(command: &str, stdout: &str, stderr: &str, enabled: bool) -> (lines: Vec<
    String,
>)
    ensures
        views_of(lines@) == spec_diagnostic_dump(command@, stdout@, stderr@, enabled),
{
    let mut lines: Vec<String> = Vec::new();
    if enabled {
        lines.push(String::from_str("--------------------------------------------------"));
        lines.push(crate::text::concat2("Dumping failed output for command: ", command));
        lines.push(String::from_str("--------------------------------------------------"));
        lines.push(String::from_str("STDOUT:"));
        lines.push(String::from_str(stdout));
        lines.push(String::from_str("--------------------------------------------------"));
        lines.push(String::from_str("STDERR:"));
        lines.push(String::from_str(stderr));
    }
    proof {
        assert(views_of(lines@) =~~= spec_diagnostic_dump(command@, stdout@, stderr@, enabled));
    }
    lines
}

} // verus!
