//! Transfer planning for the mount-and-copy engine.
//!
//! Mounting, copying and unmounting are the caller's work; the rules that
//! drive them live here. For every file of an ingress device the engine
//! derives a sanitized destination name (diacritics folded, question marks
//! dashed), a staging path in the rename directory, a final path in the
//! ingress directory and the path of the error report written when the
//! copy fails. Egress files keep their name up to diacritics folding. The
//! busy markers, the global lock file, the mount flags of the two
//! directions, and the sandbox enforcement policy are also decided here.

use vstd::prelude::*;
use vstd::string::*;

verus! {

/// Ingress rename-staging directory, on the same filesystem as the
/// ingress directory so that the final rename is atomic.
pub const TMP_DIR: &'static str = "/var/local/tmp/";

/// Ingress directory: sanitized incoming files appear here.
pub const SAS_IN: &'static str = "/var/local/in/";

/// Egress directory: files ready to leave are taken from here.
pub const SAS_OUT: &'static str = "/var/local/out/";

/// Marker that an ingress batch is in progress.
pub const LOCK: &'static str = "/var/local/in/.lock";

/// Directory of the busy markers.
pub const VAR_LOCK_DIR: &'static str = "/var/lock/keysas/";

/// Busy marker of an ingress transfer.
pub const WORKING_IN_FILE: &'static str = "/var/lock/keysas/keysas-in";

/// Busy marker of an egress transfer.
pub const WORKING_OUT_FILE: &'static str = "/var/lock/keysas/keysas-out";

/// A file name with every question mark replaced by a dash.
pub open spec fn spec_dashed(s: Seq<char>) -> Seq<char> {
    s.map_values(
        |c: char|
            if c == '?' {
                '-'
            } else {
                c
            },
    )
}

/// A file name with its diacritics folded to plain letters. Named after
/// the diacritics crate.
pub uninterp spec fn unaccented_of(s: Seq<char>) -> Seq<char>;

/// Relies on diacritics' `remove_diacritics`: the folding is a function of
/// the characters alone.
#[verifier::external_body]
fn fold_diacritics(name: &str) -> (r: String)
    ensures
        r@ == unaccented_of(name@),
{
    diacritics::remove_diacritics(name)
}

/// Replace every question mark of the name with a dash.
fn replace_question_marks(name: &str) -> (r: String)
    ensures
        r@ == spec_dashed(name@),
{
    let n = name.unicode_len();
    let mut out = String::new();
    let mut seg: usize = 0;
    let mut i: usize = 0;
    while i < n
        invariant
            seg <= i <= n,
            n == name@.len(),
            out@ == spec_dashed(name@.subrange(0, seg as int)),
            forall|j: int| seg <= j < i ==> name@[j] != '?',
        decreases n - i,
    {
        if name.get_char(i) == '?' {
            out.append(name.substring_char(seg, i));
            out.append("-");
            proof {
                reveal_strlit("-");
                assert(out@ =~= spec_dashed(name@.subrange(0, (i + 1) as int)));
            }
            seg = i + 1;
        }
        i += 1;
    }
    out.append(name.substring_char(seg, n));
    proof {
        assert(out@ =~= spec_dashed(name@));
    }
    out
}

/// The sanitized destination name of an ingress file: question marks
/// dashed, then diacritics folded.
pub fn clean_file_name(name: &str) -> (r: String)
    ensures
        r@ == unaccented_of(spec_dashed(name@)),
{
    let replaced = replace_question_marks(name);
    fold_diacritics(replaced.as_str())
}

/// The three paths of one ingress file: the staging path it is copied to,
/// the final path it is renamed to, and the error report written next to
/// the final path when the copy fails.
#[derive(Debug, Clone)]
pub struct IngressFilePlan {
    pub tmp_path: String,
    pub sas_path: String,
    pub error_report_path: String,
}

/// Plan one ingress file: the sanitized name under the staging directory,
/// under the ingress directory, and the error report path.
pub fn plan_ingress_file(file_name: &str) -> (r: IngressFilePlan)
    ensures
        r.tmp_path@ == TMP_DIR@ + unaccented_of(spec_dashed(file_name@)),
        r.sas_path@ == SAS_IN@ + unaccented_of(spec_dashed(file_name@)),
        r.error_report_path@ == SAS_IN@ + unaccented_of(spec_dashed(file_name@)) + ".ioerror"@,
{
    let cleaned = clean_file_name(file_name);
    let mut tmp_path: String = TMP_DIR.to_owned();
    tmp_path.append(cleaned.as_str());
    let mut sas_path: String = SAS_IN.to_owned();
    sas_path.append(cleaned.as_str());
    let mut error_report_path: String = SAS_IN.to_owned();
    error_report_path.append(cleaned.as_str());
    error_report_path.append(".ioerror");
    IngressFilePlan { tmp_path, sas_path, error_report_path }
}

/// Plan one egress file: the path written on the mounted device (name
/// with diacritics folded) and the path read from the egress directory
/// (name unchanged).
pub fn plan_egress_file(mount_point: &str, file_name: &str) -> (r: (String, String))
    ensures
        r.0@ == mount_point@ + "/"@ + unaccented_of(file_name@),
        r.1@ == SAS_OUT@ + file_name@,
{
    let folded = fold_diacritics(file_name);
    let mut write_path: String = mount_point.to_owned();
    write_path.append("/");
    write_path.append(folded.as_str());
    let mut read_path: String = SAS_OUT.to_owned();
    read_path.append(file_name);
    (write_path, read_path)
}

/// The dedup key of a device: `vendor/model/revision`.
pub fn product_key(vendor: &str, model: &str, revision: &str) -> (r: String)
    ensures
        r@ == vendor@ + "/"@ + model@ + "/"@ + revision@,
{
    let mut key: String = vendor.to_owned();
    key.append("/");
    key.append(model);
    key.append("/");
    key.append(revision);
    key
}

/// The device path with its trailing character removed: the partition
/// digit is stripped, since the signature lives on the disk, not on the
/// partition. An empty path stays empty.
pub fn remove_last<'a>(s: &'a str) -> (r: &'a str)
    ensures
        r@ == if s@.len() == 0 {
            s@
        } else {
            s@.drop_last()
        },
{
    let n = s.unicode_len();
    if n == 0 {
        s
    } else {
        let r = s.substring_char(0, n - 1);
        proof {
            assert(r@ =~= s@.drop_last());
        }
        r
    }
}

/// The mount flags of one transfer direction.
#[derive(Debug, Clone, Copy, PartialEq, Eq, Structural)]
pub struct MountFlagsPlan {
    pub read_only: bool,
    pub no_suid: bool,
    pub no_exec: bool,
    pub no_dev: bool,
}

/// Flags for mounting an untrusted ingress device: read-only, and nothing
/// on it may be executed, carry set-user-id rights, or act as a device.
pub fn ingress_mount_flags() -> (r: MountFlagsPlan)
    ensures
        r == (MountFlagsPlan { read_only: true, no_suid: true, no_exec: true, no_dev: true }),
{
    MountFlagsPlan { read_only: true, no_suid: true, no_exec: true, no_dev: true }
}

/// Flags for mounting a trusted egress device: writable, with the same
/// hardening otherwise.
pub fn egress_mount_flags() -> (r: MountFlagsPlan)
    ensures
        r == (MountFlagsPlan { read_only: false, no_suid: true, no_exec: true, no_dev: true }),
{
    MountFlagsPlan { read_only: false, no_suid: true, no_exec: true, no_dev: true }
}

/// One step of the busy-marker protocol.
#[derive(Debug, Clone, Copy, PartialEq, Eq, Structural)]
pub enum BusyStep {
    /// The marker directory is missing: create it.
    CreateLockDir,
    /// The other direction's marker is present: remove it.
    RemoveOtherMarker,
    /// Our own marker is missing: create it.
    CreateOwnMarker,
    /// Nothing to do.
    Nothing,
}

/// The step the busy-marker protocol takes, given what exists on disk.
pub open spec fn spec_busy_step(
    lock_dir_exists: bool,
    other_marker_exists: bool,
    own_marker_exists: bool,
) -> BusyStep {
    if !lock_dir_exists {
        BusyStep::CreateLockDir
    } else if other_marker_exists {
        BusyStep::RemoveOtherMarker
    } else if !own_marker_exists {
        BusyStep::CreateOwnMarker
    } else {
        BusyStep::Nothing
    }
}

/// Decide the busy-marker step when a transfer starts: create the marker
/// directory if it is missing, else clear the other direction's marker,
/// else create this direction's marker. The two markers never both exist
/// afterwards: creating one direction's marker is reached only once the
/// other's is gone.
pub fn busy_marker_plan(
    lock_dir_exists: bool,
    other_marker_exists: bool,
    own_marker_exists: bool,
) -> (r: BusyStep)
    ensures
        r == spec_busy_step(lock_dir_exists, other_marker_exists, own_marker_exists),
{
    if !lock_dir_exists {
        BusyStep::CreateLockDir
    } else if other_marker_exists {
        BusyStep::RemoveOtherMarker
    } else if !own_marker_exists {
        BusyStep::CreateOwnMarker
    } else {
        BusyStep::Nothing
    }
}

/// Enforcement level of the filesystem sandbox, as the kernel reports it.
#[derive(Debug, Clone, Copy, PartialEq, Eq, Structural)]
pub enum SandboxStatus {
    /// Every rule is enforced: a silent success.
    FullyEnforced,
    /// Only part of the rules are enforced.
    PartiallyEnforced,
    /// Nothing is enforced.
    NotEnforced,
}

/// What the daemon does about the sandbox enforcement level.
#[derive(Debug, Clone, Copy, PartialEq, Eq, Structural)]
pub enum SandboxDecision {
    /// Full enforcement: go on silently.
    Proceed,
    /// Degraded enforcement: go on, but warn.
    ProceedWithWarning,
    /// No enforcement on a hardened build: refuse to start.
    Abort,
}

/// The daemon's reaction to the sandbox enforcement level.
pub open spec fn spec_sandbox_decision(status: SandboxStatus, hardened: bool) -> SandboxDecision {
    match status {
        SandboxStatus::FullyEnforced => SandboxDecision::Proceed,
        SandboxStatus::PartiallyEnforced => SandboxDecision::ProceedWithWarning,
        SandboxStatus::NotEnforced => if hardened {
            SandboxDecision::Abort
        } else {
            SandboxDecision::ProceedWithWarning
        },
    }
}

/// Decide how to react to the sandbox enforcement level: full enforcement
/// is a silent success, partial enforcement a warning, and no enforcement
/// a warning too, unless the build is hardened, which refuses to start.
pub fn sandbox_decision(status: SandboxStatus, hardened: bool) -> (r: SandboxDecision)
    ensures
        r == spec_sandbox_decision(status, hardened),
{
    match status {
        SandboxStatus::FullyEnforced => SandboxDecision::Proceed,
        SandboxStatus::PartiallyEnforced => SandboxDecision::ProceedWithWarning,
        SandboxStatus::NotEnforced => if hardened {
            SandboxDecision::Abort
        } else {
            SandboxDecision::ProceedWithWarning
        },
    }
}

} // verus!
