//! Uninstall: deregister the service, delete local artifacts by path
//! (idempotently), report token clean-up, and never delete under the vault root.

use vstd::prelude::*;

use crate::foundation::core_types::path::{
    is_ascii_alpha, is_parent_segment, kept_segments, split_slash, unify_separators,
};
use crate::text::chars_of;

use super::platform::windows_paths;
use super::service::{ServiceError, ServiceManager};

verus! {

/// Kind of a clean-up artifact (also selects the `purge_logs`/`purge_token` switches).
#[derive(Debug, Clone, Copy, PartialEq, Eq, Structural)]
pub enum ArtifactKind {
    /// Upload history file.
    UploadHistory,
    /// Persisted sync state file.
    SyncState,
    /// Structured log; gated by `purge_logs`.
    Log,
    /// Configuration file holding a plaintext token; gated by `purge_token`.
    ConfigToken,
}

/// One clean-up target, by its path text.
#[derive(Debug, Clone, PartialEq, Eq)]
pub struct Artifact {
    /// Kind of artifact.
    pub kind: ArtifactKind,
    /// Absolute path.
    pub path: String,
}

/// The injected set of clean-up targets.
#[derive(Debug, Clone, Default, PartialEq, Eq)]
pub struct ArtifactSet(pub Vec<Artifact>);

/// Scope switches of an uninstall.
#[derive(Debug, Clone, Copy, PartialEq, Eq, Structural)]
pub struct UninstallOptions {
    /// Try to clean configuration, environment and secure-store tokens.
    pub purge_token: bool,
    /// Include `Log` artifacts.
    pub purge_logs: bool,
    /// Deregister the service first (default `true`).
    pub deregister_service: bool,
}

impl Default for UninstallOptions {
    fn default() -> (o: Self)
        ensures
            !o.purge_token,
            !o.purge_logs,
            o.deregister_service,
    {
        UninstallOptions { purge_token: false, purge_logs: false, deregister_service: true }
    }
}

/// What a skip entry is about.
#[derive(Debug, Clone, PartialEq, Eq)]
pub enum SkipTarget {
    /// An artifact path.
    Artifact(Artifact),
    /// The persistent environment token.
    EnvToken,
    /// The OS secure-store token.
    SecureStoreToken,
}

/// Why something was not removed.
#[derive(Debug, Clone, Copy, PartialEq, Eq, Structural)]
pub enum SkipReason {
    /// Already absent.
    AlreadyAbsent,
    /// Removal failed: a residual item.
    PermissionDenied,
    /// Under the vault root: never deleted.
    VaultProtected,
    /// The process cannot unset a persistent environment variable.
    EnvTokenExternal,
    /// The secure store offers no removal.
    SecureStoreRemovalUnsupported,
}

/// Summary of an uninstall: removed artifacts and skipped targets with reasons.
#[derive(Debug, Clone, Default, PartialEq, Eq)]
pub struct UninstallReport {
    /// Artifacts removed (or already absent).
    pub removed: Vec<Artifact>,
    /// Targets not removed, with the reason.
    pub skipped: Vec<(SkipTarget, SkipReason)>,
}

/// Uninstall errors.
#[derive(Debug, Clone, PartialEq, Eq)]
pub enum UninstallError {
    /// Some items remain; the report says which.
    PartialFailure(UninstallReport),
    /// An underlying failure before any report could be assembled.
    Io(String),
}

impl UninstallError {
    /// The message of the error.
    pub fn message(&self) -> (s: String)
        ensures
            s@ == match *self {
                UninstallError::PartialFailure(_) => "부분 실패: 잔존 항목이 있습니다"@,
                UninstallError::Io(d) => "정리 I/O 실패: "@ + d@,
            },
    {
        match self {
            UninstallError::PartialFailure(_) => crate::text::string_of("부분 실패: 잔존 항목이 있습니다"),
            UninstallError::Io(d) => {
                let mut s = crate::text::string_of("정리 I/O 실패: ");
                crate::text::push_str(&mut s, d.as_str());
                s
            },
        }
    }
}

/// Deletion seam errors.
#[derive(Debug, Clone, PartialEq, Eq)]
pub enum FsError {
    /// Insufficient permission.
    PermissionDenied,
    /// Other I/O failure.
    Io(String),
}

/// Path deletion seam; an absent path is `Ok(false)`, not an error.
///
/// `removes` is the implementation's relation between a path and the
/// results deleting it can give; by default every result is possible.
pub trait FileSystem: Send + Sync {
    /// `r` is a result that deleting `path` can give.
    open spec fn removes(&self, path: Seq<char>, r: Result<bool, FsError>) -> bool {
        true
    }

    /// Deletes the path; `Ok(existed)`.
    fn remove(&self, path: &str) -> (r: Result<bool, FsError>)
        ensures
            self.removes(path@, r),
    ;
}

/// Outcome of a secure-store token purge.
#[derive(Debug, Clone, Copy, PartialEq, Eq, Structural)]
pub enum PurgeOutcome {
    /// Removed.
    Removed,
    /// Already absent.
    AlreadyAbsent,
}

/// The secure store offers no token removal.
#[derive(Debug, Clone, Copy, PartialEq, Eq, Structural)]
pub struct PurgeUnsupported;

/// Secure-store token purge seam.
///
/// `purges` is the implementation's relation of possible purge results; by
/// default every result is possible.
pub trait TokenPurgePort: Send + Sync {
    /// `r` is a result that purging can give.
    open spec fn purges(&self, r: Result<PurgeOutcome, PurgeUnsupported>) -> bool {
        true
    }

    /// Tries to remove the secure-store token.
    fn purge_secure_store_token(&self) -> (r: Result<PurgeOutcome, PurgeUnsupported>)
        ensures
            self.purges(r),
    ;
}

/// Default port: removal is never supported.
#[derive(Debug, Clone, Copy, Default)]
pub struct UnsupportedTokenPurge;

impl TokenPurgePort for UnsupportedTokenPurge {
    /// Purging never succeeds.
    open spec fn purges(&self, r: Result<PurgeOutcome, PurgeUnsupported>) -> bool {
        r == Err::<PurgeOutcome, PurgeUnsupported>(PurgeUnsupported)
    }

    fn purge_secure_store_token(&self) -> (r: Result<PurgeOutcome, PurgeUnsupported>)
        ensures
            r == Err::<PurgeOutcome, PurgeUnsupported>(PurgeUnsupported),
    {
        Err(PurgeUnsupported)
    }
}

// ---------------------------------------------------------------------------
// Lexical path comparison (no filesystem access).
// ---------------------------------------------------------------------------

/// The root component.
pub open spec fn root_component() -> Seq<char> {
    seq!['/']
}

/// The components of a `/`-separated text: the root when it starts with
/// `/`, then its segments without empty and `.` ones (`..` kept).
pub open spec fn rooted_components(q: Seq<char>) -> Seq<Seq<char>> {
    let segs = kept_segments(split_slash(q));
    if q.len() > 0 && q[0] == '/' {
        seq![root_component()] + segs
    } else {
        segs
    }
}

/// An ASCII letter in upper case; any other character unchanged.
pub open spec fn ascii_upper(d: char) -> char {
    if 'a' <= d && d <= 'z' {
        (d as int - 32) as char
    } else {
        d
    }
}

/// Whether a (separator-unified) text starts with a Windows drive prefix `X:`.
pub open spec fn has_drive_prefix(q: Seq<char>) -> bool {
    q.len() >= 2 && is_ascii_alpha(q[0]) && q[1] == ':'
}

/// The component of a drive prefix: its letter in upper case and `:`, with
/// a trailing `/` that no path segment can hold, so that `..` never cancels
/// it and drive letters compare without case.
pub open spec fn drive_component(d: char) -> Seq<char> {
    seq![ascii_upper(d), ':', '/']
}

/// The components of a path under a platform's conventions. On Unix only
/// `/` separates; on Windows `\\` does too, and a drive prefix `X:` is a
/// component of its own before the root and the segments.
pub open spec fn spec_components(p: Seq<char>, windows: bool) -> Seq<Seq<char>> {
    if windows {
        let q = unify_separators(p);
        if has_drive_prefix(q) {
            seq![drive_component(q[0])] + rooted_components(q.skip(2))
        } else {
            rooted_components(q)
        }
    } else {
        rooted_components(p)
    }
}

/// A named component: neither the root nor a drive prefix (both hold a
/// `/`) nor `..`.
pub open spec fn is_named_component(c: Seq<char>) -> bool {
    !c.contains('/') && !is_parent_segment(c)
}

/// Lexical normalization: each `..` cancels a preceding named component,
/// and is kept when there is none.
pub open spec fn lexical_normalize(comps: Seq<Seq<char>>) -> Seq<Seq<char>>
    decreases comps.len(),
{
    if comps.len() == 0 {
        Seq::empty()
    } else {
        let st = lexical_normalize(comps.drop_last());
        let c = comps.last();
        if is_parent_segment(c) && st.len() > 0 && is_named_component(st.last()) {
            st.drop_last()
        } else {
            st.push(c)
        }
    }
}

/// `path` is `root` itself or lies under it, after lexical normalization of both.
pub open spec fn spec_is_descendant(path: Seq<char>, root: Seq<char>, windows: bool) -> bool {
    let np = lexical_normalize(spec_components(path, windows));
    let nr = lexical_normalize(spec_components(root, windows));
    nr.len() <= np.len() && np.take(nr.len() as int) == nr
}

fn copy_chars(v: &Vec<char>) -> (r: Vec<char>)
    ensures
        r@ == v@,
{
    let mut r: Vec<char> = Vec::new();
    let n = v.len();
    let mut i: usize = 0;
    while i < n
        invariant
            n == v@.len(),
            i <= n,
            r@ == v@.take(i as int),
        decreases n - i,
    {
        r.push(v[i]);
        i = i + 1;
        assert(r@ =~= v@.take(i as int));
    }
    assert(v@.take(n as int) =~= v@);
    r
}

fn same_chars(a: &Vec<char>, b: &Vec<char>) -> (r: bool)
    ensures
        r == (a@ == b@),
{
    if a.len() != b.len() {
        return false;
    }
    let n = a.len();
    let mut i: usize = 0;
    while i < n
        invariant
            n == a@.len(),
            n == b@.len(),
            i <= n,
            forall|j: int| 0 <= j < i ==> a@[j] == b@[j],
        decreases n - i,
    {
        if a[i] != b[i] {
            return false;
        }
        i = i + 1;
    }
    assert(a@ =~= b@);
    true
}

/// The non-empty, non-`.` segments of a character sequence.
fn kept_segments_of(v: &Vec<char>) -> (k: Vec<Vec<char>>)
    ensures
        k@.map_values(|x: Vec<char>| x@) == kept_segments(split_slash(v@)),
{
    let mut cur: Vec<char> = Vec::new();
    let mut kept: Vec<Vec<char>> = Vec::new();
    let n = v.len();
    let mut i: usize = 0;
    while i < n
        invariant
            n == v@.len(),
            i <= n,
            split_slash(v@.take(i as int)).last() == cur@,
            kept@.map_values(|x: Vec<char>| x@) == kept_segments(
                split_slash(v@.take(i as int)).drop_last(),
            ),
            split_slash(v@.take(i as int)).len() >= 1,
        decreases n - i,
    {
        let ghost pre = v@.take(i as int);
        let ghost segs = split_slash(pre);
        let c = v[i];
        assert(v@.take(i + 1) =~= pre.push(c));
        assert(pre.push(c).drop_last() =~= pre);
        if c == '/' {
            assert(split_slash(pre.push(c)) == segs.push(Seq::<char>::empty()));
            assert(segs.push(Seq::<char>::empty()).drop_last() =~= segs);
            assert(segs.drop_last().push(segs.last()) =~= segs);
            let noise = cur.len() == 0 || (cur.len() == 1 && cur[0] == '.');
            if !noise {
                let ghost before = kept@;
                kept.push(cur);
                assert(kept@.map_values(|x: Vec<char>| x@) =~= before.map_values(
                    |x: Vec<char>| x@,
                ).push(segs.last()));
            }
            cur = Vec::new();
        } else {
            cur.push(c);
            assert(split_slash(pre.push(c)) == segs.update(segs.len() - 1, segs.last().push(c)));
            assert(segs.update(segs.len() - 1, segs.last().push(c)).drop_last()
                =~= segs.drop_last());
        }
        i = i + 1;
    }
    assert(v@.take(n as int) =~= v@);
    let ghost segs = split_slash(v@);
    assert(segs.drop_last().push(segs.last()) =~= segs);
    let noise = cur.len() == 0 || (cur.len() == 1 && cur[0] == '.');
    if !noise {
        let ghost before = kept@;
        kept.push(cur);
        assert(kept@.map_values(|x: Vec<char>| x@) =~= before.map_values(|x: Vec<char>| x@).push(
            segs.last(),
        ));
    }
    kept
}

/// The characters of a path with each backslash turned into a slash.
fn unified_chars(p: &str) -> (u: Vec<char>)
    ensures
        u@ == unify_separators(p@),
{
    let v = chars_of(p);
    let n = v.len();
    let mut u: Vec<char> = Vec::new();
    let mut i: usize = 0;
    while i < n
        invariant
            n == v@.len(),
            v@ == p@,
            i <= n,
            u@ == unify_separators(v@.take(i as int)),
        decreases n - i,
    {
        let c = v[i];
        u.push(if c == '\\' { '/' } else { c });
        i = i + 1;
        assert(unify_separators(v@.take(i as int)) =~= unify_separators(v@.take(i - 1)).push(
            if c == '\\' { '/' } else { c },
        ));
    }
    assert(v@.take(n as int) =~= v@);
    u
}

/// The components of a path (see `spec_components`).
fn components(p: &str, windows: bool) -> (c: Vec<Vec<char>>)
    ensures
        c@.map_values(|x: Vec<char>| x@) == spec_components(p@, windows),
{
    if !windows {
        let v = chars_of(p);
        return rooted(&v);
    }
    let v = unified_chars(p);
    if v.len() >= 2 && ((v[0] >= 'a' && v[0] <= 'z') || (v[0] >= 'A' && v[0] <= 'Z')) && v[1] == ':' {
        let d = v[0];
        let up = if d >= 'a' && d <= 'z' {
            ((d as u8) - 32) as char
        } else {
            d
        };
        assert(up == ascii_upper(d));
        let mut drive: Vec<char> = Vec::new();
        drive.push(up);
        drive.push(':');
        drive.push('/');
        assert(drive@ =~= drive_component(d));
        let mut rest: Vec<char> = Vec::new();
        let n = v.len();
        let mut i: usize = 2;
        while i < n
            invariant
                n == v@.len(),
                2 <= i <= n,
                rest@ == v@.subrange(2, i as int),
            decreases n - i,
        {
            rest.push(v[i]);
            i = i + 1;
            assert(rest@ =~= v@.subrange(2, i as int));
        }
        assert(rest@ =~= v@.skip(2));
        let mut tail = rooted(&rest);
        let mut out: Vec<Vec<char>> = Vec::new();
        out.push(drive);
        let ghost head = out@;
        let ghost t = tail@;
        out.append(&mut tail);
        assert(out@.map_values(|x: Vec<char>| x@) =~= head.map_values(|x: Vec<char>| x@)
            + t.map_values(|x: Vec<char>| x@));
        assert(head.map_values(|x: Vec<char>| x@) =~= seq![drive_component(d)]);
        out
    } else {
        rooted(&v)
    }
}

/// The components of a `/`-separated text (see `rooted_components`).
fn rooted(v: &Vec<char>) -> (c: Vec<Vec<char>>)
    ensures
        c@.map_values(|x: Vec<char>| x@) == rooted_components(v@),
{
    let mut segs = kept_segments_of(v);
    if v.len() > 0 && v[0] == '/' {
        let mut out: Vec<Vec<char>> = Vec::new();
        let mut root: Vec<char> = Vec::new();
        root.push('/');
        out.push(root);
        let ghost head = out@;
        let ghost tail = segs@;
        out.append(&mut segs);
        assert(out@.map_values(|x: Vec<char>| x@) =~= head.map_values(|x: Vec<char>| x@)
            + tail.map_values(|x: Vec<char>| x@));
        assert(head.map_values(|x: Vec<char>| x@) =~= seq![root_component()]);
        out
    } else {
        segs
    }
}

fn is_parent_component(c: &Vec<char>) -> (r: bool)
    ensures
        r == is_parent_segment(c@),
{
    c.len() == 2 && c[0] == '.' && c[1] == '.'
}

fn is_named(c: &Vec<char>) -> (r: bool)
    ensures
        r == is_named_component(c@),
{
    let n = c.len();
    let mut i: usize = 0;
    while i < n
        invariant
            n == c@.len(),
            i <= n,
            forall|j: int| 0 <= j < i ==> c@[j] != '/',
        decreases n - i,
    {
        if c[i] == '/' {
            assert(c@.contains('/'));
            return false;
        }
        i = i + 1;
    }
    !is_parent_component(c)
}

/// Lexical normalization of a component list.
fn normalize_lexical(comps: &Vec<Vec<char>>) -> (r: Vec<Vec<char>>)
    ensures
        r@.map_values(|x: Vec<char>| x@) == lexical_normalize(comps@.map_values(|x: Vec<char>| x@)),
{
    let ghost cv = comps@.map_values(|x: Vec<char>| x@);
    let mut stack: Vec<Vec<char>> = Vec::new();
    let n = comps.len();
    let mut i: usize = 0;
    while i < n
        invariant
            n == comps@.len(),
            cv == comps@.map_values(|x: Vec<char>| x@),
            i <= n,
            stack@.map_values(|x: Vec<char>| x@) == lexical_normalize(cv.take(i as int)),
        decreases n - i,
    {
        assert(cv.take(i + 1).drop_last() =~= cv.take(i as int));
        assert(cv.take(i + 1).last() == comps@[i as int]@);
        let c = &comps[i];
        let ghost before = stack@;
        if is_parent_component(c) && stack.len() > 0 && is_named(&stack[stack.len() - 1]) {
            stack.pop();
            assert(stack@.map_values(|x: Vec<char>| x@) =~= before.map_values(
                |x: Vec<char>| x@,
            ).drop_last());
        } else {
            stack.push(copy_chars(c));
            assert(stack@.map_values(|x: Vec<char>| x@) =~= before.map_values(
                |x: Vec<char>| x@,
            ).push(c@));
        }
        i = i + 1;
    }
    assert(cv.take(n as int) =~= cv);
    stack
}

/// Whether `path` is `root` or lies under it, after lexical normalization
/// of both (`.` dropped, `..` cancelling a preceding named component).
pub fn is_descendant_on(path: &str, root: &str, windows: bool) -> (r: bool)
    ensures
        r == spec_is_descendant(path@, root@, windows),
{
    let np = normalize_lexical(&components(path, windows));
    let nr = normalize_lexical(&components(root, windows));
    let ghost npv = np@.map_values(|x: Vec<char>| x@);
    let ghost nrv = nr@.map_values(|x: Vec<char>| x@);
    if nr.len() > np.len() {
        return false;
    }
    let n = nr.len();
    let mut i: usize = 0;
    while i < n
        invariant
            n == nr@.len(),
            n <= np@.len(),
            npv == np@.map_values(|x: Vec<char>| x@),
            nrv == nr@.map_values(|x: Vec<char>| x@),
            npv == lexical_normalize(spec_components(path@, windows)),
            nrv == lexical_normalize(spec_components(root@, windows)),
            i <= n,
            forall|j: int| 0 <= j < i ==> npv[j] == nrv[j],
        decreases n - i,
    {
        if !same_chars(&np[i], &nr[i]) {
            assert(npv[i as int] == np@[i as int]@);
            assert(nrv[i as int] == nr@[i as int]@);
            assert(npv.take(n as int)[i as int] != nrv[i as int]);
            return false;
        }
        i = i + 1;
    }
    assert(npv.take(n as int) =~= nrv);
    true
}

/// Whether `path` is `root` or lies under it on this platform: the result is
/// the Unix or the Windows judgment (`\\` a separator only on Windows),
/// whichever convention the platform follows.
pub fn is_descendant(path: &str, root: &str) -> (r: bool)
    ensures
        r == spec_is_descendant(path@, root@, false) || r == spec_is_descendant(
            path@,
            root@,
            true,
        ),
{
    is_descendant_on(path, root, windows_paths())
}

// ---------------------------------------------------------------------------
// Uninstall pipeline.
// ---------------------------------------------------------------------------

/// Whether an artifact is tried at all: logs only with `purge_logs`, the
/// configuration token file only with `purge_token`.
pub open spec fn is_attempted(opts: UninstallOptions, a: Artifact) -> bool {
    !(a.kind == ArtifactKind::Log && !opts.purge_logs) && !(a.kind == ArtifactKind::ConfigToken
        && !opts.purge_token)
}

/// The artifact part of the report, given whether each deletion succeeded
/// (`removed[i]` matters only when artifact `i` is tried and outside the vault).
pub open spec fn spec_artifact_report(
    arts: Seq<Artifact>,
    opts: UninstallOptions,
    vault_root: Seq<char>,
    removed: Seq<bool>,
    windows: bool,
) -> (Seq<Artifact>, Seq<(SkipTarget, SkipReason)>)
    decreases arts.len(),
{
    if arts.len() == 0 {
        (Seq::empty(), Seq::empty())
    } else {
        let prev = spec_artifact_report(
            arts.drop_last(),
            opts,
            vault_root,
            removed.drop_last(),
            windows,
        );
        let a = arts.last();
        if !is_attempted(opts, a) {
            prev
        } else if spec_is_descendant(a.path@, vault_root, windows) {
            (prev.0, prev.1.push((SkipTarget::Artifact(a), SkipReason::VaultProtected)))
        } else if removed.last() {
            (prev.0.push(a), prev.1)
        } else {
            (prev.0, prev.1.push((SkipTarget::Artifact(a), SkipReason::PermissionDenied)))
        }
    }
}

/// The token part of the report: with `purge_token`, the environment token
/// is reported external, and the secure-store token unsupported unless its
/// purge succeeded.
pub open spec fn spec_token_skips(opts: UninstallOptions, purged: bool) -> Seq<(SkipTarget, SkipReason)> {
    if !opts.purge_token {
        Seq::empty()
    } else if purged {
        seq![(SkipTarget::EnvToken, SkipReason::EnvTokenExternal)]
    } else {
        seq![
            (SkipTarget::EnvToken, SkipReason::EnvTokenExternal),
            (SkipTarget::SecureStoreToken, SkipReason::SecureStoreRemovalUnsupported),
        ]
    }
}

/// Whether some skip is a residual (`PermissionDenied`).
pub open spec fn has_residual(skipped: Seq<(SkipTarget, SkipReason)>) -> bool {
    exists|i: int| 0 <= i < skipped.len() && (#[trigger] skipped[i]).1 == SkipReason::PermissionDenied
}

/// The whole report, given the deletion and purge outcomes.
pub open spec fn spec_report(
    arts: Seq<Artifact>,
    opts: UninstallOptions,
    vault_root: Seq<char>,
    removed: Seq<bool>,
    purged: bool,
    windows: bool,
) -> (Seq<Artifact>, Seq<(SkipTarget, SkipReason)>) {
    let a = spec_artifact_report(arts, opts, vault_root, removed, windows);
    (a.0, a.1 + spec_token_skips(opts, purged))
}

/// The uninstall result given the outcomes: `Ok(report)` without residuals,
/// `PartialFailure(report)` with some.
pub open spec fn uninstall_result_holds(
    r: Result<UninstallReport, UninstallError>,
    rep: (Seq<Artifact>, Seq<(SkipTarget, SkipReason)>),
) -> bool {
    match r {
        Ok(report) => report.removed@ == rep.0 && report.skipped@ == rep.1 && !has_residual(rep.1),
        Err(UninstallError::PartialFailure(report)) => report.removed@ == rep.0 && report.skipped@
            == rep.1 && has_residual(rep.1),
        Err(UninstallError::Io(_)) => false,
    }
}

/// The number of artifacts that are tried (their switch is on).
pub open spec fn attempted_count(arts: Seq<Artifact>, opts: UninstallOptions) -> nat
    decreases arts.len(),
{
    if arts.len() == 0 {
        0
    } else {
        attempted_count(arts.drop_last(), opts) + if is_attempted(opts, arts.last()) {
            1nat
        } else {
            0nat
        }
    }
}

/// The vault is never deleted: no removed artifact lies under the vault
/// root, and every tried artifact under it is skipped as `VaultProtected`.
/// The report is complete: each tried artifact is either removed or skipped,
/// exactly once, and untried ones appear nowhere.
pub proof fn lemma_report_protects_vault_and_is_complete(
    arts: Seq<Artifact>,
    opts: UninstallOptions,
    vault_root: Seq<char>,
    removed: Seq<bool>,
    windows: bool,
)
    requires
        removed.len() == arts.len(),
    ensures
        ({
            let rep = spec_artifact_report(arts, opts, vault_root, removed, windows);
            &&& forall|i: int|
                0 <= i < rep.0.len() ==> !spec_is_descendant(
                    (#[trigger] rep.0[i]).path@,
                    vault_root,
                    windows,
                )
            &&& forall|i: int|
                0 <= i < arts.len() && is_attempted(opts, arts[i]) && spec_is_descendant(
                    arts[i].path@,
                    vault_root,
                    windows,
                ) ==> rep.1.contains(
                    (SkipTarget::Artifact(#[trigger] arts[i]), SkipReason::VaultProtected),
                )
            &&& rep.0.len() + rep.1.len() == attempted_count(arts, opts)
        }),
    decreases arts.len(),
{
    if arts.len() > 0 {
        let init = arts.drop_last();
        lemma_report_protects_vault_and_is_complete(
            init,
            opts,
            vault_root,
            removed.drop_last(),
            windows,
        );
        let prev = spec_artifact_report(init, opts, vault_root, removed.drop_last(), windows);
        let rep = spec_artifact_report(arts, opts, vault_root, removed, windows);
        assert forall|i: int|
            0 <= i < arts.len() && is_attempted(opts, arts[i]) && spec_is_descendant(
                arts[i].path@,
                vault_root,
                windows,
            ) implies rep.1.contains(
            (SkipTarget::Artifact(#[trigger] arts[i]), SkipReason::VaultProtected),
        ) by {
            if i < arts.len() - 1 {
                assert(arts[i] == init[i]);
                let k = choose|k: int|
                    0 <= k < prev.1.len() && prev.1[k] == (
                        SkipTarget::Artifact(init[i]),
                        SkipReason::VaultProtected,
                    );
                assert(rep.1[k] == prev.1[k]);
            } else {
                assert(rep.1[rep.1.len() - 1] == (
                    SkipTarget::Artifact(arts[i]),
                    SkipReason::VaultProtected,
                ));
            }
        }
    }
}

/// Which artifacts are tried, stated by kind: a log only with
/// `purge_logs`, the configuration token file only with `purge_token`, and
/// every other kind always. Each tried artifact outside the vault appears in
/// the report, removed or skipped as `PermissionDenied`; it is never left
/// out. A log or token file whose switch is off never appears as removed.
pub proof fn lemma_switches_decide_what_is_tried(
    arts: Seq<Artifact>,
    opts: UninstallOptions,
    vault_root: Seq<char>,
    removed: Seq<bool>,
    windows: bool,
)
    requires
        removed.len() == arts.len(),
    ensures
        ({
            let rep = spec_artifact_report(arts, opts, vault_root, removed, windows);
            &&& forall|i: int|
                0 <= i < arts.len() && (arts[i].kind == ArtifactKind::Log ==> opts.purge_logs) && (
                arts[i].kind == ArtifactKind::ConfigToken ==> opts.purge_token)
                    && !spec_is_descendant(arts[i].path@, vault_root, windows) ==> (
                rep.0.contains(#[trigger] arts[i]) || rep.1.contains(
                    (SkipTarget::Artifact(arts[i]), SkipReason::PermissionDenied),
                ))
            &&& forall|j: int|
                0 <= j < rep.0.len() ==> ((#[trigger] rep.0[j]).kind == ArtifactKind::Log
                    ==> opts.purge_logs) && (rep.0[j].kind == ArtifactKind::ConfigToken
                    ==> opts.purge_token)
        }),
    decreases arts.len(),
{
    if arts.len() > 0 {
        let init = arts.drop_last();
        lemma_switches_decide_what_is_tried(init, opts, vault_root, removed.drop_last(), windows);
        let prev = spec_artifact_report(init, opts, vault_root, removed.drop_last(), windows);
        let rep = spec_artifact_report(arts, opts, vault_root, removed, windows);
        assert(prev.0.is_prefix_of(rep.0));
        assert(prev.1.is_prefix_of(rep.1));
        assert forall|i: int|
            0 <= i < arts.len() && (arts[i].kind == ArtifactKind::Log ==> opts.purge_logs) && (
            arts[i].kind == ArtifactKind::ConfigToken ==> opts.purge_token) && !spec_is_descendant(
                arts[i].path@,
                vault_root,
                windows,
            ) implies (rep.0.contains(#[trigger] arts[i]) || rep.1.contains(
            (SkipTarget::Artifact(arts[i]), SkipReason::PermissionDenied),
        )) by {
            if i < arts.len() - 1 {
                assert(arts[i] == init[i]);
                if prev.0.contains(init[i]) {
                    let k = choose|k: int| 0 <= k < prev.0.len() && prev.0[k] == init[i];
                    assert(rep.0[k] == prev.0[k]);
                } else {
                    let k = choose|k: int|
                        0 <= k < prev.1.len() && prev.1[k] == (
                            SkipTarget::Artifact(init[i]),
                            SkipReason::PermissionDenied,
                        );
                    assert(rep.1[k] == prev.1[k]);
                }
            } else {
                if removed.last() {
                    assert(rep.0[rep.0.len() - 1] == arts[i]);
                } else {
                    assert(rep.1[rep.1.len() - 1] == (
                        SkipTarget::Artifact(arts[i]),
                        SkipReason::PermissionDenied,
                    ));
                }
            }
        }
        assert forall|j: int| 0 <= j < rep.0.len() implies ((#[trigger] rep.0[j]).kind
            == ArtifactKind::Log ==> opts.purge_logs) && (rep.0[j].kind == ArtifactKind::ConfigToken
            ==> opts.purge_token) by {
            if j < prev.0.len() {
                assert(rep.0[j] == prev.0[j]);
            }
        }
    }
}

/// Whether each deletion succeeded (`Ok`, including an absent path).
pub open spec fn removal_successes(results: Seq<Result<bool, FsError>>) -> Seq<bool> {
    results.map_values(|x: Result<bool, FsError>| x is Ok)
}

/// The deletion results line up with the artifacts, and each tried artifact
/// outside the vault has a result that the file system can give for its path.
pub open spec fn deletions_tied(
    u: &Uninstaller,
    arts: Seq<Artifact>,
    opts: UninstallOptions,
    vault_root: Seq<char>,
    results: Seq<Result<bool, FsError>>,
) -> bool {
    &&& results.len() == arts.len()
    &&& forall|i: int|
        0 <= i < arts.len() && is_attempted(opts, arts[i]) && !spec_is_descendant(
            arts[i].path@,
            vault_root,
            u.spec_windows(),
        ) ==> u.fs_removes(arts[i].path@, #[trigger] results[i])
}

/// The uninstall result explained by the seams' results: the deletion
/// results are tied to the file system, the purge result (with
/// `purge_token`) to the token port, and the result is the report that
/// these outcomes give.
pub open spec fn uninstall_explained(
    u: &Uninstaller,
    arts: Seq<Artifact>,
    opts: UninstallOptions,
    vault_root: Seq<char>,
    results: Seq<Result<bool, FsError>>,
    purge: Result<PurgeOutcome, PurgeUnsupported>,
    r: Result<UninstallReport, UninstallError>,
) -> bool {
    &&& deletions_tied(u, arts, opts, vault_root, results)
    &&& opts.purge_token ==> u.token_purges(purge)
    &&& uninstall_result_holds(
        r,
        spec_report(arts, opts, vault_root, removal_successes(results), purge is Ok, u.spec_windows()),
    )
}

/// With `purge_logs`, an uninstall run reports every log artifact outside
/// the vault: removed, or skipped as `PermissionDenied` when its deletion
/// failed; never silently left out.
pub proof fn lemma_uninstall_reports_purged_logs(
    u: &Uninstaller,
    arts: Seq<Artifact>,
    opts: UninstallOptions,
    vault_root: Seq<char>,
    results: Seq<Result<bool, FsError>>,
    purge: Result<PurgeOutcome, PurgeUnsupported>,
    r: Result<UninstallReport, UninstallError>,
    i: int,
)
    requires
        uninstall_explained(u, arts, opts, vault_root, results, purge, r),
        0 <= i < arts.len(),
        arts[i].kind == ArtifactKind::Log,
        opts.purge_logs,
        !spec_is_descendant(arts[i].path@, vault_root, u.spec_windows()),
    ensures
        match r {
            Ok(report) => report.removed@.contains(arts[i]) || report.skipped@.contains(
                (SkipTarget::Artifact(arts[i]), SkipReason::PermissionDenied),
            ),
            Err(UninstallError::PartialFailure(report)) => report.removed@.contains(arts[i])
                || report.skipped@.contains(
                (SkipTarget::Artifact(arts[i]), SkipReason::PermissionDenied),
            ),
            Err(UninstallError::Io(_)) => false,
        },
{
    let removed = removal_successes(results);
    lemma_switches_decide_what_is_tried(arts, opts, vault_root, removed, u.spec_windows());
    let a = spec_artifact_report(arts, opts, vault_root, removed, u.spec_windows());
    let tail = spec_token_skips(opts, purge is Ok);
    let x = (SkipTarget::Artifact(arts[i]), SkipReason::PermissionDenied);
    if a.1.contains(x) {
        let k = choose|k: int| 0 <= k < a.1.len() && a.1[k] == x;
        assert((a.1 + tail)[k] == x);
    }
}

/// Service deregistration, path-based idempotent deletion and token clean-up.
pub struct Uninstaller {
    service: ServiceManager,
    fs: Box<dyn FileSystem>,
    token_purge: Box<dyn TokenPurgePort>,
    windows: bool,
}

impl Uninstaller {
    /// The service manager.
    pub closed spec fn spec_service(&self) -> ServiceManager {
        self.service
    }

    /// Whether paths are compared by Windows conventions (those of the
    /// platform the uninstaller was made on).
    pub closed spec fn spec_windows(&self) -> bool {
        self.windows
    }

    /// `r` is a result that the file system's `remove` can give for `path`.
    pub closed spec fn fs_removes(&self, path: Seq<char>, r: Result<bool, FsError>) -> bool {
        self.fs.removes(path, r)
    }

    /// `r` is a result that the token port's purge can give.
    pub closed spec fn token_purges(&self, r: Result<PurgeOutcome, PurgeUnsupported>) -> bool {
        self.token_purge.purges(r)
    }

    /// The one place a path is handed to the deletion seam: only a path
    /// outside the vault root can reach it.
    fn remove_outside_vault(&self, path: &str, Ghost(vault_root): Ghost<Seq<char>>) -> (r: Result<
        bool,
        FsError,
    >)
        requires
            !spec_is_descendant(path@, vault_root, self.spec_windows()),
        ensures
            self.fs_removes(path@, r),
    {
        self.fs.remove(path)
    }

    /// An uninstaller over the injected dependencies.
    pub fn new(
        service: ServiceManager,
        fs: Box<dyn FileSystem>,
        token_purge: Box<dyn TokenPurgePort>,
    ) -> (u: Self)
        ensures
            u.spec_service() == service,
    {
        Uninstaller { service, fs, token_purge, windows: windows_paths() }
    }

    /// Runs the pipeline once: deregister (when asked, failure ignored), then
    /// for each artifact in order: skip it silently when its switch is off,
    /// skip it as `VaultProtected` when it lies under `vault_root`, else
    /// delete it (removed, absent counting as removed, or skipped as
    /// `PermissionDenied` on any failure); then, with `purge_token`, report
    /// the environment token external and the secure-store token unsupported
    /// unless its purge succeeded. Residual items make it `PartialFailure`.
    pub fn uninstall(
        &self,
        opts: &UninstallOptions,
        artifacts: ArtifactSet,
        vault_root: &str,
    ) -> (r: Result<UninstallReport, UninstallError>)
        ensures
            exists|results: Seq<Result<bool, FsError>>, purge: Result<PurgeOutcome, PurgeUnsupported>|
                #[trigger] uninstall_explained(
                    self,
                    artifacts.0@,
                    *opts,
                    vault_root@,
                    results,
                    purge,
                    r,
                ),
            opts.deregister_service ==> exists|d: Result<(), ServiceError>|
                #[trigger] self.spec_service().deregisters(d),
    {
        let mut report = UninstallReport { removed: Vec::new(), skipped: Vec::new() };
        if opts.deregister_service {
            let d = self.service.uninstall();
            assert(self.spec_service().deregisters(d));
        }
        let ghost arts = artifacts.0@;
        let ghost vault = vault_root@;
        let ghost mut outcomes: Seq<bool> = Seq::empty();
        let ghost mut results: Seq<Result<bool, FsError>> = Seq::empty();
        for artifact in it: artifacts.0.into_iter()
            invariant
                it.seq() == arts,
                vault == vault_root@,
                outcomes.len() == it.index(),
                results.len() == it.index(),
                outcomes == removal_successes(results),
                forall|i: int|
                    0 <= i < results.len() && is_attempted(*opts, arts[i]) && !spec_is_descendant(
                        arts[i].path@,
                        vault_root@,
                        self.spec_windows(),
                    ) ==> self.fs_removes(arts[i].path@, #[trigger] results[i]),
                (report.removed@, report.skipped@) == spec_artifact_report(
                    arts.take(it.index() as int),
                    *opts,
                    vault_root@,
                    outcomes,
                    self.spec_windows(),
                ),
        {
            let ghost k = it.index() as int;
            let ghost prev_outcomes = outcomes;
            let ghost prev_results = results;
            assert(arts.take(k + 1).drop_last() =~= arts.take(k));
            assert(arts.take(k + 1).last() == artifact);
            let gated = match artifact.kind {
                ArtifactKind::Log => !opts.purge_logs,
                ArtifactKind::ConfigToken => !opts.purge_token,
                _ => false,
            };
            assert(gated == !is_attempted(*opts, artifact));
            if gated {
                proof {
                    outcomes = outcomes.push(false);
                    results = results.push(Err(FsError::PermissionDenied));
                }
            } else if is_descendant_on(artifact.path.as_str(), vault_root, self.windows) {
                proof {
                    outcomes = outcomes.push(false);
                    results = results.push(Err(FsError::PermissionDenied));
                }
                report.skipped.push((SkipTarget::Artifact(artifact), SkipReason::VaultProtected));
            } else {
                let removed = self.remove_outside_vault(artifact.path.as_str(), Ghost(vault));
                proof {
                    results = results.push(removed);
                }
                match removed {
                    Ok(_existed) => {
                        proof {
                            outcomes = outcomes.push(true);
                        }
                        report.removed.push(artifact);
                    },
                    Err(_) => {
                        proof {
                            outcomes = outcomes.push(false);
                        }
                        report.skipped.push(
                            (SkipTarget::Artifact(artifact), SkipReason::PermissionDenied),
                        );
                    },
                }
            }
            assert(outcomes.drop_last() =~= prev_outcomes);
            assert(results.drop_last() =~= prev_results);
            assert(outcomes =~= removal_successes(results));
        }
        assert(arts.take(arts.len() as int) =~= arts);
        let ghost after_artifacts = report.skipped@;
        let ghost mut purged = false;
        let ghost mut purge: Result<PurgeOutcome, PurgeUnsupported> = Err(PurgeUnsupported);
        if opts.purge_token {
            report.skipped.push((SkipTarget::EnvToken, SkipReason::EnvTokenExternal));
            let purge_result = self.token_purge.purge_secure_store_token();
            proof {
                purge = purge_result;
            }
            assert(self.token_purges(purge));
            match purge_result {
                Ok(_) => {
                    proof {
                        purged = true;
                    }
                },
                Err(PurgeUnsupported) => {
                    report.skipped.push(
                        (SkipTarget::SecureStoreToken, SkipReason::SecureStoreRemovalUnsupported),
                    );
                },
            }
        }
        assert(report.skipped@ =~= after_artifacts + spec_token_skips(*opts, purged));
        let n = report.skipped.len();
        let mut i: usize = 0;
        let mut residual = false;
        while i < n
            invariant
                n == report.skipped@.len(),
                i <= n,
                residual == exists|j: int|
                    0 <= j < i && (#[trigger] report.skipped@[j]).1 == SkipReason::PermissionDenied,
            decreases n - i,
        {
            if report.skipped[i].1 == SkipReason::PermissionDenied {
                residual = true;
            }
            i = i + 1;
        }
        assert(purged == purge is Ok);
        assert(opts.purge_token ==> self.token_purges(purge));
        assert(removal_successes(results) == outcomes);
        assert(deletions_tied(self, artifacts.0@, *opts, vault_root@, results));
        assert(spec_report(
            artifacts.0@,
            *opts,
            vault_root@,
            removal_successes(results),
            purge is Ok,
            self.spec_windows(),
        ) == (
            report.removed@,
            report.skipped@,
        ));
        let r = if residual {
            Err(UninstallError::PartialFailure(report))
        } else {
            Ok(report)
        };
        assert(uninstall_explained(self, artifacts.0@, *opts, vault_root@, results, purge, r));
        r
    }
}

} // verus!
