//! Normalized POSIX path relative to the vault root.
//!
//! Normalization is applied once, when the value is built, and is idempotent:
//! normalizing the text of a normalized path gives the same path back.

use vstd::prelude::*;

use crate::text::push_chars;

verus! {

/// Why a raw path cannot be normalized.
#[derive(Debug, Clone, Copy, PartialEq, Eq, Structural)]
pub enum PathError {
    /// Absolute path (leading `/`) or Windows drive prefix (`C:`): outside the vault.
    Absolute,
    /// A `..` segment that would leave the vault root.
    Escape,
    /// Normalization leaves an empty path (e.g. `.` or `/` alone).
    Empty,
}

impl PathError {
    /// The message of the error.
    pub fn message(&self) -> (s: String)
        ensures
            s@ == match *self {
                PathError::Absolute => "절대경로 또는 드라이브 접두는 허용되지 않는다(상대경로만 유효)"@,
                PathError::Escape => "`..` 세그먼트로 볼트 루트를 이탈할 수 없다"@,
                PathError::Empty => "정규화 결과가 빈 경로가 되어 파일을 식별할 수 없다"@,
            },
    {
        match self {
            PathError::Absolute => crate::text::string_of(
                "절대경로 또는 드라이브 접두는 허용되지 않는다(상대경로만 유효)",
            ),
            PathError::Escape => crate::text::string_of("`..` 세그먼트로 볼트 루트를 이탈할 수 없다"),
            PathError::Empty => crate::text::string_of(
                "정규화 결과가 빈 경로가 되어 파일을 식별할 수 없다",
            ),
        }
    }
}

/// Backslashes become slashes.
pub open spec fn unify_separators(s: Seq<char>) -> Seq<char> {
    s.map_values(|c: char| if c == '\\' { '/' } else { c })
}

/// The `/`-separated segments of `s`, empty segments included (always at least one).
pub open spec fn split_slash(s: Seq<char>) -> Seq<Seq<char>>
    decreases s.len(),
{
    if s.len() == 0 {
        seq![Seq::<char>::empty()]
    } else {
        let prev = split_slash(s.drop_last());
        if s.last() == '/' {
            prev.push(Seq::<char>::empty())
        } else {
            prev.update(prev.len() - 1, prev.last().push(s.last()))
        }
    }
}

/// An empty segment or `.`: dropped by normalization.
pub open spec fn is_noise_segment(seg: Seq<char>) -> bool {
    seg.len() == 0 || seg =~= seq!['.']
}

/// The `..` segment.
pub open spec fn is_parent_segment(seg: Seq<char>) -> bool {
    seg =~= seq!['.', '.']
}

/// Whether some segment is `..`.
pub open spec fn has_parent_segment(segs: Seq<Seq<char>>) -> bool {
    exists|i: int| 0 <= i < segs.len() && is_parent_segment(#[trigger] segs[i])
}

/// The segments that are neither empty nor `.`, in order.
pub open spec fn kept_segments(segs: Seq<Seq<char>>) -> Seq<Seq<char>>
    decreases segs.len(),
{
    if segs.len() == 0 {
        Seq::empty()
    } else {
        let k = kept_segments(segs.drop_last());
        if is_noise_segment(segs.last()) {
            k
        } else {
            k.push(segs.last())
        }
    }
}

/// Segments joined with `/`.
pub open spec fn join_slash(segs: Seq<Seq<char>>) -> Seq<char>
    decreases segs.len(),
{
    if segs.len() == 0 {
        Seq::empty()
    } else if segs.len() == 1 {
        segs[0]
    } else {
        join_slash(segs.drop_last()) + seq!['/'] + segs.last()
    }
}

/// ASCII letter.
pub open spec fn is_ascii_alpha(c: char) -> bool {
    ('a' <= c && c <= 'z') || ('A' <= c && c <= 'Z')
}

/// A Windows drive prefix: an ASCII letter followed by `:`.
pub open spec fn is_drive_prefix(seg: Seq<char>) -> bool {
    seg.len() >= 2 && is_ascii_alpha(seg[0]) && seg[1] == ':'
}

/// What normalization gives for a raw path: backslashes become slashes, an
/// absolute path is refused, any `..` segment is refused, empty and `.`
/// segments are dropped, a drive prefix on the first kept segment is refused,
/// and nothing left is refused; otherwise the kept segments joined by `/`.
pub open spec fn spec_normalize(input: Seq<char>) -> Result<Seq<char>, PathError> {
    let u = unify_separators(input);
    if u.len() > 0 && u[0] == '/' {
        Err(PathError::Absolute)
    } else {
        let segs = split_slash(u);
        if has_parent_segment(segs) {
            Err(PathError::Escape)
        } else {
            let k = kept_segments(segs);
            if k.len() > 0 && is_drive_prefix(k[0]) {
                Err(PathError::Absolute)
            } else if k.len() == 0 {
                Err(PathError::Empty)
            } else {
                Ok(join_slash(k))
            }
        }
    }
}

/// A path in normal form: normalizing it gives it back.
pub open spec fn is_normalized(p: Seq<char>) -> bool {
    spec_normalize(p) == Ok::<Seq<char>, PathError>(p)
}

/// A segment of a normalized path: non-empty, no separator, not `.` or `..`.
pub open spec fn is_clean_segment(seg: Seq<char>) -> bool {
    &&& seg.len() > 0
    &&& !seg.contains('/')
    &&& !seg.contains('\\')
    &&& !is_noise_segment(seg)
    &&& !is_parent_segment(seg)
}

proof fn lemma_split_append_plain(p: Seq<char>, b: Seq<char>)
    requires
        !b.contains('/'),
    ensures
        split_slash(p + b) =~= split_slash(p).update(
            split_slash(p).len() - 1,
            split_slash(p).last() + b,
        ),
        split_slash(p + b).len() == split_slash(p).len(),
    decreases b.len(),
{
    lemma_split_nonempty(p);
    if b.len() == 0 {
        assert(p + b =~= p);
        assert(split_slash(p).last() + b =~= split_slash(p).last());
        assert(split_slash(p).update(split_slash(p).len() - 1, split_slash(p).last())
            =~= split_slash(p));
    } else {
        let b0 = b.drop_last();
        assert(!b0.contains('/')) by {
            if b0.contains('/') {
                let i = choose|i: int| 0 <= i < b0.len() && b0[i] == '/';
                assert(b[i] == '/');
            }
        }
        lemma_split_append_plain(p, b0);
        assert((p + b).drop_last() =~= p + b0);
        assert((p + b).last() == b.last());
        assert(b.last() != '/') by {
            assert(b[b.len() - 1] == b.last());
        }
        let s0 = split_slash(p);
        let prev = split_slash(p + b0);
        assert(prev.len() == s0.len());
        assert(prev.last() == s0.last() + b0);
        assert(split_slash(p + b) == prev.update(prev.len() - 1, prev.last().push(b.last())));
        assert(s0.last() + b0 + seq![b.last()] =~= s0.last() + b) by {
            assert(b0 + seq![b.last()] =~= b);
        }
        assert(prev.last().push(b.last()) =~= s0.last() + b);
        assert(split_slash(p + b) =~= s0.update(s0.len() - 1, s0.last() + b));
    }
}

proof fn lemma_split_nonempty(s: Seq<char>)
    ensures
        split_slash(s).len() >= 1,
    decreases s.len(),
{
    if s.len() > 0 {
        lemma_split_nonempty(s.drop_last());
    }
}

proof fn lemma_split_slash_then(p: Seq<char>)
    ensures
        split_slash(p + seq!['/']) =~= split_slash(p).push(Seq::<char>::empty()),
{
    assert((p + seq!['/']).drop_last() =~= p);
}

/// Splitting the join of clean segments gives the segments back.
proof fn lemma_split_join(k: Seq<Seq<char>>)
    requires
        k.len() >= 1,
        forall|i: int| 0 <= i < k.len() ==> is_clean_segment(#[trigger] k[i]),
    ensures
        split_slash(join_slash(k)) =~= k,
    decreases k.len(),
{
    if k.len() == 1 {
        let e = Seq::<char>::empty();
        lemma_split_append_plain(e, k[0]);
        assert(e + k[0] =~= k[0]);
        assert(split_slash(e) =~= seq![e]);
        assert(e + k[0] =~= k[0]);
    } else {
        let d = k.drop_last();
        assert(forall|i: int| 0 <= i < d.len() ==> is_clean_segment(#[trigger] d[i])) by {
            assert forall|i: int| 0 <= i < d.len() implies is_clean_segment(#[trigger] d[i]) by {
                assert(d[i] == k[i]);
            }
        }
        lemma_split_join(d);
        let p = join_slash(d) + seq!['/'];
        lemma_split_slash_then(join_slash(d));
        assert(is_clean_segment(k[k.len() - 1]));
        lemma_split_append_plain(p, k.last());
        assert(Seq::<char>::empty() + k.last() =~= k.last());
        assert(join_slash(k) == p + k.last());
        assert(d.push(Seq::<char>::empty()).update(d.len() as int, k.last()) =~= k);
    }
}

proof fn lemma_join_no_backslash(k: Seq<Seq<char>>)
    requires
        forall|i: int| 0 <= i < k.len() ==> is_clean_segment(#[trigger] k[i]),
    ensures
        !join_slash(k).contains('\\'),
        k.len() >= 1 ==> join_slash(k).len() > 0 && join_slash(k)[0] == k[0][0],
    decreases k.len(),
{
    if k.len() > 1 {
        let d = k.drop_last();
        assert forall|i: int| 0 <= i < d.len() implies is_clean_segment(#[trigger] d[i]) by {
            assert(d[i] == k[i]);
        }
        lemma_join_no_backslash(d);
        let j = join_slash(k);
        assert(is_clean_segment(k[k.len() - 1]));
        assert(!j.contains('\\')) by {
            if j.contains('\\') {
                let i = choose|i: int| 0 <= i < j.len() && j[i] == '\\';
                let a = join_slash(d);
                if i < a.len() {
                    assert(j[i] == a[i]);
                } else if i == a.len() {
                    assert(j[i] == '/');
                } else {
                    assert(j[i] == k.last()[i - a.len() - 1]);
                }
            }
        }
        assert(join_slash(k)[0] == join_slash(d)[0]);
        assert(d[0] == k[0]);
    } else if k.len() == 1 {
        assert(is_clean_segment(k[0]));
    }
}

proof fn lemma_unify_identity(s: Seq<char>)
    requires
        !s.contains('\\'),
    ensures
        unify_separators(s) =~= s,
{
    assert forall|i: int| 0 <= i < s.len() implies unify_separators(s)[i] == s[i] by {
        if s[i] == '\\' {
            assert(s.contains('\\'));
        }
    }
}

proof fn lemma_kept_identity(k: Seq<Seq<char>>)
    requires
        forall|i: int| 0 <= i < k.len() ==> is_clean_segment(#[trigger] k[i]),
    ensures
        kept_segments(k) =~= k,
        !has_parent_segment(k),
    decreases k.len(),
{
    if k.len() > 0 {
        let d = k.drop_last();
        assert forall|i: int| 0 <= i < d.len() implies is_clean_segment(#[trigger] d[i]) by {
            assert(d[i] == k[i]);
        }
        lemma_kept_identity(d);
        assert(is_clean_segment(k[k.len() - 1]));
        assert(d.push(k.last()) =~= k);
    }
    assert(!has_parent_segment(k)) by {
        if has_parent_segment(k) {
            let i = choose|i: int| 0 <= i < k.len() && is_parent_segment(#[trigger] k[i]);
            assert(is_clean_segment(k[i]));
        }
    }
}

/// Joining clean segments whose first one is no drive prefix gives a normalized path.
pub proof fn lemma_join_is_normalized(k: Seq<Seq<char>>)
    requires
        k.len() >= 1,
        forall|i: int| 0 <= i < k.len() ==> is_clean_segment(#[trigger] k[i]),
        !is_drive_prefix(k[0]),
    ensures
        is_normalized(join_slash(k)),
{
    let j = join_slash(k);
    lemma_join_no_backslash(k);
    lemma_unify_identity(j);
    assert(is_clean_segment(k[0]));
    assert(j[0] != '/') by {
        assert(k[0].contains(k[0][0]) ==> k[0][0] != '/');
        assert(k[0].contains(k[0][0]));
    }
    lemma_split_join(k);
    lemma_kept_identity(k);
}

/// Segments of a split never contain the separator.
proof fn lemma_split_segments_plain(s: Seq<char>)
    ensures
        forall|i: int|
            0 <= i < split_slash(s).len() ==> !(#[trigger] split_slash(s)[i]).contains('/'),
    decreases s.len(),
{
    lemma_split_nonempty(s);
    if s.len() > 0 {
        let d = s.drop_last();
        lemma_split_segments_plain(d);
        lemma_split_nonempty(d);
        let prev = split_slash(d);
        assert forall|i: int| 0 <= i < split_slash(s).len() implies !(
        #[trigger] split_slash(s)[i]).contains('/') by {
            if s.last() == '/' {
                if i < prev.len() {
                    assert(split_slash(s)[i] == prev[i]);
                } else {
                    assert(split_slash(s)[i] =~= Seq::<char>::empty());
                }
            } else {
                if i < prev.len() - 1 {
                    assert(split_slash(s)[i] == prev[i]);
                } else {
                    let seg = prev.last().push(s.last());
                    assert(split_slash(s)[i] == seg);
                    if seg.contains('/') {
                        let j = choose|j: int| 0 <= j < seg.len() && seg[j] == '/';
                        if j < prev.last().len() {
                            assert(prev.last()[j] == '/');
                            assert(prev[prev.len() - 1].contains('/'));
                        }
                    }
                }
            }
        }
    }
}

/// Segments of the unified text never contain a backslash.
proof fn lemma_split_segments_no_backslash(s: Seq<char>)
    requires
        !s.contains('\\'),
    ensures
        forall|i: int|
            0 <= i < split_slash(s).len() ==> !(#[trigger] split_slash(s)[i]).contains('\\'),
    decreases s.len(),
{
    lemma_split_nonempty(s);
    if s.len() > 0 {
        let d = s.drop_last();
        assert(!d.contains('\\')) by {
            if d.contains('\\') {
                let j = choose|j: int| 0 <= j < d.len() && d[j] == '\\';
                assert(s[j] == '\\');
            }
        }
        lemma_split_segments_no_backslash(d);
        lemma_split_nonempty(d);
        let prev = split_slash(d);
        assert(s.last() != '\\') by {
            assert(s[s.len() - 1] == s.last());
        }
        assert forall|i: int| 0 <= i < split_slash(s).len() implies !(
        #[trigger] split_slash(s)[i]).contains('\\') by {
            if s.last() == '/' {
                if i < prev.len() {
                    assert(split_slash(s)[i] == prev[i]);
                } else {
                    assert(split_slash(s)[i] =~= Seq::<char>::empty());
                }
            } else {
                if i < prev.len() - 1 {
                    assert(split_slash(s)[i] == prev[i]);
                } else {
                    let seg = prev.last().push(s.last());
                    assert(split_slash(s)[i] == seg);
                    if seg.contains('\\') {
                        let j = choose|j: int| 0 <= j < seg.len() && seg[j] == '\\';
                        if j < prev.last().len() {
                            assert(prev.last()[j] == '\\');
                            assert(prev[prev.len() - 1].contains('\\'));
                        }
                    }
                }
            }
        }
    }
}

proof fn lemma_unify_no_backslash(s: Seq<char>)
    ensures
        !unify_separators(s).contains('\\'),
{
    let u = unify_separators(s);
    if u.contains('\\') {
        let j = choose|j: int| 0 <= j < u.len() && u[j] == '\\';
        assert(u[j] == (if s[j] == '\\' { '/' } else { s[j] }));
    }
}

/// Kept segments of segments that are plain, backslash-free and not `..` are clean.
proof fn lemma_kept_clean(segs: Seq<Seq<char>>)
    requires
        forall|i: int| 0 <= i < segs.len() ==> !(#[trigger] segs[i]).contains('/'),
        forall|i: int| 0 <= i < segs.len() ==> !(#[trigger] segs[i]).contains('\\'),
        !has_parent_segment(segs),
    ensures
        forall|i: int|
            0 <= i < kept_segments(segs).len() ==> is_clean_segment(
                #[trigger] kept_segments(segs)[i],
            ),
    decreases segs.len(),
{
    if segs.len() > 0 {
        let d = segs.drop_last();
        assert forall|i: int| 0 <= i < d.len() implies !(#[trigger] d[i]).contains('/') by {
            assert(d[i] == segs[i]);
        }
        assert forall|i: int| 0 <= i < d.len() implies !(#[trigger] d[i]).contains('\\') by {
            assert(d[i] == segs[i]);
        }
        assert(!has_parent_segment(d)) by {
            if has_parent_segment(d) {
                let i = choose|i: int| 0 <= i < d.len() && is_parent_segment(#[trigger] d[i]);
                assert(d[i] == segs[i]);
            }
        }
        lemma_kept_clean(d);
        let last = segs[segs.len() - 1];
        assert(!is_parent_segment(last));
        assert(!last.contains('/'));
        assert(!last.contains('\\'));
        let kd = kept_segments(d);
        let ks = kept_segments(segs);
        if is_noise_segment(segs.last()) {
            assert(ks == kd);
        } else {
            assert(ks == kd.push(last));
            assert forall|i: int| 0 <= i < ks.len() implies is_clean_segment(#[trigger] ks[i]) by {
                if i < kd.len() {
                    assert(ks[i] == kd[i]);
                } else {
                    assert(ks[i] == last);
                }
            }
        }
    }
}

/// Law: whatever normalization accepts is in normal form, so normalizing its
/// text again gives the same path (idempotence), and its segments are clean.
pub proof fn lemma_normalize_idempotent(input: Seq<char>)
    requires
        spec_normalize(input) is Ok,
    ensures
        is_normalized(spec_normalize(input)->Ok_0),
        forall|i: int|
            0 <= i < split_slash(spec_normalize(input)->Ok_0).len() ==> is_clean_segment(
                #[trigger] split_slash(spec_normalize(input)->Ok_0)[i],
            ),
{
    let u = unify_separators(input);
    let segs = split_slash(u);
    lemma_unify_no_backslash(input);
    lemma_split_segments_plain(u);
    lemma_split_segments_no_backslash(u);
    lemma_kept_clean(segs);
    let k = kept_segments(segs);
    lemma_join_is_normalized(k);
    lemma_split_join(k);
}

/// Normalized POSIX path relative to the vault root.
///
/// Always `/`-separated, relative, without empty, `.` or `..` segments.
#[derive(Debug, PartialEq, Eq, PartialOrd, Ord, Hash)]
pub struct RelativePath(String);

impl View for RelativePath {
    type V = Seq<char>;

    closed spec fn view(&self) -> Seq<char> {
        self.0@
    }
}

impl Clone for RelativePath {
    fn clone(&self) -> (r: Self)
        ensures
            r@ == self@,
    {
        proof {
            use_type_invariant(self);
        }
        RelativePath(self.0.clone())
    }
}

impl RelativePath {
    /// The normal-form invariant of every value.
    #[verifier::type_invariant]
    closed spec fn inv(self) -> bool {
        is_normalized(self.0@)
    }



    /// Normalizes a raw path: backslashes become slashes, absolute paths and
    /// drive prefixes are refused, `..` is refused, empty and `.` segments are
    /// dropped, and an empty result is refused. Never panics.
    pub fn normalize(input: &str) -> (r: Result<RelativePath, PathError>)
        ensures
            match r {
                Ok(p) => spec_normalize(input@) == Ok::<Seq<char>, PathError>(p@),
                Err(e) => spec_normalize(input@) == Err::<Seq<char>, PathError>(e),
            },
    {
        let ghost full = unify_separators(input@);
        let mut cur: Vec<char> = Vec::new();
        let mut kept: Vec<Vec<char>> = Vec::new();
        let mut saw_parent = false;
        let mut leading_slash = false;
        let mut first = true;
        for c0 in it: input.chars()
            invariant
                it.seq() == input@,
                full == unify_separators(input@),
                ({
                    let segs = split_slash(full.take(it.index() as int));
                    &&& segs.last() == cur@
                    &&& saw_parent == has_parent_segment(segs.drop_last())
                    &&& kept@.map_values(|v: Vec<char>| v@) == kept_segments(segs.drop_last())
                }),
                first == (it.index() == 0),
                !first ==> leading_slash == (full[0] == '/'),
                first ==> !leading_slash,
            ensures
                ({
                    let segs = split_slash(full.take(full.len() as int));
                    &&& segs.last() == cur@
                    &&& saw_parent == has_parent_segment(segs.drop_last())
                    &&& kept@.map_values(|v: Vec<char>| v@) == kept_segments(segs.drop_last())
                }),
                leading_slash == (full.len() > 0 && full[0] == '/'),
        {
            let ghost n = it.index() as int;
            let ghost pre = full.take(n);
            let ghost segs = split_slash(pre);
            let c = if c0 == '\\' { '/' } else { c0 };
            assert(c == full[n]);
            assert(full.take(n + 1) =~= pre.push(c));
            assert(pre.push(c).drop_last() =~= pre);
            proof { lemma_split_nonempty(pre); }
            if first {
                leading_slash = c == '/';
                first = false;
            }
            if c == '/' {
                assert(split_slash(pre.push(c)) == segs.push(Seq::<char>::empty()));
                assert(segs.push(Seq::<char>::empty()).drop_last() =~= segs);
                assert(segs.drop_last().push(segs.last()) =~= segs);
                let is_parent = cur.len() == 2 && cur[0] == '.' && cur[1] == '.';
                assert(is_parent == is_parent_segment(cur@));
                if is_parent {
                    saw_parent = true;
                }
                assert(has_parent_segment(segs) == (has_parent_segment(segs.drop_last())
                    || is_parent_segment(segs.last()))) by {
                    let d = segs.drop_last();
                    if has_parent_segment(segs) {
                        let i = choose|i: int| 0 <= i < segs.len() && is_parent_segment(#[trigger] segs[i]);
                        if i < d.len() {
                            assert(d[i] == segs[i]);
                        }
                    }
                    if has_parent_segment(d) {
                        let i = choose|i: int| 0 <= i < d.len() && is_parent_segment(#[trigger] d[i]);
                        assert(d[i] == segs[i]);
                    }
                }
                let noise = cur.len() == 0 || (cur.len() == 1 && cur[0] == '.');
                assert(noise == is_noise_segment(cur@));
                if !noise {
                    let ghost before = kept@;
                    kept.push(cur);
                    assert(kept@.map_values(|v: Vec<char>| v@) =~= before.map_values(
                        |v: Vec<char>| v@).push(segs.last()));
                }
                cur = Vec::new();
            } else {
                let ghost old_cur = cur@;
                cur.push(c);
                assert(split_slash(pre.push(c)) == segs.update(segs.len() - 1, segs.last().push(c)));
                assert(segs.update(segs.len() - 1, segs.last().push(c)).drop_last() =~= segs.drop_last());
            }
        }
        assert(full.take(full.len() as int) =~= full);
        let ghost segs = split_slash(full);
        proof { lemma_split_nonempty(full); }
        assert(segs.drop_last().push(segs.last()) =~= segs);
        if leading_slash {
            return Err(PathError::Absolute);
        }
        let is_parent = cur.len() == 2 && cur[0] == '.' && cur[1] == '.';
        assert(has_parent_segment(segs) == (saw_parent || is_parent_segment(cur@))) by {
            let d = segs.drop_last();
            if has_parent_segment(segs) {
                let i = choose|i: int| 0 <= i < segs.len() && is_parent_segment(#[trigger] segs[i]);
                if i < d.len() {
                    assert(d[i] == segs[i]);
                }
            }
            if has_parent_segment(d) {
                let i = choose|i: int| 0 <= i < d.len() && is_parent_segment(#[trigger] d[i]);
                assert(d[i] == segs[i]);
            }
        }
        if saw_parent || is_parent {
            return Err(PathError::Escape);
        }
        let noise = cur.len() == 0 || (cur.len() == 1 && cur[0] == '.');
        if !noise {
            let ghost before = kept@;
            kept.push(cur);
            assert(kept@.map_values(|v: Vec<char>| v@) =~= before.map_values(|v: Vec<char>| v@).push(
                segs.last(),
            ));
        }
        let ghost k = kept_segments(segs);
        assert(kept@.map_values(|v: Vec<char>| v@) == k);
        let nk = kept.len();
        if nk > 0 {
            assert(kept[0]@ == k[0]);
            if kept[0].len() >= 2 {
                let a = kept[0][0];
                let is_alpha = (a >= 'a' && a <= 'z') || (a >= 'A' && a <= 'Z');
                if is_alpha && kept[0][1] == ':' {
                    return Err(PathError::Absolute);
                }
            }
        } else {
            return Err(PathError::Empty);
        }
        let mut out = String::new();
        let mut j: usize = 0;
        while j < nk
            invariant
                nk == kept@.len(),
                nk >= 1,
                j <= nk,
                kept@.map_values(|v: Vec<char>| v@) == k,
                out@ == join_slash(k.take(j as int)),
            decreases nk - j,
        {
            assert(k.take(j + 1).drop_last() =~= k.take(j as int));
            assert(kept[j as int]@ == k[j as int]);
            if j > 0 {
                crate::text::push_char(&mut out, '/');
            }
            push_chars(&mut out, &kept[j]);
            j = j + 1;
            if j == 1 {
                assert(join_slash(k.take(1)) == k.take(1)[0]);
                assert(out@ =~= k[0]);
            }
        }
        assert(k.take(nk as int) =~= k);
        proof {
            lemma_normalize_idempotent(input@);
        }
        Ok(RelativePath(out))
    }

    /// The normalized path text.
    pub fn as_str(&self) -> (s: &str)
        ensures
            s@ == self@,
            is_normalized(s@),
    {
        proof {
            use_type_invariant(self);
        }
        self.0.as_str()
    }

    /// The normalized path text, by value.
    pub fn into_string(self) -> (s: String)
        ensures
            s@ == self@,
            is_normalized(s@),
    {
        proof {
            use_type_invariant(&self);
        }
        self.0
    }
}

} // verus!
