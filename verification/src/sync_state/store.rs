//! The persisted sync state (latest-state replacement): the last committed
//! manifest, one dirty flag and the resume offsets of uploads in progress,
//! written and replaced as one unit; and the rules of recovery on open.
//!
//! Each mutation is followed by one atomic write of the whole state (temp
//! file in the same directory, fsync, rename) by the store that owns the file.

use vstd::prelude::*;

use crate::foundation::core_types::error::CodecError;
use crate::foundation::core_types::manifest::Manifest;
use crate::foundation::core_types::primitives::{ByteCount, Sha256Digest};
use crate::text::{push_str, string_of};

verus! {

/// Whether the keys of the entries are pairwise distinct.
pub open spec fn keys_distinct(s: Seq<(Sha256Digest, ByteCount)>) -> bool {
    forall|i: int, j: int| 0 <= i < j < s.len() ==> (#[trigger] s[i]).0 != (#[trigger] s[j]).0
}

/// Whether some entry has the key.
pub open spec fn has_key(s: Seq<(Sha256Digest, ByteCount)>, k: Sha256Digest) -> bool {
    exists|i: int| 0 <= i < s.len() && (#[trigger] s[i]).0 == k
}

/// The map of a list of entries with distinct keys.
pub open spec fn entries_map(s: Seq<(Sha256Digest, ByteCount)>) -> Map<Sha256Digest, ByteCount> {
    Map::new(
        |k: Sha256Digest| has_key(s, k),
        |k: Sha256Digest| s[choose|i: int| 0 <= i < s.len() && (#[trigger] s[i]).0 == k].1,
    )
}

/// The resume offset of each blob in progress, keyed by its content hash.
///
/// The entries are held in a list of distinct keys; their order carries no
/// meaning (the view is a map), and the persisted encoding writes them
/// sorted by key. A `BTreeMap` keyed by the digest struct is not used: with
/// a struct key Verus states nothing of such a map's contents.
#[derive(Debug, PartialEq, Eq)]
pub struct ResumeOffsetMap {
    entries: Vec<(Sha256Digest, ByteCount)>,
}

impl Clone for ResumeOffsetMap {
    fn clone(&self) -> (r: Self)
        ensures
            r@ == self@,
    {
        ResumeOffsetMap { entries: self.to_vec() }
    }
}

impl View for ResumeOffsetMap {
    type V = Map<Sha256Digest, ByteCount>;

    closed spec fn view(&self) -> Map<Sha256Digest, ByteCount> {
        entries_map(self.entries@)
    }
}

/// Whether two digests hold the same bytes.
pub fn same_digest(a: &Sha256Digest, b: &Sha256Digest) -> (r: bool)
    ensures
        r == (*a == *b),
{
    let mut i: usize = 0;
    while i < 32
        invariant
            i <= 32,
            forall|j: int| 0 <= j < i ==> a.0[j] == b.0[j],
        decreases 32 - i,
    {
        if a.0[i] != b.0[i] {
            return false;
        }
        i = i + 1;
    }
    assert(a.0 =~= b.0);
    true
}

impl ResumeOffsetMap {
    #[verifier::type_invariant]
    spec fn distinct(&self) -> bool {
        keys_distinct(self.entries@)
    }

    /// The empty map.
    pub fn new() -> (m: Self)
        ensures
            m@ == Map::<Sha256Digest, ByteCount>::empty(),
    {
        let m = ResumeOffsetMap { entries: Vec::new() };
        assert(m@ =~= Map::<Sha256Digest, ByteCount>::empty());
        m
    }

    /// The position of the key, if present.
    fn position(&self, k: &Sha256Digest) -> (r: Option<usize>)
        ensures
            match r {
                Some(i) => i < self.entries@.len() && self.entries@[i as int].0 == *k,
                None => !has_key(self.entries@, *k),
            },
    {
        let n = self.entries.len();
        let mut i: usize = 0;
        while i < n
            invariant
                n == self.entries@.len(),
                i <= n,
                forall|j: int| 0 <= j < i ==> (#[trigger] self.entries@[j]).0 != *k,
            decreases n - i,
        {
            if same_digest(&self.entries[i].0, k) {
                return Some(i);
            }
            i = i + 1;
        }
        None
    }

    /// The offset of a blob, if one is recorded.
    pub fn get(&self, k: &Sha256Digest) -> (r: Option<ByteCount>)
        ensures
            r == (if self@.contains_key(*k) {
                Some(self@[*k])
            } else {
                None::<ByteCount>
            }),
    {
        proof {
            use_type_invariant(self);
        }
        match self.position(k) {
            Some(i) => {
                let ghost s = self.entries@;
                let ghost w = choose|j: int| 0 <= j < s.len() && (#[trigger] s[j]).0 == *k;
                assert(has_key(s, *k));
                assert(w == i as int);
                Some(self.entries[i].1)
            },
            None => None,
        }
    }

    /// Records the offset of a blob, replacing any earlier one.
    pub fn insert(&mut self, k: Sha256Digest, v: ByteCount)
        ensures
            final(self)@ == old(self)@.insert(k, v),
    {
        proof {
            use_type_invariant(&*self);
        }
        let ghost s = self.entries@;
        match self.position(&k) {
            Some(i) => {
                let mut entries: Vec<(Sha256Digest, ByteCount)> = Vec::new();
                std::mem::swap(&mut entries, &mut self.entries);
                entries.set(i, (k, v));
                let ghost t = entries@;
                assert(t == s.update(i as int, (k, v)));
                assert(keys_distinct(t));
                self.entries = entries;
                assert forall|key: Sha256Digest| #[trigger] has_key(t, key) == has_key(s, key) by {
                    if has_key(s, key) {
                        let j = choose|j: int| 0 <= j < s.len() && (#[trigger] s[j]).0 == key;
                        assert(t[j].0 == key);
                    }
                    if has_key(t, key) {
                        let j = choose|j: int| 0 <= j < t.len() && (#[trigger] t[j]).0 == key;
                        assert(s[j].0 == key);
                    }
                }
                assert(entries_map(t) =~= entries_map(s).insert(k, v)) by {
                    assert forall|key: Sha256Digest| #[trigger] entries_map(t).contains_key(key)
                        implies entries_map(t)[key] == entries_map(s).insert(k, v)[key] by {
                        let jt = choose|j: int| 0 <= j < t.len() && (#[trigger] t[j]).0 == key;
                        if key == k {
                            assert(jt == i as int);
                        } else {
                            assert(has_key(s, key));
                            let js = choose|j: int| 0 <= j < s.len() && (#[trigger] s[j]).0 == key;
                            assert(js == jt);
                        }
                    }
                }
            },
            None => {
                let mut entries: Vec<(Sha256Digest, ByteCount)> = Vec::new();
                std::mem::swap(&mut entries, &mut self.entries);
                entries.push((k, v));
                let ghost t = entries@;
                assert(keys_distinct(t));
                self.entries = entries;
                assert forall|key: Sha256Digest| #[trigger] has_key(t, key) == (has_key(s, key)
                    || key == k) by {
                    if has_key(s, key) {
                        let j = choose|j: int| 0 <= j < s.len() && (#[trigger] s[j]).0 == key;
                        assert(t[j].0 == key);
                    }
                    if key == k {
                        assert(t[s.len() as int].0 == key);
                    }
                    if has_key(t, key) && key != k {
                        let j = choose|j: int| 0 <= j < t.len() && (#[trigger] t[j]).0 == key;
                        assert(s[j].0 == key);
                    }
                }
                assert(entries_map(t) =~= entries_map(s).insert(k, v)) by {
                    assert forall|key: Sha256Digest| #[trigger] entries_map(t).contains_key(key)
                        implies entries_map(t)[key] == entries_map(s).insert(k, v)[key] by {
                        let jt = choose|j: int| 0 <= j < t.len() && (#[trigger] t[j]).0 == key;
                        if key == k {
                            assert(t[s.len() as int].0 == key);
                            assert(jt == s.len() as int);
                        } else {
                            assert(has_key(s, key));
                            let js = choose|j: int| 0 <= j < s.len() && (#[trigger] s[j]).0 == key;
                            assert(t[js].0 == key);
                            assert(js == jt);
                        }
                    }
                }
            },
        }
    }

    /// Removes every offset.
    pub fn clear(&mut self)
        ensures
            final(self)@ == Map::<Sha256Digest, ByteCount>::empty(),
    {
        self.entries = Vec::new();
        assert(self@ =~= Map::<Sha256Digest, ByteCount>::empty());
    }

    /// The number of blobs with an offset.
    pub fn len(&self) -> (n: usize)
        ensures
            n == self@.len(),
    {
        proof {
            use_type_invariant(self);
            lemma_entries_map_len(self.entries@);
        }
        self.entries.len()
    }

    /// Whether no offset is recorded.
    pub fn is_empty(&self) -> (b: bool)
        ensures
            b == (self@ == Map::<Sha256Digest, ByteCount>::empty()),
    {
        proof {
            use_type_invariant(self);
            if self.entries@.len() > 0 {
                assert(has_key(self.entries@, self.entries@[0].0));
                assert(self@.contains_key(self.entries@[0].0));
            } else {
                assert(self@ =~= Map::<Sha256Digest, ByteCount>::empty());
            }
        }
        self.entries.len() == 0
    }

    /// The entries (blob, offset), each blob once.
    pub fn to_vec(&self) -> (v: Vec<(Sha256Digest, ByteCount)>)
        ensures
            keys_distinct(v@),
            entries_map(v@) == self@,
    {
        proof {
            use_type_invariant(self);
        }
        let n = self.entries.len();
        let mut v: Vec<(Sha256Digest, ByteCount)> = Vec::new();
        let mut i: usize = 0;
        while i < n
            invariant
                n == self.entries@.len(),
                i <= n,
                v@ == self.entries@.take(i as int),
            decreases n - i,
        {
            v.push(self.entries[i]);
            i = i + 1;
            assert(v@ =~= self.entries@.take(i as int));
        }
        assert(self.entries@.take(n as int) =~= self.entries@);
        v
    }

    /// The map of a list of entries; a later entry for the same blob wins.
    pub fn from_entries(entries: Vec<(Sha256Digest, ByteCount)>) -> (m: Self)
        ensures
            keys_distinct(entries@) ==> m@ == entries_map(entries@),
    {
        let mut m = ResumeOffsetMap::new();
        let n = entries.len();
        let mut i: usize = 0;
        while i < n
            invariant
                n == entries@.len(),
                i <= n,
                keys_distinct(entries@) ==> m@ == entries_map(entries@.take(i as int)),
            decreases n - i,
        {
            let ghost before = m@;
            m.insert(entries[i].0, entries[i].1);
            proof {
                if keys_distinct(entries@) {
                    lemma_entries_map_push(entries@.take(i as int), entries@[i as int]);
                    assert(entries@.take(i + 1) =~= entries@.take(i as int).push(entries@[i as int]));
                }
            }
            i = i + 1;
        }
        assert(entries@.take(n as int) =~= entries@);
        m
    }
}

/// Appending an entry with a new key extends the map with it.
pub proof fn lemma_entries_map_push(s: Seq<(Sha256Digest, ByteCount)>, p: (Sha256Digest, ByteCount))
    requires
        keys_distinct(s.push(p)),
    ensures
        entries_map(s.push(p)) == entries_map(s).insert(p.0, p.1),
{
    let t = s.push(p);
    assert forall|key: Sha256Digest| #[trigger] has_key(t, key) == (has_key(s, key) || key == p.0) by {
        if has_key(s, key) {
            let j = choose|j: int| 0 <= j < s.len() && (#[trigger] s[j]).0 == key;
            assert(t[j].0 == key);
        }
        if key == p.0 {
            assert(t[s.len() as int].0 == key);
        }
        if has_key(t, key) && key != p.0 {
            let j = choose|j: int| 0 <= j < t.len() && (#[trigger] t[j]).0 == key;
            assert(s[j].0 == key);
        }
    }
    assert(entries_map(t) =~= entries_map(s).insert(p.0, p.1)) by {
        assert forall|key: Sha256Digest| #[trigger] entries_map(t).contains_key(key) implies entries_map(
            t,
        )[key] == entries_map(s).insert(p.0, p.1)[key] by {
            let jt = choose|j: int| 0 <= j < t.len() && (#[trigger] t[j]).0 == key;
            if key == p.0 {
                assert(t[s.len() as int].0 == key);
                assert(jt == s.len() as int);
            } else {
                assert(has_key(s, key));
                let js = choose|j: int| 0 <= j < s.len() && (#[trigger] s[j]).0 == key;
                assert(t[js].0 == key);
                assert(js == jt);
            }
        }
    }
}

/// With distinct keys, the map has one key per entry.
pub proof fn lemma_entries_map_len(s: Seq<(Sha256Digest, ByteCount)>)
    requires
        keys_distinct(s),
    ensures
        entries_map(s).dom().finite(),
        entries_map(s).len() == s.len(),
    decreases s.len(),
{
    if s.len() == 0 {
        assert(entries_map(s) =~= Map::<Sha256Digest, ByteCount>::empty());
    } else {
        let init = s.drop_last();
        assert(keys_distinct(init));
        lemma_entries_map_len(init);
        assert(init.push(s.last()) =~= s);
        lemma_entries_map_push(init, s.last());
        assert(!has_key(init, s.last().0)) by {
            if has_key(init, s.last().0) {
                let j = choose|j: int| 0 <= j < init.len() && (#[trigger] init[j]).0 == s.last().0;
                assert(s[j].0 == s[s.len() - 1].0);
            }
        }
        assert(!entries_map(init).contains_key(s.last().0));
    }
}

/// The persisted document: the three fields are always written together.
#[derive(Debug, Clone, PartialEq, Eq)]
pub struct PersistedState {
    /// Last committed manifest (`None` before the first commit).
    pub last_committed: Option<Manifest>,
    /// Single signal of an uncommitted change (not a queue).
    pub dirty: bool,
    /// Resume offsets of uploads in progress (emptied by a commit).
    pub resume_offsets: ResumeOffsetMap,
}

impl Default for PersistedState {
    /// The empty initial state.
    fn default() -> (s: Self)
        ensures
            s.last_committed is None,
            !s.dirty,
            s.resume_offsets@ == Map::<Sha256Digest, ByteCount>::empty(),
    {
        PersistedState { last_committed: None, dirty: false, resume_offsets: ResumeOffsetMap::new() }
    }
}

impl PersistedState {
    /// The last committed manifest (the diff baseline of a cycle).
    pub fn last_committed_manifest(&self) -> (m: Option<&Manifest>)
        ensures
            m == match self.last_committed {
                Some(x) => Some(&x),
                None => None::<&Manifest>,
            },
    {
        match &self.last_committed {
            Some(x) => Some(x),
            None => None,
        }
    }

    /// Whether an uncommitted change is pending.
    pub fn is_dirty(&self) -> (b: bool)
        ensures
            b == self.dirty,
    {
        self.dirty
    }

    /// Marks the state dirty.
    pub fn mark_dirty(&mut self)
        ensures
            final(self).dirty,
            final(self).last_committed == old(self).last_committed,
            final(self).resume_offsets@ == old(self).resume_offsets@,
    {
        self.dirty = true;
    }

    /// Commits a manifest: `{ last_committed = m, dirty = false, offsets = {} }`
    /// in one transition.
    pub fn commit_manifest(&mut self, m: Manifest)
        ensures
            final(self).last_committed == Some(m),
            !final(self).dirty,
            final(self).resume_offsets@ == Map::<Sha256Digest, ByteCount>::empty(),
    {
        self.last_committed = Some(m);
        self.dirty = false;
        self.resume_offsets.clear();
    }

    /// The resume offset of a blob (`None`: start from the beginning).
    pub fn resume_offset(&self, blob: &Sha256Digest) -> (r: Option<ByteCount>)
        ensures
            r == (if self.resume_offsets@.contains_key(*blob) {
                Some(self.resume_offsets@[*blob])
            } else {
                None::<ByteCount>
            }),
    {
        self.resume_offsets.get(blob)
    }

    /// Records the resume offset of a blob.
    pub fn persist_resume_offset(&mut self, blob: Sha256Digest, off: ByteCount)
        ensures
            final(self).resume_offsets@ == old(self).resume_offsets@.insert(blob, off),
            final(self).last_committed == old(self).last_committed,
            final(self).dirty == old(self).dirty,
    {
        self.resume_offsets.insert(blob, off);
    }

    /// Drops every resume offset (an in-progress transfer abandoned without commit).
    pub fn clear_resume_offsets(&mut self)
        ensures
            final(self).resume_offsets@ == Map::<Sha256Digest, ByteCount>::empty(),
            final(self).last_committed == old(self).last_committed,
            final(self).dirty == old(self).dirty,
    {
        self.resume_offsets.clear();
    }
}

/// The location of the state file.
#[derive(Debug, Clone, Default, PartialEq, Eq)]
pub struct StateConfig {
    /// Absolute path of the state file; `None` selects the platform default.
    pub state_path: Option<String>,
}

/// Where recovery from damage ended.
#[derive(Debug, Clone, Copy, PartialEq, Eq, Structural)]
pub enum RecoveredState {
    /// The empty initial state (file absent or undecodable).
    Empty,
    /// The last good state.
    LastGood,
}

/// Store errors.
#[derive(Debug)]
pub enum StateError {
    /// Damage detected and recovered (a non-fatal signal that triggers reconciliation).
    CorruptRecovered {
        /// Where recovery ended.
        recovered_to: RecoveredState,
    },
    /// File I/O failed.
    Io(String),
    /// Encoding or decoding failed.
    Serde(CodecError),
}

/// What reading the state file gave.
#[derive(Debug, Clone, PartialEq, Eq)]
pub enum LoadedState {
    /// The final file does not exist.
    Missing,
    /// The final file decoded.
    Decoded(PersistedState),
    /// The final file exists but does not decode.
    Undecodable,
}

/// What the store does after reading the file.
#[derive(Debug, Clone, Copy, PartialEq, Eq, Structural)]
pub enum RecoveryAction {
    /// First run: start empty, write nothing.
    Fresh,
    /// Adopt the decoded last-good state and remove a residual temp file.
    AdoptLastGood,
    /// Damage: atomically rewrite the empty dirty state, then report
    /// `CorruptRecovered { recovered_to: Empty }`.
    RewriteCorrupt,
}

/// The recovered state and the action, from what the file gave: absent is
/// the empty state; decoded is adopted as is; undecodable becomes the empty
/// state marked dirty (so the next cycle reconciles).
pub fn recover_state(loaded: LoadedState) -> (r: (PersistedState, RecoveryAction))
    ensures
        match loaded {
            LoadedState::Missing => r.1 == RecoveryAction::Fresh && r.0.last_committed is None
                && !r.0.dirty && r.0.resume_offsets@ == Map::<Sha256Digest, ByteCount>::empty(),
            LoadedState::Decoded(s) => r.1 == RecoveryAction::AdoptLastGood && r.0 == s,
            LoadedState::Undecodable => r.1 == RecoveryAction::RewriteCorrupt
                && r.0.last_committed is None && r.0.dirty && r.0.resume_offsets@ == Map::<
                Sha256Digest,
                ByteCount,
            >::empty(),
        },
{
    match loaded {
        LoadedState::Missing => (PersistedState::default(), RecoveryAction::Fresh),
        LoadedState::Decoded(s) => (s, RecoveryAction::AdoptLastGood),
        LoadedState::Undecodable => (
            PersistedState {
                last_committed: None,
                dirty: true,
                resume_offsets: ResumeOffsetMap::new(),
            },
            RecoveryAction::RewriteCorrupt,
        ),
    }
}

/// The temp file of a state file: same directory, `.tmp` appended.
pub fn tmp_path_for(path: &str) -> (t: String)
    ensures
        t@ == path@ + ".tmp"@,
{
    let mut t = string_of(path);
    push_str(&mut t, ".tmp");
    t
}

/// `base` joined with `seg` by the separator (none added when `base`
/// already ends with it).
pub open spec fn spec_join(base: Seq<char>, seg: Seq<char>, sep: char) -> Seq<char> {
    if base.len() > 0 && base.last() == sep {
        base + seg
    } else if base.len() == 0 {
        seg
    } else {
        base.push(sep) + seg
    }
}

/// Joins a path and a segment (see `spec_join`).
pub fn join_path(base: &str, seg: &str, sep: char) -> (p: String)
    ensures
        p@ == spec_join(base@, seg@, sep),
{
    let v = crate::text::chars_of(base);
    let mut p = string_of(base);
    if v.len() > 0 && v[v.len() - 1] == sep {
        push_str(&mut p, seg);
    } else if v.len() == 0 {
        p = string_of(seg);
    } else {
        crate::text::push_char(&mut p, sep);
        push_str(&mut p, seg);
    }
    p
}

/// The base directory of the default state file: on Windows a set
/// `LOCALAPPDATA`, else the temp directory; elsewhere a set `XDG_STATE_HOME`,
/// else `$HOME/.local/state`, else the temp directory.
pub open spec fn spec_state_base_dir(
    windows: bool,
    local_app_data: Option<Seq<char>>,
    xdg_state_home: Option<Seq<char>>,
    home: Option<Seq<char>>,
    temp_dir: Seq<char>,
) -> Seq<char> {
    if windows {
        match local_app_data {
            Some(d) => d,
            None => temp_dir,
        }
    } else {
        match xdg_state_home {
            Some(x) => x,
            None => match home {
                Some(h) => spec_join(spec_join(h, ".local"@, '/'), "state"@, '/'),
                None => temp_dir,
            },
        }
    }
}

/// The view of an optional string slice.
pub open spec fn opt_view(o: Option<&str>) -> Option<Seq<char>> {
    match o {
        Some(s) => Some(s@),
        None => None,
    }
}

/// The default state file: `<base>/okc-watcher/sync-state.cbor`.
pub open spec fn spec_default_state_path(
    windows: bool,
    local_app_data: Option<Seq<char>>,
    xdg_state_home: Option<Seq<char>>,
    home: Option<Seq<char>>,
    temp_dir: Seq<char>,
) -> Seq<char> {
    let sep = if windows {
        '\\'
    } else {
        '/'
    };
    spec_join(
        spec_join(
            spec_state_base_dir(windows, local_app_data, xdg_state_home, home, temp_dir),
            "okc-watcher"@,
            sep,
        ),
        "sync-state.cbor"@,
        sep,
    )
}

/// The state file: the configured path, else the platform default; the
/// caller reads the environment.
pub fn resolve_state_path(
    cfg: &StateConfig,
    windows: bool,
    local_app_data: Option<&str>,
    xdg_state_home: Option<&str>,
    home: Option<&str>,
    temp_dir: &str,
) -> (p: String)
    ensures
        p@ == match cfg.state_path {
            Some(s) => s@,
            None => spec_default_state_path(
                windows,
                opt_view(local_app_data),
                opt_view(xdg_state_home),
                opt_view(home),
                temp_dir@,
            ),
        },
{
    if let Some(s) = &cfg.state_path {
        return string_of(s.as_str());
    }
    let base = if windows {
        match local_app_data {
            Some(d) => string_of(d),
            None => string_of(temp_dir),
        }
    } else {
        match xdg_state_home {
            Some(x) => string_of(x),
            None => match home {
                Some(h) => {
                    let local = join_path(h, ".local", '/');
                    join_path(local.as_str(), "state", '/')
                },
                None => string_of(temp_dir),
            },
        }
    };
    let sep = if windows {
        '\\'
    } else {
        '/'
    };
    let dir = join_path(base.as_str(), "okc-watcher", sep);
    join_path(dir.as_str(), "sync-state.cbor", sep)
}

} // verus!
