//! The structured log line and the rules of the JSON-line logger: the level
//! filter, the emitted line (record plus stamped emission time), the rotated
//! file names and the size-based rotation plan.
//!
//! Tokens are only ever carried as `TokenSecret`, whose text forms redact
//! the value; the logger emits the caller's fields as they are.

use vstd::prelude::*;

use crate::foundation::core_types::primitives::Timestamp;
use crate::foundation::core_types::sink::{spec_level_rank, CycleId, LogFields, LogLevel, LogRecord};
use crate::text::{push_char, push_decimal, push_str, spec_decimal, string_of};

verus! {

/// The line written for one record: every record field plus the emission time.
#[derive(Debug, Clone, PartialEq, Eq)]
pub struct EmittedLogLine {
    /// Emission wall-clock time, stamped by the logger.
    pub timestamp: Timestamp,
    /// Level.
    pub level: LogLevel,
    /// Event identifier.
    pub event: String,
    /// Related cycle, if any.
    pub cycle_id: Option<CycleId>,
    /// Message.
    pub message: String,
    /// Structured fields.
    pub fields: LogFields,
}

/// The fields as text pairs.
pub open spec fn fields_view(f: LogFields) -> Seq<(Seq<char>, Seq<char>)> {
    f.0@.map_values(|p: (String, String)| (p.0@, p.1@))
}

/// A copy of the fields, pair by pair.
pub fn copy_fields(f: &LogFields) -> (r: LogFields)
    ensures
        fields_view(r) == fields_view(*f),
{
    let mut out: Vec<(String, String)> = Vec::new();
    let n = f.0.len();
    let mut i: usize = 0;
    while i < n
        invariant
            n == f.0@.len(),
            i <= n,
            out@.len() == i,
            forall|j: int|
                0 <= j < i ==> (#[trigger] out@[j]).0@ == f.0@[j].0@ && out@[j].1@ == f.0@[j].1@,
        decreases n - i,
    {
        let key = f.0[i].0.clone();
        let value = f.0[i].1.clone();
        out.push((key, value));
        i = i + 1;
    }
    let r = LogFields(out);
    assert(fields_view(r) =~= fields_view(*f));
    r
}

/// The emitted line carries the stamped time and every field of the record.
pub open spec fn line_matches(line: EmittedLogLine, timestamp: Timestamp, record: LogRecord) -> bool {
    &&& line.timestamp == timestamp
    &&& line.level == record.level
    &&& line.event@ == record.event@
    &&& line.cycle_id == record.cycle_id
    &&& line.message@ == record.message@
    &&& fields_view(line.fields) == fields_view(record.fields)
}

impl EmittedLogLine {
    /// The line of a record stamped with the emission time.
    pub fn new(timestamp: Timestamp, record: &LogRecord) -> (line: Self)
        ensures
            line_matches(line, timestamp, *record),
    {
        EmittedLogLine {
            timestamp,
            level: record.level,
            event: record.event.clone(),
            cycle_id: record.cycle_id,
            message: record.message.clone(),
            fields: copy_fields(&record.fields),
        }
    }
}

/// Whether a record of `level` is emitted under the active level: levels
/// below the active one are dropped.
pub fn passes_level(level: LogLevel, active: LogLevel) -> (r: bool)
    ensures
        r == (spec_level_rank(level) >= spec_level_rank(active)),
{
    level.at_least(&active)
}

/// The record built by `Logger::event`: an empty message and the given parts.
pub fn event_record(level: LogLevel, event: &str, cycle_id: Option<CycleId>, fields: LogFields) -> (r:
    LogRecord)
    ensures
        r.level == level,
        r.event@ == event@,
        r.cycle_id == cycle_id,
        r.message@ == Seq::<char>::empty(),
        r.fields == fields,
{
    let message = string_of("");
    proof {
        reveal_strlit("");
    }
    LogRecord { level, event: string_of(event), cycle_id, message, fields }
}

/// The name of the `index`-th rotated file: the log file name, a dot, the index.
pub open spec fn spec_rotated_name(log_file: Seq<char>, index: nat) -> Seq<char> {
    log_file.push('.') + spec_decimal(index)
}

/// The `index`-th rotated file name (`<log_file>.<index>`).
pub fn rotated_name(log_file: &str, index: u64) -> (s: String)
    ensures
        s@ == spec_rotated_name(log_file@, index as nat),
{
    let mut s = string_of(log_file);
    push_char(&mut s, '.');
    push_decimal(&mut s, index);
    s
}

/// What to do after a write, from the file size.
#[derive(Debug, Clone, Copy, PartialEq, Eq, Structural)]
pub enum RotationPlan {
    /// The file is within the threshold.
    Keep,
    /// Nothing is retained: remove the file and start anew.
    Remove,
    /// Drop the oldest rotated file, shift `k` to `k + 1` for `k` from
    /// `retained - 1` down to 1, then rename the file to `.1`.
    Shift,
}

/// The rotation decision: keep while `len <= max_size`; otherwise remove
/// when nothing is retained, else shift.
pub open spec fn spec_rotation_plan(len: u64, max_size: u64, max_retained: usize) -> RotationPlan {
    if len <= max_size {
        RotationPlan::Keep
    } else if max_retained == 0 {
        RotationPlan::Remove
    } else {
        RotationPlan::Shift
    }
}

/// Decides the rotation after a write.
pub fn rotation_plan(len: u64, max_size: u64, max_retained: usize) -> (p: RotationPlan)
    ensures
        p == spec_rotation_plan(len, max_size, max_retained),
{
    if len <= max_size {
        RotationPlan::Keep
    } else if max_retained == 0 {
        RotationPlan::Remove
    } else {
        RotationPlan::Shift
    }
}

/// The renames of a shift, in order: `(k, k + 1)` for `k` from
/// `retained - 1` down to 1.
pub open spec fn spec_shift_pairs(retained: nat) -> Seq<(nat, nat)> {
    Seq::new(
        if retained == 0 {
            0nat
        } else {
            (retained - 1) as nat
        },
        |i: int| ((retained - 1 - i) as nat, (retained - i) as nat),
    )
}

/// The renames of a shift, in order (oldest first).
pub fn shift_pairs(retained: usize) -> (v: Vec<(usize, usize)>)
    ensures
        v@.len() == spec_shift_pairs(retained as nat).len(),
        forall|i: int|
            0 <= i < v@.len() ==> (v@[i].0 as nat, v@[i].1 as nat) == #[trigger] spec_shift_pairs(
                retained as nat,
            )[i],
{
    let mut v: Vec<(usize, usize)> = Vec::new();
    if retained == 0 {
        return v;
    }
    let mut k: usize = retained - 1;
    while k >= 1
        invariant
            retained >= 1,
            k <= retained - 1,
            v@.len() == retained - 1 - k,
            forall|i: int|
                0 <= i < v@.len() ==> (v@[i].0 as nat, v@[i].1 as nat) == #[trigger] spec_shift_pairs(
                    retained as nat,
                )[i],
        decreases k,
    {
        v.push((k, k + 1));
        k = k - 1;
    }
    v
}

} // verus!
