//! Planning logic of the on-disk backing engine: stable column-family
//! names, per-column options, the iterator dispatch, and the open
//! sequence.
//!
//! The engine itself is a native library driven by unverified glue; every
//! decision that glue takes, it takes from here. The column-family name is
//! derived deterministically from the column's stable identifier (a
//! different derivation on restart would silently orphan persisted data);
//! composite-key columns get a fixed 32-byte prefix extractor; iteration
//! requests are compiled to an explicit cursor plan; and opening the
//! database walks a small state machine: open all declared column
//! families by descriptor, or — on a fresh database — open plain and
//! create each declared column family in turn, any other failure being
//! fatal.

use vstd::prelude::*;
use vstd::string::StrSliceExecFns;
use vstd::string::StringExecFns;

use crate::bytes::clone_bytes;
use crate::bytes::has_prefix;
use crate::bytes::key_has_prefix;
use crate::column::Column;
use crate::column::COMPOSITE_KEY_PREFIX_LEN;
use crate::iterate::IterDirection;

verus! {

/// The character of one decimal digit.
pub open spec fn digit_char(d: nat) -> char {
    if d == 0 {
        '0'
    } else if d == 1 {
        '1'
    } else if d == 2 {
        '2'
    } else if d == 3 {
        '3'
    } else if d == 4 {
        '4'
    } else if d == 5 {
        '5'
    } else if d == 6 {
        '6'
    } else if d == 7 {
        '7'
    } else if d == 8 {
        '8'
    } else {
        '9'
    }
}

/// The decimal numeral of `n`, most significant digit first.
pub open spec fn dec_digits(n: nat) -> Seq<char>
    decreases n,
{
    if n < 10 {
        seq![digit_char(n)]
    } else {
        dec_digits(n / 10).push(digit_char(n % 10))
    }
}

/// One decimal digit as a string.
fn digit_str(d: u32) -> (s: String)
    requires
        d < 10,
    ensures
        s@ == seq![digit_char(d as nat)],
{
    proof {
        reveal_strlit("0");
        reveal_strlit("1");
        reveal_strlit("2");
        reveal_strlit("3");
        reveal_strlit("4");
        reveal_strlit("5");
        reveal_strlit("6");
        reveal_strlit("7");
        reveal_strlit("8");
        reveal_strlit("9");
    }
    let lit: &str = if d == 0 {
        "0"
    } else if d == 1 {
        "1"
    } else if d == 2 {
        "2"
    } else if d == 3 {
        "3"
    } else if d == 4 {
        "4"
    } else if d == 5 {
        "5"
    } else if d == 6 {
        "6"
    } else if d == 7 {
        "7"
    } else if d == 8 {
        "8"
    } else {
        "9"
    };
    let s = String::from_str(lit);
    proof {
        assert(s@ =~= seq![digit_char(d as nat)]);
    }
    s
}

/// The decimal numeral of `n` as a string.
pub fn u32_decimal(n: u32) -> (s: String)
    ensures
        s@ == dec_digits(n as nat),
    decreases n,
{
    if n < 10 {
        digit_str(n)
    } else {
        let mut s = u32_decimal(n / 10);
        let d = digit_str(n % 10);
        s.append(d.as_str());
        proof {
            assert(s@ =~= dec_digits((n / 10) as nat).push(digit_char((n % 10) as nat)));
        }
        s
    }
}

/// The on-disk namespace name of a column: `column-` followed by the
/// column's stable decimal identifier. Stable across releases by
/// construction: the identifier alone determines the name.
pub open spec fn col_name_spec(column: Column) -> Seq<char> {
    "column-"@ + dec_digits(column.id_spec() as nat)
}

/// Executable form of [`col_name_spec`].
pub fn col_name(column: Column) -> (s: String)
    ensures
        s@ == col_name_spec(column),
{
    let mut s = String::from_str("column-");
    let d = u32_decimal(column.id());
    s.append(d.as_str());
    s
}

/// Options one column family is opened or created with.
pub struct ColumnFamilyOptions {
    /// Compression is enabled by default for all columns.
    pub compression_enabled: bool,
    /// Fixed-width prefix extractor for composite-key columns, absent
    /// elsewhere.
    pub prefix_extractor_len: Option<usize>,
}

/// The options of one column: compression on everywhere, and the 32-byte
/// entity prefix extractor exactly on the prefix-indexed columns.
pub fn cf_opts(column: Column) -> (r: ColumnFamilyOptions)
    ensures
        r.compression_enabled,
        r.prefix_extractor_len == if column.is_prefix_indexed_spec() {
            Some(COMPOSITE_KEY_PREFIX_LEN)
        } else {
            None::<usize>
        },
{
    let prefix_extractor_len = if column.is_prefix_indexed() {
        Some(COMPOSITE_KEY_PREFIX_LEN)
    } else {
        None
    };
    ColumnFamilyOptions { compression_enabled: true, prefix_extractor_len }
}

/// The column-family descriptors the engine is opened with: one per
/// declared column, under its stable name, with its options.
pub fn cf_descriptor_plan(columns: &Vec<Column>) -> (r: Vec<(String, ColumnFamilyOptions)>)
    ensures
        r@.len() == columns@.len(),
        forall|i: int|
            0 <= i < r@.len() ==> (#[trigger] r@[i]).0@ == col_name_spec(columns@[i])
                && r@[i].1.compression_enabled && r@[i].1.prefix_extractor_len == (
            if columns@[i].is_prefix_indexed_spec() {
                Some(COMPOSITE_KEY_PREFIX_LEN)
            } else {
                None::<usize>
            }),
{
    let mut r: Vec<(String, ColumnFamilyOptions)> = Vec::new();
    let mut i: usize = 0;
    while i < columns.len()
        invariant
            i <= columns@.len(),
            r@.len() == i,
            forall|j: int|
                0 <= j < i ==> (#[trigger] r@[j]).0@ == col_name_spec(columns@[j])
                    && r@[j].1.compression_enabled && r@[j].1.prefix_extractor_len == (
                if columns@[j].is_prefix_indexed_spec() {
                    Some(COMPOSITE_KEY_PREFIX_LEN)
                } else {
                    None::<usize>
                }),
        decreases columns@.len() - i,
    {
        let c = columns[i];
        r.push((col_name(c), cf_opts(c)));
        i = i + 1;
    }
    r
}

/// Where the engine's iterator cursor is positioned.
#[derive(Debug)]
pub enum ScanMode {
    /// At the lexicographically smallest key, moving ascending.
    Start,
    /// At the largest key, moving descending.
    End,
    /// At the given key, moving in the given direction.
    From(Vec<u8>, IterDirection),
}

/// The compiled form of one iteration request.
#[derive(Debug)]
pub enum IterPlan {
    /// The request yields nothing: the start key does not begin with the
    /// prefix.
    Empty,
    /// Drive the engine's iterator.
    Scan {
        /// Cursor position and direction.
        mode: ScanMode,
        /// Tell the engine all results share the cursor key's extractor
        /// prefix (an optimization hint for the prefix-only request).
        prefix_same_as_start: bool,
        /// Stop at the first yielded key that no longer begins with this
        /// prefix.
        bound: Option<Vec<u8>>,
    },
}

/// Compile one iteration request to a cursor plan, reproducing the
/// iteration algorithm's four cases exactly.
pub fn iter_plan(
    prefix: Option<&Vec<u8>>,
    start: Option<&Vec<u8>>,
    direction: IterDirection,
) -> (r: IterPlan)
    ensures
        match (prefix, start) {
            (None, None) => {
                &&& r matches IterPlan::Scan { mode, prefix_same_as_start, bound }
                &&& mode == (match direction {
                    IterDirection::Forward => ScanMode::Start,
                    IterDirection::Reverse => ScanMode::End,
                })
                &&& !prefix_same_as_start
                &&& bound is None
            },
            (Some(p), None) => {
                &&& r matches IterPlan::Scan { mode, prefix_same_as_start, bound }
                &&& mode matches ScanMode::From(k, d)
                &&& k@ == p@
                &&& d == direction
                &&& prefix_same_as_start
                &&& bound is None
            },
            (None, Some(s)) => {
                &&& r matches IterPlan::Scan { mode, prefix_same_as_start, bound }
                &&& mode matches ScanMode::From(k, d)
                &&& k@ == s@
                &&& d == direction
                &&& !prefix_same_as_start
                &&& bound is None
            },
            (Some(p), Some(s)) => if !has_prefix(s@, p@) {
                r is Empty
            } else {
                &&& r matches IterPlan::Scan { mode, prefix_same_as_start, bound }
                &&& mode matches ScanMode::From(k, d)
                &&& k@ == s@
                &&& d == direction
                &&& !prefix_same_as_start
                &&& bound matches Some(b)
                &&& b@ == p@
            },
        },
{
    match (prefix, start) {
        (None, None) => IterPlan::Scan {
            mode: match direction {
                IterDirection::Forward => ScanMode::Start,
                IterDirection::Reverse => ScanMode::End,
            },
            prefix_same_as_start: false,
            bound: None,
        },
        (Some(p), None) => IterPlan::Scan {
            mode: ScanMode::From(clone_bytes(p), direction),
            prefix_same_as_start: true,
            bound: None,
        },
        (None, Some(s)) => IterPlan::Scan {
            mode: ScanMode::From(clone_bytes(s), direction),
            prefix_same_as_start: false,
            bound: None,
        },
        (Some(p), Some(s)) => {
            if !key_has_prefix(s, p) {
                IterPlan::Empty
            } else {
                IterPlan::Scan {
                    mode: ScanMode::From(clone_bytes(s), direction),
                    prefix_same_as_start: false,
                    bound: Some(clone_bytes(p)),
                }
            }
        }
    }
}

/// Phase of the engine-open sequence.
#[derive(Copy, Clone, Debug, PartialEq, Eq, Structural)]
pub enum OpenPhase {
    /// Trying to open every declared column family by descriptor.
    Descriptors,
    /// The descriptor open failed (fresh database): trying to open with
    /// no column families.
    Plain,
    /// Creating the declared column family at this index.
    Creating(usize),
    /// The engine is open with every declared column family.
    Ready,
    /// A fatal open failure: the node cannot start.
    Failed,
}

/// The engine-open sequence as a state machine. The unverified driver
/// performs the native call each phase names and reports whether it
/// succeeded; the machine decides what happens next.
pub struct OpenFlow {
    columns: Vec<Column>,
    phase: OpenPhase,
}

impl OpenFlow {
    /// The declared columns being opened.
    pub closed spec fn columns_spec(self) -> Seq<Column> {
        self.columns@
    }

    /// The current phase.
    pub closed spec fn phase_spec(self) -> OpenPhase {
        self.phase
    }

    /// Well-formedness: a creation phase points at a declared column.
    pub open spec fn inv(self) -> bool {
        self.phase_spec() matches OpenPhase::Creating(i) ==> i < self.columns_spec().len()
    }

    /// Start opening the engine over the declared columns.
    pub fn new(columns: Vec<Column>) -> (r: OpenFlow)
        ensures
            r.inv(),
            r.columns_spec() == columns@,
            r.phase_spec() is Descriptors,
    {
        OpenFlow { columns, phase: OpenPhase::Descriptors }
    }

    /// The current phase.
    pub fn phase(&self) -> (r: OpenPhase)
        ensures
            r == self.phase_spec(),
    {
        self.phase
    }

    /// The column to create in a creation phase.
    pub fn creating_column(&self) -> (r: Option<Column>)
        requires
            self.inv(),
        ensures
            match r {
                Some(c) => self.phase_spec() matches OpenPhase::Creating(i)
                    && c == self.columns_spec()[i as int],
                None => !(self.phase_spec() is Creating),
            },
    {
        match self.phase {
            OpenPhase::Creating(i) => Some(self.columns[i]),
            _ => None,
        }
    }

    /// Feed back whether the phase's native call succeeded; the machine
    /// moves to the next phase: a successful descriptor open is ready; a
    /// failed one falls back to the plain open; a successful plain open
    /// creates each declared column family in turn; any failure past the
    /// descriptor attempt is fatal.
    pub fn on_result(&mut self, ok: bool)
        requires
            old(self).inv(),
            !(old(self).phase_spec() is Ready),
            !(old(self).phase_spec() is Failed),
        ensures
            final(self).inv(),
            final(self).columns_spec() == old(self).columns_spec(),
            final(self).phase_spec() == match old(self).phase_spec() {
                OpenPhase::Descriptors => if ok {
                    OpenPhase::Ready
                } else {
                    OpenPhase::Plain
                },
                OpenPhase::Plain => if !ok {
                    OpenPhase::Failed
                } else if old(self).columns_spec().len() == 0 {
                    OpenPhase::Ready
                } else {
                    OpenPhase::Creating(0)
                },
                OpenPhase::Creating(i) => if !ok {
                    OpenPhase::Failed
                } else if i + 1 < old(self).columns_spec().len() {
                    OpenPhase::Creating((i + 1) as usize)
                } else {
                    OpenPhase::Ready
                },
                _ => old(self).phase_spec(),
            },
    {
        let next = match self.phase {
            OpenPhase::Descriptors => {
                if ok {
                    OpenPhase::Ready
                } else {
                    OpenPhase::Plain
                }
            }
            OpenPhase::Plain => {
                if !ok {
                    OpenPhase::Failed
                } else if self.columns.len() == 0 {
                    OpenPhase::Ready
                } else {
                    OpenPhase::Creating(0)
                }
            }
            OpenPhase::Creating(i) => {
                let n = self.columns.len();
                proof {
                    assert(old(self).phase_spec() matches OpenPhase::Creating(j) && j == i);
                    assert(i < n);
                }
                if !ok {
                    OpenPhase::Failed
                } else if i + 1 < n {
                    OpenPhase::Creating(i + 1)
                } else {
                    OpenPhase::Ready
                }
            }
            OpenPhase::Ready => OpenPhase::Ready,
            OpenPhase::Failed => OpenPhase::Failed,
        };
        self.phase = next;
    }
}

} // verus!
