//! Extraction ledger: durable, append-only record of per-unit outcomes.
//!
//! Entries are partitioned by status into two destinations (a success
//! stream and a failure stream). Each destination is header-initialized
//! exactly once, on its first write, and is append-only afterwards. Each
//! line is the comma-joined entry with `-` standing in for an absent error
//! message. The library builds the exact lines; writing them to disk is the
//! caller's concern.

use vstd::prelude::*;
use vstd::string::StringExecFns;

verus! {

/// Terminal outcome of one unit of work.
#[derive(Debug, Clone, Copy, PartialEq, Eq, Structural)]
pub enum EntryStatus {
    /// The unit's result was produced and persisted
    Success,
    /// The unit ended in a terminal failure
    Failed,
}

/// One ledger record.
#[derive(Debug)]
pub struct LedgerEntry {
    /// When the outcome was recorded, in nanoseconds
    pub timestamp: u64,
    /// The unit of work the record is about
    pub unit_identity: String,
    /// Terminal outcome
    pub status: EntryStatus,
    /// The failure message; present exactly when the unit failed
    pub error_message: Option<String>,
}

impl LedgerEntry {
    /// A record carries a message exactly when it records a failure.
    pub open spec fn wf(self) -> bool {
        self.status is Failed <==> self.error_message is Some
    }
}

/// The decimal digit character for `d`.
pub open spec fn digit_char(d: nat) -> char {
    if d == 0 {
        '0'
    } else if d == 1 {
        '1'
    } else if d == 2 {
        '2'
    } else if d == 3 {
        '3'
    } else if d == 4 {
        '4'
    } else if d == 5 {
        '5'
    } else if d == 6 {
        '6'
    } else if d == 7 {
        '7'
    } else if d == 8 {
        '8'
    } else {
        '9'
    }
}

/// The decimal rendering of `n`, most significant digit first, with no
/// leading zeros (a lone zero for zero itself).
pub open spec fn dec_chars(n: nat) -> Seq<char>
    decreases n,
{
    if n < 10 {
        seq![digit_char(n)]
    } else {
        dec_chars(n / 10) + seq![digit_char(n % 10)]
    }
}

/// The header line both destinations start with.
pub open spec fn header_chars() -> Seq<char> {
    "timestamp,file_path,status,error_message"@
}

/// The status column text.
pub open spec fn status_text(s: EntryStatus) -> Seq<char> {
    match s {
        EntryStatus::Success => "SUCCESS"@,
        EntryStatus::Failed => "FAILED"@,
    }
}

/// The full line for one record: comma-joined columns, with `-` when no
/// error message is present.
pub open spec fn line_chars(e: LedgerEntry) -> Seq<char> {
    dec_chars(e.timestamp as nat) + ","@ + e.unit_identity@ + ","@ + status_text(e.status) + ","@
        + (match e.error_message {
        Some(m) => m@,
        None => "-"@,
    })
}

/// The views of a destination's lines.
pub open spec fn lines_view(v: Seq<String>) -> Seq<Seq<char>> {
    v.map_values(|s: String| s@)
}

/// A destination after one append: header-initialized if this is its first
/// write, then the record's line.
pub open spec fn appended_view(lines: Seq<Seq<char>>, e: LedgerEntry) -> Seq<Seq<char>> {
    if lines.len() == 0 {
        seq![header_chars(), line_chars(e)]
    } else {
        lines.push(line_chars(e))
    }
}

/// One decimal digit as text.
fn digit_str(d: u64) -> (s: &'static str)
    requires
        d < 10,
    ensures
        s@ == seq![digit_char(d as nat)],
{
    let s: &'static str = if d == 0 {
        "0"
    } else if d == 1 {
        "1"
    } else if d == 2 {
        "2"
    } else if d == 3 {
        "3"
    } else if d == 4 {
        "4"
    } else if d == 5 {
        "5"
    } else if d == 6 {
        "6"
    } else if d == 7 {
        "7"
    } else if d == 8 {
        "8"
    } else {
        "9"
    };
    proof {
        reveal_strlit("0");
        reveal_strlit("1");
        reveal_strlit("2");
        reveal_strlit("3");
        reveal_strlit("4");
        reveal_strlit("5");
        reveal_strlit("6");
        reveal_strlit("7");
        reveal_strlit("8");
        reveal_strlit("9");
        assert(s@ =~= seq![digit_char(d as nat)]);
    }
    s
}

/// Renders `n` in decimal.
pub fn u64_to_dec(n: u64) -> (s: String)
    ensures
        s@ == dec_chars(n as nat),
    decreases n,
{
    if n < 10 {
        digit_str(n).to_owned()
    } else {
        proof {
            assert(n / 10 < n) by (nonlinear_arith)
                requires
                    n >= 10,
            ;
        }
        let mut s = u64_to_dec(n / 10);
        s.append(digit_str(n % 10));
        s
    }
}

/// Builds the ledger line for one record.
pub fn format_entry(e: &LedgerEntry) -> (line: String)
    ensures
        line@ == line_chars(*e),
{
    let mut line = u64_to_dec(e.timestamp);
    line.append(",");
    line.append(e.unit_identity.as_str());
    line.append(",");
    match e.status {
        EntryStatus::Success => line.append("SUCCESS"),
        EntryStatus::Failed => line.append("FAILED"),
    }
    line.append(",");
    match &e.error_message {
        Some(m) => line.append(m.as_str()),
        None => line.append("-"),
    }
    proof {
        assert(line@ =~= line_chars(*e));
    }
    line
}

/// Durable, append-only record of per-unit outcomes, partitioned by status
/// into two destinations.
#[derive(Debug)]
pub struct ExtractionLedger {
    /// Lines of the success destination, header first once written to
    pub success_lines: Vec<String>,
    /// Lines of the failure destination, header first once written to
    pub failure_lines: Vec<String>,
}

impl ExtractionLedger {
    /// A fresh ledger: both destinations untouched (no header yet).
    pub fn new() -> (l: Self)
        ensures
            l.success_lines@.len() == 0,
            l.failure_lines@.len() == 0,
    {
        ExtractionLedger { success_lines: Vec::new(), failure_lines: Vec::new() }
    }

    /// Appends one record to the destination its status selects,
    /// header-initializing that destination on its first write. The other
    /// destination is untouched.
    pub fn append(&mut self, e: &LedgerEntry)
        ensures
            e.status is Success ==> {
                &&& lines_view(final(self).success_lines@) == appended_view(
                    lines_view(old(self).success_lines@),
                    *e,
                )
                &&& final(self).failure_lines == old(self).failure_lines
            },
            e.status is Failed ==> {
                &&& lines_view(final(self).failure_lines@) == appended_view(
                    lines_view(old(self).failure_lines@),
                    *e,
                )
                &&& final(self).success_lines == old(self).success_lines
            },
    {
        let line = format_entry(e);
        match e.status {
            EntryStatus::Success => {
                if self.success_lines.len() == 0 {
                    self.success_lines.push("timestamp,file_path,status,error_message".to_owned());
                }
                self.success_lines.push(line);
                proof {
                    assert(lines_view(self.success_lines@) =~= appended_view(
                        lines_view(old(self).success_lines@),
                        *e,
                    ));
                }
            },
            EntryStatus::Failed => {
                if self.failure_lines.len() == 0 {
                    self.failure_lines.push("timestamp,file_path,status,error_message".to_owned());
                }
                self.failure_lines.push(line);
                proof {
                    assert(lines_view(self.failure_lines@) =~= appended_view(
                        lines_view(old(self).failure_lines@),
                        *e,
                    ));
                }
            },
        }
    }

    /// The number of records in the success destination (not counting its
    /// header).
    pub fn success_count(&self) -> (n: usize)
        ensures
            n == if self.success_lines@.len() == 0 {
                0int
            } else {
                self.success_lines@.len() - 1
            },
    {
        if self.success_lines.len() == 0 {
            0
        } else {
            self.success_lines.len() - 1
        }
    }

    /// The number of records in the failure destination (not counting its
    /// header).
    pub fn failure_count(&self) -> (n: usize)
        ensures
            n == if self.failure_lines@.len() == 0 {
                0int
            } else {
                self.failure_lines@.len() - 1
            },
    {
        if self.failure_lines.len() == 0 {
            0
        } else {
            self.failure_lines.len() - 1
        }
    }
}

} // verus!
