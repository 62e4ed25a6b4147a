//! The resize control message and its wire form.
//!
//! A resize message carries the rows and columns of the controller's
//! terminal. On the wire it is the JSON object `{"rows":R,"cols":C}` with
//! both numbers in decimal. A message is valid when both numbers are
//! positive; anything else is discarded as a whole.

use crate::json::{json_unsigned_fields, member, parse_document, unsigned_member};
use crate::text::{ascii_bytes, push_ascii};
use vstd::prelude::*;

verus! {

/// Rows of a freshly opened pseudo-terminal, and of a controller that
/// cannot read its own size.
pub const DEFAULT_ROWS: u16 = 24;

/// Columns of a freshly opened pseudo-terminal, and of a controller that
/// cannot read its own size.
pub const DEFAULT_COLS: u16 = 80;

/// A resize message: the terminal's height and width in character cells.
#[derive(Clone, Copy, Debug, PartialEq, Eq, Structural)]
pub struct TerminalResize {
    pub rows: u16,
    pub cols: u16,
}

/// The decimal digits of a number, most significant first, without leading
/// zeros.
pub open spec fn decimal_digits(n: nat) -> Seq<u8>
    decreases n,
{
    if n < 10 {
        seq![(48 + n) as u8]
    } else {
        decimal_digits(n / 10).push((48 + n % 10) as u8)
    }
}

/// The wire form of a message with the given rows and columns.
pub open spec fn wire_text(rows: u16, cols: u16) -> Seq<u8> {
    ascii_bytes("{\"rows\":"@) + decimal_digits(rows as nat) + ascii_bytes(",\"cols\":"@)
        + decimal_digits(cols as nat) + ascii_bytes("}"@)
}

/// The message that two decoded fields make, if they make one: both must
/// be present, positive, and small enough for sixteen bits.
pub open spec fn accepted(rows: Option<u64>, cols: Option<u64>) -> Option<TerminalResize> {
    match (rows, cols) {
        (Some(r), Some(c)) => if 0 < r <= u16::MAX && 0 < c <= u16::MAX {
            Some(TerminalResize { rows: r as u16, cols: c as u16 })
        } else {
            None
        },
        _ => None,
    }
}

/// The message that a parsed payload makes, if it makes one.
pub open spec fn decoded(fields: Option<Map<Seq<char>, u64>>) -> Option<TerminalResize> {
    match fields {
        Some(m) => accepted(member(m, "rows"@), member(m, "cols"@)),
        None => None,
    }
}

impl TerminalResize {
    /// Both dimensions are positive.
    pub open spec fn valid(self) -> bool {
        self.rows > 0 && self.cols > 0
    }

    /// Whether both dimensions are positive.
    pub fn is_valid(&self) -> (ok: bool)
        ensures
            ok == self.valid(),
    {
        self.rows > 0 && self.cols > 0
    }

    /// Makes a message from dimensions, or nothing if one of them is zero.
    pub fn new(rows: u16, cols: u16) -> (r: Option<TerminalResize>)
        ensures
            r == accepted(Some(rows as u64), Some(cols as u64)),
            r is Some <==> rows > 0 && cols > 0,
    {
        if rows > 0 && cols > 0 {
            Some(TerminalResize { rows, cols })
        } else {
            None
        }
    }

    /// The message for a controller whose terminal size could not be read,
    /// or was read as empty: 80 columns by 24 rows.
    pub fn fallback() -> (r: TerminalResize)
        ensures
            r == (TerminalResize { rows: DEFAULT_ROWS, cols: DEFAULT_COLS }),
            r.valid(),
    {
        TerminalResize { rows: DEFAULT_ROWS, cols: DEFAULT_COLS }
    }

    /// Makes a message from the two fields of a decoded payload. A missing
    /// field, a zero, or a number above 65535 yields nothing.
    pub fn from_fields(rows: Option<u64>, cols: Option<u64>) -> (r: Option<TerminalResize>)
        ensures
            r == accepted(rows, cols),
            r matches Some(m) ==> m.valid(),
    {
        match (rows, cols) {
            (Some(r), Some(c)) => {
                if 0 < r && r <= 65535 && 0 < c && c <= 65535 {
                    Some(TerminalResize { rows: r as u16, cols: c as u16 })
                } else {
                    None
                }
            },
            _ => None,
        }
    }

    /// Writes the message in its wire form.
    pub fn encode(&self) -> (out: Vec<u8>)
        ensures
            out@ == wire_text(self.rows, self.cols),
    {
        let mut out: Vec<u8> = Vec::new();
        proof {
            reveal_strlit("{\"rows\":");
            reveal_strlit(",\"cols\":");
            reveal_strlit("}");
        }
        push_ascii(&mut out, "{\"rows\":");
        push_decimal(&mut out, self.rows);
        push_ascii(&mut out, ",\"cols\":");
        push_decimal(&mut out, self.cols);
        push_ascii(&mut out, "}");
        out
    }

    /// Reads a message from a payload. The payload must be a JSON object
    /// with unsigned integer members `rows` and `cols`, both positive and
    /// at most 65535; every other payload yields nothing.
    pub fn decode(payload: &[u8]) -> (r: Option<TerminalResize>)
        ensures
            r == decoded(json_unsigned_fields(payload@)),
            r matches Some(m) ==> m.valid(),
    {
        match parse_document(payload) {
            Ok(doc) => {
                let rows = unsigned_member(&doc, "rows");
                let cols = unsigned_member(&doc, "cols");
                TerminalResize::from_fields(rows, cols)
            },
            Err(_) => None,
        }
    }
}

/// A message is accepted exactly when both fields are present, positive and
/// at most 65535, and then it carries those two numbers. A missing field or
/// a field that is zero always leads to rejection.
pub proof fn lemma_accepts_only_positive(rows: Option<u64>, cols: Option<u64>)
    ensures
        accepted(rows, cols) is Some <==> (rows is Some && 0 < rows->0 <= 65535 && cols is Some && 0
            < cols->0 <= 65535),
        accepted(rows, cols) is Some ==> {
            let m = accepted(rows, cols)->0;
            m.valid() && m.rows == rows->0 && m.cols == cols->0
        },
        rows is None || cols is None || rows == Some(0u64) || cols == Some(0u64) ==> accepted(
            rows,
            cols,
        ) is None,
{
}

/// Appends a number in decimal to a byte buffer.
fn push_decimal(out: &mut Vec<u8>, n: u16)
    ensures
        final(out)@ == old(out)@ + decimal_digits(n as nat),
    decreases n,
{
    if n >= 10 {
        push_decimal(out, n / 10);
    }
    let digit: u8 = 48 + (n % 10) as u8;
    out.push(digit);
}

} // verus!
