//! An error together with the place in the source where it was noticed.

use crate::text::{decimal_digits, push_decimal};
use vstd::prelude::*;

verus! {

/// An error and where it was noticed.
pub struct LocatedError {
    /// The error itself, as text.
    pub inner: String,
    /// The source file.
    pub file: String,
    /// The line in that file.
    pub line: u32,
    /// The column in that line.
    pub column: u32,
    /// A remark, or nothing.
    pub addtl_msg: String,
}

/// How a located error reads: the error, the file and the line, and the
/// remark in parentheses if there is one.
pub open spec fn located_text(
    inner: Seq<char>,
    file: Seq<char>,
    line: u32,
    addtl_msg: Seq<char>,
) -> Seq<char> {
    let place = inner + " from "@ + file + ":"@ + decimal_digits(line as nat);
    if addtl_msg.len() > 0 {
        place + " ("@ + addtl_msg + ")"@
    } else {
        place
    }
}

impl LocatedError {
    /// An error noticed at the given place, without a remark.
    pub fn new(inner: &str, file: &str, line: u32, column: u32) -> (r: Self)
        ensures
            r.inner@ == inner@,
            r.file@ == file@,
            r.line == line,
            r.column == column,
            r.addtl_msg@.len() == 0,
    {
        LocatedError {
            inner: String::from_str(inner),
            file: String::from_str(file),
            line,
            column,
            addtl_msg: String::new(),
        }
    }

    /// An error noticed at the given place, with a remark.
    pub fn with_message(inner: &str, file: &str, line: u32, column: u32, addtl_msg: &str) -> (r:
        Self)
        ensures
            r.inner@ == inner@,
            r.file@ == file@,
            r.line == line,
            r.column == column,
            r.addtl_msg@ == addtl_msg@,
    {
        LocatedError {
            inner: String::from_str(inner),
            file: String::from_str(file),
            line,
            column,
            addtl_msg: String::from_str(addtl_msg),
        }
    }

    /// The error as a line of text.
    pub fn message(&self) -> (r: String)
        ensures
            r@ == located_text(self.inner@, self.file@, self.line, self.addtl_msg@),
    {
        let mut out = self.inner.clone();
        out.append(" from ");
        out.append(self.file.as_str());
        out.append(":");
        push_decimal(&mut out, self.line as u128);
        if self.addtl_msg.as_str().unicode_len() > 0 {
            out.append(" (");
            out.append(self.addtl_msg.as_str());
            out.append(")");
        }
        out
    }
}

} // verus!
