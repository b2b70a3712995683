//! The lines that report a timing sample.

use vstd::prelude::*;
use vstd::string::StringExecFns;
use crate::decimal::{decimal, push_decimal};
use crate::variant::Variant;

verus! {

/// The report of a send that took `micros` microseconds:
/// the label, ` send: `, the number and `us`.
pub open spec fn spec_send_line(variant: Variant, micros: nat) -> Seq<char> {
    variant.spec_label() + " send: "@ + decimal(micros) + "us"@
}

/// The report of a receive that took `micros` microseconds: as for a send,
/// with ` recv: ` and a line feed at the end, which leaves an empty line
/// after the variant once the line is printed.
pub open spec fn spec_recv_line(variant: Variant, micros: nat) -> Seq<char> {
    variant.spec_label() + " recv: "@ + decimal(micros) + "us\n"@
}

/// The line that reports how long the variant's send took.
pub fn send_line(variant: Variant, micros: u128) -> (line: String)
    ensures
        line@ == spec_send_line(variant, micros as nat),
{
    let mut line = String::from_str(variant.label());
    line.append(" send: ");
    push_decimal(&mut line, micros);
    line.append("us");
    line
}

/// The line that reports how long the variant's receive took.
pub fn recv_line(variant: Variant, micros: u128) -> (line: String)
    ensures
        line@ == spec_recv_line(variant, micros as nat),
{
    let mut line = String::from_str(variant.label());
    line.append(" recv: ");
    push_decimal(&mut line, micros);
    line.append("us\n");
    line
}

} // verus!
