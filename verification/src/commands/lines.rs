//! Building a report line by line.

use vstd::prelude::*;
use vstd::string::StringExecFns;

use crate::text::strings_view;

verus! {

/// Appends a line.
pub fn push_line(v: &mut Vec<String>, line: &str)
    ensures
        strings_view(final(v)@) == strings_view(old(v)@).push(line@),
{
    let ghost before = v@;
    v.push(String::from_str(line));
    assert(strings_view(v@) =~= strings_view(before).push(line@));
}

/// Appends a line that is already built.
pub fn push_owned(v: &mut Vec<String>, line: String)
    ensures
        strings_view(final(v)@) == strings_view(old(v)@).push(line@),
{
    let ghost before = v@;
    let ghost l = line@;
    v.push(line);
    assert(strings_view(v@) =~= strings_view(before).push(l));
}

/// The line about parallelism shared by the batch and warm reports.
pub open spec fn parallelism_line(parallel: Option<usize>) -> Seq<char> {
    match parallel {
        Some(n) => "Would process with "@ + crate::text::decimal(n as nat) + " parallel workers"@,
        None => "Would use default parallelism based on system capabilities"@,
    }
}

/// The line about parallelism (see [`parallelism_line`]).
pub fn parallelism(parallel: Option<usize>) -> (s: String)
    ensures
        s@ == parallelism_line(parallel),
{
    match parallel {
        Some(n) => {
            let mut s = String::from_str("Would process with ");
            crate::text::push_decimal(&mut s, n as u64);
            s.append(" parallel workers");
            s
        },
        None => String::from_str("Would use default parallelism based on system capabilities"),
    }
}

} // verus!
