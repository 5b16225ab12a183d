//! The pseudo terminal whose master side is read.
use vstd::prelude::*;
use vstd::string::*;
use crate::text::push_decimal;

verus! {

/// The path of the master side of new pseudo terminals.
pub fn master_path() -> (r: String)
    ensures
        r@ == "/dev/ptmx"@,
{
    String::from_str("/dev/ptmx")
}

/// The path of the slave side of a pseudo terminal.
pub fn pts_path(number: i32) -> (r: String)
    ensures
        r@ == "/dev/pts/"@ + crate::text::decimal(number as int),
{
    let mut path = String::from_str("/dev/pts/");
    push_decimal(&mut path, number as i64);
    path
}

/// Whether the status flags of a file hold the flag of non-blocking files.
pub fn is_nonblocking(flags: i32, nonblock: i32) -> (r: bool)
    ensures
        r == (flags & nonblock != 0),
{
    flags & nonblock != 0
}

} // verus!
