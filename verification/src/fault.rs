//! The panic handler: what the kernel does when a fault stops it.

use vstd::prelude::*;
use vstd::string::StringSliceAdditionalSpecFns;

use crate::board::ExitStatus;
use crate::console::{dec_digits, newline, put_bytes, put_dec, Console, LINE_FEED};

verus! {

/// The place in the source at which a fault was detected.
pub struct Location<'a> {
    pub file: &'a str,
    pub line: u32,
}

/// What is known of a fault: where it was detected, if that is known, and a
/// message for the reader.
pub struct PanicReport<'a> {
    pub location: Option<Location<'a>>,
    pub message: &'a str,
}

/// The line that the panic handler prints for a fault:
/// `panicked at <file>:<line> <message>` where the location is known, and
/// `panicked: <message>` where it is not.
pub open spec fn panic_line(report: PanicReport) -> Seq<u8> {
    match report.location {
        Some(location) => "panicked at ".spec_bytes() + location.file.spec_bytes()
            + ":".spec_bytes() + dec_digits(location.line as nat) + " ".spec_bytes()
            + report.message.spec_bytes() + newline(),
        None => "panicked: ".spec_bytes() + report.message.spec_bytes() + newline(),
    }
}

/// Handles a fault: prints its line on the console and answers with the
/// status with which execution has to end, which is always failure. Nothing
/// else is done, and nothing of the kernel runs after it.
pub fn handle_panic(console: &mut Console, report: &PanicReport<'_>) -> (status: ExitStatus)
    ensures
        final(console)@ == old(console)@ + panic_line(*report),
        status == ExitStatus::Failure,
{
    match &report.location {
        Some(location) => {
            put_bytes(console, "panicked at ".as_bytes());
            put_bytes(console, location.file.as_bytes());
            put_bytes(console, ":".as_bytes());
            put_dec(console, location.line as usize);
            put_bytes(console, " ".as_bytes());
        },
        None => {
            put_bytes(console, "panicked: ".as_bytes());
        },
    }
    put_bytes(console, report.message.as_bytes());
    console.putchar(LINE_FEED);
    ExitStatus::Failure
}

} // verus!
