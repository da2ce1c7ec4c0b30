//! Delivery of success and failure notices to the user.

use vstd::prelude::*;
use std::io::Write;

verus! {

/// A sink for success and failure notices, for callers to implement.
pub trait Notifyer {
    /// Reports that the event was created.
    fn notify_success(&self) -> Result<(), String>;

    /// Reports that the event could not be created.
    fn notify_failure(&self) -> Result<(), String>;
}

/// A notifier that writes to standard output.
pub struct TermOut;

/// Relies on `std::io::stdout` via `writeln`: prints one line to standard
/// output; a failed write is ignored, as printing is best-effort.
#[verifier::external_body]
fn print_line(msg: &str) {
    let _ = writeln!(std::io::stdout(), "{}", msg);
}

impl Notifyer for TermOut {
    fn notify_success(&self) -> Result<(), String> {
        print_line("Event Creation Successful!");
        Ok(())
    }

    fn notify_failure(&self) -> Result<(), String> {
        print_line("Event Creation unsuccessful!");
        Ok(())
    }
}

} // verus!
