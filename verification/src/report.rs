//! Error reports carried through the supervisor.
//!
//! Failures reach the supervisor already classified, each as an
//! [`eyre::Report`] attached to an input. The supervisor never looks inside a
//! report that it was handed: it passes it on in the event that tells of the
//! failure. The one report it makes itself is the one given to a connection
//! that stopped without an error.

use vstd::prelude::*;

verus! {

/// The report type of `eyre`, carried through as an opaque value.
#[verifier::external_type_specification]
#[verifier::external_body]
pub struct ExReport(eyre::Report);

/// The message of the error that a report wraps: the text that the error at
/// the head of the report's chain displays.
pub uninterp spec fn report_message(report: eyre::Report) -> Seq<char>;

/// The message reported for a connection that stopped without an error.
pub open spec fn clean_stop_message() -> Seq<char> {
    "successfully disconnected"@
}

/// Calls `eyre::Report::msg` on a string literal.
///
/// Trusted, not proved: `Report::msg` wraps its argument in an error whose
/// display is that of the argument, and this error is the whole chain of the
/// report, so the message of the report is the text handed in. Nothing is
/// claimed of the handler, location or backtrace that the report captures.
#[verifier::external_body]
pub(crate) fn report_from_message(message: &'static str) -> (report: eyre::Report)
    ensures
        report_message(report) == message@,
{
    eyre::Report::msg(message)
}

/// Makes the report for a connection that stopped without an error.
pub(crate) fn clean_stop_report() -> (report: eyre::Report)
    ensures
        report_message(report) == clean_stop_message(),
{
    report_from_message("successfully disconnected")
}

} // verus!
