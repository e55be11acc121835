//! The report record: the resolved names next to the raw parameters and the
//! moment at which the report was captured.
use vstd::prelude::*;

use crate::error_code::{error_description, ErrorCodes};
use crate::invocation::Invocation;
use crate::severity::{severity_of, SeverityClass};
use crate::tool::{tool_name_of, AscendaraTool};

verus! {

/// The mathematical content of a report record.
pub struct ReportView {
    pub tool_identifier: Seq<char>,
    pub tool_name: Seq<char>,
    pub error_code: i32,
    pub error_description: Seq<char>,
    pub message: Seq<char>,
    pub captured_at: Seq<char>,
}

/// The record built from an identifier, a code, a message and a timestamp.
pub open spec fn expected_report(
    identifier: Seq<char>,
    code: i32,
    message: Seq<char>,
    now: Seq<char>,
) -> ReportView {
    ReportView {
        tool_identifier: identifier,
        tool_name: tool_name_of(identifier),
        error_code: code,
        error_description: error_description(code as int),
        message: message,
        captured_at: now,
    }
}

/// A report on one failure; its fields are fixed when it is built.
#[derive(Debug)]
pub struct ReportRecord {
    tool_identifier: String,
    tool_name: String,
    error_code: i32,
    error_description: String,
    message: String,
    captured_at: String,
}

impl View for ReportRecord {
    type V = ReportView;

    closed spec fn view(&self) -> ReportView {
        ReportView {
            tool_identifier: self.tool_identifier@,
            tool_name: self.tool_name@,
            error_code: self.error_code,
            error_description: self.error_description@,
            message: self.message@,
            captured_at: self.captured_at@,
        }
    }
}

/// Relies on chrono's `Local::now`, rendered by `DateTime::format` as
/// year-month-day, `T`, hour:minute:second. The moment depends on the clock,
/// so nothing is stated of the text.
#[verifier::external_body]
fn local_timestamp() -> (r: String) {
    chrono::Local::now().format("%Y-%m-%dT%H:%M:%S").to_string()
}

/// Builds the record of a failure: the display name of the tool, the
/// description of the code, and the raw parameters kept verbatim.
pub fn build_report(identifier: &str, code: i32, message: &str, now: &str) -> (r: ReportRecord)
    ensures
        r@ == expected_report(identifier@, code, message@, now@),
{
    ReportRecord {
        tool_identifier: identifier.to_owned(),
        tool_name: AscendaraTool::get_tool_name(identifier),
        error_code: code,
        error_description: ErrorCodes::get_error_description(code),
        message: message.to_owned(),
        captured_at: now.to_owned(),
    }
}

/// Builds the record of a valid invocation, stamped with the local time.
pub fn capture_report(invocation: &Invocation) -> (r: ReportRecord)
    ensures
        r@ == expected_report(
            invocation.tool_id@,
            invocation.error_code,
            invocation.message@,
            r@.captured_at,
        ),
{
    let now = local_timestamp();
    build_report(
        invocation.tool_id.as_str(),
        invocation.error_code,
        invocation.message.as_str(),
        now.as_str(),
    )
}

/// Two records built from the same parameters agree in every field but the
/// timestamp, and are equal when built at the same instant.
pub proof fn build_report_idempotent(
    first: ReportRecord,
    second: ReportRecord,
    identifier: Seq<char>,
    code: i32,
    message: Seq<char>,
    first_now: Seq<char>,
    second_now: Seq<char>,
)
    requires
        first@ == expected_report(identifier, code, message, first_now),
        second@ == expected_report(identifier, code, message, second_now),
    ensures
        first@.tool_identifier == second@.tool_identifier,
        first@.tool_name == second@.tool_name,
        first@.error_code == second@.error_code,
        first@.error_description == second@.error_description,
        first@.message == second@.message,
        first_now == second_now ==> first@ == second@,
{
}

impl ReportRecord {
    /// The identifier under which the failure was reported, verbatim.
    pub fn tool_identifier(&self) -> (r: String)
        ensures
            r@ == self@.tool_identifier,
    {
        self.tool_identifier.clone()
    }

    /// The display name of the failed tool.
    pub fn tool_name(&self) -> (r: String)
        ensures
            r@ == self@.tool_name,
    {
        self.tool_name.clone()
    }

    /// The error code, as given.
    pub fn error_code(&self) -> (r: i32)
        ensures
            r == self@.error_code,
    {
        self.error_code
    }

    /// The description of the error code.
    pub fn error_description(&self) -> (r: String)
        ensures
            r@ == self@.error_description,
    {
        self.error_description.clone()
    }

    /// The message of the failed tool, verbatim.
    pub fn message(&self) -> (r: String)
        ensures
            r@ == self@.message,
    {
        self.message.clone()
    }

    /// The moment at which the report was captured.
    pub fn captured_at(&self) -> (r: String)
        ensures
            r@ == self@.captured_at,
    {
        self.captured_at.clone()
    }

    /// The severity of the reported failure.
    pub fn severity(&self) -> (r: SeverityClass)
        ensures
            r == severity_of(self@.tool_identifier),
    {
        SeverityClass::classify(self.tool_identifier.as_str())
    }
}

} // verus!
