//! The declarative description of the report window: which of the two
//! variants is shown, its size, and every text in it.
use vstd::prelude::*;

use crate::action::{actions_of, Action};
use crate::decimal::{code_text, decimal_text};
use crate::report::{ReportRecord, ReportView};
use crate::severity::{severity_of, SeverityClass};

verus! {

/// The window of a report, independent of any toolkit.
#[derive(Debug)]
pub struct ReportLayout {
    pub severity: SeverityClass,
    pub width: i32,
    pub height: i32,
    pub title: String,
    pub header: String,
    pub summary: String,
    /// The name of the failed tool; shown in the component variant only.
    pub tool_name: Option<String>,
    pub code_caption: String,
    pub code: String,
    pub description_caption: String,
    pub description: String,
    /// Recovery hints; shown in the critical variant only.
    pub suggestions: Option<String>,
    pub details_caption: String,
    /// The message of the failed tool, verbatim.
    pub details: String,
    /// An invitation to use the buttons; shown in the component variant only.
    pub action_prompt: Option<String>,
    pub actions: Vec<Action>,
}

/// The mathematical content of a layout.
pub struct LayoutView {
    pub severity: SeverityClass,
    pub width: i32,
    pub height: i32,
    pub title: Seq<char>,
    pub header: Seq<char>,
    pub summary: Seq<char>,
    pub tool_name: Option<Seq<char>>,
    pub code_caption: Seq<char>,
    pub code: Seq<char>,
    pub description_caption: Seq<char>,
    pub description: Seq<char>,
    pub suggestions: Option<Seq<char>>,
    pub details_caption: Seq<char>,
    pub details: Seq<char>,
    pub action_prompt: Option<Seq<char>>,
    pub actions: Seq<Action>,
}

/// The view of an optional string.
pub open spec fn opt_view(s: Option<String>) -> Option<Seq<char>> {
    match s {
        Some(t) => Some(t@),
        None => None,
    }
}

impl View for ReportLayout {
    type V = LayoutView;

    open spec fn view(&self) -> LayoutView {
        LayoutView {
            severity: self.severity,
            width: self.width,
            height: self.height,
            title: self.title@,
            header: self.header@,
            summary: self.summary@,
            tool_name: opt_view(self.tool_name),
            code_caption: self.code_caption@,
            code: self.code@,
            description_caption: self.description_caption@,
            description: self.description@,
            suggestions: opt_view(self.suggestions),
            details_caption: self.details_caption@,
            details: self.details@,
            action_prompt: opt_view(self.action_prompt),
            actions: self.actions@,
        }
    }
}

/// The title of the report window, the same for both variants.
pub open spec fn window_title() -> Seq<char> {
    "Ascendara Error Report"@
}

/// The layout of the window for `report`.
pub open spec fn layout_of(report: ReportView) -> LayoutView {
    let severity = severity_of(report.tool_identifier);
    match severity {
        SeverityClass::Critical => LayoutView {
            severity,
            width: severity.width_spec(),
            height: severity.height_spec(),
            title: window_title(),
            header: "⚠ Critical Error: Ascendara Has Stopped Working"@,
            summary: "The main Ascendara application has encountered a serious error and needs to close."@,
            tool_name: None,
            code_caption: "Critical Error Code: "@,
            code: decimal_text(report.error_code as int),
            description_caption: "Error Details: "@,
            description: report.error_description,
            suggestions: Some(
                "• Restart Ascendara\n• Check for updates\n• Verify your internet connection\n• Make sure your system meets the minimum requirements"@,
            ),
            details_caption: "Technical Information:"@,
            details: report.message,
            action_prompt: None,
            actions: actions_of(severity),
        },
        SeverityClass::Component => LayoutView {
            severity,
            width: severity.width_spec(),
            height: severity.height_spec(),
            title: window_title(),
            header: "⚠️ Ascendara Core Utility Crash"@,
            summary: "A critical component of Ascendara has encountered an error and needs to close."@,
            tool_name: Some(report.tool_name),
            code_caption: "Diagnostic Code:"@,
            code: decimal_text(report.error_code as int),
            description_caption: "What Happened:"@,
            description: report.error_description,
            suggestions: None,
            details_caption: "Technical Details (useful for troubleshooting):"@,
            details: report.message,
            action_prompt: Some(
                "To help us improve Ascendara, you can report this issue or get support below:"@,
            ),
            actions: actions_of(severity),
        },
    }
}

/// Lays out the window for `report`: the critical variant for a failure of
/// the top-level application, the component variant for any other.
pub fn layout_for(report: &ReportRecord) -> (r: ReportLayout)
    ensures
        r@ == layout_of(report@),
{
    let severity = report.severity();
    let code = code_text(report.error_code());
    let description = report.error_description();
    let details = report.message();
    let actions = Action::offered(severity);
    match severity {
        SeverityClass::Critical => ReportLayout {
            severity,
            width: severity.window_width(),
            height: severity.window_height(),
            title: "Ascendara Error Report".to_owned(),
            header: "⚠ Critical Error: Ascendara Has Stopped Working".to_owned(),
            summary: "The main Ascendara application has encountered a serious error and needs to close.".to_owned(),
            tool_name: None,
            code_caption: "Critical Error Code: ".to_owned(),
            code,
            description_caption: "Error Details: ".to_owned(),
            description,
            suggestions: Some(
                "• Restart Ascendara\n• Check for updates\n• Verify your internet connection\n• Make sure your system meets the minimum requirements".to_owned(),
            ),
            details_caption: "Technical Information:".to_owned(),
            details,
            action_prompt: None,
            actions,
        },
        SeverityClass::Component => ReportLayout {
            severity,
            width: severity.window_width(),
            height: severity.window_height(),
            title: "Ascendara Error Report".to_owned(),
            header: "⚠️ Ascendara Core Utility Crash".to_owned(),
            summary: "A critical component of Ascendara has encountered an error and needs to close.".to_owned(),
            tool_name: Some(report.tool_name()),
            code_caption: "Diagnostic Code:".to_owned(),
            code,
            description_caption: "What Happened:".to_owned(),
            description,
            suggestions: None,
            details_caption: "Technical Details (useful for troubleshooting):".to_owned(),
            details,
            action_prompt: Some(
                "To help us improve Ascendara, you can report this issue or get support below:".to_owned(),
            ),
            actions,
        },
    }
}

} // verus!
