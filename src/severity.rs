//! The severity decision: a failure of the top-level application is critical,
//! any other is a component failure.
use vstd::prelude::*;

use crate::text::lower_of;
use crate::tool::{tool_of_identifier, AscendaraTool};

verus! {

/// How grave a reported failure is.
#[derive(Clone, Copy, Debug, PartialEq, Eq, Structural)]
pub enum SeverityClass {
    /// The whole application has stopped.
    Critical,
    /// A single subordinate process has stopped.
    Component,
}

/// The severity of a failure of `tool`.
pub open spec fn severity_of_tool(tool: AscendaraTool) -> SeverityClass {
    if tool == AscendaraTool::TopLevel {
        SeverityClass::Critical
    } else {
        SeverityClass::Component
    }
}

/// The severity of a failure reported under `identifier`.
pub open spec fn severity_of(identifier: Seq<char>) -> SeverityClass {
    severity_of_tool(tool_of_identifier(identifier))
}

impl SeverityClass {
    /// The width of the report window for this class.
    pub open spec fn width_spec(self) -> i32 {
        match self {
            SeverityClass::Critical => 800,
            SeverityClass::Component => 600,
        }
    }

    /// The height of the report window for this class.
    pub open spec fn height_spec(self) -> i32 {
        match self {
            SeverityClass::Critical => 600,
            SeverityClass::Component => 550,
        }
    }

    /// The severity of a failure of `tool`.
    pub fn of_tool(tool: AscendaraTool) -> (r: SeverityClass)
        ensures
            r == severity_of_tool(tool),
    {
        match tool {
            AscendaraTool::TopLevel => SeverityClass::Critical,
            _ => SeverityClass::Component,
        }
    }

    /// The severity of a failure reported under `tool_id`, matched without
    /// regard to case: critical for the top-level application only.
    pub fn classify(tool_id: &str) -> (r: SeverityClass)
        ensures
            r == severity_of(tool_id@),
    {
        SeverityClass::of_tool(AscendaraTool::from_identifier(tool_id))
    }

    /// Whether this is the critical class.
    pub fn is_critical(&self) -> (r: bool)
        ensures
            r == (*self == SeverityClass::Critical),
    {
        match self {
            SeverityClass::Critical => true,
            SeverityClass::Component => false,
        }
    }

    /// The width of the report window: the larger preset for a critical
    /// failure.
    pub fn window_width(&self) -> (r: i32)
        ensures
            r == self.width_spec(),
    {
        match self {
            SeverityClass::Critical => 800,
            SeverityClass::Component => 600,
        }
    }

    /// The height of the report window: the larger preset for a critical
    /// failure.
    pub fn window_height(&self) -> (r: i32)
        ensures
            r == self.height_spec(),
    {
        match self {
            SeverityClass::Critical => 600,
            SeverityClass::Component => 550,
        }
    }
}

/// An identifier is critical exactly when its lowercase form is "toplevel";
/// every other identifier, the empty one and unknown ones included, is a
/// component failure.
pub proof fn critical_only_for_top_level(identifier: Seq<char>)
    ensures
        (severity_of(identifier) == SeverityClass::Critical) <==> lower_of(identifier)
            == "toplevel"@,
        lower_of(identifier) != "toplevel"@ ==> severity_of(identifier)
            == SeverityClass::Component,
{
    reveal_strlit("gofilehelper");
    reveal_strlit("maindownloader");
    reveal_strlit("gamehandler");
    reveal_strlit("toplevel");
    reveal_strlit("languagetranslation");
    reveal_strlit("torrenthandler");
    reveal_strlit("notificationhelper");
    assert("toplevel"@.len() == 8);
    assert("gofilehelper"@.len() == 12);
    assert("maindownloader"@.len() == 14);
    assert("gamehandler"@.len() == 11);
    assert("languagetranslation"@.len() == 19);
    assert("torrenthandler"@.len() == 14);
    assert("notificationhelper"@.len() == 18);
}

} // verus!
