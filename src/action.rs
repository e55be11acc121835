//! The actions offered to the user and the effect that each one asks of the
//! host.
use vstd::prelude::*;

use crate::severity::SeverityClass;

verus! {

/// An operation that the user can trigger from the report window.
#[derive(Clone, Copy, Debug, PartialEq, Eq, Structural)]
pub enum Action {
    /// Acknowledge the report as submitted.
    SubmitReport,
    /// Open the support channel in the default browser.
    OpenSupport,
    /// Ask the user to restart the application, then end this process.
    RestartHost,
    /// End this process.
    Close,
}

/// A message box to show: its title and its text.
#[derive(Debug)]
pub struct Notice {
    pub title: String,
    pub text: String,
}

/// What the host has to do for an action, in this order: show the notice,
/// open the address, end the process with the status.
#[derive(Debug)]
pub struct Effect {
    pub notice: Option<Notice>,
    pub open_url: Option<String>,
    pub exit_status: Option<i32>,
}

/// The mathematical content of an effect.
pub struct EffectView {
    pub notice: Option<(Seq<char>, Seq<char>)>,
    pub open_url: Option<Seq<char>>,
    pub exit_status: Option<i32>,
}

impl View for Effect {
    type V = EffectView;

    open spec fn view(&self) -> EffectView {
        EffectView {
            notice: match self.notice {
                Some(n) => Some((n.title@, n.text@)),
                None => None,
            },
            open_url: match self.open_url {
                Some(u) => Some(u@),
                None => None,
            },
            exit_status: self.exit_status,
        }
    }
}

/// The address of the support channel.
pub open spec fn support_url() -> Seq<char> {
    "https://ascendara.app/discord"@
}

/// The effect of `action`.
pub open spec fn effect_of(action: Action) -> EffectView {
    match action {
        Action::SubmitReport => EffectView {
            notice: Some(
                (
                    "Crash Report"@,
                    "Thank you for helping improve Ascendara!\nThe crash report has been uploaded successfully."@,
                ),
            ),
            open_url: None,
            exit_status: None,
        },
        Action::OpenSupport => EffectView {
            notice: None,
            open_url: Some(support_url()),
            exit_status: None,
        },
        Action::RestartHost => EffectView {
            notice: Some(("Restart"@, "Please restart Ascendara manually at this time."@)),
            open_url: None,
            exit_status: Some(0),
        },
        Action::Close => EffectView { notice: None, open_url: None, exit_status: Some(0) },
    }
}

/// The actions offered for a failure of the given severity, in the order of
/// their buttons.
pub open spec fn actions_of(severity: SeverityClass) -> Seq<Action> {
    match severity {
        SeverityClass::Critical => seq![Action::SubmitReport, Action::RestartHost, Action::Close],
        SeverityClass::Component => seq![Action::OpenSupport, Action::SubmitReport, Action::Close],
    }
}

/// The caption of the button of `action` in the layout of `severity`.
pub open spec fn label_of(action: Action, severity: SeverityClass) -> Seq<char> {
    match (action, severity) {
        (Action::SubmitReport, SeverityClass::Critical) => "Report Problem"@,
        (Action::SubmitReport, SeverityClass::Component) => "Upload Crash Report"@,
        (Action::OpenSupport, _) => "Get Support"@,
        (Action::RestartHost, _) => "Restart Ascendara"@,
        (Action::Close, SeverityClass::Critical) => "Exit"@,
        (Action::Close, SeverityClass::Component) => "Close"@,
    }
}

impl Action {
    /// What the host has to do when the user triggers this action.
    pub fn effect(&self) -> (r: Effect)
        ensures
            r@ == effect_of(*self),
    {
        match self {
            Action::SubmitReport => Effect {
                notice: Some(
                    Notice {
                        title: "Crash Report".to_owned(),
                        text: "Thank you for helping improve Ascendara!\nThe crash report has been uploaded successfully.".to_owned(),
                    },
                ),
                open_url: None,
                exit_status: None,
            },
            Action::OpenSupport => Effect {
                notice: None,
                open_url: Some("https://ascendara.app/discord".to_owned()),
                exit_status: None,
            },
            Action::RestartHost => Effect {
                notice: Some(
                    Notice {
                        title: "Restart".to_owned(),
                        text: "Please restart Ascendara manually at this time.".to_owned(),
                    },
                ),
                open_url: None,
                exit_status: Some(0),
            },
            Action::Close => Effect { notice: None, open_url: None, exit_status: Some(0) },
        }
    }

    /// The caption of this action's button in the layout of `severity`.
    pub fn label(&self, severity: SeverityClass) -> (r: String)
        ensures
            r@ == label_of(*self, severity),
    {
        let text = match (self, severity) {
            (Action::SubmitReport, SeverityClass::Critical) => "Report Problem",
            (Action::SubmitReport, SeverityClass::Component) => "Upload Crash Report",
            (Action::OpenSupport, _) => "Get Support",
            (Action::RestartHost, _) => "Restart Ascendara",
            (Action::Close, SeverityClass::Critical) => "Exit",
            (Action::Close, SeverityClass::Component) => "Close",
        };
        text.to_owned()
    }

    /// The actions offered for a failure of `severity`, in button order.
    pub fn offered(severity: SeverityClass) -> (r: Vec<Action>)
        ensures
            r@ == actions_of(severity),
    {
        let r = match severity {
            SeverityClass::Critical => vec![Action::SubmitReport, Action::RestartHost, Action::Close],
            SeverityClass::Component => vec![Action::OpenSupport, Action::SubmitReport, Action::Close],
        };
        assert(r@ =~= actions_of(severity));
        r
    }
}

/// Whatever the severity, closing is offered, and it ends the process with
/// status 0.
pub proof fn close_always_exits_zero(severity: SeverityClass)
    ensures
        actions_of(severity).contains(Action::Close),
        effect_of(Action::Close).exit_status == Some(0i32),
        effect_of(Action::Close).notice is None,
        effect_of(Action::Close).open_url is None,
{
    assert(actions_of(severity)[2] == Action::Close);
}

} // verus!
