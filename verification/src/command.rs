//! What the plugin asks the zellij host to do.

use vstd::prelude::*;
use zellij_tile::prelude::LayoutInfo;

verus! {

/// A request to the zellij host, carried out by the plugin's host side.
#[allow(inconsistent_fields)]
#[derive(Clone, Debug, PartialEq)]
pub enum HostCommand {
    /// Hide the plugin's pane.
    HideSelf,
    /// Switch to (or create) a session, optionally starting in a folder.
    SwitchSession { name: Option<String>, cwd: Option<String> },
    /// Create a session with the given layout, optionally starting in a folder.
    SwitchSessionWithLayout { name: Option<String>, layout: LayoutInfo, cwd: Option<String> },
    /// Kill a running session.
    KillSession { name: String },
    /// Delete a session that is no longer running.
    DeleteDeadSession { name: String },
    /// Query zoxide again for its directories.
    ReloadZoxideDirectories,
    /// Open the file picker to choose the folder of a new session.
    OpenFilepicker { request_id: String, caller_cwd: Option<String> },
}

/// The mathematical value of a host command.
#[allow(inconsistent_fields)]
#[verifier::ext_equal]
pub enum CommandView {
    HideSelf,
    SwitchSession { name: Option<Seq<char>>, cwd: Option<Seq<char>> },
    SwitchSessionWithLayout { name: Option<Seq<char>>, layout: LayoutInfo, cwd: Option<Seq<char>> },
    KillSession { name: Seq<char> },
    DeleteDeadSession { name: Seq<char> },
    ReloadZoxideDirectories,
    OpenFilepicker { request_id: Seq<char>, caller_cwd: Option<Seq<char>> },
}

impl View for HostCommand {
    type V = CommandView;

    open spec fn view(&self) -> CommandView {
        match self {
            HostCommand::HideSelf => CommandView::HideSelf,
            HostCommand::SwitchSession { name, cwd } => CommandView::SwitchSession {
                name: name.deep_view(),
                cwd: cwd.deep_view(),
            },
            HostCommand::SwitchSessionWithLayout { name, layout, cwd } =>
                CommandView::SwitchSessionWithLayout {
                name: name.deep_view(),
                layout: *layout,
                cwd: cwd.deep_view(),
            },
            HostCommand::KillSession { name } => CommandView::KillSession { name: name@ },
            HostCommand::DeleteDeadSession { name } => CommandView::DeleteDeadSession {
                name: name@,
            },
            HostCommand::ReloadZoxideDirectories => CommandView::ReloadZoxideDirectories,
            HostCommand::OpenFilepicker { request_id, caller_cwd } => CommandView::OpenFilepicker {
                request_id: request_id@,
                caller_cwd: caller_cwd.deep_view(),
            },
        }
    }
}

impl DeepView for HostCommand {
    type V = CommandView;

    open spec fn deep_view(&self) -> CommandView {
        self@
    }
}

} // verus!
