//! The mathematical model of the plugin: its state, the list it shows, and
//! what each event does to the state and asks of the host.

use crate::command::CommandView;
use crate::config::ConfigView;
use crate::key::{BareKey, KeyWithModifier};
use crate::new_session_info::{first_layout_named, EnteringState, NewSessionView};
use crate::session::{
    deletion_commands, incremented_name, is_incremented, session_names, ItemView, SessionInfoView,
    SessionManagerView,
};
use crate::state::ActiveScreen;
use crate::text::{utf8_lossy, utf8_len};
use crate::zoxide::{
    after_backspace, cleared_search, parsed_directories, searched, select_down, select_up,
    DirectoryView, SearchView,
};
use std::time::Duration;
use vstd::prelude::*;
use zellij_tile::prelude::{LayoutInfo, Palette};

verus! {

/// The mathematical value of the plugin's state.
#[verifier::ext_equal]
pub struct StateView {
    pub config: ConfigView,
    pub session_manager: SessionManagerView,
    pub zoxide_directories: Seq<DirectoryView>,
    pub search_engine: SearchView,
    pub new_session_info: NewSessionView,
    pub active_screen: ActiveScreen,
    pub error: Option<Seq<char>>,
    pub colors: Option<Palette>,
    pub current_session_name: Option<Seq<char>>,
    pub request_ids: Seq<Seq<char>>,
    pub selected_index: Option<usize>,
}

/// What a key press leads to: the next state, whether the plugin must be
/// drawn again, and the commands for the host.
#[verifier::ext_equal]
pub struct KeyStep {
    pub state: StateView,
    pub should_render: bool,
    pub commands: Seq<CommandView>,
}

/// The directory listed beside a running session: that of the first zoxide
/// directory whose session name is the session's name or a numbered version
/// of it; empty when there is none.
pub open spec fn directory_for(dirs: Seq<DirectoryView>, name: Seq<char>, sep: Seq<char>) -> Seq<char>
    decreases dirs.len(),
{
    if dirs.len() == 0 {
        seq![]
    } else if dirs[0].session_name == name || is_incremented(name, dirs[0].session_name, sep) {
        dirs[0].directory
    } else {
        directory_for(dirs.drop_first(), name, sep)
    }
}

/// The list entry of a running session.
pub open spec fn session_item(s: SessionInfoView, dirs: Seq<DirectoryView>, sep: Seq<char>) -> ItemView {
    ItemView::ExistingSession {
        name: s.name,
        directory: directory_for(dirs, s.name, sep),
        is_current: s.is_current_session,
    }
}

/// The entries of the running sessions, in their order.
pub open spec fn existing_items(
    sessions: Seq<SessionInfoView>,
    dirs: Seq<DirectoryView>,
    sep: Seq<char>,
) -> Seq<ItemView> {
    sessions.map_values(|s: SessionInfoView| session_item(s, dirs, sep))
}

/// The names of resurrectable sessions.
pub open spec fn resurrectable_names(res: Seq<(Seq<char>, Duration)>) -> Seq<Seq<char>> {
    res.map_values(|e: (Seq<char>, Duration)| e.0)
}

/// The entries of the resurrectable sessions, in their order, leaving out
/// those named like a running session or like an earlier one.
pub open spec fn resurrectable_items(res: Seq<(Seq<char>, Duration)>, active: Seq<Seq<char>>) -> Seq<
    ItemView,
>
    decreases res.len(),
{
    if res.len() == 0 {
        seq![]
    } else {
        let prev = resurrectable_items(res.drop_last(), active);
        let (name, duration) = res.last();
        if active.contains(name) || resurrectable_names(res.drop_last()).contains(name) {
            prev
        } else {
            prev.push(ItemView::ResurrectableSession { name, duration })
        }
    }
}

/// The entries of the zoxide directories, in their order.
pub open spec fn directory_items(dirs: Seq<DirectoryView>) -> Seq<ItemView> {
    dirs.map_values(
        |d: DirectoryView| ItemView::Directory { path: d.directory, session_name: d.session_name },
    )
}

/// The first running session that is the one the plugin runs in.
pub open spec fn current_session(sessions: Seq<SessionInfoView>) -> Option<SessionInfoView>
    decreases sessions.len(),
{
    if sessions.len() == 0 {
        None
    } else if sessions[0].is_current_session {
        Some(sessions[0])
    } else {
        current_session(sessions.drop_first())
    }
}

/// The request ids other than `id`, in their order.
pub open spec fn without_id(ids: Seq<Seq<char>>, id: Seq<char>) -> Seq<Seq<char>>
    decreases ids.len(),
{
    if ids.len() == 0 {
        seq![]
    } else if ids.last() == id {
        without_id(ids.drop_last(), id)
    } else {
        without_id(ids.drop_last(), id).push(ids.last())
    }
}

/// The longest session name, in bytes, that zellij accepts is one less.
pub open spec fn name_byte_limit() -> nat {
    108
}

/// The message shown when no entry is selected for a quick creation.
pub open spec fn no_selection_message() -> Seq<char> {
    "Please select a directory"@
}

/// The message shown for a session name that is too long.
pub open spec fn name_too_long_message() -> Seq<char> {
    "Session name must be shorter than 108 bytes"@
}

/// The message shown for a session name with a slash.
pub open spec fn name_has_slash_message() -> Seq<char> {
    "Session name cannot contain '/'"@
}

/// The message shown when the new session would be the current one.
pub open spec fn same_session_message() -> Seq<char> {
    "Cannot create session with same name as current session"@
}

/// The name of the pipe message with which the file picker answers.
pub open spec fn filepicker_result_name() -> Seq<char> {
    "filepicker_result"@
}

/// The context value that marks the zoxide query among run commands.
pub open spec fn zoxide_source() -> Seq<char> {
    "zoxide"@
}

/// The start of the message shown when the zoxide query fails.
pub open spec fn zoxide_failed_prefix() -> Seq<char> {
    "zoxide failed: "@
}

/// The message for a session name that zellij would refuse, if any.
pub open spec fn name_problem(name: Seq<char>) -> Option<Seq<char>> {
    if utf8_len(name) >= name_byte_limit() {
        Some(name_too_long_message())
    } else if name.contains('/') {
        Some(name_has_slash_message())
    } else {
        None
    }
}

impl StateView {
    /// Running sessions, then (when configured) resurrectable sessions, then
    /// zoxide directories.
    pub open spec fn combined_items(self) -> Seq<ItemView> {
        existing_items(
            self.session_manager.sessions,
            self.zoxide_directories,
            self.config.session_separator,
        ) + (if self.config.show_resurrectable_sessions {
            resurrectable_items(
                self.session_manager.resurrectable_sessions,
                session_names(self.session_manager.sessions),
            )
        } else {
            seq![]
        }) + directory_items(self.zoxide_directories)
    }

    /// A search is going on.
    pub open spec fn is_searching(self) -> bool {
        self.search_engine.is_searching()
    }

    /// The entries shown: the search results during a search, else the
    /// combined list.
    pub open spec fn display_items(self) -> Seq<ItemView> {
        if self.is_searching() {
            self.search_engine.results
        } else {
            self.combined_items()
        }
    }

    /// The position of the selected entry.
    pub open spec fn selected_index(self) -> Option<usize> {
        if self.is_searching() {
            self.search_engine.selected_index
        } else {
            self.selected_index
        }
    }

    /// The selected entry, if the selection is on an entry.
    pub open spec fn selected_item(self) -> Option<ItemView> {
        if self.is_searching() {
            self.search_engine.selected_item()
        } else {
            match self.selected_index {
                Some(i) => if i < self.combined_items().len() {
                    Some(self.combined_items()[i as int])
                } else {
                    None
                },
                None => None,
            }
        }
    }

    /// The state with the search run again over the current list, when a
    /// search is going on.
    pub open spec fn refresh_search(self) -> StateView {
        if self.is_searching() {
            StateView {
                search_engine: searched(self.search_engine.search_term, self.combined_items()),
                ..self
            }
        } else {
            self
        }
    }

    /// The state after the host reports the running sessions: the current
    /// session's name and layouts are taken from the first session marked
    /// current, then the sessions are replaced and the search refreshed.
    pub open spec fn after_update_sessions(self, sessions: Seq<SessionInfoView>) -> StateView {
        let s1 = match current_session(sessions) {
            Some(c) => StateView {
                current_session_name: Some(c.name),
                new_session_info: NewSessionView {
                    layouts: c.available_layouts,
                    ..self.new_session_info
                }.with_term(self.new_session_info.layout_search_term),
                ..self
            },
            None => self,
        };
        StateView {
            session_manager: SessionManagerView { sessions, ..s1.session_manager },
            ..s1
        }.refresh_search()
    }

    /// The state after the host reports the resurrectable sessions.
    pub open spec fn after_update_resurrectable(self, res: Seq<(Seq<char>, Duration)>) -> StateView {
        StateView {
            session_manager: SessionManagerView {
                resurrectable_sessions: res,
                ..self.session_manager
            },
            ..self
        }.refresh_search()
    }

    /// The state after zoxide reports its directories.
    pub open spec fn after_update_directories(self, dirs: Seq<DirectoryView>) -> StateView {
        StateView { zoxide_directories: dirs, ..self }.refresh_search()
    }

    /// The state after an answer arrives on a pipe: an answer of the file
    /// picker to a request that is still open sets the new session's folder
    /// and closes the request; anything else is ignored. The flag says
    /// whether the plugin must be drawn again.
    pub open spec fn after_pipe_message(
        self,
        name: Seq<char>,
        payload: Option<Seq<char>>,
        request_id: Option<Seq<char>>,
    ) -> (StateView, bool) {
        match (payload, request_id) {
            (Some(folder), Some(id)) => if name == filepicker_result_name()
                && self.request_ids.contains(id) {
                (
                    StateView {
                        new_session_info: NewSessionView {
                            new_session_folder: Some(folder),
                            ..self.new_session_info
                        },
                        request_ids: without_id(self.request_ids, id),
                        ..self
                    },
                    true,
                )
            } else {
                (self, false)
            },
            _ => (self, false),
        }
    }

    /// The state after a command run by the plugin ends: the output of the
    /// zoxide query becomes the directory list when it succeeded, else its
    /// error output is shown; results of other commands are ignored.
    pub open spec fn after_command_result(
        self,
        source: Option<Seq<char>>,
        exit_code: Option<i32>,
        stdout: Seq<u8>,
        stderr: Seq<u8>,
    ) -> (StateView, bool) {
        if source != Some(zoxide_source()) {
            (self, false)
        } else if exit_code == Some(0i32) {
            (self.after_update_directories(parsed_directories(utf8_lossy(stdout))), true)
        } else {
            (self.with_error(zoxide_failed_prefix() + utf8_lossy(stderr)), true)
        }
    }

    /// The state after Up on the main screen.
    pub open spec fn moved_up(self) -> StateView {
        if self.is_searching() {
            StateView {
                search_engine: SearchView {
                    selected_index: select_up(
                        self.search_engine.selected_index,
                        self.search_engine.results.len(),
                    ),
                    ..self.search_engine
                },
                ..self
            }
        } else {
            StateView {
                selected_index: select_up(self.selected_index, self.combined_items().len()),
                ..self
            }
        }
    }

    /// Down on the main screen would take the selection past the largest
    /// `usize` (a selection left beyond the end of a list that shrank).
    pub open spec fn down_overflows(self) -> bool {
        &&& !self.is_searching()
        &&& self.combined_items().len() > 0
        &&& self.selected_index == Some(usize::MAX)
    }

    /// The key press would take the selection past the largest `usize`,
    /// where the arithmetic would overflow.
    pub open spec fn overflows_on(self, key: KeyWithModifier) -> bool {
        &&& self.error is None
        &&& self.session_manager.pending_deletion is None
        &&& self.active_screen == ActiveScreen::Main
        &&& key.bare_key == BareKey::Down
        &&& key.spec_no_modifiers()
        &&& self.down_overflows()
    }

    /// The state after Down on the main screen.
    pub open spec fn moved_down(self) -> StateView {
        if self.is_searching() {
            StateView {
                search_engine: SearchView {
                    selected_index: select_down(
                        self.search_engine.selected_index,
                        self.search_engine.results.len(),
                    ),
                    ..self.search_engine
                },
                ..self
            }
        } else {
            StateView {
                selected_index: select_down(self.selected_index, self.combined_items().len()),
                ..self
            }
        }
    }

    /// The name for a new session started from a directory entry.
    pub open spec fn new_name_for(self, session_name: Seq<char>) -> Seq<char> {
        incremented_name(
            session_names(self.session_manager.sessions),
            session_name,
            self.config.session_separator,
        )
    }

    /// Enter on the main screen: a session entry is switched to and the
    /// plugin hidden; a directory entry opens the new-session form with a
    /// free name for it, its folder, and the layout choice.
    pub open spec fn after_item_selection(self) -> (StateView, Seq<CommandView>) {
        match self.selected_item() {
            Some(ItemView::ExistingSession { name, .. }) => (
                self,
                seq![CommandView::SwitchSession { name: Some(name), cwd: None }, CommandView::HideSelf],
            ),
            Some(ItemView::ResurrectableSession { name, .. }) => (
                self,
                seq![CommandView::SwitchSession { name: Some(name), cwd: None }, CommandView::HideSelf],
            ),
            Some(ItemView::Directory { path, session_name }) => (
                StateView {
                    new_session_info: NewSessionView {
                        name: self.new_name_for(session_name),
                        new_session_folder: Some(path),
                        entering: EnteringState::EnteringLayoutSearch,
                        ..self.new_session_info
                    },
                    active_screen: ActiveScreen::NewSession,
                    ..self
                },
                seq![],
            ),
            None => (self, seq![]),
        }
    }

    /// Delete on the main screen: a session entry waits for confirmation of
    /// its deletion.
    pub open spec fn after_delete_key(self) -> StateView {
        match self.selected_item() {
            Some(ItemView::ExistingSession { name, .. }) => StateView {
                session_manager: SessionManagerView {
                    pending_deletion: Some(name),
                    ..self.session_manager
                },
                ..self
            },
            Some(ItemView::ResurrectableSession { name, .. }) => StateView {
                session_manager: SessionManagerView {
                    pending_deletion: Some(name),
                    ..self.session_manager
                },
                ..self
            },
            _ => self,
        }
    }

    /// The state with an error message shown.
    pub open spec fn with_error(self, message: Seq<char>) -> StateView {
        StateView { error: Some(message), ..self }
    }

    /// The layout for a session created at once: the configured default
    /// layout, looked up among the layouts of the current session.
    pub open spec fn default_layout_info(self) -> Option<LayoutInfo> {
        match self.config.default_layout {
            Some(l) => match current_session(self.session_manager.sessions) {
                Some(c) => first_layout_named(c.available_layouts, l),
                None => None,
            },
            None => None,
        }
    }

    /// Ctrl+Enter on the main screen: a session entry is switched to; a
    /// directory entry becomes a new session at once under a free name,
    /// unless that name is refused or is the current session's.
    pub open spec fn after_quick_creation(self) -> (StateView, Seq<CommandView>) {
        match self.selected_item() {
            None => (self.with_error(no_selection_message()), seq![]),
            Some(ItemView::ExistingSession { name, .. }) => (
                self,
                seq![CommandView::SwitchSession { name: Some(name), cwd: None }, CommandView::HideSelf],
            ),
            Some(ItemView::ResurrectableSession { name, .. }) => (
                self,
                seq![CommandView::SwitchSession { name: Some(name), cwd: None }, CommandView::HideSelf],
            ),
            Some(ItemView::Directory { path, session_name }) => {
                let name = self.new_name_for(session_name);
                if let Some(message) = name_problem(name) {
                    (self.with_error(message), seq![])
                } else if self.current_session_name == Some(name) {
                    (self.with_error(same_session_message()), seq![])
                } else {
                    let create = match self.default_layout_info() {
                        Some(layout) => CommandView::SwitchSessionWithLayout {
                            name: Some(name),
                            layout,
                            cwd: Some(path),
                        },
                        None => CommandView::SwitchSession { name: Some(name), cwd: Some(path) },
                    };
                    (self, seq![create, CommandView::HideSelf])
                }
            },
        }
    }

    /// A key press on the main screen.
    pub open spec fn main_key(self, key: KeyWithModifier) -> KeyStep {
        let plain = key.spec_no_modifiers();
        match key.bare_key {
            BareKey::Up if plain => KeyStep {
                state: self.moved_up(),
                should_render: true,
                commands: seq![],
            },
            BareKey::Down if plain => KeyStep {
                state: self.moved_down(),
                should_render: true,
                commands: seq![],
            },
            BareKey::Enter if plain => {
                let (s, c) = self.after_item_selection();
                KeyStep { state: s, should_render: true, commands: c }
            },
            BareKey::Enter if key.ctrl => {
                let (s, c) = self.after_quick_creation();
                KeyStep { state: s, should_render: true, commands: c }
            },
            BareKey::Delete if plain => KeyStep {
                state: self.after_delete_key(),
                should_render: true,
                commands: seq![],
            },
            BareKey::Char(c) if plain && c != '\n' => KeyStep {
                state: StateView {
                    search_engine: searched(
                        self.search_engine.search_term.push(c),
                        self.combined_items(),
                    ),
                    ..self
                },
                should_render: true,
                commands: seq![],
            },
            BareKey::Backspace if plain => KeyStep {
                state: StateView {
                    search_engine: after_backspace(self.search_engine, self.combined_items()),
                    ..self
                },
                should_render: true,
                commands: seq![],
            },
            BareKey::Esc if plain => if self.is_searching() {
                KeyStep {
                    state: StateView { search_engine: cleared_search(), ..self },
                    should_render: true,
                    commands: seq![],
                }
            } else {
                KeyStep { state: self, should_render: false, commands: seq![CommandView::HideSelf] }
            },
            BareKey::Char('c') if key.ctrl => KeyStep {
                state: self,
                should_render: false,
                commands: seq![CommandView::HideSelf],
            },
            BareKey::Char('r') if key.ctrl => KeyStep {
                state: self,
                should_render: true,
                commands: seq![CommandView::ReloadZoxideDirectories],
            },
            _ => KeyStep { state: self, should_render: false, commands: seq![] },
        }
    }

    /// The state with the new-session form replaced.
    pub open spec fn with_form(self, form: NewSessionView) -> StateView {
        StateView { new_session_info: form, ..self }
    }

    /// Opening the file picker for the new session's folder, under the
    /// given request id.
    pub open spec fn after_launch_filepicker(self, request_id: Seq<char>) -> KeyStep {
        KeyStep {
            state: StateView { request_ids: self.request_ids.push(request_id), ..self },
            should_render: true,
            commands: seq![
                CommandView::OpenFilepicker {
                    request_id,
                    caller_cwd: self.new_session_info.new_session_folder,
                },
            ],
        }
    }

    /// A key press on the new-session screen; `request_id` names the file
    /// picker, should the key open one.
    pub open spec fn new_session_key(self, key: KeyWithModifier, request_id: Seq<char>) -> KeyStep {
        let plain = key.spec_no_modifiers();
        let form = self.new_session_info;
        match key.bare_key {
            BareKey::Enter if plain => {
                let commands = if form.entering == EnteringState::EnteringName {
                    seq![]
                } else {
                    form.creation_commands(self.current_session_name, form.selected_layout_info())
                };
                let next = if form.entering == EnteringState::EnteringName {
                    NewSessionView { entering: EnteringState::EnteringLayoutSearch, ..form }
                } else {
                    form.reset()
                };
                KeyStep {
                    state: StateView { active_screen: ActiveScreen::Main, ..self.with_form(next) },
                    should_render: true,
                    commands,
                }
            },
            BareKey::Enter if key.ctrl => if let Some(message) = name_problem(form.name) {
                KeyStep { state: self.with_error(message), should_render: true, commands: seq![] }
            } else {
                let layout = match self.config.default_layout {
                    Some(d) => first_layout_named(form.layouts, d),
                    None => None,
                };
                KeyStep {
                    state: StateView {
                        active_screen: ActiveScreen::Main,
                        ..self.with_form(form.reset())
                    },
                    should_render: true,
                    commands: form.creation_commands(self.current_session_name, layout),
                }
            },
            BareKey::Esc if plain => if form.entering == EnteringState::EnteringName
                && form.name.len() == 0 {
                KeyStep {
                    state: StateView { active_screen: ActiveScreen::Main, ..self },
                    should_render: true,
                    commands: seq![],
                }
            } else {
                KeyStep { state: self.with_form(form.after_key(key)), should_render: true, commands: seq![] }
            },
            BareKey::Char('f') if key.ctrl => self.after_launch_filepicker(request_id),
            BareKey::Char('c') if key.ctrl => KeyStep {
                state: self.with_form(NewSessionView { new_session_folder: None, ..form }),
                should_render: true,
                commands: seq![],
            },
            _ => KeyStep { state: self.with_form(form.after_key(key)), should_render: true, commands: seq![] },
        }
    }

    /// A key press while a deletion waits for confirmation: `y` confirms,
    /// `n` or Esc cancels, anything else is ignored.
    pub open spec fn deletion_key(self, key: KeyWithModifier) -> KeyStep {
        let plain = key.spec_no_modifiers();
        let cleared = StateView {
            session_manager: SessionManagerView { pending_deletion: None, ..self.session_manager },
            ..self
        };
        match key.bare_key {
            BareKey::Char('y') if plain => KeyStep {
                state: cleared,
                should_render: true,
                commands: deletion_commands(self.session_manager),
            },
            BareKey::Char('Y') if plain => KeyStep {
                state: cleared,
                should_render: true,
                commands: deletion_commands(self.session_manager),
            },
            BareKey::Char('n') if plain => KeyStep { state: cleared, should_render: true, commands: seq![] },
            BareKey::Char('N') if plain => KeyStep { state: cleared, should_render: true, commands: seq![] },
            BareKey::Esc if plain => KeyStep { state: cleared, should_render: true, commands: seq![] },
            _ => KeyStep { state: self, should_render: false, commands: seq![] },
        }
    }

    /// A key press: it first dismisses a shown error, then answers a
    /// pending deletion, then goes to the active screen.
    pub open spec fn key_step(self, key: KeyWithModifier, request_id: Seq<char>) -> KeyStep {
        if self.error is Some {
            KeyStep { state: StateView { error: None, ..self }, should_render: true, commands: seq![] }
        } else if self.session_manager.pending_deletion is Some {
            self.deletion_key(key)
        } else {
            match self.active_screen {
                ActiveScreen::Main => self.main_key(key),
                ActiveScreen::NewSession => self.new_session_key(key, request_id),
            }
        }
    }
}

} // verus!
