//! The plugin's state and what it does with each event.

use crate::command::{CommandView, HostCommand};
use crate::config::{config_from, default_config, entries_view, Config};
use crate::external::{is_hyphenated_v4, new_request_id};
use crate::key::{BareKey, KeyWithModifier};
use crate::model::{
    current_session, directory_for, directory_items, existing_items, name_problem,
    resurrectable_items, resurrectable_names, session_item, without_id, KeyStep, StateView,
};
use crate::new_session_info::{
    empty_form, find_layout_named, NewSessionInfo, NewSessionView,
};
use crate::session::{
    clone_layouts, incremented_number, is_incremented, resurrectable_view, session_names, ItemView,
    SessionAction, SessionInfo, SessionItem, SessionManager, SessionManagerView,
};
use crate::text::{chars_of, contains_char, decode_utf8_lossy, utf8_len_at_least};
use crate::zoxide::{cleared_search, parse_zoxide_output, SearchEngine, ZoxideDirectory};
use std::time::Duration;
use vstd::prelude::*;
use zellij_tile::prelude::{LayoutInfo, Palette};

verus! {

broadcast use vstd::string::group_string_axioms;

/// The screens of the plugin.
#[derive(Clone, Copy, Debug, PartialEq, Eq, Structural)]
pub enum ActiveScreen {
    /// The list of sessions and directories.
    Main,
    /// The form for a new session.
    NewSession,
}

impl Default for ActiveScreen {
    fn default() -> (res: Self)
        ensures
            res == ActiveScreen::Main,
    {
        ActiveScreen::Main
    }
}

/// What a key press asks for: whether to draw the plugin again, and the
/// commands for the host, in order.
#[derive(Debug, PartialEq)]
pub struct KeyResponse {
    pub should_render: bool,
    pub commands: Vec<HostCommand>,
}

impl KeyResponse {
    /// The step that this response and the given next state make up.
    pub open spec fn step_with(self, state: StateView) -> KeyStep {
        KeyStep { state, should_render: self.should_render, commands: self.commands.deep_view() }
    }
}

/// The plugin's state.
pub struct PluginState {
    config: Config,
    session_manager: SessionManager,
    zoxide_directories: Vec<ZoxideDirectory>,
    search_engine: SearchEngine,
    new_session_info: NewSessionInfo,
    active_screen: ActiveScreen,
    error: Option<String>,
    colors: Option<Palette>,
    current_session_name: Option<String>,
    request_ids: Vec<String>,
    selected_index: Option<usize>,
}

impl View for PluginState {
    type V = StateView;

    closed spec fn view(&self) -> StateView {
        StateView {
            config: self.config@,
            session_manager: self.session_manager@,
            zoxide_directories: self.zoxide_directories.deep_view(),
            search_engine: self.search_engine@,
            new_session_info: self.new_session_info@,
            active_screen: self.active_screen,
            error: self.error.deep_view(),
            colors: self.colors,
            current_session_name: self.current_session_name.deep_view(),
            request_ids: self.request_ids.deep_view(),
            selected_index: self.selected_index,
        }
    }
}

/// The state of a plugin that has been told nothing yet.
pub open spec fn initial_state() -> StateView {
    StateView {
        config: default_config(),
        session_manager: SessionManagerView {
            sessions: seq![],
            resurrectable_sessions: seq![],
            pending_deletion: None,
        },
        zoxide_directories: seq![],
        search_engine: cleared_search(),
        new_session_info: empty_form(),
        active_screen: ActiveScreen::Main,
        error: None,
        colors: None,
        current_session_name: None,
        request_ids: seq![],
        selected_index: None,
    }
}

impl Default for PluginState {
    fn default() -> (res: Self)
        ensures
            res@ == initial_state(),
    {
        let res = PluginState {
            config: Config::new(),
            session_manager: SessionManager::new(),
            zoxide_directories: Vec::new(),
            search_engine: SearchEngine::new(),
            new_session_info: NewSessionInfo::new(),
            active_screen: ActiveScreen::default(),
            error: None,
            colors: None,
            current_session_name: None,
            request_ids: Vec::new(),
            selected_index: None,
        };
        proof {
            assert(res@.session_manager =~= initial_state().session_manager);
            assert(res@.zoxide_directories =~= initial_state().zoxide_directories);
            assert(res@.request_ids =~= initial_state().request_ids);
        }
        res
    }
}

impl PluginState {
    /// Reads the configuration from zellij's key/value pairs.
    pub fn initialize(&mut self, configuration: Vec<(String, String)>)
        ensures
            final(self)@ == (StateView { config: config_from(entries_view(configuration@)), ..old(self)@ }),
    {
        self.config = Config::from_zellij_config(&configuration);
    }

    /// The current screen.
    pub fn active_screen(&self) -> (res: ActiveScreen)
        ensures
            res == self@.active_screen,
    {
        self.active_screen
    }

    /// The entries to show: the search results during a search, else the
    /// running sessions, resurrectable sessions and zoxide directories.
    pub fn display_items(&self) -> (res: Vec<SessionItem>)
        ensures
            res.deep_view() == self@.display_items(),
    {
        if self.search_engine.is_searching() {
            let results = self.search_engine.results();
            let mut items: Vec<SessionItem> = Vec::new();
            for i in 0..results.len()
                invariant
                    items.deep_view() == results.deep_view().take(i as int),
            {
                let ghost before = items.deep_view();
                items.push(results[i].clone());
                proof {
                    assert(items.deep_view() =~= before.push(results@[i as int]@));
                    assert(results.deep_view().take(i + 1) =~= results.deep_view().take(i as int).push(
                        results@[i as int]@,
                    ));
                }
            }
            proof {
                assert(results.deep_view().take(results.len() as int) == results.deep_view());
            }
            items
        } else {
            self.combined_items()
        }
    }

    /// The search (for drawing it).
    pub fn search_engine(&self) -> (res: &SearchEngine)
        ensures
            res@ == self@.search_engine,
    {
        &self.search_engine
    }

    /// The new-session form (for drawing it).
    pub fn new_session_info(&self) -> (res: &NewSessionInfo)
        ensures
            res@ == self@.new_session_info,
    {
        &self.new_session_info
    }

    /// The session manager (for drawing it).
    pub fn session_manager(&self) -> (res: &SessionManager)
        ensures
            res@ == self@.session_manager,
    {
        &self.session_manager
    }

    /// The position of the selected entry: in the search results during a
    /// search, else in the full list.
    pub fn selected_index(&self) -> (res: Option<usize>)
        ensures
            res == self@.selected_index(),
    {
        if self.search_engine.is_searching() {
            self.search_engine.selected_index()
        } else {
            self.selected_index
        }
    }

    /// The colours to draw with.
    pub fn colors(&self) -> (res: Option<Palette>)
        ensures
            res == self@.colors,
    {
        self.colors
    }

    /// Sets the colours to draw with.
    pub fn set_colors(&mut self, colors: Palette)
        ensures
            final(self)@ == (StateView { colors: Some(colors), ..old(self)@ }),
    {
        self.colors = Some(colors);
    }

    /// Shows an error message until the next key press.
    pub fn set_error(&mut self, error: String)
        ensures
            final(self)@ == old(self)@.with_error(error@),
    {
        self.error = Some(error);
    }

    /// The error message shown, if any.
    pub fn error(&self) -> (res: Option<&str>)
        ensures
            match res {
                Some(e) => self@.error == Some(e@),
                None => self@.error is None,
            },
    {
        match &self.error {
            Some(e) => Some(e.as_str()),
            None => None,
        }
    }

    /// The configuration.
    pub fn config(&self) -> (res: &Config)
        ensures
            res@ == self@.config,
    {
        &self.config
    }

    /// A copy of the selected entry, if the selection is on an entry.
    pub fn selected_item(&self) -> (res: Option<SessionItem>)
        ensures
            res.deep_view() == self@.selected_item(),
    {
        if self.search_engine.is_searching() {
            self.search_engine.selected_item()
        } else {
            let items = self.display_items();
            match self.selected_index {
                Some(i) => if i < items.len() {
                    Some(items[i].clone())
                } else {
                    None
                },
                None => None,
            }
        }
    }

    /// A file picker was opened under this request id and not answered yet.
    pub fn is_valid_request_id(&self, request_id: &str) -> (res: bool)
        ensures
            res == self@.request_ids.contains(request_id@),
    {
        let id = request_id.to_string();
        for i in 0..self.request_ids.len()
            invariant
                id@ == request_id@,
                forall|k: int| 0 <= k < i ==> self@.request_ids[k] != request_id@,
        {
            assert(self@.request_ids[i as int] == self.request_ids@[i as int]@);
            if self.request_ids[i] == id {
                return true;
            }
        }
        false
    }

    /// Forgets a request id.
    pub fn remove_request_id(&mut self, request_id: &str)
        ensures
            final(self)@ == (StateView {
                request_ids: without_id(old(self)@.request_ids, request_id@),
                ..old(self)@
            }),
    {
        let id = request_id.to_string();
        let mut kept: Vec<String> = Vec::new();
        let ghost ids = self@.request_ids;
        for i in 0..self.request_ids.len()
            invariant
                id@ == request_id@,
                ids == self.request_ids.deep_view(),
                kept.deep_view() == without_id(ids.take(i as int), request_id@),
        {
            proof {
                assert(ids.take(i + 1).drop_last() == ids.take(i as int));
                assert(ids.take(i + 1).last() == self.request_ids@[i as int]@);
            }
            if self.request_ids[i] != id {
                let ghost before = kept.deep_view();
                kept.push(self.request_ids[i].clone());
                proof {
                    assert(kept.deep_view() =~= before.push(self.request_ids@[i as int]@));
                }
            }
        }
        proof {
            assert(ids.take(ids.len() as int) == ids);
        }
        self.request_ids = kept;
    }

    /// Sets the folder that the new session starts in.
    pub fn set_new_session_folder(&mut self, folder: Option<String>)
        ensures
            final(self)@ == old(self)@.with_form(NewSessionView {
                new_session_folder: folder.deep_view(),
                ..old(self)@.new_session_info
            }),
    {
        self.new_session_info.set_folder(folder);
    }

    /// A key press, with a fresh request id should it open the file picker.
    /// The id is random: the result is the step for some id of that shape.
    pub fn handle_key(&mut self, key: KeyWithModifier) -> (res: KeyResponse)
        requires
            !old(self)@.overflows_on(key),
        ensures
            exists|id: Seq<char>|
                is_hyphenated_v4(id) && #[trigger] old(self)@.key_step(key, id) == res.step_with(
                    final(self)@,
                ),
    {
        let request_id = new_request_id();
        let ghost id = request_id@;
        let res = self.handle_key_with_request_id(key, request_id);
        assert(old(self)@.key_step(key, id) == res.step_with(self@));
        res
    }

    /// A key press; `request_id` names the file picker, should the key open
    /// one. A shown error is dismissed first, then a pending deletion is
    /// answered, then the key goes to the active screen.
    pub fn handle_key_with_request_id(&mut self, key: KeyWithModifier, request_id: String) -> (res:
        KeyResponse)
        requires
            !old(self)@.overflows_on(key),
        ensures
            res.step_with(final(self)@) == old(self)@.key_step(key, request_id@),
    {
        if self.error.is_some() {
            self.error = None;
            let res = KeyResponse { should_render: true, commands: Vec::new() };
            proof {
                assert(res.step_with(self@) =~= old(self)@.key_step(key, request_id@));
            }
            return res;
        }
        if self.session_manager.pending_deletion().is_some() {
            return self.handle_deletion_confirmation(key);
        }
        match self.active_screen {
            ActiveScreen::Main => self.handle_main_screen_key(key),
            ActiveScreen::NewSession => self.handle_new_session_key(key, request_id),
        }
    }

    /// A key press while a deletion waits for confirmation.
    fn handle_deletion_confirmation(&mut self, key: KeyWithModifier) -> (res: KeyResponse)
        ensures
            res.step_with(final(self)@) == old(self)@.deletion_key(key),
    {
        let plain = key.has_no_modifiers();
        let bare = key.bare_key;
        if plain && (bare == BareKey::Char('y') || bare == BareKey::Char('Y')) {
            let commands = self.session_manager.confirm_deletion();
            let res = KeyResponse { should_render: true, commands };
            proof {
                assert(res.step_with(self@) =~= old(self)@.deletion_key(key));
            }
            res
        } else if plain && (bare == BareKey::Char('n') || bare == BareKey::Char('N') || bare
            == BareKey::Esc) {
            self.session_manager.cancel_deletion();
            let res = KeyResponse { should_render: true, commands: Vec::new() };
            proof {
                assert(res.step_with(self@) =~= old(self)@.deletion_key(key));
            }
            res
        } else {
            let res = KeyResponse { should_render: false, commands: Vec::new() };
            proof {
                assert(res.step_with(self@) =~= old(self)@.deletion_key(key));
            }
            res
        }
    }

    /// Up on the main screen.
    fn move_selection_up(&mut self)
        ensures
            final(self)@ == old(self)@.moved_up(),
    {
        if self.search_engine.is_searching() {
            self.search_engine.move_selection_up();
        } else {
            let items_len = self.display_items().len();
            if items_len == 0 {
                return;
            }
            match self.selected_index {
                Some(selected) => {
                    if selected == 0 {
                        self.selected_index = Some(items_len - 1);
                    } else {
                        self.selected_index = Some(selected - 1);
                    }
                },
                None => {
                    self.selected_index = Some(items_len - 1);
                },
            }
        }
    }

    /// Down on the main screen.
    fn move_selection_down(&mut self)
        requires
            !old(self)@.down_overflows(),
        ensures
            final(self)@ == old(self)@.moved_down(),
    {
        if self.search_engine.is_searching() {
            self.search_engine.move_selection_down();
        } else {
            let items_len = self.display_items().len();
            if items_len == 0 {
                return;
            }
            match self.selected_index {
                Some(selected) => {
                    if selected == items_len - 1 {
                        self.selected_index = Some(0);
                    } else {
                        self.selected_index = Some(selected + 1);
                    }
                },
                None => {
                    self.selected_index = Some(0);
                },
            }
        }
    }

    /// Enter on the main screen.
    fn handle_item_selection(&mut self) -> (res: Vec<HostCommand>)
        ensures
            (final(self)@, res.deep_view()) == old(self)@.after_item_selection(),
    {
        match self.selected_item() {
            Some(SessionItem::ExistingSession { name, .. }) => {
                let ghost n = name@;
                let mut commands = self.session_manager.execute_action(SessionAction::Switch(name));
                let ghost before = commands.deep_view();
                assert(before == seq![CommandView::SwitchSession { name: Some(n), cwd: None }]);
                commands.push(HostCommand::HideSelf);
                proof {
                    assert(commands.deep_view() =~= before.push(CommandView::HideSelf));
                    assert(commands.deep_view() =~= old(self)@.after_item_selection().1);
                }
                commands
            },
            Some(SessionItem::ResurrectableSession { name, .. }) => {
                let ghost n = name@;
                let mut commands = self.session_manager.execute_action(SessionAction::Switch(name));
                let ghost before = commands.deep_view();
                assert(before == seq![CommandView::SwitchSession { name: Some(n), cwd: None }]);
                commands.push(HostCommand::HideSelf);
                proof {
                    assert(commands.deep_view() =~= before.push(CommandView::HideSelf));
                    assert(commands.deep_view() =~= old(self)@.after_item_selection().1);
                }
                commands
            },
            Some(SessionItem::Directory { path, session_name }) => {
                let incremented_name = self.session_manager.generate_incremented_name(
                    &session_name,
                    &self.config.session_separator,
                );
                self.new_session_info.set_name(&incremented_name);
                self.new_session_info.set_folder(Some(path));
                self.new_session_info.advance_to_layout_selection();
                self.active_screen = ActiveScreen::NewSession;
                let commands: Vec<HostCommand> = Vec::new();
                proof {
                    assert(commands.deep_view() =~= old(self)@.after_item_selection().1);
                    assert(self@ =~= old(self)@.after_item_selection().0);
                }
                commands
            },
            None => {
                let commands: Vec<HostCommand> = Vec::new();
                proof {
                    assert(commands.deep_view() =~= old(self)@.after_item_selection().1);
                }
                commands
            },
        }
    }

    /// Delete on the main screen.
    fn handle_delete_key(&mut self)
        ensures
            final(self)@ == old(self)@.after_delete_key(),
    {
        match self.selected_item() {
            Some(SessionItem::ExistingSession { name, .. }) => {
                self.session_manager.start_deletion(name);
            },
            Some(SessionItem::ResurrectableSession { name, .. }) => {
                self.session_manager.start_deletion(name);
            },
            _ => {},
        }
    }

    /// The configured default layout among the current session's layouts.
    fn default_layout_info(&self) -> (res: Option<LayoutInfo>)
        ensures
            res == self@.default_layout_info(),
    {
        match &self.config.default_layout {
            Some(layout_name) => {
                let sessions = self.session_manager.sessions();
                match find_current_session(sessions) {
                    Some(i) => find_layout_named(&sessions[i].available_layouts, layout_name),
                    None => None,
                }
            },
            None => None,
        }
    }

    /// The message for a session name that zellij would refuse, if any.
    fn check_session_name(name: &String) -> (res: Option<String>)
        ensures
            res.deep_view() == name_problem(name@),
    {
        let chars = chars_of(name.as_str());
        if utf8_len_at_least(&chars, 108) {
            Some("Session name must be shorter than 108 bytes".to_string())
        } else if contains_char(&chars, '/') {
            Some("Session name cannot contain '/'".to_string())
        } else {
            None
        }
    }

    /// Ctrl+Enter on the main screen.
    fn handle_quick_session_creation(&mut self) -> (res: Vec<HostCommand>)
        ensures
            (final(self)@, res.deep_view()) == old(self)@.after_quick_creation(),
    {
        let mut commands: Vec<HostCommand> = Vec::new();
        match self.selected_item() {
            Some(SessionItem::ExistingSession { name, .. }) => {
                commands.push(HostCommand::SwitchSession { name: Some(name), cwd: None });
                commands.push(HostCommand::HideSelf);
            },
            Some(SessionItem::ResurrectableSession { name, .. }) => {
                commands.push(HostCommand::SwitchSession { name: Some(name), cwd: None });
                commands.push(HostCommand::HideSelf);
            },
            Some(SessionItem::Directory { path, session_name }) => {
                let session_name = self.session_manager.generate_incremented_name(
                    &session_name,
                    &self.config.session_separator,
                );
                match Self::check_session_name(&session_name) {
                    Some(message) => {
                        self.set_error(message);
                    },
                    None => {
                        let same = match &self.current_session_name {
                            Some(current) => *current == session_name,
                            None => false,
                        };
                        if same {
                            self.set_error(
                                "Cannot create session with same name as current session".to_string(),
                            );
                        } else {
                            match self.default_layout_info() {
                                Some(layout) => commands.push(
                                    HostCommand::SwitchSessionWithLayout {
                                        name: Some(session_name),
                                        layout,
                                        cwd: Some(path),
                                    },
                                ),
                                None => commands.push(
                                    HostCommand::SwitchSession { name: Some(session_name), cwd: Some(path) },
                                ),
                            }
                            commands.push(HostCommand::HideSelf);
                        }
                    },
                }
            },
            None => {
                self.set_error("Please select a directory".to_string());
            },
        }
        proof {
            assert(commands.deep_view() =~= old(self)@.after_quick_creation().1);
        }
        commands
    }

    /// A key press on the main screen.
    fn handle_main_screen_key(&mut self, key: KeyWithModifier) -> (res: KeyResponse)
        requires
            !(key.bare_key == BareKey::Down && key.spec_no_modifiers() && old(self)@.down_overflows()),
        ensures
            res.step_with(final(self)@) == old(self)@.main_key(key),
    {
        let plain = key.has_no_modifiers();
        let ctrl = key.has_ctrl();
        let bare = key.bare_key;
        let typed: Option<char> = match bare {
            BareKey::Char(c) => if c != '\n' {
                Some(c)
            } else {
                None
            },
            _ => None,
        };
        let mut commands: Vec<HostCommand> = Vec::new();
        let should_render;
        if bare == BareKey::Up && plain {
            self.move_selection_up();
            should_render = true;
        } else if bare == BareKey::Down && plain {
            self.move_selection_down();
            should_render = true;
        } else if bare == BareKey::Enter && plain {
            commands = self.handle_item_selection();
            should_render = true;
        } else if bare == BareKey::Enter && ctrl {
            commands = self.handle_quick_session_creation();
            should_render = true;
        } else if bare == BareKey::Delete && plain {
            self.handle_delete_key();
            should_render = true;
        } else if plain && typed.is_some() {
            let items = self.combined_items();
            self.search_engine.add_char(typed.unwrap(), &items);
            should_render = true;
        } else if bare == BareKey::Backspace && plain {
            let items = self.combined_items();
            self.search_engine.backspace(&items);
            should_render = true;
        } else if bare == BareKey::Esc && plain {
            if self.search_engine.is_searching() {
                self.search_engine.clear();
                should_render = true;
            } else {
                commands.push(HostCommand::HideSelf);
                should_render = false;
            }
        } else if bare == BareKey::Char('c') && ctrl {
            commands.push(HostCommand::HideSelf);
            should_render = false;
        } else if bare == BareKey::Char('r') && ctrl {
            commands.push(HostCommand::ReloadZoxideDirectories);
            should_render = true;
        } else {
            should_render = false;
        }
        let res = KeyResponse { should_render, commands };
        proof {
            assert(res.step_with(self@) =~= old(self)@.main_key(key));
        }
        res
    }

    /// Opens the file picker for the new session's folder under the given
    /// request id, which is remembered until its answer comes.
    fn launch_filepicker(&mut self, request_id: String) -> (res: Vec<HostCommand>)
        ensures
            (KeyResponse { should_render: true, commands: res }).step_with(final(self)@)
                == old(self)@.after_launch_filepicker(request_id@),
    {
        let folder = self.new_session_info.new_session_folder();
        self.request_ids.push(request_id.clone());
        let mut commands: Vec<HostCommand> = Vec::new();
        commands.push(HostCommand::OpenFilepicker { request_id, caller_cwd: folder });
        proof {
            assert(self@.request_ids =~= old(self)@.request_ids.push(request_id@));
        }
        commands
    }

    /// A key press on the new-session screen.
    fn handle_new_session_key(&mut self, key: KeyWithModifier, request_id: String) -> (res:
        KeyResponse)
        ensures
            res.step_with(final(self)@) == old(self)@.new_session_key(key, request_id@),
    {
        let plain = key.has_no_modifiers();
        let ctrl = key.has_ctrl();
        let bare = key.bare_key;
        let mut commands: Vec<HostCommand> = Vec::new();
        if bare == BareKey::Enter && plain {
            commands = self.new_session_info.handle_selection(&self.current_session_name);
            self.active_screen = ActiveScreen::Main;
        } else if bare == BareKey::Enter && ctrl {
            match Self::check_session_name(self.new_session_info.name()) {
                Some(message) => {
                    self.set_error(message);
                },
                None => {
                    commands = self.new_session_info.handle_quick_session_creation(
                        &self.current_session_name,
                        &self.config.default_layout,
                    );
                    self.active_screen = ActiveScreen::Main;
                },
            }
        } else if bare == BareKey::Esc && plain {
            if self.new_session_info.entering_new_session_name()
                && self.new_session_info.name().as_str().unicode_len() == 0 {
                self.active_screen = ActiveScreen::Main;
            } else {
                self.new_session_info.handle_key(key);
            }
        } else if bare == BareKey::Char('f') && ctrl {
            commands = self.launch_filepicker(request_id);
        } else if bare == BareKey::Char('c') && ctrl {
            self.new_session_info.set_folder(None);
        } else {
            self.new_session_info.handle_key(key);
        }
        let res = KeyResponse { should_render: true, commands };
        proof {
            assert(res.step_with(self@) =~= old(self)@.new_session_key(key, request_id@));
        }
        res
    }

    /// An answer on a pipe: the file picker's answer to an open request sets
    /// the new session's folder and closes the request. Says whether the
    /// plugin must be drawn again.
    pub fn handle_pipe_message(
        &mut self,
        name: &String,
        payload: Option<String>,
        request_id: Option<String>,
    ) -> (res: bool)
        ensures
            (final(self)@, res) == old(self)@.after_pipe_message(
                name@,
                payload.deep_view(),
                request_id.deep_view(),
            ),
    {
        match (payload, request_id) {
            (Some(folder), Some(id)) => {
                if *name == "filepicker_result".to_string() && self.is_valid_request_id(id.as_str()) {
                    self.set_new_session_folder(Some(folder));
                    self.remove_request_id(id.as_str());
                    true
                } else {
                    false
                }
            },
            _ => false,
        }
    }

    /// A command run by the plugin ended: the zoxide query's output becomes
    /// the directory list, or its error output is shown. Says whether the
    /// plugin must be drawn again.
    pub fn handle_command_result(
        &mut self,
        source: Option<String>,
        exit_code: Option<i32>,
        stdout: Vec<u8>,
        stderr: Vec<u8>,
    ) -> (res: bool)
        ensures
            (final(self)@, res) == old(self)@.after_command_result(
                source.deep_view(),
                exit_code,
                stdout@,
                stderr@,
            ),
    {
        let is_zoxide = match &source {
            Some(s) => *s == "zoxide".to_string(),
            None => false,
        };
        if !is_zoxide {
            return false;
        }
        if exit_code == Some(0i32) {
            let output = decode_utf8_lossy(&stdout);
            self.update_zoxide_directories(parse_zoxide_output(output.as_str()));
        } else {
            let message = "zoxide failed: ".to_string().concat(decode_utf8_lossy(&stderr).as_str());
            self.set_error(message);
        }
        true
    }

    /// The host reports the running sessions.
    pub fn update_sessions(&mut self, sessions: Vec<SessionInfo>)
        ensures
            final(self)@ == old(self)@.after_update_sessions(sessions.deep_view()),
    {
        match find_current_session(&sessions) {
            Some(i) => {
                self.current_session_name = Some(sessions[i].name.clone());
                let layouts = clone_layouts(&sessions[i].available_layouts);
                self.new_session_info.update_layout_list(layouts);
            },
            None => {},
        }
        self.session_manager.update_sessions(sessions);
        self.update_search_if_needed();
    }

    /// The host reports the sessions that can be resurrected.
    pub fn update_resurrectable_sessions(&mut self, resurrectable_sessions: Vec<(String, Duration)>)
        ensures
            final(self)@ == old(self)@.after_update_resurrectable(
                resurrectable_view(resurrectable_sessions@),
            ),
    {
        self.session_manager.update_resurrectable_sessions(resurrectable_sessions);
        self.update_search_if_needed();
    }

    /// Zoxide reports its directories.
    pub fn update_zoxide_directories(&mut self, directories: Vec<ZoxideDirectory>)
        ensures
            final(self)@ == old(self)@.after_update_directories(directories.deep_view()),
    {
        self.zoxide_directories = directories;
        self.update_search_if_needed();
    }

    /// Runs the search again over the current list, when a search is going on.
    fn update_search_if_needed(&mut self)
        ensures
            final(self)@ == old(self)@.refresh_search(),
    {
        if self.search_engine.is_searching() {
            let term = self.search_engine.search_term().clone();
            let items = self.combined_items();
            self.search_engine.update_search(term, &items);
        }
    }

    /// The directory listed beside the named running session.
    fn directory_for_session(&self, name: &String) -> (res: String)
        ensures
            res@ == directory_for(self@.zoxide_directories, name@, self@.config.session_separator),
    {
        let ghost dirs = self@.zoxide_directories;
        let ghost sep = self@.config.session_separator;
        let mut i: usize = 0;
        assert(dirs.subrange(0, dirs.len() as int) == dirs);
        while i < self.zoxide_directories.len()
            invariant
                i <= self.zoxide_directories.len(),
                dirs == self@.zoxide_directories,
                sep == self@.config.session_separator,
                directory_for(dirs, name@, sep) == directory_for(
                    dirs.subrange(i as int, dirs.len() as int),
                    name@,
                    sep,
                ),
            decreases self.zoxide_directories.len() - i,
        {
            let ghost rest = dirs.subrange(i as int, dirs.len() as int);
            assert(rest.drop_first() == dirs.subrange(i + 1, dirs.len() as int));
            assert(rest[0] == self.zoxide_directories@[i as int]@);
            let dir = &self.zoxide_directories[i];
            if *name == dir.session_name || self.is_incremented_session(name, &dir.session_name) {
                return dir.directory.clone();
            }
            i = i + 1;
        }
        String::new()
    }

    /// The session name is `base_name`, the separator and a number.
    fn is_incremented_session(&self, session_name: &String, base_name: &String) -> (res: bool)
        ensures
            res == is_incremented(session_name@, base_name@, self@.config.session_separator),
    {
        incremented_number(session_name, base_name, &self.config.session_separator).is_some()
    }

    /// A resurrectable session before position `end` has this name.
    fn resurrectable_name_before(&self, end: usize, name: &String) -> (res: bool)
        requires
            end <= self@.session_manager.resurrectable_sessions.len(),
        ensures
            res == resurrectable_names(self@.session_manager.resurrectable_sessions.take(end as int)).contains(
                name@,
            ),
    {
        let res = self.session_manager.resurrectable_sessions();
        let ghost names = resurrectable_names(self@.session_manager.resurrectable_sessions.take(end as int));
        for j in 0..end
            invariant
                end <= res.len(),
                resurrectable_view(res@) == self@.session_manager.resurrectable_sessions,
                names == resurrectable_names(self@.session_manager.resurrectable_sessions.take(end as int)),
                forall|k: int| 0 <= k < j ==> names[k] != name@,
        {
            assert(names[j as int] == res@[j as int].0@);
            if res[j].0 == *name {
                return true;
            }
        }
        false
    }

    /// Running sessions, then (when configured) resurrectable sessions, then
    /// zoxide directories.
    fn combined_items(&self) -> (res: Vec<SessionItem>)
        ensures
            res.deep_view() == self@.combined_items(),
    {
        let ghost sep = self@.config.session_separator;
        let ghost dirs = self@.zoxide_directories;
        let mut items: Vec<SessionItem> = Vec::new();
        let sessions = self.session_manager.sessions();
        let ghost sv = self@.session_manager.sessions;
        for i in 0..sessions.len()
            invariant
                sessions.deep_view() == sv,
                sv == self@.session_manager.sessions,
                sep == self@.config.session_separator,
                dirs == self@.zoxide_directories,
                items.deep_view() == existing_items(sv.take(i as int), dirs, sep),
        {
            let directory = self.directory_for_session(&sessions[i].name);
            let ghost before = items.deep_view();
            assert(sv[i as int] == sessions@[i as int]@);
            items.push(
                SessionItem::ExistingSession {
                    name: sessions[i].name.clone(),
                    directory,
                    is_current: sessions[i].is_current_session,
                },
            );
            proof {
                assert(items.deep_view() =~= before.push(session_item(sv[i as int], dirs, sep)));
                assert(sv.take(i + 1) == sv.take(i as int).push(sv[i as int]));
                assert(existing_items(sv.take(i + 1), dirs, sep) =~= existing_items(sv.take(i as int), dirs, sep).push(session_item(sv[i as int], dirs, sep)));
            }
        }
        proof {
            assert(sv.take(sv.len() as int) == sv);
        }
        let ghost first = items.deep_view();
        let ghost middle: Seq<ItemView> = seq![];
        if self.config.show_resurrectable_sessions {
            let res = self.session_manager.resurrectable_sessions();
            let ghost rv = self@.session_manager.resurrectable_sessions;
            let ghost active = session_names(sv);
            for i in 0..res.len()
                invariant
                    resurrectable_view(res@) == rv,
                    rv == self@.session_manager.resurrectable_sessions,
                    sv == self@.session_manager.sessions,
                    active == session_names(sv),
                    items.deep_view() == first + resurrectable_items(rv.take(i as int), active),
            {
                let name = &res[i].0;
                proof {
                    assert(rv.take(i + 1).drop_last() == rv.take(i as int));
                    assert(rv.take(i + 1).last() == rv[i as int]);
                }
                let ghost before = items.deep_view();
                assert(rv[i as int] == (res@[i as int].0@, res@[i as int].1));
                if !self.session_manager.has_session(name) && !self.resurrectable_name_before(i, name) {
                    items.push(SessionItem::ResurrectableSession { name: name.clone(), duration: res[i].1 });
                    proof {
                        assert(items.deep_view() =~= before.push(ItemView::ResurrectableSession { name: rv[i as int].0, duration: rv[i as int].1 }));
                        assert(items.deep_view() =~= first + resurrectable_items(rv.take(i + 1), active));
                    }
                }
            }
            proof {
                assert(rv.take(rv.len() as int) == rv);
                middle = resurrectable_items(rv, active);
            }
        }
        let ghost second = items.deep_view();
        assert(second == first + middle);
        for i in 0..self.zoxide_directories.len()
            invariant
                dirs == self@.zoxide_directories,
                dirs == self.zoxide_directories.deep_view(),
                items.deep_view() == second + directory_items(dirs.take(i as int)),
        {
            let dir = &self.zoxide_directories[i];
            let ghost before = items.deep_view();
            assert(dirs[i as int] == dir@);
            items.push(
                SessionItem::Directory {
                    path: dir.directory.clone(),
                    session_name: dir.session_name.clone(),
                },
            );
            proof {
                let d = dirs[i as int];
                assert(items.deep_view() =~= before.push(ItemView::Directory { path: d.directory, session_name: d.session_name }));
                assert(dirs.take(i + 1) == dirs.take(i as int).push(d));
                assert(directory_items(dirs.take(i + 1)) =~= directory_items(dirs.take(i as int)).push(ItemView::Directory { path: d.directory, session_name: d.session_name }));
            }
        }
        proof {
            assert(dirs.take(dirs.len() as int) == dirs);
        }
        items
    }
}

/// The position of the first running session marked current.
fn find_current_session(sessions: &Vec<SessionInfo>) -> (res: Option<usize>)
    ensures
        match res {
            Some(i) => i < sessions.len() && current_session(sessions.deep_view()) == Some(
                sessions.deep_view()[i as int],
            ),
            None => current_session(sessions.deep_view()) is None,
        },
{
    let ghost sv = sessions.deep_view();
    let mut i: usize = 0;
    assert(sv.subrange(0, sv.len() as int) == sv);
    while i < sessions.len()
        invariant
            i <= sessions.len(),
            sv == sessions.deep_view(),
            current_session(sv) == current_session(sv.subrange(i as int, sv.len() as int)),
        decreases sessions.len() - i,
    {
        let ghost rest = sv.subrange(i as int, sv.len() as int);
        assert(rest.drop_first() == sv.subrange(i + 1, sv.len() as int));
        assert(rest[0] == sv[i as int]);
        if sessions[i].is_current_session {
            return Some(i);
        }
        i = i + 1;
    }
    None
}

} // verus!
