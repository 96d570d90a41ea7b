//! The form for a new session: its name, its layout and its folder.

use crate::command::{CommandView, HostCommand};
use crate::external::{layout_info_name, layout_name};
use crate::key::{BareKey, KeyWithModifier};
use crate::text::{chars_of, is_subsequence, pop_char, push_char, subsequence_match};
use vstd::prelude::*;
use zellij_tile::prelude::LayoutInfo;

verus! {

/// Which part of the form takes the typed characters.
#[derive(Clone, Copy, Debug, PartialEq, Eq, Structural)]
pub enum EnteringState {
    /// The session name.
    EnteringName,
    /// The search term that filters the layouts.
    EnteringLayoutSearch,
}

/// The new-session form.
pub struct NewSessionInfo {
    name: String,
    layouts: Vec<LayoutInfo>,
    layout_search_term: String,
    selected_layout: Option<usize>,
    entering: EnteringState,
    new_session_folder: Option<String>,
}

/// The mathematical value of the new-session form.
#[verifier::ext_equal]
pub struct NewSessionView {
    pub name: Seq<char>,
    pub layouts: Seq<LayoutInfo>,
    pub layout_search_term: Seq<char>,
    /// Position of the selected layout among those that match the term.
    pub selected_layout: Option<usize>,
    pub entering: EnteringState,
    pub new_session_folder: Option<Seq<char>>,
}

impl View for NewSessionInfo {
    type V = NewSessionView;

    closed spec fn view(&self) -> NewSessionView {
        NewSessionView {
            name: self.name@,
            layouts: self.layouts@,
            layout_search_term: self.layout_search_term@,
            selected_layout: self.selected_layout,
            entering: self.entering,
            new_session_folder: self.new_session_folder.deep_view(),
        }
    }
}

/// The layouts whose names match the term, in their order.
pub open spec fn matching_layouts(term: Seq<char>, layouts: Seq<LayoutInfo>) -> Seq<LayoutInfo>
    decreases layouts.len(),
{
    if layouts.len() == 0 {
        seq![]
    } else {
        let prev = matching_layouts(term, layouts.drop_last());
        if is_subsequence(term, layout_info_name(layouts.last())) {
            prev.push(layouts.last())
        } else {
            prev
        }
    }
}

/// Layout selection after Up among `len` layouts: from the first (or from
/// no selection, or from a position past the end) to the last, otherwise
/// one up.
pub open spec fn layout_up(selected: Option<usize>, len: nat) -> Option<usize> {
    if len == 0 {
        selected
    } else {
        match selected {
            Some(i) => if i == 0 || i >= len {
                Some((len - 1) as usize)
            } else {
                Some((i - 1) as usize)
            },
            None => Some((len - 1) as usize),
        }
    }
}

/// Layout selection after Down among `len` layouts: from the last (or from
/// a position past the end) to the first, from no selection to the first,
/// otherwise one down.
pub open spec fn layout_down(selected: Option<usize>, len: nat) -> Option<usize> {
    if len == 0 {
        selected
    } else {
        match selected {
            Some(i) => if i + 1 >= len {
                Some(0)
            } else {
                Some((i + 1) as usize)
            },
            None => Some(0),
        }
    }
}

/// The first layout with the given name.
pub open spec fn first_layout_named(layouts: Seq<LayoutInfo>, name: Seq<char>) -> Option<LayoutInfo>
    decreases layouts.len(),
{
    if layouts.len() == 0 {
        None
    } else if layout_info_name(layouts[0]) == name {
        Some(layouts[0])
    } else {
        first_layout_named(layouts.drop_first(), name)
    }
}

impl NewSessionView {
    /// The layouts that match the search term.
    pub open spec fn matching(self) -> Seq<LayoutInfo> {
        matching_layouts(self.layout_search_term, self.layouts)
    }

    /// The selected layout, if any.
    pub open spec fn selected_layout_info(self) -> Option<LayoutInfo> {
        match self.selected_layout {
            Some(i) => if i < self.matching().len() {
                Some(self.matching()[i as int])
            } else {
                None
            },
            None => None,
        }
    }

    /// The name of the session to create: `None` when none was typed.
    pub open spec fn session_name(self) -> Option<Seq<char>> {
        if self.name.len() == 0 {
            None
        } else {
            Some(self.name)
        }
    }

    /// The same form with the search term replaced and the first match
    /// selected.
    pub open spec fn with_term(self, term: Seq<char>) -> NewSessionView {
        NewSessionView {
            layout_search_term: term,
            selected_layout: if matching_layouts(term, self.layouts).len() > 0 {
                Some(0)
            } else {
                None
            },
            ..self
        }
    }

    /// The form after a typed character.
    pub open spec fn after_char(self, c: char) -> NewSessionView {
        match self.entering {
            EnteringState::EnteringName => NewSessionView { name: self.name.push(c), ..self },
            EnteringState::EnteringLayoutSearch => self.with_term(self.layout_search_term.push(c)),
        }
    }

    /// The form after Backspace: the last character of the focused field goes.
    pub open spec fn after_backspace(self) -> NewSessionView {
        match self.entering {
            EnteringState::EnteringName => NewSessionView {
                name: if self.name.len() > 0 {
                    self.name.drop_last()
                } else {
                    self.name
                },
                ..self
            },
            EnteringState::EnteringLayoutSearch => self.with_term(
                if self.layout_search_term.len() > 0 {
                    self.layout_search_term.drop_last()
                } else {
                    self.layout_search_term
                },
            ),
        }
    }

    /// The form after Esc or Ctrl+c: the name is cleared, or the layout
    /// search is cleared and the name takes the keys again.
    pub open spec fn after_break(self) -> NewSessionView {
        match self.entering {
            EnteringState::EnteringName => NewSessionView { name: seq![], ..self },
            EnteringState::EnteringLayoutSearch => NewSessionView {
                entering: EnteringState::EnteringName,
                ..self.with_term(seq![])
            },
        }
    }

    /// The form after a key press that it handles itself.
    pub open spec fn after_key(self, key: KeyWithModifier) -> NewSessionView {
        match key.bare_key {
            BareKey::Backspace if key.spec_no_modifiers() => self.after_backspace(),
            BareKey::Char('c') if key.ctrl => self.after_break(),
            BareKey::Esc if key.spec_no_modifiers() => self.after_break(),
            BareKey::Char(c) if key.spec_no_modifiers() => self.after_char(c),
            BareKey::Up if key.spec_no_modifiers()
                && self.entering == EnteringState::EnteringLayoutSearch => NewSessionView {
                selected_layout: layout_up(self.selected_layout, self.matching().len()),
                ..self
            },
            BareKey::Down if key.spec_no_modifiers()
                && self.entering == EnteringState::EnteringLayoutSearch => NewSessionView {
                selected_layout: layout_down(self.selected_layout, self.matching().len()),
                ..self
            },
            _ => self,
        }
    }

    /// The form once a session was created from it: empty name and search,
    /// the name taking the keys; the folder stays.
    pub open spec fn reset(self) -> NewSessionView {
        NewSessionView { name: seq![], entering: EnteringState::EnteringName, ..self.with_term(seq![]) }
    }

    /// The command that creates the session with the given layout, or with
    /// the host's default when there is none.
    pub open spec fn create_command(self, layout: Option<LayoutInfo>) -> CommandView {
        match layout {
            Some(l) => CommandView::SwitchSessionWithLayout {
                name: self.session_name(),
                layout: l,
                cwd: self.new_session_folder,
            },
            None => CommandView::SwitchSession {
                name: self.session_name(),
                cwd: self.new_session_folder,
            },
        }
    }

    /// The commands that creating a session with the given layout sends:
    /// none for the session that the plugin runs in, then hiding the plugin.
    pub open spec fn creation_commands(
        self,
        current_session: Option<Seq<char>>,
        layout: Option<LayoutInfo>,
    ) -> Seq<CommandView> {
        if self.session_name() != current_session {
            seq![self.create_command(layout), CommandView::HideSelf]
        } else {
            seq![CommandView::HideSelf]
        }
    }
}

/// A form with nothing entered.
pub open spec fn empty_form() -> NewSessionView {
    NewSessionView {
        name: seq![],
        layouts: seq![],
        layout_search_term: seq![],
        selected_layout: None,
        entering: EnteringState::EnteringName,
        new_session_folder: None,
    }
}

/// The layouts that match the term.
pub fn matching_layouts_of(term: &String, layouts: &Vec<LayoutInfo>) -> (res: Vec<LayoutInfo>)
    ensures
        res@ == matching_layouts(term@, layouts@),
{
    let t = chars_of(term.as_str());
    let mut res: Vec<LayoutInfo> = Vec::new();
    for i in 0..layouts.len()
        invariant
            t@ == term@,
            res@ == matching_layouts(term@, layouts@.take(i as int)),
    {
        proof {
            assert(layouts@.take(i + 1).drop_last() == layouts@.take(i as int));
            assert(layouts@.take(i + 1).last() == layouts@[i as int]);
        }
        let n = layout_name(&layouts[i]);
        let nc = chars_of(n.as_str());
        if subsequence_match(&t, &nc) {
            res.push(layouts[i].clone());
        }
    }
    proof {
        assert(layouts@.take(layouts.len() as int) == layouts@);
    }
    res
}

/// The first layout with the given name.
pub fn find_layout_named(layouts: &Vec<LayoutInfo>, name: &String) -> (res: Option<LayoutInfo>)
    ensures
        res == first_layout_named(layouts@, name@),
{
    let mut i: usize = 0;
    assert(layouts@.subrange(0, layouts.len() as int) == layouts@);
    while i < layouts.len()
        invariant
            i <= layouts.len(),
            first_layout_named(layouts@, name@) == first_layout_named(
                layouts@.subrange(i as int, layouts.len() as int),
                name@,
            ),
        decreases layouts.len() - i,
    {
        let ghost rest = layouts@.subrange(i as int, layouts.len() as int);
        assert(rest.drop_first() == layouts@.subrange(i + 1, layouts.len() as int));
        assert(rest[0] == layouts@[i as int]);
        let n = layout_name(&layouts[i]);
        if n == *name {
            return Some(layouts[i].clone());
        }
        i = i + 1;
    }
    None
}

impl NewSessionInfo {
    /// A form with nothing entered.
    pub fn new() -> (res: Self)
        ensures
            res@ == empty_form(),
    {
        let res = NewSessionInfo {
            name: String::new(),
            layouts: Vec::new(),
            layout_search_term: String::new(),
            selected_layout: None,
            entering: EnteringState::EnteringName,
            new_session_folder: None,
        };
        proof {
            assert(res@.name =~= empty_form().name);
            assert(res@.layouts =~= empty_form().layouts);
            assert(res@.layout_search_term =~= empty_form().layout_search_term);
        }
        res
    }

    /// The typed session name.
    pub fn name(&self) -> (res: &String)
        ensures
            res@ == self@.name,
    {
        &self.name
    }

    /// The session name takes the typed characters.
    pub fn entering_new_session_name(&self) -> (res: bool)
        ensures
            res == (self@.entering == EnteringState::EnteringName),
    {
        self.entering == EnteringState::EnteringName
    }

    /// The folder that the new session starts in.
    pub fn new_session_folder(&self) -> (res: Option<String>)
        ensures
            res.deep_view() == self@.new_session_folder,
    {
        match &self.new_session_folder {
            Some(f) => Some(f.clone()),
            None => None,
        }
    }

    /// The selected layout, if any.
    pub fn selected_layout_info(&self) -> (res: Option<LayoutInfo>)
        ensures
            res == self@.selected_layout_info(),
    {
        let matching = matching_layouts_of(&self.layout_search_term, &self.layouts);
        match self.selected_layout {
            Some(i) => if i < matching.len() {
                Some(matching[i].clone())
            } else {
                None
            },
            None => None,
        }
    }

    /// Sets the session name.
    pub fn set_name(&mut self, name: &String)
        ensures
            final(self)@ == (NewSessionView { name: name@, ..old(self)@ }),
    {
        self.name = name.clone();
    }

    /// Sets the folder that the new session starts in.
    pub fn set_folder(&mut self, folder: Option<String>)
        ensures
            final(self)@ == (NewSessionView { new_session_folder: folder.deep_view(), ..old(self)@ }),
    {
        self.new_session_folder = folder;
    }

    /// Moves on from the name to the choice of a layout.
    pub fn advance_to_layout_selection(&mut self)
        ensures
            final(self)@ == (NewSessionView {
                entering: EnteringState::EnteringLayoutSearch,
                ..old(self)@
            }),
    {
        self.entering = EnteringState::EnteringLayoutSearch;
    }

    /// Replaces the search term and selects the first matching layout.
    fn set_term(&mut self, term: String)
        ensures
            final(self)@ == old(self)@.with_term(term@),
    {
        let matching = matching_layouts_of(&term, &self.layouts);
        self.selected_layout = if matching.len() > 0 {
            Some(0)
        } else {
            None
        };
        self.layout_search_term = term;
    }

    /// Replaces the layouts that can be chosen and selects the first one
    /// that matches the search term.
    pub fn update_layout_list(&mut self, layouts: Vec<LayoutInfo>)
        ensures
            final(self)@ == (NewSessionView { layouts: layouts@, ..old(self)@ }).with_term(
                old(self)@.layout_search_term,
            ),
    {
        self.layouts = layouts;
        let term = self.layout_search_term.clone();
        self.set_term(term);
    }

    /// Handles a key press that the form handles itself: typing, Backspace,
    /// Esc or Ctrl+c to clear, Up and Down to choose a layout.
    pub fn handle_key(&mut self, key: KeyWithModifier)
        ensures
            final(self)@ == old(self)@.after_key(key),
    {
        let no_modifiers = key.has_no_modifiers();
        let searching = self.entering == EnteringState::EnteringLayoutSearch;
        let bare = key.bare_key;
        if bare == BareKey::Backspace && no_modifiers {
            self.handle_backspace();
        } else if bare == BareKey::Char('c') && key.has_ctrl() {
            self.handle_break();
        } else if bare == BareKey::Esc && no_modifiers {
            self.handle_break();
        } else if bare == BareKey::Up && no_modifiers && searching {
            self.move_layout_selection_up();
        } else if bare == BareKey::Down && no_modifiers && searching {
            self.move_layout_selection_down();
        } else if let BareKey::Char(c) = bare {
            if no_modifiers {
                self.add_char(c);
            }
        }
    }

    /// A typed character goes to the focused field.
    fn add_char(&mut self, c: char)
        ensures
            final(self)@ == old(self)@.after_char(c),
    {
        match self.entering {
            EnteringState::EnteringName => {
                let mut name = self.name.clone();
                push_char(&mut name, c);
                self.name = name;
            },
            EnteringState::EnteringLayoutSearch => {
                let mut term = self.layout_search_term.clone();
                push_char(&mut term, c);
                self.set_term(term);
            },
        }
    }

    /// Backspace takes the last character of the focused field.
    fn handle_backspace(&mut self)
        ensures
            final(self)@ == old(self)@.after_backspace(),
    {
        match self.entering {
            EnteringState::EnteringName => {
                let mut name = self.name.clone();
                let _ = pop_char(&mut name);
                self.name = name;
            },
            EnteringState::EnteringLayoutSearch => {
                let mut term = self.layout_search_term.clone();
                let _ = pop_char(&mut term);
                self.set_term(term);
            },
        }
    }

    /// Up among the matching layouts.
    fn move_layout_selection_up(&mut self)
        ensures
            final(self)@ == (NewSessionView {
                selected_layout: layout_up(old(self)@.selected_layout, old(self)@.matching().len()),
                ..old(self)@
            }),
    {
        let len = matching_layouts_of(&self.layout_search_term, &self.layouts).len();
        if len > 0 {
            self.selected_layout = match self.selected_layout {
                Some(i) => if i == 0 || i >= len {
                    Some(len - 1)
                } else {
                    Some(i - 1)
                },
                None => Some(len - 1),
            };
        }
    }

    /// Down among the matching layouts.
    fn move_layout_selection_down(&mut self)
        ensures
            final(self)@ == (NewSessionView {
                selected_layout: layout_down(old(self)@.selected_layout, old(self)@.matching().len()),
                ..old(self)@
            }),
    {
        let len = matching_layouts_of(&self.layout_search_term, &self.layouts).len();
        if len > 0 {
            self.selected_layout = match self.selected_layout {
                Some(i) => if i >= len - 1 {
                    Some(0)
                } else {
                    Some(i + 1)
                },
                None => Some(0),
            };
        }
    }

    /// Clears the name, or leaves the layout search for the name.
    fn handle_break(&mut self)
        ensures
            final(self)@ == old(self)@.after_break(),
    {
        match self.entering {
            EnteringState::EnteringName => {
                self.name = String::new();
                proof {
                    assert(self@ =~= old(self)@.after_break());
                }
            },
            EnteringState::EnteringLayoutSearch => {
                self.set_term(String::new());
                self.entering = EnteringState::EnteringName;
                proof {
                    assert(self@.layout_search_term =~= old(self)@.after_break().layout_search_term);
                }
            },
        }
    }

    /// Empties the form after a session was created from it.
    fn reset(&mut self)
        ensures
            final(self)@ == old(self)@.reset(),
    {
        self.name = String::new();
        self.set_term(String::new());
        self.entering = EnteringState::EnteringName;
        proof {
            assert(self@.name =~= old(self)@.reset().name);
            assert(self@.layout_search_term =~= old(self)@.reset().layout_search_term);
        }
    }

    /// The commands that create the session described by the form with the
    /// given layout.
    fn creation_commands(&self, current_session_name: &Option<String>, layout: Option<LayoutInfo>) -> (res:
        Vec<HostCommand>)
        ensures
            res.deep_view() == self@.creation_commands(current_session_name.deep_view(), layout),
    {
        let mut commands: Vec<HostCommand> = Vec::new();
        let name_len = self.name.as_str().unicode_len();
        let name = if name_len == 0 {
            None
        } else {
            Some(self.name.clone())
        };
        let differs = match (&name, current_session_name) {
            (Some(n), Some(c)) => *n != *c,
            (None, None) => false,
            _ => true,
        };
        if differs {
            let cwd = self.new_session_folder();
            match layout {
                Some(l) => commands.push(HostCommand::SwitchSessionWithLayout { name, layout: l, cwd }),
                None => commands.push(HostCommand::SwitchSession { name, cwd }),
            }
        }
        commands.push(HostCommand::HideSelf);
        proof {
            assert(commands.deep_view() =~= self@.creation_commands(
                current_session_name.deep_view(),
                layout,
            ));
        }
        commands
    }

    /// Enter: on the name, moves on to the layout; on the layout, creates
    /// the session (unless it is the one the plugin runs in), hides the
    /// plugin and empties the form.
    pub fn handle_selection(&mut self, current_session_name: &Option<String>) -> (res: Vec<
        HostCommand,
    >)
        ensures
            old(self)@.entering == EnteringState::EnteringName ==> final(self)@ == (NewSessionView {
                entering: EnteringState::EnteringLayoutSearch,
                ..old(self)@
            }) && res.deep_view() == Seq::<CommandView>::empty(),
            old(self)@.entering == EnteringState::EnteringLayoutSearch ==> final(self)@ == old(
                self,
            )@.reset() && res.deep_view() == old(self)@.creation_commands(
                current_session_name.deep_view(),
                old(self)@.selected_layout_info(),
            ),
    {
        match self.entering {
            EnteringState::EnteringName => {
                self.entering = EnteringState::EnteringLayoutSearch;
                let res: Vec<HostCommand> = Vec::new();
                proof {
                    assert(res.deep_view() =~= Seq::<CommandView>::empty());
                }
                res
            },
            EnteringState::EnteringLayoutSearch => {
                let layout = self.selected_layout_info();
                let commands = self.creation_commands(current_session_name, layout);
                self.reset();
                commands
            },
        }
    }

    /// Creates the session described by the form at once, with the layout
    /// named `default_layout` when there is one, hides the plugin and
    /// empties the form.
    pub fn handle_quick_session_creation(
        &mut self,
        current_session_name: &Option<String>,
        default_layout: &Option<String>,
    ) -> (res: Vec<HostCommand>)
        ensures
            final(self)@ == old(self)@.reset(),
            res.deep_view() == old(self)@.creation_commands(
                current_session_name.deep_view(),
                match default_layout {
                    Some(d) => first_layout_named(old(self)@.layouts, d@),
                    None => None,
                },
            ),
    {
        let layout = match default_layout {
            Some(d) => find_layout_named(&self.layouts, d),
            None => None,
        };
        let commands = self.creation_commands(current_session_name, layout);
        self.reset();
        commands
    }
}

} // verus!
