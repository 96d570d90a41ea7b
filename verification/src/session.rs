//! Sessions known to the host, the items that the plugin lists, and the
//! naming of numbered sessions.

use crate::command::{CommandView, HostCommand};
use crate::text::{
    chars_of, decimal_digits, decimal_string, decimal_value, is_prefix, lemma_decimal_round_trip,
    parse_u32, parses_as_u32, starts_with_at, string_of, tail_from, unsigned_digits,
};
use std::time::Duration;
use vstd::prelude::*;
use zellij_tile::prelude::LayoutInfo;

verus! {

/// An entry of the plugin's list.
#[derive(Debug, PartialEq)]
pub enum SessionItem {
    /// A running session, with the zoxide directory whose name it carries
    /// (empty when there is none).
    ExistingSession { name: String, directory: String, is_current: bool },
    /// A session that has exited and can be brought back.
    ResurrectableSession { name: String, duration: Duration },
    /// A zoxide directory and the session name derived from it.
    Directory { path: String, session_name: String },
}

/// The mathematical value of a list entry.
#[verifier::ext_equal]
pub enum ItemView {
    ExistingSession { name: Seq<char>, directory: Seq<char>, is_current: bool },
    ResurrectableSession { name: Seq<char>, duration: Duration },
    Directory { path: Seq<char>, session_name: Seq<char> },
}

impl View for SessionItem {
    type V = ItemView;

    open spec fn view(&self) -> ItemView {
        match self {
            SessionItem::ExistingSession { name, directory, is_current } =>
                ItemView::ExistingSession {
                name: name@,
                directory: directory@,
                is_current: *is_current,
            },
            SessionItem::ResurrectableSession { name, duration } =>
                ItemView::ResurrectableSession { name: name@, duration: *duration },
            SessionItem::Directory { path, session_name } => ItemView::Directory {
                path: path@,
                session_name: session_name@,
            },
        }
    }
}

impl DeepView for SessionItem {
    type V = ItemView;

    open spec fn deep_view(&self) -> ItemView {
        self@
    }
}

impl Clone for SessionItem {
    fn clone(&self) -> (res: Self)
        ensures
            res == *self,
    {
        match self {
            SessionItem::ExistingSession { name, directory, is_current } =>
                SessionItem::ExistingSession {
                name: name.clone(),
                directory: directory.clone(),
                is_current: *is_current,
            },
            SessionItem::ResurrectableSession { name, duration } =>
                SessionItem::ResurrectableSession { name: name.clone(), duration: *duration },
            SessionItem::Directory { path, session_name } => SessionItem::Directory {
                path: path.clone(),
                session_name: session_name.clone(),
            },
        }
    }
}

/// A running session as the host reports it, with what the plugin reads of it.
#[derive(Debug, PartialEq)]
pub struct SessionInfo {
    pub name: String,
    pub is_current_session: bool,
    pub available_layouts: Vec<LayoutInfo>,
}

/// The mathematical value of a running session.
#[verifier::ext_equal]
pub struct SessionInfoView {
    pub name: Seq<char>,
    pub is_current_session: bool,
    pub available_layouts: Seq<LayoutInfo>,
}

impl View for SessionInfo {
    type V = SessionInfoView;

    open spec fn view(&self) -> SessionInfoView {
        SessionInfoView {
            name: self.name@,
            is_current_session: self.is_current_session,
            available_layouts: self.available_layouts@,
        }
    }
}

impl DeepView for SessionInfo {
    type V = SessionInfoView;

    open spec fn deep_view(&self) -> SessionInfoView {
        self@
    }
}

/// An action on a session.
pub enum SessionAction {
    /// Switch to the named session.
    Switch(String),
}

/// A copy of a list of layouts.
pub fn clone_layouts(layouts: &Vec<LayoutInfo>) -> (res: Vec<LayoutInfo>)
    ensures
        res@ == layouts@,
{
    let mut res: Vec<LayoutInfo> = Vec::new();
    for i in 0..layouts.len()
        invariant
            res@ == layouts@.take(i as int),
    {
        res.push(layouts[i].clone());
        proof {
            assert(layouts@.take(i + 1) == layouts@.take(i as int).push(layouts@[i as int]));
        }
    }
    proof {
        assert(layouts@.take(layouts.len() as int) == layouts@);
    }
    res
}

/// `session` is `base`, then `sep`, then a number that `u32` parsing
/// accepts (such as `project.2` for `project` and `.`).
pub open spec fn is_incremented(session: Seq<char>, base: Seq<char>, sep: Seq<char>) -> bool {
    &&& base.len() < session.len()
    &&& is_prefix(base, session)
    &&& is_prefix(sep, session.subrange(base.len() as int, session.len() as int))
    &&& parses_as_u32(session.subrange((base.len() + sep.len()) as int, session.len() as int))
}

/// The number at the end of an incremented name.
pub open spec fn increment_of(session: Seq<char>, base: Seq<char>, sep: Seq<char>) -> nat {
    decimal_value(unsigned_digits(session.subrange((base.len() + sep.len()) as int, session.len() as int)))
}

/// The number of `session` when it is an incremented version of `base`.
pub fn incremented_number(session: &String, base: &String, sep: &String) -> (res: Option<u32>)
    ensures
        res is Some == is_incremented(session@, base@, sep@),
        res matches Some(n) ==> n == increment_of(session@, base@, sep@),
{
    let s = chars_of(session.as_str());
    let b = chars_of(base.as_str());
    let p = chars_of(sep.as_str());
    if s.len() <= b.len() {
        return None;
    }
    assert(s@.subrange(0, s.len() as int) == s@);
    if !starts_with_at(&s, 0, &b) {
        return None;
    }
    if !starts_with_at(&s, b.len(), &p) {
        return None;
    }
    let number = tail_from(&s, b.len() + p.len());
    parse_u32(&number)
}

/// The names of the given sessions, in order.
pub open spec fn session_names(sessions: Seq<SessionInfoView>) -> Seq<Seq<char>> {
    sessions.map_values(|s: SessionInfoView| s.name)
}

/// The highest number among the incremented versions of `base` in `names`,
/// and at least 1 (the base name counts as the first).
pub open spec fn highest_increment(names: Seq<Seq<char>>, base: Seq<char>, sep: Seq<char>) -> nat
    decreases names.len(),
{
    if names.len() == 0 {
        1
    } else {
        let m = highest_increment(names.drop_last(), base, sep);
        let n = names.last();
        if is_incremented(n, base, sep) && increment_of(n, base, sep) > m {
            increment_of(n, base, sep)
        } else {
            m
        }
    }
}

/// The name for a new session on `base`: `base` itself when no session has
/// that name, else `base`, `sep` and the number after the highest one in use.
pub open spec fn incremented_name(names: Seq<Seq<char>>, base: Seq<char>, sep: Seq<char>) -> Seq<
    char,
> {
    if names.contains(base) {
        base + sep + decimal_digits(highest_increment(names, base, sep) + 1)
    } else {
        base
    }
}

/// The session manager's state.
pub struct SessionManager {
    sessions: Vec<SessionInfo>,
    resurrectable_sessions: Vec<(String, Duration)>,
    pending_deletion: Option<String>,
}

/// The mathematical value of the session manager.
#[verifier::ext_equal]
pub struct SessionManagerView {
    pub sessions: Seq<SessionInfoView>,
    pub resurrectable_sessions: Seq<(Seq<char>, Duration)>,
    pub pending_deletion: Option<Seq<char>>,
}

/// The resurrectable sessions as names and durations.
pub open spec fn resurrectable_view(v: Seq<(String, Duration)>) -> Seq<(Seq<char>, Duration)> {
    v.map_values(|e: (String, Duration)| (e.0@, e.1))
}

impl View for SessionManager {
    type V = SessionManagerView;

    closed spec fn view(&self) -> SessionManagerView {
        SessionManagerView {
            sessions: self.sessions.deep_view(),
            resurrectable_sessions: resurrectable_view(self.resurrectable_sessions@),
            pending_deletion: self.pending_deletion.deep_view(),
        }
    }
}

/// What confirming a pending deletion asks of the host: a running session is
/// killed, any other one is deleted.
pub open spec fn deletion_commands(m: SessionManagerView) -> Seq<CommandView> {
    match m.pending_deletion {
        Some(name) => if session_names(m.sessions).contains(name) {
            seq![CommandView::KillSession { name }]
        } else {
            seq![CommandView::DeleteDeadSession { name }]
        },
        None => seq![],
    }
}

impl SessionManager {
    /// A manager that knows no session.
    pub fn new() -> (res: Self)
        ensures
            res@.sessions.len() == 0,
            res@.resurrectable_sessions.len() == 0,
            res@.pending_deletion is None,
    {
        SessionManager {
            sessions: Vec::new(),
            resurrectable_sessions: Vec::new(),
            pending_deletion: None,
        }
    }

    /// The running sessions.
    pub fn sessions(&self) -> (res: &Vec<SessionInfo>)
        ensures
            res.deep_view() == self@.sessions,
    {
        &self.sessions
    }

    /// The sessions that can be resurrected, with how long ago they ended.
    pub fn resurrectable_sessions(&self) -> (res: &Vec<(String, Duration)>)
        ensures
            resurrectable_view(res@) == self@.resurrectable_sessions,
    {
        &self.resurrectable_sessions
    }

    /// Replaces the running sessions.
    pub fn update_sessions(&mut self, sessions: Vec<SessionInfo>)
        ensures
            final(self)@ == (SessionManagerView { sessions: sessions.deep_view(), ..old(self)@ }),
    {
        self.sessions = sessions;
    }

    /// Replaces the resurrectable sessions.
    pub fn update_resurrectable_sessions(&mut self, resurrectable_sessions: Vec<(String, Duration)>)
        ensures
            final(self)@ == (SessionManagerView {
                resurrectable_sessions: resurrectable_view(resurrectable_sessions@),
                ..old(self)@
            }),
    {
        self.resurrectable_sessions = resurrectable_sessions;
    }

    /// The session that waits for its deletion to be confirmed.
    pub fn pending_deletion(&self) -> (res: Option<String>)
        ensures
            res.deep_view() == self@.pending_deletion,
    {
        match &self.pending_deletion {
            Some(name) => Some(name.clone()),
            None => None,
        }
    }

    /// Asks for confirmation before deleting the named session.
    pub fn start_deletion(&mut self, name: String)
        ensures
            final(self)@ == (SessionManagerView { pending_deletion: Some(name@), ..old(self)@ }),
    {
        self.pending_deletion = Some(name);
    }

    /// Drops the pending deletion.
    pub fn cancel_deletion(&mut self)
        ensures
            final(self)@ == (SessionManagerView { pending_deletion: None, ..old(self)@ }),
    {
        self.pending_deletion = None;
    }

    /// Carries out the pending deletion, if any, and clears it.
    pub fn confirm_deletion(&mut self) -> (res: Vec<HostCommand>)
        ensures
            final(self)@ == (SessionManagerView { pending_deletion: None, ..old(self)@ }),
            res.deep_view() == deletion_commands(old(self)@),
    {
        let mut commands: Vec<HostCommand> = Vec::new();
        match self.pending_deletion.take() {
            Some(name) => {
                if self.has_session(&name) {
                    commands.push(HostCommand::KillSession { name });
                } else {
                    commands.push(HostCommand::DeleteDeadSession { name });
                }
            },
            None => {},
        }
        proof {
            assert(commands.deep_view() =~= deletion_commands(old(self)@));
        }
        commands
    }

    /// A running session has this name.
    pub fn has_session(&self, name: &String) -> (res: bool)
        ensures
            res == session_names(self@.sessions).contains(name@),
    {
        for i in 0..self.sessions.len()
            invariant
                forall|j: int| 0 <= j < i ==> self.sessions@[j].name@ != name@,
        {
            if self.sessions[i].name == *name {
                proof {
                    assert(session_names(self@.sessions)[i as int] == name@);
                }
                return true;
            }
        }
        proof {
            if session_names(self@.sessions).contains(name@) {
                let k = choose|k: int|
                    0 <= k < session_names(self@.sessions).len() && session_names(
                        self@.sessions,
                    )[k] == name@;
                assert(self.sessions@[k].name@ == name@);
            }
        }
        false
    }

    /// What an action asks of the host.
    pub fn execute_action(&self, action: SessionAction) -> (res: Vec<HostCommand>)
        ensures
            res.deep_view() == match action {
                SessionAction::Switch(name) => seq![
                    CommandView::SwitchSession { name: Some(name@), cwd: None },
                ],
            },
    {
        let mut commands: Vec<HostCommand> = Vec::new();
        match action {
            SessionAction::Switch(name) => {
                commands.push(HostCommand::SwitchSession { name: Some(name), cwd: None });
            },
        }
        proof {
            assert(commands.deep_view() =~= match action {
                SessionAction::Switch(name) => seq![
                    CommandView::SwitchSession { name: Some(name@), cwd: None },
                ],
            });
        }
        commands
    }

    /// The name for a new session on `base` that no running session has
    /// taken: `base` itself, or `base`, `sep` and the next free number.
    pub fn generate_incremented_name(&self, base: &String, sep: &String) -> (res: String)
        ensures
            res@ == incremented_name(session_names(self@.sessions), base@, sep@),
    {
        let ghost names = session_names(self@.sessions);
        if !self.has_session(base) {
            return base.clone();
        }
        let mut highest: u64 = 1;
        for i in 0..self.sessions.len()
            invariant
                names == session_names(self@.sessions),
                highest == highest_increment(names.take(i as int), base@, sep@),
                highest <= u32::MAX,
        {
            proof {
                assert(names.take(i + 1).drop_last() == names.take(i as int));
                assert(names.take(i + 1).last() == self.sessions@[i as int].name@);
            }
            match incremented_number(&self.sessions[i].name, base, sep) {
                Some(n) => {
                    if n as u64 > highest {
                        highest = n as u64;
                    }
                },
                None => {},
            }
        }
        proof {
            assert(names.take(names.len() as int) == names);
        }
        let mut chars = chars_of(base.as_str());
        let sep_chars = chars_of(sep.as_str());
        let digits = decimal_string(highest + 1);
        let mut k: usize = 0;
        while k < sep_chars.len()
            invariant
                k <= sep_chars.len(),
                chars@ == base@ + sep_chars@.take(k as int),
            decreases sep_chars.len() - k,
        {
            chars.push(sep_chars[k]);
            proof {
                assert(sep_chars@.take(k + 1) == sep_chars@.take(k as int).push(sep_chars@[k as int]));
            }
            k = k + 1;
        }
        proof {
            assert(sep_chars@.take(k as int) == sep@);
        }
        let mut k: usize = 0;
        let ghost prefix = chars@;
        while k < digits.len()
            invariant
                k <= digits.len(),
                chars@ == prefix + digits@.take(k as int),
            decreases digits.len() - k,
        {
            chars.push(digits[k]);
            proof {
                assert(digits@.take(k + 1) == digits@.take(k as int).push(digits@[k as int]));
            }
            k = k + 1;
        }
        proof {
            assert(digits@.take(k as int) == digits@);
        }
        string_of(&chars)
    }
}

/// Every incremented version of `base` in `names` has a number no higher
/// than `highest_increment`.
pub proof fn lemma_highest_increment_bounds(names: Seq<Seq<char>>, base: Seq<char>, sep: Seq<char>)
    ensures
        highest_increment(names, base, sep) >= 1,
        forall|i: int|
            0 <= i < names.len() && is_incremented(#[trigger] names[i], base, sep) ==> increment_of(
                names[i],
                base,
                sep,
            ) <= highest_increment(names, base, sep),
    decreases names.len(),
{
    if names.len() > 0 {
        lemma_highest_increment_bounds(names.drop_last(), base, sep);
        assert forall|i: int|
            0 <= i < names.len() && is_incremented(#[trigger] names[i], base, sep) implies increment_of(
            names[i],
            base,
            sep,
        ) <= highest_increment(names, base, sep) by {
            if i < names.len() - 1 {
                assert(names.drop_last()[i] == names[i]);
            }
        }
    }
}

/// The name chosen for a new session is not the name of any running
/// session, as long as the next number fits in a `u32`.
pub proof fn lemma_incremented_name_is_fresh(names: Seq<Seq<char>>, base: Seq<char>, sep: Seq<char>)
    requires
        highest_increment(names, base, sep) + 1 <= u32::MAX,
    ensures
        !names.contains(incremented_name(names, base, sep)),
{
    if names.contains(base) {
        let k = highest_increment(names, base, sep) + 1;
        let digits = decimal_digits(k);
        let g = base + sep + digits;
        lemma_decimal_round_trip(k);
        lemma_highest_increment_bounds(names, base, sep);
        assert(g.subrange(0, base.len() as int) =~= base);
        assert(g.subrange(base.len() as int, g.len() as int).subrange(0, sep.len() as int) =~= sep);
        assert(g.subrange((base.len() + sep.len()) as int, g.len() as int) =~= digits);
        assert(is_incremented(g, base, sep));
        assert(increment_of(g, base, sep) == k);
        if names.contains(g) {
            let i = choose|i: int| 0 <= i < names.len() && names[i] == g;
            assert(is_incremented(names[i], base, sep));
        }
    }
}

} // verus!
