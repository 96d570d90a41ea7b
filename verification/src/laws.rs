//! Properties of the plugin that hold across events and functions.

use crate::command::CommandView;
use crate::key::{BareKey, KeyWithModifier};
use crate::model::{
    directory_for,
    name_has_slash_message, name_problem, name_too_long_message, no_selection_message,
    resurrectable_items, resurrectable_names, same_session_message, without_id, KeyStep, StateView,
};
use crate::new_session_info::{EnteringState, NewSessionView};
use crate::session::{
    highest_increment, is_incremented, lemma_incremented_name_is_fresh, session_names, ItemView,
};
use crate::state::ActiveScreen;
use crate::zoxide::{
    after_backspace, cleared_search, item_matches, matching_items, searched, select_down,
    select_up, SearchView,
};
use std::time::Duration;
use vstd::prelude::*;

verus! {

/// The name of a list entry of a session.
pub open spec fn item_name(item: ItemView) -> Seq<char> {
    match item {
        ItemView::ExistingSession { name, .. } => name,
        ItemView::ResurrectableSession { name, .. } => name,
        ItemView::Directory { session_name, .. } => session_name,
    }
}

/// While an error is shown, any key only dismisses it: nothing else
/// changes, the plugin is drawn again and the host is asked nothing.
pub proof fn law_key_dismisses_error(s: StateView, key: KeyWithModifier, id: Seq<char>)
    requires
        s.error is Some,
    ensures
        s.key_step(key, id) == (KeyStep {
            state: StateView { error: None, ..s },
            should_render: true,
            commands: seq![],
        }),
{
}

/// Down then Up (and Up then Down) brings the selection back to the same
/// entry of a non-empty list.
pub proof fn law_selection_round_trip(selected: Option<usize>, len: nat)
    requires
        len > 0,
        len <= usize::MAX,
        selected matches Some(i) ==> i < len,
        selected is Some,
    ensures
        select_up(select_down(selected, len), len) == selected,
        select_down(select_up(selected, len), len) == selected,
{
}

/// Moving the selection in a non-empty list keeps it on an entry.
pub proof fn law_selection_stays_in_list(selected: Option<usize>, len: nat)
    requires
        len > 0,
        len <= usize::MAX,
        selected matches Some(i) ==> i < len,
    ensures
        select_up(selected, len) matches Some(i) && i < len,
        select_down(selected, len) matches Some(i) && i < len,
{
}

/// On the main screen with no search going on, Down then Up gives back the
/// same state when the selection is on an entry.
pub proof fn law_main_down_up_round_trip(s: StateView)
    requires
        !s.is_searching(),
        s.selected_index matches Some(i) && i < s.combined_items().len(),
        s.combined_items().len() <= usize::MAX,
    ensures
        s.main_key(KeyWithModifier {
            bare_key: BareKey::Down,
            ctrl: false,
            alt: false,
            shift: false,
            super_key: false,
        }).state.main_key(KeyWithModifier {
            bare_key: BareKey::Up,
            ctrl: false,
            alt: false,
            shift: false,
            super_key: false,
        }).state == s,
{
    let len = s.combined_items().len();
    law_selection_round_trip(s.selected_index, len);
    let d = s.moved_down();
    assert(d.combined_items() == s.combined_items());
    assert(d.moved_up() =~= s);
}

/// No resurrectable entry of the list has the name of a running session,
/// and no two resurrectable entries share a name.
pub proof fn law_resurrectable_entries_distinct(
    res: Seq<(Seq<char>, Duration)>,
    active: Seq<Seq<char>>,
)
    ensures
        forall|k: int|
            0 <= k < resurrectable_items(res, active).len() ==> !active.contains(
                #[trigger] item_name(resurrectable_items(res, active)[k]),
            ),
        forall|j: int, k: int|
            0 <= j < k < resurrectable_items(res, active).len() ==> item_name(
                #[trigger] resurrectable_items(res, active)[j],
            ) != item_name(#[trigger] resurrectable_items(res, active)[k]),
    decreases res.len(),
{
    if res.len() > 0 {
        law_resurrectable_entries_distinct(res.drop_last(), active);
        lemma_resurrectable_names_come_from(res.drop_last(), active);
    }
}

/// Every resurrectable entry is named after one of the given sessions.
pub proof fn lemma_resurrectable_names_come_from(
    res: Seq<(Seq<char>, Duration)>,
    active: Seq<Seq<char>>,
)
    ensures
        forall|k: int|
            0 <= k < resurrectable_items(res, active).len() ==> resurrectable_names(res).contains(
                #[trigger] item_name(resurrectable_items(res, active)[k]),
            ),
        forall|k: int|
            0 <= k < resurrectable_items(res, active).len() ==> resurrectable_items(
                res,
                active,
            )[k] is ResurrectableSession,
    decreases res.len(),
{
    if res.len() > 0 {
        lemma_resurrectable_names_come_from(res.drop_last(), active);
        let prev = resurrectable_items(res.drop_last(), active);
        let names = resurrectable_names(res);
        let prev_names = resurrectable_names(res.drop_last());
        assert forall|k: int| 0 <= k < prev.len() implies names.contains(
            #[trigger] item_name(prev[k]),
        ) by {
            let j = choose|j: int| 0 <= j < prev_names.len() && prev_names[j] == item_name(prev[k]);
            assert(names[j] == prev_names[j]);
        }
        assert(names[res.len() - 1] == res.last().0);
    }
}

/// Every change of the search keeps its selection on one of its results.
pub proof fn law_search_selection_stays_on_result(s: SearchView, term: Seq<char>, items: Seq<ItemView>)
    requires
        s.wf(),
    ensures
        searched(term, items).wf(),
        cleared_search().wf(),
        after_backspace(s, items).wf(),
        (SearchView { selected_index: select_up(s.selected_index, s.results.len()), ..s }).wf(),
        (SearchView { selected_index: select_down(s.selected_index, s.results.len()), ..s }).wf(),
{
}

/// Every search result is an entry of the searched list and matches the
/// search term.
pub proof fn law_search_results_come_from_list(term: Seq<char>, items: Seq<ItemView>)
    ensures
        forall|k: int|
            0 <= k < matching_items(term, items).len() ==> items.contains(
                #[trigger] matching_items(term, items)[k],
            ) && item_matches(term, matching_items(term, items)[k]),
    decreases items.len(),
{
    if items.len() > 0 {
        law_search_results_come_from_list(term, items.drop_last());
        let prev = matching_items(term, items.drop_last());
        assert forall|k: int| 0 <= k < prev.len() implies items.contains(#[trigger] prev[k]) by {
            let j = choose|j: int| 0 <= j < items.drop_last().len() && items.drop_last()[j] == prev[k];
            assert(items[j] == prev[k]);
        }
        assert(items[items.len() - 1] == items.last());
    }
}

/// Backspace undoes a typed search character: the search for the shorter
/// term, or no search when the term was a single character.
pub proof fn law_backspace_undoes_typing(term: Seq<char>, c: char, items: Seq<ItemView>)
    ensures
        after_backspace(searched(term.push(c), items), items) == if term.len() == 0 {
            cleared_search()
        } else {
            searched(term, items)
        },
{
    assert(term.push(c).drop_last() =~= term);
}

/// In the session-name field, Backspace undoes a typed character.
pub proof fn law_name_backspace_undoes_typing(form: NewSessionView, c: char)
    requires
        form.entering == EnteringState::EnteringName,
    ensures
        form.after_char(c).after_backspace() == form,
{
    assert(form.name.push(c).drop_last() =~= form.name);
    assert(form.after_char(c).after_backspace() =~= form);
}

/// After a request id is removed, it is no longer known, and every other
/// known id still is.
pub proof fn law_removed_request_id_is_unknown(ids: Seq<Seq<char>>, id: Seq<char>)
    ensures
        !without_id(ids, id).contains(id),
        forall|other: Seq<char>| other != id ==> (without_id(ids, id).contains(other) <==> ids.contains(other)),
    decreases ids.len(),
{
    if ids.len() > 0 {
        law_removed_request_id_is_unknown(ids.drop_last(), id);
        let prev = without_id(ids.drop_last(), id);
        assert forall|other: Seq<char>| other != id implies (without_id(ids, id).contains(other)
            <==> ids.contains(other)) by {
            if ids.contains(other) {
                let j = choose|j: int| 0 <= j < ids.len() && ids[j] == other;
                if j < ids.len() - 1 {
                    assert(ids.drop_last()[j] == other);
                    assert(ids.drop_last().contains(other));
                    assert(prev.contains(other));
                    let k = choose|k: int| 0 <= k < prev.len() && prev[k] == other;
                    if ids.last() != id {
                        assert(without_id(ids, id) == prev.push(ids.last()));
                        assert(without_id(ids, id)[k] == other);
                    }
                } else {
                    assert(without_id(ids, id) == prev.push(ids.last()));
                    assert(without_id(ids, id)[prev.len() as int] == other);
                }
            }
            if without_id(ids, id).contains(other) {
                let k = choose|k: int|
                    0 <= k < without_id(ids, id).len() && without_id(ids, id)[k] == other;
                if k < prev.len() {
                    assert(prev[k] == other);
                    assert(prev.contains(other));
                    assert(ids.drop_last().contains(other));
                    let j = choose|j: int| 0 <= j < ids.drop_last().len() && ids.drop_last()[j] == other;
                    assert(ids[j] == other);
                } else {
                    assert(ids[ids.len() - 1] == other);
                }
            }
        }
        if without_id(ids, id).contains(id) {
            let k = choose|k: int| 0 <= k < without_id(ids, id).len() && without_id(ids, id)[k] == id;
            if k < prev.len() {
                assert(prev[k] == id);
            }
        }
    }
}

/// The file picker's request id is known to the plugin until it is removed.
pub proof fn law_filepicker_id_is_known(s: StateView, id: Seq<char>)
    ensures
        s.after_launch_filepicker(id).state.request_ids.contains(id),
{
    let ids = s.after_launch_filepicker(id).state.request_ids;
    assert(ids[ids.len() - 1] == id);
}

/// A session that Ctrl+Enter creates from a directory entry has a name
/// that zellij accepts, that differs from the current session's, and that
/// no running session has (when the next number fits in a `u32`).
pub proof fn law_quick_creation_name_is_valid(s: StateView, path: Seq<char>, session_name: Seq<char>)
    requires
        s.selected_item() == Some(ItemView::Directory { path, session_name }),
        s.after_quick_creation().1.len() > 0,
        highest_increment(
            session_names(s.session_manager.sessions),
            session_name,
            s.config.session_separator,
        ) + 1 <= u32::MAX,
    ensures
        ({
            let name = s.new_name_for(session_name);
            &&& name_problem(name) is None
            &&& s.current_session_name != Some(name)
            &&& !session_names(s.session_manager.sessions).contains(name)
            &&& s.after_quick_creation().0 == s
            &&& s.after_quick_creation().1.last() == CommandView::HideSelf
        }),
{
    lemma_incremented_name_is_fresh(
        session_names(s.session_manager.sessions),
        session_name,
        s.config.session_separator,
    );
}

/// Confirming a pending deletion clears it; cancelling it clears it and
/// asks the host nothing.
pub proof fn law_deletion_answer_clears_pending(s: StateView, key: KeyWithModifier)
    requires
        s.session_manager.pending_deletion is Some,
        key.spec_no_modifiers(),
        key.bare_key == BareKey::Char('y') || key.bare_key == BareKey::Char('n') || key.bare_key
            == BareKey::Esc,
    ensures
        s.deletion_key(key).state.session_manager.pending_deletion is None,
        s.deletion_key(key).should_render,
        key.bare_key != BareKey::Char('y') ==> s.deletion_key(key).commands.len() == 0,
        key.bare_key == BareKey::Char('y') ==> s.deletion_key(key).commands.len() == 1,
{
}

/// On the main screen with no search, Esc and Ctrl+c hide the plugin and
/// change nothing.
pub proof fn law_main_escape_hides(s: StateView, key: KeyWithModifier)
    requires
        !s.is_searching(),
        (key.bare_key == BareKey::Esc && key.spec_no_modifiers()) || (key.bare_key == BareKey::Char(
            'c',
        ) && key.ctrl),
    ensures
        s.main_key(key) == (KeyStep {
            state: s,
            should_render: false,
            commands: seq![CommandView::HideSelf],
        }),
{
}

/// A key press never changes what the host and zoxide reported, the
/// configuration, the colours or the current session's name; the known
/// request ids stay, and at most the given one is added.
pub proof fn law_keys_leave_reported_data_unchanged(s: StateView, key: KeyWithModifier, id: Seq<char>)
    ensures
        ({
            let t = s.key_step(key, id).state;
            &&& t.config == s.config
            &&& t.session_manager.sessions == s.session_manager.sessions
            &&& t.session_manager.resurrectable_sessions == s.session_manager.resurrectable_sessions
            &&& t.zoxide_directories == s.zoxide_directories
            &&& t.colors == s.colors
            &&& t.current_session_name == s.current_session_name
            &&& t.request_ids == s.request_ids || t.request_ids == s.request_ids.push(id)
        }),
{
}

/// Ctrl+Enter on the main screen either shows exactly one of its four
/// messages and asks the host nothing, or asks for one session switch
/// (plain or with a layout) followed by hiding the plugin; nothing else of
/// the state changes.
pub proof fn law_quick_creation_outcome(s: StateView)
    ensures
        ({
            let (t, commands) = s.after_quick_creation();
            ||| {
                &&& commands.len() == 0
                &&& t.error matches Some(m) && (m == no_selection_message() || m
                    == name_too_long_message() || m == name_has_slash_message() || m
                    == same_session_message())
                &&& t == StateView { error: t.error, ..s }
            }
            ||| {
                &&& commands.len() == 2
                &&& (commands[0] is SwitchSession || commands[0] is SwitchSessionWithLayout)
                &&& commands[1] == CommandView::HideSelf
                &&& t == s
            }
        }),
{
}

/// Every key on the new-session screen asks for a redraw, and Ctrl+f is
/// exactly the opening of the file picker, which leaves the screen as it is.
pub proof fn law_new_session_keys_redraw(s: StateView, key: KeyWithModifier, id: Seq<char>)
    ensures
        s.new_session_key(key, id).should_render,
        key.bare_key == BareKey::Char('f') && key.ctrl ==> s.new_session_key(key, id)
            == s.after_launch_filepicker(id),
        s.after_launch_filepicker(id).state.active_screen == s.active_screen,
{
}

/// The selection after `k` presses of Down in a list of `len` entries.
pub open spec fn down_steps(selected: Option<usize>, len: nat, k: nat) -> Option<usize>
    decreases k,
{
    if k == 0 {
        selected
    } else {
        select_down(down_steps(selected, len, (k - 1) as nat), len)
    }
}

/// The main-screen state after `k` presses of Down.
pub open spec fn main_down_steps(s: StateView, k: nat) -> StateView
    decreases k,
{
    if k == 0 {
        s
    } else {
        main_down_steps(s, (k - 1) as nat).moved_down()
    }
}

/// `a` presses of Down and then `b` more are `a + b` presses.
pub proof fn lemma_down_steps_compose(selected: Option<usize>, len: nat, a: nat, b: nat)
    ensures
        down_steps(down_steps(selected, len, a), len, b) == down_steps(selected, len, a + b),
    decreases b,
{
    if b > 0 {
        lemma_down_steps_compose(selected, len, a, (b - 1) as nat);
        assert((a + b - 1) as nat == a + (b - 1) as nat);
    }
}

/// From entry `i`, `k` presses of Down that stay before the end reach
/// entry `i + k`.
pub proof fn lemma_down_steps_advance(i: usize, len: nat, k: nat)
    requires
        i + k < len,
        len <= usize::MAX,
    ensures
        down_steps(Some(i), len, k) == Some((i + k) as usize),
    decreases k,
{
    if k > 0 {
        lemma_down_steps_advance(i, len, (k - 1) as nat);
    }
}

/// In a list of `len` entries, `len` presses of Down bring the selection
/// back to the entry where it started.
pub proof fn law_down_cycles_through_list(i: usize, len: nat)
    requires
        i < len,
        len <= usize::MAX,
    ensures
        down_steps(Some(i), len, len) == Some(i),
{
    let a = (len - 1 - i) as nat;
    lemma_down_steps_advance(i, len, a);
    assert(down_steps(Some(i), len, a + 1) == Some(0usize));
    if i > 0 {
        lemma_down_steps_advance(0, len, i as nat);
    }
    lemma_down_steps_compose(Some(i), len, a + 1, i as nat);
    assert(a + 1 + i == len);
}

/// Presses of Down with no search going on change only the selection.
pub proof fn lemma_main_down_steps(s: StateView, k: nat)
    requires
        !s.is_searching(),
    ensures
        main_down_steps(s, k) == (StateView {
            selected_index: down_steps(s.selected_index, s.combined_items().len(), k),
            ..s
        }),
    decreases k,
{
    if k > 0 {
        lemma_main_down_steps(s, (k - 1) as nat);
        let p = main_down_steps(s, (k - 1) as nat);
        assert(p.combined_items() == s.combined_items());
        assert(p.is_searching() == s.is_searching());
    }
}

/// On the main screen with no search going on, as many presses of Down as
/// the list has entries give back the same state.
pub proof fn law_main_down_cycles_through_list(s: StateView)
    requires
        !s.is_searching(),
        s.selected_index matches Some(i) && i < s.combined_items().len(),
        s.combined_items().len() <= usize::MAX,
    ensures
        main_down_steps(s, s.combined_items().len()) == s,
{
    let len = s.combined_items().len();
    lemma_main_down_steps(s, len);
    law_down_cycles_through_list(s.selected_index->0, len);
    assert(main_down_steps(s, len) =~= s);
}

/// The main screen takes the key: no error is shown, no deletion waits
/// for an answer, and the list is the screen shown.
pub open spec fn on_main_screen(s: StateView) -> bool {
    &&& s.error is None
    &&& s.session_manager.pending_deletion is None
    &&& s.active_screen == ActiveScreen::Main
}

/// The zoxide directory `d` carries the session name `name`, exactly or as
/// a numbered version of its own name.
pub open spec fn carries_name(d: crate::zoxide::DirectoryView, name: Seq<char>, sep: Seq<char>) -> bool {
    d.session_name == name || is_incremented(name, d.session_name, sep)
}

/// The directory listed beside a session is that of the first zoxide
/// directory carrying its name.
proof fn lemma_directory_of_first_carrier(
    dirs: Seq<crate::zoxide::DirectoryView>,
    name: Seq<char>,
    sep: Seq<char>,
    j: int,
)
    requires
        0 <= j < dirs.len(),
        carries_name(dirs[j], name, sep),
        forall|k: int| 0 <= k < j ==> !carries_name(#[trigger] dirs[k], name, sep),
    ensures
        directory_for(dirs, name, sep) == dirs[j].directory,
    decreases j,
{
    if j > 0 {
        assert(!carries_name(dirs[0], name, sep));
        assert forall|k: int| 0 <= k < j - 1 implies !carries_name(
            #[trigger] dirs.drop_first()[k],
            name,
            sep,
        ) by {
            assert(dirs.drop_first()[k] == dirs[k + 1]);
        }
        lemma_directory_of_first_carrier(dirs.drop_first(), name, sep, j - 1);
    }
}

/// With no zoxide directory carrying its name, a session is listed with an
/// empty directory.
proof fn lemma_directory_of_no_carrier(
    dirs: Seq<crate::zoxide::DirectoryView>,
    name: Seq<char>,
    sep: Seq<char>,
)
    requires
        forall|k: int| 0 <= k < dirs.len() ==> !carries_name(#[trigger] dirs[k], name, sep),
    ensures
        directory_for(dirs, name, sep) == Seq::<char>::empty(),
    decreases dirs.len(),
{
    if dirs.len() > 0 {
        assert(!carries_name(dirs[0], name, sep));
        assert forall|k: int| 0 <= k < dirs.len() - 1 implies !carries_name(
            #[trigger] dirs.drop_first()[k],
            name,
            sep,
        ) by {
            assert(dirs.drop_first()[k] == dirs[k + 1]);
        }
        lemma_directory_of_no_carrier(dirs.drop_first(), name, sep);
    }
}

/// The `i`-th entry of the list is the `i`-th running session, listed with
/// the path of the first zoxide directory whose session name is the
/// session's name or a numbered version of it (`proj` and `proj.2` both
/// carry `proj`'s path), and with an empty path when no directory does.
pub proof fn law_session_entry_shows_its_directory(s: StateView, i: int)
    requires
        0 <= i < s.session_manager.sessions.len(),
    ensures
        ({
            let session = s.session_manager.sessions[i];
            let dirs = s.zoxide_directories;
            let sep = s.config.session_separator;
            &&& forall|j: int|
                0 <= j < dirs.len() && carries_name(#[trigger] dirs[j], session.name, sep) && (forall|
                    k: int,
                |
                    0 <= k < j ==> !carries_name(#[trigger] dirs[k], session.name, sep))
                    ==> s.combined_items()[i] == ItemView::ExistingSession {
                    name: session.name,
                    directory: dirs[j].directory,
                    is_current: session.is_current_session,
                }
            &&& (forall|k: int| 0 <= k < dirs.len() ==> !carries_name(#[trigger] dirs[k], session.name, sep))
                ==> s.combined_items()[i] == ItemView::ExistingSession {
                name: session.name,
                directory: Seq::<char>::empty(),
                is_current: session.is_current_session,
            }
        }),
{
    let session = s.session_manager.sessions[i];
    let dirs = s.zoxide_directories;
    let sep = s.config.session_separator;
    let existing = crate::model::existing_items(s.session_manager.sessions, dirs, sep);
    assert(s.combined_items()[i] == existing[i]);
    assert forall|j: int|
        0 <= j < dirs.len() && carries_name(#[trigger] dirs[j], session.name, sep) && (forall|k: int|
            0 <= k < j ==> !carries_name(#[trigger] dirs[k], session.name, sep)) implies s.combined_items()[i]
        == ItemView::ExistingSession {
        name: session.name,
        directory: dirs[j].directory,
        is_current: session.is_current_session,
    } by {
        lemma_directory_of_first_carrier(dirs, session.name, sep, j);
    }
    if forall|k: int| 0 <= k < dirs.len() ==> !carries_name(#[trigger] dirs[k], session.name, sep) {
        lemma_directory_of_no_carrier(dirs, session.name, sep);
    }
}

/// A session named exactly like a zoxide directory's session name is listed
/// with a directory: that of the first directory carrying its name.
pub proof fn law_session_named_like_directory_gets_a_path(s: StateView, i: int, j: int)
    requires
        0 <= i < s.session_manager.sessions.len(),
        0 <= j < s.zoxide_directories.len(),
        s.zoxide_directories[j].session_name == s.session_manager.sessions[i].name,
    ensures
        (exists|k: int|
            0 <= k <= j && carries_name(
                #[trigger] s.zoxide_directories[k],
                s.session_manager.sessions[i].name,
                s.config.session_separator,
            ) && s.combined_items()[i] == (ItemView::ExistingSession {
                name: s.session_manager.sessions[i].name,
                directory: s.zoxide_directories[k].directory,
                is_current: s.session_manager.sessions[i].is_current_session,
            })),
{
    let name = s.session_manager.sessions[i].name;
    let sep = s.config.session_separator;
    let dirs = s.zoxide_directories;
    let k = lemma_first_carrier_exists(dirs, name, sep, j);
    law_session_entry_shows_its_directory(s, i);
    assert(carries_name(dirs[k], name, sep));
}

/// The first zoxide directory carrying a name, given one at `j` does.
proof fn lemma_first_carrier_exists(
    dirs: Seq<crate::zoxide::DirectoryView>,
    name: Seq<char>,
    sep: Seq<char>,
    j: int,
) -> (k: int)
    requires
        0 <= j < dirs.len(),
        carries_name(dirs[j], name, sep),
    ensures
        0 <= k <= j,
        carries_name(dirs[k], name, sep),
        forall|m: int| 0 <= m < k ==> !carries_name(#[trigger] dirs[m], name, sep),
    decreases j,
{
    if exists|m: int| 0 <= m < j && carries_name(#[trigger] dirs[m], name, sep) {
        let m = choose|m: int| 0 <= m < j && carries_name(#[trigger] dirs[m], name, sep);
        lemma_first_carrier_exists(dirs, name, sep, m)
    } else {
        j
    }
}

/// Enter on the main screen with a running or a resurrectable session
/// selected switches to that session and hides the plugin, changing nothing
/// in the state.
pub proof fn law_enter_switches_to_selected_session(
    s: StateView,
    key: KeyWithModifier,
    id: Seq<char>,
    name: Seq<char>,
)
    requires
        on_main_screen(s),
        key.bare_key == BareKey::Enter,
        key.spec_no_modifiers(),
        s.selected_item() matches Some(item) && (item is ExistingSession || item is ResurrectableSession)
            && item_name(item) == name,
    ensures
        s.key_step(key, id) == (KeyStep {
            state: s,
            should_render: true,
            commands: seq![
                CommandView::SwitchSession { name: Some(name), cwd: None },
                CommandView::HideSelf,
            ],
        }),
{
}

/// Ctrl+Enter on the main screen with a running or a resurrectable session
/// selected switches to that session and hides the plugin, with no error.
pub proof fn law_quick_creation_switches_to_selected_session(
    s: StateView,
    key: KeyWithModifier,
    id: Seq<char>,
    name: Seq<char>,
)
    requires
        on_main_screen(s),
        key.bare_key == BareKey::Enter,
        key.ctrl,
        s.selected_item() matches Some(item) && (item is ExistingSession || item is ResurrectableSession)
            && item_name(item) == name,
    ensures
        s.key_step(key, id) == (KeyStep {
            state: s,
            should_render: true,
            commands: seq![
                CommandView::SwitchSession { name: Some(name), cwd: None },
                CommandView::HideSelf,
            ],
        }),
{
}

/// Ctrl+Enter on the main screen asks to select a directory exactly when
/// nothing is selected.
pub proof fn law_quick_creation_asks_for_selection_only_without_one(
    s: StateView,
    key: KeyWithModifier,
    id: Seq<char>,
)
    requires
        on_main_screen(s),
        key.bare_key == BareKey::Enter,
        key.ctrl,
    ensures
        (s.key_step(key, id).state.error == Some(no_selection_message())) <==> s.selected_item() is None,
{
    reveal_strlit("Please select a directory");
    reveal_strlit("Session name must be shorter than 108 bytes");
    reveal_strlit("Session name cannot contain '/'");
    reveal_strlit("Cannot create session with same name as current session");
    assert(no_selection_message().len() == 25);
    assert(name_too_long_message().len() == 43);
    assert(name_has_slash_message().len() == 31);
    assert(same_session_message().len() == 55);
}

/// Delete on the main screen marks the selected session for deletion; with
/// a directory entry selected, or nothing, it changes nothing. Either way
/// nothing is sent to the host.
pub proof fn law_delete_marks_only_sessions(s: StateView, key: KeyWithModifier, id: Seq<char>)
    requires
        on_main_screen(s),
        key.bare_key == BareKey::Delete,
        key.spec_no_modifiers(),
    ensures
        s.key_step(key, id).commands.len() == 0,
        s.key_step(key, id).should_render,
        match s.selected_item() {
            Some(ItemView::ExistingSession { name, .. }) => s.key_step(key, id).state == (StateView {
                session_manager: (crate::session::SessionManagerView {
                    pending_deletion: Some(name),
                    ..s.session_manager
                }),
                ..s
            }),
            Some(ItemView::ResurrectableSession { name, .. }) => s.key_step(key, id).state
                == (StateView {
                session_manager: (crate::session::SessionManagerView {
                    pending_deletion: Some(name),
                    ..s.session_manager
                }),
                ..s
            }),
            _ => s.key_step(key, id).state == s,
        },
        s.key_step(key, id).state.session_manager.pending_deletion matches Some(n) ==> (
        s.selected_item() matches Some(item) && (item is ExistingSession || item is ResurrectableSession)
            && item_name(item) == n),
{
}

/// Backspace on the main screen searches the whole list again for the
/// shortened term, whatever the current results are; a one-character term
/// ends the search.
pub proof fn law_backspace_searches_full_list(s: StateView, key: KeyWithModifier, id: Seq<char>)
    requires
        on_main_screen(s),
        key.bare_key == BareKey::Backspace,
        key.spec_no_modifiers(),
        s.search_engine.search_term.len() >= 1,
    ensures
        ({
            let t = s.search_engine.search_term;
            let next = s.key_step(key, id).state.search_engine;
            &&& t.len() >= 2 ==> next.search_term == t.drop_last() && next.results == matching_items(
                t.drop_last(),
                s.combined_items(),
            ) && next.selected_index == (if next.results.len() > 0 {
                Some(0usize)
            } else {
                None
            })
            &&& t.len() == 1 ==> next.search_term.len() == 0 && next.results.len() == 0
                && next.selected_index is None
        }),
{
    let t = s.search_engine.search_term;
    assert(t.len() == 1 ==> t.drop_last().len() == 0);
}

} // verus!
