//! Zoxide directories and the search over the plugin's list.

use crate::session::{ItemView, SessionItem};
use crate::text::{chars_of, is_subsequence, pop_char, push_char, string_of, subsequence_match};
use vstd::prelude::*;

verus! {

/// A directory that zoxide knows, with the session name derived from it.
#[derive(Debug, PartialEq)]
pub struct ZoxideDirectory {
    pub directory: String,
    pub session_name: String,
}

/// The mathematical value of a zoxide directory.
#[verifier::ext_equal]
pub struct DirectoryView {
    pub directory: Seq<char>,
    pub session_name: Seq<char>,
}

impl View for ZoxideDirectory {
    type V = DirectoryView;

    open spec fn view(&self) -> DirectoryView {
        DirectoryView { directory: self.directory@, session_name: self.session_name@ }
    }
}

impl DeepView for ZoxideDirectory {
    type V = DirectoryView;

    open spec fn deep_view(&self) -> DirectoryView {
        self@
    }
}

/// The lines of a text that are already ended by a newline, and the text
/// after the last newline.
pub open spec fn line_scan(text: Seq<char>) -> (Seq<Seq<char>>, Seq<char>)
    decreases text.len(),
{
    if text.len() == 0 {
        (seq![], seq![])
    } else {
        let (done, current) = line_scan(text.drop_last());
        if text.last() == '\n' {
            (done.push(current), seq![])
        } else {
            (done, current.push(text.last()))
        }
    }
}

/// The non-empty lines of a text, with a carriage return before a newline
/// kept as part of its line.
pub open spec fn text_lines(text: Seq<char>) -> Seq<Seq<char>> {
    let (done, current) = line_scan(text);
    done.push(current).filter(|l: Seq<char>| l.len() > 0)
}

/// The last component of a path: what follows its last `/`.
pub open spec fn base_name(path: Seq<char>) -> Seq<char>
    decreases path.len(),
{
    if path.len() == 0 || path.last() == '/' {
        seq![]
    } else {
        base_name(path.drop_last()).push(path.last())
    }
}

/// The session name derived from a directory: its last component, or the
/// whole path when that is empty.
pub open spec fn session_name_for(path: Seq<char>) -> Seq<char> {
    if base_name(path).len() > 0 {
        base_name(path)
    } else {
        path
    }
}

/// The directories that `zoxide query --list` printed, one path per line,
/// in order.
pub open spec fn parsed_directories(output: Seq<char>) -> Seq<DirectoryView> {
    text_lines(output).map_values(
        |l: Seq<char>| DirectoryView { directory: l, session_name: session_name_for(l) },
    )
}

/// The text of a list entry that a search term is matched against: the
/// name of a session, the path of a directory.
pub open spec fn search_text(item: ItemView) -> Seq<char> {
    match item {
        ItemView::ExistingSession { name, .. } => name,
        ItemView::ResurrectableSession { name, .. } => name,
        ItemView::Directory { path, .. } => path,
    }
}

/// The entry matches the term: the term's characters occur in its text in
/// order.
pub open spec fn item_matches(term: Seq<char>, item: ItemView) -> bool {
    is_subsequence(term, search_text(item))
}

/// The entries that match the term, in their order.
pub open spec fn matching_items(term: Seq<char>, items: Seq<ItemView>) -> Seq<ItemView>
    decreases items.len(),
{
    if items.len() == 0 {
        seq![]
    } else {
        let prev = matching_items(term, items.drop_last());
        if item_matches(term, items.last()) {
            prev.push(items.last())
        } else {
            prev
        }
    }
}

/// Selection after moving up in a list of `len` entries: from the first
/// entry (or from no selection) to the last, otherwise one up.
pub open spec fn select_up(selected: Option<usize>, len: nat) -> Option<usize> {
    if len == 0 {
        selected
    } else {
        match selected {
            Some(i) => if i == 0 {
                Some((len - 1) as usize)
            } else {
                Some((i - 1) as usize)
            },
            None => Some((len - 1) as usize),
        }
    }
}

/// Selection after moving down in a list of `len` entries: from the last
/// entry to the first, from no selection to the first, otherwise one down.
pub open spec fn select_down(selected: Option<usize>, len: nat) -> Option<usize> {
    if len == 0 {
        selected
    } else {
        match selected {
            Some(i) => if i == len - 1 {
                Some(0)
            } else {
                Some((i + 1) as usize)
            },
            None => Some(0),
        }
    }
}

/// The session name derived from a directory path.
pub fn session_name_of(path: &Vec<char>) -> (res: Vec<char>)
    ensures
        res@ == session_name_for(path@),
{
    let mut start = path.len();
    assert(path@.take(start as int) == path@);
    assert(path@.subrange(start as int, path.len() as int) =~= Seq::<char>::empty());
    while start > 0 && path[start - 1] != '/'
        invariant
            start <= path.len(),
            base_name(path@) == base_name(path@.take(start as int)) + path@.subrange(
                start as int,
                path.len() as int,
            ),
        decreases start,
    {
        proof {
            let t = path@.take(start as int);
            assert(t.drop_last() == path@.take(start - 1));
            assert(base_name(t) == base_name(path@.take(start - 1)).push(path@[start - 1]));
            assert(path@.subrange(start - 1, path.len() as int) == seq![path@[start - 1]]
                + path@.subrange(start as int, path.len() as int));
        }
        start = start - 1;
    }
    proof {
        assert(base_name(path@.take(start as int)) == Seq::<char>::empty());
        assert(path@.take(path.len() as int) == path@);
    }
    let mut name: Vec<char> = Vec::new();
    let mut i = start;
    while i < path.len()
        invariant
            start <= i <= path.len(),
            name@ == path@.subrange(start as int, i as int),
        decreases path.len() - i,
    {
        name.push(path[i]);
        i = i + 1;
    }
    proof {
        assert(base_name(path@) =~= name@);
    }
    if name.len() > 0 {
        name
    } else {
        let mut whole: Vec<char> = Vec::new();
        for k in 0..path.len()
            invariant
                whole@ == path@.take(k as int),
        {
            whole.push(path[k]);
            proof {
                assert(path@.take(k + 1) == path@.take(k as int).push(path@[k as int]));
            }
        }
        proof {
            assert(path@.take(path.len() as int) == path@);
        }
        whole
    }
}

/// The directory entry for one line of zoxide's output.
fn directory_of_line(line: &Vec<char>) -> (res: ZoxideDirectory)
    ensures
        res@ == (DirectoryView { directory: line@, session_name: session_name_for(line@) }),
{
    let name = session_name_of(line);
    ZoxideDirectory { directory: string_of(line), session_name: string_of(&name) }
}

/// The directories that `zoxide query --list` printed, one path per line.
pub fn parse_zoxide_output(output: &str) -> (res: Vec<ZoxideDirectory>)
    ensures
        res.deep_view() == parsed_directories(output@),
{
    let text = chars_of(output);
    let mut dirs: Vec<ZoxideDirectory> = Vec::new();
    let mut current: Vec<char> = Vec::new();
    let ghost f = |l: Seq<char>| l.len() > 0;
    let ghost g = |l: Seq<char>| DirectoryView { directory: l, session_name: session_name_for(l) };
    for i in 0..text.len()
        invariant
            text@ == output@,
            f == (|l: Seq<char>| l.len() > 0),
            g == (|l: Seq<char>| DirectoryView { directory: l, session_name: session_name_for(l) }),
            line_scan(text@.take(i as int)).1 == current@,
            dirs.deep_view() == line_scan(text@.take(i as int)).0.filter(f).map_values(g),
    {
        proof {
            assert(text@.take(i + 1).drop_last() == text@.take(i as int));
            assert(text@.take(i + 1).last() == text@[i as int]);
        }
        if text[i] == '\n' {
            let ghost done = line_scan(text@.take(i as int)).0;
            proof {
                assert(done.push(current@).filter(f) == if f(current@) {
                    done.filter(f).push(current@)
                } else {
                    done.filter(f)
                }) by {
                    reveal_with_fuel(Seq::filter, 1);
                    assert(done.push(current@).drop_last() == done);
                }
            }
            if current.len() > 0 {
                let ghost before = dirs.deep_view();
                let d = directory_of_line(&current);
                dirs.push(d);
                proof {
                    assert(dirs.deep_view() =~= before.push(g(current@)));
                    assert(done.filter(f).push(current@).map_values(g) =~= done.filter(f).map_values(
                        g,
                    ).push(g(current@)));
                }
            }
            current = Vec::new();
            proof {
                assert(current@ =~= Seq::<char>::empty());
            }
        } else {
            current.push(text[i]);
        }
    }
    proof {
        assert(text@.take(text.len() as int) == text@);
    }
    let ghost done = line_scan(text@).0;
    proof {
        assert(done.push(current@).filter(f) == if f(current@) {
            done.filter(f).push(current@)
        } else {
            done.filter(f)
        }) by {
            reveal_with_fuel(Seq::filter, 1);
            assert(done.push(current@).drop_last() == done);
        }
    }
    if current.len() > 0 {
        let ghost before = dirs.deep_view();
        let d = directory_of_line(&current);
        dirs.push(d);
        proof {
            assert(dirs.deep_view() =~= before.push(g(current@)));
            assert(done.filter(f).push(current@).map_values(g) =~= done.filter(f).map_values(g).push(
                g(current@),
            ));
        }
    }
    dirs
}

/// The state of the search.
pub struct SearchEngine {
    search_term: String,
    results: Vec<SessionItem>,
    selected_index: Option<usize>,
}

/// The mathematical value of the search.
#[verifier::ext_equal]
pub struct SearchView {
    pub search_term: Seq<char>,
    pub results: Seq<ItemView>,
    pub selected_index: Option<usize>,
}

impl SearchView {
    /// The selection, when there is one, is an entry of the results.
    pub open spec fn wf(self) -> bool {
        self.selected_index matches Some(i) ==> i < self.results.len()
    }

    /// A search is going on.
    pub open spec fn is_searching(self) -> bool {
        self.search_term.len() > 0
    }

    /// The selected result, if any.
    pub open spec fn selected_item(self) -> Option<ItemView> {
        match self.selected_index {
            Some(i) => if i < self.results.len() {
                Some(self.results[i as int])
            } else {
                None
            },
            None => None,
        }
    }
}

/// No search.
pub open spec fn cleared_search() -> SearchView {
    SearchView { search_term: seq![], results: seq![], selected_index: None }
}

/// The search for `term` over `items`, with the first result selected.
pub open spec fn searched(term: Seq<char>, items: Seq<ItemView>) -> SearchView {
    let results = matching_items(term, items);
    SearchView {
        search_term: term,
        results,
        selected_index: if results.len() > 0 {
            Some(0)
        } else {
            None
        },
    }
}

/// The search after the last character of the term is taken off; with an
/// empty term it ends.
pub open spec fn after_backspace(s: SearchView, items: Seq<ItemView>) -> SearchView {
    let term = if s.search_term.len() > 0 {
        s.search_term.drop_last()
    } else {
        s.search_term
    };
    if term.len() == 0 {
        cleared_search()
    } else {
        searched(term, items)
    }
}

impl View for SearchEngine {
    type V = SearchView;

    closed spec fn view(&self) -> SearchView {
        SearchView {
            search_term: self.search_term@,
            results: self.results.deep_view(),
            selected_index: self.selected_index,
        }
    }
}

impl SearchEngine {
    #[verifier::type_invariant]
    closed spec fn inv(self) -> bool {
        self@.wf()
    }

    /// No search.
    pub fn new() -> (res: Self)
        ensures
            res@ == cleared_search(),
    {
        let res = SearchEngine { search_term: String::new(), results: Vec::new(), selected_index: None };
        proof {
            assert(res@.search_term =~= cleared_search().search_term);
            assert(res@.results =~= cleared_search().results);
        }
        res
    }

    /// A search is going on.
    pub fn is_searching(&self) -> (res: bool)
        ensures
            res == self@.is_searching(),
    {
        self.search_term.as_str().unicode_len() > 0
    }

    /// The search term.
    pub fn search_term(&self) -> (res: &String)
        ensures
            res@ == self@.search_term,
    {
        &self.search_term
    }

    /// The entries that match the term.
    pub fn results(&self) -> (res: &Vec<SessionItem>)
        ensures
            res.deep_view() == self@.results,
    {
        &self.results
    }

    /// The position of the selected result.
    pub fn selected_index(&self) -> (res: Option<usize>)
        ensures
            res == self@.selected_index,
    {
        self.selected_index
    }

    /// A copy of the selected result.
    pub fn selected_item(&self) -> (res: Option<SessionItem>)
        ensures
            res.deep_view() == self@.selected_item(),
    {
        match self.selected_index {
            Some(i) => if i < self.results.len() {
                Some(self.results[i].clone())
            } else {
                None
            },
            None => None,
        }
    }

    /// Ends the search.
    pub fn clear(&mut self)
        ensures
            final(self)@ == cleared_search(),
    {
        *self = SearchEngine::new();
    }

    /// Searches `items` for `term` and selects the first result.
    pub fn update_search(&mut self, term: String, items: &Vec<SessionItem>)
        ensures
            final(self)@ == searched(term@, items.deep_view()),
    {
        let t = chars_of(term.as_str());
        let mut results: Vec<SessionItem> = Vec::new();
        let ghost iv = items.deep_view();
        for i in 0..items.len()
            invariant
                iv == items.deep_view(),
                t@ == term@,
                results.deep_view() == matching_items(term@, iv.take(i as int)),
        {
            let text = match &items[i] {
                SessionItem::ExistingSession { name, .. } => chars_of(name.as_str()),
                SessionItem::ResurrectableSession { name, .. } => chars_of(name.as_str()),
                SessionItem::Directory { path, .. } => chars_of(path.as_str()),
            };
            proof {
                assert(iv.take(i + 1).drop_last() == iv.take(i as int));
                assert(iv.take(i + 1).last() == items@[i as int]@);
                assert(text@ == search_text(items@[i as int]@));
            }
            if subsequence_match(&t, &text) {
                results.push(items[i].clone());
                proof {
                    assert(results.deep_view() =~= matching_items(term@, iv.take(i + 1)));
                }
            }
        }
        proof {
            assert(iv.take(items.len() as int) == iv);
        }
        let selected_index = if results.len() > 0 {
            Some(0)
        } else {
            None
        };
        *self = SearchEngine { search_term: term, results, selected_index };
    }

    /// Adds a character to the term and searches again.
    pub fn add_char(&mut self, c: char, items: &Vec<SessionItem>)
        ensures
            final(self)@ == searched(old(self)@.search_term.push(c), items.deep_view()),
    {
        let mut term = self.search_term.clone();
        push_char(&mut term, c);
        self.update_search(term, items);
    }

    /// Takes the last character off the term and searches again; an empty
    /// term ends the search.
    pub fn backspace(&mut self, items: &Vec<SessionItem>)
        ensures
            final(self)@ == after_backspace(old(self)@, items.deep_view()),
    {
        let mut term = self.search_term.clone();
        let _ = pop_char(&mut term);
        if term.as_str().unicode_len() == 0 {
            self.clear();
        } else {
            self.update_search(term, items);
        }
    }

    /// Moves the selection one result up, from the first to the last.
    pub fn move_selection_up(&mut self)
        ensures
            final(self)@ == (SearchView {
                selected_index: select_up(old(self)@.selected_index, old(self)@.results.len()),
                ..old(self)@
            }),
    {
        proof {
            use_type_invariant(&*self);
        }
        let len = self.results.len();
        if len == 0 {
            return;
        }
        let selected = match self.selected_index {
            Some(i) => if i == 0 {
                len - 1
            } else {
                i - 1
            },
            None => len - 1,
        };
        self.selected_index = Some(selected);
    }

    /// Moves the selection one result down, from the last to the first.
    pub fn move_selection_down(&mut self)
        ensures
            final(self)@ == (SearchView {
                selected_index: select_down(old(self)@.selected_index, old(self)@.results.len()),
                ..old(self)@
            }),
    {
        proof {
            use_type_invariant(&*self);
        }
        let len = self.results.len();
        if len == 0 {
            return;
        }
        let selected = match self.selected_index {
            Some(i) => if i == len - 1 {
                0
            } else {
                i + 1
            },
            None => 0,
        };
        self.selected_index = Some(selected);
    }
}

} // verus!
