use vstd::prelude::*;

use crate::app::{
    failure_text, first_match, is_first_match, AppView, CommandView, EntryView, InputMode, Key,
};
use crate::paths::{joined, parent_of};
use crate::stateful_list::{next_selection, previous_selection};


verus! {

/// The selection after moving forward `k` times from `sel` in a list of `len` items.
pub open spec fn advance_times(sel: Option<usize>, len: nat, k: nat) -> Option<usize>
    decreases k,
{
    if k == 0 {
        sel
    } else {
        next_selection(advance_times(sel, len, (k - 1) as nat), len)
    }
}

proof fn lemma_advance_compose(sel: Option<usize>, len: nat, a: nat, b: nat)
    ensures
        advance_times(sel, len, a + b) == advance_times(advance_times(sel, len, a), len, b),
    decreases b,
{
    if b > 0 {
        lemma_advance_compose(sel, len, a, (b - 1) as nat);
        assert((a + b - 1) as nat == a + (b - 1) as nat);
    }
}

proof fn lemma_advance_climb(i: usize, len: nat, k: nat)
    requires
        i + k < len,
        len <= usize::MAX,
    ensures
        advance_times(Some(i), len, k) == Some((i + k) as usize),
    decreases k,
{
    if k > 0 {
        lemma_advance_climb(i, len, (k - 1) as nat);
    }
}

proof fn lemma_advance_cycle(i: usize, len: nat)
    requires
        i < len,
        len <= usize::MAX,
    ensures
        advance_times(Some(i), len, len) == Some(i),
{
    let up = (len - i) as nat;
    lemma_advance_climb(i, len, (up - 1) as nat);
    assert(advance_times(Some(i), len, up) == Some(0usize));
    lemma_advance_compose(Some(i), len, up, i as nat);
    if i > 0 {
        lemma_advance_climb(0, len, i as nat);
    }
    assert(up + i == len);
}

/// In a non-empty list of `len` items, moving forward `len` times from any
/// selection `i` comes back to `i`; from no selection the first move selects
/// the first item, so `len + 1` moves come back to it; and moving back after
/// moving forward returns to where the selection was.
pub proof fn lemma_wraparound(len: nat, i: usize)
    requires
        0 < len <= usize::MAX,
        i < len,
    ensures
        advance_times(Some(i), len, len) == Some(i),
        advance_times(None, len, 1) == Some(0usize),
        advance_times(None, len, len + 1) == Some(0usize),
        previous_selection(next_selection(Some(i), len), len) == Some(i),
        next_selection(previous_selection(Some(i), len), len) == Some(i),
{
    lemma_advance_cycle(i, len);
    lemma_advance_cycle(0, len);
    assert(advance_times(None, len, 0) is None);
    assert(advance_times(None, len, 1) == Some(0usize));
    lemma_advance_compose(None, len, 1, len);
}

/// On an empty list moving either way keeps the list unselected.
pub proof fn lemma_empty_list_stays_unselected(sel: Option<usize>)
    requires
        sel is None,
    ensures
        next_selection(sel, 0) is None,
        previous_selection(sel, 0) is None,
{
}

/// Moving up to a parent whose listing holds the directory just left selects
/// the first entry with that path.
pub proof fn lemma_go_back_selects_left_dir(s: AppView, items: Seq<EntryView>, k: int)
    requires
        s.wf(),
        items.len() <= usize::MAX,
        0 <= k < items.len(),
        items[k].path == s.curr_dir,
    ensures
        ({
            let t = s.go_back(Ok(items));
            &&& t.curr_dir == parent_of(s.curr_dir)
            &&& t.items == items
            &&& t.selected matches Some(i) && i <= k && items[i as int].path == s.curr_dir
            &&& forall|j: int| 0 <= j < t.selected->0 ==> items[j].path != s.curr_dir
        }),
{
    let p = s.curr_dir;
    if !(exists|i: int| is_first_match(items, p, i)) {
        lemma_first_exists(items, p, k);
    }
    let i = choose|i: int| is_first_match(items, p, i);
    assert(first_match(items, p) == Some(i as usize));
    if i > k {
        assert(items[k].path != p);
    }
}

proof fn lemma_first_exists(items: Seq<EntryView>, p: Seq<char>, k: int)
    requires
        0 <= k < items.len(),
        items[k].path == p,
    ensures
        exists|i: int| is_first_match(items, p, i),
    decreases k,
{
    if forall|j: int| 0 <= j < k ==> items[j].path != p {
        assert(is_first_match(items, p, k));
    } else {
        let j = choose|j: int| 0 <= j < k && items[j].path == p;
        lemma_first_exists(items, p, j);
    }
}

/// A failed descent leaves the browser in the directory it was in, with the
/// same listing and selection, and reports the failure as the error.
pub proof fn lemma_failed_descent_stays(s: AppView, why: Seq<char>)
    requires
        s.wf(),
        s.selected is Some,
    ensures
        ({
            let t = s.go_into(Err(why));
            &&& t.wf()
            &&& t.curr_dir == s.curr_dir
            &&& t.items == s.items
            &&& t.selected == s.selected
            &&& t.error == Some(failure_text("list"@, s.selected_path()->0, why))
        }),
{
}

/// The folder that "new folder" creates lies in the directory where it was
/// invoked, whatever the browser does before the text is submitted.
pub proof fn lemma_new_folder_keeps_its_directory(
    s: AppView,
    t: AppView,
    up: Result<Seq<EntryView>, Seq<char>>,
    down: Result<Seq<EntryView>, Seq<char>>,
)
    requires
        s.wf(),
        s.input_mode == InputMode::Normal,
        t.wf(),
        t.input_mode == InputMode::Editing,
        t.pending_action == s.new_folder().pending_action,
    ensures
        t.on_key(Key::Enter).1 == CommandView::CreateDir(joined(s.curr_dir, t.input)),
        ({
            let moved = s.new_folder().go_back(up).go_into(down);
            moved.on_key(Key::Enter).1 == CommandView::CreateDir(joined(s.curr_dir, s.input))
        }),
{
}

/// A failed open after a successful one shows the new error, not the old text;
/// a successful open after a failed one shows the new text and clears the error.
pub proof fn lemma_error_preview_precedence(
    s: AppView,
    text: Seq<char>,
    why: Seq<char>,
)
    requires
        s.wf(),
        s.selected is Some,
    ensures
        s.open_file(Ok(text)).open_file(Err(why)).panel() == failure_text(
            "open"@,
            s.selected_path()->0,
            why,
        ),
        s.open_file(Err(why)).open_file(Ok(text)).panel() == text,
        s.open_file(Err(why)).open_file(Ok(text)).error is None,
{
}

/// Cancelling text entry returns to normal mode with the action and the text
/// dropped and asks for no outside work; a second cancel changes nothing more.
pub proof fn lemma_cancel(s: AppView)
    requires
        s.wf(),
        s.input_mode == InputMode::Editing,
    ensures
        ({
            let (t, c) = s.on_key(Key::Esc);
            &&& c == CommandView::Nothing
            &&& t.input_mode == InputMode::Normal
            &&& t.pending_action is None
            &&& t.input.len() == 0
            &&& t.curr_dir == s.curr_dir
            &&& t.items == s.items
            &&& t.selected == s.selected
            &&& t.error == s.error
            &&& t.preview == s.preview
            &&& t.on_key(Key::Esc) == (t, CommandView::Nothing)
        }),
{
}

/// One step that the browser may take while a text is being typed.
pub enum Move {
    GoBack(Result<Seq<EntryView>, Seq<char>>),
    GoInto(Result<Seq<EntryView>, Seq<char>>),
    Next,
    Previous,
    OpenFile(Result<Seq<char>, Seq<char>>),
    Type(char),
    Backspace,
    Create(Seq<char>, Result<(), Seq<char>>),
}

/// The state after one move.
pub open spec fn apply_move(s: AppView, m: Move) -> AppView {
    match m {
        Move::GoBack(l) => s.go_back(l),
        Move::GoInto(l) => s.go_into(l),
        Move::Next => s.next(),
        Move::Previous => s.previous(),
        Move::OpenFile(c) => s.open_file(c),
        Move::Type(c) => s.push_char(c),
        Move::Backspace => s.backspace(),
        Move::Create(p, r) => s.finish_create(p, r),
    }
}

/// The state after the moves of `moves`, in order.
pub open spec fn apply_moves(s: AppView, moves: Seq<Move>) -> AppView
    decreases moves.len(),
{
    if moves.len() == 0 {
        s
    } else {
        apply_move(apply_moves(s, moves.drop_last()), moves.last())
    }
}

proof fn lemma_moves_keep_action(s: AppView, moves: Seq<Move>)
    ensures
        apply_moves(s, moves).input_mode == s.input_mode,
        apply_moves(s, moves).pending_action == s.pending_action,
    decreases moves.len(),
{
    if moves.len() > 0 {
        lemma_moves_keep_action(s, moves.drop_last());
    }
}

/// Whatever sequence of moves follows "new folder" before the text is
/// submitted, submitting creates the typed name in the directory where
/// "new folder" was invoked.
pub proof fn lemma_new_folder_target_after_any_moves(s: AppView, moves: Seq<Move>)
    requires
        s.wf(),
        s.input_mode == InputMode::Normal,
    ensures
        ({
            let t = apply_moves(s.new_folder(), moves);
            t.on_key(Key::Enter).1 == CommandView::CreateDir(joined(s.curr_dir, t.input))
        }),
{
    lemma_moves_keep_action(s.new_folder(), moves);
}

} // verus!
