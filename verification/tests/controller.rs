use snote2::popup::run_cycle;
use snote2::reconcile::KeyEvents;
use snote2::reconcile::PointerEvents;
use snote2::reconcile::key_step;
use snote2::reconcile::reconcile;
use snote2::scroll::Viewport;
use snote2::scroll::first_visible_row;
use snote2::scroll::last_visible_row;
use snote2::scroll::reclamp_visible;
use snote2::scroll::scroll_into_view;
use snote2::selection::AutocompleteOutput;
use snote2::selection::Selection;
use snote2::selection::clamp_selection;
use snote2::store::ControllerState;
use snote2::store::SelectionStore;

fn vp() -> Viewport {
    Viewport {
        row_height: 20,
        spacing: 4,
        height: 200,
    }
}

fn down() -> KeyEvents {
    KeyEvents {
        arrow_up: false,
        arrow_down: true,
        enter: false,
    }
}

fn up() -> KeyEvents {
    KeyEvents {
        arrow_up: true,
        arrow_down: false,
        enter: false,
    }
}

fn enter() -> KeyEvents {
    KeyEvents {
        arrow_up: false,
        arrow_down: false,
        enter: true,
    }
}

fn items(names: &[&str]) -> Vec<String> {
    let mut v = Vec::new();
    for n in names {
        v.push(n.to_string());
    }
    v
}

fn open_with(store: &mut SelectionStore, id: u64, selection: Selection) {
    store.put(
        id,
        ControllerState {
            selection,
            scroll_offset: 0,
        },
    );
}

#[test]
fn arrow_down_from_no_selection_marks_first_row() {
    let mut store = SelectionStore::new();
    open_with(&mut store, 7, None);
    let list = items(&["apple", "apricot"]);
    let (out, _fx) = run_cycle(
        &mut store,
        7,
        &list,
        false,
        false,
        down(),
        PointerEvents::none(),
        0,
        vp(),
    );
    assert_eq!(out, Some(AutocompleteOutput::Marked("apple".to_string())));
}

#[test]
fn arrow_down_saturates_at_last_row() {
    let mut store = SelectionStore::new();
    open_with(&mut store, 7, Some(AutocompleteOutput::Marked(0)));
    let list = items(&["apple", "apricot"]);
    let (out, _fx) = run_cycle(
        &mut store,
        7,
        &list,
        false,
        false,
        down(),
        PointerEvents::none(),
        0,
        vp(),
    );
    assert_eq!(out, Some(AutocompleteOutput::Marked("apricot".to_string())));
    let (out2, _fx2) = run_cycle(
        &mut store,
        7,
        &list,
        false,
        false,
        down(),
        PointerEvents::none(),
        0,
        vp(),
    );
    assert_eq!(out2, Some(AutocompleteOutput::Marked("apricot".to_string())));
}

#[test]
fn enter_commits_marked_row_and_closes() {
    let mut store = SelectionStore::new();
    open_with(&mut store, 7, Some(AutocompleteOutput::Marked(1)));
    let list = items(&["apple", "apricot"]);
    let (out, fx) = run_cycle(
        &mut store,
        7,
        &list,
        false,
        false,
        enter(),
        PointerEvents::none(),
        0,
        vp(),
    );
    assert_eq!(out, Some(AutocompleteOutput::Chosen("apricot".to_string())));
    assert!(fx.close_popup);
    assert!(fx.focus_parent);
    assert_eq!(fx.cursor_to, Some("apricot".len()));
    assert!(!store.contains(7));
}

#[test]
fn shrunken_list_clamps_stored_selection() {
    let mut store = SelectionStore::new();
    open_with(&mut store, 7, Some(AutocompleteOutput::Marked(4)));
    let list = items(&["one", "two"]);
    let (out, _fx) = run_cycle(
        &mut store,
        7,
        &list,
        false,
        false,
        KeyEvents::none(),
        PointerEvents::none(),
        0,
        vp(),
    );
    assert_eq!(out, Some(AutocompleteOutput::Marked("two".to_string())));
    assert_eq!(
        store.get_state(7).selection,
        Some(AutocompleteOutput::Marked(1))
    );
}

#[test]
fn click_commits_immediately_over_keyboard() {
    let mut store = SelectionStore::new();
    open_with(&mut store, 7, Some(AutocompleteOutput::Marked(0)));
    let list = items(&["a", "b", "c", "d"]);
    let pointer = PointerEvents {
        clicked: Some(3),
        hovered: None,
    };
    let (out, fx) = run_cycle(&mut store, 7, &list, false, false, down(), pointer, 0, vp());
    assert_eq!(out, Some(AutocompleteOutput::Chosen("d".to_string())));
    assert!(fx.close_popup);
    assert!(!store.contains(7));
}

#[test]
fn empty_list_closes_popup_and_removes_state() {
    let mut store = SelectionStore::new();
    open_with(&mut store, 7, Some(AutocompleteOutput::Marked(1)));
    let list: Vec<String> = Vec::new();
    let (out, fx) = run_cycle(
        &mut store,
        7,
        &list,
        false,
        false,
        KeyEvents::none(),
        PointerEvents::none(),
        0,
        vp(),
    );
    assert_eq!(out, None);
    assert!(fx.close_popup);
    assert!(!store.contains(7));
}

#[test]
fn cycle_after_commit_starts_unselected() {
    let mut store = SelectionStore::new();
    open_with(&mut store, 7, Some(AutocompleteOutput::Marked(1)));
    let list = items(&["apple", "apricot"]);
    let (out, _fx) = run_cycle(
        &mut store,
        7,
        &list,
        false,
        false,
        enter(),
        PointerEvents::none(),
        0,
        vp(),
    );
    assert!(matches!(out, Some(AutocompleteOutput::Chosen(_))));
    // The field regains focus, so the popup reopens over a fresh state.
    let (out2, fx2) = run_cycle(
        &mut store,
        7,
        &list,
        true,
        false,
        KeyEvents::none(),
        PointerEvents::none(),
        0,
        vp(),
    );
    assert_eq!(out2, None);
    assert!(fx2.open_popup);
    assert_eq!(store.get_state(7).selection, None);
}

#[test]
fn closed_popup_stays_closed_without_focus_or_edit() {
    let mut store = SelectionStore::new();
    let list = items(&["apple"]);
    let (out, fx) = run_cycle(
        &mut store,
        7,
        &list,
        false,
        false,
        down(),
        PointerEvents::none(),
        0,
        vp(),
    );
    assert_eq!(out, None);
    assert!(!fx.open_popup);
    assert!(!store.contains(7));
}

#[test]
fn focus_with_empty_list_does_not_open() {
    let mut store = SelectionStore::new();
    let list: Vec<String> = Vec::new();
    let (out, fx) = run_cycle(
        &mut store,
        7,
        &list,
        true,
        true,
        KeyEvents::none(),
        PointerEvents::none(),
        0,
        vp(),
    );
    assert_eq!(out, None);
    assert!(!fx.open_popup);
    assert!(!fx.close_popup);
    assert!(!store.contains(7));
}

#[test]
fn hover_marks_row_when_keyboard_is_quiet() {
    let s = reconcile(
        Some(AutocompleteOutput::Marked(0)),
        KeyEvents::none(),
        PointerEvents {
            clicked: None,
            hovered: Some(2),
        },
        4,
    );
    assert_eq!(s, Some(AutocompleteOutput::Marked(2)));
}

#[test]
fn keyboard_navigation_beats_hover() {
    let s = reconcile(
        Some(AutocompleteOutput::Marked(0)),
        down(),
        PointerEvents {
            clicked: None,
            hovered: Some(3),
        },
        4,
    );
    assert_eq!(s, Some(AutocompleteOutput::Marked(1)));
}

#[test]
fn quiet_cycles_are_idempotent() {
    let prev = Some(AutocompleteOutput::Marked(9));
    let once = reconcile(prev, KeyEvents::none(), PointerEvents::none(), 4);
    let twice = reconcile(once, KeyEvents::none(), PointerEvents::none(), 4);
    assert_eq!(once, twice);
    assert_eq!(once, Some(AutocompleteOutput::Marked(3)));
}

#[test]
fn repeated_arrow_down_is_monotone_and_bounded() {
    let n = 3;
    let mut s: Selection = None;
    for presses in 1..=7usize {
        s = reconcile(s, down(), PointerEvents::none(), n);
        let expected = if presses - 1 < n - 1 { presses - 1 } else { n - 1 };
        assert_eq!(s, Some(AutocompleteOutput::Marked(expected)));
    }
}

#[test]
fn arrow_up_saturates_at_first_row() {
    let s = key_step(Some(AutocompleteOutput::Marked(0)), up(), 4);
    assert_eq!(s, Some(AutocompleteOutput::Marked(0)));
    let s2 = key_step(Some(AutocompleteOutput::Marked(2)), up(), 4);
    assert_eq!(s2, Some(AutocompleteOutput::Marked(1)));
    let s3 = key_step(None, up(), 4);
    assert_eq!(s3, Some(AutocompleteOutput::Marked(0)));
}

#[test]
fn enter_on_empty_selection_chooses_first_row() {
    let s = reconcile(None, enter(), PointerEvents::none(), 2);
    assert_eq!(s, Some(AutocompleteOutput::Chosen(0)));
}

#[test]
fn empty_list_forces_no_selection() {
    let s = reconcile(
        Some(AutocompleteOutput::Marked(1)),
        down(),
        PointerEvents::none(),
        0,
    );
    assert_eq!(s, None);
    assert_eq!(clamp_selection(Some(AutocompleteOutput::Chosen(5)), 0), None);
}

#[test]
fn visible_row_formulas() {
    // stride = 24: rows at 0, 24, 48, ...; row height 20, window 200.
    assert_eq!(first_visible_row(0, vp()), 0);
    assert_eq!(first_visible_row(1, vp()), 1);
    assert_eq!(first_visible_row(48, vp()), 2);
    assert_eq!(last_visible_row(0, vp()), Some(7)); // 7 * 24 + 20 = 188 <= 200
    assert_eq!(last_visible_row(48, vp()), Some(9)); // 9 * 24 + 20 = 236 <= 248
    let tiny = Viewport {
        row_height: 20,
        spacing: 4,
        height: 10,
    };
    assert_eq!(last_visible_row(0, tiny), None);
}

#[test]
fn scroll_into_view_moves_minimally() {
    // Row 10: top 240, bottom 260.  From offset 0 the window must move down
    // to 60; from offset 300 it must move up to 240; from 100 both edges
    // already fit, so nothing moves.
    assert_eq!(scroll_into_view(0, 10, vp(), 20), 60);
    assert_eq!(scroll_into_view(300, 10, vp(), 20), 240);
    assert_eq!(scroll_into_view(100, 10, vp(), 20), 100);
}

#[test]
fn manual_scroll_reclamps_selection() {
    // At offset 48 the fully visible rows are 2..=9.
    let s = reclamp_visible(
        Some(AutocompleteOutput::Marked(0)),
        48,
        vp(),
        20,
    );
    assert_eq!(s, Some(AutocompleteOutput::Marked(2)));
    let s2 = reclamp_visible(
        Some(AutocompleteOutput::Marked(15)),
        48,
        vp(),
        20,
    );
    assert_eq!(s2, Some(AutocompleteOutput::Marked(9)));
    let s3 = reclamp_visible(None, 48, vp(), 20, );
    assert_eq!(s3, None);
}

#[test]
fn manual_scroll_drives_cycle_and_updates_offset() {
    let mut store = SelectionStore::new();
    open_with(&mut store, 7, Some(AutocompleteOutput::Marked(0)));
    let list = items(&[
        "a", "b", "c", "d", "e", "f", "g", "h", "i", "j", "k", "l", "m", "n", "o", "p", "q", "r",
        "s", "t",
    ]);
    // The stored offset is 0, the live one 48: a manual scroll happened.
    let (out, _fx) = run_cycle(
        &mut store,
        7,
        &list,
        false,
        false,
        KeyEvents::none(),
        PointerEvents::none(),
        48,
        vp(),
    );
    assert_eq!(out, Some(AutocompleteOutput::Marked("c".to_string())));
    let st = store.get_state(7);
    assert_eq!(st.selection, Some(AutocompleteOutput::Marked(2)));
    assert_eq!(st.scroll_offset, 48);
}

#[test]
fn selection_change_scrolls_row_into_view() {
    let mut store = SelectionStore::new();
    open_with(&mut store, 7, Some(AutocompleteOutput::Marked(9)));
    let list = items(&[
        "a", "b", "c", "d", "e", "f", "g", "h", "i", "j", "k",
    ]);
    // Arrow down to row 10 (top 240, bottom 260) with the window at 0..200:
    // the offset must become 60.
    let (out, _fx) = run_cycle(
        &mut store,
        7,
        &list,
        false,
        false,
        down(),
        PointerEvents::none(),
        0,
        vp(),
    );
    assert_eq!(out, Some(AutocompleteOutput::Marked("k".to_string())));
    let st = store.get_state(7);
    assert_eq!(st.selection, Some(AutocompleteOutput::Marked(10)));
    assert_eq!(st.scroll_offset, 60);
}

#[test]
fn selection_methods_saturate_and_promote() {
    assert_eq!(
        AutocompleteOutput::Marked(0usize).dec(),
        AutocompleteOutput::Marked(0)
    );
    assert_eq!(
        AutocompleteOutput::Marked(3usize).dec(),
        AutocompleteOutput::Marked(2)
    );
    assert_eq!(
        AutocompleteOutput::Chosen(3usize).inc(),
        AutocompleteOutput::Chosen(4)
    );
    assert_eq!(
        AutocompleteOutput::Marked(5usize).into_choice(),
        AutocompleteOutput::Chosen(5)
    );
    assert_eq!(
        AutocompleteOutput::Chosen(5usize).into_choice(),
        AutocompleteOutput::Chosen(5)
    );
    assert_eq!(AutocompleteOutput::Marked(5usize).into_inner(), 5);
    assert!(AutocompleteOutput::Chosen(5usize).is_chosen());
    assert!(!AutocompleteOutput::Marked(5usize).is_chosen());
    let mapped = AutocompleteOutput::Marked(2usize).map(|i| i + 10);
    assert_eq!(mapped, AutocompleteOutput::Marked(12));
}

#[test]
fn store_put_get_remove_roundtrip() {
    let mut store = SelectionStore::new();
    assert!(!store.contains(1));
    assert_eq!(store.get_state(1), ControllerState::default());
    let st = ControllerState {
        selection: Some(AutocompleteOutput::Marked(2)),
        scroll_offset: 17,
    };
    store.put(1, st);
    assert!(store.contains(1));
    assert_eq!(store.get_state(1), st);
    store.remove(1);
    assert!(!store.contains(1));
    assert_eq!(store.get_state(1), ControllerState::default());
}
