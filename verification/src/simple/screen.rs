//! What the menu shows: a model of the look in which each cell was last drawn, to say when
//! the drawings of the selector keep the menu in step with its state.

use vstd::prelude::*;
use crate::simple::state::{CellDraw, SelectorState};
use crate::simple::touch::TouchEvent;

verus! {

/// The look in which each cell was last drawn: whether as selected, and whether as
/// pressed.
pub type Screen = Map<usize, (bool, bool)>;

/// The screen after one cell has been drawn.
pub open spec fn draw(screen: Screen, cell: CellDraw) -> Screen {
    screen.insert(cell.index, (cell.selected, cell.active))
}

/// The screen after some cells have been drawn, one after the other.
pub open spec fn draw_all(screen: Screen, cells: Seq<CellDraw>) -> Screen
    decreases cells.len(),
{
    if cells.len() == 0 {
        screen
    } else {
        draw(draw_all(screen, cells.drop_last()), cells.last())
    }
}

/// Each of the `count` cells has been drawn, and the cell of `selection` is the one that
/// is shown as selected.
pub open spec fn shows_selection(screen: Screen, count: nat, selection: usize) -> bool {
    forall|i: usize|
        #![trigger screen.dom().contains(i)]
        #![trigger screen[i]]
        i < count ==> screen.dom().contains(i) && screen[i].0 == (i == selection)
}

/// Each of the `count` cells has been drawn, and the cell `active`, if there is one, is the
/// one that is shown as pressed.
pub open spec fn shows_pressed(screen: Screen, count: nat, active: Option<usize>) -> bool {
    forall|i: usize|
        #![trigger screen.dom().contains(i)]
        #![trigger screen[i]]
        i < count ==> screen.dom().contains(i) && screen[i].1 == (active == Some(i))
}

/// The cells of a whole menu of `count` routes at rest, in the order of the routes: the
/// selection is shown as selected, and no cell as pressed.
pub open spec fn menu_cells(count: nat, selection: usize) -> Seq<CellDraw> {
    Seq::new(
        count,
        |i: int| CellDraw { index: i as usize, selected: i == selection, active: false },
    )
}

impl SelectorState {
    /// The route that the menu shows as selected while each `select` is followed by a poll
    /// before the next: the dirty one while a `select` is pending, the selection else.
    pub open spec fn shown_selection(self) -> usize {
        match self.dirty_selection {
            Some(dirty) => dirty,
            None => self.selection,
        }
    }

    /// Whether a poll leaves the pressed cell drawn at rest: a `select` is pending, and the
    /// cell that is pressed after the touch is the dirty cell or the selection.
    pub open spec fn hides_press(self, count: nat, touch: TouchEvent) -> bool {
        &&& self.dirty_selection.is_some()
        &&& self.after_touch(count, touch).active_item.is_some()
        &&& (self.after_touch(count, touch).active_item == self.dirty_selection
            || self.after_touch(count, touch).active_item == Some(
            self.after_touch(count, touch).selection,
        ))
    }
}

/// Drawing two runs of cells one after the other is drawing them all in their order.
pub proof fn lemma_draw_all_concat(screen: Screen, first: Seq<CellDraw>, second: Seq<CellDraw>)
    ensures
        draw_all(screen, first + second) == draw_all(draw_all(screen, first), second),
    decreases second.len(),
{
    if second.len() == 0 {
        assert(first + second =~= first);
    } else {
        assert((first + second).drop_last() =~= first + second.drop_last());
        assert((first + second).last() == second.last());
        lemma_draw_all_concat(screen, first, second.drop_last());
    }
}

/// Drawing no cell, one cell or two cells.
proof fn lemma_draw_all_short(screen: Screen, a: CellDraw, b: CellDraw)
    ensures
        draw_all(screen, seq![]) == screen,
        draw_all(screen, seq![a]) == draw(screen, a),
        draw_all(screen, seq![a, b]) == draw(draw(screen, a), b),
{
    reveal_with_fuel(draw_all, 3);
    assert(seq![a].drop_last() =~= seq![]);
    assert(seq![a, b].drop_last() =~= seq![a]);
}

/// Whether each of the first `n` cells has been drawn at rest, and as selected where it
/// is the cell of `selection`.
spec fn shows_at_rest(screen: Screen, n: nat, selection: usize) -> bool {
    forall|i: usize|
        #![trigger screen.dom().contains(i)]
        #![trigger screen[i]]
        i < n ==> screen.dom().contains(i) && screen[i] == (i == selection, false)
}

/// The first `n` cells of the menu, drawn on any screen, show the selection among them.
proof fn lemma_menu_prefix(screen: Screen, count: nat, selection: usize, n: nat)
    requires
        n <= count,
        count <= usize::MAX,
    ensures
        shows_at_rest(
            draw_all(screen, menu_cells(count, selection).take(n as int)),
            n,
            selection,
        ),
    decreases n,
{
    let cells = menu_cells(count, selection);
    if n > 0 {
        let before = draw_all(screen, cells.take(n - 1));
        let after = draw_all(screen, cells.take(n as int));
        lemma_menu_prefix(screen, count, selection, (n - 1) as nat);
        assert(cells.take(n as int).drop_last() =~= cells.take(n - 1));
        assert(cells.take(n as int).last() == cells[n - 1]);
        assert(after == draw(before, cells[n - 1]));
        assert forall|i: usize| i < n implies after.dom().contains(i) && #[trigger] after[i] == (
            i == selection,
            false,
        ) by {
            if i < n - 1 {
                assert(before.dom().contains(i));
            }
        }
    }
}

/// A menu that has been drawn as a whole shows the selection as selected, and no cell as
/// pressed.
pub proof fn lemma_menu_shows_selection(screen: Screen, count: nat, selection: usize)
    requires
        count <= usize::MAX,
    ensures
        shows_selection(draw_all(screen, menu_cells(count, selection)), count, selection),
        shows_pressed(draw_all(screen, menu_cells(count, selection)), count, None),
{
    lemma_menu_prefix(screen, count, selection, count);
    assert(menu_cells(count, selection).take(count as int) =~= menu_cells(count, selection));
    let shown = draw_all(screen, menu_cells(count, selection));
    assert(shows_at_rest(shown, count, selection));
    assert forall|i: usize| i < count implies shown.dom().contains(i) && (#[trigger] shown[i]).1
        == (None::<usize> == Some(i)) by {
        assert(shown[i] == (i == selection, false));
    }
}

/// `select` does not change which route the menu is expected to show as selected, as long
/// as no other `select` is pending.
pub proof fn lemma_select_keeps_shown(state: SelectorState, index: usize)
    requires
        state.dirty_selection.is_none(),
    ensures
        state.after_select(index).shown_selection() == state.shown_selection(),
{
}

/// A poll brings the menu in step with the selection: where the menu showed what it is
/// expected to show, it shows the selection as selected, and no other route, after the
/// draws of the poll.
pub proof fn lemma_tick_shows_selection(
    screen: Screen,
    state: SelectorState,
    count: nat,
    touch: TouchEvent,
)
    requires
        state.wf(count),
        shows_selection(screen, count, state.shown_selection()),
    ensures
        shows_selection(
            draw_all(screen, state.tick_draws(count, touch)),
            count,
            state.after_tick(count, touch).selection,
        ),
{
    let touched = state.touch_draws(count, touch);
    let middle = state.after_touch(count, touch);
    let reconciled = middle.reconcile_draws();
    lemma_draw_all_concat(screen, touched, reconciled);
    lemma_draws_unfold(screen, state, count, touch);
    let shown = draw_all(screen, state.tick_draws(count, touch));
    assert forall|i: usize| i < count implies #[trigger] shown.dom().contains(i) && shown[i].0 == (
        i == state.after_tick(count, touch).selection) by {
        assert(screen.dom().contains(i));
    }
}

/// A poll keeps the menu in step with the press: where the menu showed the pressed cell as
/// pressed and no other, it does so after the draws of the poll. The one exception is the
/// poll that `hides_press` describes.
pub proof fn lemma_tick_shows_pressed(
    screen: Screen,
    state: SelectorState,
    count: nat,
    touch: TouchEvent,
)
    requires
        state.wf(count),
        shows_pressed(screen, count, state.active_item),
        !state.hides_press(count, touch),
    ensures
        shows_pressed(
            draw_all(screen, state.tick_draws(count, touch)),
            count,
            state.after_tick(count, touch).active_item,
        ),
{
    let touched = state.touch_draws(count, touch);
    let middle = state.after_touch(count, touch);
    let reconciled = middle.reconcile_draws();
    lemma_draw_all_concat(screen, touched, reconciled);
    lemma_draws_unfold(screen, state, count, touch);
    let shown = draw_all(screen, state.tick_draws(count, touch));
    assert forall|i: usize| i < count implies #[trigger] shown.dom().contains(i) && shown[i].1 == (
        state.after_tick(count, touch).active_item == Some(i)) by {
        assert(screen.dom().contains(i));
    }
}

/// The poll that `hides_press` describes leaves the menu out of step: a cell is pressed,
/// and it is shown at rest.
pub proof fn lemma_hides_press(screen: Screen, state: SelectorState, count: nat, touch: TouchEvent)
    requires
        state.wf(count),
        state.hides_press(count, touch),
    ensures
        state.after_tick(count, touch).active_item.is_some(),
        draw_all(screen, state.tick_draws(count, touch))[state.after_tick(
            count,
            touch,
        ).active_item.unwrap()].1 == false,
        !shows_pressed(
            draw_all(screen, state.tick_draws(count, touch)),
            count,
            state.after_tick(count, touch).active_item,
        ),
{
    let touched = state.touch_draws(count, touch);
    let reconciled = state.after_touch(count, touch).reconcile_draws();
    lemma_draw_all_concat(screen, touched, reconciled);
    lemma_draws_unfold(screen, state, count, touch);
    let shown = draw_all(screen, state.tick_draws(count, touch));
    let pressed = state.after_tick(count, touch).active_item;
    if shows_pressed(shown, count, pressed) {
        assert(shown[pressed.unwrap()].1 == (pressed == Some(pressed.unwrap())));
    }
}

/// The draws of a poll, written out as single draws.
proof fn lemma_draws_unfold(screen: Screen, state: SelectorState, count: nat, touch: TouchEvent)
    ensures
        ({
            let touched = state.touch_draws(count, touch);
            let after = draw_all(screen, touched);
            let reconciled = state.after_touch(count, touch).reconcile_draws();
            &&& touched.len() <= 2
            &&& reconciled.len() <= 2
            &&& touched.len() == 0 ==> after == screen
            &&& touched.len() == 1 ==> after == draw(screen, touched[0])
            &&& touched.len() == 2 ==> after == draw(draw(screen, touched[0]), touched[1])
            &&& reconciled.len() == 0 ==> draw_all(after, reconciled) == after
            &&& reconciled.len() == 1 ==> draw_all(after, reconciled) == draw(after, reconciled[0])
            &&& reconciled.len() == 2 ==> draw_all(after, reconciled) == draw(
                draw(after, reconciled[0]),
                reconciled[1],
            )
        }),
{
    let touched = state.touch_draws(count, touch);
    let after = draw_all(screen, touched);
    let reconciled = state.after_touch(count, touch).reconcile_draws();
    if touched.len() == 1 {
        lemma_draw_all_short(screen, touched[0], touched[0]);
        assert(touched =~= seq![touched[0]]);
    } else if touched.len() == 2 {
        lemma_draw_all_short(screen, touched[0], touched[1]);
        assert(touched =~= seq![touched[0], touched[1]]);
    } else {
        assert(touched =~= seq![]);
        reveal_with_fuel(draw_all, 1);
    }
    if reconciled.len() == 2 {
        lemma_draw_all_short(after, reconciled[0], reconciled[1]);
        assert(reconciled =~= seq![reconciled[0], reconciled[1]]);
    } else {
        assert(reconciled =~= seq![]);
    }
}

} // verus!
