//! The selection state machine: which route is selected, which cell is under the finger,
//! and which cells have to be drawn again after each poll of the touchscreen.

use vstd::prelude::*;
use crate::simple::touch::TouchEvent;

verus! {

/// One cell of the menu that has to be drawn again, and the look it is to be drawn in.
#[derive(Clone, Copy, Debug, PartialEq, Eq, Structural)]
pub struct CellDraw {
    /// Index of the cell, which is the index of its route.
    pub index: usize,
    /// Whether the cell is drawn as the selected route.
    pub selected: bool,
    /// Whether the cell is drawn as being pressed.
    pub active: bool,
}

/// The state of the selector.
#[derive(Clone, Copy, Debug, PartialEq, Eq, Structural)]
pub struct SelectorState {
    /// Index of the route that runs when the autonomous period begins.
    pub selection: usize,
    /// A route that was selected before a call of `select`, and whose cell still shows it
    /// as selected.
    pub dirty_selection: Option<usize>,
    /// The cell that is being pressed.
    pub active_item: Option<usize>,
}

/// The cell `index` in its look at rest: selected or not, and not pressed.
pub open spec fn at_rest(index: usize, selection: usize) -> CellDraw {
    CellDraw { index, selected: index == selection, active: false }
}

/// The draws that take the pressed look off the cell `item`, if there is one.
pub open spec fn unpress_draws(item: Option<usize>, selection: usize) -> Seq<CellDraw> {
    match item {
        Some(index) => seq![at_rest(index, selection)],
        None => seq![],
    }
}

/// The draws that put the pressed look on the cell `item`, if there is one.
pub open spec fn press_draws(item: Option<usize>, selection: usize) -> Seq<CellDraw> {
    match item {
        Some(index) => seq![CellDraw { index, selected: index == selection, active: true }],
        None => seq![],
    }
}

impl SelectorState {
    /// The state of a new selector: the first route is selected, nothing is pending and
    /// nothing is pressed.
    pub open spec fn initial() -> SelectorState {
        SelectorState { selection: 0, dirty_selection: None, active_item: None }
    }

    /// Every index in the state names one of the `count` routes.
    pub open spec fn wf(self, count: nat) -> bool {
        &&& self.selection < count
        &&& (self.dirty_selection matches Some(dirty) ==> dirty < count)
        &&& (self.active_item matches Some(active) ==> active < count)
    }

    /// The state after `select(index)`: the route is selected, and the one that was
    /// selected before is marked dirty.
    pub open spec fn after_select(self, index: usize) -> SelectorState {
        SelectorState { selection: index, dirty_selection: Some(self.selection), ..self }
    }

    /// The cell that is pressed after a poll that found the display touched at the cell
    /// `index`: that cell, or none where `index` is empty space.
    pub open spec fn pressed_cell(count: nat, index: usize) -> Option<usize> {
        if index < count {
            Some(index)
        } else {
            None
        }
    }

    /// The state after the touch of one poll has been handled. While the display is
    /// touched the pressed cell follows the finger. When the touch ends on the pressed cell
    /// that cell becomes the selection; wherever it ends, no cell is pressed any more.
    pub open spec fn after_touch(self, count: nat, touch: TouchEvent) -> SelectorState {
        if touch.is_down() {
            SelectorState { active_item: Self::pressed_cell(count, touch.cell()), ..self }
        } else if self.active_item == Some(touch.cell()) {
            SelectorState { selection: touch.cell(), active_item: None, ..self }
        } else {
            SelectorState { active_item: None, ..self }
        }
    }

    /// The cells to draw while the touch of one poll is handled, in the order of drawing.
    ///
    /// While the display is touched and the pressed cell changes, the cell that was pressed
    /// is drawn at rest and the cell that is pressed now is drawn as pressed. When the
    /// touch ends on the pressed cell, the old selection is drawn as not selected and the
    /// cell as selected. When it ends elsewhere, the cell that was pressed is drawn at
    /// rest, selected or not as it is.
    pub open spec fn touch_draws(self, count: nat, touch: TouchEvent) -> Seq<CellDraw> {
        if touch.is_down() {
            let pressed = Self::pressed_cell(count, touch.cell());
            if pressed == self.active_item {
                seq![]
            } else {
                unpress_draws(self.active_item, self.selection) + press_draws(
                    pressed,
                    self.selection,
                )
            }
        } else {
            match self.active_item {
                None => seq![],
                Some(active) => if active == touch.cell() {
                    seq![
                        CellDraw { index: self.selection, selected: false, active: false },
                        CellDraw { index: active, selected: true, active: false },
                    ]
                } else {
                    seq![at_rest(active, self.selection)]
                },
            }
        }
    }

    /// The state after a pending `select` has been brought to the display.
    pub open spec fn after_reconcile(self) -> SelectorState {
        SelectorState { dirty_selection: None, ..self }
    }

    /// The cells to draw for a pending `select`: the dirty cell as not selected, then the
    /// selection as selected.
    pub open spec fn reconcile_draws(self) -> Seq<CellDraw> {
        match self.dirty_selection {
            Some(dirty) => seq![
                CellDraw { index: dirty, selected: false, active: false },
                CellDraw { index: self.selection, selected: true, active: false },
            ],
            None => seq![],
        }
    }

    /// The state after one poll: the touch is handled first, then a pending `select`.
    pub open spec fn after_tick(self, count: nat, touch: TouchEvent) -> SelectorState {
        self.after_touch(count, touch).after_reconcile()
    }

    /// The cells to draw in one poll, in the order of drawing.
    pub open spec fn tick_draws(self, count: nat, touch: TouchEvent) -> Seq<CellDraw> {
        self.touch_draws(count, touch) + self.after_touch(count, touch).reconcile_draws()
    }

    /// Makes the state of a new selector.
    pub fn new() -> (state: Self)
        ensures
            state == Self::initial(),
    {
        SelectorState { selection: 0, dirty_selection: None, active_item: None }
    }

    /// Selects the route `index` and marks the one that was selected before as dirty. The
    /// display is left alone: the next poll draws both cells.
    pub fn select(&mut self, index: usize)
        ensures
            *final(self) == old(self).after_select(index),
    {
        self.dirty_selection = Some(self.selection);
        self.selection = index;
    }

    /// Handles one poll of the touchscreen for a menu of `count` routes, and returns the
    /// cells that have to be drawn, in the order of drawing.
    pub fn tick(&mut self, count: usize, touch: &TouchEvent) -> (draws: Vec<CellDraw>)
        requires
            old(self).wf(count as nat),
        ensures
            *final(self) == old(self).after_tick(count as nat, *touch),
            draws@ == old(self).tick_draws(count as nat, *touch),
            final(self).wf(count as nat),
            forall|i: int| 0 <= i < draws@.len() ==> (#[trigger] draws@[i]).index < count,
    {
        let mut draws: Vec<CellDraw> = Vec::new();
        let index: usize = touch.index();
        let selection: usize = self.selection;
        if touch.down() {
            match self.active_item {
                Some(active) => {
                    if active != index {
                        draws.push(
                            CellDraw { index: active, selected: active == selection, active: false },
                        );
                        if index < count {
                            draws.push(
                                CellDraw { index, selected: index == selection, active: true },
                            );
                            self.active_item = Some(index);
                        } else {
                            self.active_item = None;
                        }
                    }
                },
                None => {
                    if index < count {
                        draws.push(CellDraw { index, selected: index == selection, active: true });
                        self.active_item = Some(index);
                    }
                },
            }
        } else {
            match self.active_item {
                Some(active) => {
                    if active == index {
                        draws.push(CellDraw { index: selection, selected: false, active: false });
                        draws.push(CellDraw { index: active, selected: true, active: false });
                        self.selection = active;
                    } else {
                        draws.push(
                            CellDraw { index: active, selected: active == selection, active: false },
                        );
                    }
                    self.active_item = None;
                },
                None => {},
            }
        }
        proof {
            assert(draws@ =~= old(self).touch_draws(count as nat, *touch));
            assert(*self == old(self).after_touch(count as nat, *touch));
        }
        match self.dirty_selection {
            Some(dirty) => {
                draws.push(CellDraw { index: dirty, selected: false, active: false });
                draws.push(CellDraw { index: self.selection, selected: true, active: false });
                self.dirty_selection = None;
            },
            None => {},
        }
        proof {
            assert(draws@ =~= old(self).tick_draws(count as nat, *touch));
        }
        draws
    }
}

/// After `select(index)` the route `index` is selected and the route that was selected
/// just before is the one marked dirty. The next poll clears the mark, whatever the touch.
pub proof fn lemma_select_marks_previous(
    state: SelectorState,
    count: nat,
    index: usize,
    touch: TouchEvent,
)
    requires
        state.wf(count),
        index < count,
    ensures
        state.after_select(index).selection == index,
        state.after_select(index).dirty_selection == Some(state.selection),
        state.after_select(index).active_item == state.active_item,
        state.after_select(index).wf(count),
        state.after_select(index).after_tick(count, touch).dirty_selection.is_none(),
{
}

/// A poll draws a pending `select` last: the dirty cell as not selected, then the route
/// that is selected after the touch of that poll as selected.
pub proof fn lemma_tick_reconciles(state: SelectorState, count: nat, touch: TouchEvent)
    requires
        state.wf(count),
        state.dirty_selection.is_some(),
    ensures
        ({
            let draws = state.tick_draws(count, touch);
            let after = state.after_tick(count, touch);
            &&& draws.len() >= 2
            &&& draws[draws.len() - 2] == CellDraw {
                index: state.dirty_selection.unwrap(),
                selected: false,
                active: false,
            }
            &&& draws[draws.len() - 1] == CellDraw {
                index: after.selection,
                selected: true,
                active: false,
            }
        }),
{
}

/// A poll keeps every index of the state within the routes.
pub proof fn lemma_tick_keeps_wf(state: SelectorState, count: nat, touch: TouchEvent)
    requires
        state.wf(count),
    ensures
        state.after_tick(count, touch).wf(count),
        forall|i: int|
            0 <= i < state.tick_draws(count, touch).len() ==> (#[trigger] state.tick_draws(
                count,
                touch,
            )[i]).index < count,
{
}

/// A touch on a cell that ends on that same cell selects its route, from whatever state
/// the touch began in, and leaves no cell pressed.
pub proof fn lemma_press_release_commits(
    state: SelectorState,
    count: nat,
    press: TouchEvent,
    release: TouchEvent,
)
    requires
        state.wf(count),
        press.is_down(),
        !release.is_down(),
        press.cell() < count,
        release.cell() == press.cell(),
    ensures
        state.after_tick(count, press).selection == state.selection,
        state.after_tick(count, press).active_item == Some(press.cell()),
        state.after_tick(count, press).after_tick(count, release).selection == press.cell(),
        state.after_tick(count, press).after_tick(count, release).active_item.is_none(),
{
}

/// A touch that ends on another cell than the one pressed, or off the grid, leaves the
/// selection as it was.
pub proof fn lemma_release_elsewhere_cancels(
    state: SelectorState,
    count: nat,
    press: TouchEvent,
    release: TouchEvent,
)
    requires
        state.wf(count),
        press.is_down(),
        !release.is_down(),
        release.cell() != press.cell(),
    ensures
        state.after_tick(count, press).after_tick(count, release).selection == state.selection,
        state.after_tick(count, press).after_tick(count, release).active_item.is_none(),
{
}

/// The touch changes the selection in one case only: it ends on the cell that was pressed.
/// With no cell pressed and no touch, a poll changes nothing but the dirty mark.
pub proof fn lemma_selection_changes_on_commit_only(
    state: SelectorState,
    count: nat,
    touch: TouchEvent,
)
    requires
        state.wf(count),
    ensures
        state.after_tick(count, touch).selection != state.selection ==> !touch.is_down()
            && state.active_item == Some(touch.cell()),
        !touch.is_down() && state.active_item.is_none() ==> state.after_tick(count, touch)
            == state.after_reconcile() && state.tick_draws(count, touch)
            == state.reconcile_draws(),
{
    if !touch.is_down() && state.active_item.is_none() {
        assert(state.tick_draws(count, touch) =~= state.reconcile_draws());
    }
}

} // verus!
