//! Simple touchscreen-based autonomous route selector.
//!
//! [`SimpleSelect`] is a barebones and lightweight autonomous selector that allows picking
//! between at most 12 autonomous routes on a touchscreen: a menu of two columns of six
//! cells, one cell for each route.
//!
//! The selector does not own a display. It says what is to be drawn, first for the whole
//! menu and then after each poll of the touchscreen, and whoever owns the display draws it.

use vstd::prelude::*;
use crate::Selector;

pub mod pixels;
pub mod render;
pub mod route;
pub mod screen;
pub mod state;
pub mod theme;
pub mod touch;

pub use render::{ItemDrawing, LineDrawing, RectDrawing, TextDrawing};
pub use route::Route;
pub use state::{CellDraw, SelectorState};
pub use theme::{theme_dark, Color, SimpleSelectTheme};
pub use touch::{TouchEvent, TouchState};

verus! {

/// Why a selector cannot be made of a given array of routes.
#[derive(Clone, Copy, Debug, PartialEq, Eq, Structural)]
pub enum SelectError {
    /// The array holds no route.
    NoRoutes,
    /// The array holds more routes than the menu has cells.
    TooManyRoutes,
}

impl SelectError {
    /// Says in words what is wrong.
    pub fn message(&self) -> (message: &'static str)
        ensures
            message@ == match *self {
                SelectError::NoRoutes => "SimpleSelect requires at least one route."@,
                SelectError::TooManyRoutes =>
                    "SimpleSelect currently only supports up to 12 routes."@,
            },
    {
        match self {
            SelectError::NoRoutes => "SimpleSelect requires at least one route.",
            SelectError::TooManyRoutes => "SimpleSelect currently only supports up to 12 routes.",
        }
    }
}

/// What a selector is made of: its routes in the order of the menu, its theme, and its
/// state.
pub struct SimpleSelectView<F> {
    pub routes: Seq<Route<F>>,
    pub theme: SimpleSelectTheme,
    pub state: SelectorState,
}

impl<F> SimpleSelectView<F> {
    /// The drawing of one cell in the given look, with the name of its route as the label.
    pub open spec fn drawing(self, cell: CellDraw) -> ItemDrawing {
        render::spec_draw_item(
            &self.theme,
            self.routes[cell.index as int].name,
            cell.index,
            cell.selected,
            cell.active,
        )
    }

    /// The drawings of some cells, in their order.
    pub open spec fn drawings(self, cells: Seq<CellDraw>) -> Seq<ItemDrawing> {
        Seq::new(cells.len(), |i: int| self.drawing(cells[i]))
    }

    /// The cells of the whole menu at rest, in the order of the routes: the selection is
    /// shown as selected, and no cell as pressed.
    pub open spec fn menu_cells(self) -> Seq<CellDraw> {
        screen::menu_cells(self.routes.len(), self.state.selection)
    }
}

/// The drawing of the whole menu, in the order of drawing: the background, the grid
/// lines, then one cell for each route.
#[derive(Debug, PartialEq, Eq)]
pub struct MenuDrawing {
    pub background: RectDrawing,
    pub borders: Vec<LineDrawing>,
    pub items: Vec<ItemDrawing>,
}

/// Simple touchscreen-based autonomous route selector.
///
/// `SimpleSelect` holds between 1 and 12 routes, a color theme, and the state of the menu:
/// the route that is selected, and the cell that is being pressed.
pub struct SimpleSelect<F, const N: usize> {
    routes: [Route<F>; N],
    theme: SimpleSelectTheme,
    state: SelectorState,
}

impl<F, const N: usize> View for SimpleSelect<F, N> {
    type V = SimpleSelectView<F>;

    closed spec fn view(&self) -> SimpleSelectView<F> {
        SimpleSelectView { routes: self.routes@, theme: self.theme, state: self.state }
    }
}

impl<F, const N: usize> SimpleSelect<F, N> {
    #[verifier::type_invariant]
    spec fn inv(self) -> bool {
        &&& N <= render::MAX_ROUTES
        &&& self.state.wf(N as nat)
    }

    /// Creates a new selector from an array of routes, with the default dark theme.
    ///
    /// The array must hold at least one route, and no more than 12, the number of cells in
    /// the menu: for any other array no selector is made, and the error says which bound
    /// was broken. A new selector has its first route selected.
    pub fn new(routes: [Route<F>; N]) -> (result: Result<Self, SelectError>)
        ensures
            result is Ok <==> 1 <= N <= 12,
            result == Err::<Self, SelectError>(SelectError::NoRoutes) <==> N == 0,
            result == Err::<Self, SelectError>(SelectError::TooManyRoutes) <==> N > 12,
            result matches Ok(select) ==> select@ == (SimpleSelectView {
                routes: routes@,
                theme: theme_dark(),
                state: SelectorState::initial(),
            }),
    {
        Self::new_with_theme(routes, theme_dark())
    }

    /// Creates a new selector from an array of routes with a provided custom color theme.
    ///
    /// The array must hold at least one route, and no more than 12, the number of cells in
    /// the menu: for any other array no selector is made, and the error says which bound
    /// was broken. A new selector has its first route selected.
    pub fn new_with_theme(routes: [Route<F>; N], theme: SimpleSelectTheme) -> (result: Result<
        Self,
        SelectError,
    >)
        ensures
            result is Ok <==> 1 <= N <= 12,
            result == Err::<Self, SelectError>(SelectError::NoRoutes) <==> N == 0,
            result == Err::<Self, SelectError>(SelectError::TooManyRoutes) <==> N > 12,
            result matches Ok(select) ==> select@ == (SimpleSelectView {
                routes: routes@,
                theme,
                state: SelectorState::initial(),
            }),
    {
        if N == 0 {
            Err(SelectError::NoRoutes)
        } else if N > render::MAX_ROUTES {
            Err(SelectError::TooManyRoutes)
        } else {
            Ok(SimpleSelect { routes, theme, state: SelectorState::new() })
        }
    }

    /// Programatically selects an autonomous route by index.
    ///
    /// The route that was selected before is marked dirty. The display is left alone: the
    /// next call of `tick` draws both cells.
    pub fn select(&mut self, index: usize)
        requires
            index < N,
        ensures
            final(self)@.routes == old(self)@.routes,
            final(self)@.theme == old(self)@.theme,
            final(self)@.state == old(self)@.state.after_select(index),
            final(self)@.state.wf(N as nat),
    {
        proof {
            use_type_invariant(&*self);
        }
        let mut state: SelectorState = self.state;
        state.select(index);
        self.state = state;
    }

    /// Describes the whole menu as it is to be drawn before the first poll.
    pub fn draw_menu(&self) -> (menu: MenuDrawing)
        ensures
            menu.background == render::spec_draw_background(&self@.theme),
            menu.borders@ == render::spec_draw_borders(&self@.theme),
            menu.items@ == self@.drawings(self@.menu_cells()),
            menu.items@.len() == N,
    {
        proof {
            use_type_invariant(&*self);
        }
        let mut items: Vec<ItemDrawing> = Vec::new();
        let mut i: usize = 0;
        while i < N
            invariant
                i <= N,
                items@.len() == i,
                forall|k: int|
                    0 <= k < i ==> items@[k] == self@.drawing(#[trigger] self@.menu_cells()[k]),
            decreases N - i,
        {
            items.push(
                render::draw_item(
                    &self.theme,
                    self.routes[i].name,
                    i,
                    i == self.state.selection,
                    false,
                ),
            );
            i = i + 1;
        }
        proof {
            assert(items@ =~= self@.drawings(self@.menu_cells()));
        }
        MenuDrawing {
            background: render::draw_background(&self.theme),
            borders: render::draw_borders(&self.theme),
            items,
        }
    }

    /// Handles one poll of the touchscreen, and returns the cells that have to be drawn,
    /// in the order of drawing.
    ///
    /// The touch is handled first: a press is followed from cell to cell, and a touch that
    /// ends on the pressed cell selects its route. Then a pending `select` is brought to
    /// the display.
    pub fn tick(&mut self, touch: &TouchEvent) -> (items: Vec<ItemDrawing>)
        ensures
            final(self)@.routes == old(self)@.routes,
            final(self)@.theme == old(self)@.theme,
            final(self)@.state == old(self)@.state.after_tick(N as nat, *touch),
            items@ == old(self)@.drawings(old(self)@.state.tick_draws(N as nat, *touch)),
            final(self)@.state.wf(N as nat),
    {
        proof {
            use_type_invariant(&*self);
        }
        let mut state: SelectorState = self.state;
        let cells: Vec<CellDraw> = state.tick(N, touch);
        self.state = state;
        let mut items: Vec<ItemDrawing> = Vec::new();
        let mut i: usize = 0;
        while i < cells.len()
            invariant
                i <= cells@.len(),
                items@.len() == i,
                self@.routes == old(self)@.routes,
                self@.theme == old(self)@.theme,
                forall|k: int| 0 <= k < cells@.len() ==> (#[trigger] cells@[k]).index < N,
                forall|k: int| 0 <= k < i ==> items@[k] == self@.drawing(#[trigger] cells@[k]),
            decreases cells@.len() - i,
        {
            let cell: CellDraw = cells[i];
            items.push(
                render::draw_item(
                    &self.theme,
                    self.routes[cell.index].name,
                    cell.index,
                    cell.selected,
                    cell.active,
                ),
            );
            i = i + 1;
        }
        proof {
            assert(items@ =~= old(self)@.drawings(cells@));
        }
        items
    }

    /// The index of the route that runs when the autonomous period begins.
    pub fn selection(&self) -> (index: usize)
        ensures
            index == self@.state.selection,
            index < N,
    {
        proof {
            use_type_invariant(&*self);
        }
        self.state.selection
    }

    /// The state of the selector. Each index in it names one of the routes, of which
    /// there are between 1 and 12.
    pub fn state(&self) -> (state: SelectorState)
        ensures
            state == self@.state,
            state.wf(N as nat),
            1 <= N <= render::MAX_ROUTES,
    {
        proof {
            use_type_invariant(&*self);
        }
        self.state
    }

    /// The routes, in the order of the menu.
    pub fn routes(&self) -> (routes: &[Route<F>; N])
        ensures
            routes@ == self@.routes,
    {
        &self.routes
    }

    /// The color theme.
    pub fn theme(&self) -> (theme: &SimpleSelectTheme)
        ensures
            *theme == self@.theme,
    {
        &self.theme
    }
}

impl<F: Copy, const N: usize> Selector for SimpleSelect<F, N> {
    type Routine = F;

    /// Picks the routine of the selected route.
    fn pick(&self) -> (routine: F)
        ensures
            routine == self@.routes[self@.state.selection as int].callback,
    {
        proof {
            use_type_invariant(&*self);
        }
        self.routes[self.state.selection].callback
    }
}

} // verus!
