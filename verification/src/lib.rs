//! # autons - Autonomous Selection & Routing Library
//!
//! `autons` provides the logic of autonomous route selectors for robot programs: a menu on
//! a touchscreen from which one of several routes is picked, and the order of the calls
//! that a competition makes on a robot that has such a menu.
//!
//! An "autonomous route" is a routine that runs on the robot during the autonomous period
//! of a match. Rather than one program for each route, a single program holds them all,
//! and the route is chosen at runtime.
//!
//! The library owns no display, reads no touchscreen and runs no routine. It decides:
//! [`simple::SimpleSelect`] takes what the touchscreen reported and says which cells of the
//! menu are to be drawn and how, and which route is selected; [`compete::hooks`] says what
//! is to be run when the competition changes its mode. The program around it draws, polls
//! and runs.

use vstd::prelude::*;

pub mod compete;
pub mod simple;

verus! {

/// A structure that picks an autonomous route to run.
pub trait Selector {
    /// What the selector hands out to be run.
    type Routine;

    /// Picks the routine to run now.
    fn pick(&self) -> Self::Routine;
}

} // verus!
