//! Clock-tree bring-up for the RP2040.
//!
//! The part wakes up on a slow ring oscillator. The bring-up starts the
//! crystal oscillator, configures the two PLLs, moves the reference and
//! system clocks over without a glitch, restarts the derived clocks and
//! calibrates the tick that timers count.
//!
//! Nothing in this library touches a register. A routine of
//! [`sys_clock`] returns a program, a list of steps; a
//! [`sequencer::Sequencer`] hands out one bus access at a time and is told
//! what came of it. Whoever drives it performs the accesses, on the bus or
//! on a [`register_space::RegisterSpace`], and owns the loop: a wait that
//! the hardware never meets is a loop that never ends, there and not here.
//!
//! What holds of every run is proved in [`sequencer`] for any program and
//! in [`ordering`] and [`clock_tree`] for the bring-up.
pub mod clock_tree;
pub mod control_registers;
pub mod gpio;
pub mod ordering;
pub mod register_space;
pub mod sequencer;
pub mod simulation;
pub mod sys_clock;
