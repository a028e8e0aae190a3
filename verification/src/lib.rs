//! Core of a text-mode kiosk display: an attributed-character grid shared
//! between an application-loop writer and a hardware-synchronized scan-out
//! reader, a terminal-style cursor that paints the grid, a library of
//! full-screen repaint procedures, and the input-driven screen-selection
//! state machine.

pub mod cell;
pub mod cursor;
pub mod grid;
pub mod guard;
pub mod kiosk;
pub mod screens;
