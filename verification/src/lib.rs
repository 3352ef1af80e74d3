//! Core of a small 2D tile game with hot-reloadable logic.
//!
//! The library holds everything that can be stated and proved: texel-space
//! frame packing and texture registry bookkeeping, edge-triggered input
//! state, fixed-point movement, tile collision and camera easing, the
//! per-instance sprite record layout, and the load/update state machine that
//! keeps game state alive across module reloads. A thin host owns the
//! window, the GL context and the event loop, and drives this library with
//! plain values.

use vstd::prelude::*;

pub mod controls;
pub mod game;
pub mod geom;
pub mod shader;
pub mod sprite;
pub mod texture;
pub mod watch;
