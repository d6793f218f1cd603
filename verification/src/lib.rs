//! Core logic of a window-and-render-surface lifecycle manager.
//!
//! The library owns the decisions: how platform window events drive the
//! resize state machine, how raw keyboard scan codes decode into logical
//! keys, how per-frame input transitions accumulate, in which order the
//! swap-chain resources must be torn down and rebuilt, and how the
//! registry of logical viewports allocates and relays out its entries.
//! The platform calls themselves (window messages, cursor warps, the
//! graphics device) are performed by an unverified shell that feeds this
//! library plain values and executes the command sequences it returns.

use vstd::prelude::*;

pub mod decoder;
pub mod input;
pub mod keys;
pub mod surface;
pub mod viewport;
pub mod window;

verus! {

/// Width floor answered to any size-constraint query.
pub const MIN_CLIENT_WIDTH: u32 = 800;

/// Height floor answered to any size-constraint query.
pub const MIN_CLIENT_HEIGHT: u32 = 600;

} // verus!
