//! Control core of a terminal price board: the table model, the mapping from
//! keys to actions, the search mode, the queue of actions, the state updates
//! and the event clock. Reading the terminal, asking the provider and drawing
//! are left to the caller.

pub mod action;
pub mod app;
pub mod clock;
pub mod control;
pub mod laws;
pub mod queue;
pub mod rows;
pub mod search;
pub mod table;
pub mod theme;
