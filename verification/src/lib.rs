//! Studio model, animation event, input key and triangle-drawing logic of a Half-Life
//! engine binding: the plain data that the engine's records hold, and the decisions that
//! the binding takes on them.
use vstd::prelude::*;

pub mod activity;
pub mod cstr;
pub mod decimal;
pub mod event_kind;
pub mod key;
pub mod motion;
pub mod studio;
pub mod tri;

verus! {

} // verus!
