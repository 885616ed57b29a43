use vstd::prelude::*;

pub mod ai_agent;
pub mod discord;
pub mod text;

verus! {

} // verus!
