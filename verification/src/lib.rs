use vstd::prelude::*;

pub mod text;
pub mod transcript;
pub mod stamp;
pub mod json;
pub mod evidence;
pub mod audit;
pub mod workflow;
pub mod store;
pub mod tools;
pub mod hiring;
pub mod llm;
pub mod crew;
pub mod connector;
pub mod eval;
pub mod laws;
pub mod settings;

verus! {

} // verus!
