//! Short-code allocation and redirect engine of a URL shortener: code generation, validation
//! of URLs and custom codes, the link registry and its invariants, and the creation and
//! redirect flows, each with a verified contract.

use vstd::prelude::*;

pub mod code;
pub mod error;
pub mod flow;
pub mod laws;
pub mod link;
pub mod service;
pub mod session;
pub mod validate;

verus! {

} // verus!
