//! An image-to-text recognition and translation service core.
//!
//! The library holds the verified heart of the service: the configuration
//! type, the error model, the serialization actor that guards the single
//! translation engine, the bounded offload pool model for recognition jobs,
//! and the orchestrator rules that map engine outcomes to responses.

use vstd::prelude::*;

pub mod actor;
pub mod bridge;
pub mod config;
pub mod errors;
pub mod imtranslate;
pub mod orchestrator;

verus! {

/// The fixed greeting served by the liveness route.
pub fn root_greeting() -> (r: &'static str)
    ensures
        r@ == "Hello, flameshot!"@,
{
    "Hello, flameshot!"
}

} // verus!
