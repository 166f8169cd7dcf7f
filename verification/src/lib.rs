//! Data model and verified decision logic for an OpenXR remoting client.
use vstd::prelude::*;

pub mod camera;
pub mod codes;
pub mod enumerate;
pub mod frame;
pub mod loader;
pub mod session;
pub mod setup;
pub mod types;

verus! {
}
