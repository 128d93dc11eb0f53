//! What a module declares about itself.
use vstd::prelude::*;

verus! {

/// Static information about a module.
pub trait ModuleInfo {
    /// The module's name.
    const NAME: &'static str;
}

} // verus!
