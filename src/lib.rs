//! Discrete lunar classification with exact integer arithmetic: the named
//! phase of the moon from a cycle position in eighths or from a Unix time in
//! whole seconds, and the zodiac sign of an ecliptic longitude.

use vstd::prelude::*;

pub mod lunation;
pub mod phase;
pub mod zodiac;

verus! {

} // verus!
