use vstd::prelude::*;

use crate::Interval;

verus! {

/// The do-nothing [`Interval`]: each unexpired poll returns immediately,
/// busy-waiting until the deadline is reached.
#[derive(Default, Clone)]
pub struct NonInterval {}

impl NonInterval {
    pub fn new() -> Self {
        NonInterval {}
    }
}

impl Interval for NonInterval {
    fn interval(&self) {
    }
}

} // verus!
