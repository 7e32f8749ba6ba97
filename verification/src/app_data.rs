//! The application's shared data.

use vstd::prelude::*;

verus! {

/// The data shared by the application's widgets: one counter.
#[derive(Clone, Copy, Debug, PartialEq, Eq)]
pub struct AppData {
    pub count: u64,
}

impl AppData {
    /// The data at launch: a counter that stands at zero.
    pub fn new() -> (data: AppData)
        ensures
            data.count == 0,
    {
        AppData { count: 0 }
    }

    /// One click on the counter button: the counter goes up by one.
    pub fn increment(&mut self)
        requires
            old(self).count < u64::MAX,
        ensures
            final(self).count == old(self).count + 1,
    {
        self.count = self.count + 1;
    }
}

} // verus!
