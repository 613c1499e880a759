//! A display as the display manager names it, and the command argument that
//! rotates it.

use vstd::prelude::*;
use crate::rotation::{rotation_name, Rotation};

verus! {

/// A connected display, known by its output name.
#[derive(Clone, Debug, PartialEq, Eq)]
pub struct PlasmaMonitor {
    pub name: String,
}

/// The argument that asks the display manager to give output `name` the
/// rotation `r`: `output.<name>.rotation.<rotation>`.
pub open spec fn rotation_argument_of(name: Seq<char>, r: Rotation) -> Seq<char> {
    "output."@ + name + ".rotation."@ + rotation_name(r)
}

impl PlasmaMonitor {
    /// The display's output name, as shown when choosing a display.
    pub fn to_string(&self) -> (r: String)
        ensures
            r@ == self.name@,
    {
        self.name.clone()
    }

    /// The argument that asks the display manager to rotate this display.
    pub fn rotation_argument(&self, rotation: Rotation) -> (r: String)
        ensures
            r@ == rotation_argument_of(self.name@, rotation),
    {
        let mut arg = String::from_str("output.");
        arg.append(self.name.as_str());
        arg.append(".rotation.");
        arg.append(rotation.to_str());
        arg
    }
}

} // verus!
