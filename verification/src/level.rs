//! The level as the editor works on it.

use vstd::prelude::*;

verus! {

/// A level as the editor handles it: the list of placed objects, which the
/// editing commands read and change, and the rest of the level's data, which
/// is carried along unchanged.
pub struct Level<O, D> {
    pub objects: Vec<O>,
    pub data: D,
}

impl<O: Clone, D: Clone> Clone for Level<O, D> {
    /// A copy that holds a clone of each object, in order, and a clone of the data.
    fn clone(&self) -> (copy: Self)
        ensures
            copy.objects.len() == self.objects.len(),
            forall|i: int| 0 <= i < self.objects.len() ==> cloned(self.objects[i], #[trigger] copy.objects[i]),
            cloned(self.data, copy.data),
    {
        Level { objects: self.objects.clone(), data: self.data.clone() }
    }
}

} // verus!
