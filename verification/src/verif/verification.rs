use vstd::prelude::*;

use crate::verif::Input;

verus! {

/// A bare record of one verification round trip. The remote calls
/// themselves are driven by the caller; this record only carries what
/// the caller chooses to note down about them.
#[derive(Debug)]
pub struct Verification {
    /// Optional ID attached to the verified name-string.
    pub id: Option<String>,
    /// The verified name-string.
    pub name: String,
    /// How many retries the round trip needed.
    pub retries: i32,
}

impl Default for Verification {
    fn default() -> (r: Self)
        ensures
            r.id is None,
            r.name@ == Seq::<char>::empty(),
            r.retries == 0,
    {
        Verification { id: None, name: String::new(), retries: 0 }
    }
}

impl Verification {
    /// Creates an empty verification record for a batch of inputs. All
    /// fields start at their defaults; the caller fills them in as its
    /// round trips complete.
    pub fn new(_inputs: &Vec<Input>, _sources: &Option<Vec<i64>>) -> (r: Self)
        ensures
            r.id is None,
            r.name@ == Seq::<char>::empty(),
            r.retries == 0,
    {
        Verification { id: None, name: String::new(), retries: 0 }
    }
}

} // verus!
