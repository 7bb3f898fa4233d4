//! What is known of the thread behind the contact URL.
use vstd::prelude::*;

verus! {

/// The title of the thread behind the contact URL, and the number of its
/// responses.
#[derive(Clone, Debug)]
pub struct ContactStatus {
    pub title: String,
    pub res_count: u16,
}

impl Default for ContactStatus {
    fn default() -> (status: Self)
        ensures
            status.title@.len() == 0,
            status.res_count == 0,
    {
        ContactStatus { title: String::new(), res_count: 0 }
    }
}

} // verus!
