//! What the listener of the bulletin board reports.
use crate::contact_status::ContactStatus;
use vstd::prelude::*;

verus! {

/// Who is told when the thread behind the contact URL has changed.
pub trait BbsListenerDelegate {
    fn on_update_contact_status(&self, contact_status: &ContactStatus);
}

} // verus!
