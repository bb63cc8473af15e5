use vstd::prelude::*;

verus! {

/// What the sharing page shows about the running session.
pub struct Props {
    pub room_id: String,
    pub invite_link: String,
}

} // verus!
