//! Whether a looked-up pass grants passage.

use vstd::prelude::*;

verus! {

/// The state a leave request must be in for the holder to pass.
pub open spec fn agreed_state() -> Seq<char> {
    seq!['a', 'g', 'r', 'e', 'e']
}

/// Whether a looked-up QR code grants passage: the lookup succeeded and the
/// holder's leave request exists and is in the agreed state.
pub fn approved(status_success: bool, request_state: &Option<String>) -> (r: bool)
    ensures
        r == (status_success && request_state is Some && request_state->Some_0@ == agreed_state()),
{
    if !status_success {
        return false;
    }
    match request_state {
        Some(s) => {
            let agree = "agree".to_owned();
            proof {
                reveal_strlit("agree");
                assert(agree@ =~= agreed_state());
            }
            *s == agree
        },
        None => false,
    }
}

} // verus!
