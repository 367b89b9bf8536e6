//! What became of a broadcast.

use vstd::prelude::*;

verus! {

/// What a message's two ways out come to. It goes to the whole topic and, once
/// more, to the direct neighbours; it is delivered where either way worked, and
/// else the failure of the first way is reported.
pub fn delivery_outcome<E>(broadcast: Result<(), E>, neighbors: Result<(), E>) -> (outcome: Result<
    (),
    E,
>)
    ensures
        outcome == if broadcast is Ok || neighbors is Ok {
            Ok::<(), E>(())
        } else {
            broadcast
        },
{
    match broadcast {
        Ok(()) => Ok(()),
        Err(first) => match neighbors {
            Ok(()) => Ok(()),
            Err(_) => Err(first),
        },
    }
}

} // verus!
