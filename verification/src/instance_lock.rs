//! One daemon per instance: the name of the lock file that an instance
//! holds. Creating and locking the file happen outside the library.

use vstd::prelude::*;

verus! {

/// `oc-bridge.<instance_id>.lock`.
pub fn lock_file_name(instance_id: &str) -> (s: String)
    ensures
        s@ == "oc-bridge."@ + instance_id@ + ".lock"@,
{
    let mut s = String::from_str("oc-bridge.");
    s.append(instance_id);
    s.append(".lock");
    proof {
        reveal_strlit("oc-bridge.");
        reveal_strlit(".lock");
    }
    s
}

} // verus!
