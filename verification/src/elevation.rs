//! Which operations need administrator privileges.

use vstd::prelude::*;

verus! {

/// Installing and uninstalling the service need elevation when the process
/// is not elevated; nothing else does.
pub fn requires_elevation(operation: &str, elevated: bool) -> (r: bool)
    ensures
        r == ((operation@ == "install"@ || operation@ == "uninstall"@) && !elevated),
{
    let op = operation.to_owned();
    if op == String::from_str("install") || op == String::from_str("uninstall") {
        !elevated
    } else {
        false
    }
}

} // verus!
