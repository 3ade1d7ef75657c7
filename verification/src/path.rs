//! The filesystem path under which an adapter's device is opened.

use vstd::prelude::*;

verus! {

/// The device path for an adapter: the global device namespace prefix, the
/// adapter's GUID-equivalent string, and the driver's device suffix.
pub fn device_path(guid: &str) -> (p: String)
    ensures
        p@ == "\\\\.\\Global\\"@ + guid@ + ".tap"@,
{
    let mut p = String::from_str("\\\\.\\Global\\");
    p.append(guid);
    p.append(".tap");
    proof {
        assert(p@ =~= "\\\\.\\Global\\"@ + guid@ + ".tap"@);
    }
    p
}

} // verus!
