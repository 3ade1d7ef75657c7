//! Argument lists for the external command-line network-configuration
//! utility. The library fixes the exact arguments; the shell spawns the
//! process and maps a non-zero exit status to `SubprocessError`.

use vstd::prelude::*;

verus! {

/// The arguments that rename an interface: they name the interface by its
/// current display name and give the new one.
pub fn set_interface_name(name: &str, newname: &str) -> (args: Vec<String>)
    ensures
        args@.len() == 7,
        args@[0]@ == "int"@,
        args@[1]@ == "set"@,
        args@[2]@ == "int"@,
        args@[3]@ == "name="@,
        args@[4]@ == name@,
        args@[5]@ == "newname="@,
        args@[6]@ == newname@,
{
    let mut args: Vec<String> = Vec::new();
    args.push(String::from_str("int"));
    args.push(String::from_str("set"));
    args.push(String::from_str("int"));
    args.push(String::from_str("name="));
    args.push(String::from_str(name));
    args.push(String::from_str("newname="));
    args.push(String::from_str(newname));
    args
}

/// The arguments that assign a static IPv4 address and mask to the
/// interface named by its display name.
pub fn set_interface_ip(name: &str, address: &str, mask: &str) -> (args: Vec<String>)
    ensures
        args@.len() == 11,
        args@[0]@ == "int"@,
        args@[1]@ == "ipv4"@,
        args@[2]@ == "set"@,
        args@[3]@ == "address"@,
        args@[4]@ == "name="@,
        args@[5]@ == name@,
        args@[6]@ == "source=static"@,
        args@[7]@ == "address="@,
        args@[8]@ == address@,
        args@[9]@ == "mask="@,
        args@[10]@ == mask@,
{
    let mut args: Vec<String> = Vec::new();
    args.push(String::from_str("int"));
    args.push(String::from_str("ipv4"));
    args.push(String::from_str("set"));
    args.push(String::from_str("address"));
    args.push(String::from_str("name="));
    args.push(String::from_str(name));
    args.push(String::from_str("source=static"));
    args.push(String::from_str("address="));
    args.push(String::from_str(address));
    args.push(String::from_str("mask="));
    args.push(String::from_str(mask));
    args
}

} // verus!
