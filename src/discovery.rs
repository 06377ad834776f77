//! How peripherals found by a scan are named and picked.

use vstd::prelude::*;

verus! {

/// The name under which a peripheral is listed: its advertised local name,
/// or `Unknown` when it advertises none.
pub open spec fn listed_name(local_name: Option<String>) -> Seq<char> {
    match local_name {
        Some(name) => name@,
        None => "Unknown"@,
    }
}

/// The name under which a peripheral with the advertised `local_name` is
/// listed.
pub fn peripheral_name(local_name: Option<String>) -> (r: String)
    ensures
        r@ == listed_name(local_name),
{
    match local_name {
        Some(name) => name,
        None => String::from_str("Unknown"),
    }
}

/// Whether the peripheral with the advertised `local_name` is the one asked
/// for under `wanted`.
pub fn is_wanted_peripheral(local_name: Option<String>, wanted: &String) -> (r: bool)
    ensures
        r == (listed_name(local_name) == wanted@),
{
    let name = peripheral_name(local_name);
    name == *wanted
}

} // verus!
