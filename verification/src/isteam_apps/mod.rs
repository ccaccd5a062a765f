//! The interface `ISteamApps` of the Web API.

use vstd::prelude::*;
use vstd::string::*;

pub mod get_app_list;

verus! {

/// The name of the interface.
pub open spec fn interface() -> Seq<char> {
    "ISteamApps"@
}

/// The name of the interface.
pub fn get_interface() -> (name: String)
    ensures
        name@ == interface(),
{
    String::from_str("ISteamApps")
}

} // verus!
