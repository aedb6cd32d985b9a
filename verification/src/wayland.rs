//! The state of a client of KWin's screencast Wayland protocol, and which
//! global of the registry it binds.

use vstd::prelude::*;

verus! {

/// The screencast manager bound from the registry, and the stream it opened.
pub struct ScreenCastState<Manager, Stream> {
    pub screencast_manager: Option<Manager>,
    pub stream: Option<Stream>,
}

impl<Manager, Stream> ScreenCastState<Manager, Stream> {
    /// No manager bound and no stream opened yet.
    pub fn new() -> (r: Self)
        ensures
            r.screencast_manager is None,
            r.stream is None,
    {
        ScreenCastState { screencast_manager: None, stream: None }
    }
}

/// The version at which a global of the registry is bound: the screencast
/// manager (`zkde_screencast_unstable_v1`) at its advertised version, but no
/// higher than 1; any other global is not bound.
pub open spec fn bind_version(interface: Seq<char>, version: u32) -> Option<u32> {
    if interface == "zkde_screencast_unstable_v1"@ {
        Some(if version < 1 { version } else { 1 })
    } else {
        None
    }
}

/// Only the screencast manager is bound, at a version that neither exceeds the
/// advertised one nor 1: the advertised version when it is 0, 1 otherwise.
pub proof fn lemma_only_the_manager_is_bound(interface: Seq<char>, version: u32)
    ensures
        bind_version(interface, version) is Some <==> interface == "zkde_screencast_unstable_v1"@,
        bind_version(interface, version) matches Some(v) ==> v <= version && v <= 1 && (version
            >= 1 ==> v == 1),
{
}

/// The version at which to bind the global `interface` advertised at
/// `version`, or none when it is not to be bound.
pub fn registry_global_bind_version(interface: &str, version: u32) -> (r: Option<u32>)
    ensures r == bind_version(interface@, version),
{
    let name: String = interface.to_owned();
    let manager: String = "zkde_screencast_unstable_v1".to_owned();
    if name == manager {
        Some(if version < 1 { version } else { 1 })
    } else {
        None
    }
}

} // verus!
