use vstd::prelude::*;

verus! {

/// Acknowledges a notification sound path. This capability is a documented
/// no-op: the server validates and echoes the path through the tool surface
/// but performs no side effect, keeps no state, and never fails.
pub fn set_notification_sound(sound_path: &str) -> (r: Result<(), String>)
    ensures
        r is Ok,
{
    let _ = sound_path;
    Ok(())
}

} // verus!
