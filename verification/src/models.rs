use vstd::prelude::*;

verus! {

/// Title and body of a notification, as carried by the wire protocol.
pub struct NotificationParams {
    pub title: String,
    pub message: String,
}

/// Path of a notification sound file, as carried by the wire protocol.
pub struct SoundParams {
    pub sound_path: String,
}

/// Decoded arguments of the `send_notification` tool.
pub struct SendNotificationArgs {
    pub title: String,
    pub message: String,
}

/// Decoded arguments of the `send_notification_with_duration` tool.
pub struct SendNotificationWithDurationArgs {
    pub title: String,
    pub message: String,
    pub duration_seconds: Option<u32>,
}

/// Decoded arguments of the `set_notification_sound` tool.
pub struct SetNotificationSoundArgs {
    pub sound_path: String,
}

} // verus!
