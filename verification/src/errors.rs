//! The error taxonomy shared by the library's components.

use vstd::prelude::*;

verus! {

/// Everything a playback operation can fail with.  Validation errors
/// (`NotInVoice`, `NoActiveSession`, `QueueCapacityExceeded`, `IndexOutOfRange`)
/// are raised before any mutation; the remote-failure variants
/// (`AudioNodeError`, `VoiceConnectorError`, `ConfigStoreError`) are produced
/// at the boundary where an outside call failed and carry no further detail.
#[derive(Clone, Copy, PartialEq, Eq, Structural, Debug)]
pub enum BotError {
    /// The user is not in a voice channel and no target channel was given.
    NotInVoice,
    /// The operation needs a playback session and the guild has none.
    NoActiveSession,
    /// Admitting the tracks would exceed the guild's maximum queue length;
    /// carries that limit.
    QueueCapacityExceeded(u32),
    /// A remove or peek used an index at or past the end of the queue.
    IndexOutOfRange,
    /// The remote audio node reported a failure.
    AudioNodeError,
    /// The voice connector failed to join or leave a channel.
    VoiceConnectorError,
    /// The configuration store could not be read or written.
    ConfigStoreError,
}

impl BotError {
    /// The user-facing description of the error.
    pub fn message(&self) -> (r: &'static str)
        ensures
            r@ == self.message_spec(),
    {
        match self {
            BotError::NotInVoice => "Not in a voice channel",
            BotError::NoActiveSession => "No active playback session",
            BotError::QueueCapacityExceeded(_) => "Queue limit reached",
            BotError::IndexOutOfRange => "Index out of range",
            BotError::AudioNodeError => "Audio node request failed",
            BotError::VoiceConnectorError => "Voice connection failed",
            BotError::ConfigStoreError => "Configuration store failed",
        }
    }

    /// What `message` returns for each variant.
    pub open spec fn message_spec(&self) -> Seq<char> {
        match self {
            BotError::NotInVoice => "Not in a voice channel"@,
            BotError::NoActiveSession => "No active playback session"@,
            BotError::QueueCapacityExceeded(_) => "Queue limit reached"@,
            BotError::IndexOutOfRange => "Index out of range"@,
            BotError::AudioNodeError => "Audio node request failed"@,
            BotError::VoiceConnectorError => "Voice connection failed"@,
            BotError::ConfigStoreError => "Configuration store failed"@,
        }
    }
}

} // verus!
