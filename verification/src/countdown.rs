//! Countdown timers toward a target instant, with the remaining time
//! decomposed for display.

use vstd::prelude::*;

verus! {

/// One countdown toward a target instant (seconds on the caller's clock).
#[derive(Debug, Clone, PartialEq, Eq)]
pub struct Countdown {
    pub id: i64,
    pub owner_id: i64,
    pub name: String,
    pub target_seconds: i64,
    pub notify_enabled: bool,
}

/// What a caller supplies to create a countdown; notification defaults on.
#[derive(Debug, Clone, PartialEq, Eq)]
pub struct CreateCountdownInput {
    pub name: String,
    pub target_seconds: i64,
    pub notify_enabled: Option<bool>,
}

/// A countdown rendered for display: the time to (or since) the target,
/// split into days, hours and minutes of its absolute value.
#[derive(Debug, Clone, PartialEq, Eq)]
pub struct CountdownResponse {
    pub id: i64,
    pub name: String,
    pub target_seconds: i64,
    pub notify_enabled: bool,
    pub remaining_days: i64,
    pub remaining_hours: i64,
    pub remaining_minutes: i64,
    pub is_expired: bool,
}

/// Builds a fresh countdown from creation input, under the given row id and
/// owner.
pub fn new_countdown(id: i64, owner_id: i64, input: CreateCountdownInput) -> (r: Countdown)
    ensures
        r.id == id && r.owner_id == owner_id && r.name == input.name && r.target_seconds
            == input.target_seconds,
        r.notify_enabled == if input.notify_enabled is Some {
            input.notify_enabled->0
        } else {
            true
        },
{
    let notify_enabled = match input.notify_enabled {
        Some(b) => b,
        None => true,
    };
    Countdown { id, owner_id, name: input.name, target_seconds: input.target_seconds, notify_enabled }
}

impl Countdown {
    /// Renders the countdown against the current instant. A target in the
    /// past is expired, and the decomposition then shows how long ago it
    /// passed.
    pub fn to_response(&self, now_seconds: i64) -> (r: CountdownResponse)
        ensures
            r.id == self.id && r.name == self.name && r.target_seconds == self.target_seconds
                && r.notify_enabled == self.notify_enabled,
            ({
                let dur = self.target_seconds - now_seconds;
                let total = if dur < 0 {
                    -dur
                } else {
                    dur
                };
                &&& r.is_expired == (dur < 0)
                &&& r.remaining_days == total / 86400
                &&& r.remaining_hours == (total % 86400) / 3600
                &&& r.remaining_minutes == (total % 3600) / 60
            }),
    {
        let dur: i128 = self.target_seconds as i128 - now_seconds as i128;
        let is_expired = dur < 0;
        let total: i128 = if dur < 0 {
            -dur
        } else {
            dur
        };
        let remaining_days = (total / 86400) as i64;
        let remaining_hours = ((total % 86400) / 3600) as i64;
        let remaining_minutes = ((total % 3600) / 60) as i64;
        CountdownResponse {
            id: self.id,
            name: self.name.clone(),
            target_seconds: self.target_seconds,
            notify_enabled: self.notify_enabled,
            remaining_days,
            remaining_hours,
            remaining_minutes,
            is_expired,
        }
    }
}

} // verus!
