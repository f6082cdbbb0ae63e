//! The process supervisor's decisions: the fixed command line the player
//! process is spawned with, the per-instance endpoint name, and the bounded
//! polling for the endpoint to appear. Spawning, sleeping and killing are
//! the runner's job.

use vstd::prelude::*;
use crate::text::spec_dec;

verus! {

/// How long to wait between polls for the transport endpoint.
pub const CONNECT_POLL_INTERVAL_MS: u64 = 100;

/// How many times the endpoint is polled before the startup is abandoned.
pub const CONNECT_POLL_MAX_ATTEMPTS: u32 = 50;

/// The endpoint file name for this instance, scoped to the process id so
/// concurrent instances never collide.
pub fn endpoint_file_name(pid: u64) -> (r: String)
    ensures
        r@ == "vibecast_mpv_"@ + spec_dec(pid as nat) + ".sock"@,
{
    let mut name = String::from_str("vibecast_mpv_");
    let digits = crate::text::dec_string(pid);
    name.append(digits.as_str());
    name.append(".sock");
    name
}

/// The player command line: no video or terminal output, the loudness
/// telemetry filter enabled, the instance's endpoint, the configured
/// volume, and the stream URL. Fixed but for those three.
pub fn spawn_args(url: &str, volume: u8, endpoint: &str) -> (r: Vec<String>)
    ensures
        r@.len() == 7,
        r@[0]@ == "--no-video"@,
        r@[1]@ == "--no-terminal"@,
        r@[2]@ == "--really-quiet"@,
        r@[3]@ == "--input-ipc-server="@ + endpoint@,
        r@[4]@ == "--volume="@ + spec_dec(volume as nat),
        r@[5]@ == "--af=lavfi=[astats=metadata=1:reset=1:measure_perchannel=none]"@,
        r@[6]@ == url@,
{
    let mut args: Vec<String> = Vec::new();
    args.push(String::from_str("--no-video"));
    args.push(String::from_str("--no-terminal"));
    args.push(String::from_str("--really-quiet"));
    let mut ipc = String::from_str("--input-ipc-server=");
    ipc.append(endpoint);
    args.push(ipc);
    let mut vol = String::from_str("--volume=");
    let digits = crate::text::dec_string(volume as u64);
    vol.append(digits.as_str());
    args.push(vol);
    args.push(String::from_str("--af=lavfi=[astats=metadata=1:reset=1:measure_perchannel=none]"));
    args.push(String::from_str(url));
    args
}

/// What the runner does after one endpoint poll.
#[derive(Debug, Clone, Copy, PartialEq, Eq, Structural)]
pub enum PollDecision {
    /// The endpoint appeared: open the transport.
    Connect,
    /// Not yet: wait one interval and poll again.
    RetryAfterDelay,
    /// The attempt budget is spent: kill and reap the spawned process and
    /// fail the startup with `ProcessStartupTimeout`.
    GiveUp,
}

/// The bounded wait for the transport endpoint of a freshly spawned player.
pub struct ConnectPoller {
    pub attempts: u32,
}

impl ConnectPoller {
    /// A fresh poller with its whole attempt budget.
    pub fn new() -> (r: Self)
        ensures
            r.attempts == 0,
    {
        ConnectPoller { attempts: 0 }
    }

    /// Accounts one poll. The endpoint being ready means connect, whatever
    /// the count; otherwise the poller retries until the budget is spent,
    /// and gives up exactly on the last failed attempt — the wait for the
    /// endpoint is bounded.
    pub fn on_poll(&mut self, endpoint_ready: bool) -> (d: PollDecision)
        requires
            old(self).attempts < CONNECT_POLL_MAX_ATTEMPTS,
        ensures
            endpoint_ready ==> d == PollDecision::Connect && final(self).attempts == old(
                self,
            ).attempts,
            !endpoint_ready ==> final(self).attempts == old(self).attempts + 1,
            !endpoint_ready && old(self).attempts + 1 < CONNECT_POLL_MAX_ATTEMPTS ==> d
                == PollDecision::RetryAfterDelay,
            !endpoint_ready && old(self).attempts + 1 == CONNECT_POLL_MAX_ATTEMPTS ==> d
                == PollDecision::GiveUp,
            d == PollDecision::GiveUp ==> final(self).attempts == CONNECT_POLL_MAX_ATTEMPTS,
    {
        if endpoint_ready {
            return PollDecision::Connect;
        }
        self.attempts = self.attempts + 1;
        if self.attempts < CONNECT_POLL_MAX_ATTEMPTS {
            PollDecision::RetryAfterDelay
        } else {
            PollDecision::GiveUp
        }
    }
}

} // verus!
