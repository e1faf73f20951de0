use vstd::prelude::*;

verus! {

/// How long a controller must have been seen before a front-end
/// connects to it, in milliseconds.
pub const CONNECT_SETTLE_MS: u64 = 400;

/// Pause between two looks for a controller while none is connected, in milliseconds.
pub const CONNECTION_CHECK_MS: u64 = 200;

/// Pause between two readings of the battery, in seconds.
pub const BATTERY_REFRESH_SECS: u64 = 2;

/// How long a front-end waits for the daemon to let go of the controller
/// before it opens it for an update, in milliseconds.
pub const DAEMON_RELEASE_WAIT_MS: u64 = 1500;

/// Pause of a polling thread that found the controller busy, in milliseconds.
pub const POLL_RETRY_MS: u64 = 8;

/// What the worker of an update or of a version query tells the front-end.
#[derive(Clone, Debug, PartialEq, Eq)]
pub enum ProgressUpdate {
    Progress(u32),
    Status(String),
    Complete,
    Error(String),
    LatestVersion(String),
}

/// What a front-end shows of firmware: the update that runs, the latest
/// version that was found, and the last messages.
#[derive(Clone, Debug, PartialEq, Eq)]
pub struct FirmwareStatus {
    pub updating: bool,
    pub checking_latest: bool,
    pub progress: u32,
    pub status: String,
    pub latest_version: Option<String>,
    pub status_message: String,
    pub error_message: String,
}

impl FirmwareStatus {
    /// Nothing runs, nothing is known.
    pub fn new() -> (status: FirmwareStatus)
        ensures
            !status.updating,
            !status.checking_latest,
            status.progress == 0,
            status.status@ == Seq::<char>::empty(),
            status.latest_version is None,
            status.status_message@ == Seq::<char>::empty(),
            status.error_message@ == Seq::<char>::empty(),
    {
        FirmwareStatus {
            updating: false,
            checking_latest: false,
            progress: 0,
            status: String::new(),
            latest_version: None,
            status_message: String::new(),
            error_message: String::new(),
        }
    }

    /// Takes in one message of a worker. Returns whether the message
    /// ends the work, well or not: then the front-end lets the daemon
    /// have the controller again.
    pub fn apply(&mut self, update: ProgressUpdate) -> (ended: bool)
        ensures
            ended == (update is Complete || update is Error),
            match update {
                ProgressUpdate::Progress(p) => *final(self) == (FirmwareStatus {
                    progress: p,
                    ..*old(self)
                }),
                ProgressUpdate::Status(s) => *final(self) == (FirmwareStatus {
                    status: s,
                    ..*old(self)
                }),
                ProgressUpdate::Complete => {
                    &&& !final(self).updating
                    &&& final(self).progress == 100
                    &&& final(self).status_message@ == "Firmware update completed"@
                    &&& *final(self) == (FirmwareStatus {
                        updating: false,
                        progress: 100,
                        status_message: final(self).status_message,
                        ..*old(self)
                    })
                },
                ProgressUpdate::Error(e) => *final(self) == (FirmwareStatus {
                    updating: false,
                    checking_latest: false,
                    progress: 0,
                    error_message: e,
                    ..*old(self)
                }),
                ProgressUpdate::LatestVersion(v) => *final(self) == (FirmwareStatus {
                    latest_version: Some(v),
                    checking_latest: false,
                    ..*old(self)
                }),
            },
    {
        match update {
            ProgressUpdate::Progress(p) => {
                self.progress = p;
                false
            },
            ProgressUpdate::Status(s) => {
                self.status = s;
                false
            },
            ProgressUpdate::Complete => {
                self.updating = false;
                self.status_message = "Firmware update completed".to_owned();
                self.progress = 100;
                true
            },
            ProgressUpdate::Error(e) => {
                self.updating = false;
                self.checking_latest = false;
                self.error_message = e;
                self.progress = 0;
                true
            },
            ProgressUpdate::LatestVersion(v) => {
                self.latest_version = Some(v);
                self.checking_latest = false;
                false
            },
        }
    }
}

/// Milliseconds from `since` to `now`; none if the clock went back.
pub open spec fn spec_since(since: u64, now: u64) -> int {
    if now >= since {
        now - since
    } else {
        0
    }
}

/// What a front-end that holds no controller does when it has looked at
/// the bus: whether it connects now, and since when it has been seeing a
/// controller. It connects to a controller that it has been seeing for
/// the settle time; it notes the time when it sees one first; and it
/// forgets the time when none is there.
pub open spec fn spec_connect_decision(
    pending_since: Option<u64>,
    now: u64,
    present: bool,
) -> (Option<u64>, bool) {
    if present {
        match pending_since {
            None => (Some(now), false),
            Some(since) => if spec_since(since, now) >= CONNECT_SETTLE_MS {
                (None, true)
            } else {
                (pending_since, false)
            },
        }
    } else {
        (None, false)
    }
}

/// Decides whether to connect to a controller that is on the bus.
pub fn connect_decision(pending_since: Option<u64>, now_ms: u64, present: bool) -> (r: (
    Option<u64>,
    bool,
))
    ensures
        r == spec_connect_decision(pending_since, now_ms, present),
{
    if present {
        match pending_since {
            None => (Some(now_ms), false),
            Some(since) => {
                let waited = if now_ms >= since {
                    now_ms - since
                } else {
                    0
                };
                if waited >= CONNECT_SETTLE_MS {
                    (None, true)
                } else {
                    (pending_since, false)
                }
            },
        }
    } else {
        (None, false)
    }
}

} // verus!
