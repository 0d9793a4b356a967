//! One monitored client record and its three per-sweep checks.
//!
//! A record moves between Online and Offline through the liveness check
//! alone; the peer and tip checks refresh its counters while it is online.
//! Every check returns the event it owes the log, so that a caller can
//! report transitions without the library doing any output itself.

use vstd::prelude::*;

verus! {

use crate::BASE_PORT;
use crate::hex::hex_u64_value;
use crate::hex::parse_hex_u64;
use crate::rpc::extract_peer_count;
use crate::rpc::extract_tip_number;
use crate::rpc::peer_list_len;
use crate::rpc::tip_number_field;

/// The outcome of one liveness call, as the caller observed it.
#[derive(Clone, Copy, PartialEq, Eq, Debug)]
pub enum LivenessOutcome {
    /// Transport succeeded and the response reported success.
    Success,
    /// Transport succeeded but the response did not report success.
    ErrorResponse,
    /// Transport failed: the client did not respond at all.
    NoResponse,
}

/// What one liveness check asks the caller to log.
#[derive(Clone, Copy, PartialEq, Eq, Debug)]
pub enum LivenessEvent {
    /// The record came back online after `seconds_offline` seconds.
    CameOnline { seconds_offline: i64 },
    /// The record went offline on an error response.
    WentOfflineError,
    /// The record went offline because the client did not respond.
    WentOfflineNoResponse,
}

/// What one peer-count check asks the caller to log.
#[derive(Clone, Copy, PartialEq, Eq, Debug)]
pub enum PeerEvent {
    /// The client did not respond to the peer request.
    NoResponse,
    /// The body did not parse, or its `result` field was not an array.
    Malformed,
    /// The stored peer count changed to a value in the dangerous {0, 1} band.
    LowPeers { count: u64 },
}

/// What one chain-tip check asks the caller to log.
#[derive(Clone, Copy, PartialEq, Eq, Debug)]
pub enum TipEvent {
    /// The client did not respond to the tip request.
    NoResponse,
    /// The body did not parse, or `result.number` was missing or not a string.
    Malformed,
    /// `result.number` was not valid hexadecimal, or overflowed 64 bits.
    InvalidHex,
}

/// One monitored client record.
#[derive(Clone, Copy, PartialEq, Eq, Debug)]
pub struct ClientRecord {
    /// Stable identity, also the offset that derives the port.
    pub index: usize,
    /// The port of the record's endpoint: `BASE_PORT + index`.
    pub port: u16,
    /// Whether the last liveness check succeeded; optimistically true at start.
    pub online: bool,
    /// Latest known chain-tip height: 0 until the first successful read, and
    /// reset to 0 when the record goes offline.
    pub block_height: u64,
    /// Latest known peer count; reset to 0 when the record goes offline.
    pub peer_count: u64,
    /// Seconds-since-epoch timestamp of the moment the record went offline;
    /// `None` while online.
    pub offline_since: Option<i64>,
}

impl ClientRecord {
    /// Well-formedness: `offline_since` is set exactly while the record is
    /// offline, and holds a non-negative timestamp.
    pub open spec fn inv(self) -> bool {
        &&& (self.online <==> self.offline_since is None)
        &&& (self.offline_since matches Some(t) ==> 0 <= t)
    }

    /// Creates the record for endpoint `BASE_PORT + index`, initially online
    /// with zeroed height and peer count.
    pub fn new(index: usize) -> (r: ClientRecord)
        requires
            index + BASE_PORT as usize <= u16::MAX as usize,
        ensures
            r.inv(),
            r.index == index,
            r.port as int == BASE_PORT as int + index as int,
            r.online,
            r.block_height == 0,
            r.peer_count == 0,
            r.offline_since is None,
    {
        ClientRecord {
            index,
            port: BASE_PORT + index as u16,
            online: true,
            block_height: 0,
            peer_count: 0,
            offline_since: None,
        }
    }

    /// Applies the outcome of one liveness check made at time `now` (seconds
    /// since epoch), returning the one event owed to the log, if any.
    ///
    /// A transition fires only when the state changes: a recovery clears
    /// `offline_since` and carries the outage duration, never negative; an
    /// offline transition records `now` and resets the stale peer count and
    /// block height to zero (the reset policy adopted here). An unchanged
    /// state produces no event at all.
    pub fn apply_liveness(&mut self, outcome: LivenessOutcome, now: i64) -> (e: Option<
        LivenessEvent,
    >)
        requires
            old(self).inv(),
            0 <= now,
            old(self).offline_since matches Some(t) ==> t <= now,
        ensures
            final(self).inv(),
            final(self).index == old(self).index,
            final(self).port == old(self).port,
            final(self).online == (outcome is Success),
            outcome is Success ==> final(self).block_height == old(self).block_height
                && final(self).peer_count == old(self).peer_count,
            (outcome is Success && !old(self).online) ==> match old(self).offline_since {
                Some(t) => e == Some(
                    (LivenessEvent::CameOnline { seconds_offline: (now - t) as i64 }),
                ),
                None => true,
            },
            (outcome is Success && old(self).online) ==> *final(self) == *old(self) && e is None,
            (!(outcome is Success) && old(self).online) ==> {
                &&& final(self).offline_since == Some(now)
                &&& final(self).peer_count == 0
                &&& final(self).block_height == 0
                &&& (outcome is ErrorResponse ==> e == Some(LivenessEvent::WentOfflineError))
                &&& (outcome is NoResponse ==> e == Some(LivenessEvent::WentOfflineNoResponse))
            },
            (!(outcome is Success) && !old(self).online) ==> *final(self) == *old(self)
                && e is None,
            e matches Some(LivenessEvent::CameOnline { seconds_offline }) ==> seconds_offline >= 0,
    {
        match outcome {
            LivenessOutcome::Success => {
                if !self.online {
                    let dur: i64 = match self.offline_since {
                        Some(t) => now - t,
                        None => 0,
                    };
                    self.online = true;
                    self.offline_since = None;
                    Some(LivenessEvent::CameOnline { seconds_offline: dur })
                } else {
                    None
                }
            },
            LivenessOutcome::ErrorResponse => {
                if self.online {
                    self.online = false;
                    self.offline_since = Some(now);
                    self.peer_count = 0;
                    self.block_height = 0;
                    Some(LivenessEvent::WentOfflineError)
                } else {
                    None
                }
            },
            LivenessOutcome::NoResponse => {
                if self.online {
                    self.online = false;
                    self.offline_since = Some(now);
                    self.peer_count = 0;
                    self.block_height = 0;
                    Some(LivenessEvent::WentOfflineNoResponse)
                } else {
                    None
                }
            },
        }
    }

    /// Applies the outcome of one peer-count call: `response` is the raw
    /// response body when the transport succeeded, `None` when the client did
    /// not respond. Skipped entirely while offline.
    ///
    /// The stored count changes only when the body parses and its `result`
    /// field is an array; a low-peer event fires exactly when the stored
    /// count changes to 0 or 1, so counts of two or more are never reported
    /// and a settled low count is reported only once.
    pub fn check_peers_response(&mut self, response: Option<&[u8]>) -> (e: Option<PeerEvent>)
        ensures
            final(self).index == old(self).index,
            final(self).port == old(self).port,
            final(self).online == old(self).online,
            final(self).offline_since == old(self).offline_since,
            final(self).block_height == old(self).block_height,
            old(self).inv() ==> final(self).inv(),
            !old(self).online ==> *final(self) == *old(self) && e is None,
            old(self).online ==> match response {
                None => *final(self) == *old(self) && e == Some(PeerEvent::NoResponse),
                Some(body) => match peer_list_len(body@) {
                    None => *final(self) == *old(self) && e == Some(PeerEvent::Malformed),
                    Some(n) => {
                        &&& final(self).peer_count == n
                        &&& (n <= 1 && n != old(self).peer_count ==> e == Some(
                            (PeerEvent::LowPeers { count: n }),
                        ))
                        &&& (!(n <= 1 && n != old(self).peer_count) ==> e is None)
                    },
                },
            },
    {
        if !self.online {
            return None;
        }
        match response {
            None => Some(PeerEvent::NoResponse),
            Some(body) => {
                match extract_peer_count(body) {
                    None => Some(PeerEvent::Malformed),
                    Some(n) => {
                        let prior: u64 = self.peer_count;
                        self.peer_count = n;
                        if n <= 1 && n != prior {
                            Some(PeerEvent::LowPeers { count: n })
                        } else {
                            None
                        }
                    },
                }
            },
        }
    }

    /// Applies the outcome of one chain-tip call: `response` is the raw
    /// response body when the transport succeeded, `None` when the client did
    /// not respond. Skipped entirely while offline.
    ///
    /// The stored height changes only when the body parses, `result.number`
    /// is a string, and that string is valid hexadecimal; every failure
    /// leaves the height unchanged and owes the log one error event.
    pub fn check_tip_response(&mut self, response: Option<&[u8]>) -> (e: Option<TipEvent>)
        ensures
            final(self).index == old(self).index,
            final(self).port == old(self).port,
            final(self).online == old(self).online,
            final(self).offline_since == old(self).offline_since,
            final(self).peer_count == old(self).peer_count,
            old(self).inv() ==> final(self).inv(),
            !old(self).online ==> *final(self) == *old(self) && e is None,
            old(self).online ==> match response {
                None => *final(self) == *old(self) && e == Some(TipEvent::NoResponse),
                Some(body) => match tip_number_field(body@) {
                    None => *final(self) == *old(self) && e == Some(TipEvent::Malformed),
                    Some(num) => match hex_u64_value(num) {
                        None => *final(self) == *old(self) && e == Some(TipEvent::InvalidHex),
                        Some(h) => final(self).block_height == h && e is None,
                    },
                },
            },
    {
        if !self.online {
            return None;
        }
        match response {
            None => Some(TipEvent::NoResponse),
            Some(body) => {
                match extract_tip_number(body) {
                    None => Some(TipEvent::Malformed),
                    Some(num) => {
                        match parse_hex_u64(num.as_slice()) {
                            None => Some(TipEvent::InvalidHex),
                            Some(h) => {
                                self.block_height = h;
                                None
                            },
                        }
                    },
                }
            },
        }
    }
}

} // verus!
