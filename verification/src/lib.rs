//! Time-ordered, node-scoped 64-bit identifiers.
//!
//! A [`Superflake`] packs the milliseconds elapsed since a configured epoch,
//! a node identifier, and a per-instance sequence counter into one `u64`:
//! 42 bits of elapsed time, 10 bits of node id, 12 bits of sequence, most
//! significant first. Identifiers from one generator are non-decreasing as
//! long as the clock it reads is, and a generator blocks when the budget of
//! 4096 identifiers for one millisecond is spent, until the clock moves on.

use vstd::prelude::*;

mod clock;
pub mod laws;

verus! {

/// Epoch used when none is supplied at construction:
/// 2021-03-20T05:30:00Z, in milliseconds since the Unix epoch.
pub const DEFAULT_EPOCH: u64 = 1_616_275_800_000;

/// Largest node identifier that fits the 10-bit node field.
pub const MAX_NODE_ID: u32 = 1023;

/// Largest sequence value that fits the 12-bit sequence field.
pub const MAX_SEQUENCE: u32 = 4095;

/// Smallest elapsed-time value that no longer fits the 42-bit field.
pub const ELAPSED_LIMIT: u64 = 0x400_0000_0000;

/// The identifier laid out from its three fields: elapsed time in the top
/// 42 bits, node id in the next 10, sequence in the lowest 12.
pub open spec fn pack(elapsed: u64, node_id: u64, inc: u64) -> u64 {
    (elapsed << 22) | (node_id << 12) | inc
}

/// The elapsed-time field of an identifier.
pub open spec fn elapsed_of(id: u64) -> u64 {
    id >> 22
}

/// The node-id field of an identifier.
pub open spec fn node_of(id: u64) -> u64 {
    (id >> 12) & 0x3FF
}

/// The sequence field of an identifier.
pub open spec fn seq_of(id: u64) -> u64 {
    id & 0xFFF
}

/// The absolute timestamp an identifier decodes to under a given epoch.
pub open spec fn decoded_timestamp(id: u64, epoch: u64) -> int {
    elapsed_of(id) + epoch
}

/// Why a request was rejected.
#[derive(Clone, Copy, Debug, PartialEq, Eq, Structural)]
pub enum SuperflakeError {
    /// The node identifier does not fit the 10-bit node field.
    InvalidNodeId,
    /// The timestamp presented to generation lies before the configured epoch.
    ClockBeforeEpoch,
}

/// Mathematical state of a generator: the four fields a [`Superflake`] holds.
pub ghost struct FlakeModel {
    /// Sequence counter, next value to be emitted.
    pub inc: u32,
    /// Reference instant, milliseconds since the Unix epoch.
    pub epoch: u64,
    /// Identifier of the node this generator stands for.
    pub node_id: u32,
    /// Timestamp at which the sequence last wrapped from 4095 to 0.
    pub last_exhaustion: u64,
}

impl FlakeModel {
    /// The counter fits 12 bits and the node id fits 10.
    pub open spec fn wf(self) -> bool {
        self.inc <= MAX_SEQUENCE && self.node_id <= MAX_NODE_ID
    }

    /// The budget of 4096 identifiers for `ts` is spent: the sequence has
    /// wrapped and `ts` is the recorded wrap timestamp. Generating again at
    /// `ts` blocks until the clock passes `ts`.
    pub open spec fn exhausted_at(self, ts: u64) -> bool {
        self.inc == 0 && self.last_exhaustion == ts
    }

    /// The identifier a generator in this state emits at timestamp `ts`.
    pub open spec fn emitted(self, ts: u64) -> u64 {
        pack((ts - self.epoch) as u64, self.node_id as u64, self.inc as u64)
    }

    /// The state after one identifier is emitted at timestamp `ts`: the
    /// counter advances, wrapping from 4095 to 0, and a wrap records `ts`
    /// as the exhaustion timestamp.
    pub open spec fn step(self, ts: u64) -> FlakeModel {
        FlakeModel {
            inc: if self.inc >= MAX_SEQUENCE {
                0
            } else {
                (self.inc + 1) as u32
            },
            epoch: self.epoch,
            node_id: self.node_id,
            last_exhaustion: if self.inc >= MAX_SEQUENCE {
                ts
            } else {
                self.last_exhaustion
            },
        }
    }
}

/// Polls the clock until it reports a time strictly after `timestamp`,
/// blocking the caller for up to a millisecond at the pace wall clocks
/// advance. The poll budget only carries the termination measure; at any
/// realistic polling rate it outlasts every clock by centuries.
fn wait_for_fresh_millisecond(timestamp: u64) {
    let mut polls_left: u64 = u64::MAX;
    while polls_left > 0
        decreases polls_left,
    {
        polls_left = polls_left - 1;
        match clock::now_millis() {
            Some(now) => {
                if now > timestamp {
                    return ;
                }
            },
            None => {},
        }
    }
}

/// A generator of time-ordered identifiers, one per logical node. It is a
/// plain mutable value: callers needing concurrent generation must wrap it
/// in their own synchronization.
#[derive(Clone, Debug)]
pub struct Superflake {
    inc: u32,
    epoch: u64,
    node_id: u32,
    last_incremental_exhaustion: u64,
}

/// A generated identifier split back into its fields.
#[derive(Clone, Debug)]
pub struct DecodedSuperflake {
    /// The identifier itself, unchanged.
    pub id: u64,
    /// Its sequence field.
    pub inc: u64,
    /// The epoch the decoding generator was configured with.
    pub epoch: u64,
    /// Its node-id field.
    pub node_id: u32,
    /// Its elapsed-time field plus the decoding generator's epoch.
    pub timestamp: u64,
}

impl View for Superflake {
    type V = FlakeModel;

    closed spec fn view(&self) -> FlakeModel {
        FlakeModel {
            inc: self.inc,
            epoch: self.epoch,
            node_id: self.node_id,
            last_exhaustion: self.last_incremental_exhaustion,
        }
    }
}

impl Superflake {
    /// Builds a generator for `node_id`, with the given epoch or
    /// [`DEFAULT_EPOCH`] when none is given. Rejects a node id that does
    /// not fit the 10-bit node field, and nothing else.
    pub fn new_with_node_id(node_id: u32, epoch: Option<u64>) -> (r: Result<
        Superflake,
        SuperflakeError,
    >)
        ensures
            node_id <= MAX_NODE_ID ==> (match r {
                Ok(f) => f@.wf() && f@.inc == 0 && f@.node_id == node_id && f@.last_exhaustion == 0
                    && f@.epoch == (match epoch {
                    Some(e) => e,
                    None => DEFAULT_EPOCH,
                }),
                Err(_) => false,
            }),
            node_id > MAX_NODE_ID ==> r == Err::<Superflake, SuperflakeError>(
                SuperflakeError::InvalidNodeId,
            ),
    {
        if node_id > MAX_NODE_ID {
            return Err(SuperflakeError::InvalidNodeId);
        }
        Ok(
            Superflake {
                inc: 0,
                node_id,
                last_incremental_exhaustion: 0,
                epoch: match epoch {
                    Some(e) => e,
                    None => DEFAULT_EPOCH,
                },
            },
        )
    }

    /// Emits one identifier for the given timestamp. When the budget of
    /// 4096 identifiers for exactly this timestamp is already spent, the
    /// call first blocks until the clock passes the timestamp. A timestamp
    /// before the configured epoch is rejected and the state left alone;
    /// otherwise the result is the packed identifier of the current state
    /// and the counter advances by one, wrapping from 4095 to 0 and then
    /// recording the timestamp as exhausted.
    pub fn gen_with_timestamp(&mut self, timestamp: u64) -> (r: Result<u64, SuperflakeError>)
        requires
            old(self)@.wf(),
        ensures
            final(self)@.wf(),
            timestamp < old(self)@.epoch ==> r == Err::<u64, SuperflakeError>(
                SuperflakeError::ClockBeforeEpoch,
            ) && final(self)@ == old(self)@,
            timestamp >= old(self)@.epoch ==> r == Ok::<u64, SuperflakeError>(
                old(self)@.emitted(timestamp),
            ) && final(self)@ == old(self)@.step(timestamp),
    {
        if self.inc == 0 && timestamp == self.last_incremental_exhaustion {
            wait_for_fresh_millisecond(timestamp);
        }
        if timestamp < self.epoch {
            return Err(SuperflakeError::ClockBeforeEpoch);
        }
        let id: u64 = ((timestamp - self.epoch) << 22) | ((self.node_id as u64) << 12) | (
        self.inc as u64);
        if self.inc >= MAX_SEQUENCE {
            self.inc = 0;
            self.last_incremental_exhaustion = timestamp;
        } else {
            self.inc = self.inc + 1;
        }
        Ok(id)
    }

    /// Emits one identifier for the current wall-clock time, as
    /// [`Self::gen_with_timestamp`] does for an explicit timestamp. The
    /// clock decides the outcome: a reading before the configured epoch
    /// (or before the Unix epoch) is rejected, and any other reading
    /// yields the identifier and the state change of that timestamp.
    pub fn gen(&mut self) -> (r: Result<u64, SuperflakeError>)
        requires
            old(self)@.wf(),
        ensures
            final(self)@.wf(),
            match r {
                Ok(id) => exists|ts: u64|
                    ts >= old(self)@.epoch && id == #[trigger] old(self)@.emitted(ts)
                        && final(self)@ == old(self)@.step(ts),
                Err(e) => e == SuperflakeError::ClockBeforeEpoch && final(self)@ == old(self)@,
            },
    {
        let now: u64 = match clock::now_millis() {
            Some(n) => n,
            None => {
                return Err(SuperflakeError::ClockBeforeEpoch);
            },
        };
        self.gen_with_timestamp(now)
    }

    /// Splits an identifier back into its fields, using this generator's
    /// epoch to turn the elapsed-time field into an absolute timestamp.
    /// Any 64-bit value decodes to some result; only an identifier packed
    /// under the same epoch decodes to a meaningful one.
    pub fn decode(&self, superflake: u64) -> (r: DecodedSuperflake)
        requires
            self@.epoch + elapsed_of(superflake) <= u64::MAX,
        ensures
            r.id == superflake,
            r.inc == seq_of(superflake),
            r.node_id as u64 == node_of(superflake),
            r.epoch == self@.epoch,
            r.timestamp == decoded_timestamp(superflake, self@.epoch),
    {
        let timestamp: u64 = (superflake >> 22) + self.epoch;
        let node_id: u64 = (superflake >> 12) & 0x3FF;
        let inc: u64 = superflake & 0xFFF;
        proof {
            assert((superflake >> 12) & 0x3FF <= 0x3FF) by (bit_vector);
        }
        DecodedSuperflake {
            inc,
            timestamp,
            id: superflake,
            epoch: self.epoch,
            node_id: node_id as u32,
        }
    }
}

} // verus!
