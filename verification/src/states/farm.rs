use vstd::prelude::*;

use crate::clock::current_unix_timestamp;
use crate::error::ErrorCode;
use crate::keys::Pubkey;

verus! {

/// The most reward streams a farm holds.
pub const MAX_REWARD_STREAMS: usize = 5;

/// Where a reward stream stands relative to the block time of the farm's
/// last update.
#[derive(Debug, Clone, Copy, PartialEq, Eq, Structural)]
pub enum RewardStreamStatus {
    Unused,
    Running,
    Ended,
}

/// One stream of reward tokens. Amounts ending in `_x64` are Q64.64 fixed
/// point numbers: the low 64 bits hold the fraction.
#[derive(Debug, Clone, Copy)]
pub struct RewardStream {
    pub reward_mint: Pubkey,
    pub reward_mint_program: Pubkey,
    pub status: RewardStreamStatus,
    pub open_time: i64,
    pub end_time: i64,
    pub acc_rewards_per_base_unit_x64: u128,
    pub rewards_left_x64: u128,
    pub emission_per_second_x64: u128,
}

/// A farm: what is staked in it and its reward streams, the first
/// `reward_streams_count` of which are in use.
#[derive(Debug, Clone, Copy)]
pub struct Farm {
    pub authority: Pubkey,
    pub staking_mint: Pubkey,
    pub staking_mint_program: Pubkey,
    pub staked_amount: u64,
    pub last_updated_time: i64,
    pub reward_streams_count: u8,
    pub reward_streams: [RewardStream; 5],
    pub bump: u8,
}

pub open spec fn max_i64(a: i64, b: i64) -> i64 {
    if a >= b { a } else { b }
}

pub open spec fn min_i64(a: i64, b: i64) -> i64 {
    if a <= b { a } else { b }
}

/// The status of a stream at block time `now`.
pub open spec fn status_at(s: RewardStream, now: i64) -> RewardStreamStatus {
    if now < s.open_time {
        RewardStreamStatus::Unused
    } else if now < s.end_time {
        RewardStreamStatus::Running
    } else {
        RewardStreamStatus::Ended
    }
}

/// The seconds of emission that an update at `now` charges to a stream last
/// updated at `last`: from the later of its open time and `last` up to `now`
/// while it runs; once it has ended, from the earlier of its end time and
/// `last` up to its end time.
pub open spec fn emission_duration(s: RewardStream, last: i64, now: i64) -> int {
    if now < s.open_time {
        0
    } else if now < s.end_time {
        now - max_i64(s.open_time, last)
    } else {
        s.end_time - min_i64(s.end_time, last)
    }
}

/// The rewards (Q64.64) that an update at `now` emits from a stream.
pub open spec fn new_emission(s: RewardStream, last: i64, now: i64) -> int {
    emission_duration(s, last, now) * s.emission_per_second_x64
}

/// An update of one stream at `now` neither overflows nor draws more rewards
/// than the stream has left.
pub open spec fn stream_update_defined(s: RewardStream, last: i64, now: i64, staked: u64) -> bool {
    now < s.open_time || {
        &&& emission_duration(s, last, now) <= i64::MAX
        &&& staked > 0 ==> {
            &&& new_emission(s, last, now) <= u128::MAX
            &&& new_emission(s, last, now) <= s.rewards_left_x64
            &&& s.acc_rewards_per_base_unit_x64 + new_emission(s, last, now) / (staked as int)
                <= u128::MAX
        }
    }
}

/// A stream after an update at `now` (for `last < now`).
pub open spec fn updated_stream(s: RewardStream, last: i64, now: i64, staked: u64) -> RewardStream {
    if now < s.open_time {
        RewardStream { status: RewardStreamStatus::Unused, ..s }
    } else if staked == 0 {
        RewardStream { status: status_at(s, now), ..s }
    } else {
        RewardStream {
            status: status_at(s, now),
            rewards_left_x64: (s.rewards_left_x64 - new_emission(s, last, now)) as u128,
            acc_rewards_per_base_unit_x64: (s.acc_rewards_per_base_unit_x64 + new_emission(
                s,
                last,
                now,
            ) / (staked as int)) as u128,
            ..s
        }
    }
}

impl Farm {
    /// Room the farm account takes, as Anchor's `InitSpace` counts it: three
    /// keys of 32 bytes, 8 for `staked_amount`, 8 for `last_updated_time`, 1
    /// for `reward_streams_count`, five streams of 129 bytes each (two keys,
    /// a one-byte status, two `i64` times and three `u128` amounts) and 1
    /// for `bump`.
    pub const INIT_SPACE: usize = 759;

    /// Size of the farm account: Anchor's 8-byte discriminator and the farm.
    pub const LEN: usize = 8 + Farm::INIT_SPACE;

    /// The constant seed of the farm's program address: the bytes of "farm".
    pub const STATIC_SEED: [u8; 4] = [102u8, 97u8, 114u8, 109u8];

    /// The stream at `i` after an update at `now`.
    pub open spec fn stream_after_update(self, i: int, now: i64) -> RewardStream {
        if now <= self.last_updated_time || i >= self.reward_streams_count {
            self.reward_streams@[i]
        } else {
            updated_stream(self.reward_streams@[i], self.last_updated_time, now, self.staked_amount)
        }
    }

    /// The time of the last update after an update at `now`.
    pub open spec fn last_updated_after(self, now: i64) -> i64 {
        if now <= self.last_updated_time { self.last_updated_time } else { now }
    }

    /// The farm holds at most five reward streams in use. Its streams are
    /// read by index up to the count, so with a larger count an update would
    /// index past the stream array.
    pub open spec fn wf(self) -> bool {
        self.reward_streams_count <= MAX_REWARD_STREAMS
    }

    /// An update at `now` runs without overflow.
    pub open spec fn update_defined(self, now: i64) -> bool {
        self.last_updated_time < now ==> forall|i: int|
            0 <= i < self.reward_streams_count ==> #[trigger] stream_update_defined(
                self.reward_streams@[i],
                self.last_updated_time,
                now,
                self.staked_amount,
            )
    }

    /// `new` is this farm after an update at `now`: a farm already updated at
    /// or after `now` is left as it is; otherwise each stream in use is
    /// brought to `now` and the farm records `now` as its last update.
    pub open spec fn updated_to(self, new: Farm, now: i64) -> bool {
        if now <= self.last_updated_time {
            new == self
        } else {
            &&& new.authority == self.authority
            &&& new.staking_mint == self.staking_mint
            &&& new.staking_mint_program == self.staking_mint_program
            &&& new.staked_amount == self.staked_amount
            &&& new.last_updated_time == now
            &&& new.reward_streams_count == self.reward_streams_count
            &&& new.bump == self.bump
            &&& forall|i: int|
                0 <= i < MAX_REWARD_STREAMS ==> #[trigger] new.reward_streams@[i] == if i
                    < self.reward_streams_count {
                    updated_stream(
                        self.reward_streams@[i],
                        self.last_updated_time,
                        now,
                        self.staked_amount,
                    )
                } else {
                    self.reward_streams@[i]
                }
        }
    }
}

/// Brings one stream, last updated at `last`, to block time `now`: sets its
/// status and, when something is staked, moves the emission of the elapsed
/// seconds from the rewards left to the rewards accrued per staked unit.
pub fn update_stream(s: RewardStream, last: i64, now: i64, staked: u64) -> (r: RewardStream)
    requires
        last < now,
        stream_update_defined(s, last, now, staked),
    ensures
        r == updated_stream(s, last, now, staked),
{
    let mut s = s;
    if now < s.open_time {
        s.status = RewardStreamStatus::Unused;
        return s;
    }
    let duration: u128 = if now < s.end_time {
        s.status = RewardStreamStatus::Running;
        let start = if s.open_time >= last { s.open_time } else { last };
        let d: i64 = now - start;
        d as u128
    } else {
        s.status = RewardStreamStatus::Ended;
        let stop = if s.end_time <= last { s.end_time } else { last };
        let d: i64 = s.end_time - stop;
        d as u128
    };
    assert(duration == emission_duration(s, last, now));
    if staked > 0 {
        let emission: u128 = duration * s.emission_per_second_x64;
        s.rewards_left_x64 = s.rewards_left_x64 - emission;
        let per_unit: u128 = emission / (staked as u128);
        s.acc_rewards_per_base_unit_x64 = s.acc_rewards_per_base_unit_x64 + per_unit;
    }
    s
}

/// Whether an update of one stream at `now` runs without overflow.
pub fn stream_can_update(s: &RewardStream, last: i64, now: i64, staked: u64) -> (r: bool)
    requires
        last < now,
    ensures
        r == stream_update_defined(*s, last, now, staked),
{
    if now < s.open_time {
        return true;
    }
    let d: u128 = if now < s.end_time {
        let start = if s.open_time >= last { s.open_time } else { last };
        let diff: i128 = now as i128 - start as i128;
        if diff > i64::MAX as i128 {
            return false;
        }
        diff as u128
    } else {
        let stop = if s.end_time <= last { s.end_time } else { last };
        let diff: i128 = s.end_time as i128 - stop as i128;
        if diff > i64::MAX as i128 {
            return false;
        }
        diff as u128
    };
    assert(d == emission_duration(*s, last, now));
    if staked == 0 {
        return true;
    }
    let emission = match d.checked_mul(s.emission_per_second_x64) {
        Some(e) => e,
        None => return false,
    };
    if emission > s.rewards_left_x64 {
        return false;
    }
    let per_unit: u128 = emission / (staked as u128);
    match s.acc_rewards_per_base_unit_x64.checked_add(per_unit) {
        Some(_) => true,
        None => false,
    }
}

impl Farm {
    /// Whether an update at `now` runs without overflow.
    pub fn can_update_at(&self, now: i64) -> (r: bool)
        requires
            self.last_updated_time < now ==> self.wf(),
        ensures
            r == self.update_defined(now),
    {
        if now <= self.last_updated_time {
            return true;
        }
        let count = self.reward_streams_count;
        let mut i: u8 = 0;
        while i < count
            invariant
                self.wf(),
                count == self.reward_streams_count,
                self.last_updated_time < now,
                0 <= i <= count,
                forall|j: int|
                    0 <= j < i ==> #[trigger] stream_update_defined(
                        self.reward_streams@[j],
                        self.last_updated_time,
                        now,
                        self.staked_amount,
                    ),
            decreases count - i,
        {
            let s = self.reward_streams[i as usize];
            if !stream_can_update(&s, self.last_updated_time, now, self.staked_amount) {
                return false;
            }
            i = i + 1;
        }
        true
    }

    /// Brings the farm to block time `now`. A farm already updated at or
    /// after `now` stays as it is; otherwise every stream in use is updated
    /// (see `update_stream`) and `now` becomes the time of the last update.
    pub fn update_at(&mut self, now: i64)
        requires
            old(self).last_updated_time < now ==> old(self).wf(),
            old(self).update_defined(now),
        ensures
            old(self).updated_to(*final(self), now),
    {
        if self.last_updated_time < now {
            let count = self.reward_streams_count;
            let last = self.last_updated_time;
            let staked = self.staked_amount;
            let ghost orig = *self;
            let mut i: u8 = 0;
            while i < count
                invariant
                    orig.wf(),
                    orig.update_defined(now),
                    count == orig.reward_streams_count,
                    last == orig.last_updated_time,
                    staked == orig.staked_amount,
                    last < now,
                    0 <= i <= count,
                    self.authority == orig.authority,
                    self.staking_mint == orig.staking_mint,
                    self.staking_mint_program == orig.staking_mint_program,
                    self.staked_amount == orig.staked_amount,
                    self.last_updated_time == orig.last_updated_time,
                    self.reward_streams_count == orig.reward_streams_count,
                    self.bump == orig.bump,
                    forall|j: int|
                        0 <= j < MAX_REWARD_STREAMS ==> #[trigger] self.reward_streams@[j] == if j
                            < i {
                            updated_stream(orig.reward_streams@[j], last, now, staked)
                        } else {
                            orig.reward_streams@[j]
                        },
                decreases count - i,
            {
                let s = self.reward_streams[i as usize];
                assert(stream_update_defined(orig.reward_streams@[i as int], last, now, staked));
                let ns = update_stream(s, last, now, staked);
                self.reward_streams[i as usize] = ns;
                i = i + 1;
            }
            self.last_updated_time = now;
        }
    }

    /// Brings the farm to block time `now` when that runs without overflow;
    /// otherwise, where the checked arithmetic of the update would abort the
    /// instruction, leaves the farm as it is and reports `MathOverflow`.
    pub fn try_update_at(&mut self, now: i64) -> (r: Result<(), ErrorCode>)
        requires
            old(self).last_updated_time < now ==> old(self).wf(),
        ensures
            r is Ok <==> old(self).update_defined(now),
            r is Ok ==> old(self).updated_to(*final(self), now),
            r is Err ==> r == Err::<(), ErrorCode>(ErrorCode::MathOverflow) && *final(self) == *old(self),
    {
        if self.can_update_at(now) {
            self.update_at(now);
            Ok(())
        } else {
            Err(ErrorCode::MathOverflow)
        }
    }

    /// Brings the farm to the block time of a clock reading: a failed
    /// reading (the code of the clock's `ProgramError`) is passed back as
    /// `ClockUnavailable` with that code and leaves the farm as it is; a
    /// block time is handled by `try_update_at`.
    pub fn update_with_clock(&mut self, clock: Result<i64, u64>) -> (r: Result<(), ErrorCode>)
        requires
            clock matches Ok(now) && old(self).last_updated_time < now ==> old(self).wf(),
        ensures
            clock matches Err(code) ==> r == Err::<(), ErrorCode>(ErrorCode::ClockUnavailable(code))
                && *final(self) == *old(self),
            clock matches Ok(now) ==> {
                &&& r is Ok <==> old(self).update_defined(now)
                &&& r is Ok ==> old(self).updated_to(*final(self), now)
                &&& r is Err ==> r == Err::<(), ErrorCode>(ErrorCode::MathOverflow) && *final(self)
                    == *old(self)
            },
    {
        match clock {
            Ok(now) => self.try_update_at(now),
            Err(code) => Err(ErrorCode::ClockUnavailable(code)),
        }
    }

    /// Brings the farm to the current block time read from the runtime's
    /// clock (see `update_with_clock`): a failed read is passed back as
    /// `ClockUnavailable` with the code of the clock's error, and an update
    /// that would overflow as `MathOverflow`; the farm is left as it is on
    /// failure. The block time is not known in advance, so the farm must
    /// hold at most five streams (`wf`).
    pub fn update(&mut self) -> (r: Result<(), ErrorCode>)
        requires
            old(self).wf(),
        ensures
            r is Ok ==> exists|now: i64|
                #![trigger old(self).updated_to(*final(self), now)]
                old(self).update_defined(now) && old(self).updated_to(*final(self), now),
            r is Err ==> *final(self) == *old(self),
            r == Err::<(), ErrorCode>(ErrorCode::MathOverflow) ==> exists|now: i64|
                #![trigger old(self).update_defined(now)]
                !old(self).update_defined(now),
            r matches Err(e) ==> e is ClockUnavailable || e == ErrorCode::MathOverflow,
    {
        let clock = current_unix_timestamp();
        let ghost before = *self;
        let r = self.update_with_clock(clock);
        proof {
            if let Ok(now) = clock {
                assert(r is Ok ==> before.updated_to(*self, now));
                assert(r is Err ==> !before.update_defined(now));
            }
        }
        r
    }
}
} // verus!
