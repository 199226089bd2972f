use vstd::prelude::*;

use crate::states::farm::{
    emission_duration, new_emission, status_at, updated_stream, Farm, RewardStream,
    RewardStreamStatus, MAX_REWARD_STREAMS,
};

verus! {

/// After an update the farm's last update time is the later of its previous
/// one and the block time: it never moves backward.
pub proof fn law_last_update_is_latest(a: Farm, b: Farm, now: i64)
    requires
        a.updated_to(b, now),
    ensures
        b.last_updated_time == a.last_updated_after(now),
        b.last_updated_time >= a.last_updated_time,
        b.last_updated_time >= now,
{
}

/// Updating twice at the same block time changes nothing the second time;
/// so does any update at or before the last update time.
pub proof fn law_update_idempotent(a: Farm, b: Farm, c: Farm, now: i64)
    requires
        a.updated_to(b, now),
        b.updated_to(c, now),
    ensures
        c == b,
        now <= a.last_updated_time ==> b == a,
{
}

/// Right after an update at `now`, each stream in use is `Unused` before its
/// open time, `Running` from its open time until before its end time, and
/// `Ended` from both its open and end time on. In the looser form that a
/// client checks, `Running` means `open_time <= now <= end_time`, and
/// `Ended` means `end_time < now` whenever `now` is not the end time itself.
pub proof fn law_status_after_update(a: Farm, b: Farm, now: i64, i: int)
    requires
        a.wf(),
        a.updated_to(b, now),
        a.last_updated_time < now,
        0 <= i < a.reward_streams_count,
    ensures
        b.reward_streams@[i].status == status_at(a.reward_streams@[i], now),
        b.reward_streams@[i].status == RewardStreamStatus::Unused <==> now
            < a.reward_streams@[i].open_time,
        b.reward_streams@[i].status == RewardStreamStatus::Running <==> a.reward_streams@[i].open_time
            <= now < a.reward_streams@[i].end_time,
        b.reward_streams@[i].status == RewardStreamStatus::Ended <==> (a.reward_streams@[i].open_time
            <= now && a.reward_streams@[i].end_time <= now),
        b.reward_streams@[i].status == RewardStreamStatus::Running ==> a.reward_streams@[i].open_time
            <= now <= a.reward_streams@[i].end_time,
        b.reward_streams@[i].status == RewardStreamStatus::Ended && now
            != a.reward_streams@[i].end_time ==> a.reward_streams@[i].end_time < now,
{
    assert(b.reward_streams@[i] == updated_stream(
        a.reward_streams@[i],
        a.last_updated_time,
        now,
        a.staked_amount,
    ));
}

/// An update moves rewards from what a stream has left to what it has
/// accrued per staked unit and creates none: what is left afterwards plus
/// what was emitted (the emission rate times a duration that is never
/// negative, and nothing while nothing is staked or before the stream
/// opens) is what was left before, and each staked unit accrues the emission
/// divided by the amount staked, rounded down. A stream's mint, times and
/// rate stay as they are, and so do the streams not in use.
pub proof fn law_update_conserves_rewards(a: Farm, b: Farm, now: i64, i: int)
    requires
        a.updated_to(b, now),
        a.update_defined(now),
        a.last_updated_time < now,
        0 <= i < MAX_REWARD_STREAMS,
    ensures
        i < a.reward_streams_count ==> emission_duration(
            a.reward_streams@[i],
            a.last_updated_time,
            now,
        ) >= 0,
        b.reward_streams@[i].rewards_left_x64 <= a.reward_streams@[i].rewards_left_x64,
        b.reward_streams@[i].acc_rewards_per_base_unit_x64
            >= a.reward_streams@[i].acc_rewards_per_base_unit_x64,
        i < a.reward_streams_count && a.staked_amount > 0 && a.reward_streams@[i].open_time <= now
            ==> {
            &&& b.reward_streams@[i].rewards_left_x64 + new_emission(
                a.reward_streams@[i],
                a.last_updated_time,
                now,
            ) == a.reward_streams@[i].rewards_left_x64
            &&& b.reward_streams@[i].acc_rewards_per_base_unit_x64
                == a.reward_streams@[i].acc_rewards_per_base_unit_x64 + new_emission(
                a.reward_streams@[i],
                a.last_updated_time,
                now,
            ) / (a.staked_amount as int)
        },
        a.staked_amount == 0 || now < a.reward_streams@[i].open_time || i
            >= a.reward_streams_count ==> {
            &&& b.reward_streams@[i].rewards_left_x64 == a.reward_streams@[i].rewards_left_x64
            &&& b.reward_streams@[i].acc_rewards_per_base_unit_x64
                == a.reward_streams@[i].acc_rewards_per_base_unit_x64
        },
        b.reward_streams@[i].reward_mint == a.reward_streams@[i].reward_mint,
        b.reward_streams@[i].reward_mint_program == a.reward_streams@[i].reward_mint_program,
        b.reward_streams@[i].open_time == a.reward_streams@[i].open_time,
        b.reward_streams@[i].end_time == a.reward_streams@[i].end_time,
        b.reward_streams@[i].emission_per_second_x64 == a.reward_streams@[i].emission_per_second_x64,
        i >= a.reward_streams_count ==> b.reward_streams@[i] == a.reward_streams@[i],
{
    let s = a.reward_streams@[i];
    assert(b.reward_streams@[i] == if i < a.reward_streams_count {
        updated_stream(s, a.last_updated_time, now, a.staked_amount)
    } else {
        s
    });
    if i < a.reward_streams_count && now >= s.open_time {
        assert(crate::states::farm::stream_update_defined(
            s,
            a.last_updated_time,
            now,
            a.staked_amount,
        ));
        let d = emission_duration(s, a.last_updated_time, now);
        assert(d >= 0);
        let em = s.emission_per_second_x64 as int;
        assert(d * em >= 0) by (nonlinear_arith)
            requires
                d >= 0,
                em >= 0,
        ;
        if a.staked_amount > 0 {
            let st = a.staked_amount as int;
            assert((d * em) / st >= 0) by (nonlinear_arith)
                requires
                    d * em >= 0,
                    st > 0,
            ;
        }
    }
}

/// Rounding down `x / s` and `y / s` separately loses at most one unit
/// against rounding `(x + y) / s` once, and never gains.
proof fn lemma_split_floor_div(x: int, y: int, s: int)
    requires
        x >= 0,
        y >= 0,
        s > 0,
    ensures
        x / s + y / s <= (x + y) / s,
        (x + y) / s <= x / s + y / s + 1,
{
    let qx = x / s;
    let qy = y / s;
    let q = (x + y) / s;
    let rx = x % s;
    let ry = y % s;
    let r = (x + y) % s;
    vstd::arithmetic::div_mod::lemma_fundamental_div_mod(x, s);
    vstd::arithmetic::div_mod::lemma_fundamental_div_mod(y, s);
    vstd::arithmetic::div_mod::lemma_fundamental_div_mod(x + y, s);
    vstd::arithmetic::div_mod::lemma_mod_bound(x, s);
    vstd::arithmetic::div_mod::lemma_mod_bound(y, s);
    vstd::arithmetic::div_mod::lemma_mod_bound(x + y, s);
    assert(qx + qy <= q && q <= qx + qy + 1) by (nonlinear_arith)
        requires
            x == s * qx + rx,
            y == s * qy + ry,
            x + y == s * q + r,
            0 <= rx < s,
            0 <= ry < s,
            0 <= r < s,
    ;
}

/// The cases in which splitting an update of a stream at `t1` and `t2` is
/// the same as one update at `t2`: the stream opens no later than it ends,
/// and it was not both still unopened at the last update and still running
/// at `t1` while ending by `t2` (an update that finds a stream ended charges
/// it from the last update on, so there the split and the single update
/// charge different seconds).
pub open spec fn split_preserved(s: RewardStream, last: i64, t1: i64, t2: i64) -> bool {
    &&& s.open_time <= s.end_time
    &&& (s.open_time <= last || s.end_time <= t1 || t2 < s.end_time)
}

/// Updating a stream at `t1` and then at `t2` emits exactly what one update
/// at `t2` emits (in the cases of `split_preserved`), so it leaves the same
/// rewards and the same status; the rewards accrued per staked unit may only
/// come out lower, by at most one unit, from rounding down twice: splitting
/// an update never credits stakers more.
pub proof fn law_split_update(
    s: RewardStream,
    last: i64,
    t1: i64,
    t2: i64,
    staked: u64,
)
    requires
        split_preserved(s, last, t1, t2),
        last < t1 < t2,
        crate::states::farm::stream_update_defined(s, last, t1, staked),
        crate::states::farm::stream_update_defined(
            updated_stream(s, last, t1, staked),
            t1,
            t2,
            staked,
        ),
        crate::states::farm::stream_update_defined(s, last, t2, staked),
    ensures
        ({
            let two = updated_stream(updated_stream(s, last, t1, staked), t1, t2, staked);
            let one = updated_stream(s, last, t2, staked);
            &&& two.rewards_left_x64 == one.rewards_left_x64
            &&& two.status == one.status
            &&& two.acc_rewards_per_base_unit_x64 <= one.acc_rewards_per_base_unit_x64
            &&& one.acc_rewards_per_base_unit_x64 <= two.acc_rewards_per_base_unit_x64 + 1
            &&& two.reward_mint == one.reward_mint
            &&& two.open_time == one.open_time
            &&& two.end_time == one.end_time
            &&& two.emission_per_second_x64 == one.emission_per_second_x64
        }),
{
    let mid = updated_stream(s, last, t1, staked);
    let d1 = if t1 < s.open_time { 0 } else { emission_duration(s, last, t1) };
    let d2 = emission_duration(mid, t1, t2);
    let d = emission_duration(s, last, t2);
    assert(d1 + d2 == d);
    let em = s.emission_per_second_x64 as int;
    assert(d1 >= 0 && d2 >= 0);
    assert(d1 * em + d2 * em == d * em) by (nonlinear_arith)
        requires
            d1 + d2 == d,
    ;
    assert(d1 * em >= 0 && d2 * em >= 0) by (nonlinear_arith)
        requires
            d1 >= 0,
            d2 >= 0,
            em >= 0,
    ;
    if staked > 0 {
        lemma_split_floor_div(d1 * em, d2 * em, staked as int);
    }
}

/// For a farm, updating at `t1` and then at `t2` (with `t1` and `t2` not
/// before the last update) ends with the same last update time and, for
/// every stream, the same status and rewards left as one update at `t2`;
/// each stream's accrual per staked unit is at most one unit lower. This
/// holds for the streams in use that `split_preserved` admits.
pub proof fn law_split_farm_update(a: Farm, b: Farm, c: Farm, d: Farm, t1: i64, t2: i64)
    requires
        a.wf(),
        a.last_updated_time <= t1 <= t2,
        a.update_defined(t1),
        b.update_defined(t2),
        a.update_defined(t2),
        a.updated_to(b, t1),
        b.updated_to(c, t2),
        a.updated_to(d, t2),
        forall|i: int|
            0 <= i < a.reward_streams_count ==> #[trigger] split_preserved(
                a.reward_streams@[i],
                a.last_updated_time,
                t1,
                t2,
            ),
    ensures
        c.last_updated_time == d.last_updated_time,
        c.staked_amount == d.staked_amount,
        c.reward_streams_count == d.reward_streams_count,
        forall|i: int|
            0 <= i < MAX_REWARD_STREAMS ==> {
                &&& #[trigger] c.reward_streams@[i].status == d.reward_streams@[i].status
                &&& c.reward_streams@[i].rewards_left_x64 == d.reward_streams@[i].rewards_left_x64
                &&& c.reward_streams@[i].acc_rewards_per_base_unit_x64
                    <= d.reward_streams@[i].acc_rewards_per_base_unit_x64
                &&& d.reward_streams@[i].acc_rewards_per_base_unit_x64
                    <= c.reward_streams@[i].acc_rewards_per_base_unit_x64 + 1
            },
{
    let last = a.last_updated_time;
    let st = a.staked_amount;
    if t1 == last {
        assert(b == a);
    } else if t1 == t2 {
        assert forall|i: int| 0 <= i < MAX_REWARD_STREAMS implies #[trigger] c.reward_streams@[i]
            == d.reward_streams@[i] by {
            assert(c.reward_streams@[i] == b.reward_streams@[i]);
        }
    } else {
        assert forall|i: int| 0 <= i < MAX_REWARD_STREAMS implies {
            &&& #[trigger] c.reward_streams@[i].status == d.reward_streams@[i].status
            &&& c.reward_streams@[i].rewards_left_x64 == d.reward_streams@[i].rewards_left_x64
            &&& c.reward_streams@[i].acc_rewards_per_base_unit_x64
                <= d.reward_streams@[i].acc_rewards_per_base_unit_x64
            &&& d.reward_streams@[i].acc_rewards_per_base_unit_x64
                <= c.reward_streams@[i].acc_rewards_per_base_unit_x64 + 1
        } by {
            if i < a.reward_streams_count {
                let s = a.reward_streams@[i];
                assert(split_preserved(s, last, t1, t2));
                assert(b.reward_streams@[i] == updated_stream(s, last, t1, st));
                assert(crate::states::farm::stream_update_defined(s, last, t1, st));
                assert(crate::states::farm::stream_update_defined(
                    b.reward_streams@[i],
                    t1,
                    t2,
                    st,
                ));
                assert(crate::states::farm::stream_update_defined(s, last, t2, st));
                law_split_update(s, last, t1, t2, st);
                assert(c.reward_streams@[i] == updated_stream(b.reward_streams@[i], t1, t2, st));
                assert(d.reward_streams@[i] == updated_stream(s, last, t2, st));
            } else {
                assert(c.reward_streams@[i] == b.reward_streams@[i]);
            }
        }
    }
}

/// The later of `open_time` and `t`, but no later than `end_time`.
pub open spec fn clamp_to_window(s: RewardStream, t: i64) -> int {
    if t < s.open_time {
        s.open_time as int
    } else if t > s.end_time {
        s.end_time as int
    } else {
        t as int
    }
}

/// A stream is funded at time `t` when it opens no later than it ends and
/// what it has left covers the emission of the rest of its window after `t`.
pub open spec fn funded(s: RewardStream, t: i64) -> bool {
    &&& s.open_time <= s.end_time
    &&& s.rewards_left_x64 >= s.emission_per_second_x64 * (s.end_time - clamp_to_window(s, t))
}

/// An update at `now` of a stream last updated at `last` stays within the
/// integer ranges: the seconds charged fit an `i64`, and, with something
/// staked, the emission and the new accrual fit a `u128`.
pub open spec fn update_in_range(s: RewardStream, last: i64, now: i64, staked: u64) -> bool {
    now >= s.open_time ==> {
        &&& emission_duration(s, last, now) <= i64::MAX
        &&& staked > 0 ==> {
            &&& new_emission(s, last, now) <= u128::MAX
            &&& s.acc_rewards_per_base_unit_x64 + new_emission(s, last, now) / (staked as int)
                <= u128::MAX
        }
    }
}

/// A stream funded for the rest of its window never runs short: an update
/// within the integer ranges runs without underflow and leaves the stream
/// funded for the rest of its window after `now`. This holds unless the
/// stream was still unopened at the last update and has ended by `now`,
/// where an update charges it from the last update on.
pub proof fn lemma_update_keeps_stream_funded(s: RewardStream, last: i64, now: i64, staked: u64)
    requires
        funded(s, last),
        last < now,
        !(last < s.open_time && s.end_time <= now),
        update_in_range(s, last, now, staked),
    ensures
        crate::states::farm::stream_update_defined(s, last, now, staked),
        funded(updated_stream(s, last, now, staked), now),
{
    let em = s.emission_per_second_x64 as int;
    let x = s.end_time - clamp_to_window(s, last);
    let y = s.end_time - clamp_to_window(s, now);
    let d = if now < s.open_time { 0 } else { emission_duration(s, last, now) };
    assert(y >= 0);
    assert(x == d + y);
    assert(d >= 0);
    assert(em * x == em * d + em * y) by (nonlinear_arith)
        requires
            x == d + y,
    ;
    assert(em * y >= 0 && em * d >= 0) by (nonlinear_arith)
        requires
            em >= 0,
            y >= 0,
            d >= 0,
    ;
    assert(em * d == d * em) by (nonlinear_arith);
}

/// Streams funded for the rest of their windows stay funded: when each
/// stream in use is funded at the last update, an update at `now` within the
/// integer ranges runs without underflow, and afterwards each stream in use
/// is funded for the rest of its window after `now`. This holds for streams
/// that were not still unopened at the last update and ended by `now`.
pub proof fn law_update_keeps_streams_funded(a: Farm, b: Farm, now: i64)
    requires
        a.wf(),
        a.last_updated_time < now,
        forall|i: int|
            0 <= i < a.reward_streams_count ==> {
                let s = #[trigger] a.reward_streams@[i];
                &&& funded(s, a.last_updated_time)
                &&& !(a.last_updated_time < s.open_time && s.end_time <= now)
                &&& update_in_range(s, a.last_updated_time, now, a.staked_amount)
            },
        a.updated_to(b, now),
    ensures
        a.update_defined(now),
        forall|i: int| 0 <= i < a.reward_streams_count ==> funded(#[trigger] b.reward_streams@[i], now),
{
    assert forall|i: int| 0 <= i < a.reward_streams_count implies
        #[trigger] crate::states::farm::stream_update_defined(
            a.reward_streams@[i],
            a.last_updated_time,
            now,
            a.staked_amount,
        ) by {
        lemma_update_keeps_stream_funded(
            a.reward_streams@[i],
            a.last_updated_time,
            now,
            a.staked_amount,
        );
    }
    assert forall|i: int| 0 <= i < a.reward_streams_count implies funded(
        #[trigger] b.reward_streams@[i],
        now,
    ) by {
        let s = a.reward_streams@[i];
        lemma_update_keeps_stream_funded(s, a.last_updated_time, now, a.staked_amount);
        assert(b.reward_streams@[i] == updated_stream(s, a.last_updated_time, now, a.staked_amount));
    }
    assert(a.update_defined(now));
}

/// Once an update has found a stream ended (its open and end time both at
/// or before the last update), later updates emit nothing from it: what it
/// has left and what it has accrued stay as they are, and it stays `Ended`.
pub proof fn law_ended_stream_emits_nothing(s: RewardStream, last: i64, now: i64, staked: u64)
    requires
        s.open_time <= last,
        s.end_time <= last,
        last < now,
    ensures
        crate::states::farm::stream_update_defined(s, last, now, staked),
        updated_stream(s, last, now, staked).rewards_left_x64 == s.rewards_left_x64,
        updated_stream(s, last, now, staked).acc_rewards_per_base_unit_x64
            == s.acc_rewards_per_base_unit_x64,
        updated_stream(s, last, now, staked).status == RewardStreamStatus::Ended,
{
    assert(emission_duration(s, last, now) == 0);
    assert(new_emission(s, last, now) == 0);
}

/// The seconds an update at `now` charges a stream last updated at `last`
/// (for a stream that has opened by `now`), written out: up to `now` from the
/// later of its open time and `last` while it runs, and up to its end time
/// from the earlier of its end time and `last` once it has ended.
pub open spec fn seconds_charged(s: RewardStream, last: i64, now: i64) -> int {
    if now < s.end_time {
        now - (if s.open_time >= last { s.open_time } else { last })
    } else {
        s.end_time - (if s.end_time <= last { s.end_time } else { last })
    }
}

/// An update of a stream runs whenever its numbers stay in range, wherever
/// its open time lies relative to the last update: the seconds charged fit
/// an `i64`, and, with something staked, their emission fits a `u128`, does
/// not exceed what the stream has left, and the new accrual fits a `u128`.
/// With nothing staked only the seconds must fit. A stream not yet open at
/// `now` always updates.
pub proof fn law_update_defined_when_in_range(s: RewardStream, last: i64, now: i64, staked: u64)
    requires
        last < now,
        now >= s.open_time ==> {
            &&& seconds_charged(s, last, now) <= i64::MAX
            &&& staked > 0 ==> {
                &&& seconds_charged(s, last, now) * s.emission_per_second_x64 <= u128::MAX
                &&& seconds_charged(s, last, now) * s.emission_per_second_x64
                    <= s.rewards_left_x64
                &&& s.acc_rewards_per_base_unit_x64 + (seconds_charged(s, last, now)
                    * s.emission_per_second_x64) / (staked as int) <= u128::MAX
            }
        },
    ensures
        crate::states::farm::stream_update_defined(s, last, now, staked),
{
    if now >= s.open_time {
        assert(emission_duration(s, last, now) == seconds_charged(s, last, now));
    }
}

/// With nothing staked, a farm updates at any later block time at which the
/// seconds charged to each stream in use fit an `i64`.
pub proof fn law_unstaked_farm_updates(a: Farm, now: i64)
    requires
        a.staked_amount == 0,
        a.last_updated_time < now,
        forall|i: int|
            0 <= i < a.reward_streams_count && now >= (#[trigger] a.reward_streams@[i]).open_time
                ==> seconds_charged(a.reward_streams@[i], a.last_updated_time, now) <= i64::MAX,
    ensures
        a.update_defined(now),
{
    assert forall|i: int| 0 <= i < a.reward_streams_count implies
        #[trigger] crate::states::farm::stream_update_defined(
            a.reward_streams@[i],
            a.last_updated_time,
            now,
            a.staked_amount,
        ) by {
        law_update_defined_when_in_range(
            a.reward_streams@[i],
            a.last_updated_time,
            now,
            a.staked_amount,
        );
    }
}

/// An update at a block time later than the last update brings the farm to
/// that time and, for each stream in use that has opened by then with
/// something staked, takes rate times the seconds charged from what the
/// stream has left and adds that emission divided by the stake (rounded
/// down) to its accrual per staked unit; the stream's status is that of the
/// block time.
pub proof fn law_update_charges_elapsed_seconds(a: Farm, b: Farm, now: i64, i: int)
    requires
        a.wf(),
        a.updated_to(b, now),
        a.update_defined(now),
        a.last_updated_time < now,
        0 <= i < a.reward_streams_count,
    ensures
        b.last_updated_time == now,
        b.staked_amount == a.staked_amount,
        now < a.reward_streams@[i].open_time ==> b.reward_streams@[i].status
            == RewardStreamStatus::Unused,
        a.reward_streams@[i].open_time <= now < a.reward_streams@[i].end_time
            ==> b.reward_streams@[i].status == RewardStreamStatus::Running,
        a.reward_streams@[i].open_time <= now && a.reward_streams@[i].end_time <= now
            ==> b.reward_streams@[i].status == RewardStreamStatus::Ended,
        a.staked_amount > 0 && a.reward_streams@[i].open_time <= now ==> {
            let e = seconds_charged(a.reward_streams@[i], a.last_updated_time, now)
                * a.reward_streams@[i].emission_per_second_x64;
            &&& b.reward_streams@[i].rewards_left_x64 == a.reward_streams@[i].rewards_left_x64 - e
            &&& b.reward_streams@[i].acc_rewards_per_base_unit_x64
                == a.reward_streams@[i].acc_rewards_per_base_unit_x64 + e / (
            a.staked_amount as int)
        },
{
    let s = a.reward_streams@[i];
    assert(b.reward_streams@[i] == updated_stream(s, a.last_updated_time, now, a.staked_amount));
    if now >= s.open_time {
        assert(emission_duration(s, a.last_updated_time, now) == seconds_charged(
            s,
            a.last_updated_time,
            now,
        ));
        assert(crate::states::farm::stream_update_defined(
            s,
            a.last_updated_time,
            now,
            a.staked_amount,
        ));
    }
}

} // verus!
