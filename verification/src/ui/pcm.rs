//! The jitter buffer between a station's bursty PCM stream and the meters:
//! when playback of the buffer starts and stops, how much each meter tick
//! takes, and how the buffer and the scope's ring are kept in bounds. The
//! samples themselves are carried through untouched.

use vstd::prelude::*;
use std::collections::VecDeque;

verus! {

/// Sample rate of the station PCM stream.
pub const STREAM_PCM_RATE_HZ: usize = 44100;

/// Meter ticks per second.
pub const METER_FPS: usize = 25;

/// Samples per meter tick.
pub const STREAM_FRAME_SAMPLES: usize = STREAM_PCM_RATE_HZ / METER_FPS;

/// Samples the scope's ring keeps: about two seconds.
pub const PCM_RING_MAX: usize = STREAM_PCM_RATE_HZ * 2;

/// The buffer level at which playback of the buffer starts: about 1.6 s.
pub const PCM_JITTER_TARGET: usize = STREAM_FRAME_SAMPLES * 40;

/// The buffer level under which playback of the buffer stops: about 160 ms.
pub const PCM_JITTER_STOP: usize = STREAM_FRAME_SAMPLES * 4;

/// The most the buffer holds before it drops its oldest samples: about 5 s.
pub const PCM_JITTER_MAX: usize = STREAM_FRAME_SAMPLES * 125;

/// How many samples the buffer keeps when it overflows.
pub const PCM_JITTER_KEEP: usize = PCM_JITTER_TARGET + STREAM_FRAME_SAMPLES * 8;

/// The buffer after a chunk arrived: over the cap, only the newest
/// `PCM_JITTER_KEEP` samples stay.
pub open spec fn after_chunk<T>(pending: Seq<T>) -> Seq<T> {
    if pending.len() > PCM_JITTER_MAX {
        pending.skip(pending.len() - PCM_JITTER_KEEP)
    } else {
        pending
    }
}

/// Appends a chunk of samples to the buffer, dropping the oldest when it
/// overflows.
pub fn push_chunk<T: Copy>(pending: &mut VecDeque<T>, chunk: &Vec<T>)
    ensures
        final(pending)@ == after_chunk(old(pending)@ + chunk@),
{
    let n = chunk.len();
    let mut i: usize = 0;
    while i < n
        invariant
            n == chunk@.len(),
            0 <= i <= n,
            pending@ == old(pending)@ + chunk@.take(i as int),
        decreases n - i,
    {
        pending.push_back(chunk[i]);
        proof {
            assert(old(pending)@ + chunk@.take(i + 1) =~= (old(pending)@ + chunk@.take(i as int)).push(
                chunk@[i as int],
            ));
        }
        i += 1;
    }
    proof {
        assert(chunk@.take(n as int) =~= chunk@);
    }
    let ghost full = pending@;
    if pending.len() > PCM_JITTER_MAX {
        let drop_n = pending.len() - PCM_JITTER_KEEP;
        let mut k: usize = 0;
        while k < drop_n
            invariant
                full.len() > PCM_JITTER_MAX,
                drop_n == full.len() - PCM_JITTER_KEEP,
                0 <= k <= drop_n,
                pending@ == full.skip(k as int),
            decreases drop_n - k,
        {
            let _ = pending.pop_front();
            proof {
                assert(full.skip(k as int).subrange(1, full.skip(k as int).len() as int) =~= full.skip(k + 1));
            }
            k += 1;
        }
    }
}

/// Whether the buffer plays after this tick: it starts once it holds the
/// target level and stops once it falls under the stop level.
pub open spec fn started_after(started: bool, pending: nat) -> bool {
    if !started && pending >= PCM_JITTER_TARGET {
        true
    } else if started && pending < PCM_JITTER_STOP {
        false
    } else {
        started
    }
}

pub fn pcm_started_after(started: bool, pending: usize) -> (r: bool)
    ensures
        r == started_after(started, pending as nat),
{
    if !started && pending >= PCM_JITTER_TARGET {
        true
    } else if started && pending < PCM_JITTER_STOP {
        false
    } else {
        started
    }
}

/// How many samples a tick takes from a buffer of `available`: one frame,
/// more to catch up (half the excess over the target, at most five frames
/// in all) when the buffer runs more than a frame over the target.
pub open spec fn take_for(available: nat) -> nat {
    if available > PCM_JITTER_TARGET + STREAM_FRAME_SAMPLES {
        let more: nat = (STREAM_FRAME_SAMPLES + (available - PCM_JITTER_TARGET) / 2) as nat;
        if more < STREAM_FRAME_SAMPLES * 5 {
            more
        } else {
            (STREAM_FRAME_SAMPLES * 5) as nat
        }
    } else {
        STREAM_FRAME_SAMPLES as nat
    }
}

pub fn frame_take(available: usize) -> (r: usize)
    ensures
        r == take_for(available as nat),
        STREAM_FRAME_SAMPLES <= r <= STREAM_FRAME_SAMPLES * 5,
{
    let mut take = STREAM_FRAME_SAMPLES;
    if available > PCM_JITTER_TARGET + STREAM_FRAME_SAMPLES {
        let catch_up = (available - PCM_JITTER_TARGET) / 2;
        let more = STREAM_FRAME_SAMPLES + catch_up;
        take = if more < STREAM_FRAME_SAMPLES * 5 {
            more
        } else {
            STREAM_FRAME_SAMPLES * 5
        };
    }
    take
}

/// The samples a tick hands to the meters: up to `take` from the front of
/// the buffer, then, where that is short of a frame, the last sample
/// repeated (the ring's last, or `zero`, when the buffer gave none).
pub open spec fn frame_samples<T>(pending: Seq<T>, ring: Seq<T>, take: nat, zero: T) -> Seq<T> {
    let c = if take < pending.len() {
        take
    } else {
        pending.len()
    };
    let given = pending.take(c as int);
    let hold = if c > 0 {
        given.last()
    } else if ring.len() > 0 {
        ring.last()
    } else {
        zero
    };
    given + Seq::new(
        if c < STREAM_FRAME_SAMPLES {
            (STREAM_FRAME_SAMPLES - c) as nat
        } else {
            0
        },
        |i: int| hold,
    )
}

/// The ring after samples were added: only the newest `PCM_RING_MAX` stay.
pub open spec fn ring_after<T>(ring: Seq<T>) -> Seq<T> {
    if ring.len() > PCM_RING_MAX {
        ring.skip(ring.len() - PCM_RING_MAX)
    } else {
        ring
    }
}

/// One meter tick while a station plays: decides whether the buffer plays,
/// and if it does moves a frame's worth of samples from the buffer to the
/// scope's ring. Returns whether it plays, how many samples the buffer
/// gave and how many the ring got (its newest ones, for the level meter).
pub fn meter_tick<T: Copy>(pending: &mut VecDeque<T>, ring: &mut VecDeque<T>, started: bool, zero: T) -> (r: (
    bool,
    usize,
    usize,
))
    ensures
        r.0 == started_after(started, old(pending)@.len()),
        !r.0 ==> final(pending)@ == old(pending)@ && final(ring)@ == old(ring)@ && r.1 == 0 && r.2 == 0,
        r.0 ==> {
            let take = take_for(old(pending)@.len());
            let frame = frame_samples(old(pending)@, old(ring)@, take, zero);
            &&& r.1 == (if take < old(pending)@.len() {
                take
            } else {
                old(pending)@.len()
            })
            &&& final(pending)@ == old(pending)@.skip(r.1 as int)
            &&& r.2 == frame.len()
            &&& final(ring)@ == ring_after(old(ring)@ + frame)
        },
{
    let len0 = pending.len();
    let on = pcm_started_after(started, len0);
    if !on {
        return (false, 0, 0);
    }
    let take = frame_take(len0);
    let c = if take < len0 {
        take
    } else {
        len0
    };
    let ghost p0 = pending@;
    let ghost r0 = ring@;
    let rl = ring.len();
    let mut hold: T = if rl > 0 {
        ring[rl - 1]
    } else {
        zero
    };
    let ghost hold0 = hold;
    let mut i: usize = 0;
    while i < c
        invariant
            c <= p0.len(),
            0 <= i <= c,
            pending@ == p0.skip(i as int),
            ring@ == r0 + p0.take(i as int),
            hold == (if i > 0 {
                p0[i - 1]
            } else {
                hold0
            }),
        decreases c - i,
    {
        match pending.pop_front() {
            Some(s) => {
                hold = s;
                ring.push_back(s);
            },
            None => {},
        }
        proof {
            assert(p0.skip(i as int).len() > 0);
            assert(p0.skip(i as int)[0] == p0[i as int]);
            assert(p0.skip(i as int).subrange(1, p0.skip(i as int).len() as int) =~= p0.skip(i + 1));
            assert(r0 + p0.take(i + 1) =~= (r0 + p0.take(i as int)).push(p0[i as int]));
        }
        i += 1;
    }
    let ghost base = ring@;
    let mut k: usize = c;
    while k < STREAM_FRAME_SAMPLES
        invariant
            c <= k,
            c < STREAM_FRAME_SAMPLES ==> k <= STREAM_FRAME_SAMPLES,
            c >= STREAM_FRAME_SAMPLES ==> k == c,
            ring@ == base + Seq::new((k - c) as nat, |j: int| hold),
        decreases STREAM_FRAME_SAMPLES - k,
    {
        ring.push_back(hold);
        proof {
            assert(base + Seq::new((k + 1 - c) as nat, |j: int| hold) =~= (base + Seq::new(
                (k - c) as nat,
                |j: int| hold,
            )).push(hold));
        }
        k += 1;
    }
    let pushed = if c < STREAM_FRAME_SAMPLES {
        STREAM_FRAME_SAMPLES
    } else {
        c
    };
    proof {
        let frame = frame_samples(p0, r0, take as nat, zero);
        assert(hold == (if c > 0 {
            p0.take(c as int).last()
        } else if r0.len() > 0 {
            r0.last()
        } else {
            zero
        }));
        assert(ring@ =~= r0 + frame);
        assert(frame.len() == pushed);
    }
    let ghost full = ring@;
    while ring.len() > PCM_RING_MAX
        invariant
            full.len() >= ring@.len(),
            ring@ == full.skip(full.len() - ring@.len()),
            full.len() > PCM_RING_MAX ==> ring@.len() >= PCM_RING_MAX,
            full.len() <= PCM_RING_MAX ==> ring@ == full,
        decreases ring@.len(),
    {
        let ghost before = ring@;
        let _ = ring.pop_front();
        proof {
            assert(before.subrange(1, before.len() as int) =~= full.skip(full.len() - ring@.len()));
        }
    }
    proof {
        assert(ring@ =~= ring_after(full));
    }
    (true, c, pushed)
}

} // verus!
