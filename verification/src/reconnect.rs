//! Reconnection policy: exponential backoff with bounded jitter, a retry
//! ceiling, and the choice between resuming and identifying afresh.

use vstd::arithmetic::div_mod::lemma_div_is_ordered;
use vstd::arithmetic::mul::lemma_mul_inequality;
use vstd::arithmetic::mul::lemma_mul_is_associative;
use vstd::arithmetic::mul::lemma_mul_is_commutative;
use vstd::arithmetic::mul::lemma_mul_upper_bound;
use vstd::prelude::*;

use crate::session::SessionState;
use crate::stage::ReconnectType;

verus! {

/// Two to the power `e`.
pub open spec fn two_to(e: nat) -> nat
    decreases e,
{
    if e == 0 {
        1
    } else {
        2 * two_to((e - 1) as nat)
    }
}

/// Two to a power never shrinks as the exponent grows.
pub proof fn lemma_two_to_mono(a: nat, b: nat)
    requires
        a <= b,
    ensures
        two_to(a) <= two_to(b),
    decreases b,
{
    if a < b {
        lemma_two_to_mono(a, (b - 1) as nat);
        assert(two_to(b) == 2 * two_to((b - 1) as nat));
    }
}

/// The reconnection backoff policy of one shard.
///
/// The delay before attempt `n` is `min(max_delay, base_delay * 2^n)`,
/// scaled by a jitter factor drawn uniformly from
/// `1 - jitter` to `1 + jitter`, where the jitter width is given in
/// thousandths. Attempts beyond `max_attempts` give up.
#[derive(Clone, Copy, Debug)]
pub struct ReconnectPolicy {
    /// The delay before the first retry, in milliseconds.
    pub base_delay_ms: u64,
    /// The ceiling on the unjittered delay, in milliseconds.
    pub max_delay_ms: u64,
    /// Half-width of the jitter band, in thousandths of the delay.
    pub jitter_permille: u32,
    /// How many consecutive failed attempts are tolerated before giving up.
    pub max_attempts: u32,
}

impl ReconnectPolicy {
    /// Well-formedness: the jitter width is at most the whole delay, the
    /// base delay does not exceed the ceiling, and the ceiling is small
    /// enough that the jittered delay cannot overflow.
    pub open spec fn wf(self) -> bool {
        &&& self.jitter_permille <= 1000
        &&& self.base_delay_ms <= self.max_delay_ms
        &&& self.max_delay_ms <= 0xFFFF_FFFF_FFFF
    }

    /// The unjittered delay before retry `attempt`: exponential in the
    /// attempt number, capped at the ceiling.
    pub open spec fn raw_delay_spec(self, attempt: u32) -> int {
        if self.base_delay_ms * two_to(attempt as nat) >= self.max_delay_ms {
            self.max_delay_ms as int
        } else {
            self.base_delay_ms * two_to(attempt as nat)
        }
    }

    /// The unjittered delay never shrinks as the attempt number grows.
    pub proof fn lemma_raw_delay_mono(self, a1: u32, a2: u32)
        requires
            a1 <= a2,
        ensures
            self.raw_delay_spec(a1) <= self.raw_delay_spec(a2),
    {
        lemma_two_to_mono(a1 as nat, a2 as nat);
        let t1 = two_to(a1 as nat) as int;
        let t2 = two_to(a2 as nat) as int;
        let b = self.base_delay_ms as int;
        assert(b * t1 <= b * t2) by (nonlinear_arith)
            requires
                0 <= b,
                t1 <= t2,
        ;
    }

    /// The unjittered delay before retry `attempt`, in milliseconds.
    pub fn raw_delay(&self, attempt: u32) -> (d: u64)
        requires
            self.wf(),
        ensures
            d == self.raw_delay_spec(attempt),
    {
        let mut d: u64 = self.base_delay_ms;
        let mut i: u32 = 0;
        proof {
            assert(two_to(0) == 1);
        }
        while i < attempt && d < self.max_delay_ms
            invariant
                self.wf(),
                i <= attempt,
                d <= self.max_delay_ms,
                d < self.max_delay_ms ==> d == self.base_delay_ms * two_to(i as nat),
                d == self.max_delay_ms ==> self.base_delay_ms * two_to(i as nat)
                    >= self.max_delay_ms,
            decreases attempt - i,
        {
            proof {
                assert(two_to((i + 1) as nat) == 2 * two_to(i as nat));
                lemma_mul_is_associative(self.base_delay_ms as int, 2, two_to(i as nat) as int);
                lemma_mul_is_commutative(self.base_delay_ms as int, 2);
                lemma_mul_is_associative(2, self.base_delay_ms as int, two_to(i as nat) as int);
            }
            if d > self.max_delay_ms / 2 {
                d = self.max_delay_ms;
            } else {
                d = d * 2;
            }
            i = i + 1;
        }
        proof {
            if i < attempt {
                // the cap was reached early; later attempts only grow the
                // uncapped product, so the cap stays in force
                lemma_two_to_mono(i as nat, attempt as nat);
                let t1 = two_to(i as nat) as int;
                let t2 = two_to(attempt as nat) as int;
                let b = self.base_delay_ms as int;
                assert(b * t1 <= b * t2) by (nonlinear_arith)
                    requires
                        0 <= b,
                        t1 <= t2,
                ;
            }
        }
        if d >= self.max_delay_ms {
            self.max_delay_ms
        } else {
            d
        }
    }

    /// The jitter scale in thousandths applied to a delay, for a random
    /// draw `roll`: it sweeps `1000 - jitter` up to `1000 + jitter` as the
    /// draw sweeps `0` up to `2 * jitter`, and larger draws are clamped.
    pub open spec fn jitter_scale_spec(self, roll: u32) -> int {
        1000 - self.jitter_permille + (if roll <= 2 * self.jitter_permille {
            roll as int
        } else {
            2 * self.jitter_permille
        })
    }

    /// The delay before retry `attempt` under jitter draw `roll`.
    pub open spec fn next_delay_spec(self, attempt: u32, roll: u32) -> int {
        self.raw_delay_spec(attempt) * self.jitter_scale_spec(roll) / 1000
    }

    /// The delay in milliseconds to sleep before retry `attempt`.
    ///
    /// `roll` is a random draw supplied by the caller; any value in
    /// `0 ..= 2 * jitter_permille` may come up, and larger values are
    /// clamped, so no draw can stretch the delay beyond the jitter band.
    pub fn next_delay(&self, attempt: u32, roll: u32) -> (d: u64)
        requires
            self.wf(),
        ensures
            d == self.next_delay_spec(attempt, roll),
    {
        let raw: u64 = self.raw_delay(attempt);
        let clamped: u32 = if roll <= 2 * self.jitter_permille {
            roll
        } else {
            2 * self.jitter_permille
        };
        let scale: u64 = 1000 - self.jitter_permille as u64 + clamped as u64;
        proof {
            assert(raw * scale <= 0xFFFF_FFFF_FFFF * 2000) by {
                lemma_mul_upper_bound(raw as int, 0xFFFF_FFFF_FFFF, scale as int, 2000);
            }
        }
        raw * scale / 1000
    }

    /// The delay never shrinks as the attempt number grows, for any one
    /// jitter draw.
    pub proof fn lemma_next_delay_mono(self, a1: u32, a2: u32, roll: u32)
        requires
            self.wf(),
            a1 <= a2,
        ensures
            self.next_delay_spec(a1, roll) <= self.next_delay_spec(a2, roll),
    {
        self.lemma_raw_delay_mono(a1, a2);
        lemma_mul_inequality(
            self.raw_delay_spec(a1),
            self.raw_delay_spec(a2),
            self.jitter_scale_spec(roll),
        );
        lemma_div_is_ordered(
            self.raw_delay_spec(a1) * self.jitter_scale_spec(roll),
            self.raw_delay_spec(a2) * self.jitter_scale_spec(roll),
            1000,
        );
    }

    /// The delay never exceeds the ceiling widened by the jitter band:
    /// whatever the attempt and the draw, it stays at or under
    /// `max_delay * (1000 + jitter) / 1000`.
    pub proof fn lemma_next_delay_bounded(self, attempt: u32, roll: u32)
        requires
            self.wf(),
        ensures
            self.next_delay_spec(attempt, roll) <= self.max_delay_ms * (1000
                + self.jitter_permille) / 1000,
    {
        lemma_mul_upper_bound(
            self.raw_delay_spec(attempt),
            self.max_delay_ms as int,
            self.jitter_scale_spec(roll),
            1000 + self.jitter_permille,
        );
        lemma_div_is_ordered(
            self.raw_delay_spec(attempt) * self.jitter_scale_spec(roll),
            self.max_delay_ms * (1000 + self.jitter_permille),
            1000,
        );
    }

    /// Whether the attempt counter has passed the configured ceiling.
    pub open spec fn should_give_up_spec(self, attempt: u32) -> bool {
        attempt > self.max_attempts
    }

    /// Whether reconnection should be abandoned after `attempt` consecutive
    /// failures.
    pub fn should_give_up(&self, attempt: u32) -> (r: bool)
        ensures
            r == self.should_give_up_spec(attempt),
    {
        attempt > self.max_attempts
    }
}

/// How the next connection should authenticate: by a Resume exactly when the
/// session is resumable and a session id is on hand, and by a fresh Identify
/// otherwise. The choice reads the session state alone, never an error kind.
pub fn reconnect_type(session: &SessionState) -> (t: ReconnectType)
    ensures
        t == ReconnectType::Resume <==> session.can_resume_spec(),
        t == ReconnectType::Reidentify <==> !session.can_resume_spec(),
{
    if session.can_resume() {
        ReconnectType::Resume
    } else {
        ReconnectType::Reidentify
    }
}

} // verus!
