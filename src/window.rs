//! The mathematical model of decimation: which windows a stream of raw
//! samples yields, and which samples wait in the accumulation buffer.

use vstd::prelude::*;
use vstd::arithmetic::div_mod::{lemma_fundamental_div_mod, lemma_fundamental_div_mod_converse};
use crate::interval::{WINDOW_LEN, DISPLAY_RATE, interval_for};

verus! {

/// Number of windows completed after `n` raw samples: one per finished
/// capture cycle, plus one if the current cycle already holds a whole window.
pub open spec fn captured(n: nat, interval: nat) -> nat {
    n / interval + if n % interval >= WINDOW_LEN as nat { 1nat } else { 0nat }
}

/// Index just past window `k` in the stream.
pub open spec fn window_end(k: int, interval: nat) -> int {
    k * interval + WINDOW_LEN
}

/// The windows that the stream `s` yields: window `k` is the first
/// `WINDOW_LEN` samples of capture cycle `k`.
pub open spec fn windows<T>(s: Seq<T>, interval: nat) -> Seq<Seq<T>> {
    Seq::new(
        captured(s.len(), interval),
        |k: int| s.subrange(k * interval, window_end(k, interval)),
    )
}

/// The samples of the current capture cycle that still wait for their window
/// to fill; empty once the window has gone out.
pub open spec fn pending<T>(s: Seq<T>, interval: nat) -> Seq<T> {
    let c = s.len() % interval;
    if c < WINDOW_LEN as nat {
        s.subrange(s.len() - c, s.len() as int)
    } else {
        Seq::empty()
    }
}

/// Splits `n` into whole cycles and a position within the current cycle.
proof fn lemma_cycle_position(n: nat, interval: nat, q: nat, c: nat)
    requires
        interval > 0,
        c < interval,
        n == q * interval + c,
    ensures
        n / interval == q,
        n % interval == c,
{
    lemma_fundamental_div_mod_converse(n as int, interval as int, q as int, c as int);
}

/// Every completed window lies inside the stream.
proof fn lemma_window_in_stream(n: nat, interval: nat, k: nat)
    requires
        interval >= WINDOW_LEN as nat,
        k < captured(n, interval),
    ensures
        k * interval + WINDOW_LEN as nat <= n,
{
    let q = n / interval;
    let c = n % interval;
    lemma_fundamental_div_mod(n as int, interval as int);
    assert(n == q * interval + c) by (nonlinear_arith)
        requires n == interval * q + c;
    if k < q {
        assert(k * interval + interval <= q * interval) by (nonlinear_arith)
            requires k < q;
    } else {
        assert(k == q);
    }
}

/// What one more raw sample does to the model: the position in the cycle
/// advances, a window goes out when the cycle's first `WINDOW_LEN` samples are
/// in, and the buffer starts over empty right after.
pub proof fn lemma_push<T>(s: Seq<T>, x: T, interval: nat)
    requires
        interval >= WINDOW_LEN as nat,
    ensures
        ({
            let c = s.len() % interval;
            let s2 = s.push(x);
            &&& c <= s.len()
            &&& c < WINDOW_LEN as nat ==> pending(s, interval).len() == c
            &&& s2.len() % interval == if c + 1 == interval { 0 } else { c + 1 }
            &&& windows(s2, interval) == if c + 1 == WINDOW_LEN as nat {
                windows(s, interval).push(pending(s, interval).push(x))
            } else {
                windows(s, interval)
            }
            &&& pending(s2, interval) == if c + 1 < WINDOW_LEN as nat {
                pending(s, interval).push(x)
            } else {
                Seq::empty()
            }
        }),
{
    let n = s.len();
    let s2 = s.push(x);
    let q = n / interval;
    let c = n % interval;
    lemma_fundamental_div_mod(n as int, interval as int);
    assert(n == q * interval + c) by (nonlinear_arith)
        requires n == interval * q + c;
    assert(q * interval >= 0) by (nonlinear_arith)
        requires q >= 0, interval >= 0;
    if c + 1 < interval {
        lemma_cycle_position(n + 1, interval, q, c + 1);
    } else {
        assert(n + 1 == (q + 1) * interval + 0) by (nonlinear_arith)
            requires n == q * interval + c, c + 1 == interval;
        lemma_cycle_position(n + 1, interval, q + 1, 0);
    }
    let w1 = windows(s, interval);
    let w2 = windows(s2, interval);
    assert forall|k: int| 0 <= k < w1.len() implies #[trigger] w2[k] == w1[k] by {
        lemma_window_in_stream(n, interval, k as nat);
        assert(w2[k] =~= w1[k]);
    }
    if c + 1 == WINDOW_LEN as nat {
        assert(w2.len() == w1.len() + 1);
        assert(w2[w1.len() as int] =~= pending(s, interval).push(x));
        assert(w2 =~= w1.push(pending(s, interval).push(x)));
    } else {
        assert(w2 =~= w1);
    }
    if c + 1 < WINDOW_LEN as nat {
        assert(pending(s2, interval) =~= pending(s, interval).push(x));
    }
}

/// Decimation: after `n` raw samples, `n / interval` windows have gone out,
/// or one more when the current cycle already holds a whole window; window
/// `k` is exactly the first `WINDOW_LEN` samples of cycle `k`, in arrival
/// order, and lies inside the stream.
pub proof fn lemma_decimation<T>(s: Seq<T>, interval: nat)
    requires
        interval >= WINDOW_LEN as nat,
    ensures
        s.len() / interval <= windows(s, interval).len() <= s.len() / interval + 1,
        forall|k: int|
            0 <= k < windows(s, interval).len() ==> #[trigger] window_end(k, interval) <= s.len(),
        forall|k: int|
            0 <= k < windows(s, interval).len() ==> #[trigger] windows(s, interval)[k]
                == s.subrange(k * interval, window_end(k, interval)),
{
    assert forall|k: int| 0 <= k < windows(s, interval).len() implies #[trigger] window_end(
        k,
        interval,
    ) <= s.len() by {
        lemma_window_in_stream(s.len(), interval, k as nat);
    }
}

/// Publishing clears the accumulator: on the sample that completes a
/// window, the window sent is the last `WINDOW_LEN` samples and nothing is
/// left waiting for the next one.
pub proof fn lemma_fresh_cycle<T>(s: Seq<T>, x: T, interval: nat)
    requires
        interval >= WINDOW_LEN as nat,
        windows(s.push(x), interval).len() == windows(s, interval).len() + 1,
    ensures
        pending(s.push(x), interval).len() == 0,
        windows(s.push(x), interval).last() == s.push(x).subrange(
            s.len() - WINDOW_LEN + 1,
            s.len() as int + 1,
        ),
{
    lemma_push(s, x, interval);
    let c = s.len() % interval;
    assert(c + 1 == WINDOW_LEN as nat);
    assert(pending(s, interval).push(x) =~= s.push(x).subrange(
        s.len() - WINDOW_LEN + 1,
        s.len() as int + 1,
    ));
}

/// At sample rates below one window per display frame the capture interval
/// is a single window: cycles follow each other with no sample discarded,
/// every sample lands in a sent window or in the pending buffer, at the
/// place its position in the stream gives.
pub proof fn lemma_back_to_back<T>(s: Seq<T>, sample_rate: nat)
    requires
        sample_rate / (DISPLAY_RATE as nat) < WINDOW_LEN as nat,
    ensures
        interval_for(sample_rate) == WINDOW_LEN as nat,
        windows(s, WINDOW_LEN as nat).len() == s.len() / (WINDOW_LEN as nat),
        forall|i: int|
            0 <= i < s.len() ==> if i / (WINDOW_LEN as int) < windows(s, WINDOW_LEN as nat).len() {
                windows(s, WINDOW_LEN as nat)[i / (WINDOW_LEN as int)][i % (WINDOW_LEN as int)]
                    == s[i]
            } else {
                pending(s, WINDOW_LEN as nat)[i % (WINDOW_LEN as int)] == s[i]
            },
{
    let w = WINDOW_LEN as nat;
    let n = s.len();
    assert forall|i: int| 0 <= i < n implies if i / (w as int) < windows(s, w).len() {
        windows(s, w)[i / (w as int)][i % (w as int)] == s[i]
    } else {
        pending(s, w)[i % (w as int)] == s[i]
    } by {
        let k = i / (w as int);
        if k < windows(s, w).len() {
            lemma_window_in_stream(n, w, k as nat);
        }
    }
}

} // verus!
