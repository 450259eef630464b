//! The recurrence stage of the smoothed rolling average.
//!
//! The rolling mean may leave a bar without a value. The exponential recurrence that
//! follows skips such bars: they neither advance nor reset it, and they have no output,
//! so the output is as long as the number of values present.

use vstd::prelude::*;

verus! {

/// The values of `v` that are present, in order.
pub open spec fn present<T>(v: Seq<Option<T>>) -> Seq<T>
    decreases v.len(),
{
    if v.len() == 0 {
        Seq::empty()
    } else {
        let p = present(v.drop_last());
        match v.last() {
            Some(x) => p.push(x),
            None => p,
        }
    }
}

/// No more values are present than there are entries.
pub proof fn lemma_present_len<T>(v: Seq<Option<T>>)
    ensures
        present(v).len() <= v.len(),
    decreases v.len(),
{
    if v.len() > 0 {
        lemma_present_len(v.drop_last());
    }
}

/// Where no value is missing, every entry is present, in order.
pub proof fn lemma_present_when_none_missing<T>(v: Seq<Option<T>>)
    requires
        forall|i: int| 0 <= i < v.len() ==> #[trigger] v[i] is Some,
    ensures
        present(v).len() == v.len(),
        forall|i: int| 0 <= i < v.len() ==> v[i] == Some(#[trigger] present(v)[i]),
    decreases v.len(),
{
    if v.len() > 0 {
        let w = v.drop_last();
        assert forall|i: int| 0 <= i < w.len() implies #[trigger] w[i] is Some by {
            assert(w[i] == v[i]);
        }
        lemma_present_when_none_missing(w);
        assert forall|i: int| 0 <= i < v.len() implies v[i] == Some(#[trigger] present(v)[i]) by {
            if i < w.len() {
                assert(w[i] == v[i]);
            }
        }
    }
}

/// Where every present entry holds `c`, so does every present value.
proof fn lemma_present_constant<T>(v: Seq<Option<T>>, c: T)
    requires
        forall|i: int| 0 <= i < v.len() && #[trigger] v[i] is Some ==> v[i] == Some(c),
    ensures
        forall|k: int| 0 <= k < present(v).len() ==> #[trigger] present(v)[k] == c,
    decreases v.len(),
{
    if v.len() > 0 {
        let w = v.drop_last();
        assert forall|i: int| 0 <= i < w.len() && #[trigger] w[i] is Some implies w[i] == Some(c) by {
            assert(w[i] == v[i]);
        }
        lemma_present_constant(w, c);
        let p = present(w);
        let last = v.len() - 1;
        assert(v.last() == v[last]);
        match v.last() {
            Some(x) => {
                assert(v[last] == Some(c));
                assert(present(v) == p.push(x));
                assert forall|k: int| 0 <= k < present(v).len() implies #[trigger] present(v)[k] == c by {
                    if k < p.len() {
                        assert(present(v)[k] == p[k]);
                    }
                }
            },
            None => {
                assert(present(v) == p);
            },
        }
    }
}

/// A constant series is a fixed point of the recurrence: where every present value is
/// `c` and `step(c, c)` gives `c`, every output of `recurrence_over_present` is `c`.
pub proof fn lemma_recurrence_keeps_constant<T, F: Fn(T, T) -> T>(
    values: Seq<Option<T>>,
    step: F,
    c: T,
    out: Seq<T>,
)
    requires
        forall|i: int| 0 <= i < values.len() && #[trigger] values[i] is Some ==> values[i] == Some(c),
        forall|r: T| step.ensures((c, c), r) ==> r == c,
        out.len() == present(values).len(),
        out.len() > 0 ==> out[0] == present(values)[0],
        forall|k: int|
            0 < k < out.len() ==> step.ensures((out[k - 1], present(values)[k]), #[trigger] out[k]),
    ensures
        forall|k: int| 0 <= k < out.len() ==> #[trigger] out[k] == c,
{
    lemma_present_constant(values, c);
    assert forall|k: int| 0 <= k < out.len() implies #[trigger] out[k] == c by {
        lemma_outputs_constant_upto(values, step, c, out, k);
    }
}

/// Induction on the output index for `lemma_recurrence_keeps_constant`.
proof fn lemma_outputs_constant_upto<T, F: Fn(T, T) -> T>(
    values: Seq<Option<T>>,
    step: F,
    c: T,
    out: Seq<T>,
    k: int,
)
    requires
        0 <= k < out.len(),
        forall|j: int| 0 <= j < present(values).len() ==> #[trigger] present(values)[j] == c,
        forall|r: T| step.ensures((c, c), r) ==> r == c,
        out.len() == present(values).len(),
        out[0] == present(values)[0],
        forall|j: int|
            0 < j < out.len() ==> step.ensures((out[j - 1], present(values)[j]), #[trigger] out[j]),
    ensures
        out[k] == c,
    decreases k,
{
    if k > 0 {
        lemma_outputs_constant_upto(values, step, c, out, k - 1);
        assert(step.ensures((out[k - 1], present(values)[k]), out[k]));
    }
}

/// Runs `step` over the present values of `values`, skipping the missing ones: the first
/// present value is the first output, and each later present value `x` gives
/// `step(previous output, x)`.
pub fn recurrence_over_present<T: Copy, F: Fn(T, T) -> T>(values: &Vec<Option<T>>, step: F) -> (out:
    Vec<T>)
    requires
        forall|prev: T, x: T| step.requires((prev, x)),
    ensures
        out@.len() == present(values@).len(),
        out@.len() <= values@.len(),
        out@.len() > 0 ==> out@[0] == present(values@)[0],
        forall|k: int|
            0 < k < out@.len() ==> step.ensures(
                (out@[k - 1], present(values@)[k]),
                #[trigger] out@[k],
            ),
{
    let mut out: Vec<T> = Vec::new();
    let mut i: usize = 0;
    while i < values.len()
        invariant
            forall|prev: T, x: T| step.requires((prev, x)),
            i <= values@.len(),
            out@.len() == present(values@.subrange(0, i as int)).len(),
            out@.len() > 0 ==> out@[0] == present(values@.subrange(0, i as int))[0],
            forall|k: int|
                0 < k < out@.len() ==> step.ensures(
                    (out@[k - 1], present(values@.subrange(0, i as int))[k]),
                    #[trigger] out@[k],
                ),
        decreases values@.len() - i,
    {
        let ghost before = values@.subrange(0, i as int);
        let ghost after = values@.subrange(0, i + 1);
        assert(after.drop_last() =~= before);
        match values[i] {
            Some(x) => {
                let n = out.len();
                if n == 0 {
                    out.push(x);
                } else {
                    let prev = out[n - 1];
                    let next = step(prev, x);
                    out.push(next);
                }
            },
            None => {},
        }
        i += 1;
    }
    assert(values@.subrange(0, values@.len() as int) =~= values@);
    proof {
        lemma_present_len(values@);
    }
    out
}

} // verus!
