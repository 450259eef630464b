//! Bar layout of the kernel regression engine.
//!
//! A kernel regression of a series of `len` bars weighs, at each bar `t`, the trailing
//! window of `start_at_bar + 2` bars that ends at `t`. Lag `0` is the bar `t` itself and
//! lag `i` is the bar `t - i`. Bars without a full window are warm-up bars, whose output
//! is `0.0`. This module decides which bars are warm-up bars, where each window starts,
//! and which bar each lag reads; the weighting itself is floating-point work done by the
//! caller.

use vstd::prelude::*;

verus! {

/// How a kernel regression is evaluated.
#[derive(Debug, Clone, Copy, PartialEq, Eq, Structural)]
pub enum KernelStrategy {
    /// One weight vector, applied to each reversed trailing window.
    Batch,
    /// Weights computed inline for each bar, reading the series lag by lag.
    Reference,
}

/// Why a kernel regression cannot be laid out.
#[derive(Debug, Clone, Copy, PartialEq, Eq, Structural)]
pub enum KernelError {
    /// `look_back` is zero or negative.
    NonPositiveLookBack,
    /// `start_at_bar` is negative.
    NegativeStartAtBar,
    /// The series is shorter than one window.
    SeriesTooShort,
}

/// Where the windows of a kernel regression lie in a series.
#[derive(Debug, Clone, Copy, PartialEq, Eq, Structural)]
pub struct KernelLayout {
    /// Number of bars in the series, and in the output.
    pub len: usize,
    /// Number of bars in each window: `start_at_bar + 2`.
    pub window_size: usize,
    /// The first bar with a full window; the bars before it are warm-up bars.
    pub first_valid: usize,
}

/// The layout for a series of `len` bars, or the reason there is none.
///
/// The batch strategy's first output is the one of the first trailing window, which ends
/// at slot `window_size - 1`; the reference strategy's loop starts right after
/// `start_at_bar`.
pub open spec fn layout_spec(
    len: int,
    look_back: int,
    start_at_bar: int,
    strategy: KernelStrategy,
) -> Result<KernelLayout, KernelError> {
    if look_back <= 0 {
        Err(KernelError::NonPositiveLookBack)
    } else if start_at_bar < 0 {
        Err(KernelError::NegativeStartAtBar)
    } else if len < start_at_bar + 2 {
        Err(KernelError::SeriesTooShort)
    } else {
        let window_size = start_at_bar + 2;
        let first_valid = match strategy {
            KernelStrategy::Batch => window_size - 1,
            KernelStrategy::Reference => start_at_bar + 1,
        };
        Ok(
            KernelLayout {
                len: len as usize,
                window_size: window_size as usize,
                first_valid: first_valid as usize,
            },
        )
    }
}

impl KernelLayout {
    /// Windows of at least two bars fit in the series, and warm-up covers all bars
    /// before the end of the first window.
    pub open spec fn wf(&self) -> bool {
        &&& 2 <= self.window_size <= self.len
        &&& self.first_valid + 1 == self.window_size
    }

    /// The first bar of the window that ends at bar `t`.
    pub open spec fn start_spec(&self, t: int) -> int {
        t + 1 - self.window_size
    }

    /// Whether bar `t` is a warm-up bar, whose output is `0.0`.
    pub fn is_warm_up(&self, t: usize) -> (r: bool)
        ensures
            r == (t < self.first_valid),
    {
        t < self.first_valid
    }

    /// The first bar of the window that ends at bar `t`.
    pub fn window_start(&self, t: usize) -> (r: usize)
        requires
            self.wf(),
            self.first_valid <= t < self.len,
        ensures
            r == self.start_spec(t as int),
            r + self.window_size <= self.len,
    {
        t + 1 - self.window_size
    }

    /// The bar read at lag `lag` for the output at bar `t`.
    pub fn source_index(&self, t: usize, lag: usize) -> (r: usize)
        requires
            self.wf(),
            self.first_valid <= t < self.len,
            lag < self.window_size,
        ensures
            r == t - lag,
            r < self.len,
    {
        t - lag
    }

    /// The number of full windows, one for each bar after the warm-up.
    pub fn window_count(&self) -> (r: usize)
        requires
            self.wf(),
        ensures
            r == self.len - self.window_size + 1,
            self.first_valid + r == self.len,
    {
        self.len - self.window_size + 1
    }

    /// Builds the output series: `zero` at each warm-up bar, and `estimate(t)` at each
    /// other bar `t`, in order.
    pub fn fill_bars<T: Copy, F: Fn(usize) -> T>(&self, zero: T, estimate: F) -> (out: Vec<T>)
        requires
            self.wf(),
            forall|t: usize| self.first_valid <= t < self.len ==> estimate.requires((t,)),
        ensures
            out@.len() == self.len,
            forall|t: int| 0 <= t < self.first_valid ==> #[trigger] out@[t] == zero,
            forall|t: int|
                self.first_valid <= t < self.len ==> estimate.ensures((t as usize,), #[trigger] out@[t]),
    {
        let mut out: Vec<T> = Vec::with_capacity(self.len);
        let mut t: usize = 0;
        while t < self.len
            invariant
                self.wf(),
                t <= self.len,
                out@.len() == t,
                forall|u: usize| self.first_valid <= u < self.len ==> estimate.requires((u,)),
                forall|j: int| 0 <= j < t && j < self.first_valid ==> #[trigger] out@[j] == zero,
                forall|j: int|
                    self.first_valid <= j < t ==> estimate.ensures((j as usize,), #[trigger] out@[j]),
            decreases self.len - t,
        {
            if self.is_warm_up(t) {
                out.push(zero);
            } else {
                let v = estimate(t);
                out.push(v);
            }
            t += 1;
        }
        out
    }
}

/// Lays out a kernel regression over a series of `len` bars. `look_back` must be
/// positive and `start_at_bar` non-negative, and the series must hold at least one
/// window of `start_at_bar + 2` bars.
pub fn kernel_layout(len: usize, look_back: i32, start_at_bar: i32, strategy: KernelStrategy) -> (r:
    Result<KernelLayout, KernelError>)
    ensures
        r == layout_spec(len as int, look_back as int, start_at_bar as int, strategy),
        r matches Ok(l) ==> l.wf(),
{
    if look_back <= 0 {
        return Err(KernelError::NonPositiveLookBack);
    }
    if start_at_bar < 0 {
        return Err(KernelError::NegativeStartAtBar);
    }
    let window_size = start_at_bar as usize + 2;
    if len < window_size {
        return Err(KernelError::SeriesTooShort);
    }
    let first_valid = match strategy {
        KernelStrategy::Batch => window_size - 1,
        KernelStrategy::Reference => start_at_bar as usize + 1,
    };
    Ok(KernelLayout { len, window_size, first_valid })
}

/// Both strategies accept the same parameters and reject the others with the same error,
/// and where they accept them they begin at the same bar: the two warm-up conventions
/// coincide.
pub proof fn lemma_strategies_agree(len: int, look_back: int, start_at_bar: int)
    ensures
        layout_spec(len, look_back, start_at_bar, KernelStrategy::Batch) == layout_spec(
            len,
            look_back,
            start_at_bar,
            KernelStrategy::Reference,
        ),
{
}

/// Slot `lag` of the window that ends at bar `t`, read in reverse (newest first), is the
/// bar that the reference strategy reads at lag `lag`: the two strategies weigh the
/// same bar with the same lag.
pub proof fn lemma_reversed_window_reads_lag(layout: KernelLayout, t: int, lag: int)
    requires
        layout.wf(),
        layout.first_valid <= t < layout.len,
        0 <= lag < layout.window_size,
    ensures
        0 <= layout.start_spec(t),
        layout.start_spec(t) + layout.window_size <= layout.len,
        layout.start_spec(t) + (layout.window_size - 1 - lag) == t - lag,
{
}

} // verus!
