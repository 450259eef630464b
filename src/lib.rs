//! Technical-analysis building blocks for Lorentzian classification: validated strategy
//! settings, the market direction marker, the bar layout of the kernel regression engine,
//! and the recurrence stage of the smoothed rolling average.

mod kernel;
mod smoothing;
mod types;

pub use kernel::{
    KernelError, KernelLayout, KernelStrategy, kernel_layout, lemma_reversed_window_reads_lag,
    lemma_strategies_agree,
};
pub use smoothing::{
    lemma_present_len, lemma_present_when_none_missing, lemma_recurrence_keeps_constant,
    recurrence_over_present,
};
pub use types::{Direction, Settings, SettingsError};
