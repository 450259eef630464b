//! Configuration and direction types used by the classification strategy.

use vstd::prelude::*;
use vstd::string::*;

verus! {

/// Strategy settings for the classification.
#[derive(Debug)]
pub struct Settings<'a> {
    /// The price column the strategy reads.
    pub source: &'a str,
    /// The number of neighbors to consider.
    pub neighbors_count: i8,
    /// The maximum number of bars to look back.
    pub max_bars_back: i32,
    /// Whether exits should be shown.
    pub show_exits: bool,
    /// Whether dynamic exits should be used.
    pub use_dynamic_exits: bool,
    /// Whether an EMA filter should be used.
    pub use_ema_filter: bool,
    /// The period of the EMA filter.
    pub ema_period: i32,
    /// Whether an SMA filter should be used.
    pub use_sma_filter: bool,
    /// The period of the SMA filter.
    pub sma_period: i32,
}

/// Why a `Settings` value was rejected.
#[derive(Debug, Clone, Copy, PartialEq, Eq, Structural)]
pub enum SettingsError {
    /// `source` is not one of the known price columns.
    UnknownSource,
    /// `neighbors_count` is zero or negative.
    NonPositiveNeighborsCount,
    /// `max_bars_back` is zero or negative.
    NonPositiveMaxBarsBack,
    /// `ema_period` is one or less.
    EmaPeriodTooShort,
    /// `sma_period` is one or less.
    SmaPeriodTooShort,
}

/// The price columns a strategy may read.
pub open spec fn is_known_source(s: Seq<char>) -> bool {
    ||| s == "close"@
    ||| s == "open"@
    ||| s == "high"@
    ||| s == "low"@
    ||| s == "volume"@
    ||| s == "vol"@
}

/// The first rule that `s` breaks, checked in a fixed order, or `None` when it breaks none.
pub open spec fn settings_error(s: Settings) -> Option<SettingsError> {
    if !is_known_source(s.source@) {
        Some(SettingsError::UnknownSource)
    } else if s.neighbors_count <= 0 {
        Some(SettingsError::NonPositiveNeighborsCount)
    } else if s.max_bars_back <= 0 {
        Some(SettingsError::NonPositiveMaxBarsBack)
    } else if s.ema_period <= 1 {
        Some(SettingsError::EmaPeriodTooShort)
    } else if s.sma_period <= 1 {
        Some(SettingsError::SmaPeriodTooShort)
    } else {
        None
    }
}

/// Character-wise equality of two strings.
fn same_text(a: &str, b: &str) -> (r: bool)
    ensures
        r == (a@ == b@),
{
    let n = a.unicode_len();
    if n != b.unicode_len() {
        return false;
    }
    let mut i: usize = 0;
    while i < n
        invariant
            n == a@.len(),
            n == b@.len(),
            i <= n,
            forall|j: int| 0 <= j < i ==> a@[j] == b@[j],
        decreases n - i,
    {
        if a.get_char(i) != b.get_char(i) {
            return false;
        }
        i += 1;
    }
    assert(a@ =~= b@);
    true
}

impl<'a> Settings<'a> {
    /// Checks every parameter; reports the first rule broken, in the order source,
    /// neighbors count, bars back, EMA period, SMA period.
    pub fn check_settings(&self) -> (r: Result<(), SettingsError>)
        ensures
            r is Ok <==> settings_error(*self) is None,
            settings_error(*self) matches Some(e) ==> r == Err::<(), SettingsError>(e),
    {
        let known = same_text(self.source, "close") || same_text(self.source, "open")
            || same_text(self.source, "high") || same_text(self.source, "low")
            || same_text(self.source, "volume") || same_text(self.source, "vol");
        if !known {
            return Err(SettingsError::UnknownSource);
        }
        if self.neighbors_count <= 0 {
            return Err(SettingsError::NonPositiveNeighborsCount);
        }
        if self.max_bars_back <= 0 {
            return Err(SettingsError::NonPositiveMaxBarsBack);
        }
        if self.ema_period <= 1 {
            return Err(SettingsError::EmaPeriodTooShort);
        }
        if self.sma_period <= 1 {
            return Err(SettingsError::SmaPeriodTooShort);
        }
        Ok(())
    }
}

/// Market trend direction.
#[derive(Debug, Clone, Copy, PartialEq, Eq, Structural)]
pub enum Direction {
    LONG,
    SHORT,
    NEUTRAL,
}

/// The sign that each direction stands for.
pub open spec fn direction_value(d: Direction) -> int {
    match d {
        Direction::LONG => 1,
        Direction::SHORT => -1,
        Direction::NEUTRAL => 0,
    }
}

impl Direction {
    /// The direction as a sign: `1` for long, `-1` for short, `0` for neutral.
    pub fn value(&self) -> (r: i8)
        ensures
            r == direction_value(*self),
    {
        match self {
            Direction::LONG => 1,
            Direction::SHORT => -1,
            Direction::NEUTRAL => 0,
        }
    }
}

} // verus!
