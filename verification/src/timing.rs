use vstd::prelude::*;

verus! {

/// The highest level that play reaches.
pub const MAX_LEVEL: u8 = 29;

/// The level after `lines_hit` cleared lines of a round that began at `start_level`: one
/// level for every ten lines, and never above 29.
pub open spec fn spec_level(start_level: u8, lines_hit: u16) -> int {
    if start_level + lines_hit / 10 < 29 {
        start_level + lines_hit / 10
    } else {
        29
    }
}

/// The level after `lines_hit` cleared lines of a round that began at `start_level`.
pub fn level_of(start_level: u8, lines_hit: u16) -> (level: u8)
    ensures
        level == spec_level(start_level, lines_hit),
        level <= MAX_LEVEL,
{
    let raised: u16 = start_level as u16 + lines_hit / 10;
    if raised < 29 {
        raised as u8
    } else {
        MAX_LEVEL
    }
}

/// The level never falls as lines are cleared, and never passes 29, whatever level the round
/// began at and however far the line counter has run.
pub proof fn level_never_falls(start_level: u8, fewer: u16, more: u16)
    requires
        fewer <= more,
    ensures
        spec_level(start_level, fewer) <= spec_level(start_level, more) <= 29,
{
}

/// The time between two automatic steps down at a level, in microseconds.
pub open spec fn spec_lowering_micros(level: int) -> int {
    if level <= 8 {
        800_000 - 83_500 * level
    } else if level == 9 {
        100_000
    } else if level <= 12 {
        83_000
    } else if level <= 15 {
        67_000
    } else if level <= 18 {
        50_000
    } else if level <= 28 {
        33_000
    } else {
        17_000
    }
}

/// The time between two automatic steps down at a level, in microseconds.
pub fn lowering_micros(level: u8) -> (micros: u64)
    ensures
        micros == spec_lowering_micros(level as int),
{
    if level <= 8 {
        800_000 - 83_500 * (level as u64)
    } else if level == 9 {
        100_000
    } else if level <= 12 {
        83_000
    } else if level <= 15 {
        67_000
    } else if level <= 18 {
        50_000
    } else if level <= 28 {
        33_000
    } else {
        17_000
    }
}

/// The points for clearing `cleared` lines with one piece on level 0.
pub open spec fn base_score(cleared: int) -> int {
    if cleared == 1 {
        40
    } else if cleared == 2 {
        100
    } else if cleared == 3 {
        300
    } else if cleared == 4 {
        1200
    } else {
        0
    }
}

/// The points for clearing `cleared` lines with one piece at a level.
pub open spec fn spec_line_score(cleared: int, level: int) -> int {
    base_score(cleared) * (level + 1)
}

/// The points for clearing `cleared` lines with one piece at a level.
pub fn line_score(cleared: usize, level: u8) -> (points: u64)
    ensures
        points == spec_line_score(cleared as int, level as int),
{
    let base: u64 = if cleared == 1 {
        40
    } else if cleared == 2 {
        100
    } else if cleared == 3 {
        300
    } else if cleared == 4 {
        1200
    } else {
        0
    };
    assert(base * (level + 1) <= 1200 * 256) by (nonlinear_arith)
        requires
            0 <= base <= 1200,
            0 <= level <= 255,
    ;
    base * (level as u64 + 1)
}

/// One, two, three or four lines cleared on level 0 bring 40, 100, 300 and 1200 points, and
/// on level `level` as many times `level + 1`.
pub proof fn score_table(cleared: int, level: int)
    ensures
        spec_line_score(1, 0) == 40,
        spec_line_score(2, 0) == 100,
        spec_line_score(3, 0) == 300,
        spec_line_score(4, 0) == 1200,
        spec_line_score(cleared, level) == spec_line_score(cleared, 0) * (level + 1),
{
    assert(spec_line_score(cleared, 0) == base_score(cleared));
}

/// The time from `from` to `to`; none where `to` is the earlier.
pub open spec fn span(from: u64, to: u64) -> int {
    if to >= from {
        to - from
    } else {
        0
    }
}

/// `n`, or the largest `u64` where `n` is above it.
pub open spec fn capped(n: int) -> int {
    if n > u64::MAX {
        u64::MAX as int
    } else {
        n
    }
}

/// A stopwatch that can be halted and set going again. Times are in microseconds.
#[derive(Debug, Clone, Copy)]
pub struct Stopwatch {
    /// The time gathered over the intervals that have ended.
    pub accumulated: u64,
    /// When the running interval began; nothing while the stopwatch is halted.
    pub started: Option<u64>,
}

impl Stopwatch {
    /// The stopwatch once set going at `now`: unchanged where it was running.
    pub open spec fn spec_started(self, now: u64) -> Stopwatch {
        if self.started.is_some() {
            self
        } else {
            Stopwatch { accumulated: self.accumulated, started: Some(now) }
        }
    }

    /// The time shown at `now`: what was gathered, and the running interval where there is one.
    pub open spec fn spec_elapsed(self, now: u64) -> int {
        match self.started {
            Some(since) => capped(self.accumulated + span(since, now)),
            None => self.accumulated as int,
        }
    }

    /// The stopwatch once halted at `now`: unchanged where it was halted.
    pub open spec fn spec_paused(self, now: u64) -> Stopwatch {
        if self.started.is_some() {
            Stopwatch { accumulated: self.spec_elapsed(now) as u64, started: None }
        } else {
            self
        }
    }

    /// A halted stopwatch that shows no time.
    pub fn new() -> (watch: Stopwatch)
        ensures
            watch == (Stopwatch { accumulated: 0, started: None }),
    {
        Stopwatch { accumulated: 0, started: None }
    }

    /// Whether an interval is running.
    pub fn is_running(&self) -> (running: bool)
        ensures
            running == self.started.is_some(),
    {
        self.started.is_some()
    }

    /// Sets the stopwatch going at `now`. Nothing happens where it is running.
    pub fn start(&mut self, now: u64)
        ensures
            *final(self) == old(self).spec_started(now),
    {
        if self.started.is_none() {
            self.started = Some(now);
        }
    }

    /// Halts the stopwatch at `now` and keeps the time of the interval that ends. Nothing
    /// happens where it is halted.
    pub fn pause(&mut self, now: u64)
        ensures
            *final(self) == old(self).spec_paused(now),
    {
        if self.started.is_some() {
            self.accumulated = self.elapsed(now);
            self.started = None;
        }
    }

    /// The time shown at `now`.
    pub fn elapsed(&self, now: u64) -> (shown: u64)
        ensures
            shown == self.spec_elapsed(now),
    {
        match self.started {
            Some(since) => self.accumulated.saturating_add(now.saturating_sub(since)),
            None => self.accumulated,
        }
    }
}

/// A halted stopwatch shows the same time at every moment, and halting a halted one or
/// starting a running one changes nothing.
pub proof fn halted_stopwatch_stands(watch: Stopwatch, now: u64, later: u64)
    ensures
        watch.spec_paused(now).spec_elapsed(later) == watch.spec_elapsed(now),
        watch.spec_paused(now).spec_paused(later) == watch.spec_paused(now),
        watch.spec_started(now).spec_started(later) == watch.spec_started(now),
{
}

} // verus!
