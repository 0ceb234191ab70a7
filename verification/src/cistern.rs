//! The cistern monitor: from a height that the sensor has read to the fill
//! level of the tank, and the last level that was measured.
//!
//! All quantities are whole numbers. Heights are in millimetres, the filled
//! fraction of the tank is in millionths (see `FULL_SCALE`), and a volume is
//! in the unit in which the capacity of the tank is given.

use vstd::arithmetic::div_mod::{lemma_div_is_ordered, lemma_div_multiples_vanish};
use vstd::prelude::*;

verus! {

/// The filled fraction of a full tank: fractions are counted in millionths.
pub const FULL_SCALE: u32 = 1_000_000;

/// `value`, brought into the range from `low` to `high`.
pub open spec fn clamp(value: int, low: int, high: int) -> int {
    if value < low {
        low
    } else if value > high {
        high
    } else {
        value
    }
}

/// The height of the water for a reading of `raw`: the reading, brought into
/// the range of the tank.
pub open spec fn fill_height(empty: int, full: int, raw: int) -> int {
    clamp(raw, empty, full)
}

/// The filled fraction of the tank for a reading of `raw`, in millionths,
/// rounded down: the height above the empty mark over the height of the tank.
pub open spec fn fill_fraction(empty: int, full: int, raw: int) -> int {
    (fill_height(empty, full, raw) - empty) * FULL_SCALE / (full - empty)
}

/// The volume of water for a reading of `raw`, rounded down: the filled
/// fraction of the capacity.
pub open spec fn fill_volume(empty: int, full: int, capacity: int, raw: int) -> int {
    fill_fraction(empty, full, raw) * capacity / (FULL_SCALE as int)
}

/// The filled fraction is the height above the empty mark over the height of
/// the tank, brought into the range from nothing to all: clamping the height
/// first and clamping the fraction afterwards come to the same.
pub proof fn lemma_fraction_is_clamped_ratio(empty: int, full: int, raw: int)
    requires
        empty < full,
    ensures
        fill_fraction(empty, full, raw) == clamp(
            (raw - empty) * FULL_SCALE / (full - empty),
            0,
            FULL_SCALE as int,
        ),
        0 <= fill_fraction(empty, full, raw) <= FULL_SCALE,
{
    let span = full - empty;
    let scale = FULL_SCALE as int;
    let ratio = (raw - empty) * scale / span;
    lemma_div_multiples_vanish(scale, span);
    assert(span * scale == scale * span) by (nonlinear_arith);
    assert(0 * scale / span == 0) by (nonlinear_arith)
        requires
            span > 0,
    ;
    if raw < empty {
        assert(ratio < 0) by (nonlinear_arith)
            requires
                ratio == (raw - empty) * scale / span,
                raw - empty < 0,
                scale > 0,
                span > 0,
        ;
    } else if raw > full {
        assert((raw - empty) * scale >= span * scale) by (nonlinear_arith)
            requires
                raw - empty >= span,
                scale > 0,
        ;
        lemma_div_is_ordered(span * scale, (raw - empty) * scale, span);
    } else {
        assert(0 <= (raw - empty) * scale <= span * scale) by (nonlinear_arith)
            requires
                0 <= raw - empty <= span,
                scale > 0,
        ;
        lemma_div_is_ordered(0, (raw - empty) * scale, span);
        lemma_div_is_ordered((raw - empty) * scale, span * scale, span);
    }
}

/// The volume is no more than the capacity of the tank, is nothing at or
/// below the empty mark and is the capacity at or above the full mark.
pub proof fn lemma_volume_in_range(empty: int, full: int, capacity: int, raw: int)
    requires
        empty < full,
        0 <= capacity,
    ensures
        0 <= fill_volume(empty, full, capacity, raw) <= capacity,
        raw <= empty ==> fill_volume(empty, full, capacity, raw) == 0,
        raw >= full ==> fill_volume(empty, full, capacity, raw) == capacity,
{
    let scale = FULL_SCALE as int;
    let fraction = fill_fraction(empty, full, raw);
    lemma_fraction_is_clamped_ratio(empty, full, raw);
    assert(0 <= fraction * capacity <= scale * capacity) by (nonlinear_arith)
        requires
            0 <= fraction <= scale,
            0 <= capacity,
    ;
    lemma_div_multiples_vanish(capacity, scale);
    lemma_div_is_ordered(0, fraction * capacity, scale);
    lemma_div_is_ordered(fraction * capacity, scale * capacity, scale);
    if raw <= empty {
        assert(fraction == 0) by {
            assert(0 * scale / (full - empty) == 0) by (nonlinear_arith)
                requires
                    full - empty > 0,
            ;
        }
        assert(fraction * capacity == 0) by (nonlinear_arith)
            requires
                fraction == 0,
        ;
    }
    if raw >= full {
        lemma_div_multiples_vanish(scale, full - empty);
        assert((full - empty) * scale == scale * (full - empty)) by (nonlinear_arith);
        assert(fraction == scale);
    }
}

/// A higher reading never gives a lower level.
pub proof fn lemma_level_is_monotonic(empty: int, full: int, capacity: int, low: int, high: int)
    requires
        empty < full,
        0 <= capacity,
        low <= high,
    ensures
        fill_height(empty, full, low) <= fill_height(empty, full, high),
        fill_fraction(empty, full, low) <= fill_fraction(empty, full, high),
        fill_volume(empty, full, capacity, low) <= fill_volume(empty, full, capacity, high),
{
    let scale = FULL_SCALE as int;
    let span = full - empty;
    let below = fill_height(empty, full, low) - empty;
    let above = fill_height(empty, full, high) - empty;
    assert(below * scale <= above * scale) by (nonlinear_arith)
        requires
            below <= above,
            scale > 0,
    ;
    lemma_div_is_ordered(below * scale, above * scale, span);
    let less = fill_fraction(empty, full, low);
    let more = fill_fraction(empty, full, high);
    assert(less * capacity <= more * capacity) by (nonlinear_arith)
        requires
            less <= more,
            0 <= capacity,
    ;
    lemma_div_is_ordered(less * capacity, more * capacity, scale);
}

/// The marks and the size of a tank.
#[derive(Clone, Copy, Debug, PartialEq, Eq, Structural)]
pub struct Calibration {
    empty: u32,
    full: u32,
    capacity: u32,
}

impl Calibration {
    /// The height that the sensor reads when the tank is empty.
    pub closed spec fn empty(self) -> int {
        self.empty as int
    }

    /// The height that the sensor reads when the tank is full.
    pub closed spec fn full(self) -> int {
        self.full as int
    }

    /// The volume of the full tank.
    pub closed spec fn capacity(self) -> int {
        self.capacity as int
    }

    /// The empty mark lies below the full mark.
    #[verifier::type_invariant]
    pub closed spec fn well_formed(self) -> bool {
        self.empty < self.full
    }

    /// The level that a reading of `raw` stands for.
    pub open spec fn level_of(self, raw: u32) -> Snapshot {
        Snapshot {
            height: fill_height(self.empty(), self.full(), raw as int) as u32,
            percentage: fill_fraction(self.empty(), self.full(), raw as int) as u32,
            volume: fill_volume(self.empty(), self.full(), self.capacity(), raw as int) as u32,
        }
    }

    /// Whether `level` is what this calibration makes of the height that it
    /// holds: the height lies within the range of the tank, and the fraction
    /// and the volume are those that belong to it.
    pub open spec fn derives(self, level: Snapshot) -> bool {
        &&& self.empty() <= level.height <= self.full()
        &&& level == self.level_of(level.height)
    }

    /// The calibration of a tank with the given marks and capacity, where
    /// the empty mark lies below the full mark; nothing where it does not.
    pub fn new(empty: u32, full: u32, capacity: u32) -> (made: Option<Calibration>)
        ensures
            made is Some <==> empty < full,
            made matches Some(calibration) ==> {
                &&& calibration.empty() == empty
                &&& calibration.full() == full
                &&& calibration.capacity() == capacity
            },
    {
        if empty < full {
            Some(Calibration { empty, full, capacity })
        } else {
            None
        }
    }

    /// The height that the sensor reads when the tank is empty.
    pub fn empty_mark(&self) -> (mark: u32)
        ensures
            mark == self.empty(),
    {
        self.empty
    }

    /// The height that the sensor reads when the tank is full.
    pub fn full_mark(&self) -> (mark: u32)
        ensures
            mark == self.full(),
            self.empty() < self.full(),
    {
        proof {
            use_type_invariant(self);
        }
        self.full
    }

    /// The volume of the full tank.
    pub fn tank_capacity(&self) -> (capacity: u32)
        ensures
            capacity == self.capacity(),
    {
        self.capacity
    }

    /// The level that a reading of `raw` stands for: the height within the
    /// range of the tank, the filled fraction and the volume.
    pub fn convert(&self, raw: u32) -> (level: Snapshot)
        ensures
            level == self.level_of(raw),
            level.height == fill_height(self.empty(), self.full(), raw as int),
            level.percentage == fill_fraction(self.empty(), self.full(), raw as int),
            level.volume == fill_volume(self.empty(), self.full(), self.capacity(), raw as int),
            self.derives(level),
            level.percentage <= FULL_SCALE,
            level.volume <= self.capacity(),
    {
        proof {
            use_type_invariant(self);
            lemma_fraction_is_clamped_ratio(self.empty(), self.full(), raw as int);
            lemma_volume_in_range(self.empty(), self.full(), self.capacity(), raw as int);
        }
        let height: u32 = if raw < self.empty {
            self.empty
        } else if raw > self.full {
            self.full
        } else {
            raw
        };
        let span: u64 = (self.full - self.empty) as u64;
        let risen: u64 = (height - self.empty) as u64;
        let percentage: u64 = risen * (FULL_SCALE as u64) / span;
        let volume: u64 = percentage * (self.capacity as u64) / (FULL_SCALE as u64);
        Snapshot { height, percentage: percentage as u32, volume: volume as u32 }
    }
}

/// A measured level of the tank.
#[derive(Clone, Copy, Debug, PartialEq, Eq, Structural)]
pub struct Snapshot {
    /// The height of the water, in millimetres, within the range of the tank.
    pub height: u32,
    /// The filled fraction of the tank, in millionths.
    pub percentage: u32,
    /// The volume of the water, in the unit of the capacity.
    pub volume: u32,
}

/// The sensor could not be read.
#[derive(Clone, Debug, PartialEq, Eq)]
pub struct SensorReadError {
    /// What the driver of the bus said.
    pub detail: String,
}

/// The cistern monitor: the calibration of the tank and the last level
/// measured, if any.
#[derive(Debug)]
pub struct Cistern {
    calibration: Calibration,
    snapshot: Option<Snapshot>,
}

impl Cistern {
    /// The calibration of the tank.
    pub closed spec fn calibration(&self) -> Calibration {
        self.calibration
    }

    /// The last level measured, if any.
    pub closed spec fn snapshot(&self) -> Option<Snapshot> {
        self.snapshot
    }

    /// The level that the monitor holds is one that its calibration gives.
    #[verifier::type_invariant]
    closed spec fn well_formed(&self) -> bool {
        self.snapshot matches Some(level) ==> self.calibration.derives(level)
    }

    /// A monitor that has not measured anything yet.
    pub fn new(calibration: Calibration) -> (cistern: Cistern)
        ensures
            cistern.calibration() == calibration,
            cistern.snapshot() is None,
    {
        Cistern { calibration, snapshot: None }
    }

    /// Takes in one sample from the sensor. A reading replaces the last
    /// level by the level that it stands for. A failure is handed back, and
    /// the last level stays as it is.
    pub fn measure(&mut self, sample: Result<u32, SensorReadError>) -> (done: Result<
        (),
        SensorReadError,
    >)
        ensures
            final(self).calibration() == old(self).calibration(),
            match sample {
                Ok(raw) => {
                    &&& done is Ok
                    &&& final(self).snapshot() == Some(old(self).calibration().level_of(raw))
                },
                Err(error) => {
                    &&& done == Err::<(), SensorReadError>(error)
                    &&& final(self).snapshot() == old(self).snapshot()
                },
            },
    {
        match sample {
            Ok(raw) => {
                let level = self.calibration.convert(raw);
                self.snapshot = Some(level);
                Ok(())
            },
            Err(error) => Err(error),
        }
    }

    /// The last level measured; nothing before the first reading. A level
    /// is always one that the calibration gives: its fraction and volume
    /// belong to its height.
    pub fn level(&self) -> (level: Option<Snapshot>)
        ensures
            level == self.snapshot(),
            level matches Some(measured) ==> {
                &&& self.calibration().derives(measured)
                &&& measured.percentage <= FULL_SCALE
                &&& measured.volume <= self.calibration().capacity()
            },
    {
        proof {
            use_type_invariant(self);
            if let Some(measured) = self.snapshot {
                use_type_invariant(&self.calibration);
                lemma_fraction_is_clamped_ratio(
                    self.calibration.empty(),
                    self.calibration.full(),
                    measured.height as int,
                );
                lemma_volume_in_range(
                    self.calibration.empty(),
                    self.calibration.full(),
                    self.calibration.capacity(),
                    measured.height as int,
                );
            }
        }
        self.snapshot
    }

    /// The calibration of the tank.
    pub fn tank(&self) -> (calibration: Calibration)
        ensures
            calibration == self.calibration(),
    {
        self.calibration
    }
}

} // verus!
