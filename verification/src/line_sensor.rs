//! Binary line sensors and the fused line-position reading.
//!
//! A `LineSensor` wraps one digital input with a configurable polarity.  A
//! `TrippleLineSensor` fuses three of them into a coarse `LinePos`.  An
//! arbitrary-width array of polarity-corrected readings is fused by
//! `line_position` into either `NoLine` or a signed centroid deviation in
//! milli-units of sensor spacing, measured from the array's geometric middle.
use vstd::prelude::*;

verus! {

/// A digital input pin sampled as a level.  The spec function names the
/// level the next read will report; implementors decide what it means.
pub trait LevelPin {
    /// The level that a read reports, `true` for high.
    spec fn level_high(&self) -> bool;

    /// Reads the pin, `true` when the level is high.
    fn is_high(&self) -> (high: bool)
        ensures
            high == self.level_high(),
    ;

    /// Reads the pin, `true` when the level is low.
    fn is_low(&self) -> (low: bool)
        ensures
            low == !self.level_high(),
    ;
}

/// One binary line sensor: a pin and the polarity it was installed with.
pub struct LineSensor<T: LevelPin> {
    pub pin: T,
    pub invert: bool,
}

impl<T: LevelPin> LineSensor<T> {
    /// Whether the sensor currently sees the line, polarity applied.
    pub open spec fn on_line_spec(&self) -> bool {
        if self.invert {
            !self.pin.level_high()
        } else {
            self.pin.level_high()
        }
    }

    /// An active-high sensor: the line is seen when the pin is high.
    pub fn new(pin: T) -> (s: LineSensor<T>)
        ensures
            s.pin == pin,
            !s.invert,
    {
        LineSensor { pin, invert: false }
    }

    /// An active-low sensor: the line is seen when the pin is low.
    pub fn new_invert(pin: T) -> (s: LineSensor<T>)
        ensures
            s.pin == pin,
            s.invert,
    {
        LineSensor { pin, invert: true }
    }

    /// Samples the pin and applies the configured polarity.
    pub fn is_on_line(&self) -> (on: bool)
        ensures
            on == self.on_line_spec(),
    {
        if self.invert {
            self.pin.is_low()
        } else {
            self.pin.is_high()
        }
    }
}

/// Coarse reading of a three-sensor head.
#[derive(Debug, Default, Clone, Copy, PartialEq, Eq, Structural)]
pub enum LinePos {
    #[default]
    NoLine,
    Lefter,
    Left,
    Middle,
    Right,
    Righter,
}

/// Three line sensors mounted left, middle, right.
pub struct TrippleLineSensor<T: LevelPin, U: LevelPin, V: LevelPin> {
    pub left: LineSensor<T>,
    pub middle: LineSensor<U>,
    pub right: LineSensor<V>,
}

/// The decision table of the three-sensor head: which coarse position a
/// combination of polarity-corrected readings maps to.  Combinations no
/// line shape produces (all three, outer pair, none) read as `NoLine`.
pub open spec fn tripple_position(l: bool, m: bool, r: bool) -> LinePos {
    match (l, m, r) {
        (true, false, false) => LinePos::Lefter,
        (true, true, false) => LinePos::Left,
        (false, true, false) => LinePos::Middle,
        (false, true, true) => LinePos::Right,
        (false, false, true) => LinePos::Righter,
        _ => LinePos::NoLine,
    }
}

impl<T: LevelPin, U: LevelPin, V: LevelPin> TrippleLineSensor<T, U, V> {
    /// Builds the head from its three pins, all active-high.
    pub fn new(left: T, middle: U, right: V) -> (s: TrippleLineSensor<T, U, V>)
        ensures
            s.left.pin == left,
            s.middle.pin == middle,
            s.right.pin == right,
            !s.left.invert,
            !s.middle.invert,
            !s.right.invert,
    {
        TrippleLineSensor {
            left: LineSensor::new(left),
            middle: LineSensor::new(middle),
            right: LineSensor::new(right),
        }
    }

    /// Samples all three sensors and fuses them per `tripple_position`.
    pub fn read(&self) -> (pos: LinePos)
        ensures
            pos == tripple_position(
                self.left.on_line_spec(),
                self.middle.on_line_spec(),
                self.right.on_line_spec(),
            ),
    {
        let l = self.left.is_on_line();
        let m = self.middle.is_on_line();
        let r = self.right.is_on_line();
        match (l, m, r) {
            (true, false, false) => LinePos::Lefter,
            (true, true, false) => LinePos::Left,
            (false, true, false) => LinePos::Middle,
            (false, true, true) => LinePos::Right,
            (false, false, true) => LinePos::Righter,
            _ => LinePos::NoLine,
        }
    }
}

/// Samples every sensor of an array in order, polarity applied, into the
/// plain readings that the fusion consumes.
pub fn scan_array<T: LevelPin>(sensors: &Vec<LineSensor<T>>) -> (states: Vec<bool>)
    ensures
        states@.len() == sensors@.len(),
        forall|i: int| 0 <= i < sensors@.len() ==> states@[i] == sensors@[i].on_line_spec(),
{
    let mut states: Vec<bool> = Vec::new();
    let mut i: usize = 0;
    while i < sensors.len()
        invariant
            i <= sensors@.len(),
            states@.len() == i,
            forall|j: int| 0 <= j < i ==> states@[j] == sensors@[j].on_line_spec(),
        decreases sensors@.len() - i,
    {
        states.push(sensors[i].is_on_line());
        i = i + 1;
    }
    states
}

/// How many readings in the array are active.
pub open spec fn count_active(s: Seq<bool>) -> nat
    decreases s.len(),
{
    if s.len() == 0 {
        0
    } else {
        count_active(s.drop_last()) + if s.last() {
            1nat
        } else {
            0nat
        }
    }
}

/// The sum of the positional indices of the active readings.
pub open spec fn index_weight(s: Seq<bool>) -> nat
    decreases s.len(),
{
    if s.len() == 0 {
        0
    } else {
        index_weight(s.drop_last()) + if s.last() {
            (s.len() - 1) as nat
        } else {
            0nat
        }
    }
}

/// The array's geometric middle in milli-units of sensor spacing: half way
/// between index 0 and index `n - 1`.
pub open spec fn middle_milli(n: nat) -> int {
    500 * (n - 1)
}

/// The centroid deviation in milli-units: the middle minus the mean index of
/// the active readings, each index scaled by 1000 before the (flooring)
/// division.  Meaningful when at least one and not all readings are active.
pub open spec fn centroid_deviation_milli(s: Seq<bool>) -> int {
    middle_milli(s.len()) - (1000 * (index_weight(s) as int)) / (count_active(s) as int)
}

/// The fused line position: `NoLine` when every reading is active (the whole
/// array sees the line), the previously held deviation when none is, and the
/// centroid deviation otherwise.
#[derive(Debug, Clone, Copy, PartialEq, Eq, Structural)]
pub enum LinePosition {
    /// Every sensor is active: the line cannot be placed; the caller stops.
    NoLine,
    /// A signed deviation from the middle, in milli-units of sensor spacing.
    Deviation(i64),
}

/// No more readings are active than the array holds.
pub proof fn lemma_count_active_le_len(s: Seq<bool>)
    ensures
        count_active(s) <= s.len(),
    decreases s.len(),
{
    if s.len() > 0 {
        lemma_count_active_le_len(s.drop_last());
    }
}

proof fn lemma_index_weight_le_count_times_max(s: Seq<bool>)
    ensures
        index_weight(s) <= count_active(s) * (s.len() - 1),
    decreases s.len(),
{
    if s.len() > 0 {
        let d = s.drop_last();
        lemma_index_weight_le_count_times_max(d);
        let c = count_active(d) as int;
        let m = s.len() - 1;
        assert(index_weight(d) <= c * (m - 1));
        if s.last() {
            assert(index_weight(s) == index_weight(d) + m);
            assert(count_active(s) == c + 1);
            assert(index_weight(s) <= count_active(s) * m) by (nonlinear_arith)
                requires
                    index_weight(s) == index_weight(d) + m,
                    index_weight(d) <= c * (m - 1),
                    count_active(s) == c + 1,
                    c >= 0,
                    m >= 0,
            ;
        } else {
            assert(index_weight(s) == index_weight(d));
            assert(count_active(s) == c);
            assert(index_weight(s) <= count_active(s) * m) by (nonlinear_arith)
                requires
                    index_weight(s) == index_weight(d),
                    index_weight(d) <= c * (m - 1),
                    count_active(s) == c,
                    c >= 0,
                    m >= 0,
            ;
        }
        assert(index_weight(s) <= count_active(s) * (s.len() - 1));
    } else {
        assert(count_active(s) == 0);
    }
}

/// The centroid deviation never leaves the physical span of the array:
/// its magnitude is at most half the array's width.
pub proof fn lemma_centroid_deviation_bounded(s: Seq<bool>)
    requires
        0 < count_active(s) < s.len(),
    ensures
        -middle_milli(s.len()) <= centroid_deviation_milli(s) <= middle_milli(s.len()),
{
    let c = count_active(s) as int;
    let w = index_weight(s) as int;
    let n = s.len() as int;
    lemma_index_weight_le_count_times_max(s);
    assert(1000 * w <= c * (1000 * (n - 1))) by (nonlinear_arith)
        requires
            w <= c * (n - 1),
            c >= 1,
    ;
    vstd::arithmetic::div_mod::lemma_div_is_ordered(1000 * w, c * (1000 * (n - 1)), c);
    vstd::arithmetic::div_mod::lemma_div_multiples_vanish(1000 * (n - 1), c);
    vstd::arithmetic::div_mod::lemma_div_pos_is_pos(1000 * w, c);
}

/// Fuses an array of polarity-corrected readings into a line position.
///
/// Every activation count is a valid input: when all readings are active the
/// result is `NoLine`; when none is, the previously held deviation is
/// reported again so that steering stays continuous across a gap in the
/// line; otherwise the centroid deviation from the middle.
pub fn line_position(active: &Vec<bool>, prev_deviation_milli: i64) -> (pos: LinePosition)
    requires
        active@.len() <= 100_000,
    ensures
        count_active(active@) == active@.len() ==> pos is NoLine,
        active@.len() > 0 && count_active(active@) == 0 ==> pos == LinePosition::Deviation(
            prev_deviation_milli,
        ),
        0 < count_active(active@) < active@.len() ==> pos == LinePosition::Deviation(
            centroid_deviation_milli(active@) as i64,
        ) && -middle_milli(active@.len()) <= centroid_deviation_milli(active@) <= middle_milli(
            active@.len(),
        ),
{
    let n = active.len();
    let mut i: usize = 0;
    let mut activated: u64 = 0;
    let mut weight: u64 = 0;
    while i < n
        invariant
            i <= n == active@.len() <= 100_000,
            activated == count_active(active@.take(i as int)),
            weight == index_weight(active@.take(i as int)),
            activated <= i,
            weight <= i * i,
        decreases n - i,
    {
        proof {
            assert(active@.take(i + 1).drop_last() =~= active@.take(i as int));
            assert(active@.take(i + 1).last() == active@[i as int]);
            assert((i + 1) * (i + 1) >= i * i + i + 1) by (nonlinear_arith);
            assert(i * i <= 100_000 * 100_000) by (nonlinear_arith)
                requires
                    0 <= i <= 100_000,
            ;
        }
        if active[i] {
            activated = activated + 1;
            weight = weight + i as u64;
        }
        i = i + 1;
    }
    proof {
        assert(active@.take(n as int) =~= active@);
        assert(n * n <= 100_000 * 100_000) by (nonlinear_arith)
            requires
                0 <= n <= 100_000,
        ;
    }
    if activated == n as u64 {
        return LinePosition::NoLine;
    }
    if activated == 0 {
        return LinePosition::Deviation(prev_deviation_milli);
    }
    proof {
        lemma_centroid_deviation_bounded(active@);
        lemma_index_weight_le_count_times_max(active@);
        assert(1000 * weight <= activated * (1000 * (n - 1))) by (nonlinear_arith)
            requires
                weight <= activated * (n - 1),
                activated >= 1,
        ;
        vstd::arithmetic::div_mod::lemma_div_is_ordered(
            1000 * weight,
            activated * (1000 * (n - 1)),
            activated as int,
        );
        vstd::arithmetic::div_mod::lemma_div_multiples_vanish(1000 * (n - 1), activated as int);
        vstd::arithmetic::div_mod::lemma_div_pos_is_pos(1000 * weight, activated as int);
    }
    let mean_milli: u64 = (1000 * weight) / activated;
    let deviation: i64 = 500 * (n as i64 - 1) - mean_milli as i64;
    LinePosition::Deviation(deviation)
}

} // verus!
