//! Temperature Monitor (TEMPMON).
//!
//! The on-chip temperature sensor counts an oscillator whose period varies
//! with die temperature and latches the count in a register; two factory
//! calibration points turn a count into a temperature. This module models
//! the sensor's register file as plain values ([`TempSensor`]) and verifies
//! the conversion arithmetic and the power and measurement protocol around
//! it.
//!
//! The sensor assumes that the bandgap reference, the 480 MHz PLL and the
//! 32 kHz RTC modules are programmed and settled.
//!
//! Temperatures are in milli-degrees Celsius throughout: 25500 m°C is
//! 25.5 °C.

use vstd::prelude::*;

verus! {

/// Indicates that the temperature monitor is powered down.
///
/// If you receive this error, `power_up()` the temperature monitor first,
/// and try again.
#[derive(Debug, Clone, Copy, PartialEq, Eq)]
pub struct PowerDownError(());

/// The one [`PowerDownError`] value, for use in contracts.
pub closed spec fn power_down_error() -> PowerDownError {
    PowerDownError(())
}

/// The `nb::Error` wrapper, which adds a `WouldBlock` variant to a driver's
/// own error type so that callers can retry a call that has not finished yet.
#[verifier::external_type_specification]
#[verifier::reject_recursive_types(E)]
pub struct ExNbError<E>(nb::Error<E>);

/// The sensor's register file, as the driver observes it, one plain field
/// per hardware register field.
///
/// One field stands in for the converter itself, which the model cannot run:
/// [`TempSensor::next_temp_cnt`] is the count the sensor will latch when the
/// next measurement is triggered.
#[derive(Clone, Copy, Debug, PartialEq, Eq)]
pub struct TempSensor {
    /// `TEMPSENSE0.POWER_DOWN`: the sensor is powered down.
    pub power_down: bool,
    /// `TEMPSENSE0.MEASURE_TEMP`: a measurement has been started.
    pub measure_start: bool,
    /// `TEMPSENSE0.FINISHED`: the latched count is valid.
    pub finished: bool,
    /// `TEMPSENSE0.TEMP_CNT`: the latched measurement count (12 bits).
    pub temp_cnt: u32,
    /// `TEMPSENSE0.ALARM_VALUE`: the high-alarm count (12 bits).
    pub alarm_value: u32,
    /// `TEMPSENSE1.MEASURE_FREQ`: RTC clocks between automatic repeats.
    pub measure_freq: u16,
    /// `TEMPSENSE2.LOW_ALARM_VALUE`: the low-alarm count (12 bits).
    pub low_alarm_value: u32,
    /// `TEMPSENSE2.PANIC_ALARM_VALUE`: the panic-alarm count (12 bits).
    pub panic_alarm_value: u32,
    /// `OCOTP.ANA1`: the read-only factory calibration word.
    pub ana1: u32,
    /// Model knob for the converter: the count the sensor latches at the
    /// next triggered measurement (12 bits).
    pub next_temp_cnt: u32,
}

impl TempSensor {
    /// The register file's field widths: every count field fits its 12-bit
    /// hardware field.
    pub open spec fn wf(&self) -> bool {
        &&& self.temp_cnt < 0x1000
        &&& self.alarm_value < 0x1000
        &&& self.low_alarm_value < 0x1000
        &&& self.panic_alarm_value < 0x1000
        &&& self.next_temp_cnt < 0x1000
    }

    /// The register file as it comes out of reset, with a given calibration
    /// word and a given count for the modelled converter to latch.
    pub fn new(ana1: u32, next_temp_cnt: u32) -> (r: Self)
        requires
            next_temp_cnt < 0x1000,
        ensures
            r == (TempSensor {
                power_down: true,
                measure_start: false,
                finished: false,
                temp_cnt: 0u32,
                alarm_value: 0u32,
                measure_freq: 0u16,
                low_alarm_value: 0u32,
                panic_alarm_value: 0u32,
                ana1: ana1,
                next_temp_cnt: next_temp_cnt,
            }),
            r.wf(),
    {
        TempSensor {
            power_down: true,
            measure_start: false,
            finished: false,
            temp_cnt: 0,
            alarm_value: 0,
            measure_freq: 0,
            low_alarm_value: 0,
            panic_alarm_value: 0,
            ana1,
            next_temp_cnt,
        }
    }
}

/// What triggering a measurement (`TEMPSENSE0_SET.MEASURE_TEMP`) does: the
/// start bit latches, and a powered sensor converts and latches the modelled
/// count with the valid flag set. A powered-down sensor only records the
/// start bit.
pub open spec fn triggered(s: TempSensor) -> TempSensor {
    if s.power_down {
        TempSensor { measure_start: true, ..s }
    } else {
        TempSensor { measure_start: true, finished: true, temp_cnt: s.next_temp_cnt, ..s }
    }
}

/// Round-toward-zero division: what Rust's `/` computes on signed integers.
/// (Plain `/` on `int` is Euclidean division; the two differ on negative
/// dividends.)
pub open spec fn div_toward_zero(a: int, b: int) -> int {
    if a >= 0 {
        a / b
    } else {
        -((-a) / b)
    }
}

/// The room-temperature calibration count in the fuse word (bits 31..20).
pub open spec fn cal_room_count(ana1: u32) -> int {
    (ana1 >> 20) as int
}

/// The hot calibration count in the fuse word (bits 19..8).
pub open spec fn cal_hot_count(ana1: u32) -> int {
    ((ana1 >> 8) & 0xFFF) as int
}

/// The hot calibration temperature in the fuse word (bits 7..0, whole
/// degrees), in milli-degrees.
pub open spec fn cal_hot_temp(ana1: u32) -> int {
    (ana1 & 0xFF) * 1000
}

/// The conversion slope in milli-degrees per count, as the driver computes
/// it from the two calibration points.
pub open spec fn cal_scaler(ana1: u32) -> int {
    div_toward_zero(cal_hot_temp(ana1) - 25000, cal_room_count(ana1) - cal_hot_count(ana1))
}

/// An Uninitialized temperature monitor module.
///
/// # Important note:
///
/// The temperature sensor uses and assumes that the bandgap reference,
/// 480 MHz PLL and 32 kHz RTC modules are properly programmed and fully
/// settled for correct operation.
pub struct Uninitialized(TempSensor);

impl Uninitialized {
    /// The sensor register file this wrapper holds.
    pub closed spec fn sensor(&self) -> TempSensor {
        self.0
    }

    /// Assign the sensor register file to this temperature monitor wrapper.
    pub fn new(base: TempSensor) -> (r: Self)
        ensures
            r.sensor() == base,
    {
        Self(base)
    }

    /// Initialize the temperature monitor: read the factory calibration out
    /// of the fuse word, compute the conversion constants, and power the
    /// sensor up.
    ///
    /// The two calibration counts must differ (the slope divides by their
    /// difference) and must be far enough apart that the slope does not
    /// round to zero; factory-programmed parts satisfy both.
    pub fn init(self) -> (r: TempMon)
        requires
            self.sensor().wf(),
            cal_room_count(self.sensor().ana1) != cal_hot_count(self.sensor().ana1),
            cal_scaler(self.sensor().ana1) != 0,
        ensures
            r.wf(),
            r.scaler_spec() == cal_scaler(self.sensor().ana1),
            r.hot_count_spec() == cal_hot_count(self.sensor().ana1),
            r.hot_temp_spec() == cal_hot_temp(self.sensor().ana1),
            r.sensor() == (TempSensor { power_down: false, ..self.sensor() }),
    {
        // The calibration fuse is read-only and set by the manufacturer.
        let calibration = self.0.ana1;

        proof {
            assert(calibration >> 20 < 4096) by (bit_vector);
            assert((calibration >> 8) & 0xFFF < 4096) by (bit_vector);
            assert(calibration & 0xFF < 256) by (bit_vector);
        }

        let n1_room_count = (calibration >> 20) as i32;
        let t1_room_temp = 25_000_i32;
        let n2_hot_count = ((calibration >> 8) & 0xFFF) as i32;
        let t2_hot_temp = (calibration & 0xFF) as i32 * 1_000;

        // Tmeas = HOT_TEMP - (Nmeas - HOT_COUNT) * ((HOT_TEMP - 25.0) / (ROOM_COUNT - HOT_COUNT))
        let scaler = (t2_hot_temp - t1_room_temp) / (n1_room_count - n2_hot_count);
        // Tmeas = HOT_TEMP - (Nmeas - HOT_COUNT) * scaler

        proof {
            lemma_div_toward_zero_bounds(
                t2_hot_temp - t1_room_temp,
                n1_room_count - n2_hot_count,
            );
        }

        let mut t = TempMon {
            base: self.0,
            scaler,
            hot_count: n2_hot_count,
            hot_temp: t2_hot_temp,
        };
        t.power_up();
        t
    }

    /// Initialize the temperature monitor with an automatic measurement
    /// frequency.
    ///
    /// The `measure_freq` determines how many RTC clocks to wait before
    /// automatically repeating a temperature measurement. The pause time
    /// before remeasuring is the field value multiplied by the RTC period.
    /// Find more details at [`TempMon::set_measure_frequency`].
    pub fn init_with_measure_freq(self, measure_freq: u16) -> (r: TempMon)
        requires
            self.sensor().wf(),
            cal_room_count(self.sensor().ana1) != cal_hot_count(self.sensor().ana1),
            cal_scaler(self.sensor().ana1) != 0,
        ensures
            r.wf(),
            r.scaler_spec() == cal_scaler(self.sensor().ana1),
            r.hot_count_spec() == cal_hot_count(self.sensor().ana1),
            r.hot_temp_spec() == cal_hot_temp(self.sensor().ana1),
            r.sensor() == (TempSensor {
                power_down: false,
                measure_freq: measure_freq,
                ..self.sensor()
            }),
    {
        let mut t = self.init();
        t.set_measure_frequency(measure_freq);
        t
    }
}

/// A Temperature Monitor (TEMPMON).
///
/// Built by [`Uninitialized::init`] or
/// [`Uninitialized::init_with_measure_freq`], which compute the conversion
/// constants from the factory calibration. Measurements and alarm values are
/// in milli-degrees Celsius.
pub struct TempMon {
    base: TempSensor,
    /// Conversion slope, milli-degrees per count.
    scaler: i32,
    /// Hot calibration count.
    hot_count: i32,
    /// Hot calibration temperature, milli-degrees.
    hot_temp: i32,
}

/// The two monitors share their calibration constants.
pub open spec fn same_calibration(a: &TempMon, b: &TempMon) -> bool {
    &&& a.scaler_spec() == b.scaler_spec()
    &&& a.hot_count_spec() == b.hot_count_spec()
    &&& a.hot_temp_spec() == b.hot_temp_spec()
}

impl TempMon {
    /// The sensor register file the monitor owns.
    pub closed spec fn sensor(&self) -> TempSensor {
        self.base
    }

    /// The conversion slope, milli-degrees per count.
    pub closed spec fn scaler_spec(&self) -> int {
        self.scaler as int
    }

    /// The hot calibration count.
    pub closed spec fn hot_count_spec(&self) -> int {
        self.hot_count as int
    }

    /// The hot calibration temperature, milli-degrees.
    pub closed spec fn hot_temp_spec(&self) -> int {
        self.hot_temp as int
    }

    /// A monitor the constructors hand out: the register file is
    /// well-formed, and the calibration constants lie in the ranges the
    /// 12-bit counts and the 8-bit temperature force. Those ranges keep all
    /// conversion arithmetic inside `i32`.
    pub open spec fn wf(&self) -> bool {
        &&& self.sensor().wf()
        &&& self.scaler_spec() != 0
        &&& -230000 <= self.scaler_spec() <= 230000
        &&& 0 <= self.hot_count_spec() < 0x1000
        &&& 0 <= self.hot_temp_spec() <= 255000
    }

    /// What a latched count means in milli-degrees: the hot calibration
    /// point, minus the slope times the count's distance from it.
    pub open spec fn convert_spec(&self, temp_cnt: int) -> int {
        self.hot_temp_spec() - (temp_cnt - self.hot_count_spec()) * self.scaler_spec()
    }

    /// The count whose meaning is closest to a given temperature: the
    /// inverse of [`TempMon::convert_spec`], with the division rounded
    /// toward zero and the result truncated to a register value.
    pub open spec fn decode_spec(&self, temp_value_mc: int) -> u32 {
        (self.hot_count_spec() - div_toward_zero(
            temp_value_mc - self.hot_temp_spec(),
            self.scaler_spec(),
        )) as u32
    }

    /// Converts the temp_cnt into a human readable temperature (m°C).
    fn convert(&self, temp_cnt: i32) -> (r: i32)
        requires
            self.wf(),
            0 <= temp_cnt < 0x1000,
        ensures
            r == self.convert_spec(temp_cnt as int),
    {
        let n_meas = temp_cnt - self.hot_count;
        proof {
            assert((-4095) * 230000 <= n_meas * self.scaler <= 4095 * 230000) by (nonlinear_arith)
                requires
                    -4095 <= n_meas <= 4095,
                    -230000 <= self.scaler <= 230000,
            ;
        }
        self.hot_temp - n_meas * self.scaler
    }

    /// Decode a temperature in m°C into the count register encoding.
    fn decode(&self, temp_value_mc: i32) -> (r: u32)
        requires
            self.wf(),
            -2_000_000_000 <= temp_value_mc <= 2_000_000_000,
        ensures
            r == self.decode_spec(temp_value_mc as int),
    {
        proof {
            lemma_div_toward_zero_bounds(temp_value_mc - self.hot_temp, self.scaler as int);
        }
        let v = (temp_value_mc - self.hot_temp) / self.scaler;
        #[verifier::truncate] ((self.hot_count - v) as u32)
    }

    /// Triggers a new measurement and returns it, in m°C.
    ///
    /// If automatic repeating is configured, this triggers an additional
    /// measurement; use [`TempMon::get_temp`] instead to read the last
    /// value. Returns `WouldBlock` while the started measurement has not
    /// finished, and the power-down error if the sensor is off.
    pub fn measure_temp(&mut self) -> (r: nb::Result<i32, PowerDownError>)
        requires
            old(self).wf(),
        ensures
            final(self).wf(),
            same_calibration(final(self), old(self)),
            ({
                let s = old(self).sensor();
                if s.power_down {
                    &&& final(self).sensor() == s
                    &&& r == Err::<i32, nb::Error<PowerDownError>>(
                        nb::Error::Other(power_down_error()),
                    )
                } else {
                    let s1 = if !s.measure_start {
                        triggered(s)
                    } else {
                        s
                    };
                    if !s1.finished {
                        &&& final(self).sensor() == s1
                        &&& r == Err::<i32, nb::Error<PowerDownError>>(nb::Error::WouldBlock)
                    } else {
                        &&& final(self).sensor() == (TempSensor { measure_start: false, ..s1 })
                        &&& r == Ok::<i32, nb::Error<PowerDownError>>(
                            old(self).convert_spec(s1.temp_cnt as int) as i32,
                        )
                    }
                }
            }),
    {
        if !self.is_powered_up() {
            Err(nb::Error::Other(PowerDownError(())))
        } else {
            // If no measurement is active, trigger a new measurement.
            let active = self.base.measure_start;
            if !active {
                self.trigger_measure();
            }

            // The sensor clears FINISHED after the start of each
            // measurement; until it is set again the count is stale.
            if !self.base.finished {
                // measure_temp may be called again without any effect.
                Err(nb::Error::WouldBlock)
            } else {
                // Clear MEASURE_TEMP to trigger a new measurement at the
                // next call.
                self.base.measure_start = false;

                let temp_cnt = self.base.temp_cnt as i32;
                Ok(self.convert(temp_cnt))
            }
        }
    }

    /// Returns the last value read by the sensor, in m°C, without
    /// triggering a new measurement.
    pub fn get_temp(&self) -> (r: nb::Result<i32, PowerDownError>)
        requires
            self.wf(),
        ensures
            r == if self.sensor().power_down {
                Err::<i32, nb::Error<PowerDownError>>(nb::Error::Other(power_down_error()))
            } else {
                Ok::<i32, nb::Error<PowerDownError>>(
                    self.convert_spec(self.sensor().temp_cnt as int) as i32,
                )
            },
    {
        if self.is_powered_up() {
            let temp_cnt = self.base.temp_cnt as i32;
            Ok(self.convert(temp_cnt))
        } else {
            Err(nb::Error::Other(PowerDownError(())))
        }
    }

    /// Starts the measurement process. If the measurement frequency is zero,
    /// this results in a single conversion.
    pub fn start(&mut self) -> (r: nb::Result<(), PowerDownError>)
        ensures
            same_calibration(final(self), old(self)),
            old(self).wf() ==> final(self).wf(),
            if old(self).sensor().power_down {
                &&& final(self).sensor() == old(self).sensor()
                &&& r == Err::<(), nb::Error<PowerDownError>>(
                    nb::Error::Other(power_down_error()),
                )
            } else {
                &&& final(self).sensor() == triggered(old(self).sensor())
                &&& r == Ok::<(), nb::Error<PowerDownError>>(())
            },
    {
        if self.is_powered_up() {
            self.trigger_measure();
            Ok(())
        } else {
            Err(nb::Error::Other(PowerDownError(())))
        }
    }

    /// Stops the measurement process. This only has an effect if the
    /// measurement frequency is not zero.
    pub fn stop(&mut self)
        ensures
            same_calibration(final(self), old(self)),
            final(self).sensor() == (TempSensor { measure_start: false, ..old(self).sensor() }),
            old(self).wf() ==> final(self).wf(),
    {
        self.base.measure_start = false;
    }

    /// Returns true if the tempmon module is powered up.
    pub fn is_powered_up(&self) -> (r: bool)
        ensures
            r == !self.sensor().power_down,
    {
        !self.base.power_down
    }

    /// This powers down the temperature sensor.
    pub fn power_down(&mut self)
        ensures
            same_calibration(final(self), old(self)),
            final(self).sensor() == (TempSensor { power_down: true, ..old(self).sensor() }),
            old(self).wf() ==> final(self).wf(),
    {
        self.base.power_down = true;
    }

    /// This powers up the temperature sensor.
    pub fn power_up(&mut self)
        ensures
            same_calibration(final(self), old(self)),
            final(self).sensor() == (TempSensor { power_down: false, ..old(self).sensor() }),
            old(self).wf() ==> final(self).wf(),
    {
        self.base.power_down = false;
    }

    /// Set the temperatures that will generate a low alarm, high alarm, and
    /// panic alarm interrupt when the measured temperature exceeds them.
    ///
    /// All three are in m°C. The wide bound on each is what keeps the
    /// decoding arithmetic inside `i32`; every realistic temperature is far
    /// inside it.
    pub fn set_alarm_values(&mut self, low_alarm_mc: i32, high_alarm_mc: i32, panic_alarm_mc: i32)
        requires
            old(self).wf(),
            -2_000_000_000 <= low_alarm_mc <= 2_000_000_000,
            -2_000_000_000 <= high_alarm_mc <= 2_000_000_000,
            -2_000_000_000 <= panic_alarm_mc <= 2_000_000_000,
        ensures
            final(self).wf(),
            same_calibration(final(self), old(self)),
            final(self).sensor() == (TempSensor {
                alarm_value: old(self).decode_spec(high_alarm_mc as int) & 0xFFF,
                low_alarm_value: old(self).decode_spec(low_alarm_mc as int) & 0xFFF,
                panic_alarm_value: old(self).decode_spec(panic_alarm_mc as int) & 0xFFF,
                ..old(self).sensor()
            }),
    {
        let low_alarm = self.decode(low_alarm_mc) & 0xFFF;
        let high_alarm = self.decode(high_alarm_mc) & 0xFFF;
        let panic_alarm = self.decode(panic_alarm_mc) & 0xFFF;
        proof {
            lemma_masked_fits_field(old(self).decode_spec(low_alarm_mc as int));
            lemma_masked_fits_field(old(self).decode_spec(high_alarm_mc as int));
            lemma_masked_fits_field(old(self).decode_spec(panic_alarm_mc as int));
        }
        self.base.alarm_value = high_alarm;
        self.base.low_alarm_value = low_alarm;
        self.base.panic_alarm_value = panic_alarm;
    }

    /// Queries the temperatures that will generate a low alarm, high alarm,
    /// and panic alarm interrupt.
    ///
    /// Returns `(low_alarm_temp, high_alarm_temp, panic_alarm_temp)`, in
    /// m°C.
    pub fn alarm_values(&self) -> (r: (i32, i32, i32))
        requires
            self.wf(),
        ensures
            r.0 == self.convert_spec(self.sensor().low_alarm_value as int),
            r.1 == self.convert_spec(self.sensor().alarm_value as int),
            r.2 == self.convert_spec(self.sensor().panic_alarm_value as int),
    {
        let high_alarm = self.base.alarm_value;
        let low_alarm = self.base.low_alarm_value;
        let panic_alarm = self.base.panic_alarm_value;
        (
            self.convert(low_alarm as i32),
            self.convert(high_alarm as i32),
            self.convert(panic_alarm as i32),
        )
    }

    /// Determines how many RTC clocks the sensor waits before automatically
    /// repeating a measurement: zero means a single measurement with no
    /// repeat, and 0xFFFF is about a two-second period with a 32.768 kHz
    /// RTC clock.
    pub fn set_measure_frequency(&mut self, measure_freq: u16)
        ensures
            same_calibration(final(self), old(self)),
            final(self).sensor() == (TempSensor { measure_freq: measure_freq, ..old(self).sensor() }),
            old(self).wf() ==> final(self).wf(),
    {
        self.base.measure_freq = measure_freq;
    }

    /// Write `TEMPSENSE0_SET.MEASURE_TEMP`: record the start bit, and let
    /// the modelled converter latch its count if the sensor is powered.
    fn trigger_measure(&mut self)
        ensures
            *final(self) == (TempMon { base: triggered(old(self).sensor()), ..*old(self) }),
    {
        self.base.measure_start = true;
        if !self.base.power_down {
            self.base.finished = true;
            self.base.temp_cnt = self.base.next_temp_cnt;
        }
    }
}

/// Division toward zero never grows the dividend's magnitude, whatever the
/// divisor's sign.
pub proof fn lemma_div_toward_zero_bounds(a: int, b: int)
    requires
        b != 0,
    ensures
        -vstd::math::abs(a) <= div_toward_zero(a, b) <= vstd::math::abs(a),
{
    if a >= 0 {
        lemma_div_magnitude(a, b);
    } else {
        lemma_div_magnitude(-a, b);
    }
}

/// For a nonnegative dividend, Euclidean division lands between `-n` and
/// `n`, and its sign follows the divisor's.
proof fn lemma_div_magnitude(n: int, b: int)
    requires
        n >= 0,
        b != 0,
    ensures
        b > 0 ==> 0 <= n / b <= n,
        b < 0 ==> -n <= n / b <= 0,
{
    if b > 0 {
        vstd::arithmetic::div_mod::lemma_div_pos_is_pos(n, b);
        vstd::arithmetic::div_mod::lemma_div_nonincreasing(n, b);
    } else {
        assert(-n <= n / b <= 0) by (nonlinear_arith)
            requires
                n >= 0,
                b < 0,
        ;
    }
}

/// Masking with the 12-bit field mask keeps a value inside the field.
proof fn lemma_masked_fits_field(v: u32)
    ensures
        v & 0xFFF < 0x1000,
{
    assert(v & 0xFFF < 0x1000) by (bit_vector);
}

} // verus!
