//! Color values, duty-cycle conversion, quantization and the topology algebra.
//!
//! A duty cycle is the fraction of each PWM period for which the output is
//! active, a value in `[0, 1]`. The crate represents it in fixed point: a
//! `u64` number of units out of [`SCALE`], so `0` is always-off and `SCALE`
//! is always-on. All arithmetic on duty cycles is exact integer arithmetic.

use vstd::prelude::*;

verus! {

/// Number of fixed-point units in a full duty cycle (`SCALE` units = 1.0).
pub const SCALE: u64 = 1_000_000;

/// Quantization threshold: one ten-thousandth of a full cycle. A duty cycle
/// closer than this to a digital extreme is snapped to `Off` or `On`, since
/// digital signaling is cheaper and more reliable than near-extreme PWM.
pub const THRESHOLD: u64 = 100;

/// Errors of the color model itself (hardware errors are separate; see
/// `controller::ControllerError`).
#[derive(Debug, Clone, Copy, PartialEq, Eq, Structural)]
pub enum ColorError {
    /// A `Dtype::Hex` value was asked for its duty cycle; textual hex colors
    /// are not supported.
    UnsupportedFormat,
    /// Two topologies of different shapes (single-channel vs. three-channel)
    /// were combined.
    TopologyMismatch,
}

/// A tagged numeric color value for one logical light.
///
/// Invariant expected of callers: `Percent` carries `0..=100` and `Cycle`
/// carries `0..=SCALE`; values outside those ranges are the caller's bug.
#[derive(Debug, Clone, PartialEq, Eq)]
pub enum Dtype {
    /// Fully on (duty cycle 1).
    On,
    /// Fully off (duty cycle 0).
    Off,
    /// A textual hex color; unsupported, every conversion fails.
    Hex(String),
    /// A percentage, `0..=100`.
    Percent(u8),
    /// An exact duty cycle in fixed-point units, `0..=SCALE`.
    Cycle(u64),
    /// A byte intensity, `0` = off, `255` = fully on.
    U8(u8),
}

/// The duty cycle a `Dtype` denotes, in fixed-point units, or the error for
/// the unsupported hex form.
pub open spec fn spec_to_cycle(d: Dtype) -> Result<u64, ColorError> {
    match d {
        Dtype::On => Ok(SCALE),
        Dtype::Off => Ok(0u64),
        Dtype::Hex(_) => Err(ColorError::UnsupportedFormat),
        Dtype::Percent(p) => Ok(((p as int) * 10_000) as u64),
        Dtype::Cycle(u) => Ok(u),
        Dtype::U8(b) => Ok(((b as int) * (SCALE as int) / 255) as u64),
    }
}

/// True when the value respects the documented ranges (`Percent` within
/// `0..=100`, `Cycle` within `0..=SCALE`) and is not the unsupported hex form,
/// so that it denotes a drivable duty cycle.
pub open spec fn dtype_ok(d: Dtype) -> bool {
    match d {
        Dtype::On => true,
        Dtype::Off => true,
        Dtype::Hex(_) => false,
        Dtype::Percent(p) => p <= 100,
        Dtype::Cycle(u) => u <= SCALE,
        Dtype::U8(_) => true,
    }
}

impl Dtype {
    /// Convert to a duty cycle in fixed-point units. `Percent` divides by
    /// 100, `U8` by 255 (rounding down), `On`/`Off` map to the extremes and
    /// `Cycle` is the identity; `Hex` is unsupported and fails.
    pub fn to_cycle(&self) -> (r: Result<u64, ColorError>)
        ensures
            r == spec_to_cycle(*self),
    {
        match self {
            Dtype::On => Ok(SCALE),
            Dtype::Off => Ok(0),
            Dtype::Hex(_) => Err(ColorError::UnsupportedFormat),
            Dtype::Percent(p) => Ok((*p as u64) * 10_000),
            Dtype::Cycle(u) => Ok(*u),
            Dtype::U8(b) => Ok(((*b as u64) * SCALE) / 255),
        }
    }

    /// A verified copy. The derived `Clone` carries no specification, so
    /// verified code duplicates values through this method instead.
    pub fn duplicate(&self) -> (r: Dtype)
        ensures
            r == *self,
    {
        match self {
            Dtype::On => Dtype::On,
            Dtype::Off => Dtype::Off,
            Dtype::Hex(s) => Dtype::Hex(s.clone()),
            Dtype::Percent(p) => Dtype::Percent(*p),
            Dtype::Cycle(u) => Dtype::Cycle(*u),
            Dtype::U8(b) => Dtype::U8(*b),
        }
    }
}

/// Quantization always yields a well-formed color of the same shape: each
/// channel becomes `Off`, `On`, or an exact in-range duty cycle.
pub proof fn lemma_quantize_ok(l: Led<u64>)
    ensures
        color_ok(spec_as_dtype(l)),
        same_shape(spec_as_dtype(l), l),
{
    match l {
        Led::Single(v) => {
            assert(dtype_ok(spec_cycle_to_dtype(v)));
        },
        Led::Rgb(r, g, b) => {
            assert(dtype_ok(spec_cycle_to_dtype(r)));
            assert(dtype_ok(spec_cycle_to_dtype(g)));
            assert(dtype_ok(spec_cycle_to_dtype(b)));
        },
    }
}

/// A duty cycle denoted by a well-formed `Dtype` never exceeds a full cycle.
pub proof fn lemma_cycle_bounded(d: Dtype)
    requires
        dtype_ok(d),
    ensures
        spec_to_cycle(d) matches Ok(c) && c <= SCALE,
{
    match d {
        Dtype::U8(b) => {
            assert((b as int) * (SCALE as int) / 255 <= SCALE as int) by (nonlinear_arith)
                requires
                    b <= 255,
                    SCALE == 1_000_000,
            ;
        },
        _ => {},
    }
}

/// The two physical topologies a fixture can have: one channel, or three
/// channels conventionally red/green/blue. Generic so the same shape holds
/// colors, duty cycles, pin numbers or live pin handles.
#[derive(Debug, Copy, Clone, PartialEq, Eq)]
pub enum Led<T> {
    Single(T),
    Rgb(T, T, T),
}

/// Two topologies have the same shape (regardless of what they carry).
pub open spec fn same_shape<A, B>(a: Led<A>, b: Led<B>) -> bool {
    (a is Single && b is Single) || (a is Rgb && b is Rgb)
}

/// The all-off color of the same shape as `l`.
pub open spec fn spec_get_off<T>(l: Led<T>) -> Led<Dtype> {
    match l {
        Led::Single(_) => Led::Single(Dtype::Off),
        Led::Rgb(_, _, _) => Led::Rgb(Dtype::Off, Dtype::Off, Dtype::Off),
    }
}

impl<T> Led<T> {
    /// The all-off color matching this topology's shape; used to compute a
    /// blink's dark phase regardless of the lit color.
    pub fn get_off(&self) -> (r: Led<Dtype>)
        ensures
            r == spec_get_off(*self),
    {
        match self {
            Led::Single(_) => Led::Single(Dtype::Off),
            Led::Rgb(_, _, _) => Led::Rgb(Dtype::Off, Dtype::Off, Dtype::Off),
        }
    }
}

/// Every channel of the color is well formed (see [`dtype_ok`]).
pub open spec fn color_ok(c: Led<Dtype>) -> bool {
    match c {
        Led::Single(v) => dtype_ok(v),
        Led::Rgb(r, g, b) => dtype_ok(r) && dtype_ok(g) && dtype_ok(b),
    }
}

impl Led<Dtype> {
    /// A verified copy of a color (see [`Dtype::duplicate`]).
    pub fn duplicate(&self) -> (r: Led<Dtype>)
        ensures
            r == *self,
    {
        match self {
            Led::Single(v) => Led::Single(v.duplicate()),
            Led::Rgb(r, g, b) => Led::Rgb(r.duplicate(), g.duplicate(), b.duplicate()),
        }
    }
}

/// The quantization rule on one channel: snap near-extreme duty cycles to the
/// digital markers, keep everything else exact.
pub open spec fn spec_cycle_to_dtype(cycle: u64) -> Dtype {
    if cycle < THRESHOLD {
        Dtype::Off
    } else if cycle > SCALE - THRESHOLD {
        Dtype::On
    } else {
        Dtype::Cycle(cycle)
    }
}

/// Quantize one duty cycle: below [`THRESHOLD`] becomes `Off`, above
/// `SCALE - THRESHOLD` becomes `On`, anything between is carried exactly.
pub fn cycle_to_dtype(cycle: u64) -> (r: Dtype)
    ensures
        r == spec_cycle_to_dtype(cycle),
{
    if cycle < THRESHOLD {
        Dtype::Off
    } else if cycle > SCALE - THRESHOLD {
        Dtype::On
    } else {
        Dtype::Cycle(cycle)
    }
}

/// Channel-wise quantization of a whole color (see [`spec_cycle_to_dtype`]).
pub open spec fn spec_as_dtype(l: Led<u64>) -> Led<Dtype> {
    match l {
        Led::Single(v) => Led::Single(spec_cycle_to_dtype(v)),
        Led::Rgb(r, g, b) => Led::Rgb(
            spec_cycle_to_dtype(r),
            spec_cycle_to_dtype(g),
            spec_cycle_to_dtype(b),
        ),
    }
}

impl Led<u64> {
    /// Quantize each channel independently (see [`cycle_to_dtype`]).
    pub fn as_dtype(&self) -> (r: Led<Dtype>)
        ensures
            r == spec_as_dtype(*self),
            same_shape(r, *self),
    {
        match self {
            Led::Single(v) => Led::Single(cycle_to_dtype(*v)),
            Led::Rgb(r, g, b) => Led::Rgb(
                cycle_to_dtype(*r),
                cycle_to_dtype(*g),
                cycle_to_dtype(*b),
            ),
        }
    }
}

/// How a color (or anything else with a canonical duty-cycle form) converts
/// to the arithmetic working representation `Led<u64>`.
pub trait ToDutyCycle {
    /// The duty cycle this value denotes, or the error if it has none.
    spec fn spec_duty(&self) -> Result<Led<u64>, ColorError>;

    /// Convert to fixed-point duty cycles, exactly as [`Self::spec_duty`]
    /// states.
    fn to_duty_cycle(&self) -> (r: Result<Led<u64>, ColorError>)
        ensures
            r == self.spec_duty(),
    ;
}

impl ToDutyCycle for Led<u64> {
    open spec fn spec_duty(&self) -> Result<Led<u64>, ColorError> {
        Ok(*self)
    }

    fn to_duty_cycle(&self) -> (r: Result<Led<u64>, ColorError>)
        ensures
            r == self.spec_duty(),
    {
        Ok(*self)
    }
}

impl ToDutyCycle for Led<Dtype> {
    open spec fn spec_duty(&self) -> Result<Led<u64>, ColorError> {
        match *self {
            Led::Single(v) => match spec_to_cycle(v) {
                Ok(c) => Ok(Led::Single(c)),
                Err(e) => Err(e),
            },
            Led::Rgb(r, g, b) => match (spec_to_cycle(r), spec_to_cycle(g), spec_to_cycle(b)) {
                (Ok(cr), Ok(cg), Ok(cb)) => Ok(Led::Rgb(cr, cg, cb)),
                (Err(e), _, _) => Err(e),
                (Ok(_), Err(e), _) => Err(e),
                (Ok(_), Ok(_), Err(e)) => Err(e),
            },
        }
    }

    fn to_duty_cycle(&self) -> (r: Result<Led<u64>, ColorError>)
        ensures
            r == self.spec_duty(),
    {
        match self {
            Led::Single(v) => match v.to_cycle() {
                Ok(c) => Ok(Led::Single(c)),
                Err(e) => Err(e),
            },
            Led::Rgb(r, g, b) => match (r.to_cycle(), g.to_cycle(), b.to_cycle()) {
                (Ok(cr), Ok(cg), Ok(cb)) => Ok(Led::Rgb(cr, cg, cb)),
                (Err(e), _, _) => Err(e),
                (Ok(_), Err(e), _) => Err(e),
                (Ok(_), Ok(_), Err(e)) => Err(e),
            },
        }
    }
}

/// A single channel's duty cycle is representable: at most a full cycle.
pub open spec fn unit_valid(u: u64) -> bool {
    u <= SCALE
}

/// Every channel of the working representation is a representable duty cycle.
pub open spec fn led_valid(l: Led<u64>) -> bool {
    match l {
        Led::Single(v) => unit_valid(v),
        Led::Rgb(r, g, b) => unit_valid(r) && unit_valid(g) && unit_valid(b),
    }
}

/// Every channel of `l` is strictly positive (needed as a divisor).
pub open spec fn led_positive(l: Led<u64>) -> bool {
    match l {
        Led::Single(v) => v > 0,
        Led::Rgb(r, g, b) => r > 0 && g > 0 && b > 0,
    }
}

/// Clamp an exact mathematical result back into the representable duty-cycle
/// range `[0, SCALE]`. The algebra is closed over that interval: a duty cycle
/// cannot be more than always-on nor less than always-off.
pub open spec fn sat_unit(v: int) -> u64 {
    if v < 0 {
        0u64
    } else if v > SCALE {
        SCALE
    } else {
        v as u64
    }
}

/// Channel addition, saturating at a full cycle.
pub open spec fn unit_add(a: u64, b: u64) -> u64 {
    sat_unit(a + b)
}

/// Channel subtraction, saturating at zero.
pub open spec fn unit_sub(a: u64, b: u64) -> u64 {
    sat_unit(a - b)
}

/// Channel multiplication of two duty-cycle fractions (`1.0 * x == x`),
/// rounding down.
pub open spec fn unit_mul(a: u64, b: u64) -> u64 {
    sat_unit(a * b / (SCALE as int))
}

/// Channel division of two duty-cycle fractions (`x / 1.0 == x`), rounding
/// down and saturating at a full cycle.
pub open spec fn unit_div(a: u64, b: u64) -> u64
    recommends
        b > 0,
{
    sat_unit(a * (SCALE as int) / (b as int))
}

/// Channel addition, saturating at a full cycle.
fn add_units(a: u64, b: u64) -> (r: u64)
    requires
        unit_valid(a),
        unit_valid(b),
    ensures
        r == unit_add(a, b),
{
    let s = a + b;
    if s > SCALE {
        SCALE
    } else {
        s
    }
}

/// Channel subtraction, saturating at zero.
fn sub_units(a: u64, b: u64) -> (r: u64)
    requires
        unit_valid(a),
        unit_valid(b),
    ensures
        r == unit_sub(a, b),
{
    if a >= b {
        a - b
    } else {
        0
    }
}

/// Channel multiplication of duty-cycle fractions.
fn mul_units(a: u64, b: u64) -> (r: u64)
    requires
        unit_valid(a),
        unit_valid(b),
    ensures
        r == unit_mul(a, b),
{
    proof {
        assert(a * b <= SCALE * SCALE) by (nonlinear_arith)
            requires
                a <= SCALE,
                b <= SCALE,
        ;
        assert(a * b / (SCALE as int) <= SCALE as int) by (nonlinear_arith)
            requires
                a * b <= SCALE * SCALE,
                SCALE == 1_000_000,
        ;
    }
    (a * b) / SCALE
}

/// Channel division of duty-cycle fractions, saturating at a full cycle.
fn div_units(a: u64, b: u64) -> (r: u64)
    requires
        unit_valid(a),
        unit_valid(b),
        b > 0,
    ensures
        r == unit_div(a, b),
{
    proof {
        assert(a * SCALE <= SCALE * SCALE) by (nonlinear_arith)
            requires
                a <= SCALE,
        ;
    }
    let q = (a * SCALE) / b;
    if q > SCALE {
        SCALE
    } else {
        q
    }
}

/// Elementwise `op` against one scalar, on every channel.
pub open spec fn spec_scalar_map(l: Led<u64>, k: u64, op: spec_fn(u64, u64) -> u64) -> Led<u64> {
    match l {
        Led::Single(v) => Led::Single(op(v, k)),
        Led::Rgb(r, g, b) => Led::Rgb(op(r, k), op(g, k), op(b, k)),
    }
}

/// Elementwise `op` against another color of the same shape. For a mismatched
/// shape (excluded wherever this is used) the left operand is returned.
pub open spec fn spec_pair_map(
    a: Led<u64>,
    b: Led<u64>,
    op: spec_fn(u64, u64) -> u64,
) -> Led<u64>
    recommends
        same_shape(a, b),
{
    match (a, b) {
        (Led::Single(x), Led::Single(y)) => Led::Single(op(x, y)),
        (Led::Rgb(xr, xg, xb), Led::Rgb(yr, yg, yb)) => Led::Rgb(
            op(xr, yr),
            op(xg, yg),
            op(xb, yb),
        ),
        _ => a,
    }
}

impl Led<u64> {
    /// Add a scalar duty cycle to every channel, saturating at a full cycle.
    pub fn add_scalar(self, other: u64) -> (r: Led<u64>)
        requires
            led_valid(self),
            unit_valid(other),
        ensures
            r == spec_scalar_map(self, other, |a: u64, b: u64| unit_add(a, b)),
            led_valid(r),
            same_shape(r, self),
    {
        match self {
            Led::Single(v) => Led::Single(add_units(v, other)),
            Led::Rgb(r, g, b) => Led::Rgb(
                add_units(r, other),
                add_units(g, other),
                add_units(b, other),
            ),
        }
    }

    /// Subtract a scalar duty cycle from every channel, saturating at zero.
    pub fn sub_scalar(self, other: u64) -> (r: Led<u64>)
        requires
            led_valid(self),
            unit_valid(other),
        ensures
            r == spec_scalar_map(self, other, |a: u64, b: u64| unit_sub(a, b)),
            led_valid(r),
            same_shape(r, self),
    {
        match self {
            Led::Single(v) => Led::Single(sub_units(v, other)),
            Led::Rgb(r, g, b) => Led::Rgb(
                sub_units(r, other),
                sub_units(g, other),
                sub_units(b, other),
            ),
        }
    }

    /// Multiply every channel by a scalar duty-cycle fraction.
    pub fn mul_scalar(self, other: u64) -> (r: Led<u64>)
        requires
            led_valid(self),
            unit_valid(other),
        ensures
            r == spec_scalar_map(self, other, |a: u64, b: u64| unit_mul(a, b)),
            led_valid(r),
            same_shape(r, self),
    {
        match self {
            Led::Single(v) => Led::Single(mul_units(v, other)),
            Led::Rgb(r, g, b) => Led::Rgb(
                mul_units(r, other),
                mul_units(g, other),
                mul_units(b, other),
            ),
        }
    }

    /// Divide every channel by a scalar duty-cycle fraction, saturating at a
    /// full cycle.
    pub fn div_scalar(self, other: u64) -> (r: Led<u64>)
        requires
            led_valid(self),
            unit_valid(other),
            other > 0,
        ensures
            r == spec_scalar_map(self, other, |a: u64, b: u64| unit_div(a, b)),
            led_valid(r),
            same_shape(r, self),
    {
        match self {
            Led::Single(v) => Led::Single(div_units(v, other)),
            Led::Rgb(r, g, b) => Led::Rgb(
                div_units(r, other),
                div_units(g, other),
                div_units(b, other),
            ),
        }
    }

    /// Elementwise addition of two colors of the same shape; a shape mismatch
    /// is a caller bug and fails with `TopologyMismatch`.
    pub fn add_color(self, other: Led<u64>) -> (r: Result<Led<u64>, ColorError>)
        requires
            led_valid(self),
            led_valid(other),
        ensures
            same_shape(self, other) ==> (r matches Ok(c) && c == spec_pair_map(
                self,
                other,
                |a: u64, b: u64| unit_add(a, b),
            ) && led_valid(c) && same_shape(c, self)),
            !same_shape(self, other) ==> r == Err::<Led<u64>, ColorError>(
                ColorError::TopologyMismatch,
            ),
    {
        match (self, other) {
            (Led::Single(x), Led::Single(y)) => Ok(Led::Single(add_units(x, y))),
            (Led::Rgb(xr, xg, xb), Led::Rgb(yr, yg, yb)) => Ok(Led::Rgb(
                add_units(xr, yr),
                add_units(xg, yg),
                add_units(xb, yb),
            )),
            _ => Err(ColorError::TopologyMismatch),
        }
    }

    /// Elementwise subtraction (saturating at zero); shape mismatch fails
    /// with `TopologyMismatch`.
    pub fn sub_color(self, other: Led<u64>) -> (r: Result<Led<u64>, ColorError>)
        requires
            led_valid(self),
            led_valid(other),
        ensures
            same_shape(self, other) ==> (r matches Ok(c) && c == spec_pair_map(
                self,
                other,
                |a: u64, b: u64| unit_sub(a, b),
            ) && led_valid(c) && same_shape(c, self)),
            !same_shape(self, other) ==> r == Err::<Led<u64>, ColorError>(
                ColorError::TopologyMismatch,
            ),
    {
        match (self, other) {
            (Led::Single(x), Led::Single(y)) => Ok(Led::Single(sub_units(x, y))),
            (Led::Rgb(xr, xg, xb), Led::Rgb(yr, yg, yb)) => Ok(Led::Rgb(
                sub_units(xr, yr),
                sub_units(xg, yg),
                sub_units(xb, yb),
            )),
            _ => Err(ColorError::TopologyMismatch),
        }
    }

    /// Elementwise multiplication of duty-cycle fractions; shape mismatch
    /// fails with `TopologyMismatch`.
    pub fn mul_color(self, other: Led<u64>) -> (r: Result<Led<u64>, ColorError>)
        requires
            led_valid(self),
            led_valid(other),
        ensures
            same_shape(self, other) ==> (r matches Ok(c) && c == spec_pair_map(
                self,
                other,
                |a: u64, b: u64| unit_mul(a, b),
            ) && led_valid(c) && same_shape(c, self)),
            !same_shape(self, other) ==> r == Err::<Led<u64>, ColorError>(
                ColorError::TopologyMismatch,
            ),
    {
        match (self, other) {
            (Led::Single(x), Led::Single(y)) => Ok(Led::Single(mul_units(x, y))),
            (Led::Rgb(xr, xg, xb), Led::Rgb(yr, yg, yb)) => Ok(Led::Rgb(
                mul_units(xr, yr),
                mul_units(xg, yg),
                mul_units(xb, yb),
            )),
            _ => Err(ColorError::TopologyMismatch),
        }
    }

    /// Elementwise division of duty-cycle fractions (where the shapes match,
    /// every channel of the divisor must be positive); shape mismatch fails
    /// with `TopologyMismatch`.
    pub fn div_color(self, other: Led<u64>) -> (r: Result<Led<u64>, ColorError>)
        requires
            led_valid(self),
            led_valid(other),
            same_shape(self, other) ==> led_positive(other),
        ensures
            same_shape(self, other) ==> (r matches Ok(c) && c == spec_pair_map(
                self,
                other,
                |a: u64, b: u64| unit_div(a, b),
            ) && led_valid(c) && same_shape(c, self)),
            !same_shape(self, other) ==> r == Err::<Led<u64>, ColorError>(
                ColorError::TopologyMismatch,
            ),
    {
        match (self, other) {
            (Led::Single(x), Led::Single(y)) => Ok(Led::Single(div_units(x, y))),
            (Led::Rgb(xr, xg, xb), Led::Rgb(yr, yg, yb)) => Ok(Led::Rgb(
                div_units(xr, yr),
                div_units(xg, yg),
                div_units(xb, yb),
            )),
            _ => Err(ColorError::TopologyMismatch),
        }
    }
}

} // verus!
