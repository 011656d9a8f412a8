//! The abstract pin contract and the effect-scheduling controller.
//!
//! A [`Controller`] owns one topology of live pin handles, converts each
//! submitted [`Request`] into an immediate drive of the pins plus a
//! [`Generator`] (an explicit, inspectable schedule of elapsed time), and on
//! every [`Controller::evaluate`] tick asks that generator whether a new
//! output must be driven.

use vstd::prelude::*;

use crate::led::ColorError;
use crate::led::Dtype;
use crate::led::Led;
use crate::led::SCALE;
use crate::led::ToDutyCycle;
use crate::led::color_ok;
use crate::led::dtype_ok;
use crate::led::led_valid;
use crate::led::lemma_cycle_bounded;
use crate::led::lemma_quantize_ok;
use crate::led::same_shape;
use crate::led::spec_as_dtype;
use crate::led::spec_get_off;
use crate::led::spec_pair_map;
use crate::led::spec_to_cycle;
use crate::led::unit_sub;

verus! {

/// The three-way command a backend pin accepts: digital high, digital low,
/// or a PWM duty cycle in fixed-point units (see [`SCALE`]).
#[derive(Debug, Copy, Clone, PartialEq, Eq, Structural)]
pub enum PinState {
    High,
    Low,
    Pwm(u64),
}

/// The contract a hardware backend must satisfy: construct a pin from its
/// identifier and accept the three primitive commands. Each operation may
/// fail with a backend-specific hardware error; the core never retries.
///
/// The abstract state is [`PinControl::commands`], the log of every command
/// the pin has accepted, oldest first. A failed write grows the log by at
/// most the attempted command: the pin may or may not have reached the
/// commanded state, but never any other.
pub trait PinControl: Sized {
    /// The backend's hardware error type.
    type Error;

    /// The log of every command this pin has accepted, oldest first. A
    /// verified backend overrides this with its real log; a hardware backend
    /// outside the verified world can leave the default.
    open spec fn commands(&self) -> Seq<PinState> {
        Seq::empty()
    }

    /// The identifier this pin was opened with. A verified backend overrides
    /// this with the real identifier; a hardware backend outside the
    /// verified world can leave the default.
    open spec fn pin_id(&self) -> u8 {
        0
    }

    /// Whether this backend promises that every operation succeeds. A
    /// backend that can actually fail (real hardware) leaves the default;
    /// a backend that overrides this with `true` must prove each operation
    /// returns `Ok`.
    open spec fn infallible() -> bool {
        false
    }

    /// Open the pin with the given identifier. A fresh pin remembers that
    /// identifier and has accepted no command yet.
    fn new(pin_number: u8) -> (r: Result<Self, Self::Error>)
        ensures
            (r matches Ok(p) ==> p.commands() == Seq::<PinState>::empty() && p.pin_id()
                == pin_number),
            Self::infallible() ==> r is Ok,
    ;

    /// Drive the pin digitally high. A failed write leaves the log grown by
    /// at most that command: the pin may or may not have accepted it.
    fn set_high(&mut self) -> (r: Result<(), Self::Error>)
        ensures
            r is Ok ==> final(self).commands() == old(self).commands().push(PinState::High),
            r is Err ==> final(self).commands() == old(self).commands() || final(self).commands() == old(self).commands().push(PinState::High),
            final(self).pin_id() == old(self).pin_id(),
            Self::infallible() ==> r is Ok,
    ;

    /// Drive the pin digitally low. A failed write leaves the log grown by
    /// at most that command: the pin may or may not have accepted it.
    fn set_low(&mut self) -> (r: Result<(), Self::Error>)
        ensures
            r is Ok ==> final(self).commands() == old(self).commands().push(PinState::Low),
            r is Err ==> final(self).commands() == old(self).commands() || final(self).commands() == old(self).commands().push(PinState::Low),
            final(self).pin_id() == old(self).pin_id(),
            Self::infallible() ==> r is Ok,
    ;

    /// Drive the pin with a PWM duty cycle in fixed-point units. A failed
    /// write leaves the log grown by at most that command: the pin may or
    /// may not have accepted it.
    fn set_pwm(&mut self, duty_cycle: u64) -> (r: Result<(), Self::Error>)
        requires
            duty_cycle <= SCALE,
        ensures
            r is Ok ==> final(self).commands() == old(self).commands().push(
                PinState::Pwm(duty_cycle),
            ),
            r is Err ==> final(self).commands() == old(self).commands() || final(self).commands() == old(self).commands().push(PinState::Pwm(duty_cycle)),
            final(self).pin_id() == old(self).pin_id(),
            Self::infallible() ==> r is Ok,
    ;

    /// Dispatch one three-way command onto the three primitives.
    fn set(&mut self, state: PinState) -> (r: Result<(), Self::Error>)
        requires
            (state matches PinState::Pwm(d) ==> d <= SCALE),
        ensures
            r is Ok ==> final(self).commands() == old(self).commands().push(state),
            r is Err ==> final(self).commands() == old(self).commands() || final(self).commands() == old(self).commands().push(state),
            final(self).pin_id() == old(self).pin_id(),
            Self::infallible() ==> r is Ok,
    {
        match state {
            PinState::High => self.set_high(),
            PinState::Low => self.set_low(),
            PinState::Pwm(cycle) => self.set_pwm(cycle),
        }
    }
}

/// After a (possibly failed) write of `cmd`, the pin's log either grew by
/// exactly that command or stayed as it was — a failed write never records
/// anything else.
pub open spec fn accepted_at_most<T: PinControl>(before: &T, after: &T, cmd: PinState) -> bool {
    after.commands() == before.commands() || after.commands() == before.commands().push(cmd)
}

/// A software backend that simply records every command it accepts. It never
/// fails, which makes it the reference implementation of [`PinControl`] and
/// the natural backend for tests.
pub struct MemoryPin {
    /// The identifier this pin was opened with.
    pub pin_number: u8,
    /// Every command accepted so far, oldest first. Exposed for inspection;
    /// treat as read-only.
    pub history: Vec<PinState>,
}

impl PinControl for MemoryPin {
    /// A memory pin never fails, so its error carries no information.
    type Error = ();

    open spec fn commands(&self) -> Seq<PinState> {
        self.history@
    }

    open spec fn pin_id(&self) -> u8 {
        self.pin_number
    }

    open spec fn infallible() -> bool {
        true
    }

    fn new(pin_number: u8) -> (r: Result<Self, Self::Error>) {
        Ok(MemoryPin { pin_number, history: Vec::new() })
    }

    fn set_high(&mut self) -> (r: Result<(), Self::Error>) {
        self.history.push(PinState::High);
        Ok(())
    }

    fn set_low(&mut self) -> (r: Result<(), Self::Error>) {
        self.history.push(PinState::Low);
        Ok(())
    }

    fn set_pwm(&mut self, duty_cycle: u64) -> (r: Result<(), Self::Error>) {
        self.history.push(PinState::Pwm(duty_cycle));
        Ok(())
    }
}

/// An error surfaced by the controller: either the backend failed, or the
/// request itself was ill-formed (wrong shape, or an unsupported color).
#[derive(Debug, Copy, Clone, PartialEq, Eq)]
pub enum ControllerError<E> {
    /// The hardware backend reported a failure; propagated, never retried.
    Hardware(E),
    /// The request combined shapes inconsistently or used an unsupported
    /// color form (see [`ColorError`]).
    Color(ColorError),
}

/// The pin command a well-formed color denotes, with polarity applied:
/// `reversed` wiring swaps high and low and inverts a duty cycle.
pub open spec fn spec_command(d: Dtype, reversed: bool) -> PinState
    recommends
        dtype_ok(d),
{
    match d {
        Dtype::On => if reversed {
            PinState::Low
        } else {
            PinState::High
        },
        Dtype::Off => if reversed {
            PinState::High
        } else {
            PinState::Low
        },
        _ => match spec_to_cycle(d) {
            Ok(c) => PinState::Pwm(
                if reversed {
                    (SCALE - c) as u64
                } else {
                    c
                },
            ),
            Err(_) => PinState::Low,  // does not occur: dtype_ok excludes Hex
        },
    }
}

/// Send one channel's color to one pin, applying polarity.
fn set_pin<T: PinControl>(pin: &mut T, d: &Dtype, reversed: bool) -> (r: Result<(), T::Error>)
    requires
        dtype_ok(*d),
    ensures
        r is Ok ==> final(pin).commands() == old(pin).commands().push(
            spec_command(*d, reversed),
        ),
        r is Err ==> accepted_at_most(old(pin), final(pin), spec_command(*d, reversed)),
        final(pin).pin_id() == old(pin).pin_id(),
        T::infallible() ==> r is Ok,
{
    proof {
        lemma_cycle_bounded(*d);
    }
    let state = match d {
        Dtype::On => if reversed {
            PinState::Low
        } else {
            PinState::High
        },
        Dtype::Off => if reversed {
            PinState::High
        } else {
            PinState::Low
        },
        _ => match d.to_cycle() {
            Ok(c) => PinState::Pwm(
                if reversed {
                    SCALE - c
                } else {
                    c
                },
            ),
            Err(_) => PinState::Low,  // unreachable: dtype_ok excludes Hex
        },
    };
    pin.set(state)
}

/// How the pins change when the color `value` is driven and every write
/// succeeds: each channel's log gains exactly the command that channel's
/// color denotes, and each handle keeps its identity.
pub open spec fn pins_after_drive<T: PinControl>(
    before: Led<T>,
    after: Led<T>,
    value: Led<Dtype>,
    reversed: bool,
) -> bool {
    match (before, after, value) {
        (Led::Single(p0), Led::Single(p1), Led::Single(d)) => p1.commands() == p0.commands().push(
            spec_command(d, reversed),
        ) && p1.pin_id() == p0.pin_id(),
        (Led::Rgb(r0, g0, b0), Led::Rgb(r1, g1, b1), Led::Rgb(dr, dg, db)) => {
            &&& r1.commands() == r0.commands().push(spec_command(dr, reversed))
            &&& g1.commands() == g0.commands().push(spec_command(dg, reversed))
            &&& b1.commands() == b0.commands().push(spec_command(db, reversed))
            &&& r1.pin_id() == r0.pin_id()
            &&& g1.pin_id() == g0.pin_id()
            &&& b1.pin_id() == b0.pin_id()
        },
        _ => false,
    }
}

/// How the pins change when a drive of `value` fails partway. Channels are
/// written red, green, blue: those before the failing write accepted their
/// commands, the failing one holds its command or nothing new (the interface
/// cannot tell which), and those after it were never touched. Handles keep
/// their identity throughout.
pub open spec fn pins_after_failed_drive<T: PinControl>(
    before: Led<T>,
    after: Led<T>,
    value: Led<Dtype>,
    reversed: bool,
) -> bool {
    match (before, after, value) {
        (Led::Single(p0), Led::Single(p1), Led::Single(d)) => accepted_at_most(
            &p0,
            &p1,
            spec_command(d, reversed),
        ) && p1.pin_id() == p0.pin_id(),
        (Led::Rgb(r0, g0, b0), Led::Rgb(r1, g1, b1), Led::Rgb(dr, dg, db)) => {
            &&& {
                ||| {
                    &&& accepted_at_most(&r0, &r1, spec_command(dr, reversed))
                    &&& g1.commands() == g0.commands()
                    &&& b1.commands() == b0.commands()
                }
                ||| {
                    &&& r1.commands() == r0.commands().push(spec_command(dr, reversed))
                    &&& accepted_at_most(&g0, &g1, spec_command(dg, reversed))
                    &&& b1.commands() == b0.commands()
                }
                ||| {
                    &&& r1.commands() == r0.commands().push(spec_command(dr, reversed))
                    &&& g1.commands() == g0.commands().push(spec_command(dg, reversed))
                    &&& accepted_at_most(&b0, &b1, spec_command(db, reversed))
                }
            }
            &&& r1.pin_id() == r0.pin_id()
            &&& g1.pin_id() == g0.pin_id()
            &&& b1.pin_id() == b0.pin_id()
        },
        _ => false,
    }
}

/// Drive a whole color through the pins, channel by channel (red, green,
/// blue, in that order). There is no atomic multi-pin write: if a later
/// channel fails, the earlier channels keep their newly driven state. That
/// partial application is inherent to the interface and is deliberately not
/// masked.
fn drive<T: PinControl>(pins: &mut Led<T>, value: &Led<Dtype>, reversed: bool) -> (r: Result<
    (),
    T::Error,
>)
    requires
        same_shape(*old(pins), *value),
        color_ok(*value),
    ensures
        same_shape(*final(pins), *old(pins)),
        r is Ok ==> pins_after_drive(*old(pins), *final(pins), *value, reversed),
        r is Err ==> pins_after_failed_drive(*old(pins), *final(pins), *value, reversed),
        T::infallible() ==> r is Ok,
{
    match pins {
        Led::Single(p) => match value {
            Led::Single(d) => set_pin(p, d, reversed),
            _ => Ok(()),  // unreachable: shapes match by precondition
        },
        Led::Rgb(pr, pg, pb) => match value {
            Led::Rgb(dr, dg, db) => {
                match set_pin(pr, dr, reversed) {
                    Ok(_) => {},
                    Err(e) => {
                        return Err(e);
                    },
                }
                match set_pin(pg, dg, reversed) {
                    Ok(_) => {},
                    Err(e) => {
                        return Err(e);
                    },
                }
                set_pin(pb, db, reversed)
            },
            _ => Ok(()),  // unreachable: shapes match by precondition
        },
    }
}

/// How often, in milliseconds of elapsed time, a fade advances by one step.
pub const EVALUATE_PERIOD_MS: u64 = 10;

/// A declarative lighting effect, submitted once and then driven by the
/// controller's generator. All durations are in milliseconds.
#[derive(Debug, Clone, PartialEq, Eq)]
pub enum Request {
    /// Hold a color until the next request.
    Static(Led<Dtype>),
    /// Alternate between the color (for the first duration) and off (for the
    /// second), indefinitely.
    Blink(Led<Dtype>, u64, u64),
    /// Fade the color toward off over the given duration, then stay off.
    Fade(Led<Dtype>, u64),
    /// Show each color of the list in turn for the given duration, cycling
    /// through the list indefinitely. An empty list schedules nothing.
    Sequence(Vec<Led<Dtype>>, u64),
    /// Blink through the list: each dark phase is followed by the next color
    /// of the list, cycling indefinitely. An empty list schedules nothing.
    BlinkSequence(Vec<Led<Dtype>>, u64, u64),
    /// Fade each color of the list toward off over the given duration, then
    /// start the next, cycling indefinitely. An empty list schedules nothing.
    FadeSequence(Vec<Led<Dtype>>, u64),
    /// Turn the fixture off and hold it there.
    Off,
}

/// The controller's scheduler state: an explicit, inspectable object per
/// effect kind instead of an opaque closure. Thresholds (`next_ms`) are
/// cumulative milliseconds of elapsed time since the effect was submitted,
/// so a threshold never falls behind real elapsed time.
#[derive(Debug, Clone, PartialEq, Eq)]
pub enum Generator {
    /// Nothing more to drive (after `Static`, `Off`, or a finished fade).
    Idle,
    /// Alternates `value` and its off-shape each time `elapsed` crosses
    /// `next_ms`; `phase_on` tells whether the fixture currently shows the
    /// color.
    Blink { value: Led<Dtype>, phase_on: bool, next_ms: u64, time_on_ms: u64, time_off_ms: u64 },
    /// Steps `current` down by `step` each period; ends (and goes `Idle`)
    /// when the output quantizes to all-off.
    Fade { current: Led<u64>, step: Led<u64>, next_ms: u64 },
    /// Advances through `colors` every `period_ms`, wrapping around.
    Sequence { colors: Vec<Led<Dtype>>, index: usize, next_ms: u64, period_ms: u64 },
    /// Like `Blink`, but each lit phase shows the next color of the list.
    BlinkSequence {
        colors: Vec<Led<Dtype>>,
        index: usize,
        phase_on: bool,
        next_ms: u64,
        time_on_ms: u64,
        time_off_ms: u64,
    },
    /// Like `Fade`, but when a color has faded out the next one of the list
    /// is driven at full value and the fade restarts.
    FadeSequence {
        colors: Vec<Led<Dtype>>,
        index: usize,
        current: Led<u64>,
        step: Led<u64>,
        next_ms: u64,
        period_ms: u64,
    },
}

/// The shape a topology must have to match a fixture: single-channel when
/// `single`, three-channel otherwise.
pub open spec fn led_shape<T>(l: Led<T>, single: bool) -> bool {
    if single {
        l is Single
    } else {
        l is Rgb
    }
}

/// A color the fixture can display: right shape, and every channel well
/// formed.
pub open spec fn valid_color(c: Led<Dtype>, single: bool) -> bool {
    led_shape(c, single) && color_ok(c)
}

/// Some channel carries the unsupported hex form.
pub open spec fn color_has_hex(c: Led<Dtype>) -> bool {
    match c {
        Led::Single(v) => v is Hex,
        Led::Rgb(r, g, b) => r is Hex || g is Hex || b is Hex,
    }
}

/// One channel value respects its documented range (`Percent` within
/// `0..=100`, `Cycle` within `0..=SCALE`). Supplying a value outside the
/// range is a caller bug.
pub open spec fn dtype_in_range(d: Dtype) -> bool {
    match d {
        Dtype::Percent(p) => p <= 100,
        Dtype::Cycle(u) => u <= SCALE,
        _ => true,
    }
}

/// Every channel of the color respects its documented range.
pub open spec fn color_in_range(c: Led<Dtype>) -> bool {
    match c {
        Led::Single(v) => dtype_in_range(v),
        Led::Rgb(r, g, b) => dtype_in_range(r) && dtype_in_range(g) && dtype_in_range(b),
    }
}

/// Every color of the request respects its documented ranges.
pub open spec fn request_in_range(r: Request) -> bool {
    match r {
        Request::Static(c) => color_in_range(c),
        Request::Blink(c, _, _) => color_in_range(c),
        Request::Fade(c, _) => color_in_range(c),
        Request::Off => true,
        Request::Sequence(colors, _) => forall|i: int|
            0 <= i < colors@.len() ==> color_in_range(#[trigger] colors@[i]),
        Request::BlinkSequence(colors, _, _) => forall|i: int|
            0 <= i < colors@.len() ==> color_in_range(#[trigger] colors@[i]),
        Request::FadeSequence(colors, _) => forall|i: int|
            0 <= i < colors@.len() ==> color_in_range(#[trigger] colors@[i]),
    }
}

/// What submitting one color against a fixture shape yields: a shape
/// mismatch is reported first (it is the caller's bug), then the unsupported
/// hex form.
pub open spec fn check_color_spec(c: Led<Dtype>, single: bool) -> Option<ColorError> {
    if !led_shape(c, single) {
        Some(ColorError::TopologyMismatch)
    } else if color_has_hex(c) {
        Some(ColorError::UnsupportedFormat)
    } else {
        None
    }
}

/// The first error among a list of colors, in list order.
pub open spec fn check_colors_spec(colors: Seq<Led<Dtype>>, single: bool) -> Option<ColorError>
    decreases colors.len(),
{
    if colors.len() == 0 {
        None
    } else {
        match check_color_spec(colors[0], single) {
            Some(e) => Some(e),
            None => check_colors_spec(colors.drop_first(), single),
        }
    }
}

/// The validation a request undergoes before anything is driven: every color
/// it mentions is checked, in order.
pub open spec fn spec_validate(request: Request, single: bool) -> Option<ColorError> {
    match request {
        Request::Static(c) => check_color_spec(c, single),
        Request::Blink(c, _, _) => check_color_spec(c, single),
        Request::Fade(c, _) => check_color_spec(c, single),
        Request::Off => None,
        Request::Sequence(colors, _) => check_colors_spec(colors@, single),
        Request::BlinkSequence(colors, _, _) => check_colors_spec(colors@, single),
        Request::FadeSequence(colors, _) => check_colors_spec(colors@, single),
    }
}

/// The duty cycle a channel denotes, with the unsupported hex form mapped to
/// zero (it is excluded before this is ever relied on).
pub open spec fn spec_cycle_or_zero(d: Dtype) -> u64 {
    match spec_to_cycle(d) {
        Ok(c) => c,
        Err(_) => 0u64,
    }
}

/// Channel-wise duty cycles of a color (see [`spec_cycle_or_zero`]).
pub open spec fn spec_duty_units(c: Led<Dtype>) -> Led<u64> {
    match c {
        Led::Single(v) => Led::Single(spec_cycle_or_zero(v)),
        Led::Rgb(r, g, b) => Led::Rgb(
            spec_cycle_or_zero(r),
            spec_cycle_or_zero(g),
            spec_cycle_or_zero(b),
        ),
    }
}

/// On a well-formed color, conversion succeeds, channel by channel, and every
/// resulting duty cycle is representable.
proof fn lemma_duty_valid(c: Led<Dtype>)
    requires
        color_ok(c),
    ensures
        c.spec_duty() == Ok::<Led<u64>, ColorError>(spec_duty_units(c)),
        led_valid(spec_duty_units(c)),
        same_shape(spec_duty_units(c), c),
{
    match c {
        Led::Single(v) => {
            lemma_cycle_bounded(v);
        },
        Led::Rgb(r, g, b) => {
            lemma_cycle_bounded(r);
            lemma_cycle_bounded(g);
            lemma_cycle_bounded(b);
        },
    }
}

/// Number of fade steps a duration allows: one per evaluation period, and at
/// least one so every fade makes progress.
pub open spec fn spec_fade_ticks(duration_ms: u64) -> u64 {
    if duration_ms / EVALUATE_PERIOD_MS == 0 {
        1u64
    } else {
        duration_ms / EVALUATE_PERIOD_MS
    }
}

/// Per-channel fade decrement: the starting value split over the available
/// steps, and at least one unit so the fade strictly decreases and
/// terminates.
pub open spec fn spec_step_unit(c: u64, n: u64) -> u64
    recommends
        n > 0,
{
    if c / n == 0 {
        1u64
    } else {
        c / n
    }
}

/// Channel-wise fade decrement for a whole color.
pub open spec fn spec_fade_step(c: Led<u64>, duration_ms: u64) -> Led<u64> {
    match c {
        Led::Single(v) => Led::Single(spec_step_unit(v, spec_fade_ticks(duration_ms))),
        Led::Rgb(r, g, b) => Led::Rgb(
            spec_step_unit(r, spec_fade_ticks(duration_ms)),
            spec_step_unit(g, spec_fade_ticks(duration_ms)),
            spec_step_unit(b, spec_fade_ticks(duration_ms)),
        ),
    }
}

/// The generator a request installs. It depends on the request alone — never
/// on whatever generator was active before.
pub open spec fn gen_of(request: Request) -> Generator {
    match request {
        Request::Static(_) => Generator::Idle,
        Request::Off => Generator::Idle,
        Request::Blink(value, time_on_ms, time_off_ms) => Generator::Blink {
            value,
            phase_on: true,
            next_ms: time_on_ms,
            time_on_ms,
            time_off_ms,
        },
        Request::Fade(value, duration_ms) => Generator::Fade {
            current: spec_duty_units(value),
            step: spec_fade_step(spec_duty_units(value), duration_ms),
            next_ms: EVALUATE_PERIOD_MS,
        },
        Request::Sequence(colors, period_ms) => if colors@.len() == 0 {
            Generator::Idle
        } else {
            Generator::Sequence { colors, index: 0, next_ms: period_ms, period_ms }
        },
        Request::BlinkSequence(colors, time_on_ms, time_off_ms) => if colors@.len() == 0 {
            Generator::Idle
        } else {
            Generator::BlinkSequence {
                colors,
                index: 0,
                phase_on: true,
                next_ms: time_on_ms,
                time_on_ms,
                time_off_ms,
            }
        },
        Request::FadeSequence(colors, duration_ms) => if colors@.len() == 0 {
            Generator::Idle
        } else {
            Generator::FadeSequence {
                colors: colors,
                index: 0,
                current: spec_duty_units(colors@[0]),
                step: spec_fade_step(spec_duty_units(colors@[0]), duration_ms),
                next_ms: EVALUATE_PERIOD_MS,
                period_ms: duration_ms,
            }
        },
    }
}

/// The scheduling state a submission leaves behind, as a function of the
/// state it replaces: the request's own generator and the new baseline
/// timestamp. That the replaced state appears nowhere on the right-hand
/// side is the point — see `laws::lemma_submit_replaces_generator` — and
/// [`Controller::submit`] ties its post-state to this function.
pub open spec fn submit_effect(
    prior: Generator,
    prior_stamp: u64,
    request: Request,
    now_ms: u64,
) -> (Generator, u64) {
    (gen_of(request), now_ms)
}

/// The color a request drives immediately on submission, if any: its first
/// (or only) color, the off-shape for `Off`, nothing for an empty sequence.
pub open spec fn spec_initial_color(request: Request, single: bool) -> Option<Led<Dtype>> {
    match request {
        Request::Static(c) => Some(c),
        Request::Blink(c, _, _) => Some(c),
        Request::Fade(c, _) => Some(c),
        Request::Off => Some(
            if single {
                Led::Single(Dtype::Off)
            } else {
                Led::Rgb(Dtype::Off, Dtype::Off, Dtype::Off)
            },
        ),
        Request::Sequence(colors, _) => if colors@.len() == 0 {
            None
        } else {
            Some(colors@[0])
        },
        Request::BlinkSequence(colors, _, _) => if colors@.len() == 0 {
            None
        } else {
            Some(colors@[0])
        },
        Request::FadeSequence(colors, _) => if colors@.len() == 0 {
            None
        } else {
            Some(colors@[0])
        },
    }
}

/// A generator the fixture can run: every color it may ever emit has the
/// fixture's shape and is well formed.
pub open spec fn gen_wf(g: Generator, single: bool) -> bool {
    match g {
        Generator::Idle => true,
        Generator::Blink { value, .. } => valid_color(value, single),
        Generator::Fade { current, step, .. } => {
            &&& led_shape(current, single)
            &&& led_shape(step, single)
            &&& led_valid(current)
            &&& led_valid(step)
        },
        Generator::Sequence { colors, index, .. } => {
            &&& 0 < colors@.len()
            &&& (index as int) < colors@.len()
            &&& forall|i: int| 0 <= i < colors@.len() ==> valid_color(#[trigger] colors@[i], single)
        },
        Generator::BlinkSequence { colors, index, .. } => {
            &&& 0 < colors@.len()
            &&& (index as int) < colors@.len()
            &&& forall|i: int| 0 <= i < colors@.len() ==> valid_color(#[trigger] colors@[i], single)
        },
        Generator::FadeSequence { colors, index, current, step, .. } => {
            &&& 0 < colors@.len()
            &&& (index as int) < colors@.len()
            &&& forall|i: int| 0 <= i < colors@.len() ==> valid_color(#[trigger] colors@[i], single)
            &&& led_shape(current, single)
            &&& led_shape(step, single)
            &&& led_valid(current)
            &&& led_valid(step)
        },
    }
}

/// A validated list is valid at every position.
proof fn lemma_check_colors_all_none(colors: Seq<Led<Dtype>>, single: bool)
    requires
        check_colors_spec(colors, single) is None,
    ensures
        forall|i: int| 0 <= i < colors.len() ==> check_color_spec(#[trigger] colors[i], single) is None,
    decreases colors.len(),
{
    if colors.len() > 0 {
        lemma_check_colors_all_none(colors.drop_first(), single);
        assert forall|i: int| 0 <= i < colors.len() implies check_color_spec(
            #[trigger] colors[i],
            single,
        ) is None by {
            if i > 0 {
                assert(colors[i] == colors.drop_first()[i - 1]);
            }
        }
    }
}

/// A color that passed validation and respects its ranges is fully well
/// formed.
proof fn lemma_checked_color_ok(c: Led<Dtype>, single: bool)
    requires
        check_color_spec(c, single) is None,
        color_in_range(c),
    ensures
        valid_color(c, single),
{
}

/// The fade decrement of a representable color is representable and has its
/// shape.
proof fn lemma_fade_step_valid(c: Led<u64>, duration_ms: u64)
    requires
        led_valid(c),
    ensures
        led_valid(spec_fade_step(c, duration_ms)),
        same_shape(spec_fade_step(c, duration_ms), c),
{
    let n = spec_fade_ticks(duration_ms);
    match c {
        Led::Single(v) => {
            vstd::arithmetic::div_mod::lemma_div_nonincreasing(v as int, n as int);
        },
        Led::Rgb(r, g, b) => {
            vstd::arithmetic::div_mod::lemma_div_nonincreasing(r as int, n as int);
            vstd::arithmetic::div_mod::lemma_div_nonincreasing(g as int, n as int);
            vstd::arithmetic::div_mod::lemma_div_nonincreasing(b as int, n as int);
        },
    }
}

/// A request that passed validation installs a well-formed generator, and
/// its initial color (if any) can be driven.
proof fn lemma_gen_of_wf(request: Request, single: bool)
    requires
        spec_validate(request, single) is None,
        request_in_range(request),
    ensures
        gen_wf(gen_of(request), single),
        (spec_initial_color(request, single) matches Some(c) ==> valid_color(c, single)),
{
    match request {
        Request::Static(c) => {
            lemma_checked_color_ok(c, single);
        },
        Request::Blink(c, _, _) => {
            lemma_checked_color_ok(c, single);
        },
        Request::Fade(c, duration_ms) => {
            lemma_checked_color_ok(c, single);
            lemma_duty_valid(c);
            lemma_fade_step_valid(spec_duty_units(c), duration_ms);
        },
        Request::Off => {},
        Request::Sequence(colors, _) => {
            lemma_check_colors_all_none(colors@, single);
            if colors@.len() > 0 {
                lemma_checked_color_ok(colors@[0], single);
                assert forall|i: int| 0 <= i < colors@.len() implies valid_color(
                    #[trigger] colors@[i],
                    single,
                ) by {
                    lemma_checked_color_ok(colors@[i], single);
                }
            }
        },
        Request::BlinkSequence(colors, _, _) => {
            lemma_check_colors_all_none(colors@, single);
            if colors@.len() > 0 {
                lemma_checked_color_ok(colors@[0], single);
                assert forall|i: int| 0 <= i < colors@.len() implies valid_color(
                    #[trigger] colors@[i],
                    single,
                ) by {
                    lemma_checked_color_ok(colors@[i], single);
                }
            }
        },
        Request::FadeSequence(colors, duration_ms) => {
            lemma_check_colors_all_none(colors@, single);
            if colors@.len() > 0 {
                lemma_checked_color_ok(colors@[0], single);
                assert forall|i: int| 0 <= i < colors@.len() implies valid_color(
                    #[trigger] colors@[i],
                    single,
                ) by {
                    lemma_checked_color_ok(colors@[i], single);
                }
                lemma_duty_valid(colors@[0]);
                lemma_fade_step_valid(spec_duty_units(colors@[0]), duration_ms);
            }
        },
    }
}

/// Check one channel for the unsupported hex form.
fn is_hex(d: &Dtype) -> (r: bool)
    ensures
        r == (*d is Hex),
{
    match d {
        Dtype::Hex(_) => true,
        _ => false,
    }
}

/// Validate one color against the fixture shape (see [`check_color_spec`]).
fn check_color(c: &Led<Dtype>, single: bool) -> (r: Option<ColorError>)
    ensures
        r == check_color_spec(*c, single),
{
    let shape_good = match c {
        Led::Single(_) => single,
        Led::Rgb(_, _, _) => !single,
    };
    if !shape_good {
        Some(ColorError::TopologyMismatch)
    } else {
        let hex = match c {
            Led::Single(v) => is_hex(v),
            Led::Rgb(r, g, b) => is_hex(r) || is_hex(g) || is_hex(b),
        };
        if hex {
            Some(ColorError::UnsupportedFormat)
        } else {
            None
        }
    }
}

/// Validate the colors of a list from position `k` on, in order.
fn check_colors_from(colors: &Vec<Led<Dtype>>, single: bool, k: usize) -> (r: Option<ColorError>)
    requires
        k <= colors@.len(),
    ensures
        r == check_colors_spec(colors@.skip(k as int), single),
    decreases colors@.len() - k,
{
    if k == colors.len() {
        None
    } else {
        proof {
            assert(colors@.skip(k as int).drop_first() =~= colors@.skip(k as int + 1));
            assert(colors@.skip(k as int)[0] == colors@[k as int]);
        }
        match check_color(&colors[k], single) {
            Some(e) => Some(e),
            None => check_colors_from(colors, single, k + 1),
        }
    }
}

/// Per-channel fade decrement (see [`spec_step_unit`]).
fn step_unit(c: u64, n: u64) -> (r: u64)
    requires
        n > 0,
    ensures
        r == spec_step_unit(c, n),
{
    let q = c / n;
    if q == 0 {
        1
    } else {
        q
    }
}

/// Channel-wise fade decrement (see [`spec_fade_step`]).
fn fade_step(c: &Led<u64>, duration_ms: u64) -> (r: Led<u64>)
    ensures
        r == spec_fade_step(*c, duration_ms),
{
    let q = duration_ms / EVALUATE_PERIOD_MS;
    let n = if q == 0 {
        1
    } else {
        q
    };
    match c {
        Led::Single(v) => Led::Single(step_unit(*v, n)),
        Led::Rgb(r, g, b) => Led::Rgb(step_unit(*r, n), step_unit(*g, n), step_unit(*b, n)),
    }
}

/// Build the generator a validated request installs (see [`gen_of`]).
fn make_generator(request: Request) -> (g: Generator)
    requires
        match request {
            Request::Fade(c, _) => color_ok(c),
            Request::FadeSequence(colors, _) => colors@.len() > 0 ==> color_ok(colors@[0]),
            _ => true,
        },
    ensures
        g == gen_of(request),
{
    match request {
        Request::Static(_) => Generator::Idle,
        Request::Off => Generator::Idle,
        Request::Blink(value, time_on_ms, time_off_ms) => Generator::Blink {
            value,
            phase_on: true,
            next_ms: time_on_ms,
            time_on_ms,
            time_off_ms,
        },
        Request::Fade(value, duration_ms) => {
            proof {
                lemma_duty_valid(value);
            }
            let current = match value.to_duty_cycle() {
                Ok(d) => d,
                Err(_) => Led::Single(0),  // unreachable: color_ok excludes Hex
            };
            let step = fade_step(&current, duration_ms);
            Generator::Fade { current, step, next_ms: EVALUATE_PERIOD_MS }
        },
        Request::Sequence(colors, period_ms) => {
            if colors.len() == 0 {
                Generator::Idle
            } else {
                Generator::Sequence { colors, index: 0, next_ms: period_ms, period_ms }
            }
        },
        Request::BlinkSequence(colors, time_on_ms, time_off_ms) => {
            if colors.len() == 0 {
                Generator::Idle
            } else {
                Generator::BlinkSequence {
                    colors,
                    index: 0,
                    phase_on: true,
                    next_ms: time_on_ms,
                    time_on_ms,
                    time_off_ms,
                }
            }
        },
        Request::FadeSequence(colors, duration_ms) => {
            if colors.len() == 0 {
                Generator::Idle
            } else {
                proof {
                    lemma_duty_valid(colors@[0]);
                }
                let current = match colors[0].to_duty_cycle() {
                    Ok(d) => d,
                    Err(_) => Led::Single(0),  // unreachable: color_ok excludes Hex
                };
                let step = fade_step(&current, duration_ms);
                Generator::FadeSequence {
                    colors,
                    index: 0,
                    current,
                    step,
                    next_ms: EVALUATE_PERIOD_MS,
                    period_ms: duration_ms,
                }
            }
        },
    }
}

/// The effect-scheduling engine for one physical fixture.
///
/// Created once with a fixed topology and polarity; [`Controller::submit`]
/// replaces the active generator wholesale, and [`Controller::evaluate`]
/// advances it against elapsed time. `submit` and `evaluate` must be
/// serialized per instance (they both mutate the generator and the pins);
/// distinct controllers share nothing.
pub struct Controller<T: PinControl> {
    /// The live pin handles, exclusively owned by this controller. Exposed
    /// for inspection; treat as read-only.
    pub control: Led<T>,
    /// The active generator. Exposed for inspection; treat as read-only.
    pub queue: Generator,
    /// Inverted polarity (common-anode / active-low wiring): swaps high and
    /// low and inverts every duty cycle.
    pub reversed: bool,
    /// The timestamp (caller's clock, milliseconds) of the last submission;
    /// `evaluate` measures elapsed time against it.
    pub stamp: u64,
}

impl<T: PinControl> Controller<T> {
    /// The fixture is single-channel.
    pub open spec fn single(&self) -> bool {
        self.control is Single
    }

    /// The controller's invariant: the active generator only ever emits
    /// colors the fixture can display.
    pub open spec fn wf(&self) -> bool {
        gen_wf(self.queue, self.single())
    }

    /// Open one pin per channel of `pins` and build an idle controller
    /// around them, each handle on the pin identifier of its channel. Fails
    /// with the backend's error if a pin cannot be opened; pins opened
    /// before the failure are dropped.
    pub fn new(pins: Led<u8>, reversed: bool) -> (r: Result<Controller<T>, T::Error>)
        ensures
            (r matches Ok(c) ==> {
                &&& c.wf()
                &&& c.queue == Generator::Idle
                &&& c.reversed == reversed
                &&& c.stamp == 0
                &&& same_shape(c.control, pins)
                &&& match (c.control, pins) {
                    (Led::Single(p), Led::Single(n)) => p.commands() == Seq::<
                        PinState,
                    >::empty() && p.pin_id() == n,
                    (Led::Rgb(pr, pg, pb), Led::Rgb(nr, ng, nb)) => {
                        &&& pr.commands() == Seq::<PinState>::empty()
                        &&& pg.commands() == Seq::<PinState>::empty()
                        &&& pb.commands() == Seq::<PinState>::empty()
                        &&& pr.pin_id() == nr
                        &&& pg.pin_id() == ng
                        &&& pb.pin_id() == nb
                    },
                    _ => false,
                }
            }),
            T::infallible() ==> r is Ok,
    {
        let control = match pins {
            Led::Single(p) => match T::new(p) {
                Ok(t) => Led::Single(t),
                Err(e) => {
                    return Err(e);
                },
            },
            Led::Rgb(pr, pg, pb) => {
                let tr = match T::new(pr) {
                    Ok(t) => t,
                    Err(e) => {
                        return Err(e);
                    },
                };
                let tg = match T::new(pg) {
                    Ok(t) => t,
                    Err(e) => {
                        return Err(e);
                    },
                };
                let tb = match T::new(pb) {
                    Ok(t) => t,
                    Err(e) => {
                        return Err(e);
                    },
                };
                Led::Rgb(tr, tg, tb)
            },
        };
        Ok(Controller { control, queue: Generator::Idle, reversed, stamp: 0 })
    }

    /// Submit a request: validate it, immediately drive its starting color
    /// (with polarity applied), install its generator and rebaseline the
    /// clock to `now_ms`. The replacement is unconditional — whatever effect
    /// was in progress is abandoned where it stands.
    ///
    /// An invalid request (wrong shape, or a hex color) changes nothing. A
    /// hardware failure during the initial drive leaves the previous
    /// generator and timestamp in place; pins driven before the failing
    /// channel keep their new state (there is no atomic multi-pin write).
    pub fn submit(&mut self, request: Request, now_ms: u64) -> (r: Result<
        (),
        ControllerError<T::Error>,
    >)
        requires
            old(self).wf(),
            request_in_range(request),
        ensures
            final(self).wf(),
            final(self).reversed == old(self).reversed,
            same_shape(final(self).control, old(self).control),
            (spec_validate(request, old(self).single()) matches Some(e) ==> r == Err::<
                (),
                ControllerError<T::Error>,
            >(ControllerError::Color(e)) && *final(self) == *old(self)),
            (r matches Err(ControllerError::Hardware(_)) ==> spec_validate(
                request,
                old(self).single(),
            ) is None && final(self).queue == old(self).queue && final(self).stamp == old(
                self,
            ).stamp && match spec_initial_color(request, old(self).single()) {
                Some(c) => pins_after_failed_drive(
                    old(self).control,
                    final(self).control,
                    c,
                    old(self).reversed,
                ),
                None => final(self).control == old(self).control,
            }),
            (T::infallible() && spec_validate(request, old(self).single()) is None ==> r is Ok),
            (r is Ok ==> {
                &&& spec_validate(request, old(self).single()) is None
                &&& final(self).queue == submit_effect(
                    old(self).queue,
                    old(self).stamp,
                    request,
                    now_ms,
                ).0
                &&& final(self).stamp == submit_effect(
                    old(self).queue,
                    old(self).stamp,
                    request,
                    now_ms,
                ).1
                &&& match spec_initial_color(request, old(self).single()) {
                    Some(c) => pins_after_drive(
                        old(self).control,
                        final(self).control,
                        c,
                        old(self).reversed,
                    ),
                    None => final(self).control == old(self).control,
                }
            }),
    {
        let single = match &self.control {
            Led::Single(_) => true,
            Led::Rgb(_, _, _) => false,
        };
        let v = match &request {
            Request::Static(c) => check_color(c, single),
            Request::Blink(c, _, _) => check_color(c, single),
            Request::Fade(c, _) => check_color(c, single),
            Request::Off => None,
            Request::Sequence(colors, _) => {
                let r0 = check_colors_from(colors, single, 0);
                proof {
                    assert(colors@.skip(0) =~= colors@);
                }
                r0
            },
            Request::BlinkSequence(colors, _, _) => {
                let r0 = check_colors_from(colors, single, 0);
                proof {
                    assert(colors@.skip(0) =~= colors@);
                }
                r0
            },
            Request::FadeSequence(colors, _) => {
                let r0 = check_colors_from(colors, single, 0);
                proof {
                    assert(colors@.skip(0) =~= colors@);
                }
                r0
            },
        };
        match v {
            Some(e) => {
                return Err(ControllerError::Color(e));
            },
            None => {},
        }
        proof {
            lemma_gen_of_wf(request, old(self).single());
        }
        let init: Option<Led<Dtype>> = match &request {
            Request::Static(c) => Some(c.duplicate()),
            Request::Blink(c, _, _) => Some(c.duplicate()),
            Request::Fade(c, _) => Some(c.duplicate()),
            Request::Off => Some(self.control.get_off()),
            Request::Sequence(colors, _) => {
                if colors.len() == 0 {
                    None
                } else {
                    Some(colors[0].duplicate())
                }
            },
            Request::BlinkSequence(colors, _, _) => {
                if colors.len() == 0 {
                    None
                } else {
                    Some(colors[0].duplicate())
                }
            },
            Request::FadeSequence(colors, _) => {
                if colors.len() == 0 {
                    None
                } else {
                    Some(colors[0].duplicate())
                }
            },
        };
        let reversed = self.reversed;
        match init {
            None => {},
            Some(c) => {
                match drive(&mut self.control, &c, reversed) {
                    Ok(_) => {},
                    Err(e) => {
                        return Err(ControllerError::Hardware(e));
                    },
                }
            },
        }
        self.queue = make_generator(request);
        self.stamp = now_ms;
        Ok(())
    }

    /// One evaluation tick: measure elapsed time against the caller's clock
    /// `now_ms`, ask the generator, and drive the output (with polarity
    /// applied) if it reports one. Returns whether the output changed.
    ///
    /// The engine performs no timing of its own — it is purely reactive to
    /// however often its caller polls. The generator advances even when the
    /// subsequent pin write fails; the hardware error is propagated and the
    /// pins may be left partially updated (there is no atomic multi-pin
    /// write).
    pub fn evaluate(&mut self, now_ms: u64) -> (r: Result<bool, ControllerError<T::Error>>)
        requires
            old(self).wf(),
        ensures
            final(self).wf(),
            final(self).reversed == old(self).reversed,
            final(self).stamp == old(self).stamp,
            same_shape(final(self).control, old(self).control),
            final(self).queue == step_gen(
                old(self).queue,
                spec_elapsed(old(self).stamp, now_ms),
            ).0,
            match step_gen(old(self).queue, spec_elapsed(old(self).stamp, now_ms)).1 {
                None => r == Ok::<bool, ControllerError<T::Error>>(false) && final(self).control
                    == old(self).control,
                Some(c) => {
                    &&& (r is Ok ==> r == Ok::<bool, ControllerError<T::Error>>(true)
                        && pins_after_drive(
                        old(self).control,
                        final(self).control,
                        c,
                        old(self).reversed,
                    ))
                    &&& (r is Err ==> (r matches Err(ControllerError::Hardware(_)))
                        && pins_after_failed_drive(
                        old(self).control,
                        final(self).control,
                        c,
                        old(self).reversed,
                    ))
                },
            },
            T::infallible() ==> r is Ok,
    {
        let elapsed = if now_ms >= self.stamp {
            now_ms - self.stamp
        } else {
            0
        };
        let mut g = Generator::Idle;
        core::mem::swap(&mut g, &mut self.queue);
        let ghost single = old(self).single();
        let (g2, out) = step_generator(g, elapsed, Ghost(single));
        self.queue = g2;
        match out {
            None => Ok(false),
            Some(c) => {
                let reversed = self.reversed;
                match drive(&mut self.control, &c, reversed) {
                    Ok(_) => Ok(true),
                    Err(e) => Err(ControllerError::Hardware(e)),
                }
            },
        }
    }
}

/// Elapsed milliseconds between the last submission and `now_ms`; a clock
/// that moved backwards counts as no time elapsed.
pub open spec fn spec_elapsed(stamp: u64, now_ms: u64) -> u64 {
    if now_ms >= stamp {
        (now_ms - stamp) as u64
    } else {
        0u64
    }
}

/// Saturating addition on millisecond thresholds: a schedule never wraps.
pub open spec fn sat_add(a: u64, b: u64) -> u64 {
    if a + b > u64::MAX {
        u64::MAX
    } else {
        (a + b) as u64
    }
}

/// Saturating addition on millisecond thresholds (see [`sat_add`]).
fn sat_add_ms(a: u64, b: u64) -> (r: u64)
    ensures
        r == sat_add(a, b),
{
    if a <= u64::MAX - b {
        a + b
    } else {
        u64::MAX
    }
}

/// Channel-wise saturating subtraction: the fade's per-step decrement.
pub open spec fn spec_sub_color(a: Led<u64>, b: Led<u64>) -> Led<u64>
    recommends
        same_shape(a, b),
{
    spec_pair_map(a, b, |x: u64, y: u64| unit_sub(x, y))
}

/// Every channel of the color is the digital `Off` marker.
pub open spec fn spec_all_off(c: Led<Dtype>) -> bool {
    match c {
        Led::Single(v) => v is Off,
        Led::Rgb(r, g, b) => r is Off && g is Off && b is Off,
    }
}

/// The next position in a cyclic list.
pub open spec fn next_index_spec(index: usize, len: int) -> usize {
    if index + 1 >= len {
        0usize
    } else {
        (index + 1) as usize
    }
}

/// One evaluation step of a generator against elapsed time: the successor
/// generator, and the output to drive if a threshold fired. At most one
/// threshold fires per step — the engine is purely reactive to however often
/// its caller polls.
pub open spec fn step_gen(g: Generator, elapsed: u64) -> (Generator, Option<Led<Dtype>>) {
    match g {
        Generator::Idle => (g, None::<Led<Dtype>>),
        Generator::Blink { value, phase_on, next_ms, time_on_ms, time_off_ms } => {
            if elapsed > next_ms {
                if phase_on {
                    (
                        Generator::Blink {
                            value,
                            phase_on: false,
                            next_ms: sat_add(next_ms, time_off_ms),
                            time_on_ms,
                            time_off_ms,
                        },
                        Some(spec_get_off(value)),
                    )
                } else {
                    (
                        Generator::Blink {
                            value,
                            phase_on: true,
                            next_ms: sat_add(next_ms, time_on_ms),
                            time_on_ms,
                            time_off_ms,
                        },
                        Some(value),
                    )
                }
            } else {
                (g, None::<Led<Dtype>>)
            }
        },
        Generator::Fade { current, step, next_ms } => {
            if elapsed > next_ms {
                let nc = spec_sub_color(current, step);
                let out = spec_as_dtype(nc);
                if spec_all_off(out) {
                    (Generator::Idle, Some(out))
                } else {
                    (
                        Generator::Fade {
                            current: nc,
                            step,
                            next_ms: sat_add(next_ms, EVALUATE_PERIOD_MS),
                        },
                        Some(out),
                    )
                }
            } else {
                (g, None::<Led<Dtype>>)
            }
        },
        Generator::Sequence { colors, index, next_ms, period_ms } => {
            if elapsed > next_ms {
                let ni = next_index_spec(index, colors@.len() as int);
                (
                    Generator::Sequence {
                        colors,
                        index: ni,
                        next_ms: sat_add(next_ms, period_ms),
                        period_ms,
                    },
                    Some(colors@[ni as int]),
                )
            } else {
                (g, None::<Led<Dtype>>)
            }
        },
        Generator::BlinkSequence { colors, index, phase_on, next_ms, time_on_ms, time_off_ms } => {
            if elapsed > next_ms {
                if phase_on {
                    (
                        Generator::BlinkSequence {
                            colors,
                            index,
                            phase_on: false,
                            next_ms: sat_add(next_ms, time_off_ms),
                            time_on_ms,
                            time_off_ms,
                        },
                        Some(spec_get_off(colors@[index as int])),
                    )
                } else {
                    let ni = next_index_spec(index, colors@.len() as int);
                    (
                        Generator::BlinkSequence {
                            colors,
                            index: ni,
                            phase_on: true,
                            next_ms: sat_add(next_ms, time_on_ms),
                            time_on_ms,
                            time_off_ms,
                        },
                        Some(colors@[ni as int]),
                    )
                }
            } else {
                (g, None::<Led<Dtype>>)
            }
        },
        Generator::FadeSequence { colors, index, current, step, next_ms, period_ms } => {
            if elapsed > next_ms {
                let nc = spec_sub_color(current, step);
                let out = spec_as_dtype(nc);
                if spec_all_off(out) {
                    let ni = next_index_spec(index, colors@.len() as int);
                    let nxt = colors@[ni as int];
                    (
                        Generator::FadeSequence {
                            colors,
                            index: ni,
                            current: spec_duty_units(nxt),
                            step: spec_fade_step(spec_duty_units(nxt), period_ms),
                            next_ms: sat_add(next_ms, EVALUATE_PERIOD_MS),
                            period_ms,
                        },
                        Some(nxt),
                    )
                } else {
                    (
                        Generator::FadeSequence {
                            colors,
                            index,
                            current: nc,
                            step,
                            next_ms: sat_add(next_ms, EVALUATE_PERIOD_MS),
                            period_ms,
                        },
                        Some(out),
                    )
                }
            } else {
                (g, None::<Led<Dtype>>)
            }
        },
    }
}

/// True when every channel is the digital `Off` marker.
fn all_off(c: &Led<Dtype>) -> (r: bool)
    ensures
        r == spec_all_off(*c),
{
    match c {
        Led::Single(v) => match v {
            Dtype::Off => true,
            _ => false,
        },
        Led::Rgb(r, g, b) => {
            let ro = match r {
                Dtype::Off => true,
                _ => false,
            };
            let go = match g {
                Dtype::Off => true,
                _ => false,
            };
            let bo = match b {
                Dtype::Off => true,
                _ => false,
            };
            ro && go && bo
        },
    }
}

/// The next position in a cyclic list (see [`next_index_spec`]).
fn next_index(index: usize, len: usize) -> (r: usize)
    requires
        0 < len,
        index < len,
    ensures
        r == next_index_spec(index, len as int),
        r < len,
{
    if index + 1 >= len {
        0
    } else {
        index + 1
    }
}

/// Advance a generator one evaluation step, exactly as [`step_gen`] states;
/// well-formedness is preserved and any output is displayable.
fn step_generator(g: Generator, elapsed: u64, single: Ghost<bool>) -> (r: (
    Generator,
    Option<Led<Dtype>>,
))
    requires
        gen_wf(g, single@),
    ensures
        r.0 == step_gen(g, elapsed).0,
        r.1 == step_gen(g, elapsed).1,
        gen_wf(r.0, single@),
        (r.1 matches Some(c) ==> valid_color(c, single@)),
{
    match g {
        Generator::Idle => (Generator::Idle, None),
        Generator::Blink { value, phase_on, next_ms, time_on_ms, time_off_ms } => {
            if elapsed > next_ms {
                if phase_on {
                    let off = value.get_off();
                    (
                        Generator::Blink {
                            value,
                            phase_on: false,
                            next_ms: sat_add_ms(next_ms, time_off_ms),
                            time_on_ms,
                            time_off_ms,
                        },
                        Some(off),
                    )
                } else {
                    let out = value.duplicate();
                    (
                        Generator::Blink {
                            value,
                            phase_on: true,
                            next_ms: sat_add_ms(next_ms, time_on_ms),
                            time_on_ms,
                            time_off_ms,
                        },
                        Some(out),
                    )
                }
            } else {
                (Generator::Blink { value, phase_on, next_ms, time_on_ms, time_off_ms }, None)
            }
        },
        Generator::Fade { current, step, next_ms } => {
            if elapsed > next_ms {
                let nc = match current.sub_color(step) {
                    Ok(c) => c,
                    Err(_) => current,  // unreachable: the invariant gives equal shapes
                };
                let out = nc.as_dtype();
                proof {
                    lemma_quantize_ok(nc);
                }
                if all_off(&out) {
                    (Generator::Idle, Some(out))
                } else {
                    (
                        Generator::Fade {
                            current: nc,
                            step,
                            next_ms: sat_add_ms(next_ms, EVALUATE_PERIOD_MS),
                        },
                        Some(out),
                    )
                }
            } else {
                (Generator::Fade { current, step, next_ms }, None)
            }
        },
        Generator::Sequence { colors, index, next_ms, period_ms } => {
            if elapsed > next_ms {
                let ni = next_index(index, colors.len());
                let out = colors[ni].duplicate();
                (
                    Generator::Sequence {
                        colors,
                        index: ni,
                        next_ms: sat_add_ms(next_ms, period_ms),
                        period_ms,
                    },
                    Some(out),
                )
            } else {
                (Generator::Sequence { colors, index, next_ms, period_ms }, None)
            }
        },
        Generator::BlinkSequence { colors, index, phase_on, next_ms, time_on_ms, time_off_ms } => {
            if elapsed > next_ms {
                if phase_on {
                    let off = colors[index].get_off();
                    (
                        Generator::BlinkSequence {
                            colors,
                            index,
                            phase_on: false,
                            next_ms: sat_add_ms(next_ms, time_off_ms),
                            time_on_ms,
                            time_off_ms,
                        },
                        Some(off),
                    )
                } else {
                    let ni = next_index(index, colors.len());
                    let out = colors[ni].duplicate();
                    (
                        Generator::BlinkSequence {
                            colors,
                            index: ni,
                            phase_on: true,
                            next_ms: sat_add_ms(next_ms, time_on_ms),
                            time_on_ms,
                            time_off_ms,
                        },
                        Some(out),
                    )
                }
            } else {
                (
                    Generator::BlinkSequence {
                        colors,
                        index,
                        phase_on,
                        next_ms,
                        time_on_ms,
                        time_off_ms,
                    },
                    None,
                )
            }
        },
        Generator::FadeSequence { colors, index, current, step, next_ms, period_ms } => {
            if elapsed > next_ms {
                let nc = match current.sub_color(step) {
                    Ok(c) => c,
                    Err(_) => current,  // unreachable: the invariant gives equal shapes
                };
                let out = nc.as_dtype();
                proof {
                    lemma_quantize_ok(nc);
                }
                if all_off(&out) {
                    let ni = next_index(index, colors.len());
                    let emit = colors[ni].duplicate();
                    proof {
                        lemma_duty_valid(colors@[ni as int]);
                    }
                    let current2 = match emit.to_duty_cycle() {
                        Ok(d) => d,
                        Err(_) => nc,  // unreachable: the invariant excludes Hex
                    };
                    let step2 = fade_step(&current2, period_ms);
                    proof {
                        lemma_fade_step_valid(current2, period_ms);
                    }
                    (
                        Generator::FadeSequence {
                            colors,
                            index: ni,
                            current: current2,
                            step: step2,
                            next_ms: sat_add_ms(next_ms, EVALUATE_PERIOD_MS),
                            period_ms,
                        },
                        Some(emit),
                    )
                } else {
                    (
                        Generator::FadeSequence {
                            colors,
                            index,
                            current: nc,
                            step,
                            next_ms: sat_add_ms(next_ms, EVALUATE_PERIOD_MS),
                            period_ms,
                        },
                        Some(out),
                    )
                }
            } else {
                (Generator::FadeSequence { colors, index, current, step, next_ms, period_ms }, None)
            }
        },
    }
}

} // verus!
