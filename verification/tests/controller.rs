use lights::controller::Controller;
use lights::controller::ControllerError;
use lights::controller::Generator;
use lights::controller::MemoryPin;
use lights::controller::PinControl;
use lights::controller::PinState;
use lights::controller::Request;
use lights::led::ColorError;
use lights::led::Dtype;
use lights::led::Led;
use lights::led::SCALE;

fn single_ctrl(reversed: bool) -> Controller<MemoryPin> {
    Controller::new(Led::Single(4), reversed).unwrap()
}

fn rgb_ctrl(reversed: bool) -> Controller<MemoryPin> {
    Controller::new(Led::Rgb(17, 27, 22), reversed).unwrap()
}

fn single_history(c: &Controller<MemoryPin>) -> Vec<PinState> {
    match &c.control {
        Led::Single(p) => p.history.clone(),
        Led::Rgb(_, _, _) => panic!("expected a single-channel controller"),
    }
}

fn rgb_histories(c: &Controller<MemoryPin>) -> (Vec<PinState>, Vec<PinState>, Vec<PinState>) {
    match &c.control {
        Led::Rgb(r, g, b) => (r.history.clone(), g.history.clone(), b.history.clone()),
        Led::Single(_) => panic!("expected a three-channel controller"),
    }
}

#[test]
fn end_to_end_static_percent() {
    let mut c = single_ctrl(false);
    match &c.control {
        Led::Single(p) => {
            assert_eq!(p.pin_number, 4);
            assert!(p.history.is_empty());
        }
        Led::Rgb(_, _, _) => panic!("expected a single-channel controller"),
    }
    assert_eq!(
        c.submit(Request::Static(Led::Single(Dtype::Percent(50))), 0),
        Ok(())
    );
    // The backend received the duty cycle exactly once.
    assert_eq!(single_history(&c), vec![PinState::Pwm(500_000)]);
    assert_eq!(c.queue, Generator::Idle);
    // Subsequent evaluations report no change, indefinitely.
    assert_eq!(c.evaluate(10), Ok(false));
    assert_eq!(c.evaluate(1_000), Ok(false));
    assert_eq!(c.evaluate(1_000_000), Ok(false));
    assert_eq!(single_history(&c), vec![PinState::Pwm(500_000)]);
}

#[test]
fn static_generator_never_reports_a_change() {
    let mut c = rgb_ctrl(false);
    c.submit(
        Request::Static(Led::Rgb(Dtype::On, Dtype::Percent(30), Dtype::Off)),
        5,
    )
    .unwrap();
    for t in 0..50u64 {
        assert_eq!(c.evaluate(t * 17), Ok(false));
    }
}

#[test]
fn evaluate_before_any_request_changes_nothing() {
    let mut c = single_ctrl(false);
    assert_eq!(c.evaluate(123), Ok(false));
    assert!(single_history(&c).is_empty());
}

#[test]
fn polarity_inversion_swaps_high_and_low() {
    let mut c = single_ctrl(true);
    c.submit(Request::Static(Led::Single(Dtype::On)), 0).unwrap();
    assert_eq!(single_history(&c), vec![PinState::Low]);
    c.submit(Request::Static(Led::Single(Dtype::Off)), 0).unwrap();
    assert_eq!(single_history(&c), vec![PinState::Low, PinState::High]);
}

#[test]
fn polarity_inversion_inverts_duty_cycles() {
    let mut c = single_ctrl(true);
    c.submit(Request::Static(Led::Single(Dtype::Percent(25))), 0)
        .unwrap();
    assert_eq!(single_history(&c), vec![PinState::Pwm(750_000)]);
}

#[test]
fn submit_replaces_the_generator_atomically() {
    let mut c = single_ctrl(false);
    c.submit(Request::Blink(Led::Single(Dtype::On), 10, 10), 0)
        .unwrap();
    c.submit(Request::Static(Led::Single(Dtype::Percent(20))), 0)
        .unwrap();
    // The fixture drives the second request's color ...
    assert_eq!(
        single_history(&c),
        vec![PinState::High, PinState::Pwm(200_000)]
    );
    assert_eq!(c.queue, Generator::Idle);
    // ... and nothing of the abandoned blink ever surfaces.
    for t in 0..20u64 {
        assert_eq!(c.evaluate(t * 100), Ok(false));
    }
    assert_eq!(
        single_history(&c),
        vec![PinState::High, PinState::Pwm(200_000)]
    );
}

#[test]
fn topology_mismatch_is_rejected_both_ways() {
    let mut single = single_ctrl(false);
    let mut rgb = rgb_ctrl(false);
    let one = Led::Single(Dtype::On);
    let three = Led::Rgb(Dtype::On, Dtype::On, Dtype::On);
    assert_eq!(
        single.submit(Request::Static(three.clone()), 0),
        Err(ControllerError::Color(ColorError::TopologyMismatch))
    );
    assert_eq!(
        rgb.submit(Request::Static(one.clone()), 0),
        Err(ControllerError::Color(ColorError::TopologyMismatch))
    );
    assert_eq!(
        single.submit(Request::Blink(three.clone(), 5, 5), 0),
        Err(ControllerError::Color(ColorError::TopologyMismatch))
    );
    assert_eq!(
        rgb.submit(Request::Fade(one.clone(), 100), 0),
        Err(ControllerError::Color(ColorError::TopologyMismatch))
    );
    assert_eq!(
        single.submit(Request::Sequence(vec![one.clone(), three.clone()], 10), 0),
        Err(ControllerError::Color(ColorError::TopologyMismatch))
    );
    // A rejected request drives nothing and leaves the controller idle.
    assert!(single_history(&single).is_empty());
    assert_eq!(single.queue, Generator::Idle);
    let (r, g, b) = rgb_histories(&rgb);
    assert!(r.is_empty() && g.is_empty() && b.is_empty());
}

#[test]
fn hex_colors_are_rejected_on_submission() {
    let mut c = single_ctrl(false);
    assert_eq!(
        c.submit(
            Request::Static(Led::Single(Dtype::Hex(String::from("ff00aa")))),
            0
        ),
        Err(ControllerError::Color(ColorError::UnsupportedFormat))
    );
    assert!(single_history(&c).is_empty());
    // The shape is checked before the color form.
    let mut rgb = rgb_ctrl(false);
    assert_eq!(
        rgb.submit(
            Request::Static(Led::Single(Dtype::Hex(String::from("ff00aa")))),
            0
        ),
        Err(ControllerError::Color(ColorError::TopologyMismatch))
    );
}

#[test]
fn blink_alternates_on_cumulative_thresholds() {
    let mut c = single_ctrl(false);
    c.submit(Request::Blink(Led::Single(Dtype::Percent(50)), 100, 50), 0)
        .unwrap();
    assert_eq!(single_history(&c), vec![PinState::Pwm(500_000)]);
    // Not yet past the first threshold (strictly greater fires).
    assert_eq!(c.evaluate(100), Ok(false));
    // Past 100 ms: the dark phase is driven.
    assert_eq!(c.evaluate(101), Ok(true));
    assert_eq!(
        single_history(&c),
        vec![PinState::Pwm(500_000), PinState::Low]
    );
    // Next threshold is cumulative: 100 + 50.
    assert_eq!(c.evaluate(140), Ok(false));
    assert_eq!(c.evaluate(151), Ok(true));
    assert_eq!(
        single_history(&c),
        vec![PinState::Pwm(500_000), PinState::Low, PinState::Pwm(500_000)]
    );
    // And then 100 + 50 + 100.
    assert_eq!(c.evaluate(251), Ok(true));
    assert_eq!(
        single_history(&c),
        vec![
            PinState::Pwm(500_000),
            PinState::Low,
            PinState::Pwm(500_000),
            PinState::Low
        ]
    );
}

#[test]
fn fade_steps_down_and_terminates_at_off() {
    let mut c = single_ctrl(false);
    c.submit(Request::Fade(Led::Single(Dtype::Cycle(SCALE)), 30), 0)
        .unwrap();
    assert_eq!(single_history(&c), vec![PinState::Pwm(SCALE)]);
    assert_eq!(c.evaluate(5), Ok(false));
    // One step per 10 ms period; 30 ms gives steps of 333333 units.
    assert_eq!(c.evaluate(11), Ok(true));
    assert_eq!(c.evaluate(21), Ok(true));
    // The third step lands within the quantization threshold of zero: the
    // fixture is driven digitally off and the fade ends.
    assert_eq!(c.evaluate(31), Ok(true));
    assert_eq!(c.queue, Generator::Idle);
    assert_eq!(c.evaluate(41), Ok(false));
    assert_eq!(
        single_history(&c),
        vec![
            PinState::Pwm(SCALE),
            PinState::Pwm(666_667),
            PinState::Pwm(333_334),
            PinState::Low
        ]
    );
}

#[test]
fn fade_shorter_than_a_period_drops_to_off_in_one_step() {
    let mut c = single_ctrl(false);
    c.submit(Request::Fade(Led::Single(Dtype::Percent(40)), 5), 0)
        .unwrap();
    assert_eq!(c.evaluate(11), Ok(true));
    assert_eq!(c.queue, Generator::Idle);
    assert_eq!(
        single_history(&c),
        vec![PinState::Pwm(400_000), PinState::Low]
    );
}

#[test]
fn sequence_cycles_through_its_colors() {
    let mut c = single_ctrl(false);
    let colors = vec![
        Led::Single(Dtype::Percent(10)),
        Led::Single(Dtype::Percent(20)),
    ];
    c.submit(Request::Sequence(colors, 100), 0).unwrap();
    assert_eq!(single_history(&c), vec![PinState::Pwm(100_000)]);
    assert_eq!(c.evaluate(99), Ok(false));
    assert_eq!(c.evaluate(101), Ok(true));
    assert_eq!(c.evaluate(150), Ok(false));
    assert_eq!(c.evaluate(201), Ok(true));
    assert_eq!(
        single_history(&c),
        vec![
            PinState::Pwm(100_000),
            PinState::Pwm(200_000),
            PinState::Pwm(100_000)
        ]
    );
}

#[test]
fn blink_sequence_shows_the_next_color_after_each_dark_phase() {
    let mut c = single_ctrl(false);
    let colors = vec![Led::Single(Dtype::On), Led::Single(Dtype::Percent(50))];
    c.submit(Request::BlinkSequence(colors, 100, 50), 0).unwrap();
    assert_eq!(single_history(&c), vec![PinState::High]);
    assert_eq!(c.evaluate(101), Ok(true));
    assert_eq!(c.evaluate(151), Ok(true));
    assert_eq!(c.evaluate(251), Ok(true));
    assert_eq!(c.evaluate(301), Ok(true));
    assert_eq!(
        single_history(&c),
        vec![
            PinState::High,
            PinState::Low,
            PinState::Pwm(500_000),
            PinState::Low,
            PinState::High
        ]
    );
}

#[test]
fn fade_sequence_restarts_on_the_next_color() {
    let mut c = single_ctrl(false);
    let colors = vec![
        Led::Single(Dtype::Cycle(SCALE)),
        Led::Single(Dtype::Percent(50)),
    ];
    c.submit(Request::FadeSequence(colors, 10), 0).unwrap();
    assert_eq!(single_history(&c), vec![PinState::Pwm(SCALE)]);
    // Ten milliseconds per color: each fade completes in a single step, and
    // the next color of the list is driven at full value.
    assert_eq!(c.evaluate(11), Ok(true));
    assert_eq!(c.evaluate(21), Ok(true));
    assert_eq!(c.evaluate(25), Ok(false));
    assert_eq!(
        single_history(&c),
        vec![
            PinState::Pwm(SCALE),
            PinState::Pwm(500_000),
            PinState::Pwm(SCALE)
        ]
    );
}

#[test]
fn off_request_drives_every_channel_low() {
    let mut c = rgb_ctrl(false);
    c.submit(Request::Off, 0).unwrap();
    let (r, g, b) = rgb_histories(&c);
    assert_eq!(r, vec![PinState::Low]);
    assert_eq!(g, vec![PinState::Low]);
    assert_eq!(b, vec![PinState::Low]);
    assert_eq!(c.queue, Generator::Idle);
    assert_eq!(c.evaluate(1000), Ok(false));
}

#[test]
fn empty_sequence_schedules_nothing() {
    let mut c = single_ctrl(false);
    assert_eq!(c.submit(Request::Sequence(vec![], 10), 0), Ok(()));
    assert!(single_history(&c).is_empty());
    assert_eq!(c.queue, Generator::Idle);
    assert_eq!(c.evaluate(100), Ok(false));
}

#[test]
fn rgb_channels_are_driven_in_order() {
    let mut c = rgb_ctrl(false);
    c.submit(
        Request::Static(Led::Rgb(Dtype::On, Dtype::Percent(30), Dtype::Off)),
        0,
    )
    .unwrap();
    let (r, g, b) = rgb_histories(&c);
    assert_eq!(r, vec![PinState::High]);
    assert_eq!(g, vec![PinState::Pwm(300_000)]);
    assert_eq!(b, vec![PinState::Low]);
}

#[test]
fn submit_rebaselines_the_clock() {
    let mut c = single_ctrl(false);
    c.submit(Request::Blink(Led::Single(Dtype::On), 100, 100), 500)
        .unwrap();
    assert_eq!(c.stamp, 500);
    // 550 is only 50 ms after the submission: no threshold fired yet.
    assert_eq!(c.evaluate(550), Ok(false));
    assert_eq!(c.evaluate(601), Ok(true));
}

struct FailingPin;

impl PinControl for FailingPin {
    type Error = u8;

    fn new(_pin_number: u8) -> Result<Self, u8> {
        Ok(FailingPin)
    }

    fn set_high(&mut self) -> Result<(), u8> {
        Err(1)
    }

    fn set_low(&mut self) -> Result<(), u8> {
        Err(2)
    }

    fn set_pwm(&mut self, _duty_cycle: u64) -> Result<(), u8> {
        Err(3)
    }
}

#[test]
fn hardware_errors_propagate_unchanged() {
    let mut c: Controller<FailingPin> = Controller::new(Led::Single(4), false).unwrap();
    assert_eq!(
        c.submit(Request::Static(Led::Single(Dtype::On)), 0),
        Err(ControllerError::Hardware(1))
    );
    assert_eq!(
        c.submit(Request::Static(Led::Single(Dtype::Off)), 0),
        Err(ControllerError::Hardware(2))
    );
    assert_eq!(
        c.submit(Request::Static(Led::Single(Dtype::Percent(10))), 0),
        Err(ControllerError::Hardware(3))
    );
    // A failed submission leaves the previous (idle) generator in place.
    assert_eq!(c.queue, Generator::Idle);
}

#[test]
fn set_dispatches_onto_the_three_primitives() {
    let mut p = MemoryPin::new(1).unwrap();
    p.set(PinState::High).unwrap();
    p.set(PinState::Low).unwrap();
    p.set(PinState::Pwm(123)).unwrap();
    assert_eq!(
        p.history,
        vec![PinState::High, PinState::Low, PinState::Pwm(123)]
    );
}

#[test]
fn memory_pin_records_its_number() {
    let p = MemoryPin::new(7).unwrap();
    assert_eq!(p.pin_number, 7);
    assert!(p.history.is_empty());
}
