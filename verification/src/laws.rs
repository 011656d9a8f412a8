//! The scheduling engine's global guarantees, stated and proved once, over
//! the same model functions the executable contracts use.

use vstd::prelude::*;

use crate::controller::Generator;
use crate::controller::Request;
use crate::controller::check_color_spec;
use crate::controller::gen_of;
use crate::controller::led_shape;
use crate::controller::spec_validate;
use crate::controller::step_gen;
use crate::controller::submit_effect;
use crate::led::ColorError;
use crate::led::Dtype;
use crate::led::Led;

verus! {

/// The outputs a generator produces over a whole run: stepped against each
/// elapsed time of `ticks` in order, collecting every step's output.
pub open spec fn run_outputs(g: Generator, ticks: Seq<u64>) -> Seq<Option<Led<Dtype>>>
    decreases ticks.len(),
{
    if ticks.len() == 0 {
        Seq::empty()
    } else {
        let s = step_gen(g, ticks[0]);
        seq![s.1] + run_outputs(s.0, ticks.drop_first())
    }
}

/// A run produces exactly one output entry (possibly "no change") per tick.
pub proof fn lemma_run_outputs_len(g: Generator, ticks: Seq<u64>)
    ensures
        run_outputs(g, ticks).len() == ticks.len(),
    decreases ticks.len(),
{
    if ticks.len() > 0 {
        lemma_run_outputs_len(step_gen(g, ticks[0]).0, ticks.drop_first());
    }
}

/// Submission is atomic with respect to generator replacement: the
/// scheduling state it leaves — and with it the output of every later
/// evaluation, at whatever times the caller polls — depends on the submitted
/// request alone. No residue of the replaced generator (`q1` vs. `q2`, with
/// timestamps `s1` vs. `s2`) survives.
pub proof fn lemma_submit_replaces_generator(
    q1: Generator,
    s1: u64,
    q2: Generator,
    s2: u64,
    request: Request,
    now_ms: u64,
    ticks: Seq<u64>,
)
    ensures
        submit_effect(q1, s1, request, now_ms) == submit_effect(q2, s2, request, now_ms),
        run_outputs(submit_effect(q1, s1, request, now_ms).0, ticks) == run_outputs(
            submit_effect(q2, s2, request, now_ms).0,
            ticks,
        ),
{
}

/// A topology mismatch is a hard error, never a silent default: a color of
/// the wrong shape for the fixture is rejected as `TopologyMismatch`
/// whatever its channels hold, in either direction (a three-channel color on
/// a single-channel fixture or the reverse), and every request that carries
/// such a color is rejected before anything is driven — a sequence checks
/// its colors in list order by the same rule. The elementwise algebra states
/// the same of its own operands, in the `ensures` of `add_color`,
/// `sub_color`, `mul_color` and `div_color`.
pub proof fn lemma_mismatch_is_hard_error(
    c: Led<Dtype>,
    single: bool,
    time_on_ms: u64,
    time_off_ms: u64,
    duration_ms: u64,
)
    requires
        !led_shape(c, single),
    ensures
        check_color_spec(c, single) == Some(ColorError::TopologyMismatch),
        spec_validate(Request::Static(c), single) == Some(ColorError::TopologyMismatch),
        spec_validate(Request::Blink(c, time_on_ms, time_off_ms), single) == Some(
            ColorError::TopologyMismatch,
        ),
        spec_validate(Request::Fade(c, duration_ms), single) == Some(
            ColorError::TopologyMismatch,
        ),
{
}

/// The idle generator stays idle and never reports an output, however many
/// times and at whatever times it is evaluated.
pub proof fn lemma_idle_never_changes(ticks: Seq<u64>)
    ensures
        forall|i: int|
            0 <= i < ticks.len() ==> #[trigger] run_outputs(Generator::Idle, ticks)[i] is None,
    decreases ticks.len(),
{
    if ticks.len() > 0 {
        lemma_idle_never_changes(ticks.drop_first());
        lemma_run_outputs_len(Generator::Idle, ticks.drop_first());
        assert(step_gen(Generator::Idle, ticks[0]).0 == Generator::Idle);
        assert(run_outputs(Generator::Idle, ticks) == seq![
            step_gen(Generator::Idle, ticks[0]).1,
        ] + run_outputs(Generator::Idle, ticks.drop_first()));
        assert forall|i: int|
            0 <= i < ticks.len() implies #[trigger] run_outputs(Generator::Idle, ticks)[i]
            is None by {
            if i > 0 {
                assert(run_outputs(Generator::Idle, ticks)[i] == run_outputs(
                    Generator::Idle,
                    ticks.drop_first(),
                )[i - 1]);
            }
        }
    }
}

/// A static request never reports a change after its initial drive: it
/// installs the idle generator, and every later evaluation yields no output.
pub proof fn lemma_static_never_changes(color: Led<Dtype>, ticks: Seq<u64>)
    ensures
        gen_of(Request::Static(color)) == Generator::Idle,
        forall|i: int|
            0 <= i < ticks.len() ==> #[trigger] run_outputs(
                gen_of(Request::Static(color)),
                ticks,
            )[i] is None,
{
    lemma_idle_never_changes(ticks);
}

} // verus!
