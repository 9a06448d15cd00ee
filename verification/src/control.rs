//! Control-loop decision step.
//!
//! One loop iteration, with the hardware taken out: the caller samples the
//! analog peripheral and snapshots the event counters, hands the three plain
//! values in, and gets back exactly what the iteration decided — the new
//! actuator level, if any, and the complete bus traffic to issue, possibly
//! none. The fixed bus-traffic-minimization policy is part of the contract:
//! the sample lines and the counter lines are refreshed independently, and
//! only when their inputs meaningfully changed.

use vstd::prelude::*;

use crate::actuator;
use crate::bus;
use crate::bus::BusStep;
use crate::digits;
use crate::display;

verus! {

/// Minimum absolute sample delta that counts as a significant change.
pub const CHANGE_THRESHOLD: u16 = 2;

/// Full-scale reading in whole units ("volts") times its thousandths.
pub const FULL_SCALE_THOUSANDTHS: u32 = 5000;

/// Display page of the raw-sample line.
pub const SAMPLE_PAGE: u8 = 2;

/// Display page of the derived-units line.
pub const VOLTS_PAGE: u8 = 3;

/// Display page of the timer-counter line.
pub const TIMER_PAGE: u8 = 0;

/// Display page of the external-counter line.
pub const EXTERNAL_PAGE: u8 = 1;

/// Label of the raw-sample line: `"ADC: "`.
pub open spec fn spec_sample_label() -> Seq<u8> {
    seq![0x41u8, 0x44, 0x43, 0x3A, 0x20]
}

/// Label of the derived-units line: `"V: "`.
pub open spec fn spec_volts_label() -> Seq<u8> {
    seq![0x56u8, 0x3A, 0x20]
}

/// Label of the timer-counter line: `"Timer: "`.
pub open spec fn spec_timer_label() -> Seq<u8> {
    seq![0x54u8, 0x69, 0x6D, 0x65, 0x72, 0x3A, 0x20]
}

/// Label of the external-counter line: `"Ext Int: "`.
pub open spec fn spec_external_label() -> Seq<u8> {
    seq![0x45u8, 0x78, 0x74, 0x20, 0x49, 0x6E, 0x74, 0x3A, 0x20]
}

/// Absolute difference of two samples.
pub open spec fn spec_abs_diff(a: u16, b: u16) -> int {
    if a >= b {
        a - b
    } else {
        b - a
    }
}

/// A sample is accepted only when it differs from the last accepted one by
/// more than the noise threshold.
pub open spec fn spec_sample_accepted(sample: u16, last: u16) -> bool {
    spec_abs_diff(sample, last) > CHANGE_THRESHOLD
}

/// Thousandths of a unit represented by `sample`:
/// `sample * 5000 / 1023`.
pub open spec fn spec_millivolts(sample: u16) -> int {
    sample * FULL_SCALE_THOUSANDTHS / 1023
}

/// The derived value never exceeds the full scale.
pub proof fn lemma_millivolts_fits(sample: u16)
    requires
        sample <= actuator::MAX_SAMPLE,
    ensures
        0 <= spec_millivolts(sample) <= 5000,
{
    vstd::arithmetic::mul::lemma_mul_inequality(sample as int, 1023, 5000);
    vstd::arithmetic::div_mod::lemma_div_is_ordered(sample * 5000, 5115000int, 1023);
    vstd::arithmetic::div_mod::lemma_div_pos_is_pos(sample * 5000, 1023);
    vstd::arithmetic::mul::lemma_mul_nonnegative(sample as int, 5000);
}

/// Bus traffic of a sample refresh: reposition and rewrite the raw-sample
/// line, then reposition and rewrite the derived-units line, the fractional
/// part rendered as exactly three digits by zero-padding transactions.
pub open spec fn spec_sample_refresh_plan(sample: u16) -> Seq<BusStep> {
    let mv = spec_millivolts(sample);
    let whole = mv / 1000;
    let frac = mv % 1000;
    display::spec_position_plan(0, SAMPLE_PAGE) + display::spec_data_plan(spec_sample_label())
        + display::spec_number_plan(sample as nat) + display::spec_position_plan(0, VOLTS_PAGE)
        + display::spec_data_plan(spec_volts_label()) + display::spec_number_plan(whole as nat)
        + display::spec_data_plan(seq![0x2Eu8]) + (if frac < 100 {
        display::spec_data_plan(seq![0x30u8])
    } else {
        Seq::<BusStep>::empty()
    }) + (if frac < 10 {
        display::spec_data_plan(seq![0x30u8])
    } else {
        Seq::<BusStep>::empty()
    }) + display::spec_number_plan(frac as nat)
}

/// Bus traffic of a counter refresh: reposition and rewrite the timer line,
/// then reposition and rewrite the external-counter line.
pub open spec fn spec_counter_refresh_plan(timer_count: u32, external_count: u16) -> Seq<BusStep> {
    display::spec_position_plan(0, TIMER_PAGE) + display::spec_data_plan(spec_timer_label())
        + display::spec_number_plan(timer_count as nat) + display::spec_position_plan(
        0,
        EXTERNAL_PAGE,
    ) + display::spec_data_plan(spec_external_label()) + display::spec_number_plan(
        external_count as nat,
    )
}

/// The values a loop iteration compares its inputs against.
pub struct LoopState {
    /// Last accepted sample; drives change detection only.
    pub last_sample: u16,
    /// Timer count as last drawn on the display.
    pub last_timer_count: u32,
    /// External count as last drawn on the display.
    pub last_external_count: u16,
}

impl LoopState {
    /// The state is meaningful only while the remembered sample is within
    /// the sensor's resolution.
    pub open spec fn wf(self) -> bool {
        self.last_sample <= actuator::MAX_SAMPLE
    }

    /// Startup state: nothing accepted, nothing drawn.
    pub fn new() -> (r: LoopState)
        ensures
            r.last_sample == 0,
            r.last_timer_count == 0,
            r.last_external_count == 0,
            r.wf(),
    {
        LoopState { last_sample: 0, last_timer_count: 0, last_external_count: 0 }
    }
}

/// Everything one loop iteration decided: the actuator level to program, if
/// the sample was accepted, and the bus traffic to issue, in order.
pub struct StepActions {
    /// `Some` exactly when a significant sample change was accepted.
    pub actuator_level: Option<u8>,
    /// The complete planned bus traffic of this iteration.
    pub bus_steps: Vec<BusStep>,
}

/// One control-loop iteration over plain sampled values.
///
/// A sample within the noise threshold of the last accepted one leaves the
/// actuator, the sample lines and the remembered sample untouched; an
/// accepted one reprograms the actuator by linear scaling and rewrites both
/// sample lines. Independently, a counter snapshot that differs from the
/// last drawn pair rewrites both counter lines. All traffic consists of
/// whole, correctly addressed transactions.
pub fn step(state: &mut LoopState, sample: u16, timer_count: u32, external_count: u16) -> (out:
    StepActions)
    requires
        sample <= actuator::MAX_SAMPLE,
        old(state).wf(),
    ensures
        final(state).wf(),
        out.actuator_level == (if spec_sample_accepted(sample, old(state).last_sample) {
            Some(actuator::spec_level(sample) as u8)
        } else {
            None::<u8>
        }),
        final(state).last_sample == (if spec_sample_accepted(sample, old(state).last_sample) {
            sample
        } else {
            old(state).last_sample
        }),
        final(state).last_timer_count == timer_count,
        final(state).last_external_count == external_count,
        out.bus_steps@ == (if spec_sample_accepted(sample, old(state).last_sample) {
            spec_sample_refresh_plan(sample)
        } else {
            Seq::<BusStep>::empty()
        }) + (if timer_count != old(state).last_timer_count || external_count != old(
            state,
        ).last_external_count {
            spec_counter_refresh_plan(timer_count, external_count)
        } else {
            Seq::<BusStep>::empty()
        }),
        bus::well_framed(out.bus_steps@),
{
    let mut bus_steps: Vec<BusStep> = Vec::new();
    let diff: u16 = if sample > state.last_sample {
        sample - state.last_sample
    } else {
        state.last_sample - sample
    };
    let mut actuator_level: Option<u8> = None;
    if diff > CHANGE_THRESHOLD {
        actuator_level = Some(actuator::scale_level(sample));

        let mut part = display::set_position_plan(0, SAMPLE_PAGE);
        bus_steps.append(&mut part);
        let mut part = display::write_bytes_plan(&sample_label());
        bus_steps.append(&mut part);
        let mut part = display::write_number_plan(sample as u32);
        bus_steps.append(&mut part);

        proof {
            lemma_millivolts_fits(sample);
        }
        let mv: u32 = (sample as u32) * FULL_SCALE_THOUSANDTHS / 1023;
        let whole: u32 = mv / 1000;
        let frac: u32 = mv % 1000;

        let mut part = display::set_position_plan(0, VOLTS_PAGE);
        bus_steps.append(&mut part);
        let mut part = display::write_bytes_plan(&volts_label());
        bus_steps.append(&mut part);
        let mut part = display::write_number_plan(whole);
        bus_steps.append(&mut part);
        let mut part = display::write_bytes_plan(&dot_label());
        bus_steps.append(&mut part);
        if frac < 100 {
            let mut part = display::write_bytes_plan(&zero_label());
            bus_steps.append(&mut part);
        }
        if frac < 10 {
            let mut part = display::write_bytes_plan(&zero_label());
            bus_steps.append(&mut part);
        }
        let mut part = display::write_number_plan(frac);
        bus_steps.append(&mut part);

        state.last_sample = sample;
        proof {
            assert(bus_steps@ =~= spec_sample_refresh_plan(sample));
        }
    }
    let ghost sample_part = bus_steps@;

    if timer_count != state.last_timer_count || external_count != state.last_external_count {
        let mut part = display::set_position_plan(0, TIMER_PAGE);
        bus_steps.append(&mut part);
        let mut part = display::write_bytes_plan(&timer_label());
        bus_steps.append(&mut part);
        let mut part = display::write_number_plan(timer_count);
        bus_steps.append(&mut part);
        let mut part = display::set_position_plan(0, EXTERNAL_PAGE);
        bus_steps.append(&mut part);
        let mut part = display::write_bytes_plan(&external_label());
        bus_steps.append(&mut part);
        let mut part = display::write_number_plan(external_count as u32);
        bus_steps.append(&mut part);
        proof {
            assert(bus_steps@ =~= sample_part + spec_counter_refresh_plan(
                timer_count,
                external_count,
            ));
        }
    } else {
        proof {
            assert(bus_steps@ =~= sample_part + Seq::<BusStep>::empty());
        }
    }
    state.last_timer_count = timer_count;
    state.last_external_count = external_count;

    proof {
        lemma_plans_well_framed(sample, timer_count, external_count);
    }
    StepActions { actuator_level, bus_steps }
}

/// Both refresh plans consist of whole, correctly addressed transactions,
/// and so does any iteration's combined traffic.
pub proof fn lemma_plans_well_framed(sample: u16, timer_count: u32, external_count: u16)
    ensures
        bus::well_framed(spec_sample_refresh_plan(sample)),
        bus::well_framed(spec_counter_refresh_plan(timer_count, external_count)),
        bus::well_framed(
            spec_sample_refresh_plan(sample) + spec_counter_refresh_plan(
                timer_count,
                external_count,
            ),
        ),
{
    let mv = spec_millivolts(sample);
    let frac = mv % 1000;

    bus::lemma_frame_addressed(display::spec_position_payload(0, SAMPLE_PAGE));
    bus::lemma_frame_addressed(seq![display::DATA_PREFIX] + spec_sample_label());
    bus::lemma_frame_addressed(
        seq![display::DATA_PREFIX] + digits::spec_decimal(sample as nat),
    );
    bus::lemma_frame_addressed(display::spec_position_payload(0, VOLTS_PAGE));
    bus::lemma_frame_addressed(seq![display::DATA_PREFIX] + spec_volts_label());
    bus::lemma_frame_addressed(
        seq![display::DATA_PREFIX] + digits::spec_decimal((mv / 1000) as nat),
    );
    bus::lemma_frame_addressed(seq![display::DATA_PREFIX] + seq![0x2Eu8]);
    bus::lemma_frame_addressed(seq![display::DATA_PREFIX] + seq![0x30u8]);
    bus::lemma_frame_addressed(seq![display::DATA_PREFIX] + digits::spec_decimal(frac as nat));

    let p1 = display::spec_position_plan(0, SAMPLE_PAGE);
    let p2 = display::spec_data_plan(spec_sample_label());
    let p3 = display::spec_number_plan(sample as nat);
    let p4 = display::spec_position_plan(0, VOLTS_PAGE);
    let p5 = display::spec_data_plan(spec_volts_label());
    let p6 = display::spec_number_plan((mv / 1000) as nat);
    let p7 = display::spec_data_plan(seq![0x2Eu8]);
    let p8 = if frac < 100 {
        display::spec_data_plan(seq![0x30u8])
    } else {
        Seq::<BusStep>::empty()
    };
    let p9 = if frac < 10 {
        display::spec_data_plan(seq![0x30u8])
    } else {
        Seq::<BusStep>::empty()
    };
    let p10 = display::spec_number_plan(frac as nat);
    assert(bus::well_framed(Seq::<BusStep>::empty()));
    bus::lemma_well_framed_concat(p1, p2);
    bus::lemma_well_framed_concat(p1 + p2, p3);
    bus::lemma_well_framed_concat(p1 + p2 + p3, p4);
    bus::lemma_well_framed_concat(p1 + p2 + p3 + p4, p5);
    bus::lemma_well_framed_concat(p1 + p2 + p3 + p4 + p5, p6);
    bus::lemma_well_framed_concat(p1 + p2 + p3 + p4 + p5 + p6, p7);
    bus::lemma_well_framed_concat(p1 + p2 + p3 + p4 + p5 + p6 + p7, p8);
    bus::lemma_well_framed_concat(p1 + p2 + p3 + p4 + p5 + p6 + p7 + p8, p9);
    bus::lemma_well_framed_concat(p1 + p2 + p3 + p4 + p5 + p6 + p7 + p8 + p9, p10);

    bus::lemma_frame_addressed(display::spec_position_payload(0, TIMER_PAGE));
    bus::lemma_frame_addressed(seq![display::DATA_PREFIX] + spec_timer_label());
    bus::lemma_frame_addressed(
        seq![display::DATA_PREFIX] + digits::spec_decimal(timer_count as nat),
    );
    bus::lemma_frame_addressed(display::spec_position_payload(0, EXTERNAL_PAGE));
    bus::lemma_frame_addressed(seq![display::DATA_PREFIX] + spec_external_label());
    bus::lemma_frame_addressed(
        seq![display::DATA_PREFIX] + digits::spec_decimal(external_count as nat),
    );

    let q1 = display::spec_position_plan(0, TIMER_PAGE);
    let q2 = display::spec_data_plan(spec_timer_label());
    let q3 = display::spec_number_plan(timer_count as nat);
    let q4 = display::spec_position_plan(0, EXTERNAL_PAGE);
    let q5 = display::spec_data_plan(spec_external_label());
    let q6 = display::spec_number_plan(external_count as nat);
    bus::lemma_well_framed_concat(q1, q2);
    bus::lemma_well_framed_concat(q1 + q2, q3);
    bus::lemma_well_framed_concat(q1 + q2 + q3, q4);
    bus::lemma_well_framed_concat(q1 + q2 + q3 + q4, q5);
    bus::lemma_well_framed_concat(q1 + q2 + q3 + q4 + q5, q6);

    bus::lemma_well_framed_concat(
        spec_sample_refresh_plan(sample),
        spec_counter_refresh_plan(timer_count, external_count),
    );
}

/// `"ADC: "` as bytes.
fn sample_label() -> (r: Vec<u8>)
    ensures
        r@ == spec_sample_label(),
{
    let mut r: Vec<u8> = Vec::new();
    r.push(0x41);
    r.push(0x44);
    r.push(0x43);
    r.push(0x3A);
    r.push(0x20);
    proof {
        assert(r@ =~= spec_sample_label());
    }
    r
}

/// `"V: "` as bytes.
fn volts_label() -> (r: Vec<u8>)
    ensures
        r@ == spec_volts_label(),
{
    let mut r: Vec<u8> = Vec::new();
    r.push(0x56);
    r.push(0x3A);
    r.push(0x20);
    proof {
        assert(r@ =~= spec_volts_label());
    }
    r
}

/// `"."` as bytes.
fn dot_label() -> (r: Vec<u8>)
    ensures
        r@ == seq![0x2Eu8],
{
    let mut r: Vec<u8> = Vec::new();
    r.push(0x2E);
    proof {
        assert(r@ =~= seq![0x2Eu8]);
    }
    r
}

/// `"0"` as bytes.
fn zero_label() -> (r: Vec<u8>)
    ensures
        r@ == seq![0x30u8],
{
    let mut r: Vec<u8> = Vec::new();
    r.push(0x30);
    proof {
        assert(r@ =~= seq![0x30u8]);
    }
    r
}

/// `"Timer: "` as bytes.
fn timer_label() -> (r: Vec<u8>)
    ensures
        r@ == spec_timer_label(),
{
    let mut r: Vec<u8> = Vec::new();
    r.push(0x54);
    r.push(0x69);
    r.push(0x6D);
    r.push(0x65);
    r.push(0x72);
    r.push(0x3A);
    r.push(0x20);
    proof {
        assert(r@ =~= spec_timer_label());
    }
    r
}

/// `"Ext Int: "` as bytes.
fn external_label() -> (r: Vec<u8>)
    ensures
        r@ == spec_external_label(),
{
    let mut r: Vec<u8> = Vec::new();
    r.push(0x45);
    r.push(0x78);
    r.push(0x74);
    r.push(0x20);
    r.push(0x49);
    r.push(0x6E);
    r.push(0x74);
    r.push(0x3A);
    r.push(0x20);
    proof {
        assert(r@ =~= spec_external_label());
    }
    r
}

} // verus!
