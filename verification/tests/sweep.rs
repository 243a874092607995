use simple_vbap::binary64::Binary64;
use simple_vbap::destination::Destination;
use simple_vbap::destination::SampleFormat;
use simple_vbap::destination::WavSpec;
use simple_vbap::sweep::sweep_phase;
use simple_vbap::vbap_converter::PanningDirection;
use simple_vbap::sweep::SweepPhase;
use simple_vbap::sweep::SWEEP_BASE_DEGREES;
use simple_vbap::sweep::SWEEP_HALF_PERIOD;
use simple_vbap::sweep::SWEEP_PAN_DEGREES;
use simple_vbap::sweep::SWEEP_PERIOD;
use simple_vbap::gain::is_inside_span;
use simple_vbap::gain::Gain;
use simple_vbap::vbap_converter::VbapConverter;

fn sweep_degrees(phase: SweepPhase) -> f64 {
    let full = SWEEP_PAN_DEGREES as f64;
    let half = SWEEP_HALF_PERIOD as f64;
    match phase {
        SweepPhase::Approaching { elapsed } => full - full * (elapsed as f64 / half),
        SweepPhase::Receding { elapsed } => -full * (elapsed as f64 / half),
    }
}

fn sweeping(index: u32, _carried: Option<()>) -> PanningDirection<()> {
    PanningDirection {
        user_data: None,
        base_angle: Binary64::from_bits((SWEEP_BASE_DEGREES as f64).to_bits()),
        pan_angle: Binary64::from_bits(sweep_degrees(sweep_phase(index)).to_bits()),
    }
}

#[test]
fn sweep_constants() {
    assert_eq!(SWEEP_PERIOD, 80000);
    assert_eq!(SWEEP_HALF_PERIOD, 40000);
    assert_eq!(SWEEP_BASE_DEGREES, 30);
    assert_eq!(SWEEP_PAN_DEGREES, 25);
}

#[test]
fn sweep_phase_on_chosen_frames() {
    assert_eq!(sweep_phase(0), SweepPhase::Approaching { elapsed: 0 });
    assert_eq!(sweep_phase(1), SweepPhase::Approaching { elapsed: 1 });
    assert_eq!(sweep_phase(39999), SweepPhase::Approaching { elapsed: 39999 });
    assert_eq!(sweep_phase(40000), SweepPhase::Receding { elapsed: 0 });
    assert_eq!(sweep_phase(40001), SweepPhase::Receding { elapsed: 1 });
    assert_eq!(sweep_phase(79999), SweepPhase::Receding { elapsed: 39999 });
    assert_eq!(sweep_phase(80000), SweepPhase::Approaching { elapsed: 0 });
    assert_eq!(sweep_phase(120000), SweepPhase::Receding { elapsed: 0 });
    assert_eq!(sweep_phase(120001), SweepPhase::Receding { elapsed: 1 });
    assert_eq!(sweep_phase(u32::MAX), SweepPhase::Approaching { elapsed: 7295 });
    assert_eq!(sweep_phase(u32::MAX - 7295 - 1), SweepPhase::Receding { elapsed: 39999 });
}

#[test]
fn sweep_angles_on_chosen_frames() {
    assert_eq!(sweep_degrees(sweep_phase(0)), 25.0);
    assert_eq!(sweep_degrees(sweep_phase(20000)), 12.5);
    assert_eq!(sweep_degrees(sweep_phase(40000)), 0.0);
    assert_eq!(sweep_degrees(sweep_phase(60000)), -12.5);
    assert_eq!(sweep_degrees(sweep_phase(79999)), -25.0 * (39999.0 / 40000.0));
    assert_eq!(sweep_degrees(sweep_phase(80000)), 25.0);
}

#[test]
fn sweep_repeats_and_stays_inside_the_span() {
    let base = Binary64::from_bits(30f64.to_bits());
    for index in (0..200000u32).step_by(37) {
        assert_eq!(sweep_phase(index), sweep_phase(index + SWEEP_PERIOD));
        let angle = sweep_degrees(sweep_phase(index));
        assert!(-25.0 < angle && angle <= 25.0);
        assert!(is_inside_span(base, Binary64::from_bits(angle.to_bits())));
    }
}

#[test]
fn sweep_falls_by_one_step_a_frame() {
    let mut before = sweep_degrees(sweep_phase(0));
    for index in 1..80000u32 {
        let now = sweep_degrees(sweep_phase(index));
        assert!(now < before, "frame {}", index);
        before = now;
    }
}

#[test]
fn sweeping_provider_pans_a_source() {
    let spec =
        WavSpec { channels: 1, sample_rate: 44100, bits_per_sample: 16, sample_format: SampleFormat::Int };
    let converter = VbapConverter::new(spec, vec![1000; 40002]).unwrap();
    let law = |_: Binary64, pan_angle: Binary64| Gain { left: pan_angle, right: pan_angle.negate() };
    let mut destination = Destination::create(spec);
    let result = converter.pan_interactive(&mut destination, sweeping, law);
    assert_eq!(result, Ok(()));
    assert!(destination.finalized);
    assert_eq!(destination.samples.len(), 80004);
    assert_eq!(destination.samples[0].gain.to_bits(), 25f64.to_bits());
    assert_eq!(destination.samples[1].gain.to_bits(), (-25f64).to_bits());
    assert_eq!(destination.samples[40000].gain.to_bits(), 12.5f64.to_bits());
    // the centre is reached at frame 40000 and gets unity
    assert_eq!(destination.samples[80000].gain.to_bits(), 1f64.to_bits());
    assert_eq!(destination.samples[80001].gain.to_bits(), 1f64.to_bits());
    assert_eq!(destination.samples[80002].gain.to_bits(), (-25.0 * (1.0 / 40000.0f64)).to_bits());
}
