use reznez::apu::dmc::{Dmc, DmcEnableAction, SampleFetchOutcome};
use reznez::apu::envelope::{DecayLevelCounter, Divider, Envelope};
use reznez::apu::frequency_timer::FrequencyTimer;
use reznez::apu::length_counter::{length_for_index, LengthCounter};
use reznez::apu::mixer::{ChannelVolumes, Mixer};
use reznez::apu::noise_channel::{LinearFeedbackShiftRegister, NoiseChannel};
use reznez::apu::pulse_channel::{Duty, PulseChannel, Sequencer};
use reznez::apu::sweep::{NegateBehavior, Sweep};
use reznez::apu::triangle_channel::TriangleChannel;

#[test]
fn envelope_starts_at_full_volume_and_decays() {
    let mut envelope = Envelope::new();
    assert_eq!(envelope.volume(), 0);
    envelope.set_control(false, 0);
    envelope.start();
    envelope.step();
    assert_eq!(envelope.volume(), 15);
    envelope.step();
    assert_eq!(envelope.volume(), 14);
    envelope.step();
    assert_eq!(envelope.volume(), 13);
}

#[test]
fn envelope_constant_volume_is_the_parameter() {
    let mut envelope = Envelope::new();
    envelope.set_control(true, 9);
    assert_eq!(envelope.volume(), 9);
    envelope.start();
    envelope.step();
    assert_eq!(envelope.volume(), 9);
}

#[test]
fn divider_reloads_when_already_zero_and_then_holds() {
    let mut divider = Divider::new();
    divider.set_reload_value(3);
    assert_eq!(divider.reload_value(), 3);
    assert!(divider.step());
    // The decrement subtracts a zero constant, so the count stays at the reload value.
    assert!(!divider.step());
    assert!(!divider.step());
}

#[test]
fn envelope_with_nonzero_period_holds_full_volume() {
    let mut envelope = Envelope::new();
    envelope.set_control(false, 2);
    envelope.start();
    envelope.step();
    assert_eq!(envelope.volume(), 15);
    envelope.step();
    envelope.step();
    assert_eq!(envelope.volume(), 15);
}

#[test]
fn decay_level_counter_counts_down_to_zero_and_stays() {
    let mut counter = DecayLevelCounter::new();
    assert_eq!(counter.volume(), 0);
    counter.step();
    assert_eq!(counter.volume(), 0);
    counter.reload();
    assert_eq!(counter.volume(), 15);
    for _ in 0..15 {
        counter.step();
    }
    assert_eq!(counter.volume(), 0);
    counter.step();
    assert_eq!(counter.volume(), 0);
}

#[test]
fn length_table_lookup() {
    assert_eq!(length_for_index(0), 10);
    assert_eq!(length_for_index(1), 254);
    assert_eq!(length_for_index(24), 192);
    assert_eq!(length_for_index(31), 30);
}

#[test]
fn length_counter_counts_down_unless_halted() {
    let mut counter = LengthCounter::new();
    assert!(counter.is_zero());
    counter.start_reload(1);
    assert!(!counter.is_zero());
    counter.decrement();
    counter.decrement();
    assert!(!counter.is_zero());
    counter.start_halt(true);
    counter.decrement();
    counter.decrement();
    assert!(!counter.is_zero());
    counter.set_to_zero();
    assert!(counter.is_zero());
}

#[test]
fn frequency_timer_wraps_after_period_ticks() {
    let mut timer = FrequencyTimer::new();
    timer.set_period_and_reset_index(2);
    assert!(!timer.tick());
    assert!(!timer.tick());
    assert!(timer.tick());
    assert!(!timer.tick());
}

#[test]
fn frequency_timer_period_from_high_and_low() {
    let mut timer = FrequencyTimer::new();
    timer.set_period_high(5);
    timer.set_period_low(0x34);
    assert_eq!(timer.period(), 0x534);
}

#[test]
fn shift_register_steps() {
    let mut register = LinearFeedbackShiftRegister::new();
    assert!(register.low_bit());
    register.step(1);
    assert!(!register.low_bit());
    for _ in 0..14 {
        register.step(1);
    }
    // Bit 14 fed back from the first step has reached bit 0.
    assert!(register.low_bit());
}

#[test]
fn shift_register_never_gets_stuck_at_zero() {
    let mut register = LinearFeedbackShiftRegister::new();
    let mut saw_set_bit = false;
    for _ in 0..1000 {
        register.step(6);
        saw_set_bit = saw_set_bit || register.low_bit();
    }
    assert!(saw_set_bit);
}

#[test]
fn noise_channel_plays_its_envelope() {
    let mut noise = NoiseChannel::new();
    assert_eq!(noise.sample_volume(), 0);
    noise.set_enabled(true);
    noise.set_control(0x1F);
    noise.set_length(0x08);
    assert!(noise.active());
    assert_eq!(noise.sample_volume(), 15);
    noise.set_enabled(false);
    assert!(!noise.active());
    assert_eq!(noise.sample_volume(), 0);
}

#[test]
fn noise_channel_ignores_length_while_disabled() {
    let mut noise = NoiseChannel::new();
    noise.set_length(0x08);
    assert!(!noise.active());
}

#[test]
fn noise_channel_timer_steps_the_shift_register() {
    let mut noise = NoiseChannel::new();
    noise.set_enabled(true);
    noise.set_control(0x1F);
    noise.set_length(0x08);
    // Period index 0 selects a period of 4.
    noise.set_loop_and_period(0x00);
    for _ in 0..4 {
        noise.tick_put();
    }
    assert_eq!(noise.sample_volume(), 15);
    noise.tick_put();
    // The shift register has stepped once: bit 0 is now clear.
    assert_eq!(noise.sample_volume(), 0);
}

#[test]
fn triangle_channel_sequence() {
    let mut triangle = TriangleChannel::new();
    triangle.set_enabled(true);
    triangle.set_control_and_linear(0x81);
    triangle.set_timer_low(0x02);
    triangle.set_length_and_timer_high(0x08);
    assert!(triangle.active());
    assert_eq!(triangle.sample_volume(), 0);
    triangle.decrement_linear_counter();
    assert_eq!(triangle.sample_volume(), 15);
    triangle.tick();
    assert_eq!(triangle.sample_volume(), 14);
    triangle.tick();
    triangle.tick();
    assert_eq!(triangle.sample_volume(), 14);
    triangle.tick();
    assert_eq!(triangle.sample_volume(), 13);
}

#[test]
fn triangle_linear_counter_counts_down_without_control() {
    let mut triangle = TriangleChannel::new();
    triangle.set_enabled(true);
    triangle.set_control_and_linear(0x02);
    triangle.set_length_and_timer_high(0x08);
    triangle.decrement_linear_counter();
    assert_eq!(triangle.sample_volume(), 15);
    triangle.decrement_linear_counter();
    assert_eq!(triangle.sample_volume(), 15);
    triangle.decrement_linear_counter();
    assert_eq!(triangle.sample_volume(), 0);
}

#[test]
fn sequencer_duty_waveforms() {
    let mut sequencer = Sequencer::new();
    sequencer.set_duty(Duty::High);
    assert!(!sequencer.on_duty());
    sequencer.step();
    assert!(sequencer.on_duty());
    for _ in 0..7 {
        sequencer.step();
    }
    assert!(!sequencer.on_duty());
    assert_eq!(Duty::Negated.waveform(), 0b1001_1111);
    assert_eq!(Duty::from_u8(1), Duty::Medium);
}

#[test]
fn sweep_target_period_by_negate_behavior() {
    let mut first = Sweep::new(NegateBehavior::OnesComplement);
    first.set(true, 0, true, 1);
    first.set_current_period_low(100);
    assert_eq!(first.target_period(), 49);
    assert!(!first.muting());

    let mut second = Sweep::new(NegateBehavior::TwosComplement);
    second.set(true, 0, true, 1);
    second.set_current_period_low(100);
    assert_eq!(second.target_period(), 50);

    let mut up = Sweep::new(NegateBehavior::TwosComplement);
    up.set(true, 0, false, 1);
    up.set_current_period_low(100);
    assert_eq!(up.target_period(), 150);
}

#[test]
fn sweep_mutes_low_and_overflowing_periods() {
    let mut sweep = Sweep::new(NegateBehavior::TwosComplement);
    sweep.set_current_period_low(7);
    assert!(sweep.muting());
    sweep.set_current_period_high_and_reset_index(7);
    sweep.set_current_period_low(0xFF);
    // 0x7FF plus itself is beyond 0x7FF.
    assert!(sweep.muting());
}

#[test]
fn sweep_moves_the_period() {
    let mut sweep = Sweep::new(NegateBehavior::TwosComplement);
    sweep.set(true, 0, false, 1);
    sweep.set_current_period_low(100);
    sweep.tick();
    assert_eq!(sweep.target_period(), 225);
}

#[test]
fn pulse_channel_plays_when_on_duty() {
    let mut pulse = PulseChannel::new(NegateBehavior::OnesComplement);
    pulse.set_enabled(true);
    pulse.set_control(0xBF);
    pulse.set_period_low(0x00);
    pulse.set_length_and_period_high(0x09);
    assert!(pulse.active());
    // Duty High starts low.
    assert_eq!(pulse.sample_volume(), 0);
    for _ in 0..257 {
        pulse.tick_put();
    }
    assert_eq!(pulse.sample_volume(), 15);
}

#[test]
fn pulse_channel_is_silent_when_disabled() {
    let mut pulse = PulseChannel::new(NegateBehavior::TwosComplement);
    pulse.set_control(0xBF);
    pulse.set_length_and_period_high(0x09);
    assert!(!pulse.active());
    assert_eq!(pulse.sample_volume(), 0);
}

#[test]
fn dmc_registers() {
    let mut dmc = Dmc::new();
    assert_eq!(dmc.sample_volume(), 0);
    assert_eq!(dmc.dma_sample_address(), 0xC000);
    assert!(dmc.write_control_byte(0x0F));
    assert!(!dmc.write_control_byte(0x8F));
    dmc.write_volume(0x85);
    // Still silenced until a sample plays.
    assert_eq!(dmc.sample_volume(), 0);
    dmc.write_sample_start_address(1);
    assert_eq!(dmc.dma_sample_address(), 0xC000);
}

#[test]
fn dmc_tick_counts_down_before_output() {
    let mut dmc = Dmc::new();
    for _ in 0..427 {
        assert!(!dmc.tick(true));
    }
    // The timer has run out: with no sample buffered, the output cycle goes on silenced.
    assert!(!dmc.tick(true));
    assert_eq!(dmc.sample_volume(), 0);
}

#[test]
fn dmc_enable_restarts_the_sample() {
    let mut dmc = Dmc::new();
    dmc.write_sample_start_address(2);
    assert_eq!(dmc.set_enabled(false, false), DmcEnableAction::DisableDmaSoon);
    assert_eq!(dmc.dma_sample_address(), 0xC000);
    assert_eq!(dmc.set_enabled(true, true), DmcEnableAction::Nothing);
    assert_eq!(dmc.dma_sample_address(), 0xC000);
    assert_eq!(dmc.set_enabled(false, true), DmcEnableAction::EnableDma { start_load: true });
    assert_eq!(dmc.dma_sample_address(), 0xC080);
    // With a byte in the sample buffer, enabling doesn't start a load.
    assert_eq!(dmc.set_sample_buffer(true, false, 0x55), SampleFetchOutcome::Stored);
    assert_eq!(dmc.set_enabled(false, true), DmcEnableAction::EnableDma { start_load: false });
}

#[test]
fn dmc_sample_fetches() {
    let mut dmc = Dmc::new();
    assert_eq!(dmc.set_sample_buffer(false, false, 1), SampleFetchOutcome::Dropped);
    assert_eq!(dmc.dma_sample_address(), 0xC000);
    assert_eq!(dmc.set_sample_buffer(true, false, 1), SampleFetchOutcome::Stored);
    assert_eq!(dmc.dma_sample_address(), 0xC001);
    // Last byte, no loop, no IRQ.
    assert_eq!(dmc.set_sample_buffer(true, true, 1), SampleFetchOutcome::Stored);
    dmc.write_control_byte(0x80);
    assert_eq!(dmc.set_sample_buffer(true, true, 1), SampleFetchOutcome::StoredAndInterrupted);
    assert_eq!(dmc.dma_sample_address(), 0xC003);
    dmc.write_control_byte(0xC0);
    dmc.write_sample_start_address(0xFF);
    assert_eq!(dmc.set_sample_buffer(true, true, 1), SampleFetchOutcome::StoredAndRestarted);
    assert_eq!(dmc.dma_sample_address(), 0xFFC0);
    // The address wraps from 0xFFFF to 0x8000.
    dmc.write_control_byte(0x00);
    for _ in 0..0x3F {
        dmc.set_sample_buffer(true, false, 1);
    }
    assert_eq!(dmc.dma_sample_address(), 0xFFFF);
    dmc.set_sample_buffer(true, false, 1);
    assert_eq!(dmc.dma_sample_address(), 0x8000);
}

#[test]
fn mixer_mutes_every_channel() {
    let mut mixer = Mixer::new();
    assert!(!mixer.pulse_1_force_muted);
    mixer.mute();
    assert!(mixer.pulse_1_force_muted);
    assert!(mixer.pulse_2_force_muted);
    assert!(mixer.triangle_force_muted);
    assert!(mixer.noise_force_muted);
    assert!(mixer.dmc_force_muted);
}

#[test]
fn mixer_zeroes_muted_channels() {
    let volumes = ChannelVolumes { pulse_1: 15, pulse_2: 7, triangle: 9, noise: 3, dmc: 100 };
    let mut mixer = Mixer::new();
    assert_eq!(mixer.audible_volumes(volumes), volumes);
    mixer.triangle_force_muted = true;
    mixer.dmc_force_muted = true;
    assert_eq!(mixer.audible_volumes(volumes), ChannelVolumes { pulse_1: 15, pulse_2: 7, triangle: 0, noise: 3, dmc: 0 });
    mixer.mute();
    assert_eq!(mixer.audible_volumes(volumes), ChannelVolumes { pulse_1: 0, pulse_2: 0, triangle: 0, noise: 0, dmc: 0 });
}

#[test]
fn reset_timer_wraps_after_period_plus_one_ticks() {
    let mut timer = FrequencyTimer::new();
    timer.set_period_and_reset_index(5);
    assert!(!timer.tick());
    timer.set_period_and_reset_index(3);
    assert_eq!(timer.period(), 3);
    for _ in 0..3 {
        assert!(!timer.tick());
    }
    assert!(timer.tick());
    assert!(!timer.tick());
}
