use led_fade::ramp::{duty_at_step, Phase, Ramp};

fn duties(ramp: &mut Ramp, n: usize) -> Vec<u8> {
    let mut out: Vec<u8> = Vec::new();
    for _ in 0..n {
        out.push(ramp.step().duty);
    }
    out
}

#[test]
fn first_five_steps_are_zero_through_four() {
    let mut ramp = Ramp::new(0, 100, 10);
    for expected in 0u8..5u8 {
        let cmd = ramp.step();
        assert_eq!(cmd.duty, expected);
        assert_eq!(cmd.pause_ms, 10);
    }
}

#[test]
fn peak_is_held_for_two_steps_then_descends() {
    let mut ramp = Ramp::new(0, 100, 10);
    let seq = duties(&mut ramp, 103);
    assert_eq!(&seq[97..103], &[97, 98, 99, 99, 98, 97]);
}

#[test]
fn descends_to_zero_then_repeats_from_zero() {
    let mut ramp = Ramp::new(0, 100, 10);
    let seq = duties(&mut ramp, 203);
    assert_eq!(&seq[197..203], &[2, 1, 0, 0, 1, 2]);
}

#[test]
fn full_cycle_matches_up_down_loops() {
    let mut expected: Vec<u8> = Vec::new();
    for duty in 0u8..100u8 {
        expected.push(duty);
    }
    for duty in (0u8..100u8).rev() {
        expected.push(duty);
    }
    let mut ramp = Ramp::new(0, 100, 10);
    let first = duties(&mut ramp, 200);
    assert_eq!(first, expected);
    let second = duties(&mut ramp, 200);
    assert_eq!(second, expected);
}

#[test]
fn phases_alternate_and_state_returns_after_one_cycle() {
    let mut ramp = Ramp::new(0, 100, 10);
    assert_eq!(ramp.phase, Phase::Ascending);
    duties(&mut ramp, 100);
    assert_eq!(ramp.phase, Phase::Descending);
    duties(&mut ramp, 100);
    assert_eq!(ramp.phase, Phase::Ascending);
    assert_eq!(ramp, Ramp::new(0, 100, 10));
}

#[test]
fn ascending_values_strictly_increase() {
    let mut ramp = Ramp::new(0, 100, 10);
    let seq = duties(&mut ramp, 100);
    for k in 1..seq.len() {
        assert!(seq[k - 1] < seq[k]);
    }
}

#[test]
fn descending_values_strictly_decrease() {
    let mut ramp = Ramp::new(0, 100, 10);
    duties(&mut ramp, 100);
    let seq = duties(&mut ramp, 100);
    for k in 1..seq.len() {
        assert!(seq[k - 1] > seq[k]);
    }
}

#[test]
fn duty_stays_inside_configured_range() {
    let mut ramp = Ramp::new(10, 50, 5);
    for _ in 0..500 {
        let cmd = ramp.step();
        assert!(cmd.duty >= 10);
        assert!(cmd.duty < 50);
        assert!(cmd.duty <= 100);
    }
}

#[test]
fn every_step_pauses_for_the_configured_interval() {
    let mut ramp = Ramp::new(0, 100, 25);
    for _ in 0..300 {
        let cmd = ramp.step();
        assert_eq!(cmd.pause_ms, 25);
    }
}

#[test]
fn narrow_ramp_cycles_through_its_range() {
    let mut ramp = Ramp::new(3, 7, 1);
    let seq = duties(&mut ramp, 16);
    assert_eq!(seq, vec![3, 4, 5, 6, 6, 5, 4, 3, 3, 4, 5, 6, 6, 5, 4, 3]);
}

#[test]
fn single_value_range_stays_constant() {
    let mut ramp = Ramp::new(0, 1, 10);
    let seq = duties(&mut ramp, 6);
    assert_eq!(seq, vec![0, 0, 0, 0, 0, 0]);
}

#[test]
fn duty_at_step_exact_values() {
    assert_eq!(duty_at_step(0, 100, 0), 0);
    assert_eq!(duty_at_step(0, 100, 4), 4);
    assert_eq!(duty_at_step(0, 100, 99), 99);
    assert_eq!(duty_at_step(0, 100, 100), 99);
    assert_eq!(duty_at_step(0, 100, 101), 98);
    assert_eq!(duty_at_step(0, 100, 199), 0);
    assert_eq!(duty_at_step(0, 100, 200), 0);
    assert_eq!(duty_at_step(0, 100, 250), 50);
    assert_eq!(duty_at_step(3, 7, 5), 5);
    assert_eq!(duty_at_step(3, 7, 12), 6);
}

#[test]
fn duty_at_step_agrees_with_the_ramp() {
    let mut ramp = Ramp::new(0, 100, 10);
    for k in 0u64..450u64 {
        assert_eq!(ramp.step().duty, duty_at_step(0, 100, k));
    }
}
