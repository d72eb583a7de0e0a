use quad_sandbox::timestep::FixedTimestep;

const STEP: u64 = 20_000_000;

#[test]
fn short_tick_takes_no_step() {
    let mut c = FixedTimestep::new(STEP);
    assert_eq!(c.advance(STEP - 1), 0);
    assert_eq!(c.lag_ns(), STEP - 1);
    assert_eq!(c.advance(1), 1);
    assert_eq!(c.lag_ns(), 0);
}

#[test]
fn long_stall_runs_every_step() {
    let mut c = FixedTimestep::new(STEP);
    assert_eq!(c.advance(5 * STEP + 7), 5);
    assert_eq!(c.lag_ns(), 7);
    assert_eq!(c.step_ns(), STEP);
}

#[test]
fn split_ticks_take_as_many_steps_as_one() {
    let mut one = FixedTimestep::new(STEP);
    let total_one = one.advance(5 * STEP);
    let mut five = FixedTimestep::new(STEP);
    let mut total_five = 0;
    for _ in 0..5 {
        total_five += five.advance(STEP);
    }
    assert_eq!(total_one, 5);
    assert_eq!(total_five, 5);
    assert_eq!(one.lag_ns(), five.lag_ns());
}

#[test]
fn uneven_ticks_carry_the_remainder() {
    let mut c = FixedTimestep::new(STEP);
    let mut steps = 0;
    for _ in 0..7 {
        steps += c.advance(15_000_000);
    }
    assert_eq!(steps, 5);
    assert_eq!(c.lag_ns(), 5_000_000);
}

#[test]
fn largest_elapsed_does_not_overflow() {
    let mut c = FixedTimestep::new(1);
    assert_eq!(c.advance(u64::MAX), u64::MAX);
    assert_eq!(c.lag_ns(), 0);
    let mut d = FixedTimestep::new(STEP);
    d.advance(STEP - 1);
    assert_eq!(d.advance(u64::MAX), ((u64::MAX as u128 + (STEP - 1) as u128) / STEP as u128) as u64);
}
