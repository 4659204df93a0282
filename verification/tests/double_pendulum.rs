use std::f64::consts::PI;

use double_pendulum::binary64::{abs, clip, less_than, negate, positive, rank_of, same_value};
use double_pendulum::metadata::{Metadata, RenderMode};
use double_pendulum::env::{ActionError, ActionReward, Discrete, DoublePendulumEnv, ACTION_COUNT};
use double_pendulum::observation::{BoxR, DoublePendulumObservation};

fn obs(a: f64, b: f64, c: f64, d: f64) -> DoublePendulumObservation {
    DoublePendulumObservation::new(a.to_bits(), b.to_bits(), c.to_bits(), d.to_bits())
}

fn values(o: DoublePendulumObservation) -> [f64; 4] {
    [
        f64::from_bits(o.theta1),
        f64::from_bits(o.theta2),
        f64::from_bits(o.theta1_dot),
        f64::from_bits(o.theta2_dot),
    ]
}

#[test]
fn new_uses_the_parameters_of_the_paper() {
    let state = obs(0.05, -0.02, 0.01, 0.0);
    let env = DoublePendulumEnv::new(state);
    assert_eq!(f64::from_bits(env.gravity), 9.8);
    assert_eq!(f64::from_bits(env.link_length_1), 1.0);
    assert_eq!(f64::from_bits(env.link_length_2), 1.0);
    assert_eq!(f64::from_bits(env.link_mass_1), 1.0);
    assert_eq!(f64::from_bits(env.link_mass_2), 1.0);
    assert_eq!(f64::from_bits(env.link_com_pos_1), 0.5);
    assert_eq!(f64::from_bits(env.link_com_pos_2), 0.5);
    assert_eq!(f64::from_bits(env.link_moi), 1.0);
    assert_eq!(f64::from_bits(env.max_vel_1), 4. * PI);
    assert_eq!(f64::from_bits(env.max_vel_2), 9. * PI);
    assert_eq!(f64::from_bits(env.torque), 1.0);
    assert_eq!(f64::from_bits(env.torque_noise_max), 0.0);
    assert_eq!(f64::from_bits(env.dt), 0.2);
    assert_eq!(env.action_space.0, 3);
    assert_eq!(env.action_space().0, ACTION_COUNT);
    assert!(env.state == state);
}

#[test]
fn observation_space_is_symmetric_about_zero() {
    let env = DoublePendulumEnv::new(obs(0.0, 0.0, 0.0, 0.0));
    let space = env.observation_space();
    assert_eq!(values(space.high), [PI, PI, 4. * PI, 9. * PI]);
    assert_eq!(values(space.low), [-PI, -PI, -4. * PI, -9. * PI]);
    assert!(space.low == -space.high);
}

#[test]
fn negation_flips_every_value_and_undoes_itself() {
    let o = obs(1.5, -2.0, 0.0, f64::INFINITY);
    let n = -o;
    assert_eq!(values(n), [-1.5, 2.0, -0.0, f64::NEG_INFINITY]);
    assert!(n.theta2_dot != o.theta2_dot);
    let back = -n;
    assert_eq!(back.theta1, o.theta1);
    assert_eq!(back.theta2, o.theta2);
    assert_eq!(back.theta1_dot, o.theta1_dot);
    assert_eq!(back.theta2_dot, o.theta2_dot);
    assert_eq!(negate(negate(0x7ff8_0000_0000_0001)), 0x7ff8_0000_0000_0001);
}

#[test]
fn equality_identifies_zeros_and_nans() {
    let a = obs(0.0, f64::NAN, 1.0, -3.0);
    let b = obs(-0.0, -f64::NAN, 1.0, -3.0);
    assert!(a == b);
    assert!(b == a);
    assert!(a == a);
    let c = obs(0.0, f64::NAN, 1.0, -3.000_000_1);
    assert!(a != c);
    let d = obs(0.0, 1.0, 1.0, -3.0);
    assert!(a != d);
}

#[test]
fn to_vec_lists_values_in_field_order() {
    let o = obs(0.1, 0.2, 0.3, 0.4);
    let v: Vec<f64> = o.to_vec().into_iter().map(f64::from_bits).collect();
    assert_eq!(v, vec![0.1, 0.2, 0.3, 0.4]);
}

#[test]
fn sample_bounds_default_to_a_tenth_either_way() {
    let b = DoublePendulumObservation::sample_bounds(None);
    assert_eq!(values(b.high), [0.1; 4]);
    assert_eq!(values(b.low), [-0.1; 4]);
    let given = BoxR::new(obs(-1.0, -2.0, -3.0, -4.0), obs(1.0, 2.0, 3.0, 4.0));
    let b = DoublePendulumObservation::sample_bounds(Some(given));
    assert_eq!(values(b.low), [-1.0, -2.0, -3.0, -4.0]);
    assert_eq!(values(b.high), [1.0, 2.0, 3.0, 4.0]);
}

#[test]
fn order_places_nan_above_infinity_and_equates_zeros() {
    let nan = f64::NAN.to_bits();
    let inf = f64::INFINITY.to_bits();
    assert!(less_than(inf, nan));
    assert!(!less_than(nan, inf));
    assert!(less_than((-5.0f64).to_bits(), (-4.0f64).to_bits()));
    assert!(less_than((-0.5f64).to_bits(), 0.25f64.to_bits()));
    assert!(same_value(0.0f64.to_bits(), (-0.0f64).to_bits()));
    assert!(same_value(nan, (-f64::NAN).to_bits()));
    assert!(!same_value(1.0f64.to_bits(), 2.0f64.to_bits()));
    assert_eq!(rank_of(0.0f64.to_bits()), 0);
    assert_eq!(rank_of((-0.0f64).to_bits()), 0);
    assert_eq!(rank_of(1.0f64.to_bits()), 0x3ff0_0000_0000_0000);
    assert_eq!(rank_of((-1.0f64).to_bits()), -0x3ff0_0000_0000_0000);
    assert_eq!(f64::from_bits(abs((-2.5f64).to_bits())), 2.5);
}

#[test]
fn clip_clamps_into_the_bounds() {
    let lo = (-2.0f64).to_bits();
    let hi = 3.0f64.to_bits();
    assert_eq!(f64::from_bits(clip((-7.0f64).to_bits(), lo, hi)), -2.0);
    assert_eq!(f64::from_bits(clip(7.0f64.to_bits(), lo, hi)), 3.0);
    assert_eq!(f64::from_bits(clip(1.25f64.to_bits(), lo, hi)), 1.25);
    assert_eq!(f64::from_bits(clip(f64::NAN.to_bits(), lo, hi)), 3.0);
    assert_eq!(f64::from_bits(clip(f64::NEG_INFINITY.to_bits(), lo, hi)), -2.0);
}

#[test]
fn a_step_clamps_velocities_and_keeps_angles() {
    let mut env = DoublePendulumEnv::new(obs(0.0, 0.0, 0.0, 0.0));
    let before = env;
    env.apply_integrated(1.0f64.to_bits(), (-3.0f64).to_bits(), 100.0f64.to_bits(), (-100.0f64).to_bits());
    assert_eq!(values(env.state), [1.0, -3.0, 4. * PI, -9. * PI]);
    assert_eq!(env.max_vel_1, before.max_vel_1);
    assert_eq!(env.dt, before.dt);
    env.apply_integrated(0.5f64.to_bits(), 0.25f64.to_bits(), (-1.0f64).to_bits(), 2.0f64.to_bits());
    assert_eq!(values(env.state), [0.5, 0.25, -1.0, 2.0]);
    env.apply_integrated(0.0f64.to_bits(), 0.0f64.to_bits(), f64::NAN.to_bits(), f64::NEG_INFINITY.to_bits());
    assert_eq!(values(env.state)[2..], [4. * PI, -9. * PI]);
}

#[test]
fn stepped_velocities_stay_within_their_limits() {
    let mut env = DoublePendulumEnv::new(obs(0.0, 0.0, 0.0, 0.0));
    let max_vel_1 = f64::from_bits(env.max_vel_1);
    let max_vel_2 = f64::from_bits(env.max_vel_2);
    let mut x = 0.37f64;
    for step in 0..2000 {
        x = (x * 7919.0 + step as f64).sin() * 1e3;
        let special = [f64::NAN, f64::INFINITY, f64::NEG_INFINITY, -0.0, x];
        let v1 = special[step % 5];
        let v2 = special[(step + 2) % 5] * 0.5;
        env.apply_integrated(x.to_bits(), (-x).to_bits(), v1.to_bits(), v2.to_bits());
        let [_, _, d1, d2] = values(env.state);
        assert!(d1.abs() <= max_vel_1);
        assert!(d2.abs() <= max_vel_2);
        let done = step % 7 == 0;
        let ActionReward { observation, reward, done: d, truncated, info } = env.outcome(done);
        let reward = f64::from_bits(reward);
        assert!(reward == -1.0 || reward == 0.0);
        assert_eq!(reward == 0.0, done);
        assert_eq!(d, done);
        assert!(!truncated);
        assert_eq!(info, Some(()));
        assert!(observation == env.state);
    }
}

#[test]
fn reward_is_zero_only_when_done() {
    assert_eq!(f64::from_bits(DoublePendulumEnv::reward(true)), 0.0);
    assert_eq!(f64::from_bits(DoublePendulumEnv::reward(false)), -1.0);
}

#[test]
fn actions_apply_torque_in_three_directions() {
    assert_eq!(DoublePendulumEnv::avail_torque(0), -1);
    assert_eq!(DoublePendulumEnv::avail_torque(1), 0);
    assert_eq!(DoublePendulumEnv::avail_torque(2), 1);
    let space = Discrete(3);
    assert!(space.contains(0));
    assert!(space.contains(2));
    assert!(!space.contains(3));
}

#[test]
fn noise_applies_only_for_a_positive_maximum() {
    let mut env = DoublePendulumEnv::new(obs(0.0, 0.0, 0.0, 0.0));
    assert!(!env.torque_noise_applies());
    env.torque_noise_max = 0.5f64.to_bits();
    assert!(env.torque_noise_applies());
    env.torque_noise_max = (-0.5f64).to_bits();
    assert!(!env.torque_noise_applies());
    env.torque_noise_max = f64::NAN.to_bits();
    assert!(!env.torque_noise_applies());
    env.torque_noise_max = (-0.0f64).to_bits();
    assert!(!env.torque_noise_applies());
    assert!(positive(f64::INFINITY.to_bits()));
    assert!(positive(f64::MIN_POSITIVE.to_bits()));
}

#[test]
fn reset_sets_the_state_and_returns_info_when_asked() {
    let mut env = DoublePendulumEnv::new(obs(0.0, 0.0, 0.0, 0.0));
    let fresh = obs(0.05, -0.05, 0.01, -0.01);
    env.reset_state(fresh);
    assert!(env.state == fresh);
    assert_eq!(f64::from_bits(env.gravity), 9.8);
    let (s, info) = env.reset_outcome(true);
    assert!(s == fresh);
    assert_eq!(info, Some(()));
    let (_, info) = env.reset_outcome(false);
    assert_eq!(info, None);
}

#[test]
fn a_step_refuses_actions_outside_the_space_or_the_torque_table() {
    let mut env = DoublePendulumEnv::new(obs(0.0, 0.0, 0.0, 0.0));
    assert_eq!(env.action_torque(0), Ok(-1));
    assert_eq!(env.action_torque(1), Ok(0));
    assert_eq!(env.action_torque(2), Ok(1));
    assert_eq!(env.action_torque(3), Err(ActionError::NotInSpace));
    assert_eq!(env.action_torque(usize::MAX), Err(ActionError::NotInSpace));
    env.action_space = Discrete(5);
    assert_eq!(env.action_torque(3), Err(ActionError::NoTorque));
    assert_eq!(env.action_torque(5), Err(ActionError::NotInSpace));
    assert_eq!(env.action_torque(2), Ok(1));
}

#[test]
fn a_step_with_wrapped_angles_stays_in_the_observation_space() {
    let mut env = DoublePendulumEnv::new(obs(0.0, 0.0, 0.0, 0.0));
    let space = env.observation_space();
    let [lo1, lo2, lo3, lo4] = values(space.low);
    let [hi1, hi2, hi3, hi4] = values(space.high);
    for (t1, t2, d1, d2) in [
        (-PI, PI, 1e9, -1e9),
        (0.5, -0.5, f64::NAN, 3.0),
        (3.0, -3.14, -0.0, f64::INFINITY),
    ] {
        env.apply_integrated(t1.to_bits(), t2.to_bits(), d1.to_bits(), d2.to_bits());
        let [a, b, c, d] = values(env.state);
        assert!(lo1 <= a && a <= hi1);
        assert!(lo2 <= b && b <= hi2);
        assert!(lo3 <= c && c <= hi3);
        assert!(lo4 <= d && d <= hi4);
    }
}

#[test]
fn observation_space_is_fixed_when_the_environment_is_made() {
    let mut env = DoublePendulumEnv::new(obs(0.0, 0.0, 0.0, 0.0));
    env.max_vel_1 = 1.0f64.to_bits();
    let space = env.observation_space();
    assert_eq!(values(space.high), [PI, PI, 4. * PI, 9. * PI]);
    env.apply_integrated(0.0f64.to_bits(), 0.0f64.to_bits(), 5.0f64.to_bits(), 0.0f64.to_bits());
    assert_eq!(f64::from_bits(env.state.theta1_dot), 1.0);
    assert_eq!(values(env.observation_space().high), [PI, PI, 4. * PI, 9. * PI]);
}

#[test]
fn metadata_lists_every_render_mode_at_fifteen_fps() {
    let m = Metadata::default();
    assert_eq!(m.render_fps, 15);
    assert_eq!(
        m.render_modes,
        vec![RenderMode::Human, RenderMode::RgbArray, RenderMode::SingleRgbArray, RenderMode::NoRender]
    );
    assert!(m.supports(RenderMode::Human));
    assert!(m.supports(RenderMode::NoRender));
    let only_human = Metadata { render_modes: vec![RenderMode::Human], render_fps: 15 };
    assert!(!only_human.supports(RenderMode::RgbArray));
}
