//! The double pendulum (acrobot) swing-up environment: its parameters, its
//! spaces and the rules that a step and a reset follow.
//!
//! The system consists of two links connected linearly to form a chain, with
//! one end of the chain fixed. The joint between the two links is actuated.
//! The goal is to apply torques on the actuated joint to swing the free end of
//! the chain above a given height while starting from a downward hanging
//! position. The agent is rewarded `-1` for every step taken until the episode
//! ends, which happens when the free end reaches the target height.
use vstd::prelude::*;
use core::ops::Neg;
use crate::binary64::{
    clip, clipped, is_nan, is_positive, magnitude, negate, negated, positive, rank, MINUS_ONE,
    ONE, PI, ZERO,
};
use crate::observation::{BoxR, DoublePendulumObservation};

verus! {

/// The number of actions: push the joint one way, not at all, or the other way.
pub const ACTION_COUNT: usize = 3;

/// The encoding of the default gravity constant, `9.8`.
pub const DEFAULT_GRAVITY: u64 = 0x4023_9999_9999_999a;

/// The encoding of `0.5`, the default position of each link's center of mass.
pub const DEFAULT_LINK_COM_POS: u64 = 0x3fe0_0000_0000_0000;

/// The encoding of `4 * pi`, the default limit of the first link's velocity.
pub const DEFAULT_MAX_VEL_1: u64 = 0x4029_21fb_5444_2d18;

/// The encoding of `9 * pi`, the default limit of the second link's velocity.
pub const DEFAULT_MAX_VEL_2: u64 = 0x403c_463a_becc_b2bb;

/// The encoding of `0.2`, the default number of seconds between updates.
pub const DEFAULT_DT: u64 = 0x3fc9_9999_9999_999a;

/// A space of `n` discrete actions, `0` to `n - 1`.
#[derive(Debug, Clone, Copy)]
pub struct Discrete(pub usize);

impl Discrete {
    /// Whether `action` is one of the space's actions.
    pub fn contains(&self, action: usize) -> (r: bool)
        ensures
            r == (action < self.0),
    {
        action < self.0
    }
}

/// Why a step refuses an action.
#[derive(Debug, Clone, Copy, PartialEq, Eq)]
pub enum ActionError {
    /// The action is not in the environment's action space.
    NotInSpace,
    /// The action space admits it, but no torque is given for it.
    NoTorque,
}

/// Something that changes an environment's state: a step, given the state
/// that the integration reached with its angles already wrapped, or a reset,
/// given the freshly drawn state.
#[derive(Debug, Clone, Copy)]
pub enum EnvEvent {
    /// A step.
    Step { theta1: u64, theta2: u64, theta1_dot: u64, theta2_dot: u64 },
    /// A reset.
    Reset { state: DoublePendulumObservation },
}

/// Every value of `o` lies between the corners of `b`, in the total order.
pub open spec fn in_box(o: DoublePendulumObservation, b: BoxR<DoublePendulumObservation>) -> bool {
    &&& rank(b.low.theta1) <= rank(o.theta1) <= rank(b.high.theta1)
    &&& rank(b.low.theta2) <= rank(o.theta2) <= rank(b.high.theta2)
    &&& rank(b.low.theta1_dot) <= rank(o.theta1_dot) <= rank(b.high.theta1_dot)
    &&& rank(b.low.theta2_dot) <= rank(o.theta2_dot) <= rank(b.high.theta2_dot)
}

/// What a step hands back to the agent.
#[derive(Debug, Clone, Copy)]
pub struct ActionReward {
    /// The state after the step.
    pub observation: DoublePendulumObservation,
    /// The encoding of the reward for the step.
    pub reward: u64,
    /// Whether the episode ended with this step.
    pub done: bool,
    /// Whether the episode was cut short.
    pub truncated: bool,
    /// Additional information.
    pub info: Option<()>,
}

/// The reward for a step: `0.0` for the step that ends the episode, else `-1.0`.
pub open spec fn step_reward(done: bool) -> u64 {
    if done {
        ZERO
    } else {
        MINUS_ONE
    }
}

/// The torque, in units of the environment's torque, that an action applies:
/// `-1`, `0` or `1`.
pub open spec fn avail_torque(action: int) -> int {
    action - 1
}

/// The double pendulum environment. Every physical quantity is the IEEE-754
/// binary64 encoding of its value.
#[derive(Debug, Clone, Copy)]
pub struct DoublePendulumEnv {
    /// The available actions that can be taken.
    pub action_space: Discrete,
    /// The range of values that can be observed, fixed when the environment
    /// is made.
    pub observation_space: BoxR<DoublePendulumObservation>,
    /// The current state of the environment.
    pub state: DoublePendulumObservation,
    /// The gravity constant applied to the environment.
    pub gravity: u64,
    /// The length of the first (fixed) link.
    pub link_length_1: u64,
    /// The length of the second (free) link.
    pub link_length_2: u64,
    /// The mass of the first link.
    pub link_mass_1: u64,
    /// The mass of the second link.
    pub link_mass_2: u64,
    /// The position of the center of mass of the first link.
    pub link_com_pos_1: u64,
    /// The position of the center of mass of the second link.
    pub link_com_pos_2: u64,
    /// The moment of inertia of both links.
    pub link_moi: u64,
    /// The maximum absolute angular velocity of the first link.
    pub max_vel_1: u64,
    /// The maximum absolute angular velocity of the second link.
    pub max_vel_2: u64,
    /// The magnitude of the torque applied to the actuated joint.
    pub torque: u64,
    /// The maximum absolute uniform noise added to the applied torque.
    pub torque_noise_max: u64,
    /// The number of seconds between state updates.
    pub dt: u64,
}

impl DoublePendulumEnv {
    /// The environment with the parameters of the paper and the given state.
    pub open spec fn with_defaults(state: DoublePendulumObservation) -> Self {
        DoublePendulumEnv {
            action_space: Discrete(ACTION_COUNT),
            observation_space: Self::limits_box(DEFAULT_MAX_VEL_1, DEFAULT_MAX_VEL_2),
            state,
            gravity: DEFAULT_GRAVITY,
            link_length_1: ONE,
            link_length_2: ONE,
            link_mass_1: ONE,
            link_mass_2: ONE,
            link_com_pos_1: DEFAULT_LINK_COM_POS,
            link_com_pos_2: DEFAULT_LINK_COM_POS,
            link_moi: ONE,
            max_vel_1: DEFAULT_MAX_VEL_1,
            max_vel_2: DEFAULT_MAX_VEL_2,
            torque: ONE,
            torque_noise_max: ZERO,
            dt: DEFAULT_DT,
        }
    }

    /// Both velocity limits are numbers not below zero.
    pub open spec fn limits_valid(self) -> bool {
        &&& !is_nan(self.max_vel_1)
        &&& rank(self.max_vel_1) >= 0
        &&& !is_nan(self.max_vel_2)
        &&& rank(self.max_vel_2) >= 0
    }

    /// Both velocity limits lie at or above zero in the total order (a NaN
    /// limit does too).
    pub open spec fn limits_not_negative(self) -> bool {
        rank(self.max_vel_1) >= 0 && rank(self.max_vel_2) >= 0
    }

    /// The torque that `action` applies in a step, or why the step refuses it:
    /// an action outside the action space, or one past the table of torques.
    pub open spec fn action_torque_result(self, action: int) -> Result<i8, ActionError> {
        if !(action < self.action_space.0) {
            Err(ActionError::NotInSpace)
        } else if !(action < ACTION_COUNT) {
            Err(ActionError::NoTorque)
        } else {
            Ok(avail_torque(action) as i8)
        }
    }

    /// The box of states with angles within `[-pi, pi]` and velocities within
    /// the given limits.
    pub open spec fn limits_box(max_vel_1: u64, max_vel_2: u64) -> BoxR<DoublePendulumObservation> {
        let high = DoublePendulumObservation {
            theta1: PI,
            theta2: PI,
            theta1_dot: max_vel_1,
            theta2_dot: max_vel_2,
        };
        BoxR { low: high.negated(), high }
    }

    /// The box that the current velocity limits describe.
    pub open spec fn observation_box(self) -> BoxR<DoublePendulumObservation> {
        Self::limits_box(self.max_vel_1, self.max_vel_2)
    }

    /// The state that a step leaves, from the integrated state whose angles
    /// were already wrapped into `[-pi, pi)`: the angles as they are, each
    /// velocity clamped into `[-limit, limit]`.
    pub open spec fn stepped_state(
        self,
        theta1: u64,
        theta2: u64,
        theta1_dot: u64,
        theta2_dot: u64,
    ) -> DoublePendulumObservation {
        DoublePendulumObservation {
            theta1,
            theta2,
            theta1_dot: clipped(theta1_dot, negated(self.max_vel_1), self.max_vel_1),
            theta2_dot: clipped(theta2_dot, negated(self.max_vel_2), self.max_vel_2),
        }
    }

    /// The environment after one event: only the state changes.
    pub open spec fn after(self, event: EnvEvent) -> Self {
        match event {
            EnvEvent::Step { theta1, theta2, theta1_dot, theta2_dot } => DoublePendulumEnv {
                state: self.stepped_state(theta1, theta2, theta1_dot, theta2_dot),
                ..self
            },
            EnvEvent::Reset { state } => DoublePendulumEnv { state, ..self },
        }
    }

    /// The environment after a sequence of events, in order.
    pub open spec fn after_all(self, events: Seq<EnvEvent>) -> Self
        decreases events.len(),
    {
        if events.len() == 0 {
            self
        } else {
            self.after(events[0]).after_all(events.drop_first())
        }
    }

    /// Everything but the state is the same as in `other`.
    pub open spec fn same_setup(self, other: Self) -> bool {
        DoublePendulumEnv { state: other.state, ..self } == other
    }

    /// Creates a double pendulum environment using the defaults from the paper,
    /// starting in the given state.
    pub fn new(state: DoublePendulumObservation) -> (r: Self)
        ensures
            r == Self::with_defaults(state),
            r.limits_valid(),
            r.observation_space == r.observation_box(),
    {
        let max_vel_1 = DEFAULT_MAX_VEL_1;
        let max_vel_2 = DEFAULT_MAX_VEL_2;
        let high = DoublePendulumObservation::new(PI, PI, max_vel_1, max_vel_2);
        DoublePendulumEnv {
            action_space: Discrete(ACTION_COUNT),
            observation_space: BoxR::new(high.neg(), high),
            state,
            gravity: DEFAULT_GRAVITY,
            link_length_1: ONE,
            link_length_2: ONE,
            link_mass_1: ONE,
            link_mass_2: ONE,
            link_com_pos_1: DEFAULT_LINK_COM_POS,
            link_com_pos_2: DEFAULT_LINK_COM_POS,
            link_moi: ONE,
            max_vel_1,
            max_vel_2,
            torque: ONE,
            torque_noise_max: ZERO,
            dt: DEFAULT_DT,
        }
    }

    /// The range of values that can be observed.
    pub fn observation_space(&self) -> (r: BoxR<DoublePendulumObservation>)
        ensures
            r == self.observation_space,
    {
        self.observation_space
    }

    /// The available actions that can be taken.
    pub fn action_space(&self) -> (r: Discrete)
        ensures
            r == self.action_space,
    {
        self.action_space
    }

    /// The torque, in units of `torque`, that `action` applies: `-1`, `0` or `1`.
    pub fn avail_torque(action: usize) -> (r: i8)
        requires
            action < ACTION_COUNT,
        ensures
            r == avail_torque(action as int),
    {
        if action == 0 {
            -1
        } else if action == 1 {
            0
        } else {
            1
        }
    }

    /// The check that a step makes of its action before it changes anything:
    /// the torque, in units of `torque`, that the action applies, or an error
    /// when the action space does not contain it or no torque is given for it.
    pub fn action_torque(&self, action: usize) -> (r: Result<i8, ActionError>)
        ensures
            r == self.action_torque_result(action as int),
    {
        if !self.action_space.contains(action) {
            Err(ActionError::NotInSpace)
        } else if action >= ACTION_COUNT {
            Err(ActionError::NoTorque)
        } else {
            Ok(Self::avail_torque(action))
        }
    }

    /// Whether noise is added to the applied torque: only when its maximum is
    /// a number greater than zero.
    pub fn torque_noise_applies(&self) -> (r: bool)
        ensures
            r == is_positive(self.torque_noise_max),
    {
        positive(self.torque_noise_max)
    }

    /// Takes the state that the integration of a step reached, with its angles
    /// already wrapped into `[-pi, pi)`, and clamps each velocity into the
    /// range its limit allows. The parameters stay as they were.
    pub fn apply_integrated(
        &mut self,
        theta1: u64,
        theta2: u64,
        theta1_dot: u64,
        theta2_dot: u64,
    )
        ensures
            *final(self) == old(self).after(EnvEvent::Step { theta1, theta2, theta1_dot, theta2_dot }),
            final(self).state == old(self).stepped_state(theta1, theta2, theta1_dot, theta2_dot),
            *final(self) == (DoublePendulumEnv { state: final(self).state, ..*old(self) }),
            old(self).limits_not_negative() ==> {
                let space = old(self).observation_box();
                &&& rank(space.low.theta1_dot) <= rank(final(self).state.theta1_dot) <= rank(
                    space.high.theta1_dot,
                )
                &&& rank(space.low.theta2_dot) <= rank(final(self).state.theta2_dot) <= rank(
                    space.high.theta2_dot,
                )
            },
            old(self).limits_valid() ==> {
                &&& !is_nan(final(self).state.theta1_dot)
                &&& !is_nan(final(self).state.theta2_dot)
                &&& magnitude(final(self).state.theta1_dot) <= magnitude(old(self).max_vel_1)
                &&& magnitude(final(self).state.theta2_dot) <= magnitude(old(self).max_vel_2)
            },
    {
        let max_vel_1 = self.max_vel_1;
        let max_vel_2 = self.max_vel_2;
        self.state = DoublePendulumObservation::new(
            theta1,
            theta2,
            clip(theta1_dot, negate(max_vel_1), max_vel_1),
            clip(theta2_dot, negate(max_vel_2), max_vel_2),
        );
        proof {
            if old(self).limits_not_negative() {
                lemma_step_velocities_observable(
                    *old(self),
                    theta1,
                    theta2,
                    theta1_dot,
                    theta2_dot,
                );
            }
            if old(self).limits_valid() {
                crate::binary64::lemma_symmetric_clip_bounded(theta1_dot, max_vel_1);
                crate::binary64::lemma_symmetric_clip_bounded(theta2_dot, max_vel_2);
            }
        }
    }

    /// Puts the environment in a freshly drawn state. The parameters stay as
    /// they were.
    pub fn reset_state(&mut self, state: DoublePendulumObservation)
        ensures
            *final(self) == old(self).after(EnvEvent::Reset { state }),
            *final(self) == (DoublePendulumEnv { state, ..*old(self) }),
    {
        self.state = state;
    }

    /// What a reset hands back: the current state, and information only when
    /// it was asked for.
    pub fn reset_outcome(&self, return_info: bool) -> (r: (DoublePendulumObservation, Option<()>))
        ensures
            r.0 == self.state,
            r.1 == (if return_info {
                Some(())
            } else {
                None
            }),
    {
        if return_info {
            (self.state, Some(()))
        } else {
            (self.state, None)
        }
    }

    /// The reward for a step: `0.0` for the step that ends the episode, else
    /// `-1.0`.
    pub fn reward(done: bool) -> (r: u64)
        ensures
            r == step_reward(done),
    {
        if done {
            ZERO
        } else {
            MINUS_ONE
        }
    }

    /// What a step hands back, once it has been told whether the free end
    /// reached the target height: the current state, the reward, whether the
    /// episode is done; a step never truncates the episode.
    pub fn outcome(&self, done: bool) -> (r: ActionReward)
        ensures
            r == (ActionReward {
                observation: self.state,
                reward: step_reward(done),
                done,
                truncated: false,
                info: Some(()),
            }),
    {
        ActionReward {
            observation: self.state,
            reward: Self::reward(done),
            done,
            truncated: false,
            info: Some(()),
        }
    }
}

/// After a step, in an environment whose velocity limits lie at or above
/// zero, both velocities lie within the observation space, whatever the
/// integration produced.
pub proof fn lemma_step_velocities_observable(
    env: DoublePendulumEnv,
    theta1: u64,
    theta2: u64,
    theta1_dot: u64,
    theta2_dot: u64,
)
    requires
        env.limits_not_negative(),
    ensures
        ({
            let s = env.stepped_state(theta1, theta2, theta1_dot, theta2_dot);
            let space = env.observation_box();
            &&& rank(space.low.theta1_dot) <= rank(s.theta1_dot) <= rank(space.high.theta1_dot)
            &&& rank(space.low.theta2_dot) <= rank(s.theta2_dot) <= rank(space.high.theta2_dot)
        }),
{
    crate::binary64::lemma_negate_mirrors(env.max_vel_1);
    crate::binary64::lemma_negate_mirrors(env.max_vel_2);
    crate::binary64::lemma_clip_within(theta1_dot, negated(env.max_vel_1), env.max_vel_1);
    crate::binary64::lemma_clip_within(theta2_dot, negated(env.max_vel_2), env.max_vel_2);
}

/// Every step keeps the state inside the observation space: when the space
/// is the one that the velocity limits describe (as `new` makes it), the
/// limits lie at or above zero and the integrated angles handed to the step
/// were wrapped into `[-pi, pi]`, the state after the step lies in the box
/// that `observation_space` returns.
pub proof fn lemma_step_stays_in_observation_space(
    env: DoublePendulumEnv,
    theta1: u64,
    theta2: u64,
    theta1_dot: u64,
    theta2_dot: u64,
)
    requires
        env.observation_space == env.observation_box(),
        env.limits_not_negative(),
        rank(negated(PI)) <= rank(theta1) <= rank(PI),
        rank(negated(PI)) <= rank(theta2) <= rank(PI),
    ensures
        in_box(env.stepped_state(theta1, theta2, theta1_dot, theta2_dot), env.observation_space),
        env.after(EnvEvent::Step { theta1, theta2, theta1_dot, theta2_dot }).observation_space
            == env.observation_space,
{
    lemma_step_velocities_observable(env, theta1, theta2, theta1_dot, theta2_dot);
}

/// A step stores the wrapped angles it is handed exactly as they are, and
/// each velocity clamped into `[-limit, limit]`: the lower limit when it lies
/// below it, the upper limit when it lies above it, and the velocity itself
/// when it lies within; so a velocity below zero never comes out above zero,
/// nor one above zero below it.
pub proof fn lemma_step_state(
    env: DoublePendulumEnv,
    theta1: u64,
    theta2: u64,
    theta1_dot: u64,
    theta2_dot: u64,
)
    requires
        env.limits_valid(),
    ensures
        ({
            let s = env.stepped_state(theta1, theta2, theta1_dot, theta2_dot);
            let (m1, m2) = (env.max_vel_1, env.max_vel_2);
            &&& s.theta1 == theta1
            &&& s.theta2 == theta2
            &&& rank(theta1_dot) < rank(negated(m1)) ==> s.theta1_dot == negated(m1)
            &&& rank(theta1_dot) > rank(m1) ==> s.theta1_dot == m1
            &&& rank(negated(m1)) <= rank(theta1_dot) <= rank(m1) ==> s.theta1_dot == theta1_dot
            &&& rank(theta2_dot) < rank(negated(m2)) ==> s.theta2_dot == negated(m2)
            &&& rank(theta2_dot) > rank(m2) ==> s.theta2_dot == m2
            &&& rank(negated(m2)) <= rank(theta2_dot) <= rank(m2) ==> s.theta2_dot == theta2_dot
            &&& !is_nan(theta1_dot) && rank(theta1_dot) < 0 ==> rank(s.theta1_dot) <= 0
            &&& !is_nan(theta1_dot) && rank(theta1_dot) > 0 ==> rank(s.theta1_dot) >= 0
            &&& !is_nan(theta2_dot) && rank(theta2_dot) < 0 ==> rank(s.theta2_dot) <= 0
            &&& !is_nan(theta2_dot) && rank(theta2_dot) > 0 ==> rank(s.theta2_dot) >= 0
        }),
{
    crate::binary64::lemma_negate_mirrors(env.max_vel_1);
    crate::binary64::lemma_negate_mirrors(env.max_vel_2);
    crate::binary64::lemma_clip_cases(theta1_dot, negated(env.max_vel_1), env.max_vel_1);
    crate::binary64::lemma_clip_cases(theta2_dot, negated(env.max_vel_2), env.max_vel_2);
    crate::binary64::lemma_symmetric_clip_keeps_sign(theta1_dot, env.max_vel_1);
    crate::binary64::lemma_symmetric_clip_keeps_sign(theta2_dot, env.max_vel_2);
}

/// The noise gate of a step opens exactly for a maximum that is a number
/// above zero, however large: never for zero, a number below zero or a NaN.
pub proof fn lemma_noise_gate(env: DoublePendulumEnv)
    ensures
        is_positive(env.torque_noise_max) <==> (!crate::binary64::sign_set(env.torque_noise_max)
            && 0 < magnitude(env.torque_noise_max) <= crate::binary64::POS_INFINITY),
{
    crate::binary64::lemma_positive_exactly(env.torque_noise_max, env.torque_noise_max);
}

/// Steps and resets change the state only: after any sequence of them the
/// action space, the observation space and every parameter are as before.
pub proof fn lemma_events_keep_setup(env: DoublePendulumEnv, events: Seq<EnvEvent>)
    ensures
        env.after_all(events).same_setup(env),
        env.after_all(events).action_space == env.action_space,
        env.after_all(events).observation_space == env.observation_space,
    decreases events.len(),
{
    if events.len() > 0 {
        lemma_events_keep_setup(env.after(events[0]), events.drop_first());
    }
}

/// A step refuses exactly the actions that the action space does not hold or
/// that have no torque. With the action space `Discrete(3)` the actions from
/// `3` on are refused as outside the space, and every action below `3`
/// passes with its torque.
pub proof fn lemma_three_actions(env: DoublePendulumEnv, action: int)
    requires
        env.action_space == Discrete(3),
    ensures
        env.action_torque_result(action) is Ok <==> action < 3,
        action >= 3 ==> env.action_torque_result(action) == Err::<i8, ActionError>(
            ActionError::NotInSpace,
        ),
        0 <= action < 3 ==> env.action_torque_result(action) == Ok::<i8, ActionError>(
            (action - 1) as i8,
        ),
{
}

/// An environment as `new` makes it keeps the action space `Discrete(3)` and
/// its observation space through any sequence of steps and resets, so that a
/// step accepts exactly the actions below `3`, and a step with wrapped angles
/// leaves a state inside the observation space.
pub proof fn lemma_default_env_through_events(
    state: DoublePendulumObservation,
    events: Seq<EnvEvent>,
    action: int,
)
    ensures
        ({
            let env = DoublePendulumEnv::with_defaults(state).after_all(events);
            &&& env.action_space == Discrete(3)
            &&& env.observation_space == env.observation_box()
            &&& env.limits_valid()
            &&& (env.action_torque_result(action) is Ok <==> action < 3)
            &&& (action >= 3 ==> env.action_torque_result(action) == Err::<i8, ActionError>(
                ActionError::NotInSpace,
            ))
        }),
{
    let start = DoublePendulumEnv::with_defaults(state);
    lemma_events_keep_setup(start, events);
    crate::binary64::lemma_negate_mirrors(DEFAULT_MAX_VEL_1);
    crate::binary64::lemma_negate_mirrors(DEFAULT_MAX_VEL_2);
    lemma_three_actions(start.after_all(events), action);
}

/// Every reward is `0.0` or `-1.0`, and it is `0.0` exactly for the step
/// that ends the episode.
pub proof fn lemma_reward_values(done: bool)
    ensures
        step_reward(done) == ZERO || step_reward(done) == MINUS_ONE,
        step_reward(done) == ZERO <==> done,
{
}

/// The observation space is symmetric about zero, and its corners are in
/// order when the velocity limits are numbers not below zero.
pub proof fn lemma_observation_space_symmetric(env: DoublePendulumEnv)
    ensures
        env.observation_box().low == env.observation_box().high.negated(),
        env.limits_not_negative() ==> {
            let space = env.observation_box();
            &&& rank(space.low.theta1) <= rank(space.high.theta1)
            &&& rank(space.low.theta2) <= rank(space.high.theta2)
            &&& rank(space.low.theta1_dot) <= rank(space.high.theta1_dot)
            &&& rank(space.low.theta2_dot) <= rank(space.high.theta2_dot)
        },
{
    crate::binary64::lemma_negate_mirrors(env.max_vel_1);
    crate::binary64::lemma_negate_mirrors(env.max_vel_2);
}

} // verus!
