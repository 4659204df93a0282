# double_pendulum

The double pendulum (acrobot) swing-up environment.

- `src/binary64.rs`: IEEE-754 binary64 values held by their 64-bit encodings,
  with the total order in which the environment compares them (NaNs equal and
  above everything, the two zeros equal), negation, absolute value and clamping.
- `src/observation.rs`: the state of the pendulum, its negation and equality,
  and the box that initial states are drawn from.
- `src/env.rs`: the environment's parameters, its spaces, and the rules of a
  step (action torques, noise gate, velocity clamping, reward) and of a reset.
- `src/metadata.rs`: the render modes and the metadata that lists them.
- `app/`: the floating-point part: integration of the equations of motion,
  angle wrapping, the termination height test, random initial states and
  torque noise.

Drawing the pendulum (`render`) and closing its window (`close`) are not part
of this crate: they need a screen and renderer that it does not have.
