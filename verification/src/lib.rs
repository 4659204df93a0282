//! A double pendulum (acrobot) swing-up environment: the state, the bounds of
//! its spaces and the rules of a step, over IEEE-754 binary64 encodings.
pub mod binary64;
pub mod observation;
pub mod env;
pub mod metadata;
