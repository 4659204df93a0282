//! The render modes that the environment supports, and the metadata that
//! names them.
use vstd::prelude::*;

verus! {

/// The kinds of renders an environment may produce.
#[derive(Debug, Clone, Copy, PartialEq, Eq, Structural)]
pub enum RenderMode {
    /// Shown in a window.
    Human,
    /// Every frame kept as pixels.
    RgbArray,
    /// The last frame as pixels.
    SingleRgbArray,
    /// No renders.
    NoRender,
}

/// The render modes of the double pendulum environment, in order.
pub open spec fn double_pendulum_render_modes() -> Seq<RenderMode> {
    seq![RenderMode::Human, RenderMode::RgbArray, RenderMode::SingleRgbArray, RenderMode::NoRender]
}

/// The frames per second at which the double pendulum is rendered.
pub const DOUBLE_PENDULUM_RENDER_FPS: u32 = 15;

/// Additional pieces of information provided by the environment.
#[derive(Debug, Clone)]
pub struct Metadata {
    /// The render modes that the environment supports.
    pub render_modes: Vec<RenderMode>,
    /// The frames per second at which renders are produced.
    pub render_fps: u32,
}

impl Metadata {
    /// Whether `mode` is one of the supported render modes.
    pub fn supports(&self, mode: RenderMode) -> (r: bool)
        ensures
            r == self.render_modes@.contains(mode),
    {
        let mut i: usize = 0;
        while i < self.render_modes.len()
            invariant
                i <= self.render_modes.len(),
                forall|j: int| 0 <= j < i ==> self.render_modes@[j] != mode,
            decreases self.render_modes.len() - i,
        {
            if self.render_modes[i] == mode {
                return true;
            }
            i += 1;
        }
        false
    }
}

impl Default for Metadata {
    /// The metadata of the double pendulum: all four render modes, 15 frames
    /// per second.
    fn default() -> (r: Self)
        ensures
            r.render_modes@ == double_pendulum_render_modes(),
            r.render_fps == DOUBLE_PENDULUM_RENDER_FPS,
    {
        let mut render_modes: Vec<RenderMode> = Vec::new();
        render_modes.push(RenderMode::Human);
        render_modes.push(RenderMode::RgbArray);
        render_modes.push(RenderMode::SingleRgbArray);
        render_modes.push(RenderMode::NoRender);
        Metadata { render_modes, render_fps: DOUBLE_PENDULUM_RENDER_FPS }
    }
}

/// The double pendulum supports every render mode.
pub proof fn lemma_all_modes_supported(mode: RenderMode)
    ensures
        double_pendulum_render_modes().contains(mode),
{
    let modes = double_pendulum_render_modes();
    match mode {
        RenderMode::Human => assert(modes[0] == mode),
        RenderMode::RgbArray => assert(modes[1] == mode),
        RenderMode::SingleRgbArray => assert(modes[2] == mode),
        RenderMode::NoRender => assert(modes[3] == mode),
    }
}

} // verus!
