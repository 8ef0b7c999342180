use vstd::prelude::*;

use crate::settings::WindowSettings;
use crate::surface::{
    build_config, config_for, is_chosen_format_index, resized_config, select_format,
    SurfaceCapabilities, SurfaceConfig, SurfaceSize,
};

verus! {

/// Why the next presentable texture could not be acquired.
#[derive(Clone, Copy, Debug, PartialEq, Eq, Structural)]
pub enum SurfaceError {
    /// Acquisition timed out.
    Timeout,
    /// The surface changed and must be reconfigured.
    Outdated,
    /// The surface was lost and must be reconfigured.
    Lost,
    /// No memory is left for a new frame.
    OutOfMemory,
}

/// One GPU step of drawing a frame onto an acquired texture.
#[derive(Clone, Copy, Debug, PartialEq, Eq, Structural)]
pub enum FrameCommand {
    /// Create a full-surface view of the acquired texture.
    CreateView,
    /// Open a command recording session.
    BeginEncoder,
    /// Record a render pass whose single color attachment is cleared to the
    /// frame color and stored.
    ClearPass,
    /// Finish recording and submit the command buffer to the queue.
    Submit,
    /// Present the acquired texture.
    Present,
}

/// The steps of one frame, in order.
pub open spec fn frame_plan() -> Seq<FrameCommand> {
    seq![
        FrameCommand::CreateView,
        FrameCommand::BeginEncoder,
        FrameCommand::ClearPass,
        FrameCommand::Submit,
        FrameCommand::Present,
    ]
}

/// How many entries of `s` equal `c`.
pub open spec fn count_of<T>(s: Seq<T>, c: T) -> nat
    decreases s.len(),
{
    if s.len() == 0 {
        0
    } else {
        count_of(s.drop_last(), c) + if s.last() == c {
            1nat
        } else {
            0nat
        }
    }
}

/// The cached size after a resize to `new_size`: sizes with no area are ignored.
pub open spec fn resized_size(size: SurfaceSize, new_size: SurfaceSize) -> SurfaceSize {
    if new_size.is_degenerate() {
        size
    } else {
        new_size
    }
}

/// The surface and its configuration as the renderer keeps them.
pub struct GraphicsState {
    size: SurfaceSize,
    config: SurfaceConfig,
}

impl GraphicsState {
    /// The cached physical size.
    pub closed spec fn size_view(&self) -> SurfaceSize {
        self.size
    }

    /// The configuration the surface is presented under.
    pub closed spec fn config_view(&self) -> SurfaceConfig {
        self.config
    }

    /// The configuration's dimensions equal the cached size.
    pub open spec fn wf(&self) -> bool {
        self.config_view().width == self.size_view().width && self.config_view().height
            == self.size_view().height
    }

    /// Builds the state for a window of `size` from the surface's capabilities:
    /// the first sRGB format (or the first format), the desired presentation
    /// mode if supported (or the first one), the first alpha mode, and the
    /// configured frame latency. `None` when a capability list is empty.
    pub fn initialize(size: SurfaceSize, caps: &SurfaceCapabilities, settings: &WindowSettings) -> (r:
        Option<GraphicsState>)
        ensures
            r is None <==> !caps.is_usable(),
            r matches Some(s) ==> {
                &&& s.wf()
                &&& s.size_view() == size
                &&& exists|srgb: Seq<bool>, i: int|
                    #![trigger is_chosen_format_index(srgb, i)]
                    srgb.len() == caps.formats@.len() && is_chosen_format_index(srgb, i)
                        && s.config_view() == config_for(size, caps.formats@[i], *caps, *settings)
            },
    {
        match select_format(&caps.formats) {
            None => None,
            Some(format) => match build_config(size, format, caps, settings) {
                None => None,
                Some(config) => Some(GraphicsState { size, config }),
            },
        }
    }

    /// The cached physical size.
    pub fn size(&self) -> (r: SurfaceSize)
        ensures
            r == self.size_view(),
    {
        self.size
    }

    /// The current surface configuration.
    pub fn config(&self) -> (r: SurfaceConfig)
        ensures
            r == self.config_view(),
    {
        self.config
    }

    /// Follows a new window size. A size with no area is ignored; any other
    /// becomes the cached size and the configuration's dimensions. Returns
    /// whether the surface must be reconfigured with the new configuration.
    pub fn resize(&mut self, new_size: SurfaceSize) -> (reconfigure: bool)
        requires
            old(self).wf(),
        ensures
            final(self).wf(),
            reconfigure == !new_size.is_degenerate(),
            final(self).size_view() == resized_size(old(self).size_view(), new_size),
            final(self).config_view() == resized_config(old(self).config_view(), new_size),
    {
        if new_size.width > 0 && new_size.height > 0 {
            self.size = new_size;
            self.config.width = new_size.width;
            self.config.height = new_size.height;
            true
        } else {
            false
        }
    }

    /// The steps that draw one frame once the next texture has been acquired
    /// with the outcome `acquired`: a failed acquisition draws nothing and is
    /// handed back.
    pub fn render_frame(&self, acquired: Result<(), SurfaceError>) -> (r: Result<
        Vec<FrameCommand>,
        SurfaceError,
    >)
        ensures
            r is Ok <==> acquired is Ok,
            r matches Ok(plan) ==> plan@ == frame_plan(),
            acquired matches Err(e) ==> r matches Err(e2) && e2 == e,
    {
        match acquired {
            Err(e) => Err(e),
            Ok(()) => {
                let mut plan: Vec<FrameCommand> = Vec::new();
                plan.push(FrameCommand::CreateView);
                plan.push(FrameCommand::BeginEncoder);
                plan.push(FrameCommand::ClearPass);
                plan.push(FrameCommand::Submit);
                plan.push(FrameCommand::Present);
                assert(plan@ == frame_plan());
                Ok(plan)
            },
        }
    }
}

/// Two states with the same size and configuration are the same state.
pub(crate) proof fn lemma_state_ext(a: GraphicsState, b: GraphicsState)
    requires
        a.size_view() == b.size_view(),
        a.config_view() == b.config_view(),
    ensures
        a == b,
{
}

/// A frame submits exactly one command buffer and presents exactly once, and
/// presenting is its last step, after the submission.
pub proof fn lemma_frame_submits_and_presents_once()
    ensures
        count_of(frame_plan(), FrameCommand::Submit) == 1,
        count_of(frame_plan(), FrameCommand::Present) == 1,
        frame_plan().last() == FrameCommand::Present,
        frame_plan()[frame_plan().len() - 2] == FrameCommand::Submit,
{
    reveal_with_fuel(count_of, 6);
    let p = frame_plan();
    assert(p.drop_last() =~= seq![
        FrameCommand::CreateView,
        FrameCommand::BeginEncoder,
        FrameCommand::ClearPass,
        FrameCommand::Submit,
    ]);
    assert(p.drop_last().drop_last() =~= seq![
        FrameCommand::CreateView,
        FrameCommand::BeginEncoder,
        FrameCommand::ClearPass,
    ]);
    assert(p.drop_last().drop_last().drop_last() =~= seq![
        FrameCommand::CreateView,
        FrameCommand::BeginEncoder,
    ]);
    assert(p.drop_last().drop_last().drop_last().drop_last() =~= seq![FrameCommand::CreateView]);
    assert(p.drop_last().drop_last().drop_last().drop_last().drop_last() =~= Seq::<
        FrameCommand,
    >::empty());
}

/// A resize to a size with area makes it the cached size and the
/// configuration's width and height, and resizing again to the same size
/// changes nothing.
pub proof fn lemma_resize_sets_dimensions_and_is_idempotent(
    cached: SurfaceSize,
    config: SurfaceConfig,
    size: SurfaceSize,
)
    requires
        !size.is_degenerate(),
    ensures
        resized_size(cached, size) == size,
        resized_config(config, size).width == size.width,
        resized_config(config, size).height == size.height,
        resized_size(resized_size(cached, size), size) == resized_size(cached, size),
        resized_config(resized_config(config, size), size) == resized_config(config, size),
{
}

/// A resize to a size with no area leaves the cached size and the
/// configuration unchanged.
pub proof fn lemma_degenerate_resize_is_noop(
    cached: SurfaceSize,
    config: SurfaceConfig,
    size: SurfaceSize,
)
    requires
        size.is_degenerate(),
    ensures
        resized_size(cached, size) == cached,
        resized_config(config, size) == config,
{
}

} // verus!
