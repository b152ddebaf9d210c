//! What each worker is started with, and in which order the workers start.

use crate::channel::Chan;
use crate::message::{RenderMsg, ScriptMsg};
use std::sync::mpsc::Receiver;
use vstd::prelude::*;

verus! {

/// What one worker is started with: the receiving end of its own conduit,
/// sender handles into the conduits of the workers it talks to, and its
/// share of the handles that the owner lends to the pipeline.
///
/// `L` is the layout worker's message type. The other parameters are the
/// types of the lent handles, which the coordinator clones and passes on
/// without looking inside.
#[verifier::reject_recursive_types(L)]
#[allow(inconsistent_fields)]
pub enum Launch<L, Constellation, Compositor, ImageCache, Resources, Profiler, Opts> {
    /// The render worker needs nothing of the other two.
    Render {
        inbox: Receiver<RenderMsg>,
        compositor: Compositor,
        opts: Opts,
        constellation: Constellation,
        profiler: Profiler,
    },
    /// The layout worker reports finished work to script and submits paint
    /// output to render.
    Layout {
        inbox: Receiver<L>,
        script_chan: Chan<ScriptMsg>,
        render_chan: Chan<RenderMsg>,
        image_cache: ImageCache,
        opts: Opts,
        profiler: Profiler,
    },
    /// The script worker drives layout, and may send to itself.
    Script {
        id: usize,
        compositor: Compositor,
        layout_chan: Chan<L>,
        inbox: Receiver<ScriptMsg>,
        script_chan: Chan<ScriptMsg>,
        constellation: Constellation,
        resources: Resources,
        image_cache: ImageCache,
    },
}

/// The render worker comes first and is lent the compositor, the
/// configuration, the constellation and the profiler.
pub open spec fn starts_render<
    L,
    Constellation: Clone,
    Compositor: Clone,
    ImageCache: Clone,
    Resources: Clone,
    Profiler: Clone,
    Opts: Clone,
>(
    launch: Launch<L, Constellation, Compositor, ImageCache, Resources, Profiler, Opts>,
    constellation_chan: Constellation,
    compositor_chan: Compositor,
    profiler_chan: Profiler,
    configuration: Opts,
) -> bool {
    launch matches Launch::Render { compositor, opts, constellation, profiler, .. }
        && cloned(compositor_chan, compositor) && cloned(configuration, opts) && cloned(
        constellation_chan,
        constellation,
    ) && cloned(profiler_chan, profiler)
}

/// The layout worker comes second, with fresh handles into the script and
/// the render conduit, and is lent the image cache, the configuration and
/// the profiler.
pub open spec fn starts_layout<
    L,
    Constellation: Clone,
    Compositor: Clone,
    ImageCache: Clone,
    Resources: Clone,
    Profiler: Clone,
    Opts: Clone,
>(
    launch: Launch<L, Constellation, Compositor, ImageCache, Resources, Profiler, Opts>,
    image_cache_task: ImageCache,
    profiler_chan: Profiler,
    configuration: Opts,
) -> bool {
    launch matches Launch::Layout { script_chan, render_chan, image_cache, opts, profiler, .. }
        && script_chan.sent().len() == 0 && render_chan.sent().len() == 0 && cloned(
        image_cache_task,
        image_cache,
    ) && cloned(configuration, opts) && cloned(profiler_chan, profiler)
}

/// The script worker comes last, under the pipeline's identifier, with fresh
/// handles into the layout conduit and into its own, and is lent the
/// compositor, the constellation, the resource loader and the image cache.
pub open spec fn starts_script<
    L,
    Constellation: Clone,
    Compositor: Clone,
    ImageCache: Clone,
    Resources: Clone,
    Profiler: Clone,
    Opts: Clone,
>(
    launch: Launch<L, Constellation, Compositor, ImageCache, Resources, Profiler, Opts>,
    id: usize,
    constellation_chan: Constellation,
    compositor_chan: Compositor,
    image_cache_task: ImageCache,
    resource_task: Resources,
) -> bool {
    launch matches Launch::Script {
        id: given,
        compositor,
        layout_chan,
        script_chan,
        constellation,
        resources,
        image_cache,
        ..
    } && given == id && layout_chan.sent().len() == 0 && script_chan.sent().len() == 0
        && cloned(compositor_chan, compositor) && cloned(constellation_chan, constellation)
        && cloned(resource_task, resources) && cloned(image_cache_task, image_cache)
}

/// The starting order of the three workers of pipeline `id`: render, then
/// layout, then script, each lent what it needs.
pub open spec fn start_order<
    L,
    Constellation: Clone,
    Compositor: Clone,
    ImageCache: Clone,
    Resources: Clone,
    Profiler: Clone,
    Opts: Clone,
>(
    launches: Seq<Launch<L, Constellation, Compositor, ImageCache, Resources, Profiler, Opts>>,
    id: usize,
    constellation_chan: Constellation,
    compositor_chan: Compositor,
    image_cache_task: ImageCache,
    resource_task: Resources,
    profiler_chan: Profiler,
    configuration: Opts,
) -> bool {
    &&& launches.len() == 3
    &&& starts_render(launches[0], constellation_chan, compositor_chan, profiler_chan, configuration)
    &&& starts_layout(launches[1], image_cache_task, profiler_chan, configuration)
    &&& starts_script(
        launches[2],
        id,
        constellation_chan,
        compositor_chan,
        image_cache_task,
        resource_task,
    )
}

} // verus!
