//! The coordinator's live handle and its operations.

use crate::channel::Chan;
use crate::launch::{start_order, Launch};
use crate::message::{render_signals, script_signals, RenderMsg, ScriptMsg};
use crate::model::{Phase, PipelineView};
use std::sync::mpsc::{channel, Receiver};
use vstd::prelude::*;

verus! {

/// Why an operation could not do all of its work.
#[derive(Clone, Copy, Debug, PartialEq, Eq, Structural)]
pub enum PipelineError {
    /// The script worker no longer reads its conduit.
    ScriptClosed,
    /// The render worker no longer reads its conduit.
    RenderClosed,
    /// The render worker took the exit signal and went away without
    /// acknowledging it.
    Unacknowledged,
}

/// A uniquely identified pipeline of script worker, layout worker and render
/// worker.
#[verifier::reject_recursive_types(L)]
pub struct Pipeline<L> {
    id: usize,
    script_chan: Chan<ScriptMsg>,
    layout_chan: Chan<L>,
    render_chan: Chan<RenderMsg>,
    /// The most recently requested locator.
    url: Option<String>,
    exited: bool,
}

impl<L> View for Pipeline<L> {
    type V = PipelineView<L>;

    closed spec fn view(&self) -> PipelineView<L> {
        PipelineView {
            id: self.id,
            url: match self.url {
                Some(locator) => Some(locator@),
                None => None,
            },
            exited: self.exited,
            script: script_signals(self.script_chan.sent()),
            layout: self.layout_chan.sent(),
            render: render_signals(self.render_chan.sent()),
        }
    }
}

/// What a send on the script conduit amounts to: an error exactly when the
/// conduit did not take the message.
pub fn script_delivery(accepted: bool) -> (outcome: Result<(), PipelineError>)
    ensures
        outcome == if accepted {
            Ok::<(), PipelineError>(())
        } else {
            Err(PipelineError::ScriptClosed)
        },
{
    if accepted {
        Ok(())
    } else {
        Err(PipelineError::ScriptClosed)
    }
}

/// What a teardown amounts to, given whether the script conduit and the
/// render conduit took their exit signals and whether the acknowledgement
/// arrived: the first thing that went wrong, in that order.
pub open spec fn teardown_result(
    script_accepted: bool,
    render_accepted: bool,
    acknowledged: bool,
) -> Result<(), PipelineError> {
    if !script_accepted {
        Err(PipelineError::ScriptClosed)
    } else if !render_accepted {
        Err(PipelineError::RenderClosed)
    } else if !acknowledged {
        Err(PipelineError::Unacknowledged)
    } else {
        Ok(())
    }
}

/// Computes [`teardown_result`].
pub fn exit_outcome(script_accepted: bool, render_accepted: bool, acknowledged: bool) -> (outcome:
    Result<(), PipelineError>)
    ensures
        outcome == teardown_result(script_accepted, render_accepted, acknowledged),
{
    if !script_accepted {
        Err(PipelineError::ScriptClosed)
    } else if !render_accepted {
        Err(PipelineError::RenderClosed)
    } else if !acknowledged {
        Err(PipelineError::Unacknowledged)
    } else {
        Ok(())
    }
}

/// A teardown whose signals are out and whose acknowledgement is still to
/// come.
pub struct PendingExit {
    reply_inbox: Receiver<()>,
    script_accepted: bool,
    render_accepted: bool,
}

impl PendingExit {
    /// Whether the script conduit took the exit signal.
    pub closed spec fn script_accepted(&self) -> bool {
        self.script_accepted
    }

    /// Whether the render conduit took the exit signal.
    pub closed spec fn render_accepted(&self) -> bool {
        self.render_accepted
    }

    /// Blocks until the render worker acknowledges or goes away, and says
    /// how the teardown went. There is no timeout: a render worker that
    /// keeps the reply conduit and never signals keeps the caller here.
    /// Where the render conduit did not take the signal there is nothing to
    /// wait for, and the call returns at once.
    pub fn wait(self) -> (outcome: Result<(), PipelineError>)
        ensures
            ({
                let script = self.script_accepted();
                let render = self.render_accepted();
                outcome == teardown_result(script, render, true) || outcome == teardown_result(
                    script,
                    render,
                    false,
                )
            }),
    {
        let acknowledged = if self.render_accepted {
            match self.reply_inbox.recv() {
                Ok(_) => true,
                Err(_) => false,
            }
        } else {
            false
        };
        exit_outcome(self.script_accepted, self.render_accepted, acknowledged)
    }
}

impl<L> Pipeline<L> {
    /// Allocates the three conduits and returns the pipeline together with
    /// what each worker is to be started with, in starting order: render,
    /// layout, script. Starting them is the caller's part. The lent handles
    /// are not looked into: clones of them go to the workers that need them.
    pub fn create<
        Constellation: Clone,
        Compositor: Clone,
        ImageCache: Clone,
        Resources: Clone,
        Profiler: Clone,
        Opts: Clone,
    >(
        id: usize,
        constellation_chan: Constellation,
        compositor_chan: Compositor,
        image_cache_task: ImageCache,
        resource_task: Resources,
        profiler_chan: Profiler,
        opts: Opts,
    ) -> (made: (
        Pipeline<L>,
        Vec<Launch<L, Constellation, Compositor, ImageCache, Resources, Profiler, Opts>>,
    ))
        ensures
            made.0@ == PipelineView::<L>::initial(id),
            start_order(
                made.1@,
                id,
                constellation_chan,
                compositor_chan,
                image_cache_task,
                resource_task,
                profiler_chan,
                opts,
            ),
    {
        let (script_tx, script_inbox) = channel::<ScriptMsg>();
        let (layout_tx, layout_inbox) = channel::<L>();
        let (render_tx, render_inbox) = channel::<RenderMsg>();
        let script_chan = Chan::new(script_tx);
        let layout_chan = Chan::new(layout_tx);
        let render_chan = Chan::new(render_tx);

        let mut launches = Vec::new();
        launches.push(
            Launch::Render {
                inbox: render_inbox,
                compositor: compositor_chan.clone(),
                opts: opts.clone(),
                constellation: constellation_chan.clone(),
                profiler: profiler_chan.clone(),
            },
        );
        launches.push(
            Launch::Layout {
                inbox: layout_inbox,
                script_chan: script_chan.clone(),
                render_chan: render_chan.clone(),
                image_cache: image_cache_task.clone(),
                opts: opts.clone(),
                profiler: profiler_chan.clone(),
            },
        );
        launches.push(
            Launch::Script {
                id,
                compositor: compositor_chan.clone(),
                layout_chan: layout_chan.clone(),
                inbox: script_inbox,
                script_chan: script_chan.clone(),
                constellation: constellation_chan,
                resources: resource_task.clone(),
                image_cache: image_cache_task.clone(),
            },
        );

        let pipeline = Pipeline::new(id, script_chan, layout_chan, render_chan);
        assert(pipeline@.script =~= Seq::empty());
        assert(pipeline@.render =~= Seq::empty());
        (pipeline, launches)
    }

    /// Wraps three sender handles into a pipeline that has loaded nothing.
    /// What was sent through the handles before counts as sent by it.
    pub fn new(
        id: usize,
        script_chan: Chan<ScriptMsg>,
        layout_chan: Chan<L>,
        render_chan: Chan<RenderMsg>,
    ) -> (pipeline: Pipeline<L>)
        ensures
            pipeline@ == (PipelineView {
                id,
                url: None,
                exited: false,
                script: script_signals(script_chan.sent()),
                layout: layout_chan.sent(),
                render: render_signals(render_chan.sent()),
            }),
    {
        Pipeline { id, script_chan, layout_chan, render_chan, url: None, exited: false }
    }

    /// Remembers `url` as the current locator and asks the script worker to
    /// load it. Does not wait for the worker. An error says that the script
    /// conduit did not take the message.
    pub fn load(&mut self, url: String) -> (outcome: Result<(), PipelineError>)
        requires
            !old(self)@.exited,
        ensures
            final(self)@ == old(self)@.load(url@),
            outcome is Err ==> outcome == Err::<(), PipelineError>(PipelineError::ScriptClosed),
    {
        let msg = ScriptMsg::Load(url.clone());
        self.url = Some(url);
        let accepted = self.script_chan.send(msg);
        assert(final(self)@.script =~= old(self)@.script.push(msg@));
        script_delivery(accepted)
    }

    /// Asks the script worker once more for the current locator. Without
    /// one, sends nothing and succeeds.
    pub fn reload(&mut self) -> (outcome: Result<(), PipelineError>)
        requires
            !old(self)@.exited,
        ensures
            final(self)@ == old(self)@.reload(),
            old(self)@.url is None ==> outcome is Ok,
            outcome is Err ==> outcome == Err::<(), PipelineError>(PipelineError::ScriptClosed),
    {
        let again: Option<String> = match &self.url {
            Some(url) => Some(url.clone()),
            None => None,
        };
        match again {
            Some(url) => {
                let msg = ScriptMsg::Load(url);
                let accepted = self.script_chan.send(msg);
                assert(final(self)@.script =~= old(self)@.script.push(msg@));
                script_delivery(accepted)
            },
            None => Ok(()),
        }
    }

    /// Begins the teardown and does not block. Signals the script worker,
    /// which takes the layout worker down with it, then hands the render
    /// worker an exit signal with a fresh reply conduit. From here on the
    /// pipeline has exited; what is returned waits for the acknowledgement.
    pub fn signal_exit(&mut self) -> (pending: PendingExit)
        requires
            !old(self)@.exited,
        ensures
            final(self)@ == old(self)@.exit(),
    {
        let script_accepted = self.script_chan.send(ScriptMsg::Exit);
        let (reply, reply_inbox) = channel::<()>();
        let render_accepted = self.render_chan.send(RenderMsg::Exit(reply));
        self.exited = true;
        assert(final(self)@.script =~= old(self)@.script.push(ScriptMsg::Exit@));
        assert(final(self)@.render =~= old(self)@.render.push(RenderMsg::Exit(reply)@));
        PendingExit { reply_inbox, script_accepted, render_accepted }
    }

    /// Tears the pipeline down: signals script and render, then blocks until
    /// the render worker acknowledges or goes away. This is the only wait in
    /// the coordinator. Nothing confirms that script and layout are gone.
    pub fn exit(&mut self) -> (outcome: Result<(), PipelineError>)
        requires
            !old(self)@.exited,
        ensures
            final(self)@ == old(self)@.exit(),
    {
        let pending = self.signal_exit();
        pending.wait()
    }

    /// The identifier given at creation.
    pub fn id(&self) -> (id: usize)
        ensures
            id == self@.id,
    {
        self.id
    }

    /// The most recently requested locator, if any load was requested.
    pub fn url(&self) -> (url: Option<&String>)
        ensures
            url is Some <==> self@.url is Some,
            url matches Some(locator) ==> self@.url == Some(locator@),
    {
        self.url.as_ref()
    }

    /// Where the pipeline stands in its life.
    pub fn phase(&self) -> (phase: Phase)
        ensures
            phase == self@.phase(),
    {
        if self.exited {
            Phase::Exited
        } else if self.url.is_some() {
            Phase::Navigated
        } else {
            Phase::Created
        }
    }

    /// The pipeline's handle into the script conduit, to clone for another
    /// producer.
    pub fn script_chan(&self) -> (chan: &Chan<ScriptMsg>)
        ensures
            script_signals(chan.sent()) == self@.script,
    {
        &self.script_chan
    }

    /// The pipeline's handle into the layout conduit, to clone for another
    /// producer. The pipeline itself sends nothing through it.
    pub fn layout_chan(&self) -> (chan: &Chan<L>)
        ensures
            chan.sent() == self@.layout,
    {
        &self.layout_chan
    }

    /// The pipeline's handle into the render conduit, to clone for another
    /// producer.
    pub fn render_chan(&self) -> (chan: &Chan<RenderMsg>)
        ensures
            render_signals(chan.sent()) == self@.render,
    {
        &self.render_chan
    }
}

} // verus!
