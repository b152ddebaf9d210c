//! The coordinator as a state machine over plain values, and the laws that
//! hold of it.
//!
//! A state holds what the coordinator remembers and, for each of the three
//! conduits, what it has put on that conduit so far. The contracts of the
//! executable operations are stated over these states.

use crate::message::{RenderSignal, ScriptSignal};
use vstd::prelude::*;

verus! {

/// Where a pipeline stands in its life.
#[derive(Clone, Copy, Debug, PartialEq, Eq, Structural)]
pub enum Phase {
    /// Started, nothing loaded yet.
    Created,
    /// At least one load was requested.
    Navigated,
    /// Torn down. Terminal: no operation is defined from here.
    Exited,
}

/// A pipeline as contracts see it.
pub struct PipelineView<L> {
    /// The identifier given at creation.
    pub id: usize,
    /// The locator of the latest load request, if there was one.
    pub url: Option<Seq<char>>,
    /// Whether the pipeline was torn down.
    pub exited: bool,
    /// What the coordinator has put on the script conduit, oldest first.
    pub script: Seq<ScriptSignal>,
    /// What the coordinator has put on the layout conduit, oldest first.
    pub layout: Seq<L>,
    /// What the coordinator has put on the render conduit, oldest first.
    pub render: Seq<RenderSignal>,
}

/// One operation of the pipeline's owner.
pub enum Step {
    Load(Seq<char>),
    Reload,
    Exit,
}

impl<L> PipelineView<L> {
    /// A pipeline right after creation: nothing loaded, nothing sent.
    pub open spec fn initial(id: usize) -> Self {
        PipelineView {
            id,
            url: None,
            exited: false,
            script: Seq::empty(),
            layout: Seq::empty(),
            render: Seq::empty(),
        }
    }

    /// Where the pipeline stands: exited, or else whether anything was
    /// loaded.
    pub open spec fn phase(self) -> Phase {
        if self.exited {
            Phase::Exited
        } else if self.url is Some {
            Phase::Navigated
        } else {
            Phase::Created
        }
    }

    /// Remembers `locator` in place of any earlier one, and asks the script
    /// worker to load it.
    pub open spec fn load(self, locator: Seq<char>) -> Self {
        PipelineView {
            url: Some(locator),
            script: self.script.push(ScriptSignal::Load(locator)),
            ..self
        }
    }

    /// Asks the script worker once more for the remembered locator. Without
    /// one, nothing happens.
    pub open spec fn reload(self) -> Self {
        match self.url {
            Some(locator) => PipelineView {
                script: self.script.push(ScriptSignal::Load(locator)),
                ..self
            },
            None => self,
        }
    }

    /// Signals the script worker and the render worker to terminate.
    pub open spec fn exit(self) -> Self {
        PipelineView {
            exited: true,
            script: self.script.push(ScriptSignal::Exit),
            render: self.render.push(RenderSignal::Exit),
            ..self
        }
    }

    /// The state after one operation of the owner.
    pub open spec fn step(self, s: Step) -> Self {
        match s {
            Step::Load(locator) => self.load(locator),
            Step::Reload => self.reload(),
            Step::Exit => self.exit(),
        }
    }

    /// The state after `steps`, taken one after the other.
    pub open spec fn run(self, steps: Seq<Step>) -> Self
        decreases steps.len(),
    {
        if steps.len() == 0 {
            self
        } else {
            self.run(steps.drop_last()).step(steps.last())
        }
    }
}

/// A life that an owner may lead: teardown, if it comes, comes last.
pub open spec fn orderly(steps: Seq<Step>) -> bool {
    forall|i: int| 0 <= i < steps.len() - 1 ==> !(#[trigger] steps[i] is Exit)
}

/// A fresh pipeline has the identifier it was given, has loaded nothing and
/// has sent nothing.
pub proof fn law_fresh<L>(id: usize)
    ensures
        PipelineView::<L>::initial(id).id == id,
        PipelineView::<L>::initial(id).url is None,
        PipelineView::<L>::initial(id).phase() == Phase::Created,
        PipelineView::<L>::initial(id).script.len() == 0,
        PipelineView::<L>::initial(id).layout.len() == 0,
        PipelineView::<L>::initial(id).render.len() == 0,
{
}

/// A load followed by a reload puts the same load request on the script
/// conduit twice, behind whatever was there.
pub proof fn law_reload_repeats_load<L>(v: PipelineView<L>, locator: Seq<char>)
    ensures
        v.load(locator).reload().script == v.script.push(ScriptSignal::Load(locator)).push(
            ScriptSignal::Load(locator),
        ),
        PipelineView::<L>::initial(v.id).load(locator).reload().script == seq![
            ScriptSignal::Load(locator),
            ScriptSignal::Load(locator),
        ],
{
    let fresh = PipelineView::<L>::initial(v.id);
    assert(fresh.load(locator).reload().script =~= seq![
        ScriptSignal::Load(locator),
        ScriptSignal::Load(locator),
    ]);
}

/// A reload before any load changes nothing and sends nothing.
pub proof fn law_reload_before_load<L>(v: PipelineView<L>)
    requires
        v.url is None,
    ensures
        v.reload() == v,
        PipelineView::<L>::initial(v.id).reload().script.len() == 0,
{
}

/// Two loads reach the script conduit in the order in which they were
/// requested, and the second locator is the one remembered.
pub proof fn law_loads_in_order<L>(v: PipelineView<L>, first: Seq<char>, second: Seq<char>)
    ensures
        v.load(first).load(second).script == v.script.push(ScriptSignal::Load(first)).push(
            ScriptSignal::Load(second),
        ),
        v.load(first).load(second).url == Some(second),
        PipelineView::<L>::initial(v.id).load(first).load(second).script == seq![
            ScriptSignal::Load(first),
            ScriptSignal::Load(second),
        ],
{
    let fresh = PipelineView::<L>::initial(v.id);
    assert(fresh.load(first).load(second).script =~= seq![
        ScriptSignal::Load(first),
        ScriptSignal::Load(second),
    ]);
}

/// Whatever the owner does, and however often, the coordinator puts nothing
/// on the layout conduit.
pub proof fn law_layout_untouched<L>(v: PipelineView<L>, steps: Seq<Step>)
    ensures
        v.run(steps).layout == v.layout,
        PipelineView::<L>::initial(v.id).run(steps).layout.len() == 0,
    decreases steps.len(),
{
    if steps.len() > 0 {
        law_layout_untouched(v, steps.drop_last());
        law_layout_untouched(PipelineView::<L>::initial(v.id), steps.drop_last());
    }
}

/// What was put on a conduit stays there, in its place: whatever the owner
/// does next only adds behind it.
pub proof fn law_conduits_only_grow<L>(v: PipelineView<L>, steps: Seq<Step>)
    ensures
        v.script.is_prefix_of(v.run(steps).script),
        v.render.is_prefix_of(v.run(steps).render),
    decreases steps.len(),
{
    if steps.len() > 0 {
        law_conduits_only_grow(v, steps.drop_last());
    }
}

/// The identifier never changes.
pub proof fn law_id_constant<L>(v: PipelineView<L>, steps: Seq<Step>)
    ensures
        v.run(steps).id == v.id,
    decreases steps.len(),
{
    if steps.len() > 0 {
        law_id_constant(v, steps.drop_last());
    }
}

/// The remembered locator is that of the latest load, whatever came before:
/// a load replaces it, a reload and a teardown keep it.
pub proof fn law_locator_is_latest_load<L>(v: PipelineView<L>, steps: Seq<Step>, next: Step)
    ensures
        next matches Step::Load(locator) ==> v.run(steps.push(next)).url == Some(locator),
        !(next is Load) ==> v.run(steps.push(next)).url == v.run(steps).url,
{
    assert(steps.push(next).drop_last() =~= steps);
}

/// The phases follow one another as the life of a pipeline prescribes: a
/// load leads to `Navigated`, a reload stays where it is, and teardown leads
/// to `Exited` from anywhere.
pub proof fn law_phases<L>(v: PipelineView<L>, locator: Seq<char>)
    ensures
        !v.exited ==> v.load(locator).phase() == Phase::Navigated,
        v.reload().phase() == v.phase(),
        v.exit().phase() == Phase::Exited,
{
}

/// Through an orderly life a pipeline is torn down only by its last step:
/// before that step it has not exited, and the render conduit has seen
/// nothing.
pub proof fn law_teardown_once<L>(id: usize, steps: Seq<Step>)
    requires
        orderly(steps),
        steps.len() > 0,
    ensures
        !PipelineView::<L>::initial(id).run(steps.drop_last()).exited,
        PipelineView::<L>::initial(id).run(steps.drop_last()).render.len() == 0,
        PipelineView::<L>::initial(id).run(steps).exited <==> steps.last() is Exit,
    decreases steps.len(),
{
    let before = steps.drop_last();
    if before.len() > 0 {
        assert(orderly(before)) by {
            assert forall|i: int| 0 <= i < before.len() - 1 implies !(#[trigger] before[i] is Exit) by {
                assert(before[i] == steps[i]);
            }
        }
        law_teardown_once::<L>(id, before);
        assert(!(before.last() is Exit)) by {
            assert(before.last() == steps[steps.len() - 2]);
        }
    }
}

} // verus!
