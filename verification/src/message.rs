//! The control messages that the coordinator puts on the workers' conduits.

use std::sync::mpsc::Sender;
use vstd::prelude::*;

verus! {

/// What the script worker reads from its conduit.
pub enum ScriptMsg {
    /// Navigate to the locator. The locator is passed on as it came: whether
    /// it is well formed is the script worker's concern.
    Load(String),
    /// Terminate, and take the layout worker down too.
    Exit,
}

/// What the render worker reads from its conduit.
pub enum RenderMsg {
    /// Finish what is in flight, signal once on the reply conduit, then
    /// terminate.
    Exit(Sender<()>),
}

/// A script message as contracts see it.
pub enum ScriptSignal {
    Load(Seq<char>),
    Exit,
}

/// A render message as contracts see it. The reply conduit is left out: one
/// conduit cannot be told from another.
pub enum RenderSignal {
    Exit,
}

impl View for ScriptMsg {
    type V = ScriptSignal;

    open spec fn view(&self) -> ScriptSignal {
        match self {
            ScriptMsg::Load(locator) => ScriptSignal::Load(locator@),
            ScriptMsg::Exit => ScriptSignal::Exit,
        }
    }
}

impl View for RenderMsg {
    type V = RenderSignal;

    open spec fn view(&self) -> RenderSignal {
        RenderSignal::Exit
    }
}

/// The signals behind a run of script messages, in the same order.
pub open spec fn script_signals(msgs: Seq<ScriptMsg>) -> Seq<ScriptSignal> {
    msgs.map_values(|m: ScriptMsg| m@)
}

/// The signals behind a run of render messages, in the same order.
pub open spec fn render_signals(msgs: Seq<RenderMsg>) -> Seq<RenderSignal> {
    msgs.map_values(|m: RenderMsg| m@)
}

} // verus!
