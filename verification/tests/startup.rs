use pipeline::launch::Launch;
use pipeline::message::{RenderMsg, ScriptMsg};
use pipeline::model::Phase;
use pipeline::pipeline::Pipeline;
use std::sync::mpsc::TryRecvError;

type Launches = Vec<Launch<u32, &'static str, u8, u16, i32, i64, String>>;

fn started(id: usize) -> (Pipeline<u32>, Launches) {
    Pipeline::create(id, "constellation", 2u8, 3u16, 4i32, 5i64, "opts".to_string())
}

#[test]
fn create_returns_the_given_id_and_nothing_loaded() {
    let (pipeline, _launches) = started(7);
    assert_eq!(pipeline.id(), 7);
    assert!(pipeline.url().is_none());
    assert_eq!(pipeline.phase(), Phase::Created);
}

#[test]
fn workers_start_in_the_order_render_layout_script() {
    let (_pipeline, launches) = started(7);
    assert_eq!(launches.len(), 3);
    assert!(matches!(launches[0], Launch::Render { .. }));
    assert!(matches!(launches[1], Launch::Layout { .. }));
    assert!(matches!(launches[2], Launch::Script { id: 7, .. }));
}

#[test]
fn each_worker_is_lent_the_handles_it_needs() {
    let (_pipeline, launches) = started(7);
    for launch in launches {
        match launch {
            Launch::Render { compositor, opts, constellation, profiler, .. } => {
                assert_eq!(compositor, 2u8);
                assert_eq!(opts, "opts");
                assert_eq!(constellation, "constellation");
                assert_eq!(profiler, 5i64);
            }
            Launch::Layout { image_cache, opts, profiler, .. } => {
                assert_eq!(image_cache, 3u16);
                assert_eq!(opts, "opts");
                assert_eq!(profiler, 5i64);
            }
            Launch::Script { id, compositor, constellation, resources, image_cache, .. } => {
                assert_eq!(id, 7);
                assert_eq!(compositor, 2u8);
                assert_eq!(constellation, "constellation");
                assert_eq!(resources, 4i32);
                assert_eq!(image_cache, 3u16);
            }
        }
    }
}

#[test]
fn the_workers_are_wired_to_one_another_and_to_the_pipeline() {
    let (mut pipeline, launches) = started(7);
    let mut launches = launches.into_iter();
    let Some(Launch::Render { inbox: render_inbox, .. }) = launches.next() else {
        panic!("render does not start first");
    };
    let Some(Launch::Layout {
        inbox: layout_inbox,
        script_chan: mut layout_to_script,
        render_chan: mut layout_to_render,
        ..
    }) = launches.next() else {
        panic!("layout does not start second");
    };
    let Some(Launch::Script {
        inbox: script_inbox,
        layout_chan: mut script_to_layout,
        script_chan: mut script_to_itself,
        ..
    }) = launches.next() else {
        panic!("script does not start third");
    };
    assert!(launches.next().is_none());

    // Nothing was sent on any conduit while the pipeline was made.
    assert!(matches!(render_inbox.try_recv(), Err(TryRecvError::Empty)));
    assert!(matches!(layout_inbox.try_recv(), Err(TryRecvError::Empty)));
    assert!(matches!(script_inbox.try_recv(), Err(TryRecvError::Empty)));

    // The pipeline talks to the script worker.
    assert_eq!(pipeline.load("http://example.org/".to_string()), Ok(()));
    assert!(matches!(script_inbox.try_recv(), Ok(ScriptMsg::Load(l)) if l == "http://example.org/"));

    // Layout reaches script and render.
    assert!(layout_to_script.send(ScriptMsg::Load("from layout".to_string())));
    assert!(matches!(script_inbox.try_recv(), Ok(ScriptMsg::Load(l)) if l == "from layout"));
    let (reply, _reply_inbox) = std::sync::mpsc::channel();
    assert!(layout_to_render.send(RenderMsg::Exit(reply)));
    assert!(matches!(render_inbox.try_recv(), Ok(RenderMsg::Exit(_))));

    // Script reaches layout and itself.
    assert!(script_to_layout.send(42));
    assert_eq!(layout_inbox.try_recv(), Ok(42));
    assert!(script_to_itself.send(ScriptMsg::Exit));
    assert!(matches!(script_inbox.try_recv(), Ok(ScriptMsg::Exit)));

    // The pipeline's own layout handle feeds the same layout conduit.
    let mut owner_to_layout = pipeline.layout_chan().clone();
    assert!(owner_to_layout.send(43));
    assert_eq!(layout_inbox.try_recv(), Ok(43));
    assert!(matches!(layout_inbox.try_recv(), Err(TryRecvError::Empty)));
}
