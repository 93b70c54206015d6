use wexp::frame::{check_frame, record_frame, Color, Progress, RenderCommand, Stage};
use wexp::pipeline::LayoutId;

fn start() -> Progress {
    Progress {
        stage: Stage::Acquired,
        pipeline: false,
        texture_group: false,
        camera_group: false,
        vertex_buffer: false,
        drawn: false,
    }
}

fn draw(end_vertex: u32) -> RenderCommand {
    RenderCommand::Draw { first_vertex: 0, end_vertex, first_instance: 0, end_instance: 1 }
}

#[test]
fn recorded_frame_is_a_frame() {
    let frame = record_frame(6);
    assert_eq!(frame.len(), 12);
    assert!(check_frame(&frame, 6));
    assert!(!check_frame(&frame, 5));
    assert!(check_frame(&record_frame(0), 0));
}

#[test]
fn recorded_frame_clears_to_opaque_red() {
    let frame = record_frame(6);
    assert_eq!(
        frame[2],
        RenderCommand::BeginRenderPass {
            label: "Render pass",
            clear: Color {
                r: 1.0f64.to_bits(),
                g: 0.0f64.to_bits(),
                b: 0.0f64.to_bits(),
                a: 1.0f64.to_bits()
            },
            store: true,
        }
    );
}

#[test]
fn frame_must_be_complete() {
    let frame = record_frame(6);
    assert!(!check_frame(&[], 6));
    for n in 0..frame.len() {
        assert!(!check_frame(&frame[..n], 6));
    }
    for skipped in 0..frame.len() {
        let mut shorter = frame.clone();
        shorter.remove(skipped);
        assert!(!check_frame(&shorter, 6));
    }
}

#[test]
fn frame_has_one_draw_only() {
    let mut frame = record_frame(6);
    frame.insert(8, draw(6));
    assert!(!check_frame(&frame, 6));
}

#[test]
fn bindings_may_come_in_any_order_before_the_draw() {
    let mut frame = record_frame(6);
    frame.swap(4, 5);
    assert!(check_frame(&frame, 6));
    frame.swap(3, 6);
    assert!(check_frame(&frame, 6));
    frame.swap(6, 7);
    assert!(!check_frame(&frame, 6));
}

#[test]
fn submission_waits_for_the_recording_to_be_finished() {
    let mut frame = record_frame(6);
    frame.swap(9, 10);
    assert!(!check_frame(&frame, 6));
    let mut frame = record_frame(6);
    frame.swap(8, 9);
    assert!(!check_frame(&frame, 6));
    let mut frame = record_frame(6);
    frame.swap(10, 11);
    assert!(!check_frame(&frame, 6));
}

#[test]
fn bind_groups_go_to_their_own_slots() {
    let in_pass = Progress { stage: Stage::InPass, ..start() };
    let texture = RenderCommand::SetBindGroup { index: 0, group: LayoutId::Texture };
    let camera = RenderCommand::SetBindGroup { index: 1, group: LayoutId::Camera };
    assert_eq!(in_pass.advance(&texture, 6), Some(Progress { texture_group: true, ..in_pass }));
    assert_eq!(in_pass.advance(&camera, 6), Some(Progress { camera_group: true, ..in_pass }));
    let crossed = RenderCommand::SetBindGroup { index: 1, group: LayoutId::Texture };
    assert_eq!(in_pass.advance(&crossed, 6), None);
    let beyond = RenderCommand::SetBindGroup { index: 2, group: LayoutId::Camera };
    assert_eq!(in_pass.advance(&beyond, 6), None);
    assert_eq!(start().advance(&texture, 6), None);
}

#[test]
fn draw_needs_everything_bound() {
    let ready = Progress {
        stage: Stage::InPass,
        pipeline: true,
        texture_group: true,
        camera_group: true,
        vertex_buffer: true,
        drawn: false,
    };
    assert_eq!(ready.advance(&draw(6), 6), Some(Progress { drawn: true, ..ready }));
    assert_eq!(ready.advance(&draw(5), 6), None);
    assert_eq!(Progress { pipeline: false, ..ready }.advance(&draw(6), 6), None);
    assert_eq!(Progress { texture_group: false, ..ready }.advance(&draw(6), 6), None);
    assert_eq!(Progress { camera_group: false, ..ready }.advance(&draw(6), 6), None);
    assert_eq!(Progress { vertex_buffer: false, ..ready }.advance(&draw(6), 6), None);
    assert_eq!(Progress { drawn: true, ..ready }.advance(&draw(6), 6), None);
    assert_eq!(Progress { stage: Stage::Recording, ..ready }.advance(&draw(6), 6), None);
    let two_instances =
        RenderCommand::Draw { first_vertex: 0, end_vertex: 6, first_instance: 0, end_instance: 2 };
    assert_eq!(ready.advance(&two_instances, 6), None);
    let other_slot = RenderCommand::SetVertexBuffer { slot: 1 };
    assert_eq!(ready.advance(&other_slot, 6), None);
}

#[test]
fn stages_follow_one_another() {
    let frame = record_frame(6);
    let mut progress = start();
    let mut stages = vec![progress.stage];
    for command in &frame {
        progress = progress.advance(command, 6).unwrap();
        if stages.last() != Some(&progress.stage) {
            stages.push(progress.stage);
        }
    }
    assert_eq!(
        stages,
        vec![
            Stage::Acquired,
            Stage::Viewed,
            Stage::Recording,
            Stage::InPass,
            Stage::PassEnded,
            Stage::Finished,
            Stage::Submitted,
            Stage::Presented,
        ]
    );
    assert!(progress.drawn);
    assert_eq!(progress.advance(&RenderCommand::Present, 6), None);
}
