use quadpipe::pipeline::AppContext;
use quadpipe::stages::{ComputeResources, ComputeStage, DrawStage, RenderStage};

const BOOT: u64 = 1_000_000;

fn resources() -> ComputeResources {
    ComputeResources {
        program: 10,
        framebuffer: 11,
        transfer_buffer: 12,
        in_texture: 13,
        out_texture: 14,
    }
}

fn context() -> AppContext {
    AppContext { width: 800, height: 600, boot_time: BOOT }
}

#[test]
fn draw_stage_issues_fixed_background_draw() {
    let stage = DrawStage::new(7);
    assert_eq!(stage.program, 7);
    let call = stage.draw_call();
    assert_eq!(call.clear.red, 255);
    assert_eq!(call.clear.green, 0);
    assert_eq!(call.clear.blue, 0);
    assert_eq!(call.clear.alpha, 255);
    assert_eq!(call.first, 0);
    assert_eq!(call.vert_count, 6);
}

#[test]
fn compute_stage_starts_at_frame_zero() {
    let stage = ComputeStage::new(context(), resources());
    assert_eq!(stage.frame, 0);
    assert_eq!(stage.in_state.content, 0);
    assert_eq!(stage.out_state.content, 0);
}

#[test]
fn frame_counter_counts_every_invocation() {
    let mut stage = ComputeStage::new(context(), resources());
    for i in 0..5u32 {
        let pass = stage.render_frame(BOOT + (i as u64) * 16);
        assert_eq!(pass.u_frame, i);
        assert_eq!(stage.frame, i + 1);
    }
}

#[test]
fn three_renders_keep_textures_at_800_by_600() {
    let mut stage = ComputeStage::new(context(), resources());
    for i in 0..3u32 {
        stage.render_frame(BOOT + (i as u64) * 16);
        assert_eq!(stage.in_state.width, 800);
        assert_eq!(stage.in_state.height, 600);
        assert_eq!(stage.out_state.width, 800);
        assert_eq!(stage.out_state.height, 600);
        assert_eq!(stage.in_state.handle, 13);
        assert_eq!(stage.out_state.handle, 14);
    }
    assert_eq!(stage.frame, 3);
}

#[test]
fn transfer_copies_content_and_keeps_identity() {
    let mut stage = ComputeStage::new(context(), resources());
    stage.render_frame(BOOT + 16);
    assert_eq!(stage.in_state.content, stage.out_state.content);
    assert_eq!(stage.in_state.handle, 13);
    assert_eq!(stage.out_state.handle, 14);
    let op = stage.transfer_texture();
    assert_eq!(op.read_framebuffer, 11);
    assert_eq!(op.draw_framebuffer, 12);
    assert_eq!(op.width, 800);
    assert_eq!(op.height, 600);
}

#[test]
fn compute_pass_wires_the_three_uniforms() {
    let mut stage = ComputeStage::new(context(), resources());
    let pass = stage.render_frame(BOOT + 250);
    assert_eq!(pass.program, 10);
    assert_eq!(pass.target_framebuffer, 11);
    assert_eq!(pass.u_frame, 0);
    assert_eq!(pass.u_resolution.width, 800);
    assert_eq!(pass.u_resolution.height, 600);
    assert_eq!(pass.u_time_ms, 250);
    assert_eq!(pass.draw.vert_count, 6);
}

#[test]
fn u_time_never_decreases_across_frames() {
    let mut stage = ComputeStage::new(context(), resources());
    let first = stage.render_frame(BOOT + 100);
    let second = stage.render_frame(BOOT + 250);
    assert!(first.u_time_ms <= second.u_time_ms);
    assert_eq!(first.u_time_ms, 100);
    assert_eq!(second.u_time_ms, 250);
}

#[test]
fn render_stage_first_frame_at_elapsed_zero() {
    let mut stage = RenderStage::new(context(), 20, resources());
    let out = stage.render_frame(BOOT);
    assert_eq!(out.compute.u_time_ms, 0);
    assert_eq!(out.present.u_time_ms, 0);
    assert_eq!(out.compute.u_frame, 0);
    assert_eq!(out.compute.program, 10);
    assert_eq!(out.present.program, 20);
    assert_eq!(stage.compute_stage.frame, 1);
}

#[test]
fn render_stage_presents_at_surface_resolution() {
    let mut stage = RenderStage::new(context(), 20, resources());
    let out = stage.render_frame(BOOT + 33);
    assert_eq!(out.present.u_resolution.width, 800);
    assert_eq!(out.present.u_resolution.height, 600);
    assert_eq!(out.present.draw.vert_count, 6);
    assert_eq!(out.present.draw.clear.red, 255);
}
