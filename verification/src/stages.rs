//! The three pipeline stages, modeled as state machines over plain
//! values.
//!
//! GPU objects appear here as integer handles chosen by the host when
//! it allocates them; a texture's pixel contents appear as a generation
//! number (0 for the blank allocation, n for the state written by frame
//! n — equal generations mean equal pixel contents). Each `render_frame`
//! advances the model and returns the pass data — target, uniform
//! values, draw call and transfer rectangle — that the host replays
//! against the device, rebinding everything the pass depends on.

use vstd::prelude::*;

use crate::geometry::{quad_seq, QUAD_VERTEX_COUNT};
use crate::pipeline::{AppContext, Stage};
use crate::timing::elapsed_millis;

verus! {

/// The fixed background color a draw pass clears to, in 8-bit channels
/// (the device takes each channel as channel / 255.0).
#[derive(Clone, Copy, PartialEq, Eq, Structural, Debug)]
pub struct ClearColor {
    pub red: u8,
    pub green: u8,
    pub blue: u8,
    pub alpha: u8,
}

/// A surface size in pixels, as the resolution uniform carries it.
#[derive(Clone, Copy, PartialEq, Eq, Structural, Debug)]
pub struct Resolution {
    pub width: u32,
    pub height: u32,
}

/// One rasterization call: clear the bound target, then draw the quad's
/// vertices starting at the first one.
#[derive(Clone, Copy, PartialEq, Eq, Structural, Debug)]
pub struct DrawCall {
    pub clear: ClearColor,
    pub first: u32,
    pub vert_count: u32,
}

/// One offscreen state texture: its device handle, its fixed size, and
/// its pixel contents as a generation number.
#[derive(Clone, Copy, PartialEq, Eq, Structural, Debug)]
pub struct StateTexture {
    pub handle: u32,
    pub width: u32,
    pub height: u32,
    pub content: u64,
}

/// The device objects the host allocated for a compute stage: the
/// update program, the two offscreen render targets, and the two state
/// textures they wrap.
#[derive(Clone, Copy, PartialEq, Eq, Structural, Debug)]
pub struct ComputeResources {
    pub program: u32,
    pub framebuffer: u32,
    pub transfer_buffer: u32,
    pub in_texture: u32,
    pub out_texture: u32,
}

/// The blit that publishes the freshly written state: copy the full
/// rectangle from the write target into the read target. The host must
/// let pending device work finish before it reads.
#[derive(Clone, Copy, PartialEq, Eq, Structural, Debug)]
pub struct TransferOp {
    pub read_framebuffer: u32,
    pub draw_framebuffer: u32,
    pub width: u32,
    pub height: u32,
}

/// Everything the host replays for one state-update pass: bind the
/// program and the offscreen target, set the three uniforms, run the
/// draw call, unbind, then perform the transfer.
#[derive(Clone, Copy, PartialEq, Eq, Structural, Debug)]
pub struct ComputePass {
    pub program: u32,
    pub target_framebuffer: u32,
    pub u_frame: u32,
    pub u_resolution: Resolution,
    pub u_time_ms: u64,
    pub draw: DrawCall,
    pub transfer: TransferOp,
}

/// Everything the host replays for one presentation pass: bind the
/// program and the default on-screen target, set the two uniforms, run
/// the draw call, then flush.
#[derive(Clone, Copy, PartialEq, Eq, Structural, Debug)]
pub struct PresentPass {
    pub program: u32,
    pub u_resolution: Resolution,
    pub u_time_ms: u64,
    pub draw: DrawCall,
}

/// One whole frame of work: the state-update pass, then the
/// presentation pass.
#[derive(Clone, Copy, PartialEq, Eq, Structural, Debug)]
pub struct FrameOutput {
    pub compute: ComputePass,
    pub present: PresentPass,
}

/// The fixed clear color (full red, opaque).
pub open spec fn background_color() -> ClearColor {
    ClearColor { red: 255, green: 0, blue: 0, alpha: 255 }
}

/// Rasterizes the full-screen quad into whichever render target is
/// currently bound, with a program received already linked. It holds no
/// cross-frame state; target and uniform selection are the caller's.
#[derive(Clone, Copy, PartialEq, Eq, Structural, Debug)]
pub struct DrawStage {
    pub program: u32,
    pub vert_count: u32,
}

/// The draw call a given draw stage issues.
pub open spec fn draw_call_spec(s: DrawStage) -> DrawCall {
    DrawCall { clear: background_color(), first: 0, vert_count: s.vert_count }
}

impl DrawStage {
    /// A draw stage bound to an already-linked program; the vertex
    /// count is the full quad's (the host uploads `quad_vertices` to
    /// the stage's buffer once, at construction).
    pub fn new(program: u32) -> (s: DrawStage)
        ensures
            s == (DrawStage { program, vert_count: QUAD_VERTEX_COUNT }),
            s.vert_count == quad_seq().len(),
    {
        DrawStage { program, vert_count: QUAD_VERTEX_COUNT }
    }

    /// The one rasterization this stage performs per invocation: clear
    /// the bound target to the fixed background, draw the quad.
    pub fn draw_call(&self) -> (d: DrawCall)
        ensures
            d == draw_call_spec(*self),
    {
        DrawCall {
            clear: ClearColor { red: 255, green: 0, blue: 0, alpha: 255 },
            first: 0,
            vert_count: self.vert_count,
        }
    }
}

impl Stage for DrawStage {
    open spec fn ready(&self, now_ms: u64) -> bool {
        true
    }

    open spec fn stepped(pre: Self, post: Self, now_ms: u64) -> bool {
        post == pre
    }

    fn render(&mut self, now_ms: u64) {
        let _ = self.draw_call();
    }
}

/// Owns the double-buffered simulation state: two equal-sized textures,
/// each wrapped by an offscreen render target, plus the update program,
/// a private draw stage, and the monotonic frame counter.
#[derive(Clone, Copy, PartialEq, Eq, Structural, Debug)]
pub struct ComputeStage {
    pub ctx: AppContext,
    pub program: u32,
    pub framebuffer: u32,
    pub transfer_buffer: u32,
    pub in_state: StateTexture,
    pub out_state: StateTexture,
    pub draw_stage: DrawStage,
    pub frame: u32,
}

impl ComputeStage {
    /// The stage's invariant: a usable surface, two distinct textures
    /// (the pair never shares storage) both sized exactly to the
    /// surface captured at construction, a draw stage bound to the
    /// update program, and — between frames — both textures holding the
    /// same published state.
    pub open spec fn wf(&self) -> bool {
        &&& self.ctx.wf()
        &&& self.in_state.handle != self.out_state.handle
        &&& self.in_state.width == self.ctx.width
        &&& self.in_state.height == self.ctx.height
        &&& self.out_state.width == self.ctx.width
        &&& self.out_state.height == self.ctx.height
        &&& self.in_state.content == self.out_state.content
        &&& self.draw_stage.program == self.program
        &&& self.draw_stage.vert_count == QUAD_VERTEX_COUNT
    }
}

/// A compute stage as construction leaves it: both textures blank and
/// sized to the surface, the counter at zero.
pub open spec fn initial_compute_stage(ctx: AppContext, res: ComputeResources) -> ComputeStage {
    ComputeStage {
        ctx,
        program: res.program,
        framebuffer: res.framebuffer,
        transfer_buffer: res.transfer_buffer,
        in_state: StateTexture {
            handle: res.in_texture,
            width: ctx.width,
            height: ctx.height,
            content: 0,
        },
        out_state: StateTexture {
            handle: res.out_texture,
            width: ctx.width,
            height: ctx.height,
            content: 0,
        },
        draw_stage: DrawStage { program: res.program, vert_count: QUAD_VERTEX_COUNT },
        frame: 0,
    }
}

/// One simulation step: the update pass writes the next state
/// generation into the write texture, the transfer copies it into the
/// read texture, and the frame counter advances. Handles, sizes and
/// context never change.
pub open spec fn compute_step(s: ComputeStage) -> ComputeStage {
    ComputeStage {
        frame: (s.frame + 1) as u32,
        in_state: StateTexture { content: (s.frame + 1) as u64, ..s.in_state },
        out_state: StateTexture { content: (s.frame + 1) as u64, ..s.out_state },
        ..s
    }
}

/// The transfer a given compute stage issues: full-rectangle copy from
/// its write target to its read target.
pub open spec fn transfer_op_spec(s: ComputeStage) -> TransferOp {
    TransferOp {
        read_framebuffer: s.framebuffer,
        draw_framebuffer: s.transfer_buffer,
        width: s.ctx.width,
        height: s.ctx.height,
    }
}

/// The state-update pass a given compute stage runs for one frame, at
/// one host clock sample.
pub open spec fn compute_pass_spec(s: ComputeStage, now_ms: u64) -> ComputePass {
    ComputePass {
        program: s.program,
        target_framebuffer: s.framebuffer,
        u_frame: s.frame,
        u_resolution: Resolution { width: s.ctx.width, height: s.ctx.height },
        u_time_ms: (now_ms - s.ctx.boot_time) as u64,
        draw: draw_call_spec(s.draw_stage),
        transfer: transfer_op_spec(s),
    }
}

impl ComputeStage {
    /// A compute stage over the given surface and the device objects
    /// the host allocated for it. The two textures must be distinct
    /// storage; both are sized exactly `ctx.width x ctx.height` and
    /// stay so for the stage's lifetime.
    pub fn new(ctx: AppContext, res: ComputeResources) -> (s: ComputeStage)
        requires
            ctx.wf(),
            res.in_texture != res.out_texture,
        ensures
            s == initial_compute_stage(ctx, res),
            s.wf(),
            s.frame == 0,
    {
        ComputeStage {
            ctx,
            program: res.program,
            framebuffer: res.framebuffer,
            transfer_buffer: res.transfer_buffer,
            in_state: StateTexture {
                handle: res.in_texture,
                width: ctx.width,
                height: ctx.height,
                content: 0,
            },
            out_state: StateTexture {
                handle: res.out_texture,
                width: ctx.width,
                height: ctx.height,
                content: 0,
            },
            draw_stage: DrawStage::new(res.program),
            frame: 0,
        }
    }

    /// Publish the freshly written state: after the copy the read
    /// texture's contents equal the write texture's, while both handles
    /// — and everything else about the stage — stay as they were. The
    /// returned blit covers the full captured surface rectangle.
    pub fn transfer_texture(&mut self) -> (op: TransferOp)
        ensures
            *final(self) == (ComputeStage {
                in_state: StateTexture {
                    content: old(self).out_state.content,
                    ..old(self).in_state
                },
                ..*old(self)
            }),
            final(self).in_state.content == final(self).out_state.content,
            op == transfer_op_spec(*old(self)),
    {
        self.in_state.content = self.out_state.content;
        TransferOp {
            read_framebuffer: self.framebuffer,
            draw_framebuffer: self.transfer_buffer,
            width: self.ctx.width,
            height: self.ctx.height,
        }
    }

    /// One simulation frame: run the update pass against the write
    /// target with the frame, resolution and elapsed-time uniforms,
    /// transfer the result into the read texture, and advance the
    /// counter. The host clock sample must not precede boot.
    pub fn render_frame(&mut self, now_ms: u64) -> (pass: ComputePass)
        requires
            old(self).wf(),
            old(self).frame < u32::MAX,
            old(self).ctx.boot_time <= now_ms,
        ensures
            *final(self) == compute_step(*old(self)),
            final(self).wf(),
            pass == compute_pass_spec(*old(self), now_ms),
    {
        let u_frame = self.frame;
        let u_resolution = Resolution { width: self.ctx.width, height: self.ctx.height };
        let u_time_ms = elapsed_millis(now_ms, self.ctx.boot_time);
        let draw = self.draw_stage.draw_call();
        // the update pass writes the next state generation into the write target
        self.out_state.content = self.frame as u64 + 1;
        let transfer = self.transfer_texture();
        self.frame = self.frame + 1;
        ComputePass {
            program: self.program,
            target_framebuffer: self.framebuffer,
            u_frame,
            u_resolution,
            u_time_ms,
            draw,
            transfer,
        }
    }
}

impl Stage for ComputeStage {
    open spec fn ready(&self, now_ms: u64) -> bool {
        &&& self.wf()
        &&& self.frame < u32::MAX
        &&& self.ctx.boot_time <= now_ms
    }

    open spec fn stepped(pre: Self, post: Self, now_ms: u64) -> bool {
        post == compute_step(pre)
    }

    fn render(&mut self, now_ms: u64) {
        let _ = self.render_frame(now_ms);
    }
}

/// The top-level orchestrator: one compute stage and a presentation
/// draw stage over the shared context; each invocation advances the
/// simulation, then presents it on the on-screen target.
#[derive(Clone, Copy, PartialEq, Eq, Structural, Debug)]
pub struct RenderStage {
    pub ctx: AppContext,
    pub program: u32,
    pub compute_stage: ComputeStage,
    pub draw_stage: DrawStage,
}

impl RenderStage {
    /// The orchestrator's invariant: a well-formed compute stage over
    /// the same context, and a presentation draw stage bound to the
    /// presentation program.
    pub open spec fn wf(&self) -> bool {
        &&& self.ctx.wf()
        &&& self.compute_stage.wf()
        &&& self.compute_stage.ctx == self.ctx
        &&& self.draw_stage.program == self.program
        &&& self.draw_stage.vert_count == QUAD_VERTEX_COUNT
    }
}

/// A render stage as construction leaves it: a fresh compute stage and
/// a presentation draw stage bound to the presentation program.
pub open spec fn initial_render_stage(
    ctx: AppContext,
    present_program: u32,
    res: ComputeResources,
) -> RenderStage {
    RenderStage {
        ctx,
        program: present_program,
        compute_stage: initial_compute_stage(ctx, res),
        draw_stage: DrawStage { program: present_program, vert_count: QUAD_VERTEX_COUNT },
    }
}

/// One orchestrated frame: only the inner compute stage steps.
pub open spec fn render_step(s: RenderStage) -> RenderStage {
    RenderStage { compute_stage: compute_step(s.compute_stage), ..s }
}

/// The presentation pass a given render stage runs for one frame, at
/// one host clock sample: on-screen target, resolution and elapsed-time
/// uniforms, then the quad.
pub open spec fn present_pass_spec(s: RenderStage, now_ms: u64) -> PresentPass {
    PresentPass {
        program: s.program,
        u_resolution: Resolution { width: s.ctx.width, height: s.ctx.height },
        u_time_ms: (now_ms - s.ctx.boot_time) as u64,
        draw: draw_call_spec(s.draw_stage),
    }
}

impl RenderStage {
    /// A render stage over the given surface: the presentation program
    /// the host linked, and the device objects allocated for the inner
    /// compute stage.
    pub fn new(ctx: AppContext, present_program: u32, res: ComputeResources) -> (s: RenderStage)
        requires
            ctx.wf(),
            res.in_texture != res.out_texture,
        ensures
            s == initial_render_stage(ctx, present_program, res),
            s.wf(),
            s.compute_stage.frame == 0,
    {
        RenderStage {
            ctx,
            program: present_program,
            compute_stage: ComputeStage::new(ctx, res),
            draw_stage: DrawStage::new(present_program),
        }
    }

    /// One whole frame: advance and publish the simulation state, then
    /// present it on the on-screen target and flush. Both passes carry
    /// the elapsed time of the same clock sample, which must not
    /// precede boot.
    pub fn render_frame(&mut self, now_ms: u64) -> (out: FrameOutput)
        requires
            old(self).wf(),
            old(self).compute_stage.frame < u32::MAX,
            old(self).ctx.boot_time <= now_ms,
        ensures
            *final(self) == render_step(*old(self)),
            final(self).wf(),
            out == (FrameOutput {
                compute: compute_pass_spec(old(self).compute_stage, now_ms),
                present: present_pass_spec(*old(self), now_ms),
            }),
    {
        let compute = self.compute_stage.render_frame(now_ms);
        let u_time_ms = elapsed_millis(now_ms, self.ctx.boot_time);
        let present = PresentPass {
            program: self.program,
            u_resolution: Resolution { width: self.ctx.width, height: self.ctx.height },
            u_time_ms,
            draw: self.draw_stage.draw_call(),
        };
        FrameOutput { compute, present }
    }
}

impl Stage for RenderStage {
    open spec fn ready(&self, now_ms: u64) -> bool {
        &&& self.wf()
        &&& self.compute_stage.frame < u32::MAX
        &&& self.ctx.boot_time <= now_ms
    }

    open spec fn stepped(pre: Self, post: Self, now_ms: u64) -> bool {
        post == render_step(pre)
    }

    fn render(&mut self, now_ms: u64) {
        let _ = self.render_frame(now_ms);
    }
}

/// The compute stage after `n` consecutive simulation steps.
pub open spec fn compute_steps(s: ComputeStage, n: nat) -> ComputeStage
    decreases n,
{
    if n == 0 {
        s
    } else {
        compute_step(compute_steps(s, (n - 1) as nat))
    }
}

/// Frame-counter monotonicity: after `n` steps the counter reads
/// exactly `n` more than it did — from a fresh stage, exactly `n`. It
/// never decreases and never skips.
pub proof fn lemma_frame_counter(s: ComputeStage, n: nat)
    requires
        s.frame + n <= u32::MAX,
    ensures
        compute_steps(s, n).frame == s.frame + n,
    decreases n,
{
    if n > 0 {
        lemma_frame_counter(s, (n - 1) as nat);
    }
}

/// Stability of identities and sizes: however many steps run, the
/// texture handles, the texture sizes and the captured context are
/// those of construction — contents move, identities do not, and no
/// reallocation ever happens.
pub proof fn lemma_steps_preserve_identity(s: ComputeStage, n: nat)
    ensures
        compute_steps(s, n).ctx == s.ctx,
        compute_steps(s, n).program == s.program,
        compute_steps(s, n).framebuffer == s.framebuffer,
        compute_steps(s, n).transfer_buffer == s.transfer_buffer,
        compute_steps(s, n).in_state.handle == s.in_state.handle,
        compute_steps(s, n).out_state.handle == s.out_state.handle,
        compute_steps(s, n).in_state.width == s.in_state.width,
        compute_steps(s, n).in_state.height == s.in_state.height,
        compute_steps(s, n).out_state.width == s.out_state.width,
        compute_steps(s, n).out_state.height == s.out_state.height,
    decreases n,
{
    if n > 0 {
        lemma_steps_preserve_identity(s, (n - 1) as nat);
    }
}

/// Transfer publishes content, not identity: after any step the read
/// texture's contents equal the write texture's contents at the moment
/// the step finished, while both handles are unchanged.
pub proof fn lemma_step_publishes_contents(s: ComputeStage)
    ensures
        compute_step(s).in_state.content == compute_step(s).out_state.content,
        compute_step(s).in_state.handle == s.in_state.handle,
        compute_step(s).out_state.handle == s.out_state.handle,
{
}

/// Elapsed-time monotonicity at the uniform level: for two successive
/// frames at host times `t1 <= t2`, the time uniform of the second is
/// at least that of the first, and both are non-negative elapsed times.
pub proof fn lemma_u_time_monotonic(s: ComputeStage, t1: u64, t2: u64)
    requires
        s.ctx.boot_time <= t1,
        t1 <= t2,
    ensures
        compute_pass_spec(s, t1).u_time_ms <= compute_pass_spec(compute_step(s), t2).u_time_ms,
{
}

} // verus!
