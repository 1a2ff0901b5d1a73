//! Command recording: what each swapchain image's command buffer holds.

use crate::model::{Mesh, ModelBuffers, indices_in_bounds};
use crate::swapchain::Extent2D;
use vstd::prelude::*;

verus! {

/// One recorded command, with raw handles.
#[derive(Clone, Copy, PartialEq, Eq, Structural, Debug)]
pub enum Command {
    /// Begins the render pass on a framebuffer, clearing its single color
    /// attachment over the whole extent.
    BeginRenderPass { render_pass: u64, framebuffer: u64, extent: Extent2D },
    BindPipeline { pipeline: u64 },
    BindVertexBuffer { buffer: u64 },
    BindIndexBuffer { buffer: u64 },
    BindDescriptorSet { pipeline_layout: u64, set: u64 },
    /// One instance, indices from the start of the bound index buffer.
    DrawIndexed { index_count: u32 },
    EndRenderPass,
}

/// What one model adds to the buffer of image `image`.
pub open spec fn model_commands(m: ModelBuffers, image: int, pipeline_layout: u64) -> Seq<Command> {
    seq![
        Command::BindVertexBuffer { buffer: m.vertex_buffer },
        Command::BindIndexBuffer { buffer: m.index_buffer },
        Command::BindDescriptorSet { pipeline_layout, set: m.descriptor_sets@[image] },
        Command::DrawIndexed { index_count: m.index_count },
    ]
}

/// What all models add, in order.
pub open spec fn models_commands(models: Seq<ModelBuffers>, image: int, pipeline_layout: u64) -> Seq<Command>
    decreases models.len(),
{
    if models.len() == 0 {
        Seq::empty()
    } else {
        models_commands(models.drop_last(), image, pipeline_layout) + model_commands(
            models.last(),
            image,
            pipeline_layout,
        )
    }
}

/// The whole buffer of image `image`.
pub open spec fn image_commands(
    framebuffer: u64,
    image: int,
    render_pass: u64,
    pipeline: u64,
    pipeline_layout: u64,
    extent: Extent2D,
    models: Seq<ModelBuffers>,
) -> Seq<Command> {
    seq![
        Command::BeginRenderPass { render_pass, framebuffer, extent },
        Command::BindPipeline { pipeline },
    ] + models_commands(models, image, pipeline_layout) + seq![Command::EndRenderPass]
}

proof fn lemma_models_commands_at(models: Seq<ModelBuffers>, image: int, pipeline_layout: u64, j: int, k: int)
    requires
        0 <= j < models.len(),
        0 <= k < 4,
    ensures
        models_commands(models, image, pipeline_layout).len() == 4 * models.len(),
        models_commands(models, image, pipeline_layout)[4 * j + k] == model_commands(
            models[j],
            image,
            pipeline_layout,
        )[k],
    decreases models.len(),
{
    lemma_models_commands_len(models, image, pipeline_layout);
    let init = models.drop_last();
    lemma_models_commands_len(init, image, pipeline_layout);
    if j < models.len() - 1 {
        lemma_models_commands_at(init, image, pipeline_layout, j, k);
    }
}

proof fn lemma_models_commands_len(models: Seq<ModelBuffers>, image: int, pipeline_layout: u64)
    ensures
        models_commands(models, image, pipeline_layout).len() == 4 * models.len(),
    decreases models.len(),
{
    if models.len() > 0 {
        lemma_models_commands_len(models.drop_last(), image, pipeline_layout);
    }
}

fn record_image(
    framebuffer: u64,
    image: usize,
    render_pass: u64,
    pipeline: u64,
    pipeline_layout: u64,
    extent: Extent2D,
    models: &Vec<ModelBuffers>,
) -> (r: Vec<Command>)
    requires
        forall|j: int| 0 <= j < models@.len() ==> image < (#[trigger] models@[j]).descriptor_sets@.len(),
    ensures
        r@ == image_commands(framebuffer, image as int, render_pass, pipeline, pipeline_layout, extent, models@),
{
    let mut r: Vec<Command> = Vec::new();
    r.push(Command::BeginRenderPass { render_pass, framebuffer, extent });
    r.push(Command::BindPipeline { pipeline });
    let mut j: usize = 0;
    while j < models.len()
        invariant
            j <= models@.len(),
            forall|t: int| 0 <= t < models@.len() ==> image < (#[trigger] models@[t]).descriptor_sets@.len(),
            r@ == seq![
                Command::BeginRenderPass { render_pass, framebuffer, extent },
                Command::BindPipeline { pipeline },
            ] + models_commands(models@.subrange(0, j as int), image as int, pipeline_layout),
        decreases models@.len() - j,
    {
        let m = &models[j];
        r.push(Command::BindVertexBuffer { buffer: m.vertex_buffer });
        r.push(Command::BindIndexBuffer { buffer: m.index_buffer });
        r.push(Command::BindDescriptorSet { pipeline_layout, set: m.descriptor_sets[image] });
        r.push(Command::DrawIndexed { index_count: m.index_count });
        proof {
            let next = models@.subrange(0, j + 1);
            assert(next.drop_last() =~= models@.subrange(0, j as int));
            assert(next.last() == models@[j as int]);
        }
        assert(r@ =~= seq![
            Command::BeginRenderPass { render_pass, framebuffer, extent },
            Command::BindPipeline { pipeline },
        ] + models_commands(models@.subrange(0, j + 1), image as int, pipeline_layout));
        j = j + 1;
    }
    r.push(Command::EndRenderPass);
    assert(models@.subrange(0, models@.len() as int) =~= models@);
    assert(r@ =~= image_commands(framebuffer, image as int, render_pass, pipeline, pipeline_layout, extent, models@));
    r
}

/// Records one command buffer per framebuffer: begin the render pass, bind
/// the pipeline, then for each model bind its vertex buffer, index buffer
/// and the descriptor set of that image and draw its indices; end the pass.
pub fn record_command_buffers(
    framebuffers: &Vec<u64>,
    render_pass: u64,
    pipeline: u64,
    pipeline_layout: u64,
    extent: Extent2D,
    models: &Vec<ModelBuffers>,
) -> (r: Vec<Vec<Command>>)
    requires
        forall|j: int| 0 <= j < models@.len() ==> (#[trigger] models@[j]).wf(framebuffers@.len()),
    ensures
        r@.len() == framebuffers@.len(),
        forall|i: int|
            0 <= i < framebuffers@.len() ==> (#[trigger] r@[i])@ == image_commands(
                framebuffers@[i],
                i,
                render_pass,
                pipeline,
                pipeline_layout,
                extent,
                models@,
            ),
{
    let mut r: Vec<Vec<Command>> = Vec::new();
    let mut i: usize = 0;
    while i < framebuffers.len()
        invariant
            i <= framebuffers@.len(),
            forall|j: int| 0 <= j < models@.len() ==> (#[trigger] models@[j]).wf(framebuffers@.len()),
            r@.len() == i,
            forall|t: int|
                0 <= t < i ==> (#[trigger] r@[t])@ == image_commands(
                    framebuffers@[t],
                    t,
                    render_pass,
                    pipeline,
                    pipeline_layout,
                    extent,
                    models@,
                ),
        decreases framebuffers@.len() - i,
    {
        let cmds = record_image(framebuffers[i], i, render_pass, pipeline, pipeline_layout, extent, models);
        r.push(cmds);
        i = i + 1;
    }
    r
}

/// A model uploaded from a well-formed mesh is drawn, in the buffer of every
/// image, by one indexed draw of exactly the mesh's index count, and every
/// one of those indices names a vertex of the mesh.
pub proof fn lemma_draw_covers_mesh(
    mesh: Mesh,
    models: Seq<ModelBuffers>,
    j: int,
    framebuffer: u64,
    image: int,
    render_pass: u64,
    pipeline: u64,
    pipeline_layout: u64,
    extent: Extent2D,
)
    requires
        mesh.wf(),
        0 <= j < models.len(),
        models[j].index_count == mesh@.indices.len(),
    ensures
        image_commands(framebuffer, image, render_pass, pipeline, pipeline_layout, extent, models)[2 + 4 * j
            + 3] == (Command::DrawIndexed { index_count: mesh@.indices.len() as u32 }),
        indices_in_bounds(mesh@.vertex_count, mesh@.indices),
{
    lemma_models_commands_at(models, image, pipeline_layout, j, 3);
}

} // verus!
