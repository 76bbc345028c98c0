use vstd::prelude::*;

use crate::command::{
    frame_clear_spec,
    primary_models,
    ClearValues,
    Extent,
    PrimaryCommand,
    PrimaryModel,
    SubpassContents,
};
use crate::draw_buffer::{draw_commands, DrawBuffer, DrawBufferModel};
use crate::render_pass::{compatible, RenderPass};

verus! {

/// The models of the drawables of a scene, in insertion order.
pub open spec fn scene_models(scene: Seq<DrawBuffer>) -> Seq<DrawBufferModel> {
    scene.map_values(|b: DrawBuffer| b@)
}

/// Every drawable of the scene uses a pipeline compatible with `render_pass`.
pub open spec fn scene_compatible(scene: Seq<DrawBufferModel>, render_pass: RenderPass) -> bool {
    forall|i: int| 0 <= i < scene.len() ==> compatible(#[trigger] scene[i].pipeline, render_pass)
}

/// The secondary sequences that draw a scene, in insertion order: one per
/// drawable, for its pipeline's subpass. A drawable without vertices
/// contributes nothing.
pub open spec fn scene_commands(scene: Seq<DrawBufferModel>, viewport: Extent) -> Seq<PrimaryModel>
    decreases scene.len(),
{
    if scene.len() == 0 {
        Seq::empty()
    } else {
        let rest = scene_commands(scene.drop_last(), viewport);
        if scene.last().vertex_count == 0 {
            rest
        } else {
            rest.push(
                PrimaryModel::ExecuteCommands {
                    subpass: scene.last().pipeline.subpass,
                    commands: draw_commands(scene.last(), viewport),
                },
            )
        }
    }
}

/// The commands of one frame: the render pass on `framebuffer`, cleared to
/// white and the far depth plane and begun for secondary sequences, which
/// execute the draws of the scene.
pub open spec fn frame_commands(
    framebuffer: usize,
    scene: Seq<DrawBufferModel>,
    viewport: Extent,
) -> Seq<PrimaryModel> {
    seq![
        PrimaryModel::BeginRenderPass {
            framebuffer,
            clear: frame_clear_spec(),
            contents: SubpassContents::SecondaryCommandBuffers,
        },
    ] + scene_commands(scene, viewport) + seq![PrimaryModel::EndRenderPass]
}

/// Whether every drawable of `scene` can be drawn inside `render_pass`.
pub fn check_scene(scene: &Vec<DrawBuffer>, render_pass: &RenderPass) -> (r: bool)
    ensures
        r == scene_compatible(scene_models(scene@), *render_pass),
{
    let ghost models = scene_models(scene@);
    let mut i: usize = 0;
    while i < scene.len()
        invariant
            i <= scene@.len(),
            models == scene_models(scene@),
            forall|k: int| 0 <= k < i ==> compatible(#[trigger] models[k].pipeline, *render_pass),
        decreases scene@.len() - i,
    {
        if scene[i].pipeline().subpass >= render_pass.subpass_count {
            assert(!compatible(models[i as int].pipeline, *render_pass));
            return false;
        }
        i = i + 1;
    }
    true
}

/// Records the primary command sequence of one frame drawn into the
/// framebuffer of image `framebuffer`: one render pass whose contents are
/// the scene's secondary draw sequences, in insertion order. Drawables
/// without vertices are skipped.
pub fn record_frame(framebuffer: usize, scene: &Vec<DrawBuffer>, viewport: Extent) -> (r: Vec<
    PrimaryCommand,
>)
    ensures
        primary_models(r@) == frame_commands(framebuffer, scene_models(scene@), viewport),
{
    let ghost models = scene_models(scene@);
    let ghost begin = PrimaryModel::BeginRenderPass {
        framebuffer,
        clear: frame_clear_spec(),
        contents: SubpassContents::SecondaryCommandBuffers,
    };
    let mut cmds: Vec<PrimaryCommand> = Vec::new();
    cmds.push(
        PrimaryCommand::BeginRenderPass {
            framebuffer,
            clear: ClearValues::frame_clear(),
            contents: SubpassContents::SecondaryCommandBuffers,
        },
    );
    assert(primary_models(cmds@) =~= seq![begin]);
    let mut i: usize = 0;
    while i < scene.len()
        invariant
            i <= scene@.len(),
            models == scene_models(scene@),
            primary_models(cmds@) == seq![begin] + scene_commands(models.take(i as int), viewport),
        decreases scene@.len() - i,
    {
        assert(models.take(i + 1).drop_last() =~= models.take(i as int));
        assert(models.take(i + 1).last() == scene@[i as int]@);
        if scene[i].vertex_count() != 0 {
            let secondary = scene[i].draw_buffer(viewport);
            let ghost before = cmds@;
            cmds.push(PrimaryCommand::ExecuteCommands { secondary });
            assert(primary_models(cmds@) =~= primary_models(before).push(
                cmds@.last().model(),
            ));
            assert(primary_models(cmds@) =~= seq![begin] + scene_commands(
                models.take(i + 1),
                viewport,
            ));
        }
        i = i + 1;
    }
    assert(models.take(scene@.len() as int) =~= models);
    let ghost before = cmds@;
    cmds.push(PrimaryCommand::EndRenderPass);
    assert(primary_models(cmds@) =~= primary_models(before).push(PrimaryModel::EndRenderPass));
    assert(primary_models(cmds@) =~= frame_commands(framebuffer, models, viewport));
    cmds
}

} // verus!
