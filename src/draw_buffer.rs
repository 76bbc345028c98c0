use vstd::prelude::*;

use crate::command::{Command, Extent, SecondaryCommands};
use crate::render_pass::Pipeline;

verus! {

/// A vertex list whose length is not a multiple of three.
#[derive(Clone, Copy, Debug, PartialEq, Eq, Structural)]
pub struct GeometryError {
    pub vertex_count: usize,
}

/// What a draw buffer holds, as seen by contracts.
pub struct DrawBufferModel {
    pub pipeline: Pipeline,
    pub vertex_buffer: u64,
    pub vertex_count: usize,
}

/// The vertex data of one drawable object, together with the state of the
/// pipeline it is drawn with.
///
/// The vertex positions themselves live in a device buffer identified by
/// `vertex_buffer`; the library keeps their number, which is always a
/// multiple of three (a triangle list).
#[derive(Clone, Copy, Debug)]
pub struct DrawBuffer {
    pipeline: Pipeline,
    vertex_buffer: u64,
    vertex_count: usize,
}

impl View for DrawBuffer {
    type V = DrawBufferModel;

    closed spec fn view(&self) -> DrawBufferModel {
        DrawBufferModel {
            pipeline: self.pipeline,
            vertex_buffer: self.vertex_buffer,
            vertex_count: self.vertex_count,
        }
    }
}

/// A vertex list describes whole triangles.
pub open spec fn valid_geometry(vertex_count: int) -> bool {
    vertex_count % 3 == 0
}

/// The commands that draw one buffer: bind its pipeline, set the viewport,
/// bind its vertices, and draw all of them once.
pub open spec fn draw_commands(b: DrawBufferModel, viewport: Extent) -> Seq<Command> {
    seq![
        Command::BindPipeline { pipeline: b.pipeline },
        Command::SetViewport { extent: viewport },
        Command::BindVertexBuffer { buffer: b.vertex_buffer },
        Command::Draw { vertex_count: b.vertex_count, instance_count: 1u32 },
    ]
}

impl DrawBuffer {
    /// Well-formedness: the vertices form whole triangles.
    pub open spec fn wf(&self) -> bool {
        valid_geometry(self@.vertex_count as int)
    }

    /// Makes a draw buffer of `vertex_count` vertices stored in `vertex_buffer`,
    /// drawn with `pipeline`. An empty buffer is accepted and draws nothing.
    pub fn new(pipeline: &Pipeline, vertex_buffer: u64, vertex_count: usize) -> (r: Result<
        DrawBuffer,
        GeometryError,
    >)
        ensures
            r is Ok <==> valid_geometry(vertex_count as int),
            r matches Ok(b) ==> b.wf() && b@ == (DrawBufferModel {
                pipeline: *pipeline,
                vertex_buffer,
                vertex_count,
            }),
            r matches Err(e) ==> e == (GeometryError { vertex_count }),
    {
        if vertex_count % 3 != 0 {
            return Err(GeometryError { vertex_count });
        }
        Ok(DrawBuffer { pipeline: *pipeline, vertex_buffer, vertex_count })
    }

    /// Records the draw of this buffer for a viewport of the given extent, as
    /// a secondary-level sequence for the subpass of its pipeline.
    pub fn draw_buffer(&self, viewport_dimensions: Extent) -> (r: SecondaryCommands)
        ensures
            r.subpass == self@.pipeline.subpass,
            r.commands@ == draw_commands(self@, viewport_dimensions),
    {
        let mut cmds: Vec<Command> = Vec::new();
        cmds.push(Command::BindPipeline { pipeline: self.pipeline });
        cmds.push(Command::SetViewport { extent: viewport_dimensions });
        cmds.push(Command::BindVertexBuffer { buffer: self.vertex_buffer });
        cmds.push(Command::Draw { vertex_count: self.vertex_count, instance_count: 1 });
        proof {
            assert(cmds@ =~= draw_commands(self@, viewport_dimensions));
        }
        SecondaryCommands { subpass: self.pipeline.subpass, commands: cmds }
    }

    /// Replaces the geometry with `vertex_count` vertices stored in
    /// `vertex_buffer`. A vertex list that is not made of whole triangles is
    /// refused and the previous geometry is kept.
    pub fn set_position(&mut self, vertex_buffer: u64, vertex_count: usize) -> (r: Result<
        (),
        GeometryError,
    >)
        requires
            old(self).wf(),
        ensures
            final(self).wf(),
            r is Ok <==> valid_geometry(vertex_count as int),
            r is Ok ==> final(self)@ == (DrawBufferModel {
                pipeline: old(self)@.pipeline,
                vertex_buffer,
                vertex_count,
            }),
            r matches Err(e) ==> e == (GeometryError { vertex_count }) && final(self)@ == old(
                self,
            )@,
    {
        if vertex_count % 3 != 0 {
            return Err(GeometryError { vertex_count });
        }
        self.vertex_buffer = vertex_buffer;
        self.vertex_count = vertex_count;
        Ok(())
    }

    /// The state of the pipeline this buffer is drawn with.
    pub fn pipeline(&self) -> (r: Pipeline)
        ensures
            r == self@.pipeline,
    {
        self.pipeline
    }

    /// The handle of the device buffer holding the vertices.
    pub fn vertex_buffer(&self) -> (r: u64)
        ensures
            r == self@.vertex_buffer,
    {
        self.vertex_buffer
    }

    /// The number of vertices.
    pub fn vertex_count(&self) -> (r: usize)
        ensures
            r == self@.vertex_count,
    {
        self.vertex_count
    }
}

/// Every well-formed draw buffer records exactly one draw, at the end of its
/// command sequence, and that draw covers all of its vertices, whose number
/// is a multiple of three.
pub proof fn lemma_single_draw(b: DrawBuffer, viewport: Extent)
    requires
        b.wf(),
    ensures
        ({
            let cmds = draw_commands(b@, viewport);
            &&& forall|j: int| 0 <= j < cmds.len() ==> (cmds[j] is Draw <==> j == cmds.len() - 1)
            &&& cmds.last() == (Command::Draw { vertex_count: b@.vertex_count, instance_count: 1 })
            &&& b@.vertex_count % 3 == 0
        }),
{
}

} // verus!
