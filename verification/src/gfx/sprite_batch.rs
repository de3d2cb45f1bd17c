//! The sprite batch: a fixed staging array of vertices that is streamed to
//! the device in as few draw submissions as the order of textures allows.

use crate::gfx::batch_state::BatchState;
use crate::gfx::buffer::{Buffer, BufferBinding, BufferRange};
use crate::gfx::color::Color;
use crate::gfx::error::GfxError;
use crate::gfx::quad::{
    rectangle_vertices, region_vertices, Corners, SpriteVertex, INDEX_BYTES, INDICES_PER_QUAD,
    VERTEX_BYTES, VERTICES_PER_QUAD,
};
use crate::gfx::scalar::{ONE_BITS, ZERO_BITS};
use crate::gfx::shader::ShaderProgram;
use crate::gfx::texture::{Texture, TextureHandle};
use crate::gfx::texture_region::TextureRegion;
use vstd::prelude::*;

verus! {

/// The largest number of sprites that a batch can be built for. The byte
/// size of its staging array still fits in a signed 32-bit count.
pub const MAX_SPRITES: usize = 26_843_545;

/// The sampler unit that a submission binds its texture to.
pub const TEXTURE_SLOT: u32 = 0;

/// The bytes of vertex storage that a batch of `count` sprites streams at
/// most.
pub open spec fn vertex_bytes_for(count: usize) -> int {
    count * VERTICES_PER_QUAD * VERTEX_BYTES
}

/// The bytes that the index sequence of a batch of `count` sprites takes.
pub open spec fn index_bytes_for(count: usize) -> int {
    count * INDICES_PER_QUAD * INDEX_BYTES
}

/// The color that a quad is tinted with: the given one, or opaque white.
pub open spec fn tint_of(color: Option<Color>) -> Color {
    match color {
        Some(c) => c,
        None => Color { r: 255, g: 255, b: 255, a: 255 },
    }
}

/// The names of the device objects that a batch draws with.
#[derive(Clone, Copy, Debug, PartialEq, Eq, Structural)]
pub struct BatchResources {
    /// The buffer that the staged vertices are streamed to.
    pub vertex_buffer: BufferBinding,
    /// The buffer that holds the index sequence of the batch's quads.
    pub index_buffer: BufferBinding,
    /// The vertex array object that describes the vertex layout.
    pub vao_handle: u32,
    /// The shader program.
    pub program: u32,
}

/// One draw submission: everything the device needs to draw a run of quads
/// that share a texture.
#[derive(Debug)]
pub struct Submission {
    /// The vertices of the run, to be streamed to the vertex buffer.
    pub vertices: Vec<SpriteVertex>,
    /// The bytes of the vertex buffer that the run overwrites.
    pub upload: BufferRange,
    /// The objects to bind for the draw.
    pub resources: BatchResources,
    /// The texture of the run.
    pub texture: TextureHandle,
    /// The sampler unit to bind the texture to.
    pub texture_slot: u32,
    /// The number of indices of the indexed draw.
    pub index_count: u32,
}

/// A sprite batch for at most `COUNT` sprites per draw submission.
pub struct SpriteBatch<const COUNT: usize> {
    vertices: Vec<SpriteVertex>,
    vertex_buffer: Buffer,
    index_buffer: Buffer,
    vao_handle: u32,
    vertex_offset: u32,
    last_texture: Option<TextureHandle>,
    drawing: bool,
    shader_program: ShaderProgram,
}

impl<const COUNT: usize> View for SpriteBatch<COUNT> {
    type V = BatchState;

    closed spec fn view(&self) -> BatchState {
        BatchState {
            drawing: self.drawing,
            pending: self.vertices@.subrange(0, self.vertex_offset as int),
            last_texture: self.last_texture,
        }
    }
}

impl<const COUNT: usize> SpriteBatch<COUNT> {
    #[verifier::type_invariant]
    spec fn well_formed(self) -> bool {
        &&& COUNT <= MAX_SPRITES
        &&& self.vertices.len() == COUNT * VERTICES_PER_QUAD
        &&& self.vertex_offset <= self.vertices.len()
        &&& self.vertex_offset % VERTICES_PER_QUAD == 0
        &&& self.vertex_offset > 0 ==> self.last_texture is Some
        &&& !self.drawing ==> self.vertex_offset == 0
        &&& self.vertex_buffer.spec_size() >= vertex_bytes_for(COUNT)
        &&& self.index_buffer.spec_size() >= index_bytes_for(COUNT)
    }

    /// The number of vertices that the staging array holds: four for each
    /// of the `COUNT` sprites.
    pub open spec fn capacity() -> nat {
        (COUNT * VERTICES_PER_QUAD) as nat
    }

    /// The buffer that the batch streams its vertices to.
    pub closed spec fn spec_vertex_buffer(&self) -> &Buffer {
        &self.vertex_buffer
    }

    /// The buffer that holds the index sequence of the batch's quads.
    pub closed spec fn spec_index_buffer(&self) -> &Buffer {
        &self.index_buffer
    }

    /// Whether two states of a batch draw with the same device objects.
    /// No operation of a batch changes them.
    pub open spec fn same_device(before: &Self, after: &Self) -> bool {
        &&& after.resources() == before.resources()
        &&& after.spec_vertex_buffer() == before.spec_vertex_buffer()
        &&& after.spec_index_buffer() == before.spec_index_buffer()
        &&& after.spec_shader_program() == before.spec_shader_program()
    }

    /// The names of the device objects that the batch draws with.
    pub closed spec fn resources(&self) -> BatchResources {
        BatchResources {
            vertex_buffer: self.vertex_buffer.spec_binding(),
            index_buffer: self.index_buffer.spec_binding(),
            vao_handle: self.vao_handle,
            program: self.shader_program.spec_handle(),
        }
    }

    /// The shader program that the batch draws with.
    pub closed spec fn spec_shader_program(&self) -> &ShaderProgram {
        &self.shader_program
    }

    /// Whether `submission` is the draw submission of the run that is
    /// pending in this batch: the pending vertices, written from the start
    /// of the vertex buffer, with the texture of the run on sampler unit 0
    /// and six indices for every four vertices.
    pub open spec fn submits(&self, submission: Submission) -> bool {
        &&& submission.vertices@ == self@.pending
        &&& submission.upload.offset == 0
        &&& submission.upload.byte_count == self@.pending.len() * VERTEX_BYTES
        &&& submission.resources == self.resources()
        &&& self@.last_texture == Some(submission.texture)
        &&& submission.texture_slot == TEXTURE_SLOT
        &&& submission.index_count == crate::gfx::batch_state::index_count(self@.pending)
    }

    /// Whether a batch for `COUNT` sprites can be built on the two buffers:
    /// `COUNT` is within the limit, the vertex buffer takes the whole
    /// staging array, and the index buffer holds the indices of `COUNT`
    /// quads.
    pub open spec fn fits(vertex_buffer: Buffer, index_buffer: Buffer) -> bool {
        &&& COUNT <= MAX_SPRITES
        &&& vertex_buffer.spec_size() >= vertex_bytes_for(COUNT)
        &&& index_buffer.spec_size() >= index_bytes_for(COUNT)
    }

    /// The bytes of storage that the vertex buffer of a batch for `COUNT`
    /// sprites needs, where `COUNT` is within the limit.
    pub fn vertex_buffer_bytes() -> (bytes: Option<u32>)
        ensures
            bytes is Some <==> COUNT <= MAX_SPRITES,
            bytes matches Some(n) ==> n == vertex_bytes_for(COUNT),
    {
        if COUNT > MAX_SPRITES {
            None
        } else {
            Some((COUNT * 80) as u32)
        }
    }

    /// The bytes of storage that the index buffer of a batch for `COUNT`
    /// sprites needs, where `COUNT` is within the limit.
    pub fn index_buffer_bytes() -> (bytes: Option<u32>)
        ensures
            bytes is Some <==> COUNT <= MAX_SPRITES,
            bytes matches Some(n) ==> n == index_bytes_for(COUNT),
    {
        if COUNT > MAX_SPRITES {
            None
        } else {
            Some((COUNT * 24) as u32)
        }
    }

    /// Builds an idle batch on device objects that the caller created: a
    /// vertex buffer to stream to, an index buffer that holds the index
    /// sequence of `COUNT` quads, a vertex array object that describes the
    /// vertex layout, and the linked shader program. There is no batch
    /// where the buffers are too small for `COUNT` sprites.
    pub fn new(
        vertex_buffer: Buffer,
        index_buffer: Buffer,
        vao_handle: u32,
        shader_program: ShaderProgram,
    ) -> (batch: Option<SpriteBatch<COUNT>>)
        ensures
            batch is Some <==> Self::fits(vertex_buffer, index_buffer),
            batch matches Some(b) ==> {
                &&& b@ == BatchState::idle()
                &&& *b.spec_vertex_buffer() == vertex_buffer
                &&& *b.spec_index_buffer() == index_buffer
                &&& b.resources() == (BatchResources {
                    vertex_buffer: vertex_buffer.spec_binding(),
                    index_buffer: index_buffer.spec_binding(),
                    vao_handle,
                    program: shader_program.spec_handle(),
                })
                &&& *b.spec_shader_program() == shader_program
            },
    {
        if COUNT > MAX_SPRITES {
            return None;
        }
        let vertex_bytes: usize = COUNT * 80;
        let index_bytes: usize = COUNT * 24;
        if vertex_buffer.get_size() < vertex_bytes as isize || index_buffer.get_size()
            < index_bytes as isize {
            return None;
        }
        let blank = SpriteVertex {
            x: ZERO_BITS,
            y: ZERO_BITS,
            u: ZERO_BITS,
            v: ZERO_BITS,
            color: 0,
        };
        let vertices: Vec<SpriteVertex> = vec![blank; COUNT * 4];
        let batch = SpriteBatch {
            vertices,
            vertex_buffer,
            index_buffer,
            vao_handle,
            vertex_offset: 0,
            last_texture: None,
            drawing: false,
            shader_program,
        };
        assert(batch@.pending =~= Seq::empty());
        Some(batch)
    }

    /// Starts a frame. A batch that is already drawing refuses a second
    /// begin and stays as it is.
    pub fn begin_batch(&mut self) -> (begun: Result<(), GfxError>)
        ensures
            old(self)@.drawing ==> begun == Err::<(), GfxError>(GfxError::InvalidState)
                && final(self)@ == old(self)@,
            !old(self)@.drawing ==> begun is Ok && final(self)@ == old(self)@.begun(),
            Self::same_device(old(self), final(self)),
    {
        proof {
            use_type_invariant(&*self);
        }
        if self.drawing {
            Err(GfxError::InvalidState)
        } else {
            self.drawing = true;
            Ok(())
        }
    }

    /// Hands the pending run to the device, if there is one, and leaves
    /// nothing pending.
    pub fn flush_batch(&mut self) -> (submission: Option<Submission>)
        ensures
            submission is Some <==> old(self)@.pending.len() > 0,
            submission matches Some(s) ==> old(self).submits(s),
            final(self)@ == old(self)@.flushed(),
            Self::same_device(old(self), final(self)),
    {
        proof {
            use_type_invariant(&*self);
        }
        let submission = if self.vertex_offset > 0 {
            Some(self.pending_submission())
        } else {
            None
        };
        self.vertex_offset = 0;
        self.last_texture = None;
        assert(self@.pending =~= Seq::empty());
        submission
    }

    /// Whether `outcome` and the batch after the call are what a draw of
    /// `quad` with `texture` makes of the batch `before`.
    ///
    /// A batch that is not drawing refuses with `InvalidState`, a batch
    /// without room for the quad with `CapacityExceeded`, and a refusal
    /// changes nothing. Otherwise the quad is staged. A pending run of
    /// another texture is handed to the device first, and then `outcome`
    /// carries its submission.
    pub open spec fn draws(
        before: &Self,
        after: &Self,
        texture: TextureHandle,
        quad: Seq<SpriteVertex>,
        outcome: Result<Option<Submission>, GfxError>,
    ) -> bool {
        &&& Self::same_device(before, after)
        &&& if !before@.drawing {
            outcome == Err::<Option<Submission>, GfxError>(GfxError::InvalidState) && after@
                == before@
        } else if !before@.accepts(texture, Self::capacity()) {
            outcome == Err::<Option<Submission>, GfxError>(GfxError::CapacityExceeded) && after@
                == before@
        } else {
            &&& after@ == before@.drawn(texture, quad)
            &&& outcome matches Ok(submission)
            &&& submission is Some <==> before@.submitted_before(texture) is Some
            &&& submission matches Some(s) ==> before.submits(s)
        }
    }

    /// Stages the axis-aligned quad from `(x, y)` to `(x2, y2)` that shows
    /// the whole of `texture`, tinted with `color`, or with opaque white
    /// where no color is given.
    pub fn draw(
        &mut self,
        texture: &Texture,
        x: u32,
        y: u32,
        x2: u32,
        y2: u32,
        color: Option<Color>,
    ) -> (outcome: Result<Option<Submission>, GfxError>)
        ensures
            Self::draws(
                old(self),
                final(self),
                texture.spec_share(),
                rectangle_vertices(x, y, x2, y2, tint_of(color).packed()),
                outcome,
            ),
    {
        let name = texture.share();
        self.stage_rectangle(&name, x, y, x2, y2, color)
    }

    /// Stages the axis-aligned quad from `(x, y)` to `(x2, y2)` that shows
    /// the whole texture of `region`.
    pub fn draw_region(
        &mut self,
        region: &TextureRegion,
        x: u32,
        y: u32,
        x2: u32,
        y2: u32,
        color: Option<Color>,
    ) -> (outcome: Result<Option<Submission>, GfxError>)
        ensures
            Self::draws(
                old(self),
                final(self),
                *region.spec_texture(),
                rectangle_vertices(x, y, x2, y2, tint_of(color).packed()),
                outcome,
            ),
    {
        self.stage_rectangle(region.get_texture(), x, y, x2, y2, color)
    }

    /// Stages the four vertices of an axis-aligned quad that shows the
    /// whole of the texture named `texture`.
    fn stage_rectangle(
        &mut self,
        texture: &TextureHandle,
        x: u32,
        y: u32,
        x2: u32,
        y2: u32,
        color: Option<Color>,
    ) -> (outcome: Result<Option<Submission>, GfxError>)
        ensures
            Self::draws(
                old(self),
                final(self),
                *texture,
                rectangle_vertices(x, y, x2, y2, tint_of(color).packed()),
                outcome,
            ),
    {
        let submission = match self.check_state(texture) {
            Ok(submission) => submission,
            Err(refusal) => {
                return Err(refusal);
            },
        };
        let tint = match color {
            Some(c) => c,
            None => Color::white(),
        };
        let c = tint.to_rgba8();
        self.push_quad(
            SpriteVertex { x, y, u: ZERO_BITS, v: ONE_BITS, color: c },
            SpriteVertex { x: x2, y, u: ONE_BITS, v: ONE_BITS, color: c },
            SpriteVertex { x: x2, y: y2, u: ONE_BITS, v: ZERO_BITS, color: c },
            SpriteVertex { x, y: y2, u: ZERO_BITS, v: ZERO_BITS, color: c },
        );
        assert(self@.pending =~= old(self)@.drawn(
            *texture,
            rectangle_vertices(x, y, x2, y2, tint_of(color).packed()),
        ).pending);
        Ok(submission)
    }

    /// Stages the quad with the given corners that shows `region`, tinted
    /// with `color`. The corners are those of the sprite after its rotation
    /// about its origin.
    pub fn draw_sprite(&mut self, region: &TextureRegion, corners: &Corners, color: Color) -> (outcome:
        Result<Option<Submission>, GfxError>)
        ensures
            Self::draws(
                old(self),
                final(self),
                *region.spec_texture(),
                region_vertices(*region, *corners, color.packed()),
                outcome,
            ),
    {
        let submission = match self.check_state(region.get_texture()) {
            Ok(submission) => submission,
            Err(refusal) => {
                return Err(refusal);
            },
        };
        let c = color.to_rgba8();
        self.push_quad(
            SpriteVertex {
                x: corners.top_left.x,
                y: corners.top_left.y,
                u: region.get_u(),
                v: region.get_v(),
                color: c,
            },
            SpriteVertex {
                x: corners.top_right.x,
                y: corners.top_right.y,
                u: region.get_u2(),
                v: region.get_v(),
                color: c,
            },
            SpriteVertex {
                x: corners.bottom_right.x,
                y: corners.bottom_right.y,
                u: region.get_u2(),
                v: region.get_v2(),
                color: c,
            },
            SpriteVertex {
                x: corners.bottom_left.x,
                y: corners.bottom_left.y,
                u: region.get_u(),
                v: region.get_v2(),
                color: c,
            },
        );
        assert(self@.pending =~= old(self)@.drawn(
            *region.spec_texture(),
            region_vertices(*region, *corners, color.packed()),
        ).pending);
        Ok(submission)
    }

    /// Ends the frame: hands the pending run to the device, if there is
    /// one, and returns to idle. A batch that is not drawing refuses and
    /// stays as it is.
    pub fn end_batch(&mut self) -> (outcome: Result<Option<Submission>, GfxError>)
        ensures
            Self::same_device(old(self), final(self)),
            !old(self)@.drawing ==> outcome == Err::<Option<Submission>, GfxError>(
                GfxError::InvalidState,
            ) && final(self)@ == old(self)@,
            old(self)@.drawing ==> {
                &&& final(self)@ == BatchState::idle()
                &&& outcome matches Ok(submission)
                &&& submission is Some <==> old(self)@.pending.len() > 0
                &&& submission matches Some(s) ==> old(self).submits(s)
            },
    {
        if !self.drawing {
            return Err(GfxError::InvalidState);
        }
        let submission = self.flush_batch();
        proof {
            use_type_invariant(&*self);
        }
        self.drawing = false;
        Ok(submission)
    }

    /// Makes way for a quad with `texture`: checks that the batch is
    /// drawing and has room, hands a pending run of another texture to the
    /// device, and makes `texture` the texture of the run.
    fn check_state(&mut self, texture: &TextureHandle) -> (outcome: Result<Option<Submission>, GfxError>)
        ensures
            Self::same_device(old(self), final(self)),
            !old(self)@.drawing ==> outcome == Err::<Option<Submission>, GfxError>(
                GfxError::InvalidState,
            ),
            old(self)@.drawing && !old(self)@.accepts(*texture, Self::capacity()) ==> outcome
                == Err::<Option<Submission>, GfxError>(GfxError::CapacityExceeded),
            outcome is Err ==> final(self)@ == old(self)@,
            old(self)@.accepts(*texture, Self::capacity()) ==> {
                &&& final(self)@ == (BatchState {
                    drawing: true,
                    pending: old(self)@.kept_for(*texture),
                    last_texture: Some(*texture),
                })
                &&& final(self).vertex_offset + VERTICES_PER_QUAD <= final(self).vertices.len()
                &&& outcome matches Ok(submission)
                &&& submission is Some <==> old(self)@.submitted_before(*texture) is Some
                &&& submission matches Some(s) ==> old(self).submits(s)
            },
    {
        proof {
            use_type_invariant(&*self);
        }
        if !self.drawing {
            return Err(GfxError::InvalidState);
        }
        let changes = match self.last_texture {
            Some(last) => *texture != last,
            None => false,
        };
        let kept: u32 = if changes {
            0
        } else {
            self.vertex_offset
        };
        if kept as usize + 4 > self.vertices.len() {
            return Err(GfxError::CapacityExceeded);
        }
        let submission = if changes {
            self.flush_batch()
        } else {
            None
        };
        proof {
            use_type_invariant(&*self);
        }
        self.last_texture = Some(*texture);
        Ok(submission)
    }

    /// Writes four vertices at the cursor and moves the cursor past them.
    fn push_quad(&mut self, a: SpriteVertex, b: SpriteVertex, c: SpriteVertex, d: SpriteVertex)
        requires
            old(self).vertex_offset + VERTICES_PER_QUAD <= old(self).vertices.len(),
            old(self).last_texture is Some,
            old(self).drawing,
        ensures
            final(self)@ == (BatchState { pending: old(self)@.pending + seq![a, b, c, d], ..old(self)@ }),
            Self::same_device(old(self), final(self)),
    {
        proof {
            use_type_invariant(&*self);
        }
        let at: usize = self.vertex_offset as usize;
        self.vertices[at] = a;
        self.vertices[at + 1] = b;
        self.vertices[at + 2] = c;
        self.vertices[at + 3] = d;
        self.vertex_offset = self.vertex_offset + 4;
        assert(self@.pending =~= old(self)@.pending + seq![a, b, c, d]);
    }

    /// Whether the batch is between its begin and its end.
    pub fn is_drawing(&self) -> (drawing: bool)
        ensures
            drawing == self@.drawing,
    {
        self.drawing
    }

    /// The number of vertices staged since the last submission.
    pub fn pending_vertices(&self) -> (count: u32)
        ensures
            count == self@.pending.len(),
            count % VERTICES_PER_QUAD == 0,
            count <= Self::capacity(),
            COUNT <= MAX_SPRITES,
            count > 0 ==> self@.drawing && self@.last_texture is Some,
    {
        proof {
            use_type_invariant(self);
        }
        self.vertex_offset
    }

    #[verifier::when_used_as_spec(spec_vertex_buffer)]
    pub fn get_vertex_buffer(&self) -> (buffer: &Buffer)
        ensures
            buffer == self.spec_vertex_buffer(),
            buffer.spec_size() >= vertex_bytes_for(COUNT),
    {
        proof {
            use_type_invariant(self);
        }
        &self.vertex_buffer
    }

    #[verifier::when_used_as_spec(spec_index_buffer)]
    pub fn get_index_buffer(&self) -> (buffer: &Buffer)
        ensures
            buffer == self.spec_index_buffer(),
            buffer.spec_size() >= index_bytes_for(COUNT),
    {
        proof {
            use_type_invariant(self);
        }
        &self.index_buffer
    }

    #[verifier::when_used_as_spec(spec_shader_program)]
    pub fn get_shader_program(&self) -> (program: &ShaderProgram)
        ensures
            program == self.spec_shader_program(),
    {
        &self.shader_program
    }

    fn pending_submission(&self) -> (submission: Submission)
        requires
            self.vertex_offset > 0,
        ensures
            self.submits(submission),
    {
        proof {
            use_type_invariant(self);
        }
        let mut staged: Vec<SpriteVertex> = Vec::new();
        let mut i: usize = 0;
        let end: usize = self.vertex_offset as usize;
        while i < end
            invariant
                i <= end <= self.vertices.len(),
                staged@ == self.vertices@.subrange(0, i as int),
            decreases end - i,
        {
            staged.push(self.vertices[i]);
            i += 1;
            assert(staged@ =~= self.vertices@.subrange(0, i as int));
        }
        let byte_count: u32 = self.vertex_offset * VERTEX_BYTES;
        let upload = self.vertex_buffer.copy_data_part(byte_count as isize, 0);
        let texture = self.last_texture.unwrap();
        Submission {
            vertices: staged,
            upload,
            resources: self.get_resources(),
            texture,
            texture_slot: TEXTURE_SLOT,
            index_count: self.vertex_offset / VERTICES_PER_QUAD * INDICES_PER_QUAD,
        }
    }

    #[verifier::when_used_as_spec(resources)]
    pub fn get_resources(&self) -> (resources: BatchResources)
        ensures
            resources == self.resources(),
    {
        BatchResources {
            vertex_buffer: self.vertex_buffer.binding(),
            index_buffer: self.index_buffer.binding(),
            vao_handle: self.vao_handle,
            program: self.shader_program.get_handle(),
        }
    }
}

} // verus!
