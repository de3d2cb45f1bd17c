//! The sprite batch as a state machine over plain values, and what holds of
//! every run of it.
//!
//! A batch is either idle or drawing. While it draws, quads collect in a
//! pending run that shares one texture. The run is submitted to the device
//! when a quad with another texture arrives and when the batch ends.

use crate::gfx::quad::{SpriteVertex, INDICES_PER_QUAD, VERTICES_PER_QUAD};
use crate::gfx::texture::TextureHandle;
use vstd::prelude::*;

verus! {

/// What a sprite batch holds at one moment.
pub struct BatchState {
    /// Whether the batch is between its begin and its end.
    pub drawing: bool,
    /// The vertices staged since the last submission.
    pub pending: Seq<SpriteVertex>,
    /// The texture of the quad staged last, if any is staged.
    pub last_texture: Option<TextureHandle>,
}

/// One draw request: the four vertices of a quad and the texture it shows.
pub struct DrawCall {
    pub texture: TextureHandle,
    pub quad: Seq<SpriteVertex>,
}

impl BatchState {
    /// A batch that has not begun and holds nothing.
    pub open spec fn idle() -> BatchState {
        BatchState { drawing: false, pending: Seq::empty(), last_texture: None }
    }

    /// The state after a begin.
    pub open spec fn begun(self) -> BatchState {
        BatchState { drawing: true, ..self }
    }

    /// Whether a quad with `texture` cannot join the pending run, because
    /// the run belongs to another texture.
    pub open spec fn changes_texture(self, texture: TextureHandle) -> bool {
        match self.last_texture {
            Some(last) => last.spec_handle() != texture.spec_handle(),
            None => false,
        }
    }

    /// What is handed to the device before a quad with `texture` is
    /// staged: the pending run, where the texture changes and the run is
    /// not empty.
    pub open spec fn submitted_before(self, texture: TextureHandle) -> Option<Seq<SpriteVertex>> {
        if self.changes_texture(texture) && self.pending.len() > 0 {
            Some(self.pending)
        } else {
            None
        }
    }

    /// The part of the pending run that a quad with `texture` joins.
    pub open spec fn kept_for(self, texture: TextureHandle) -> Seq<SpriteVertex> {
        if self.changes_texture(texture) {
            Seq::empty()
        } else {
            self.pending
        }
    }

    /// Whether a batch that stages at most `capacity` vertices takes a quad
    /// with `texture`: it must be drawing and have room for four more
    /// vertices once a run of another texture is out of the way.
    pub open spec fn accepts(self, texture: TextureHandle, capacity: nat) -> bool {
        self.drawing && self.kept_for(texture).len() + VERTICES_PER_QUAD <= capacity
    }

    /// The state after `quad` with `texture` was staged.
    pub open spec fn drawn(self, texture: TextureHandle, quad: Seq<SpriteVertex>) -> BatchState {
        BatchState {
            drawing: self.drawing,
            pending: self.kept_for(texture) + quad,
            last_texture: Some(texture),
        }
    }

    /// What a flush hands to the device: the pending run, unless it is
    /// empty.
    pub open spec fn submitted_by_flush(self) -> Option<Seq<SpriteVertex>> {
        if self.pending.len() > 0 {
            Some(self.pending)
        } else {
            None
        }
    }

    /// The state after a flush.
    pub open spec fn flushed(self) -> BatchState {
        BatchState { drawing: self.drawing, pending: Seq::empty(), last_texture: None }
    }

    /// The state after `call` on a batch that stages at most `capacity`
    /// vertices. A call that is not accepted changes nothing.
    pub open spec fn after_call(self, call: DrawCall, capacity: nat) -> BatchState {
        if self.accepts(call.texture, capacity) {
            self.drawn(call.texture, call.quad)
        } else {
            self
        }
    }

    /// The state after `calls`, made in order.
    pub open spec fn after_calls(self, calls: Seq<DrawCall>, capacity: nat) -> BatchState
        decreases calls.len(),
    {
        if calls.len() == 0 {
            self
        } else {
            self.after_calls(calls.drop_last(), capacity).after_call(calls.last(), capacity)
        }
    }

    /// How many of `calls` are accepted.
    pub open spec fn accepted(self, calls: Seq<DrawCall>, capacity: nat) -> nat
        decreases calls.len(),
    {
        if calls.len() == 0 {
            0
        } else {
            let earlier = self.accepted(calls.drop_last(), capacity);
            if self.after_calls(calls.drop_last(), capacity).accepts(calls.last().texture, capacity) {
                earlier + 1
            } else {
                earlier
            }
        }
    }

    /// The runs handed to the device while `calls` are made, in order.
    pub open spec fn submitted_during(self, calls: Seq<DrawCall>, capacity: nat) -> Seq<
        Seq<SpriteVertex>,
    >
        decreases calls.len(),
    {
        if calls.len() == 0 {
            Seq::empty()
        } else {
            let earlier = self.submitted_during(calls.drop_last(), capacity);
            let before = self.after_calls(calls.drop_last(), capacity);
            if before.accepts(calls.last().texture, capacity) {
                match before.submitted_before(calls.last().texture) {
                    Some(run) => earlier.push(run),
                    None => earlier,
                }
            } else {
                earlier
            }
        }
    }

    /// Every run handed to the device in one frame: a begin on an idle
    /// batch, then `calls`, then the end.
    pub open spec fn submitted_in_frame(calls: Seq<DrawCall>, capacity: nat) -> Seq<
        Seq<SpriteVertex>,
    > {
        let start = BatchState::idle().begun();
        let during = start.submitted_during(calls, capacity);
        match start.after_calls(calls, capacity).submitted_by_flush() {
            Some(run) => during.push(run),
            None => during,
        }
    }
}

/// Whether every call stages a quad, that is, four vertices.
pub open spec fn all_quads(calls: Seq<DrawCall>) -> bool {
    forall|i: int| 0 <= i < calls.len() ==> (#[trigger] calls[i]).quad.len() == VERTICES_PER_QUAD
}

/// The number of indices that a draw submission over `run` consumes: six
/// for every four vertices.
pub open spec fn index_count(run: Seq<SpriteVertex>) -> nat {
    run.len() / (VERTICES_PER_QUAD as nat) * (INDICES_PER_QUAD as nat)
}

/// The number of vertices in `runs`.
pub open spec fn vertex_total(runs: Seq<Seq<SpriteVertex>>) -> nat
    decreases runs.len(),
{
    if runs.len() == 0 {
        0
    } else {
        vertex_total(runs.drop_last()) + runs.last().len()
    }
}

/// The number of indices that the draw submissions over `runs` consume.
pub open spec fn index_total(runs: Seq<Seq<SpriteVertex>>) -> nat
    decreases runs.len(),
{
    if runs.len() == 0 {
        0
    } else {
        index_total(runs.drop_last()) + index_count(runs.last())
    }
}

proof fn lemma_totals_of_push(runs: Seq<Seq<SpriteVertex>>, run: Seq<SpriteVertex>)
    ensures
        vertex_total(runs.push(run)) == vertex_total(runs) + run.len(),
        index_total(runs.push(run)) == index_total(runs) + index_count(run),
{
    assert(runs.push(run).drop_last() =~= runs);
}

proof fn lemma_calls_conserve_quads(start: BatchState, calls: Seq<DrawCall>, capacity: nat)
    requires
        all_quads(calls),
        start.pending.len() % 4 == 0,
    ensures
        start.after_calls(calls, capacity).drawing == start.drawing,
        start.after_calls(calls, capacity).pending.len() % 4 == 0,
        vertex_total(start.submitted_during(calls, capacity)) + start.after_calls(
            calls,
            capacity,
        ).pending.len() == start.pending.len() + 4 * start.accepted(calls, capacity),
        index_total(start.submitted_during(calls, capacity)) + index_count(
            start.after_calls(calls, capacity).pending,
        ) == index_count(start.pending) + 6 * start.accepted(calls, capacity),
        start.accepted(calls, capacity) <= calls.len(),
    decreases calls.len(),
{
    if calls.len() > 0 {
        let front = calls.drop_last();
        let call = calls.last();
        assert(all_quads(front)) by {
            assert forall|i: int| 0 <= i < front.len() implies (#[trigger] front[i]).quad.len()
                == VERTICES_PER_QUAD by {
                assert(calls[i].quad.len() == VERTICES_PER_QUAD);
            }
        }
        lemma_calls_conserve_quads(start, front, capacity);
        let before = start.after_calls(front, capacity);
        let earlier = start.submitted_during(front, capacity);
        assert(call.quad.len() == 4);
        if before.accepts(call.texture, capacity) {
            match before.submitted_before(call.texture) {
                Some(run) => {
                    lemma_totals_of_push(earlier, run);
                },
                None => {},
            }
        }
    }
}

/// In one frame the device receives four vertices for every accepted draw
/// call, and its draw submissions consume six indices for every accepted
/// draw call.
pub proof fn lemma_frame_submits_every_quad(calls: Seq<DrawCall>, capacity: nat)
    requires
        all_quads(calls),
    ensures
        vertex_total(BatchState::submitted_in_frame(calls, capacity)) == VERTICES_PER_QUAD
            * BatchState::idle().begun().accepted(calls, capacity),
        index_total(BatchState::submitted_in_frame(calls, capacity)) == INDICES_PER_QUAD
            * BatchState::idle().begun().accepted(calls, capacity),
{
    let start = BatchState::idle().begun();
    lemma_calls_conserve_quads(start, calls, capacity);
    let during = start.submitted_during(calls, capacity);
    match start.after_calls(calls, capacity).submitted_by_flush() {
        Some(run) => {
            lemma_totals_of_push(during, run);
        },
        None => {},
    }
}

/// A batch with room for all the quads of a frame accepts every draw call
/// of the frame.
pub proof fn lemma_roomy_batch_accepts_every_call(calls: Seq<DrawCall>, capacity: nat)
    requires
        all_quads(calls),
        VERTICES_PER_QUAD * calls.len() <= capacity,
    ensures
        BatchState::idle().begun().accepted(calls, capacity) == calls.len(),
    decreases calls.len(),
{
    let start = BatchState::idle().begun();
    if calls.len() > 0 {
        let front = calls.drop_last();
        assert(all_quads(front)) by {
            assert forall|i: int| 0 <= i < front.len() implies (#[trigger] front[i]).quad.len()
                == VERTICES_PER_QUAD by {
                assert(calls[i].quad.len() == VERTICES_PER_QUAD);
            }
        }
        lemma_roomy_batch_accepts_every_call(front, capacity);
        lemma_calls_conserve_quads(start, front, capacity);
    }
}

/// A batch draws only between a begin and an end: an idle batch accepts no
/// draw call, whatever its capacity, and a batch that has begun is drawing.
pub proof fn lemma_only_a_begun_batch_draws(texture: TextureHandle, capacity: nat)
    ensures
        !BatchState::idle().accepts(texture, capacity),
        !BatchState::idle().drawing,
        BatchState::idle().begun().drawing,
        BatchState::idle().begun().accepts(texture, capacity) <==> VERTICES_PER_QUAD <= capacity,
{
}

/// A frame without an accepted draw call hands nothing to the device.
pub proof fn lemma_frame_without_quads_submits_nothing(calls: Seq<DrawCall>, capacity: nat)
    requires
        BatchState::idle().begun().accepted(calls, capacity) == 0,
    ensures
        BatchState::idle().begun().after_calls(calls, capacity) == BatchState::idle().begun(),
        BatchState::submitted_in_frame(calls, capacity) == Seq::<Seq<SpriteVertex>>::empty(),
    decreases calls.len(),
{
    if calls.len() > 0 {
        lemma_frame_without_quads_submits_nothing(calls.drop_last(), capacity);
    }
}

/// Two draw calls in a row with one texture share a run: the second one
/// submits nothing, and both quads are pending behind what the first one
/// joined.
pub proof fn lemma_same_texture_shares_run(
    state: BatchState,
    texture: TextureHandle,
    first: Seq<SpriteVertex>,
    second: Seq<SpriteVertex>,
)
    ensures
        state.drawn(texture, first).submitted_before(texture) is None,
        state.drawn(texture, first).drawn(texture, second).pending == state.kept_for(texture)
            + first + second,
{
    let mid = state.drawn(texture, first);
    assert(mid.kept_for(texture) + second =~= state.kept_for(texture) + first + second);
}

/// Two draw calls in a row with different textures are split by a
/// submission: the second call hands the run that ends in the first quad to
/// the device, and only the second quad is pending after it. A batch with
/// room for one quad accepts the second call.
pub proof fn lemma_texture_change_splits_runs(
    state: BatchState,
    texture: TextureHandle,
    first: Seq<SpriteVertex>,
    other: TextureHandle,
    second: Seq<SpriteVertex>,
    capacity: nat,
)
    requires
        texture.spec_handle() != other.spec_handle(),
        first.len() == VERTICES_PER_QUAD,
        state.accepts(texture, capacity),
    ensures
        state.drawn(texture, first).accepts(other, capacity),
        state.drawn(texture, first).submitted_before(other) == Some(
            state.kept_for(texture) + first,
        ),
        state.drawn(texture, first).drawn(other, second).pending == second,
        state.drawn(texture, first).drawn(other, second).submitted_by_flush() == (if second.len()
            > 0 {
            Some(second)
        } else {
            None
        }),
{
    let mid = state.drawn(texture, first);
    assert(mid.kept_for(other) + second =~= second);
}

} // verus!
