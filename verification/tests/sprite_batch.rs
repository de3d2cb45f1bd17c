use rlib::gfx::buffer::{Buffer, BufferBinding, BufferRange};
use rlib::gfx::color::Color;
use rlib::gfx::error::GfxError;
use rlib::gfx::quad::{Corners, Point, SpriteVertex};
use rlib::gfx::shader::ShaderProgram;
use rlib::gfx::sprite_batch::{SpriteBatch, Submission, MAX_SPRITES};
use rlib::gfx::texture::Texture;
use rlib::gfx::texture_region::TextureRegion;

const ARRAY_BUFFER: u32 = 0x8892;
const ELEMENT_ARRAY_BUFFER: u32 = 0x8893;
const STATIC_DRAW: u32 = 0x88E4;
const DYNAMIC_DRAW: u32 = 0x88E8;
const WHITE: u32 = 0xFFFF_FFFF;

fn bits(x: f32) -> u32 {
    x.to_bits()
}

fn program() -> ShaderProgram {
    ShaderProgram::from_shaders(77, 1, String::new(), &[]).unwrap()
}

fn vertex_buffer(bytes: u32) -> Buffer {
    Buffer::new_with_capacity(11, ARRAY_BUFFER, DYNAMIC_DRAW, bytes).unwrap()
}

fn index_buffer(bytes: u32) -> Buffer {
    Buffer::new_with_capacity(12, ELEMENT_ARRAY_BUFFER, STATIC_DRAW, bytes).unwrap()
}

fn batch<const COUNT: usize>() -> SpriteBatch<COUNT> {
    let vertex_bytes = SpriteBatch::<COUNT>::vertex_buffer_bytes().unwrap();
    let index_bytes = SpriteBatch::<COUNT>::index_buffer_bytes().unwrap();
    SpriteBatch::<COUNT>::new(vertex_buffer(vertex_bytes), index_buffer(index_bytes), 5, program())
        .unwrap()
}

fn texture(handle: u32) -> Texture {
    Texture::from_pixels(handle, 64, 64).unwrap()
}

fn rectangle(x: f32, y: f32, x2: f32, y2: f32, color: u32) -> Vec<SpriteVertex> {
    vec![
        SpriteVertex { x: bits(x), y: bits(y), u: bits(0.0), v: bits(1.0), color },
        SpriteVertex { x: bits(x2), y: bits(y), u: bits(1.0), v: bits(1.0), color },
        SpriteVertex { x: bits(x2), y: bits(y2), u: bits(1.0), v: bits(0.0), color },
        SpriteVertex { x: bits(x), y: bits(y2), u: bits(0.0), v: bits(0.0), color },
    ]
}

fn draw_unit(batch: &mut SpriteBatch<8>, t: &Texture) -> Option<Submission> {
    batch.draw(t, bits(0.0), bits(0.0), bits(1.0), bits(1.0), None).unwrap()
}

#[test]
fn the_buffers_of_a_batch_hold_four_vertices_and_six_indices_a_sprite() {
    assert_eq!(SpriteBatch::<1000>::vertex_buffer_bytes(), Some(80_000));
    assert_eq!(SpriteBatch::<1000>::index_buffer_bytes(), Some(24_000));
    assert_eq!(SpriteBatch::<0>::vertex_buffer_bytes(), Some(0));
    assert_eq!(SpriteBatch::<1>::index_buffer_bytes(), Some(24));
    assert_eq!(SpriteBatch::<MAX_SPRITES>::vertex_buffer_bytes(), Some(2_147_483_600));
    assert_eq!(SpriteBatch::<26_843_546>::vertex_buffer_bytes(), None);
    assert_eq!(SpriteBatch::<26_843_546>::index_buffer_bytes(), None);
}

#[test]
fn a_new_batch_is_idle_and_empty() {
    let b = batch::<1000>();
    assert!(!b.is_drawing());
    assert_eq!(b.pending_vertices(), 0);
    let r = b.get_resources();
    assert_eq!(r.vertex_buffer, BufferBinding { handle: 11, target: ARRAY_BUFFER });
    assert_eq!(r.index_buffer, BufferBinding { handle: 12, target: ELEMENT_ARRAY_BUFFER });
    assert_eq!(b.get_vertex_buffer().get_handle(), 11);
    assert_eq!(b.get_vertex_buffer().get_size(), 80_000);
    assert_eq!(b.get_index_buffer().get_handle(), 12);
    assert_eq!(b.get_index_buffer().get_size(), 24_000);
    assert_eq!(r.vao_handle, 5);
    assert_eq!(r.program, 77);
    assert_eq!(b.get_shader_program().get_handle(), 77);
}

#[test]
fn there_is_no_batch_on_buffers_that_are_too_small() {
    assert!(SpriteBatch::<10>::new(vertex_buffer(799), index_buffer(240), 5, program()).is_none());
    assert!(SpriteBatch::<10>::new(vertex_buffer(800), index_buffer(239), 5, program()).is_none());
    assert!(SpriteBatch::<10>::new(vertex_buffer(800), index_buffer(240), 5, program()).is_some());
    assert!(SpriteBatch::<10>::new(vertex_buffer(9000), index_buffer(9000), 5, program()).is_some());
    assert!(SpriteBatch::<26_843_546>::new(
        vertex_buffer(u32::MAX),
        index_buffer(u32::MAX),
        5,
        program()
    )
    .is_none());
}

#[test]
fn draw_before_begin_is_an_invalid_state() {
    let mut b = batch::<8>();
    let t = texture(1);
    let r = b.draw(&t, bits(0.0), bits(0.0), bits(1.0), bits(1.0), None);
    assert!(matches!(r, Err(GfxError::InvalidState)));
    let region = TextureRegion::new(t.share());
    let r = b.draw_region(&region, bits(0.0), bits(0.0), bits(1.0), bits(1.0), None);
    assert!(matches!(r, Err(GfxError::InvalidState)));
    let r = b.draw_sprite(&region, &Corners::rectangle(1, 2, 3, 4), Color::white());
    assert!(matches!(r, Err(GfxError::InvalidState)));
    assert!(!b.is_drawing());
    assert_eq!(b.pending_vertices(), 0);
}

#[test]
fn begin_twice_is_an_invalid_state() {
    let mut b = batch::<8>();
    assert_eq!(b.begin_batch(), Ok(()));
    assert!(b.is_drawing());
    assert_eq!(b.begin_batch(), Err(GfxError::InvalidState));
    assert!(b.is_drawing());
    assert!(b.end_batch().is_ok());
    assert_eq!(b.begin_batch(), Ok(()));
}

#[test]
fn a_refused_begin_keeps_what_is_pending() {
    let mut b = batch::<8>();
    b.begin_batch().unwrap();
    draw_unit(&mut b, &texture(1));
    assert_eq!(b.begin_batch(), Err(GfxError::InvalidState));
    assert_eq!(b.pending_vertices(), 4);
    assert_eq!(b.end_batch().unwrap().unwrap().vertices.len(), 4);
}

#[test]
fn end_before_begin_is_an_invalid_state() {
    let mut b = batch::<8>();
    assert!(matches!(b.end_batch(), Err(GfxError::InvalidState)));
    b.begin_batch().unwrap();
    assert!(b.end_batch().is_ok());
    assert!(matches!(b.end_batch(), Err(GfxError::InvalidState)));
}

#[test]
fn draw_after_end_is_an_invalid_state() {
    let mut b = batch::<8>();
    b.begin_batch().unwrap();
    b.end_batch().unwrap();
    let r = b.draw(&texture(1), 0, 0, 0, 0, None);
    assert!(matches!(r, Err(GfxError::InvalidState)));
}

#[test]
fn end_with_nothing_pending_submits_nothing() {
    let mut b = batch::<8>();
    b.begin_batch().unwrap();
    let r = b.end_batch();
    assert!(matches!(r, Ok(None)));
    assert!(!b.is_drawing());
    assert_eq!(b.pending_vertices(), 0);
}

#[test]
fn draw_stages_the_corners_in_winding_order_with_flipped_v() {
    let mut b = batch::<8>();
    let t = texture(1);
    b.begin_batch().unwrap();
    let color = Color::from_rgba(255, 128, 0, 255);
    let r = b.draw(&t, bits(-0.25), bits(0.5), bits(0.25), bits(1.0), Some(color)).unwrap();
    assert!(r.is_none());
    assert_eq!(b.pending_vertices(), 4);
    let s = b.end_batch().unwrap().unwrap();
    assert_eq!(s.vertices, rectangle(-0.25, 0.5, 0.25, 1.0, 0xFF80_00FF));
    assert_eq!(f32::from_bits(s.vertices[0].u), 0.0);
    assert_eq!(f32::from_bits(s.vertices[0].v), 1.0);
    assert_eq!(f32::from_bits(s.vertices[1].u), 1.0);
    assert_eq!(f32::from_bits(s.vertices[1].v), 1.0);
    assert_eq!(f32::from_bits(s.vertices[2].u), 1.0);
    assert_eq!(f32::from_bits(s.vertices[2].v), 0.0);
    assert_eq!(f32::from_bits(s.vertices[3].u), 0.0);
    assert_eq!(f32::from_bits(s.vertices[3].v), 0.0);
}

#[test]
fn draw_without_a_color_is_opaque_white() {
    let mut b = batch::<8>();
    b.begin_batch().unwrap();
    b.draw(&texture(1), bits(0.0), bits(0.0), bits(0.5), bits(0.5), None).unwrap();
    let s = b.end_batch().unwrap().unwrap();
    assert_eq!(s.vertices, rectangle(0.0, 0.0, 0.5, 0.5, WHITE));
}

#[test]
fn two_draws_with_one_texture_share_a_submission() {
    let mut b = batch::<8>();
    let t = texture(1);
    b.begin_batch().unwrap();
    assert!(b.draw(&t, bits(0.0), bits(0.0), bits(1.0), bits(1.0), None).unwrap().is_none());
    let same = Texture::from_pixels(1, 8, 8).unwrap();
    assert!(b.draw(&same, bits(2.0), bits(2.0), bits(3.0), bits(3.0), None).unwrap().is_none());
    assert_eq!(b.pending_vertices(), 8);
    let s = b.end_batch().unwrap().unwrap();
    let mut expected = rectangle(0.0, 0.0, 1.0, 1.0, WHITE);
    expected.extend(rectangle(2.0, 2.0, 3.0, 3.0, WHITE));
    assert_eq!(s.vertices, expected);
    assert_eq!(s.index_count, 12);
    assert_eq!(s.upload, BufferRange { offset: 0, byte_count: 160 });
    assert!(s.texture == t.share());
}

#[test]
fn a_texture_change_submits_the_pending_run() {
    let mut b = batch::<8>();
    let (t1, t2) = (texture(1), texture(2));
    b.begin_batch().unwrap();
    assert!(b.draw(&t1, bits(0.0), bits(0.0), bits(1.0), bits(1.0), None).unwrap().is_none());
    let first = b.draw(&t2, bits(2.0), bits(2.0), bits(3.0), bits(3.0), None).unwrap().unwrap();
    assert_eq!(first.vertices, rectangle(0.0, 0.0, 1.0, 1.0, WHITE));
    assert_eq!(first.texture.get_handle(), 1);
    assert_eq!(first.index_count, 6);
    assert_eq!(first.upload, BufferRange { offset: 0, byte_count: 80 });
    assert_eq!(b.pending_vertices(), 4);
    let second = b.end_batch().unwrap().unwrap();
    assert_eq!(second.vertices, rectangle(2.0, 2.0, 3.0, 3.0, WHITE));
    assert_eq!(second.texture.get_handle(), 2);
    assert_eq!(second.index_count, 6);
}

#[test]
fn a_submission_names_everything_to_bind() {
    let mut b = batch::<8>();
    b.begin_batch().unwrap();
    draw_unit(&mut b, &texture(9));
    let s = b.end_batch().unwrap().unwrap();
    assert_eq!(s.texture_slot, 0);
    assert_eq!(s.texture.get_handle(), 9);
    assert_eq!(s.resources.vertex_buffer, BufferBinding { handle: 11, target: ARRAY_BUFFER });
    assert_eq!(
        s.resources.index_buffer,
        BufferBinding { handle: 12, target: ELEMENT_ARRAY_BUFFER }
    );
    assert_eq!(s.resources.vao_handle, 5);
    assert_eq!(s.resources.program, 77);
    assert_eq!(s.upload.offset, 0);
    assert_eq!(s.upload.byte_count as usize, 20 * s.vertices.len());
}

#[test]
fn every_draw_emits_four_vertices_and_six_indices() {
    let mut b = batch::<8>();
    let textures = [1u32, 1, 2, 2, 2, 1, 3, 3, 1, 1, 1, 1, 2];
    let mut submissions: Vec<Submission> = Vec::new();
    b.begin_batch().unwrap();
    for (i, handle) in textures.iter().enumerate() {
        let x = i as f32;
        let r = b.draw(&texture(*handle), bits(x), bits(x), bits(x + 1.0), bits(x + 1.0), None);
        submissions.extend(r.unwrap());
    }
    submissions.extend(b.end_batch().unwrap());
    let vertices: usize = submissions.iter().map(|s| s.vertices.len()).sum();
    let indices: u32 = submissions.iter().map(|s| s.index_count).sum();
    assert_eq!(vertices, 4 * textures.len());
    assert_eq!(indices as usize, 6 * textures.len());
    assert_eq!(submissions.len(), 6);
    let runs: Vec<(u32, usize)> =
        submissions.iter().map(|s| (s.texture.get_handle(), s.vertices.len() / 4)).collect();
    assert_eq!(runs, vec![(1, 2), (2, 3), (1, 1), (3, 2), (1, 4), (2, 1)]);
    let mut all: Vec<SpriteVertex> = Vec::new();
    for s in &submissions {
        all.extend(s.vertices.iter().copied());
    }
    for (i, quad) in all.chunks(4).enumerate() {
        let x = i as f32;
        assert_eq!(quad, rectangle(x, x, x + 1.0, x + 1.0, WHITE).as_slice());
    }
}

#[test]
fn a_full_batch_refuses_another_quad_of_the_same_texture() {
    let mut b = batch::<2>();
    let t = texture(1);
    b.begin_batch().unwrap();
    assert!(b.draw(&t, 1, 1, 1, 1, None).is_ok());
    assert!(b.draw(&t, 2, 2, 2, 2, None).is_ok());
    assert_eq!(b.pending_vertices(), 8);
    assert!(matches!(b.draw(&t, 3, 3, 3, 3, None), Err(GfxError::CapacityExceeded)));
    let region = TextureRegion::new(t.share());
    let r = b.draw_sprite(&region, &Corners::rectangle(1, 2, 3, 4), Color::white());
    assert!(matches!(r, Err(GfxError::CapacityExceeded)));
    assert_eq!(b.pending_vertices(), 8);
    assert!(b.is_drawing());
    let s = b.end_batch().unwrap().unwrap();
    assert_eq!(s.vertices.len(), 8);
    assert_eq!(s.vertices[4].x, 2);
}

#[test]
fn a_full_batch_takes_a_quad_of_another_texture() {
    let mut b = batch::<1>();
    b.begin_batch().unwrap();
    assert!(b.draw(&texture(1), 1, 1, 1, 1, None).unwrap().is_none());
    let s = b.draw(&texture(2), 2, 2, 2, 2, None).unwrap().unwrap();
    assert_eq!(s.vertices.len(), 4);
    assert_eq!(s.vertices[0].x, 1);
    assert_eq!(b.pending_vertices(), 4);
    let s = b.flush_batch().unwrap();
    assert_eq!(s.vertices[0].x, 2);
    assert!(b.draw(&texture(2), 3, 3, 3, 3, None).unwrap().is_none());
}

#[test]
fn a_batch_for_no_sprites_refuses_every_quad() {
    let mut b = batch::<0>();
    b.begin_batch().unwrap();
    assert!(matches!(b.draw(&texture(1), 1, 1, 1, 1, None), Err(GfxError::CapacityExceeded)));
    assert!(matches!(b.end_batch(), Ok(None)));
}

#[test]
fn flush_hands_out_the_pending_run_and_keeps_drawing() {
    let mut b = batch::<8>();
    assert!(b.flush_batch().is_none());
    b.begin_batch().unwrap();
    assert!(b.flush_batch().is_none());
    draw_unit(&mut b, &texture(1));
    draw_unit(&mut b, &texture(1));
    let s = b.flush_batch().unwrap();
    assert_eq!(s.vertices.len(), 8);
    assert_eq!(s.index_count, 12);
    assert!(b.is_drawing());
    assert_eq!(b.pending_vertices(), 0);
    assert!(b.flush_batch().is_none());
    assert!(draw_unit(&mut b, &texture(2)).is_none());
    assert_eq!(b.end_batch().unwrap().unwrap().texture.get_handle(), 2);
}

#[test]
fn the_staging_array_is_reused_after_a_submission() {
    let mut b = batch::<2>();
    let t = texture(1);
    for round in 0..5u32 {
        b.begin_batch().unwrap();
        b.draw(&t, round, 0, 0, 0, None).unwrap();
        b.draw(&t, round + 100, 0, 0, 0, None).unwrap();
        let s = b.end_batch().unwrap().unwrap();
        assert_eq!(s.vertices.len(), 8);
        assert_eq!(s.vertices[0].x, round);
        assert_eq!(s.vertices[4].x, round + 100);
    }
}

#[test]
fn draw_region_draws_the_texture_of_the_region() {
    let mut b = batch::<8>();
    let region = TextureRegion::new(texture(4).share());
    b.begin_batch().unwrap();
    let r = b.draw_region(&region, bits(0.0), bits(1.0), bits(2.0), bits(3.0), None).unwrap();
    assert!(r.is_none());
    let s = b.end_batch().unwrap().unwrap();
    assert_eq!(s.vertices, rectangle(0.0, 1.0, 2.0, 3.0, WHITE));
    assert_eq!(s.texture.get_handle(), 4);
}

#[test]
fn draw_sprite_stages_the_corners_with_the_region_coordinates() {
    let mut b = batch::<8>();
    let region = TextureRegion::new(texture(4).share());
    let corners = Corners {
        top_left: Point { x: bits(0.0), y: bits(-1.0) },
        top_right: Point { x: bits(1.0), y: bits(0.0) },
        bottom_right: Point { x: bits(0.0), y: bits(1.0) },
        bottom_left: Point { x: bits(-1.0), y: bits(0.0) },
    };
    b.begin_batch().unwrap();
    let r = b.draw_sprite(&region, &corners, Color::from_rgba(1, 2, 3, 4)).unwrap();
    assert!(r.is_none());
    let s = b.end_batch().unwrap().unwrap();
    let color = 0x0102_0304;
    assert_eq!(
        s.vertices,
        vec![
            SpriteVertex { x: bits(0.0), y: bits(-1.0), u: bits(0.0), v: bits(0.0), color },
            SpriteVertex { x: bits(1.0), y: bits(0.0), u: bits(1.0), v: bits(0.0), color },
            SpriteVertex { x: bits(0.0), y: bits(1.0), u: bits(1.0), v: bits(1.0), color },
            SpriteVertex { x: bits(-1.0), y: bits(0.0), u: bits(0.0), v: bits(1.0), color },
        ]
    );
    assert_eq!(s.texture.get_handle(), 4);
    assert_eq!(s.index_count, 6);
}

#[test]
fn an_unrotated_sprite_has_the_positions_of_the_rectangle() {
    let t = texture(4);
    let region = TextureRegion::new(t.share());
    let (x, y, x2, y2) = (bits(0.25), bits(0.5), bits(0.75), bits(1.0));
    let mut b = batch::<8>();
    b.begin_batch().unwrap();
    b.draw(&t, x, y, x2, y2, None).unwrap();
    b.draw_sprite(&region, &Corners::rectangle(x, y, x2, y2), Color::white()).unwrap();
    let s = b.end_batch().unwrap().unwrap();
    assert_eq!(s.vertices.len(), 8);
    for i in 0..4 {
        assert_eq!(s.vertices[i].x, s.vertices[i + 4].x);
        assert_eq!(s.vertices[i].y, s.vertices[i + 4].y);
        assert_eq!(s.vertices[i].color, s.vertices[i + 4].color);
    }
}

#[test]
fn draw_sprite_and_draw_share_a_run_of_one_texture() {
    let t = texture(4);
    let region = TextureRegion::new(t.share());
    let mut b = batch::<8>();
    b.begin_batch().unwrap();
    assert!(b.draw(&t, 0, 0, 0, 0, None).unwrap().is_none());
    assert!(b
        .draw_sprite(&region, &Corners::rectangle(1, 1, 1, 1), Color::white())
        .unwrap()
        .is_none());
    let other = TextureRegion::new(texture(5).share());
    let s = b.draw_sprite(&other, &Corners::rectangle(2, 2, 2, 2), Color::white()).unwrap().unwrap();
    assert_eq!(s.vertices.len(), 8);
    assert_eq!(b.end_batch().unwrap().unwrap().vertices.len(), 4);
}
