use rlib::gfx::error::GfxError;
use rlib::gfx::shader::{
    status_reports_failure, ActiveUniform, Shader, ShaderProgram, UniformWrite,
};

const VERTEX_SHADER: u32 = 0x8B31;
const FRAGMENT_SHADER: u32 = 0x8B30;

fn name_buffer(name: &str) -> Vec<u8> {
    let mut buffer = vec![b' '; 255];
    buffer[..name.len()].copy_from_slice(name.as_bytes());
    buffer[name.len()] = 0;
    buffer
}

fn uniform(name: &str, location: i32) -> ActiveUniform {
    ActiveUniform { name: name_buffer(name), name_len: name.len() as i32, location }
}

#[test]
fn a_compiled_shader_keeps_its_source() {
    let s = Shader::from_string(3, VERTEX_SHADER, "void main() {}", 1, String::new()).unwrap();
    assert_eq!(s.get_handle(), 3);
    assert_eq!(s.get_type(), VERTEX_SHADER);
    assert_eq!(s.get_source(), "void main() {}");
}

#[test]
fn a_null_shader_handle_is_a_creation_failure() {
    let r = Shader::from_string(0, VERTEX_SHADER, "void main() {}", 1, String::new());
    assert!(matches!(r, Err(GfxError::ResourceCreationFailure)));
    let r = Shader::from_string(0, VERTEX_SHADER, "x", 0, "ignored".to_string());
    assert!(matches!(r, Err(GfxError::ResourceCreationFailure)));
}

#[test]
fn a_failed_compilation_carries_the_log() {
    let r = Shader::from_string(3, FRAGMENT_SHADER, "oops", 0, "0:1: syntax error".to_string());
    match r {
        Err(GfxError::CompileError(log)) => assert_eq!(log, "0:1: syntax error"),
        _ => panic!("expected a compile error"),
    }
}

#[test]
fn any_nonzero_status_is_a_successful_compilation() {
    assert!(Shader::from_string(3, FRAGMENT_SHADER, "a", -1, "warning".to_string()).is_ok());
    assert!(Shader::from_string(3, FRAGMENT_SHADER, "a", i32::MAX, String::new()).is_ok());
}

#[test]
fn a_failed_link_carries_the_log() {
    let r = ShaderProgram::from_shaders(8, 0, "unresolved symbol".to_string(), &[uniform("u_texture", 0)]);
    match r {
        Err(GfxError::LinkError(log)) => assert_eq!(log, "unresolved symbol"),
        _ => panic!("expected a link error"),
    }
}

#[test]
fn a_linked_program_resolves_its_uniforms() {
    let p = ShaderProgram::from_shaders(
        8,
        1,
        String::new(),
        &[uniform("u_texture", 0), uniform("u_time", 4), uniform("u_missing", -1)],
    )
    .unwrap();
    assert_eq!(p.get_handle(), 8);
    let one = 1.0f32.to_bits();
    assert_eq!(p.set_float("u_texture", one), Some(UniformWrite { location: 0, value: one }));
    assert_eq!(p.set_float("u_time", 7), Some(UniformWrite { location: 4, value: 7 }));
    assert_eq!(p.set_float("u_missing", 7), Some(UniformWrite { location: -1, value: 7 }));
}

#[test]
fn an_unknown_uniform_is_silently_ignored() {
    let p = ShaderProgram::from_shaders(8, 1, String::new(), &[uniform("u_texture", 0)]).unwrap();
    assert_eq!(p.set_float("u_t", 100.0f32.to_bits()), None);
    assert_eq!(p.set_float("u_textur", 0), None);
    assert_eq!(p.set_float("u_texture ", 0), None);
    assert_eq!(p.set_float("", 0), None);
    let empty = ShaderProgram::from_shaders(8, 1, String::new(), &[]).unwrap();
    assert_eq!(empty.set_float("u_texture", 0), None);
}

#[test]
fn a_uniform_name_is_cut_at_its_length() {
    let p = ShaderProgram::from_shaders(
        8,
        1,
        String::new(),
        &[ActiveUniform { name: b"u_color_and_more".to_vec(), name_len: 7, location: 3 }],
    )
    .unwrap();
    assert_eq!(p.set_float("u_color", 1), Some(UniformWrite { location: 3, value: 1 }));
    assert_eq!(p.set_float("u_color_and_more", 1), None);
}

#[test]
fn a_length_outside_the_buffer_keeps_the_whole_buffer() {
    let whole = [
        ActiveUniform { name: b"abc".to_vec(), name_len: 3, location: 1 },
        ActiveUniform { name: b"def".to_vec(), name_len: 100, location: 2 },
        ActiveUniform { name: b"ghi".to_vec(), name_len: -1, location: 3 },
        ActiveUniform { name: b"jkl".to_vec(), name_len: 0, location: 4 },
    ];
    let p = ShaderProgram::from_shaders(8, 1, String::new(), &whole).unwrap();
    assert_eq!(p.set_float("abc", 0).map(|w| w.location), Some(1));
    assert_eq!(p.set_float("def", 0).map(|w| w.location), Some(2));
    assert_eq!(p.set_float("ghi", 0).map(|w| w.location), Some(3));
    assert_eq!(p.set_float("", 0).map(|w| w.location), Some(4));
    assert_eq!(p.set_float("jkl", 0), None);
}

#[test]
fn a_name_enumerated_twice_resolves_to_the_later_location() {
    let p = ShaderProgram::from_shaders(
        8,
        1,
        String::new(),
        &[uniform("a", 1), uniform("b", 2), uniform("a", 3), uniform("c", 4)],
    )
    .unwrap();
    assert_eq!(p.set_float("a", 0).map(|w| w.location), Some(3));
    assert_eq!(p.set_float("b", 0).map(|w| w.location), Some(2));
    assert_eq!(p.set_float("c", 0).map(|w| w.location), Some(4));
}

#[test]
fn a_cloned_program_resolves_the_same_uniforms() {
    let p = ShaderProgram::from_shaders(8, 1, String::new(), &[uniform("a", 1), uniform("b", 2)])
        .unwrap();
    let q = p.clone();
    assert_eq!(q.get_handle(), 8);
    assert_eq!(q.set_float("a", 5), p.set_float("a", 5));
    assert_eq!(q.set_float("b", 5), Some(UniformWrite { location: 2, value: 5 }));
    assert_eq!(q.set_float("c", 5), None);
}

#[test]
fn stage_handles_lists_the_shaders_in_order() {
    let f = Shader::from_string(11, FRAGMENT_SHADER, "f", 1, String::new()).unwrap();
    let v = Shader::from_string(12, VERTEX_SHADER, "v", 1, String::new()).unwrap();
    assert_eq!(ShaderProgram::stage_handles(&[f.clone(), v.clone()]), vec![11, 12]);
    assert_eq!(ShaderProgram::stage_handles(&[v, f]), vec![12, 11]);
    assert_eq!(ShaderProgram::stage_handles(&[]), Vec::<u32>::new());
}

#[test]
fn a_cloned_shader_is_the_same_stage() {
    let s = Shader::from_string(3, VERTEX_SHADER, "void main() {}", 1, String::new()).unwrap();
    let c = s.clone();
    assert_eq!(c.get_handle(), 3);
    assert_eq!(c.get_type(), VERTEX_SHADER);
    assert_eq!(c.get_source(), "void main() {}");
    assert_eq!(s.get_source(), c.get_source());
}

#[test]
fn only_a_zero_status_reports_a_failure() {
    assert!(status_reports_failure(0));
    assert!(!status_reports_failure(1));
    assert!(!status_reports_failure(-1));
    assert!(!status_reports_failure(i32::MIN));
}
