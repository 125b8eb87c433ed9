//! Destruction discipline: every wrapper releases its handle exactly once,
//! and constructing and dropping many objects neither leaks nor
//! double-releases.

use hgl::Device;
use hgl::Primitive;
use hgl::Program;
use hgl::Shader;
use hgl::ShaderType;
use hgl::Vao;
use hgl::Vbo;
use hgl::VboUsage;

const SRC: &str = "#version 140\nvoid main() { gl_Position = vec4(0.0); }\n";

#[test]
fn shader_release_is_observable_exactly_once() {
    let mut dev = Device::new();
    let mut names: Vec<u32> = Vec::new();
    let mut shaders: Vec<Shader> = Vec::new();
    for _ in 0..8 {
        let shader = Shader::compile(&mut dev, SRC, ShaderType::VertexShader).unwrap();
        names.push(shader.name());
        shaders.push(shader);
    }
    for name in &names {
        assert!(dev.is_shader(*name));
    }
    for shader in shaders {
        shader.delete(&mut dev);
    }
    // Every handle was released; none was left live, none was re-created.
    assert_eq!(dev.shaders.len(), 8);
    for name in &names {
        assert!(!dev.is_shader(*name));
    }
}

#[test]
fn program_release_unbinds_it() {
    let mut dev = Device::new();
    let program = Program::link(&mut dev, &[]).unwrap();
    let name = program.name();
    program.activate(&mut dev);
    assert_eq!(dev.bound_program, name);
    program.delete(&mut dev);
    assert!(!dev.is_program(name));
    assert_eq!(dev.bound_program, 0);
}

#[test]
fn buffer_release_unbinds_it() {
    let mut dev = Device::new();
    let data: [f32; 3] = [0.0, 0.5, 1.0];
    let vbo = Vbo::from_data(&mut dev, &data, VboUsage::StaticDraw).unwrap();
    let name = vbo.name();
    assert_eq!(dev.bound_array_buffer, name);
    vbo.delete(&mut dev);
    assert!(!dev.is_buffer(name));
    assert_eq!(dev.bound_array_buffer, 0);
}

#[test]
fn vertex_array_release_unbinds_it() {
    let mut dev = Device::new();
    let vao = Vao::new(&mut dev);
    let name = vao.name();
    vao.activate(&mut dev);
    assert_eq!(dev.bound_vertex_array, name);
    vao.delete(&mut dev);
    assert!(!dev.is_vertex_array(name));
    assert_eq!(dev.bound_vertex_array, 0);
}

#[test]
fn releasing_one_wrapper_leaves_the_others_live() {
    let mut dev = Device::new();
    let a = Shader::compile(&mut dev, SRC, ShaderType::VertexShader).unwrap();
    let b = Shader::compile(&mut dev, SRC, ShaderType::VertexShader).unwrap();
    let b_name = b.name();
    a.delete(&mut dev);
    assert!(dev.is_shader(b_name));
    b.delete(&mut dev);
    assert!(!dev.is_shader(b_name));
}

#[test]
fn draw_after_scene_teardown_keeps_working_state_consistent() {
    let mut dev = Device::new();
    let vao = Vao::new(&mut dev);
    vao.activate(&mut dev);
    vao.draw(&mut dev, Primitive::Triangles, 0, 3);
    vao.delete(&mut dev);
    assert_eq!(dev.draw_call_count(), 1);
    assert_eq!(dev.bound_vertex_array, 0);
}
