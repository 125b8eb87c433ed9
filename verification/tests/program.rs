//! Linking programs: success, failure diagnostics, cleanup, and bindings.

use hgl::Device;
use hgl::Program;
use hgl::Shader;
use hgl::ShaderType;

const VERTEX_SRC: &str = "#version 140\nin vec2 position;\nvoid main() {\n    gl_Position = vec4(position, 0.0, 1.0);\n}\n";
const FRAGMENT_SRC: &str = "#version 140\nout vec4 out_color;\nvoid main() {\n    out_color = vec4(1.0);\n}\n";

fn two_shaders(dev: &mut Device) -> (Shader, Shader) {
    let vs = Shader::compile(dev, VERTEX_SRC, ShaderType::VertexShader).unwrap();
    let fs = Shader::compile(dev, FRAGMENT_SRC, ShaderType::FragmentShader).unwrap();
    (vs, fs)
}

#[test]
fn linking_compiled_shaders_succeeds() {
    let mut dev = Device::new();
    let (vs, fs) = two_shaders(&mut dev);
    let program = Program::link(&mut dev, &[vs, fs]).expect("compatible shaders link");
    assert_ne!(program.name(), 0);
    assert!(dev.is_program(program.name()));
    // Both shaders were attached, in order.
    assert_eq!(dev.programs[0].attached, vec![1, 3]);
}

#[test]
fn shaders_may_be_released_after_linking() {
    let mut dev = Device::new();
    let (vs, fs) = two_shaders(&mut dev);
    let shaders = [vs, fs];
    let program = Program::link(&mut dev, &shaders).unwrap();
    let [vs, fs] = shaders;
    vs.delete(&mut dev);
    fs.delete(&mut dev);
    assert!(dev.is_program(program.name()));
    assert_eq!(dev.programs[0].attached, vec![1, 3]);
}

#[test]
fn failed_link_returns_driver_diagnostic_and_releases() {
    let mut dev = Device::new();
    let (vs, fs) = two_shaders(&mut dev);
    // Environment-dependent in real drivers; here the driver decision is
    // simulated, and only the shape of the result is asserted exactly.
    let text = b"error: unresolved cross-stage variable `v_color'".to_vec();
    dev.set_link_result(false, text.clone());
    let err = Program::link(&mut dev, &[vs, fs]).expect_err("the link fails");
    assert!(!err.is_empty());
    assert_eq!(err, text);
    // The partially created program was released: no leak.
    assert_eq!(dev.programs.len(), 1);
    assert!(!dev.is_program(2));
}

#[test]
fn linking_no_shaders_follows_the_driver_decision() {
    let mut dev = Device::new();
    let program = Program::link(&mut dev, &[]).expect("the driver accepted the link");
    assert!(dev.is_program(program.name()));
    assert_eq!(dev.programs[0].attached, Vec::<u32>::new());
}

#[test]
fn shader_and_program_names_never_collide() {
    let mut dev = Device::new();
    let (vs, fs) = two_shaders(&mut dev);
    let vs_name = vs.name();
    let fs_name = fs.name();
    let program = Program::link(&mut dev, &[vs, fs]).unwrap();
    // One shared name space: a program's handle is never a shader's handle.
    assert_ne!(program.name(), vs_name);
    assert_ne!(program.name(), fs_name);
    assert!(!dev.is_shader(program.name()));
    assert!(!dev.is_program(vs_name));
    assert!(!dev.is_program(fs_name));
}

#[test]
fn activate_binds_the_program() {
    let mut dev = Device::new();
    let (vs, fs) = two_shaders(&mut dev);
    let program = Program::link(&mut dev, &[vs, fs]).unwrap();
    assert_eq!(dev.bound_program, 0);
    program.activate(&mut dev);
    assert_eq!(dev.bound_program, program.name());
}

#[test]
fn bind_frag_records_the_request() {
    let mut dev = Device::new();
    let (vs, fs) = two_shaders(&mut dev);
    let program = Program::link(&mut dev, &[vs, fs]).unwrap();
    program.bind_frag(&mut dev, 0, "out_color");
    assert_eq!(dev.programs[0].frag_binds.len(), 1);
    assert_eq!(dev.programs[0].frag_binds[0].color, 0);
    assert_eq!(dev.programs[0].frag_binds[0].name, "out_color");
}
