//! The whole pipeline: compile two trivial shaders, link, upload vertex
//! data, configure attributes, and draw.

use hgl::glenum::TRIANGLES;
use hgl::Device;
use hgl::Primitive;
use hgl::Program;
use hgl::Shader;
use hgl::ShaderType;
use hgl::Vao;
use hgl::Vbo;
use hgl::VboUsage;

const VERTEX_SRC: &str = "#version 140\nin vec2 position;\nvoid main() {\n    gl_Position = vec4(position, 0.0, 1.0);\n}\n";
const FRAGMENT_SRC: &str = "#version 140\nout vec4 out_color;\nvoid main() {\n    out_color = vec4(1.0, 1.0, 1.0, 1.0);\n}\n";

#[test]
fn trivial_pipeline_draws_a_triangle() {
    let mut dev = Device::new();

    let vs = Shader::compile(&mut dev, VERTEX_SRC, ShaderType::VertexShader)
        .expect("trivial vertex shader compiles");
    let fs = Shader::compile(&mut dev, FRAGMENT_SRC, ShaderType::FragmentShader)
        .expect("trivial fragment shader compiles");
    assert_ne!(vs.name(), 0);
    assert_ne!(fs.name(), 0);
    assert_ne!(vs.name(), fs.name());

    let vs_name = vs.name();
    let fs_name = fs.name();
    let program = Program::link(&mut dev, &[vs, fs]).expect("the program links");
    assert_ne!(program.name(), 0);
    // Shader and program handles come from one shared name space: all three
    // are distinct.
    assert_ne!(program.name(), vs_name);
    assert_ne!(program.name(), fs_name);
    program.bind_frag(&mut dev, 0, "out_color");

    let vertices: [f32; 6] = [0.0, 0.5, 0.5, -0.5, -0.5, -0.5];
    let vbo = Vbo::from_data(&mut dev, &vertices, VboUsage::StaticDraw).unwrap();

    let vao = Vao::new(&mut dev);
    dev.set_attrib_location(program.name(), "position", 0);
    let loc = vao
        .enable_attrib(&mut dev, &program, "position", 2, 0, 0)
        .expect("the attribute is active");
    assert_eq!(loc, 0);

    // A name absent from the shader source resolves to nothing — reported
    // explicitly instead of enabling a meaningless index.
    assert_eq!(vao.enable_attrib(&mut dev, &program, "normal", 3, 0, 0), None);

    program.activate(&mut dev);
    vbo.activate(&mut dev);
    vao.activate(&mut dev);
    vao.draw(&mut dev, Primitive::Triangles, 0, 3);

    assert_eq!(dev.draw_call_count(), 1);
    assert_eq!(dev.draw_calls[0].mode, TRIANGLES);
    assert_eq!(dev.draw_calls[0].program, program.name());
    assert_eq!(dev.draw_calls[0].vertex_array, vao.name());

    // Teardown: every wrapper releases its handle exactly once.
    let vs = Shader::from_name(&dev, vs_name, ShaderType::VertexShader);
    let fs = Shader::from_name(&dev, fs_name, ShaderType::FragmentShader);
    vs.delete(&mut dev);
    fs.delete(&mut dev);
    vao.delete(&mut dev);
    vbo.delete(&mut dev);
    program.delete(&mut dev);
    assert!(!dev.is_shader(vs_name));
    assert!(!dev.is_shader(fs_name));
}
