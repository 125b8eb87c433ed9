//! Vertex array objects: attribute binding and draw calls.

use hgl::glenum::TRIANGLES;
use hgl::Device;
use hgl::Primitive;
use hgl::Program;
use hgl::Vao;
use hgl::Vbo;
use hgl::VboUsage;

fn scene(dev: &mut Device) -> (Program, Vbo, Vao) {
    let program = Program::link(dev, &[]).unwrap();
    let data: [f32; 6] = [0.0, 0.5, 0.5, -0.5, -0.5, -0.5];
    let vbo = Vbo::from_data(dev, &data, VboUsage::StaticDraw).unwrap();
    let vao = Vao::new(dev);
    (program, vbo, vao)
}

#[test]
fn enable_attrib_resolves_and_records_the_layout() {
    let mut dev = Device::new();
    let (program, vbo, vao) = scene(&mut dev);
    dev.set_attrib_location(program.name(), "position", 0);
    let loc = vao
        .enable_attrib(&mut dev, &program, "position", 2, 8, 0)
        .expect("the attribute resolves");
    assert_eq!(loc, 0);
    // Binding this VAO is a side effect of the call.
    assert_eq!(dev.bound_vertex_array, vao.name());
    let slot = &dev.arrays[(vao.name() - 1) as usize];
    assert_eq!(slot.enabled, vec![0]);
    assert_eq!(slot.pointers.len(), 1);
    assert_eq!(slot.pointers[0].index, 0);
    assert_eq!(slot.pointers[0].components, 2);
    assert_eq!(slot.pointers[0].element_type, hgl::glenum::FLOAT);
    assert!(!slot.pointers[0].normalized);
    assert_eq!(slot.pointers[0].stride, 8);
    assert_eq!(slot.pointers[0].offset, 0);
    assert_eq!(slot.pointers[0].buffer, vbo.name());
}

#[test]
fn enable_attrib_reports_an_unresolved_name() {
    let mut dev = Device::new();
    let (program, _vbo, vao) = scene(&mut dev);
    // "colour" never appears in the program: an explicit not-found result,
    // with no attribute enabled.
    let r = vao.enable_attrib(&mut dev, &program, "colour", 3, 0, 0);
    assert_eq!(r, None);
    let slot = &dev.arrays[(vao.name() - 1) as usize];
    assert!(slot.enabled.is_empty());
    assert!(slot.pointers.is_empty());
    // The VAO was still bound before the lookup failed.
    assert_eq!(dev.bound_vertex_array, vao.name());
}

#[test]
fn first_registration_of_a_name_wins() {
    let mut dev = Device::new();
    let (program, _vbo, vao) = scene(&mut dev);
    dev.set_attrib_location(program.name(), "position", 1);
    dev.set_attrib_location(program.name(), "position", 2);
    let loc = vao.enable_attrib(&mut dev, &program, "position", 2, 0, 0).unwrap();
    assert_eq!(loc, 1);
}

#[test]
fn draw_records_the_call_under_current_bindings() {
    let mut dev = Device::new();
    let (program, _vbo, vao) = scene(&mut dev);
    program.activate(&mut dev);
    vao.activate(&mut dev);
    vao.draw(&mut dev, Primitive::Triangles, 0, 3);
    assert_eq!(dev.draw_call_count(), 1);
    assert_eq!(dev.draw_calls[0].mode, TRIANGLES);
    assert_eq!(dev.draw_calls[0].first, 0);
    assert_eq!(dev.draw_calls[0].count, 3);
    assert_eq!(dev.draw_calls[0].program, program.name());
    assert_eq!(dev.draw_calls[0].vertex_array, vao.name());
}

#[test]
fn primitive_constants() {
    assert_eq!(Primitive::Points.to_glenum(), 0x0000);
    assert_eq!(Primitive::Lines.to_glenum(), 0x0001);
    assert_eq!(Primitive::LineLoop.to_glenum(), 0x0002);
    assert_eq!(Primitive::LineStrip.to_glenum(), 0x0003);
    assert_eq!(Primitive::Triangles.to_glenum(), 0x0004);
    assert_eq!(Primitive::TriangleStrip.to_glenum(), 0x0005);
    assert_eq!(Primitive::TriangleFan.to_glenum(), 0x0006);
}
