//! The status/log protocol against a device with controllable status and
//! log length.

use hgl::device::ProgramLog;
use hgl::device::ShaderLog;
use hgl::glenum::COMPILE_STATUS;
use hgl::glenum::INFO_LOG_LENGTH;
use hgl::glenum::LINK_STATUS;
use hgl::glenum::VERTEX_SHADER;
use hgl::status_log::get_info_log;
use hgl::Device;

fn failed_shader(dev: &mut Device, log: Vec<u8>) -> u32 {
    dev.set_compile_result(false, log);
    let shader = dev.create_shader(VERTEX_SHADER);
    dev.shader_source(shader, "in vec2 position;");
    dev.compile_shader(shader);
    shader
}

#[test]
fn success_reports_no_diagnostic() {
    let mut dev = Device::new();
    // Even when the driver keeps a log around, a success returns None
    // without retrieving it.
    dev.set_compile_result(true, b"warning: unused variable".to_vec());
    let shader = dev.create_shader(VERTEX_SHADER);
    dev.compile_shader(shader);
    let queries = ShaderLog { dev: &dev, object: shader };
    assert_eq!(get_info_log(&queries, COMPILE_STATUS), None);
}

#[test]
fn length_zero_gives_failure_with_empty_text() {
    let mut dev = Device::new();
    let shader = failed_shader(&mut dev, Vec::new());
    assert_eq!(dev.get_shader_iv(shader, INFO_LOG_LENGTH), 0);
    let queries = ShaderLog { dev: &dev, object: shader };
    assert_eq!(get_info_log(&queries, COMPILE_STATUS), Some(Vec::new()));
}

#[test]
fn length_one_gives_failure_with_empty_text() {
    let mut dev = Device::new();
    // A driver that stores a terminator-only log reports length 1.
    dev.set_empty_log_report(true);
    let shader = failed_shader(&mut dev, Vec::new());
    assert_eq!(dev.get_shader_iv(shader, INFO_LOG_LENGTH), 1);
    let queries = ShaderLog { dev: &dev, object: shader };
    assert_eq!(get_info_log(&queries, COMPILE_STATUS), Some(Vec::new()));
}

#[test]
fn length_n_gives_text_of_n_minus_one_bytes() {
    let mut dev = Device::new();
    let text = b"0:1(1): error: syntax error".to_vec();
    let shader = failed_shader(&mut dev, text.clone());
    let reported = dev.get_shader_iv(shader, INFO_LOG_LENGTH);
    assert_eq!(reported, text.len() as i32 + 1);
    let queries = ShaderLog { dev: &dev, object: shader };
    let log = get_info_log(&queries, COMPILE_STATUS).expect("status reports failure");
    assert_eq!(log.len() as i32, reported - 1);
    assert_eq!(log, text);
}

#[test]
fn program_queries_use_the_same_protocol() {
    let mut dev = Device::new();
    dev.set_link_result(false, b"error: unresolved variable".to_vec());
    let program = dev.create_program();
    dev.link_program(program);
    assert_eq!(dev.get_program_iv(program, INFO_LOG_LENGTH), 27);
    let queries = ProgramLog { dev: &dev, object: program };
    assert_eq!(
        get_info_log(&queries, LINK_STATUS),
        Some(b"error: unresolved variable".to_vec())
    );
}

#[test]
fn log_truncates_to_buffer_size() {
    let mut dev = Device::new();
    let shader = failed_shader(&mut dev, b"error: bad".to_vec());
    // A smaller buffer keeps one byte for the terminator.
    assert_eq!(dev.get_shader_info_log(shader, 6), b"error".to_vec());
    assert_eq!(dev.get_shader_info_log(shader, 1), Vec::<u8>::new());
}
