use yew_webgl::shader::{Shader, ShaderError};

#[test]
fn new_shader_has_no_program() {
    let s = Shader::new("void main() {}", "void main() { }");
    assert!(s.shader_id().is_none());
}

#[test]
fn cloned_new_shader_has_no_program() {
    let s = Shader::new("", "");
    assert!(s.clone().shader_id().is_none());
}

#[test]
fn shader_errors_are_distinct() {
    assert_ne!(ShaderError::ShaderNotCreated, ShaderError::InfoLogMissing);
    assert_ne!(ShaderError::InfoLogMissing, ShaderError::ProgramNotCreated);
}

#[test]
fn new_shader_is_not_ready() {
    let s = Shader::new("a", "b");
    assert!(!s.is_ready());
}

#[test]
fn info_log_missing_is_an_error() {
    assert_eq!(yew_webgl::shader::info_log_message(None), Err(ShaderError::InfoLogMissing));
}

#[test]
fn empty_info_log_is_not_logged() {
    assert_eq!(yew_webgl::shader::info_log_message(Some(String::new())), Ok(None));
}

#[test]
fn nonempty_info_log_is_logged_as_is() {
    let text = "ERROR: 0:1: 'x' : undeclared identifier".to_string();
    assert_eq!(yew_webgl::shader::info_log_message(Some(text.clone())), Ok(Some(text)));
}

#[test]
fn new_shader_lends_no_program() {
    let s = Shader::new("a", "b");
    assert!(s.program_id().is_none());
}
