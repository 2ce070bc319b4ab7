use oblivion_ui::error::UiError;

#[test]
fn the_message_of_a_backend_error() {
    let error = UiError::SdlError("no video device".to_string());
    assert_eq!(error.message(), "SDL2 error: no video device");
}

#[test]
fn the_message_of_a_font_error() {
    assert_eq!(UiError::FontError.message(), "Font loading error");
}

#[test]
fn the_message_of_a_render_error() {
    let error = UiError::RenderError("surface lost".to_string());
    assert_eq!(error.message(), "Rendering error: surface lost");
}

#[test]
fn the_message_of_an_error_without_detail() {
    assert_eq!(UiError::SdlError(String::new()).message(), "SDL2 error: ");
    assert_eq!(UiError::RenderError(String::new()).message(), "Rendering error: ");
}

#[test]
fn a_bare_message_is_a_backend_error() {
    let error = UiError::from("window".to_string());
    assert_eq!(error, UiError::SdlError("window".to_string()));
    let error: UiError = "canvas".to_string().into();
    assert_eq!(error.message(), "SDL2 error: canvas");
}
