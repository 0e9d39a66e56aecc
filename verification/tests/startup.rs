use winit_softbuffer_bar::back_buffer::{BufferError, CairoBackBuffer, ImageSize};
use winit_softbuffer_bar::startup::{font_description, shared_path, wants_transport};

fn args(values: &[&str]) -> Vec<String> {
    values.iter().map(|value| value.to_string()).collect()
}

#[test]
fn last_argument_names_the_transport() {
    assert_eq!(shared_path(&args(&["bar", "/dev/shm/a"])), "/dev/shm/a");
    assert_eq!(shared_path(&args(&["bar", "first", "second"])), "second");
}

#[test]
fn program_name_alone_names_no_transport() {
    assert_eq!(shared_path(&args(&["bar"])), "");
    assert_eq!(shared_path(&args(&[])), "");
}

#[test]
fn transport_is_wanted_for_a_path_only() {
    assert!(!wants_transport(&String::new()));
    assert!(wants_transport(&"x".to_string()));
}

#[test]
fn font_comes_from_the_environment_or_is_monospace() {
    assert_eq!(font_description(Some("serif 12".to_string())), "serif 12");
    assert_eq!(font_description(Some(String::new())), "");
    assert_eq!(font_description(None), "monospace 11");
}

#[test]
fn back_buffer_has_an_image_of_its_size() {
    let buffer = CairoBackBuffer::new(1920, 38).unwrap();
    assert_eq!((buffer.width, buffer.height), (1920, 38));
    assert_eq!(buffer.image, ImageSize { width: 1920, height: 38 });
    assert!(CairoBackBuffer::new(i32::MAX as u32, i32::MAX as u32).is_ok());
}

#[test]
fn oversized_back_buffers_are_refused() {
    let limit = i32::MAX as u32;
    assert_eq!(CairoBackBuffer::new(limit + 1, 1), Err(BufferError::WidthTooLarge));
    assert_eq!(CairoBackBuffer::new(1, limit + 1), Err(BufferError::HeightTooLarge));
    assert_eq!(CairoBackBuffer::new(limit + 1, limit + 1), Err(BufferError::WidthTooLarge));
    assert_eq!(BufferError::WidthTooLarge.message(), "buffer width does not fit Cairo");
    assert_eq!(BufferError::HeightTooLarge.message(), "buffer height does not fit Cairo");
}

#[test]
fn back_buffer_is_replaced_only_when_the_size_changes() {
    let buffer = CairoBackBuffer::new(800, 38).unwrap();
    assert_eq!(buffer.ensure_size(800, 38), Ok(None));
    let wider = buffer.ensure_size(801, 38).unwrap().unwrap();
    assert_eq!(wider, CairoBackBuffer::new(801, 38).unwrap());
    assert_eq!(wider.ensure_size(801, 38), Ok(None));
    assert_eq!(buffer.ensure_size(800, u32::MAX), Err(BufferError::HeightTooLarge));
}
