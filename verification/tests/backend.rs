use canvas_backend::backend::{BackendError, CanvasBackend, ClearType, PaintOutcome};
use canvas_backend::cell::Cell;
use canvas_backend::command::Command;
use canvas_backend::geometry::{Size, Viewport, WindowSize};

fn viewport(width: u32, height: u32) -> Viewport {
    Viewport { width, height, device_width: width, device_height: height }
}

fn attached(width: u32, height: u32) -> CanvasBackend {
    CanvasBackend::new(Some(viewport(width, height))).unwrap().0
}

fn detached() -> CanvasBackend {
    let mut backend = attached(160, 180);
    assert_eq!(backend.clear(None), Err(BackendError::SurfaceUnavailable));
    backend
}

const MODES: [ClearType; 5] = [
    ClearType::All,
    ClearType::AfterCursor,
    ClearType::BeforeCursor,
    ClearType::CurrentLine,
    ClearType::UntilNewLine,
];

#[test]
fn a_new_backend_sizes_the_buffer() {
    let (backend, commands) = CanvasBackend::new(Some(viewport(160, 180))).unwrap();
    assert!(backend.is_attached());
    assert!(backend.is_cursor_visible());
    assert_eq!(commands, vec![Command::ResizeBuffer { width: 160, height: 180 }]);
}

#[test]
fn no_backend_without_a_surface() {
    assert_eq!(CanvasBackend::new(None), Err(BackendError::SurfaceUnavailable));
}

#[test]
fn cursor_starts_at_the_origin() {
    let backend = attached(160, 180);
    assert_eq!(backend.get_cursor(), Ok((0, 0)));
}

#[test]
fn cursor_is_where_it_was_set() {
    let mut backend = attached(160, 180);
    assert_eq!(backend.set_cursor(7, 3), Ok(vec![Command::MoveTo { x: 7, y: 3 }]));
    assert_eq!(backend.get_cursor(), Ok((7, 3)));
    assert_eq!(backend.set_cursor(65535, 0), Ok(vec![Command::MoveTo { x: 65535, y: 0 }]));
    assert_eq!(backend.get_cursor(), Ok((65535, 0)));
    assert_eq!(backend.get_cursor(), Ok((65535, 0)));
}

#[test]
fn cursor_stays_through_other_operations() {
    let mut backend = attached(160, 180);
    backend.set_cursor(4, 5).unwrap();
    backend.hide_cursor().unwrap();
    backend.clear(Some(viewport(160, 180))).unwrap();
    backend.size(Some(viewport(160, 180))).unwrap();
    backend.draw(Some(viewport(160, 180)), &vec![(1, 1, Cell::new("x"))]).unwrap();
    backend.append_lines(2).unwrap();
    backend.flush().unwrap();
    backend.show_cursor().unwrap();
    assert_eq!(backend.get_cursor(), Ok((4, 5)));
}

#[test]
fn hiding_and_showing_the_cursor() {
    let mut backend = attached(160, 180);
    assert_eq!(backend.hide_cursor(), Ok(()));
    assert!(!backend.is_cursor_visible());
    assert_eq!(backend.hide_cursor(), Ok(()));
    assert!(!backend.is_cursor_visible());
    assert_eq!(backend.show_cursor(), Ok(()));
    assert!(backend.is_cursor_visible());
    assert_eq!(backend.show_cursor(), Ok(()));
    assert!(backend.is_cursor_visible());
    assert_eq!(backend.get_cursor(), Ok((0, 0)));
}

#[test]
fn clear_clears_the_whole_viewport() {
    let mut backend = attached(160, 180);
    assert_eq!(
        backend.clear(Some(viewport(300, 200))),
        Ok(vec![Command::ClearRect { x: 0, y: 0, width: 300, height: 200 }])
    );
}

#[test]
fn every_region_is_the_whole_surface() {
    let mut backend = attached(160, 180);
    let whole = backend.clear(Some(viewport(160, 180)));
    for mode in MODES {
        assert_eq!(backend.clear_region(Some(viewport(160, 180)), mode), whole);
    }
    assert!(backend.is_attached());
}

#[test]
fn clearing_twice_is_clearing_once() {
    let mut backend = attached(160, 180);
    let first = backend.clear(Some(viewport(160, 180)));
    let state = backend.clone();
    let second = backend.clear(Some(viewport(160, 180)));
    assert_eq!(first, second);
    assert_eq!(backend, state);
}

#[test]
fn clearing_a_collapsed_surface() {
    let mut backend = attached(0, 0);
    assert_eq!(
        backend.clear(Some(viewport(0, 0))),
        Ok(vec![Command::ClearRect { x: 0, y: 0, width: 0, height: 0 }])
    );
}

#[test]
fn size_measures_and_sizes_the_buffer() {
    let mut backend = attached(160, 180);
    assert_eq!(
        backend.size(Some(viewport(175, 200))),
        Ok((
            Size { width: 10, height: 11 },
            vec![Command::ResizeBuffer { width: 175, height: 200 }]
        ))
    );
}

#[test]
fn size_repeats_itself() {
    let mut backend = attached(160, 180);
    let first = backend.size(Some(viewport(1000, 700)));
    let second = backend.size(Some(viewport(1000, 700)));
    assert_eq!(first, second);
    assert_eq!(first.unwrap().0, Size { width: 62, height: 38 });
}

#[test]
fn size_of_a_collapsed_surface() {
    let mut backend = attached(0, 0);
    assert_eq!(
        backend.size(Some(viewport(0, 0))),
        Ok((Size { width: 0, height: 0 }, vec![Command::ResizeBuffer { width: 0, height: 0 }]))
    );
    assert!(backend.is_attached());
}

#[test]
fn size_of_a_surface_beyond_sixteen_bits() {
    let mut backend = attached(160, 180);
    let (size, commands) = backend.size(Some(viewport(2_000_000, 180))).unwrap();
    assert_eq!(size, Size { width: 65535, height: 10 });
    assert_eq!(commands, vec![Command::ResizeBuffer { width: 2_000_000, height: 180 }]);
}

#[test]
fn window_size_gives_grid_and_device_pixels() {
    let mut backend = attached(160, 180);
    let reading = Viewport { width: 160, height: 180, device_width: 320, device_height: 360 };
    assert_eq!(
        backend.window_size(Some(reading)),
        Ok(WindowSize {
            columns_rows: Size { width: 10, height: 10 },
            pixels: Size { width: 320, height: 360 },
        })
    );
}

#[test]
fn window_size_agrees_with_size() {
    let mut backend = attached(160, 180);
    let reading = Viewport { width: 501, height: 333, device_width: 751, device_height: 499 };
    let grid = backend.size(Some(reading)).unwrap().0;
    let window = backend.window_size(Some(reading)).unwrap();
    assert_eq!(window.columns_rows, grid);
    assert_eq!(window.pixels, Size { width: 751, height: 499 });
}

#[test]
fn window_size_stops_at_sixteen_bits() {
    let mut backend = attached(160, 180);
    let reading =
        Viewport { width: 40000, height: 180, device_width: 80000, device_height: 360 };
    assert_eq!(
        backend.window_size(Some(reading)),
        Ok(WindowSize {
            columns_rows: Size { width: 2500, height: 10 },
            pixels: Size { width: 65535, height: 360 },
        })
    );
}

#[test]
fn appended_lines_paint_a_text_each_and_flush() {
    let mut backend = attached(160, 180);
    assert_eq!(backend.append_lines(0), Ok(vec![Command::FlushSink]));
    let line = Command::FillText { text: "lineeeeeeeeee".to_string(), x: 0, y: 0 };
    assert_eq!(
        backend.append_lines(3),
        Ok(vec![line.clone(), line.clone(), line, Command::FlushSink])
    );
}

#[test]
fn flush_reaches_the_sink_only() {
    let mut backend = attached(160, 180);
    assert_eq!(backend.flush(), Ok(vec![Command::FlushSink]));
    assert_eq!(backend.flush(), Ok(vec![Command::FlushSink]));
}

#[test]
fn a_refused_command_fails_the_frame_only() {
    let mut backend = attached(160, 180);
    assert_eq!(backend.settle(PaintOutcome::Painted), Ok(()));
    assert_eq!(backend.settle(PaintOutcome::Rejected), Err(BackendError::PaintRejected));
    assert!(backend.is_attached());
    assert!(backend.draw(Some(viewport(160, 180)), &Vec::new()).is_ok());
    assert_eq!(backend.settle(PaintOutcome::Painted), Ok(()));
}

#[test]
fn a_lost_surface_detaches_the_backend() {
    let mut backend = attached(160, 180);
    assert_eq!(backend.draw(None, &Vec::new()), Err(BackendError::SurfaceUnavailable));
    assert!(!backend.is_attached());

    let mut backend = attached(160, 180);
    assert_eq!(backend.size(None), Err(BackendError::SurfaceUnavailable));
    assert!(!backend.is_attached());

    let mut backend = attached(160, 180);
    assert_eq!(backend.window_size(None), Err(BackendError::SurfaceUnavailable));
    assert!(!backend.is_attached());

    for mode in MODES {
        let mut backend = attached(160, 180);
        assert_eq!(backend.clear_region(None, mode), Err(BackendError::SurfaceUnavailable));
        assert!(!backend.is_attached());
    }
}

#[test]
fn a_detached_backend_fails_every_operation() {
    let mut backend = detached();
    let reading = Some(viewport(160, 180));
    assert_eq!(backend.draw(reading, &Vec::new()), Err(BackendError::SurfaceUnavailable));
    assert_eq!(backend.hide_cursor(), Err(BackendError::SurfaceUnavailable));
    assert_eq!(backend.show_cursor(), Err(BackendError::SurfaceUnavailable));
    assert_eq!(backend.get_cursor(), Err(BackendError::SurfaceUnavailable));
    assert_eq!(backend.set_cursor(1, 1), Err(BackendError::SurfaceUnavailable));
    assert_eq!(backend.clear(reading), Err(BackendError::SurfaceUnavailable));
    assert_eq!(
        backend.clear_region(reading, ClearType::CurrentLine),
        Err(BackendError::SurfaceUnavailable)
    );
    assert_eq!(backend.append_lines(1), Err(BackendError::SurfaceUnavailable));
    assert_eq!(backend.size(reading), Err(BackendError::SurfaceUnavailable));
    assert_eq!(backend.window_size(reading), Err(BackendError::SurfaceUnavailable));
    assert_eq!(backend.flush(), Err(BackendError::SurfaceUnavailable));
    assert_eq!(backend.settle(PaintOutcome::Painted), Err(BackendError::SurfaceUnavailable));
    assert_eq!(backend.settle(PaintOutcome::Rejected), Err(BackendError::SurfaceUnavailable));
    assert!(!backend.is_attached());
}

#[test]
fn a_detached_backend_keeps_its_cursor_and_flag() {
    let mut backend = attached(160, 180);
    backend.set_cursor(2, 9).unwrap();
    backend.hide_cursor().unwrap();
    let before = backend.clone();
    assert!(backend.size(None).is_err());
    assert_ne!(backend, before);
    let lost = backend.clone();
    assert!(backend.set_cursor(5, 5).is_err());
    assert!(backend.show_cursor().is_err());
    assert_eq!(backend, lost);
    assert!(!backend.is_cursor_visible());
}

#[test]
fn errors_say_what_went_wrong() {
    assert_eq!(BackendError::SurfaceUnavailable.message(), "the drawing surface is unavailable");
    assert_eq!(BackendError::PaintRejected.message(), "the drawing surface rejected a command");
}
