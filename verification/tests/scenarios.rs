use canvas_backend::backend::CanvasBackend;
use canvas_backend::cell::{Cell, Modifier};
use canvas_backend::color::Color;
use canvas_backend::command::Command;
use canvas_backend::geometry::{Size, Viewport};

fn viewport(width: u32, height: u32) -> Viewport {
    Viewport { width, height, device_width: width, device_height: height }
}

#[test]
fn surface_of_160_by_180_holds_ten_by_ten() {
    let (mut backend, _) = CanvasBackend::new(Some(viewport(160, 180))).unwrap();
    let (size, _) = backend.size(Some(viewport(160, 180))).unwrap();
    assert_eq!(size, Size { width: 10, height: 10 });
}

#[test]
fn one_red_letter_at_the_origin() {
    let (mut backend, _) = CanvasBackend::new(Some(viewport(160, 180))).unwrap();
    let cell = Cell {
        symbol: "A".to_string(),
        fg: Color::Red,
        bg: Color::Reset,
        underline_color: Color::Reset,
        modifier: Modifier::empty(),
    };
    let commands = backend.draw(Some(viewport(160, 180)), &vec![(0, 0, cell)]).unwrap();
    assert_eq!(
        commands,
        vec![
            Command::SetFillStyle("#263238".to_string()),
            Command::FillRect { x: 0, y: 0, width: 160, height: 180 },
            Command::MoveTo { x: 0, y: 10 },
            Command::SetFont("16px monospace".to_string()),
            Command::SetFillStyle("Red".to_string()),
            Command::FillText { text: "A".to_string(), x: 0, y: 22 },
        ]
    );
    let fonts = commands.iter().filter(|c| matches!(c, Command::SetFont(_))).count();
    let texts = commands.iter().filter(|c| matches!(c, Command::FillText { .. })).count();
    let cell_fills = commands[2..].iter().filter(|c| matches!(c, Command::FillRect { .. })).count();
    let reds = commands.iter().filter(|c| **c == Command::SetFillStyle("Red".to_string())).count();
    assert_eq!((fonts, texts, cell_fills, reds), (1, 1, 0, 1));
}

#[test]
fn resize_shows_in_the_next_size_and_the_buffer() {
    let (mut backend, made) = CanvasBackend::new(Some(viewport(160, 180))).unwrap();
    assert_eq!(made, vec![Command::ResizeBuffer { width: 160, height: 180 }]);
    let (before, _) = backend.size(Some(viewport(160, 180))).unwrap();
    assert_eq!(before, Size { width: 10, height: 10 });

    let cleared = backend.clear(Some(viewport(320, 360))).unwrap();
    assert_eq!(cleared, vec![Command::ClearRect { x: 0, y: 0, width: 320, height: 360 }]);
    let (after, sized) = backend.size(Some(viewport(320, 360))).unwrap();
    assert_eq!(after, Size { width: 20, height: 20 });
    assert_eq!(sized, vec![Command::ResizeBuffer { width: 320, height: 360 }]);
    let frame = backend.draw(Some(viewport(320, 360)), &Vec::new()).unwrap();
    assert_eq!(frame[1], Command::FillRect { x: 0, y: 0, width: 320, height: 360 });
}
