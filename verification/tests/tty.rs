use silicium::drivers::kbd::{accepts_scancode, char_of_event, irq, key_character, KeyDecoder, KeyboardScancodeStream, VECTOR};
use silicium::drivers::fb::{check_format, FormatError};
use silicium::drivers::renderer::{grid_dimensions, TerminalRenderer};
use silicium::drivers::tty::{
    readline_step, AnsiColor16, CharEffects, CharStyle, Character, Position, ReadStep,
    TerminalGrid,
};

fn style() -> CharStyle {
    CharStyle {
        foreground: AnsiColor16::White,
        background: AnsiColor16::Black,
        effects: CharEffects::empty(),
    }
}

#[test]
fn new_grid_is_blank() {
    let g = TerminalGrid::new(4, 3);
    assert_eq!(g.width(), 4);
    assert_eq!(g.height(), 3);
    assert_eq!(g.cursor(), Position { x: 0, y: 0 });
    assert_eq!(g.characters().len(), 12);
    assert!(g.characters().iter().all(|c| *c == Character::space(style())));
    assert_eq!(CharEffects::empty().bits(), 0);
}

#[test]
fn writing_moves_the_cursor_and_wraps() {
    let mut g = TerminalGrid::new(3, 2);
    let e = g.write('a');
    assert_eq!(e.drawn, Some((Position { x: 0, y: 0 }, Character { value: 'a', style: style() })));
    assert!(!e.scrolled);
    g.write('b');
    g.write('c');
    assert_eq!(g.cursor(), Position { x: 0, y: 1 });
    assert_eq!(g.characters()[2].value, 'c');
    g.write('\r');
    assert_eq!(g.cursor(), Position { x: 0, y: 1 });
    let e = g.write('\n');
    assert_eq!(e.drawn, None);
    assert!(e.scrolled);
    assert_eq!(g.cursor(), Position { x: 0, y: 1 });
}

#[test]
fn scrolling_moves_lines_up() {
    let mut g = TerminalGrid::new(2, 2);
    g.write('a');
    g.write('b');
    g.write('c');
    g.write('d');
    let values: Vec<char> = g.characters().iter().map(|c| c.value).collect();
    assert_eq!(values, vec!['c', 'd', ' ', ' ']);
    assert_eq!(g.cursor(), Position { x: 0, y: 1 });
}

#[test]
fn erasing_goes_back_and_blanks() {
    let mut g = TerminalGrid::new(3, 2);
    g.write('a');
    g.write('b');
    let (p, c) = g.erase_char().unwrap();
    assert_eq!(p, Position { x: 1, y: 0 });
    assert_eq!(c, Character::space(style()));
    assert_eq!(g.cursor(), Position { x: 1, y: 0 });
    assert_eq!(g.characters()[1].value, ' ');
    assert_eq!(g.characters()[0].value, 'a');
}

#[test]
fn erase_after_wrap_returns_to_the_previous_line() {
    let mut g = TerminalGrid::new(2, 3);
    g.write('a');
    g.write('b');
    assert_eq!(g.cursor(), Position { x: 0, y: 1 });
    g.erase_char();
    assert_eq!(g.cursor(), Position { x: 1, y: 0 });
    assert_eq!(g.characters()[1].value, ' ');
}

#[test]
fn erase_at_the_origin_does_nothing() {
    let mut g = TerminalGrid::new(2, 2);
    g.write('a');
    g.write('\r');
    assert_eq!(g.erase_char(), None);
    assert_eq!(g.cursor(), Position { x: 0, y: 0 });
    assert_eq!(g.characters()[0].value, 'a');
}

#[test]
fn positions_of_cells() {
    let g = TerminalGrid::new(10, 5);
    assert_eq!(g.position_of(23), Position { x: 3, y: 2 });
}

#[test]
fn readline_steps() {
    let mut line = Vec::new();
    assert_eq!(readline_step(&mut line, Some(Ok('\u{8}'))), ReadStep::Ignore);
    assert_eq!(readline_step(&mut line, Some(Ok('l'))), ReadStep::Echo('l'));
    assert_eq!(readline_step(&mut line, Some(Ok('s'))), ReadStep::Echo('s'));
    assert_eq!(readline_step(&mut line, Some(Ok('\u{8}'))), ReadStep::Erase);
    assert_eq!(line, vec!['l']);
    assert_eq!(readline_step(&mut line, Some(Ok('\n'))), ReadStep::EchoEnd);
    assert_eq!(line, vec!['l']);
    assert_eq!(readline_step(&mut line, Some(Err(()))), ReadStep::End);
    assert_eq!(readline_step(&mut line, None), ReadStep::EndOfInput);
    assert_eq!(line, vec!['l']);
}

#[test]
fn keyboard_queue_and_keys() {
    assert!(accepts_scancode(0));
    assert!(accepts_scancode(64));
    assert!(!accepts_scancode(65));
    assert_eq!(irq().0, 1);
    assert_eq!(VECTOR, 33);
    assert_eq!(key_character(true, Some('a')), Some('a'));
    assert_eq!(key_character(false, Some('a')), None);
    assert_eq!(key_character(true, None), None);
    let _ = KeyboardScancodeStream::new();
}

#[test]
fn renderer_geometry() {
    let r = TerminalRenderer::new((), 1025, 770);
    assert_eq!(r.char_origin(Position { x: 0, y: 0 }), (2, 25));
    assert_eq!(r.char_origin(Position { x: 3, y: 2 }), (32, 65));
    assert_eq!(r.cursor_line(Position { x: 3, y: 2 }), ((32, 65), (41, 65)));
}

#[test]
fn cell_positions_and_indices_agree() {
    let g = TerminalGrid::new(7, 3);
    for i in 0..21usize {
        let p = g.position_of(i);
        assert!(p.x < 7 && p.y < 3);
        assert_eq!(p.y * 7 + p.x, i);
    }
}

#[test]
fn grid_borders_center_the_text() {
    let r = TerminalRenderer::new((), 1029, 779);
    assert_eq!((r.x_border(), r.y_border()), (4, 9));
    assert!(r.x_border() + (1029 / 10) * 10 <= 1029);
    assert!(r.y_border() + (779 / 20) * 20 <= 779);
}

#[test]
fn grid_without_cells() {
    let g = TerminalGrid::new(0, 5);
    assert_eq!(g.characters().len(), 0);
    assert_eq!(g.cursor(), Position { x: 0, y: 0 });
}

#[test]
fn grid_of_a_screen() {
    assert_eq!(grid_dimensions(1024, 768), (102, 38));
    assert_eq!(grid_dimensions(9, 19), (0, 0));
}

#[test]
fn framebuffer_formats() {
    assert_eq!(check_format(32, 8, 8, 8), Ok(()));
    assert_eq!(check_format(24, 8, 8, 8), Err(FormatError::BitsPerPixel));
    assert_eq!(check_format(32, 8, 6, 8), Err(FormatError::GreenMask));
    assert_eq!(check_format(32, 5, 8, 6), Err(FormatError::BlueMask));
    assert_eq!(check_format(32, 5, 8, 8), Err(FormatError::RedMask));
}

#[test]
fn events_to_characters() {
    assert_eq!(char_of_event(Err(())), Err(()));
    assert_eq!(char_of_event(Ok(None)), Ok(None));
    assert_eq!(char_of_event(Ok(Some((true, Some('x'))))), Ok(Some('x')));
    assert_eq!(char_of_event(Ok(Some((false, Some('x'))))), Ok(None));
    assert_eq!(char_of_event(Ok(Some((true, None)))), Ok(None));
}

#[test]
fn azerty_decoding() {
    let mut d = KeyDecoder::new();
    assert_eq!(d.feed(0x10), Ok(Some('a')));
    assert_eq!(d.feed(0x90), Ok(None));
    assert_eq!(d.feed(0x2A), Ok(None));
    assert_eq!(d.feed(0x10), Ok(Some('A')));
    assert_eq!(d.feed(0x90), Ok(None));
    assert_eq!(d.feed(0xAA), Ok(None));
    assert_eq!(d.feed(0x10), Ok(Some('a')));
    assert_eq!(d.feed(0x59), Err(()));
}
