use silicium::drivers::fb::{color_mask, Color, Framebuffer};
use silicium::shell::{first_word_of, is_whitespace, month_name, parse_line, Command, MemInfo, ShellLine};

fn chars(s: &str) -> Vec<char> {
    s.chars().collect()
}

#[test]
fn month_names() {
    assert_eq!(month_name(1), "January");
    assert_eq!(month_name(12), "December");
    assert_eq!(month_name(0), "Unknown");
    assert_eq!(month_name(13), "Unknown");
}

#[test]
fn whitespace_matches_std() {
    for c in ['\t', '\n', ' ', '\u{85}', '\u{a0}', '\u{2003}', '\u{3000}', 'a', '0', '\u{200b}'] {
        assert_eq!(is_whitespace(c), c.is_whitespace());
    }
    for code in 0..0x3100u32 {
        if let Some(c) = char::from_u32(code) {
            assert_eq!(is_whitespace(c), c.is_whitespace());
        }
    }
}

#[test]
fn first_words() {
    assert_eq!(first_word_of(&chars("  date now")), chars("date"));
    assert_eq!(first_word_of(&chars("clear")), chars("clear"));
    assert_eq!(first_word_of(&chars("   ")), chars(""));
}

#[test]
fn shell_commands() {
    assert_eq!(parse_line(&chars("")), ShellLine::Empty);
    assert_eq!(parse_line(&chars("  ")), ShellLine::Blank);
    assert_eq!(parse_line(&chars("reboot")), ShellLine::Run(Command::Reboot));
    assert_eq!(parse_line(&chars("poweroff now")), ShellLine::Run(Command::Poweroff));
    assert_eq!(parse_line(&chars(" clear")), ShellLine::Run(Command::Clear));
    assert_eq!(parse_line(&chars("meminfo")), ShellLine::Run(Command::Meminfo));
    assert_eq!(parse_line(&chars("date")), ShellLine::Run(Command::Date));
    assert_eq!(parse_line(&chars("dates")), ShellLine::Run(Command::Unknown));
    assert_eq!(parse_line(&chars("Date")), ShellLine::Run(Command::Unknown));
}

#[test]
fn memory_usage() {
    let m = MemInfo::new(1000, 250, 100);
    assert_eq!(m.total, 4000);
    assert_eq!(m.used, 3000);
    assert_eq!(m.used_percent, 75);
    assert_eq!(m.kernel, 400);
    assert_eq!(m.kernel_percent, 10);
    let m = MemInfo::new(3, 2, 0);
    assert_eq!(m.used_percent, 33);
}

#[test]
fn framebuffer_pixels() {
    let mut pixels = vec![0u32; 6];
    let red = color_mask(8, 16);
    let green = color_mask(8, 8);
    let blue = color_mask(8, 0);
    assert_eq!((red, green, blue), (0xFF_0000, 0xFF00, 0xFF));
    let mut fb = Framebuffer {
        width: 3,
        height: 2,
        bpp: 4,
        red_mask: red,
        green_mask: green,
        blue_mask: blue,
        buffer: &mut pixels,
    };
    assert!(fb.is_valid());
    assert_eq!(fb.make_pixel(Color { r: 0x12, g: 0x34, b: 0x56 }), 0x12_3456);
    fb.draw_pixel(2, 1, Color::white());
    fb.draw_pixel(3, 0, Color::white());
    fb.draw_pixel(0, 2, Color::white());
    assert_eq!(fb.buffer[5], 0xFF_FFFF);
    assert_eq!(fb.buffer[3], 0);
    fb.clear(Color { r: 1, g: 2, b: 3 });
    assert!(fb.buffer.iter().all(|p| *p == 0x01_0203));
    fb.draw_pixel_unsafe(0, 0, Color::black());
    assert_eq!(fb.buffer[0], 0);
}

#[test]
fn placeholder_framebuffer_is_invalid() {
    let fb = Framebuffer::none();
    assert!(!fb.is_valid());
    assert_eq!(fb.width, 0);
    let d = Framebuffer::default();
    assert!(!d.is_valid());
}

#[test]
fn usage_never_exceeds_the_total() {
    let m = MemInfo::new(5, 0, 5);
    assert_eq!(m.used_percent, 100);
    assert_eq!(m.kernel_percent, 100);
    let m = MemInfo::new(7, 7, 0);
    assert_eq!(m.used_percent, 0);
}

#[test]
fn leading_white_space_is_ignored() {
    for line in ["date", "reboot now", "x", "meminfo"] {
        let padded = format!("\t{line}");
        assert_eq!(parse_line(&chars(&padded)), parse_line(&chars(line)));
    }
}

#[test]
fn black_is_the_zero_pixel() {
    let mut pixels = vec![7u32; 1];
    let fb = Framebuffer {
        width: 1,
        height: 1,
        bpp: 4,
        red_mask: 0xFF00_0000,
        green_mask: 0xFF,
        blue_mask: 0xFF00,
        buffer: &mut pixels,
    };
    assert_eq!(fb.make_pixel(Color::black()), 0);
    assert_eq!(fb.make_pixel(Color { r: 1, g: 2, b: 3 }), 0x0100_0302);
}
