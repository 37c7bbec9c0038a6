use wet_tweet_gpu::gpu::{color_to_ansi, color_to_ansi_char, ColorName, Gpu, GpuTransistor, Text, WebShowGPU};

fn glyph(code: &str, ch: char) -> String {
    format!("\x1b[{}m{}\x1b[0m", code, ch)
}

#[test]
fn color_names_map_to_rgb() {
    let red: (u8, u8, u8) = ColorName::Red.into();
    let green: (u8, u8, u8) = ColorName::Green.into();
    let blue: (u8, u8, u8) = ColorName::Blue.into();
    let black: (u8, u8, u8) = ColorName::Black.into();
    let white: (u8, u8, u8) = ColorName::White.into();
    assert_eq!(red, (255, 0, 0));
    assert_eq!(green, (0, 255, 0));
    assert_eq!(blue, (0, 0, 255));
    assert_eq!(black, (255, 255, 255));
    assert_eq!(white, (0, 0, 0));
}

#[test]
fn ansi_codes_of_each_colour() {
    assert_eq!(color_to_ansi((0, 0, 0)), glyph("97", '█'));
    assert_eq!(color_to_ansi((255, 255, 255)), glyph("30", '█'));
    assert_eq!(color_to_ansi((255, 0, 0)), glyph("31", '█'));
    assert_eq!(color_to_ansi((0, 255, 0)), glyph("32", '█'));
    assert_eq!(color_to_ansi((0, 0, 255)), glyph("34", '█'));
    assert_eq!(color_to_ansi((1, 2, 3)), glyph("37", '█'));
    assert_eq!(color_to_ansi_char((255, 0, 0), 'x'), glyph("31", 'x'));
    assert_eq!(color_to_ansi_char((7, 7, 7), 'y'), glyph("37", 'y'));
    assert_eq!(color_to_ansi_char((0, 0, 0), 'ş'), glyph("97", 'ş'));
}

#[test]
fn transistor_holds_its_colour() {
    let mut t = GpuTransistor::new();
    assert_eq!(t.get(), (0, 0, 0));
    t.set((1, 2, 3));
    assert_eq!(t.get(), (1, 2, 3));
}

#[test]
fn show_breaks_rows() {
    let mut g = Gpu::new(3);
    assert_eq!(g.len(), 3);
    assert!(g.set_x_transistor(1, (255, 0, 0)));
    let out = g.show(2);
    let expected = format!("{}{}\n{}", glyph("97", '█'), glyph("31", '█'), glyph("97", '█'));
    assert_eq!(out, expected);
}

#[test]
fn set_x_transistor_out_of_range_changes_nothing() {
    let mut g = Gpu::new(2);
    assert!(!g.set_x_transistor(2, (255, 0, 0)));
    assert_eq!(g.show(5), format!("{}{}", glyph("97", '█'), glyph("97", '█')));
}

#[test]
fn set_range_skips_past_the_end() {
    let mut g = Gpu::new(4);
    g.set_range(2, 10, (0, 0, 255));
    let out = g.show(4);
    let expected = format!(
        "{}{}{}{}\n",
        glyph("97", '█'),
        glyph("97", '█'),
        glyph("34", '█'),
        glyph("34", '█')
    );
    assert_eq!(out, expected);
    // a reversed range paints nothing
    let mut h = Gpu::new(2);
    h.set_range(1, 0, (0, 0, 255));
    assert_eq!(h.show(2), format!("{}{}\n", glyph("97", '█'), glyph("97", '█')));
}

#[test]
fn full_range_equals_set_all() {
    let mut a = Gpu::new(5);
    let mut b = Gpu::new(5);
    a.set_range(0, 5, (0, 255, 0));
    b.set_all((0, 255, 0));
    assert_eq!(a.show(2), b.show(2));
}

#[test]
fn set_tsis_len_replaces_cells() {
    let mut g = Gpu::new(1);
    g.set_all((255, 0, 0));
    g.set_tsis_len(2);
    assert_eq!(g.len(), 2);
    assert_eq!(g.show(2), format!("{}{}\n", glyph("97", '█'), glyph("97", '█')));
}

#[test]
fn web_show_lays_text_over_cells() {
    let mut g = Gpu::new(4);
    g.set_all((255, 0, 0));
    let out = g.web_show(2, vec![Text::new("ab", 1)]);
    let expected = format!(
        "{}{}\n{}{}\n",
        glyph("31", '█'),
        glyph("31", 'a'),
        glyph("31", 'b'),
        glyph("31", '█')
    );
    assert_eq!(out, expected);
}

#[test]
fn web_show_first_text_wins() {
    let g = Gpu::new(2);
    let out = g.web_show(10, vec![Text::new("x", 0), Text::new("yz", 0)]);
    assert_eq!(out, format!("{}{}", glyph("97", 'x'), glyph("97", 'z')));
}

#[test]
fn web_show_counts_characters_not_bytes() {
    let g = Gpu::new(3);
    let out = g.web_show(3, vec![Text::new("üa", 0)]);
    assert_eq!(out, format!("{}{}{}\n", glyph("97", 'ü'), glyph("97", 'a'), glyph("97", '█')));
}

#[test]
fn web_show_without_texts_is_show() {
    let mut g = Gpu::new(7);
    g.set_range(2, 5, (0, 255, 0));
    assert_eq!(g.web_show(3, vec![]), g.show(3));
}

#[test]
fn empty_screen_draws_nothing() {
    let g = Gpu::new(0);
    assert_eq!(g.show(0), "");
    assert_eq!(g.web_show(0, vec![Text::new("a", 0)]), "");
}
