use rustcraft::ui::button::Button;
use rustcraft::ui::font::{glyph, text_pixels, to_ascii_upper, GLYPH_CHARS, GLYPH_COUNT};
use rustcraft::ui::menu::{CreateWorldAction, CreateWorldMenu, MainMenu, MainMenuAction};

#[test]
fn button_contains_its_edges() {
    let b = Button::new("OK", 10, 20, 30, 40);
    assert_eq!(b.label, "OK");
    assert!(b.contains(10, 20));
    assert!(b.contains(40, 60));
    assert!(b.contains(25, 30));
    assert!(!b.contains(9, 30));
    assert!(!b.contains(41, 30));
    assert!(!b.contains(25, 61));
    assert!(!b.contains(25, 19));
}

#[test]
fn main_menu_layout() {
    let m = MainMenu::new(1280, 440);
    assert_eq!(m.buttons.len(), 3);
    let labels: Vec<&str> = m.buttons.iter().map(|b| b.label.as_str()).collect();
    assert_eq!(labels, vec!["CRIAR MUNDO", "CARREGAR MUNDO", "SAIR"]);
    assert_eq!((m.buttons[0].x, m.buttons[0].y, m.buttons[0].w, m.buttons[0].h), (1040, 440, 480, 96));
    assert_eq!(m.buttons[1].y, 568);
    assert_eq!(m.buttons[2].y, 696);
}

#[test]
fn main_menu_clicks() {
    let m = MainMenu::new(1280, 440);
    assert_eq!(m.click(1280, 450), Some(MainMenuAction::CreateWorld));
    assert_eq!(m.click(1280, 600), Some(MainMenuAction::LoadWorld));
    assert_eq!(m.click(1040, 696), Some(MainMenuAction::Exit));
    assert_eq!(m.click(1280, 540), None);
    assert_eq!(m.click(0, 0), None);
}

#[test]
fn create_menu_layout_and_clicks() {
    let m = CreateWorldMenu::new(1280, 260);
    let labels: Vec<&str> = m.buttons.iter().map(|b| b.label.as_str()).collect();
    assert_eq!(labels, vec!["MODO", "GERACAO", "CRIAR", "VOLTAR"]);
    assert_eq!((m.buttons[3].x, m.buttons[3].y, m.buttons[3].w, m.buttons[3].h), (1290, 652, 270, 96));
    assert_eq!(m.click(1280, 450), Some(CreateWorldAction::ToggleMode));
    assert_eq!(m.click(1280, 540), Some(CreateWorldAction::ToggleGenerator));
    assert_eq!(m.click(1100, 700), Some(CreateWorldAction::Create));
    assert_eq!(m.click(1400, 700), Some(CreateWorldAction::Back));
    assert_eq!(m.click(1280, 700), None);
}

#[test]
fn glyph_table() {
    assert_eq!(GLYPH_CHARS.len(), GLYPH_COUNT);
    assert_eq!(
        glyph('A'),
        Some([0b01110, 0b10001, 0b10001, 0b11111, 0b10001, 0b10001, 0b10001])
    );
    assert_eq!(
        glyph('9'),
        Some([0b01110, 0b10001, 0b10001, 0b01111, 0b00001, 0b00001, 0b01110])
    );
    assert_eq!(
        glyph('_'),
        Some([0, 0, 0, 0, 0, 0, 0b11111])
    );
    assert_eq!(glyph('K'), None);
    assert_eq!(glyph('a'), None);
    assert_eq!(glyph(' '), None);
}

#[test]
fn upper_case() {
    assert_eq!(to_ascii_upper('a'), 'A');
    assert_eq!(to_ascii_upper('z'), 'Z');
    assert_eq!(to_ascii_upper('Q'), 'Q');
    assert_eq!(to_ascii_upper('1'), '1');
    assert_eq!(to_ascii_upper('é'), 'é');
}

#[test]
fn text_pixels_of_i() {
    let cells = text_pixels("I");
    let mut expected: Vec<(u64, u64)> = Vec::new();
    for col in 0..5 {
        expected.push((col, 0));
    }
    for row in 1..6 {
        expected.push((2, row));
    }
    for col in 0..5 {
        expected.push((col, 6));
    }
    assert_eq!(cells, expected);
}

#[test]
fn text_pixels_lower_case_and_spacing() {
    assert_eq!(text_pixels("i"), text_pixels("I"));
    assert!(text_pixels(" ").is_empty());
    assert!(text_pixels("").is_empty());
    let shifted: Vec<(u64, u64)> = text_pixels("I").into_iter().map(|(x, y)| (x + 12, y)).collect();
    assert_eq!(text_pixels("K I"), shifted);
    assert_eq!(text_pixels("-"), vec![(0, 3), (1, 3), (2, 3), (3, 3), (4, 3)]);
}

#[test]
fn text_cells_stay_in_their_boxes() {
    let text = "MINECRAFT IN RUST 0123456789:-_";
    let n = text.chars().count() as u64;
    for (x, y) in text_pixels(text) {
        assert!(y < 7);
        assert!(x % 6 < 5);
        assert!(x < 6 * n);
    }
}

#[test]
fn each_character_takes_one_box() {
    let text = "aZ9 k:";
    let mut expected: Vec<(u64, u64)> = Vec::new();
    for (k, c) in text.chars().enumerate() {
        for (x, y) in text_pixels(&c.to_string()) {
            expected.push((x + 6 * k as u64, y));
        }
    }
    assert_eq!(text_pixels(text), expected);
    assert_eq!(text_pixels("z"), text_pixels("Z"));
}
