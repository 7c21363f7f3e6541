use rustcraft::engine::event::{Event, MouseButton, KEY_BACKSPACE, KEY_ESCAPE, KEY_F5, KEY_W};
use rustcraft::engine::input::{InputState, PollStep};
use rustcraft::game::modes::GameMode;
use rustcraft::game::state::{fnv_hash, GameAction, GameState, Screen, WorldRuntime, DEFAULT_WORLD_NAME};
use rustcraft::world::generator::WorldGen;
use rustcraft::world::save::WorldMeta;

fn click(x: i32, y: i32) -> Event {
    Event::MouseButtonDown { mouse_btn: MouseButton::Left, x, y }
}

fn key(k: i32) -> Event {
    Event::KeyDown { keycode: Some(k), repeat: false }
}

fn text(t: &str) -> Event {
    Event::TextInput { text: t.to_string() }
}

#[test]
fn mode_toggle_and_labels() {
    let mut m = GameMode::Survival;
    assert_eq!(m.as_str(), "SURVIVAL");
    m.toggle();
    assert_eq!(m, GameMode::Creative);
    assert_eq!(m.as_str(), "CRIATIVO");
    m.toggle();
    assert_eq!(m, GameMode::Survival);
}

#[test]
fn fnv_vectors() {
    assert_eq!(fnv_hash(b""), 0x811c9dc5);
    assert_eq!(fnv_hash(b"a"), 0xe40c292c);
    assert_eq!(fnv_hash(b"foobar"), 0xbf9cf968);
    assert_eq!(fnv_hash(b"novo_mundo"), 2951671567);
}

#[test]
fn input_records_keys() {
    let mut input = InputState::default();
    assert_eq!(input.record_event(&key(KEY_W)), PollStep::Continue);
    assert!(input.key_down(KEY_W));
    assert!(input.key_pressed(KEY_W));
    assert!(!input.quit_requested);
    input.end_frame();
    assert!(input.key_down(KEY_W));
    assert!(!input.key_pressed(KEY_W));
    input.record_event(&Event::KeyDown { keycode: Some(KEY_F5), repeat: true });
    assert!(!input.key_pressed(KEY_F5));
    input.record_event(&Event::KeyUp { keycode: Some(KEY_W) });
    assert!(!input.key_down(KEY_W));
    input.record_event(&key(KEY_ESCAPE));
    assert!(input.quit_requested);
    input.end_frame();
    assert!(input.quit_requested);
}

#[test]
fn input_records_mouse_and_window() {
    let mut input = InputState::default();
    input.record_event(&Event::MouseMotion { xrel: 3, yrel: -4 });
    input.record_event(&Event::MouseMotion { xrel: 5, yrel: 1 });
    assert_eq!(input.mouse_delta, (8, -3));
    input.record_event(&click(1, 1));
    assert!(input.mouse_left);
    input.record_event(&Event::MouseButtonUp { mouse_btn: MouseButton::Right });
    assert!(input.mouse_left);
    input.record_event(&Event::MouseButtonUp { mouse_btn: MouseButton::Left });
    assert!(!input.mouse_left);
    input.end_frame();
    assert_eq!(input.mouse_delta, (0, 0));
    assert_eq!(input.record_event(&Event::Quit), PollStep::Quit);
    assert_eq!(input.record_event(&Event::SizeChanged { w: 800, h: 600 }), PollStep::Resize(800, 600));
    assert_eq!(input.record_event(&Event::Other), PollStep::Continue);
}

#[test]
fn new_game_state() {
    let g = GameState::new();
    assert_eq!(g.screen, Screen::MainMenu);
    assert_eq!(g.world_name_input, DEFAULT_WORLD_NAME);
    assert_eq!(g.mode, GameMode::Survival);
    assert_eq!(g.world_gen, WorldGen::Realistic);
    assert!(g.running_world.is_none());
    assert_eq!(g.main_menu.buttons[0].x, 1040);
}

#[test]
fn create_world_flow() {
    let input = InputState::default();
    let mut g = GameState::new();
    // "CRIAR MUNDO" sits at (520..760, 220..268) pixels
    assert!(matches!(g.handle_event(&click(640, 240), 1280, 720, &input), GameAction::Nothing));
    assert_eq!(g.screen, Screen::CreateWorld);
    // typing and erasing
    g.handle_event(&text("x"), 1280, 720, &input);
    assert_eq!(g.world_name_input, "novo_mundox");
    g.handle_event(&key(KEY_BACKSPACE), 1280, 720, &input);
    assert_eq!(g.world_name_input, "novo_mundo");
    // toggles: "MODO" at y 216..258, "GERACAO" at y 266..308
    g.handle_event(&click(640, 230), 1280, 720, &input);
    assert_eq!(g.mode, GameMode::Creative);
    g.handle_event(&click(640, 280), 1280, 720, &input);
    assert_eq!(g.world_gen, WorldGen::Flat);
    // create: "CRIAR" at x 500..635, y 326..374
    let action = g.handle_event(&click(560, 350), 1280, 720, &input);
    let seed = fnv_hash(b"novo_mundo");
    match action {
        GameAction::SaveMeta(meta) => {
            assert_eq!(meta.name, "novo_mundo");
            assert_eq!(meta.seed, seed);
            assert_eq!(meta.mode, "CRIATIVO");
            assert_eq!(meta.generator, WorldGen::Flat);
        }
        _ => panic!("expected the world description to save"),
    }
    assert_eq!(g.screen, Screen::InGame);
    let w = g.running_world.as_ref().unwrap();
    assert_eq!(w.name(), "novo_mundo");
    assert_eq!(w.generator().seed, seed);
    assert_eq!(w.mode(), GameMode::Creative);
    assert_eq!(w.gen_mode(), WorldGen::Flat);
    assert!(w.chunks().is_empty());
}

#[test]
fn typing_only_on_creation_screen() {
    let input = InputState::default();
    let mut g = GameState::new();
    g.handle_event(&text("abc"), 1280, 720, &input);
    g.handle_event(&key(KEY_BACKSPACE), 1280, 720, &input);
    assert_eq!(g.world_name_input, "novo_mundo");
}

#[test]
fn backspace_on_empty_name() {
    let input = InputState::default();
    let mut g = GameState::new();
    g.screen = Screen::CreateWorld;
    for _ in 0..12 {
        g.handle_event(&key(KEY_BACKSPACE), 1280, 720, &input);
    }
    assert_eq!(g.world_name_input, "");
    g.handle_event(&text("mundo ç"), 1280, 720, &input);
    assert_eq!(g.world_name_input, "mundo ç");
    g.handle_event(&key(KEY_BACKSPACE), 1280, 720, &input);
    assert_eq!(g.world_name_input, "mundo ");
}

#[test]
fn back_button_and_menu_relayout() {
    let input = InputState::default();
    let mut g = GameState::new();
    g.handle_event(&click(640, 240), 801, 600, &input);
    assert_eq!(g.screen, Screen::CreateWorld);
    // menus now centred on 400.5 pixels
    assert_eq!(g.main_menu.buttons[0].x, 801 - 240);
    assert_eq!(g.create_menu.buttons[3].x, 811);
    // "VOLTAR" at x 405.5..540.5, y 326..374
    g.handle_event(&click(406, 330), 801, 600, &input);
    assert_eq!(g.screen, Screen::MainMenu);
}

#[test]
fn load_and_exit_actions() {
    let input = InputState::default();
    let mut g = GameState::new();
    // "CARREGAR MUNDO" at y 284..332
    match g.handle_event(&click(640, 300), 1000, 720, &input) {
        GameAction::LoadWorld { name } => assert_eq!(name, "novo_mundo"),
        _ => panic!("expected a load request"),
    }
    assert_eq!(g.screen, Screen::MainMenu);
    // the menus are laid out again only when the event is finished
    assert_eq!(g.main_menu.buttons[0].x, 1040);
    assert!(!g.finish_load(None, 1000, &input));
    assert!(g.running_world.is_none());
    assert_eq!(g.main_menu.buttons[0].x, 760);
    let meta = WorldMeta { name: "velho".to_string(), seed: 9, mode: "SURVIVAL".to_string(), generator: WorldGen::Flat };
    assert!(g.finish_load(Some(meta), 1000, &input));
    assert_eq!(g.screen, Screen::InGame);
    let w = g.running_world.as_ref().unwrap();
    assert_eq!(w.name(), "velho");
    assert_eq!(w.generator().seed, 9);
    assert_eq!(w.mode(), GameMode::Survival);
    // "SAIR" at x 520..760, y 348..396 of a 1280 pixel window
    let mut h = GameState::new();
    assert!(matches!(h.handle_event(&click(640, 360), 1280, 720, &input), GameAction::Exit));
}

#[test]
fn escape_leaves_the_game() {
    let mut input = InputState::default();
    let mut g = GameState::new();
    g.handle_event(&click(640, 240), 1280, 720, &input);
    g.handle_event(&click(560, 350), 1280, 720, &input);
    assert_eq!(g.screen, Screen::InGame);
    assert!(!g.should_save(&input));
    input.record_event(&key(KEY_F5));
    assert!(g.should_save(&input));
    input.record_event(&key(KEY_ESCAPE));
    g.handle_event(&Event::Other, 1280, 720, &input);
    assert_eq!(g.screen, Screen::MainMenu);
    assert!(!g.should_save(&input));
    assert!(g.running_world.is_some());
}

#[test]
fn chunks_around_a_player() {
    let mut w = WorldRuntime::new("w".to_string(), 1, GameMode::Survival, WorldGen::Flat);
    let missing = w.missing_chunks_around(0, 0, 2);
    assert_eq!(missing.len(), 25);
    assert_eq!(missing[0], (-2, -2));
    assert_eq!(missing[1], (-1, -2));
    assert_eq!(missing[24], (2, 2));
    w.ensure_chunk(0, 0, &Vec::new());
    w.ensure_chunk(-1, 2, &Vec::new());
    let missing = w.missing_chunks_around(5, 15, 2);
    assert_eq!(missing.len(), 23);
    assert!(!missing.contains(&(0, 0)));
    assert!(!missing.contains(&(-1, 2)));
    assert_eq!(w.chunks().len(), 2);
    // a block at x = -1 lies in chunk -1
    let missing = w.missing_chunks_around(-1, 0, 0);
    assert_eq!(missing, vec![(-1, 0)]);
    assert!(w.missing_chunks_around(-1, 40, 0).is_empty());
    assert_eq!(w.missing_chunks_around(0, 0, -1), vec![]);
}

#[test]
fn ground_height_of_generated_chunks() {
    let mut w = WorldRuntime::new("w".to_string(), 1, GameMode::Survival, WorldGen::Flat);
    assert_eq!(w.sample_ground_height(3, 3), 0);
    w.ensure_chunk(0, 0, &Vec::new());
    assert_eq!(w.sample_ground_height(3, 3), 20);
    assert_eq!(w.sample_ground_height(16, 3), 0);
    let mut r = WorldRuntime::new("r".to_string(), 1, GameMode::Survival, WorldGen::Realistic);
    let mut relief = vec![25; 256];
    relief[15 * 16 + 15] = 80;
    relief[0] = -5;
    r.ensure_chunk(-1, -1, &relief);
    assert_eq!(r.sample_ground_height(-5, -5), 25);
    assert_eq!(r.sample_ground_height(-1, -1), 63);
    assert_eq!(r.sample_ground_height(-16, -16), 0);
    // a stored chunk is not generated again
    r.ensure_chunk(-1, -1, &vec![10; 256]);
    assert_eq!(r.sample_ground_height(-5, -5), 25);
}
