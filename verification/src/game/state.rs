use vstd::prelude::*;
use std::collections::HashMap;
use crate::game::modes::GameMode;
use crate::world::chunk::{Chunk, CHUNK_D, CHUNK_H, CHUNK_W, surface, surface_below};
use crate::world::generator::{
    Generator, WorldGen, column_height, is_generated, lemma_generated_surface,
};
use crate::world::save::WorldMeta;
use crate::engine::event::{Event, MouseButton, KEY_BACKSPACE, KEY_ESCAPE, KEY_F5};
use crate::engine::input::InputState;
use crate::ui::button::first_covering;
use crate::ui::menu::{
    CreateWorldAction, CreateWorldMenu, MainMenu, MainMenuAction, create_action, create_menu_at,
    main_action, main_menu_at,
};
use vstd::utf8::encode_utf8;

verus! {

broadcast use {vstd::std_specs::hash::group_hash_axioms, vstd::string::group_string_axioms};

/// FNV-1a over `bytes`: start from the offset basis, then for each byte
/// xor it in and multiply by the FNV prime, modulo 2^32.
pub open spec fn fnv1a(bytes: Seq<u8>) -> u32
    decreases bytes.len(),
{
    if bytes.len() == 0 {
        2166136261u32
    } else {
        (fnv1a(bytes.drop_last()) ^ (bytes.last() as u32)).wrapping_mul(16777619u32)
    }
}

/// The 32-bit FNV-1a hash of `bytes`; a new world's seed is the hash of its
/// name.
pub fn fnv_hash(bytes: &[u8]) -> (h: u32)
    ensures
        h == fnv1a(bytes@),
{
    let mut hash: u32 = 2166136261u32;
    let mut i: usize = 0;
    while i < bytes.len()
        invariant
            i <= bytes@.len(),
            hash == fnv1a(bytes@.subrange(0, i as int)),
        decreases bytes@.len() - i,
    {
        assert(bytes@.subrange(0, i + 1).drop_last() =~= bytes@.subrange(0, i as int));
        hash ^= bytes[i] as u32;
        hash = hash.wrapping_mul(16777619u32);
        i = i + 1;
    }
    assert(bytes@.subrange(0, bytes@.len() as int) =~= bytes@);
    hash
}

/// The key under which the chunk at chunk coordinates (cx, cz) is stored:
/// cx in the high 32 bits, cz shifted to be non-negative in the low ones.
pub open spec fn chunk_key(cx: int, cz: int) -> int {
    cx * 0x1_0000_0000 + (cz + 0x8000_0000)
}

/// The chunk coordinate of block coordinate `b`: which 16-block span holds it.
pub open spec fn chunk_coord(b: int) -> int {
    b / 16
}

/// Different chunk coordinates have different keys.
pub proof fn lemma_chunk_key_injective(cx1: i32, cz1: i32, cx2: i32, cz2: i32)
    requires
        chunk_key(cx1 as int, cz1 as int) == chunk_key(cx2 as int, cz2 as int),
    ensures
        cx1 == cx2,
        cz1 == cz2,
{
    assert(cx1 == cx2) by (nonlinear_arith)
        requires
            cx1 * 0x1_0000_0000 + (cz1 + 0x8000_0000) == cx2 * 0x1_0000_0000 + (cz2 + 0x8000_0000),
            -0x8000_0000 <= cz1 < 0x8000_0000,
            -0x8000_0000 <= cz2 < 0x8000_0000,
    ;
}

fn key_of(cx: i32, cz: i32) -> (k: i64)
    ensures
        k == chunk_key(cx as int, cz as int),
{
    (cx as i64) * 0x1_0000_0000i64 + (cz as i64 + 0x8000_0000i64)
}

fn chunk_coord_of(b: i32) -> (c: i32)
    ensures
        c == chunk_coord(b as int),
{
    match b.checked_div_euclid(16) {
        Some(c) => c,
        None => 0,
    }
}

/// The ground height the player stands on at block column (bx, bz): the
/// highest solid block of that column in the chunk that holds it, or 0 when
/// that chunk is not loaded.
pub open spec fn ground_at(chunks: Map<i64, Chunk>, bx: int, bz: int) -> int {
    let key = chunk_key(chunk_coord(bx), chunk_coord(bz));
    if key >= i64::MIN && key <= i64::MAX && chunks.contains_key(key as i64) {
        surface(chunks[key as i64], (bx as int) % 16, (bz as int) % 16)
    } else {
        0
    }
}

/// Whether (cx, cz) lies in the square of chunks of radius `radius` around
/// chunk (px, pz).
pub open spec fn in_square(c: (i32, i32), px: int, pz: int, radius: int) -> bool {
    px - radius <= c.0 <= px + radius && pz - radius <= c.1 <= pz + radius
}

/// Whether chunk `a` comes before chunk `b` row by row: smaller cz first,
/// then smaller cx.
pub open spec fn row_before(a: (i32, i32), b: (i32, i32)) -> bool {
    a.1 < b.1 || (a.1 == b.1 && a.0 < b.0)
}

/// What a world being played holds, as the contracts speak of it.
pub struct WorldView {
    pub name: Seq<char>,
    pub mode: GameMode,
    pub gen_mode: WorldGen,
    pub seed: u32,
    pub chunks: Map<i64, Chunk>,
}

/// A world being played: its name, mode and terrain kind, the generator
/// made from its seed, and the chunks generated so far, each stored under
/// `chunk_key` of its coordinates.
pub struct WorldRuntime {
    name: String,
    mode: GameMode,
    gen_mode: WorldGen,
    generator: Generator,
    chunks: HashMap<i64, Chunk>,
}

impl View for WorldRuntime {
    type V = WorldView;

    closed spec fn view(&self) -> WorldView {
        WorldView {
            name: self.name@,
            mode: self.mode,
            gen_mode: self.gen_mode,
            seed: self.generator.seed,
            chunks: self.chunks@,
        }
    }
}

/// Every chunk of `chunks` is whole and sits under the key of its own
/// coordinates.
pub open spec fn chunks_wf(chunks: Map<i64, Chunk>) -> bool {
    forall|k: i64|
        #![trigger chunks[k]]
        chunks.contains_key(k) ==> chunks[k].wf() && chunk_key(chunks[k].cx as int, chunks[k].cz as int)
            == k
}

impl WorldRuntime {
    #[verifier::type_invariant]
    closed spec fn inv(&self) -> bool {
        chunks_wf(self.chunks@)
    }

    /// A world with no chunk generated yet.
    pub fn new(name: String, seed: u32, mode: GameMode, gen_mode: WorldGen) -> (w: Self)
        ensures
            w@ == (WorldView {
                name: name@,
                mode,
                gen_mode,
                seed,
                chunks: Map::<i64, Chunk>::empty(),
            }),
    {
        WorldRuntime { name, mode, gen_mode, generator: Generator::new(seed), chunks: HashMap::new() }
    }

    pub fn name(&self) -> (n: &String)
        ensures
            n@ == self@.name,
    {
        &self.name
    }

    pub fn mode(&self) -> (m: GameMode)
        ensures
            m == self@.mode,
    {
        self.mode
    }

    pub fn gen_mode(&self) -> (g: WorldGen)
        ensures
            g == self@.gen_mode,
    {
        self.gen_mode
    }

    pub fn generator(&self) -> (g: &Generator)
        ensures
            g.seed == self@.seed,
    {
        &self.generator
    }

    /// The stored chunks; each is whole and keyed by its coordinates.
    pub fn chunks(&self) -> (c: &HashMap<i64, Chunk>)
        ensures
            c@ == self@.chunks,
            chunks_wf(c@),
    {
        proof {
            use_type_invariant(self);
        }
        &self.chunks
    }

    /// The chunks of the square of radius `radius` around the chunk that
    /// holds block column (bx, bz) that are not generated yet, row by row.
    pub fn missing_chunks_around(&self, bx: i32, bz: i32, radius: i32) -> (missing: Vec<(i32, i32)>)
        requires
            chunk_coord(bx as int) - radius >= i32::MIN,
            chunk_coord(bx as int) + radius <= i32::MAX,
            chunk_coord(bz as int) - radius >= i32::MIN,
            chunk_coord(bz as int) + radius <= i32::MAX,
        ensures
            forall|i: int|
                0 <= i < missing@.len() ==> in_square(
                    missing@[i],
                    chunk_coord(bx as int),
                    chunk_coord(bz as int),
                    radius as int,
                ) && !self@.chunks.contains_key(
                    chunk_key(missing@[i].0 as int, missing@[i].1 as int) as i64,
                ),
            forall|c: (i32, i32)|
                in_square(c, chunk_coord(bx as int), chunk_coord(bz as int), radius as int)
                    && !self@.chunks.contains_key(chunk_key(c.0 as int, c.1 as int) as i64)
                    ==> missing@.contains(c),
            forall|i: int, j: int|
                0 <= i < j < missing@.len() ==> row_before(missing@[i], missing@[j]),
    {
        let px = chunk_coord_of(bx);
        let pz = chunk_coord_of(bz);
        let mut missing: Vec<(i32, i32)> = Vec::new();
        let mut cz: i64 = pz as i64 - radius as i64;
        while cz <= pz as i64 + radius as i64
            invariant
                px == chunk_coord(bx as int),
                pz == chunk_coord(bz as int),
                pz - radius >= i32::MIN,
                pz + radius <= i32::MAX,
                px - radius >= i32::MIN,
                px + radius <= i32::MAX,
                pz - radius <= cz,
                radius < 0 || cz <= pz + radius + 1,
                forall|i: int|
                    0 <= i < missing@.len() ==> in_square(missing@[i], px as int, pz as int, radius as int)
                        && missing@[i].1 < cz && !self@.chunks.contains_key(
                        chunk_key(missing@[i].0 as int, missing@[i].1 as int) as i64,
                    ),
                forall|c: (i32, i32)|
                    in_square(c, px as int, pz as int, radius as int) && c.1 < cz
                        && !self@.chunks.contains_key(chunk_key(c.0 as int, c.1 as int) as i64)
                        ==> missing@.contains(c),
                forall|i: int, j: int|
                    0 <= i < j < missing@.len() ==> row_before(missing@[i], missing@[j]),
            decreases pz + radius + 1 - cz,
        {
            let mut cx: i64 = px as i64 - radius as i64;
            while cx <= px as i64 + radius as i64
                invariant
                    px == chunk_coord(bx as int),
                    pz == chunk_coord(bz as int),
                    pz - radius >= i32::MIN,
                    pz + radius <= i32::MAX,
                    px - radius >= i32::MIN,
                    px + radius <= i32::MAX,
                    pz - radius <= cz <= pz + radius,
                    px - radius <= cx <= px + radius + 1,
                    forall|i: int|
                        0 <= i < missing@.len() ==> in_square(
                            missing@[i],
                            px as int,
                            pz as int,
                            radius as int,
                        ) && (missing@[i].1 < cz || (missing@[i].1 == cz && missing@[i].0 < cx))
                            && !self@.chunks.contains_key(
                            chunk_key(missing@[i].0 as int, missing@[i].1 as int) as i64,
                        ),
                    forall|c: (i32, i32)|
                        in_square(c, px as int, pz as int, radius as int) && (c.1 < cz || (c.1
                            == cz && c.0 < cx)) && !self@.chunks.contains_key(
                            chunk_key(c.0 as int, c.1 as int) as i64,
                        ) ==> missing@.contains(c),
                    forall|i: int, j: int|
                        0 <= i < j < missing@.len() ==> row_before(missing@[i], missing@[j]),
                decreases px + radius + 1 - cx,
            {
                let c = (cx as i32, cz as i32);
                let key = key_of(c.0, c.1);
                if !self.chunks.contains_key(&key) {
                    let ghost before = missing@;
                    missing.push(c);
                    assert forall|d: (i32, i32)|
                        in_square(d, px as int, pz as int, radius as int) && (d.1 < cz || (d.1
                            == cz && d.0 < cx + 1)) && !self@.chunks.contains_key(
                            chunk_key(d.0 as int, d.1 as int) as i64,
                        ) implies missing@.contains(d) by {
                        if d == c {
                            assert(missing@[before.len() as int] == c);
                        } else {
                            assert(before.contains(d));
                            let k = choose|k: int| 0 <= k < before.len() && before[k] == d;
                            assert(missing@[k] == d);
                        }
                    }
                }
                cx = cx + 1;
            }
            cz = cz + 1;
        }
        missing
    }

    /// Generates and stores the chunk at (cx, cz) unless it is stored
    /// already. A realistic world reads the chunk's surface heights from
    /// `relief` (see `Generator::generate_chunk`).
    pub fn ensure_chunk(&mut self, cx: i32, cz: i32, relief: &Vec<i32>)
        requires
            old(self)@.gen_mode == WorldGen::Realistic ==> relief@.len() == CHUNK_W * CHUNK_D,
        ensures
            final(self)@.name == old(self)@.name,
            final(self)@.mode == old(self)@.mode,
            final(self)@.gen_mode == old(self)@.gen_mode,
            final(self)@.seed == old(self)@.seed,
            final(self)@.chunks.contains_key(chunk_key(cx as int, cz as int) as i64),
            old(self)@.chunks.contains_key(chunk_key(cx as int, cz as int) as i64)
                ==> final(self)@.chunks == old(self)@.chunks,
            !old(self)@.chunks.contains_key(chunk_key(cx as int, cz as int) as i64) ==> {
                &&& final(self)@.chunks.remove(chunk_key(cx as int, cz as int) as i64)
                    == old(self)@.chunks
                &&& is_generated(
                    final(self)@.chunks[chunk_key(cx as int, cz as int) as i64],
                    cx,
                    cz,
                    old(self)@.gen_mode,
                    relief@,
                )
            },
    {
        proof {
            use_type_invariant(&*self);
        }
        let key = key_of(cx, cz);
        if !self.chunks.contains_key(&key) {
            let chunk = self.generator.generate_chunk(cx, cz, self.gen_mode, relief);
            let mut chunks: HashMap<i64, Chunk> = HashMap::new();
            std::mem::swap(&mut chunks, &mut self.chunks);
            let ghost before = chunks@;
            chunks.insert(key, chunk);
            assert(chunks@.remove(key) =~= before);
            self.chunks = chunks;
        }
    }

    /// The ground height at block column (bx, bz): the height of the
    /// highest solid block of that column, or 0 when its chunk is not
    /// loaded or the column is all air.
    pub fn sample_ground_height(&self, bx: i32, bz: i32) -> (h: u32)
        ensures
            h == ground_at(self@.chunks, bx as int, bz as int),
    {
        proof {
            use_type_invariant(self);
        }
        let cx = chunk_coord_of(bx);
        let cz = chunk_coord_of(bz);
        let key = key_of(cx, cz);
        match self.chunks.get(&key) {
            Some(chunk) => {
                assert(self@.chunks.contains_key(key) && *chunk == self.chunks@[key]);
                let lx = (bx as i64 - cx as i64 * 16) as usize;
                let lz = (bz as i64 - cz as i64 * 16) as usize;
                assert(lx == bx % 16 && lz == bz % 16);
                let mut y: usize = CHUNK_H;
                while y > 0
                    invariant
                        y <= CHUNK_H,
                        lx < 16,
                        lz < 16,
                        lx == bx % 16,
                        lz == bz % 16,
                        key == chunk_key(chunk_coord(bx as int), chunk_coord(bz as int)),
                        self@.chunks.contains_key(key),
                        *chunk == self.chunks@[key],
                        chunk.wf(),
                        surface(*chunk, lx as int, lz as int) == surface_below(
                            *chunk,
                            lx as int,
                            lz as int,
                            y as int,
                        ),
                    decreases y,
                {
                    if chunk.get(lx, y - 1, lz).solid() {
                        assert(surface_below(*chunk, lx as int, lz as int, y as int) == y - 1);
                        return (y - 1) as u32;
                    }
                    y = y - 1;
                }
                0
            },
            None => 0,
        }
    }
}

} // verus!

verus! {

/// The name a new world gets until the player types another, and the world
/// that the main menu's load button loads.
pub const DEFAULT_WORLD_NAME: &'static str = "novo_mundo";

/// Which screen is shown.
#[derive(Copy, Clone, Debug, PartialEq, Eq, Structural)]
pub enum Screen {
    MainMenu,
    CreateWorld,
    InGame,
}

/// What the caller of `GameState::handle_event` has to do outside the game
/// state.
#[derive(Clone, Debug)]
pub enum GameAction {
    /// Nothing.
    Nothing,
    /// Read the description of world `name`, then hand it (or its absence)
    /// to `GameState::finish_load`.
    LoadWorld { name: String },
    /// Write this description of the world that was just created.
    SaveMeta(WorldMeta),
    /// End the program.
    Exit,
}

/// The whole state of the game: the screen shown, the two menus, the name
/// typed for a new world, the mode and terrain kind chosen for it, and the
/// world being played, if any.
pub struct GameState {
    pub screen: Screen,
    pub main_menu: MainMenu,
    pub create_menu: CreateWorldMenu,
    pub world_name_input: String,
    pub mode: GameMode,
    pub world_gen: WorldGen,
    pub running_world: Option<WorldRuntime>,
}

/// The point of a left click in half pixels, if `event` is one.
pub open spec fn left_click(event: Event) -> Option<(int, int)> {
    match event {
        Event::MouseButtonDown { mouse_btn: MouseButton::Left, x, y } => Some(
            (2 * x as int, 2 * y as int),
        ),
        _ => None,
    }
}

/// The main-menu button that `event` clicks, when the main menu is shown.
pub open spec fn main_menu_choice(g: GameState, event: Event) -> Option<MainMenuAction> {
    if g.screen == Screen::MainMenu {
        match left_click(event) {
            Some(p) => match first_covering(g.main_menu.buttons@, p.0, p.1, 0) {
                Some(i) => Some(main_action(i)),
                None => None,
            },
            None => None,
        }
    } else {
        None
    }
}

/// The creation-menu button that `event` clicks, when that menu is shown.
pub open spec fn create_menu_choice(g: GameState, event: Event) -> Option<CreateWorldAction> {
    if g.screen == Screen::CreateWorld {
        match left_click(event) {
            Some(p) => match first_covering(g.create_menu.buttons@, p.0, p.1, 0) {
                Some(i) => Some(create_action(i)),
                None => None,
            },
            None => None,
        }
    } else {
        None
    }
}

/// The world name after `event` on `screen`: on the creation screen typed
/// text is appended and a first Backspace press removes the last character;
/// elsewhere the name stays.
pub open spec fn edited_name(screen: Screen, name: Seq<char>, event: Event) -> Seq<char> {
    if screen == Screen::CreateWorld {
        match event {
            Event::TextInput { text } => name + text@,
            Event::KeyDown { keycode: Some(k), repeat: false } => if k == KEY_BACKSPACE && name.len()
                > 0 {
                name.drop_last()
            } else {
                name
            },
            _ => name,
        }
    } else {
        name
    }
}

/// The screen after the menu click of `event`, if any: the create button of
/// the main menu opens the creation screen, the create button of that
/// screen starts the game, its back button returns to the main menu.
pub open spec fn screen_after_click(g: GameState, event: Event) -> Screen {
    match main_menu_choice(g, event) {
        Some(MainMenuAction::CreateWorld) => Screen::CreateWorld,
        _ => match create_menu_choice(g, event) {
            Some(CreateWorldAction::Create) => Screen::InGame,
            Some(CreateWorldAction::Back) => Screen::MainMenu,
            _ => g.screen,
        },
    }
}

/// Escape pressed during the frame takes the game back to the main menu.
pub open spec fn after_escape(screen: Screen, input: InputState) -> Screen {
    if screen == Screen::InGame && input.keys_pressed@.contains(KEY_ESCAPE) {
        Screen::MainMenu
    } else {
        screen
    }
}

/// The other terrain kind.
pub open spec fn other_gen(g: WorldGen) -> WorldGen {
    match g {
        WorldGen::Flat => WorldGen::Realistic,
        WorldGen::Realistic => WorldGen::Flat,
    }
}

/// Whether `w` is a world just started with this name, seed, mode and
/// terrain kind: no chunk generated yet.
pub open spec fn fresh_world(
    w: Option<WorldRuntime>,
    name: Seq<char>,
    seed: u32,
    mode: GameMode,
    gen_mode: WorldGen,
) -> bool {
    w matches Some(r) && r@ == WorldView {
        name,
        mode,
        gen_mode,
        seed,
        chunks: Map::<i64, Chunk>::empty(),
    }
}

/// The menus as they are laid out for a window `width` pixels wide.
pub open spec fn menus_laid_out(g: GameState, width: u32) -> bool {
    main_menu_at(g.main_menu, width as int, 440) && create_menu_at(g.create_menu, width as int, 260)
}

/// `String::pop` of std: removes the last character of `s` and returns it,
/// or returns `None` and leaves `s` alone when `s` is empty.
#[verifier::external_body]
fn pop_char(s: &mut String) -> (c: Option<char>)
    ensures
        old(s)@.len() == 0 ==> c is None && final(s)@ == old(s)@,
        old(s)@.len() > 0 ==> c == Some(old(s)@.last()) && final(s)@ == old(s)@.drop_last(),
{
    s.pop()
}

impl GameState {
    /// The main menu of a 1280 pixel wide window, the default world name,
    /// survival mode and realistic terrain, no world running.
    pub fn new() -> (g: Self)
        ensures
            g.screen == Screen::MainMenu,
            menus_laid_out(g, 1280),
            g.world_name_input@ == DEFAULT_WORLD_NAME@,
            g.mode == GameMode::Survival,
            g.world_gen == WorldGen::Realistic,
            g.running_world is None,
    {
        GameState {
            screen: Screen::MainMenu,
            main_menu: MainMenu::new(1280, 440),
            create_menu: CreateWorldMenu::new(1280, 260),
            world_name_input: DEFAULT_WORLD_NAME.to_string(),
            mode: GameMode::Survival,
            world_gen: WorldGen::Realistic,
            running_world: None,
        }
    }

    fn spawn_world(&mut self, name: String, seed: u32, mode: GameMode, world_gen: WorldGen)
        ensures
            final(self).running_world matches Some(w) && w@ == (WorldView {
                name: name@,
                mode,
                gen_mode: world_gen,
                seed,
                chunks: Map::<i64, Chunk>::empty(),
            }),
            final(self).screen == Screen::InGame,
            final(self).main_menu == old(self).main_menu,
            final(self).create_menu == old(self).create_menu,
            final(self).world_name_input == old(self).world_name_input,
            final(self).mode == old(self).mode,
            final(self).world_gen == old(self).world_gen,
    {
        self.running_world = Some(WorldRuntime::new(name, seed, mode, world_gen));
        self.screen = Screen::InGame;
    }

    /// Escape in game returns to the main menu; the menus are laid out again
    /// for the window width.
    fn end_event(&mut self, width: u32, input: &InputState)
        ensures
            final(self).screen == after_escape(old(self).screen, *input),
            menus_laid_out(*final(self), width),
            final(self).world_name_input == old(self).world_name_input,
            final(self).mode == old(self).mode,
            final(self).world_gen == old(self).world_gen,
            final(self).running_world == old(self).running_world,
    {
        if self.screen == Screen::InGame && input.key_pressed(KEY_ESCAPE) {
            self.screen = Screen::MainMenu;
        }
        self.main_menu = MainMenu::new(width as i64, 440);
        self.create_menu = CreateWorldMenu::new(width as i64, 260);
    }

    /// Applies `event`, seen in a window `width` pixels wide with keyboard
    /// state `input`, to the game. On the creation screen typed text extends
    /// the world name and Backspace shortens it. A left click on a menu
    /// button: on the main menu, create opens the creation screen, load
    /// hands the loading of the default world to the caller (the rest of the
    /// event is then applied by `finish_load`), exit asks the caller to end
    /// the program; on the creation screen, mode and terrain toggle, back
    /// returns to the main menu, and create starts a world named after the
    /// typed name with the FNV-1a hash of its UTF-8 bytes as seed, and asks
    /// the caller to save its description. Then Escape pressed during the
    /// frame leaves a running game for the main menu, and the menus are laid
    /// out again for the window width.
    pub fn handle_event(&mut self, event: &Event, width: u32, _height: u32, input: &InputState) -> (action: GameAction)
        ensures
            main_menu_choice(*old(self), *event) == Some(MainMenuAction::LoadWorld) ==> {
                &&& action matches GameAction::LoadWorld { name } && name@ == DEFAULT_WORLD_NAME@
                &&& *final(self) == *old(self)
            },
            main_menu_choice(*old(self), *event) == Some(MainMenuAction::Exit) ==> {
                &&& action is Exit
                &&& *final(self) == *old(self)
            },
            main_menu_choice(*old(self), *event) != Some(MainMenuAction::LoadWorld)
                && main_menu_choice(*old(self), *event) != Some(MainMenuAction::Exit) ==> {
                &&& final(self).world_name_input@ == edited_name(
                    old(self).screen,
                    old(self).world_name_input@,
                    *event,
                )
                &&& final(self).screen == after_escape(
                    screen_after_click(*old(self), *event),
                    *input,
                )
                &&& final(self).mode == if create_menu_choice(*old(self), *event) == Some(
                    CreateWorldAction::ToggleMode,
                ) {
                    old(self).mode.toggled()
                } else {
                    old(self).mode
                }
                &&& final(self).world_gen == if create_menu_choice(*old(self), *event) == Some(
                    CreateWorldAction::ToggleGenerator,
                ) {
                    other_gen(old(self).world_gen)
                } else {
                    old(self).world_gen
                }
                &&& create_menu_choice(*old(self), *event) == Some(CreateWorldAction::Create) ==> {
                    &&& fresh_world(
                        final(self).running_world,
                        old(self).world_name_input@,
                        fnv1a(encode_utf8(old(self).world_name_input@)),
                        old(self).mode,
                        old(self).world_gen,
                    )
                    &&& action matches GameAction::SaveMeta(meta) && meta.name@
                        == old(self).world_name_input@ && meta.seed == fnv1a(
                        encode_utf8(old(self).world_name_input@),
                    ) && meta.mode@ == old(self).mode.label() && meta.generator == old(
                        self,
                    ).world_gen
                }
                &&& create_menu_choice(*old(self), *event) != Some(CreateWorldAction::Create)
                    ==> {
                    &&& final(self).running_world == old(self).running_world
                    &&& action is Nothing
                }
                &&& menus_laid_out(*final(self), width)
            },
            !(*event matches Event::MouseButtonDown { mouse_btn: MouseButton::Left, .. }) ==> {
                &&& action is Nothing
                &&& final(self).screen == after_escape(old(self).screen, *input)
                &&& final(self).mode == old(self).mode
                &&& final(self).world_gen == old(self).world_gen
                &&& final(self).running_world == old(self).running_world
            },
    {
        let mut action = GameAction::Nothing;
        match event {
            Event::TextInput { text } => {
                if self.screen == Screen::CreateWorld {
                    self.world_name_input.append(text.as_str());
                }
            },
            Event::KeyDown { keycode: Some(key), repeat: false } => {
                if *key == KEY_BACKSPACE && self.screen == Screen::CreateWorld {
                    let _ = pop_char(&mut self.world_name_input);
                }
            },
            Event::MouseButtonDown { mouse_btn: MouseButton::Left, x, y } => {
                let mx = 2 * (*x as i64);
                let my = 2 * (*y as i64);
                match self.screen {
                    Screen::MainMenu => {
                        match self.main_menu.click(mx, my) {
                            Some(MainMenuAction::CreateWorld) => {
                                self.screen = Screen::CreateWorld;
                            },
                            Some(MainMenuAction::LoadWorld) => {
                                return GameAction::LoadWorld { name: DEFAULT_WORLD_NAME.to_string() };
                            },
                            Some(MainMenuAction::Exit) => {
                                return GameAction::Exit;
                            },
                            None => {},
                        }
                    },
                    Screen::CreateWorld => {
                        match self.create_menu.click(mx, my) {
                            Some(CreateWorldAction::ToggleMode) => {
                                self.mode.toggle();
                            },
                            Some(CreateWorldAction::ToggleGenerator) => {
                                self.world_gen = match self.world_gen {
                                    WorldGen::Flat => WorldGen::Realistic,
                                    WorldGen::Realistic => WorldGen::Flat,
                                };
                            },
                            Some(CreateWorldAction::Create) => {
                                let seed = fnv_hash(self.world_name_input.as_str().as_bytes());
                                let meta = WorldMeta {
                                    name: self.world_name_input.clone(),
                                    seed,
                                    mode: self.mode.as_str().to_string(),
                                    generator: self.world_gen,
                                };
                                self.spawn_world(meta.name.clone(), seed, self.mode, self.world_gen);
                                action = GameAction::SaveMeta(meta);
                            },
                            Some(CreateWorldAction::Back) => {
                                self.screen = Screen::MainMenu;
                            },
                            None => {},
                        }
                    },
                    Screen::InGame => {},
                }
            },
            _ => {},
        }
        self.end_event(width, input);
        action
    }

    /// Completes an event whose click asked to load the default world: when
    /// its description `loaded` could be read, starts that world (name, seed
    /// and terrain from the description, mode from the game); then applies
    /// Escape and lays the menus out again, as `handle_event` does. Returns
    /// whether a world was started.
    pub fn finish_load(&mut self, loaded: Option<WorldMeta>, width: u32, input: &InputState) -> (started: bool)
        ensures
            started == loaded is Some,
            loaded matches Some(meta) ==> fresh_world(
                final(self).running_world,
                meta.name@,
                meta.seed,
                old(self).mode,
                meta.generator,
            ) && final(self).screen == after_escape(Screen::InGame, *input),
            loaded is None ==> final(self).running_world == old(self).running_world
                && final(self).screen == after_escape(old(self).screen, *input),
            final(self).world_name_input == old(self).world_name_input,
            final(self).mode == old(self).mode,
            final(self).world_gen == old(self).world_gen,
            menus_laid_out(*final(self), width),
    {
        let started = match loaded {
            Some(meta) => {
                let mode = self.mode;
                self.spawn_world(meta.name, meta.seed, mode, meta.generator);
                true
            },
            None => false,
        };
        self.end_event(width, input);
        started
    }

    /// Whether the chunks of the running world are to be saved this frame:
    /// a world is being played and F5 was pressed.
    pub fn should_save(&self, input: &InputState) -> (r: bool)
        ensures
            r == (self.screen == Screen::InGame && self.running_world is Some
                && input.keys_pressed@.contains(KEY_F5)),
    {
        self.screen == Screen::InGame && self.running_world.is_some() && input.key_pressed(KEY_F5)
    }
}

} // verus!

verus! {

/// On the creation screen, typing one character and then pressing Backspace
/// gives back the name one started from.
pub proof fn lemma_type_then_backspace(name: Seq<char>, text: String)
    requires
        text@.len() == 1,
    ensures
        edited_name(
            Screen::CreateWorld,
            edited_name(Screen::CreateWorld, name, Event::TextInput { text }),
            Event::KeyDown { keycode: Some(KEY_BACKSPACE), repeat: false },
        ) == name,
{
    assert((name + text@).drop_last() =~= name);
}

/// The ground height sampled at a block column whose chunk was generated
/// with relief map `relief` is the column's surface height, held to the
/// chunk's height range [0, 63].
pub proof fn lemma_ground_of_generated(
    chunks: Map<i64, Chunk>,
    bx: i32,
    bz: i32,
    mode: WorldGen,
    relief: Seq<i32>,
)
    requires
        chunks.contains_key(chunk_key(chunk_coord(bx as int), chunk_coord(bz as int)) as i64),
        is_generated(
            chunks[chunk_key(chunk_coord(bx as int), chunk_coord(bz as int)) as i64],
            chunk_coord(bx as int) as i32,
            chunk_coord(bz as int) as i32,
            mode,
            relief,
        ),
    ensures
        ground_at(chunks, bx as int, bz as int) == (if column_height(
            mode,
            relief,
            (bx as int) % 16,
            (bz as int) % 16,
        ) < 0 {
            0
        } else if column_height(mode, relief, (bx as int) % 16, (bz as int) % 16) > 63 {
            63
        } else {
            column_height(mode, relief, (bx as int) % 16, (bz as int) % 16)
        }),
{
    let key = chunk_key(chunk_coord(bx as int), chunk_coord(bz as int));
    assert(i64::MIN <= key <= i64::MAX);
    lemma_generated_surface(
        chunks[key as i64],
        chunk_coord(bx as int) as i32,
        chunk_coord(bz as int) as i32,
        mode,
        relief,
        (bx as int) % 16,
        (bz as int) % 16,
    );
}

} // verus!

verus! {

/// A second pass of chunk loading around the same spot adds nothing: when
/// `first` lists the chunks of the square missing from `before` (as
/// `missing_chunks_around` does), and the pass (`ensure_chunk` on each of
/// them) keeps every stored chunk and stores every listed one, then the
/// chunks of the square missing from the result form an empty list.
pub proof fn lemma_second_pass_adds_nothing(
    before: Map<i64, Chunk>,
    after: Map<i64, Chunk>,
    first: Seq<(i32, i32)>,
    second: Seq<(i32, i32)>,
    px: int,
    pz: int,
    radius: int,
)
    requires
        forall|c: (i32, i32)|
            in_square(c, px, pz, radius) && !before.contains_key(chunk_key(c.0 as int, c.1 as int) as i64)
                ==> first.contains(c),
        forall|k: i64| before.contains_key(k) ==> after.contains_key(k),
        forall|i: int|
            0 <= i < first.len() ==> after.contains_key(
                chunk_key(first[i].0 as int, first[i].1 as int) as i64,
            ),
        forall|i: int|
            0 <= i < second.len() ==> in_square(second[i], px, pz, radius) && !after.contains_key(
                chunk_key(second[i].0 as int, second[i].1 as int) as i64,
            ),
    ensures
        second.len() == 0,
{
    if second.len() > 0 {
        let c = second[0];
        assert(in_square(c, px, pz, radius));
        assert(!after.contains_key(chunk_key(c.0 as int, c.1 as int) as i64));
        assert(!before.contains_key(chunk_key(c.0 as int, c.1 as int) as i64));
        assert(first.contains(c));
        let i = choose|i: int| 0 <= i < first.len() && first[i] == c;
        assert(after.contains_key(chunk_key(first[i].0 as int, first[i].1 as int) as i64));
    }
}

} // verus!

verus! {

/// Only a press of the left mouse button presses a menu button: any other
/// event, a press of another mouse button included, selects nothing on
/// either menu and leaves the screen where it was before Escape is applied.
pub proof fn lemma_only_left_button_selects(g: GameState, event: Event)
    requires
        !(event matches Event::MouseButtonDown { mouse_btn: MouseButton::Left, .. }),
    ensures
        main_menu_choice(g, event) is None,
        create_menu_choice(g, event) is None,
        screen_after_click(g, event) == g.screen,
{
}

/// The chunk of a block coordinate is found by floor division: chunk `c`
/// spans blocks `16 * c` to `16 * c + 15`, for negative coordinates too,
/// and the block's offset inside its chunk is `b % 16`.
pub proof fn lemma_chunk_coord_floor(b: int)
    ensures
        16 * chunk_coord(b) <= b < 16 * chunk_coord(b) + 16,
        b % 16 == b - 16 * chunk_coord(b),
        0 <= b % 16 < 16,
{
}

} // verus!

verus! {

/// The FNV-1a step: appending byte `b` xors the byte's value (0 to 255) into
/// the hash so far, which changes only the hash's lowest 8 bits, and then
/// multiplies by the FNV prime 16777619 modulo 2^32. The empty input hashes
/// to the offset basis 2166136261.
pub proof fn lemma_fnv1a_step(bytes: Seq<u8>, b: u8)
    ensures
        fnv1a(Seq::<u8>::empty()) == 2166136261u32,
        (fnv1a(bytes) ^ (b as u32)) / 256 == fnv1a(bytes) / 256,
        (fnv1a(bytes) ^ (b as u32)) % 256 == (fnv1a(bytes) % 256) ^ (b as u32),
        fnv1a(bytes.push(b)) as int == ((fnv1a(bytes) ^ (b as u32)) as int * 16777619)
            % 0x1_0000_0000,
{
    let h = fnv1a(bytes);
    assert(bytes.push(b).drop_last() =~= bytes);
    assert(bytes.push(b).last() == b);
    assert((h ^ (b as u32)) / 256 == h / 256) by (bit_vector);
    assert((h ^ (b as u32)) % 256 == (h % 256) ^ (b as u32)) by (bit_vector);
}

} // verus!
