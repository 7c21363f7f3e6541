use vstd::prelude::*;
use crate::ui::button::{Button, first_covering, first_hit};

verus! {

broadcast use vstd::string::group_string_axioms;

/// What a click on the main menu asks for.
#[derive(Copy, Clone, Debug, PartialEq, Eq, Structural)]
pub enum MainMenuAction {
    CreateWorld,
    LoadWorld,
    Exit,
}

/// What a click on the world-creation menu asks for.
#[derive(Copy, Clone, Debug, PartialEq, Eq, Structural)]
pub enum CreateWorldAction {
    Create,
    Back,
    ToggleMode,
    ToggleGenerator,
}

/// The action of the main menu's `i`-th button: create, load, then exit
/// for every later button.
pub open spec fn main_action(i: int) -> MainMenuAction {
    if i == 0 {
        MainMenuAction::CreateWorld
    } else if i == 1 {
        MainMenuAction::LoadWorld
    } else {
        MainMenuAction::Exit
    }
}

/// The action of the creation menu's `i`-th button: mode, terrain, create,
/// then back for every later button.
pub open spec fn create_action(i: int) -> CreateWorldAction {
    if i == 0 {
        CreateWorldAction::ToggleMode
    } else if i == 1 {
        CreateWorldAction::ToggleGenerator
    } else if i == 2 {
        CreateWorldAction::Create
    } else {
        CreateWorldAction::Back
    }
}

/// Whether `b` is the rectangle (x, y, w, h) with label `label`.
pub open spec fn button_is(b: Button, label: Seq<char>, x: int, y: int, w: int, h: int) -> bool {
    b.label@ == label && b.x == x && b.y == y && b.w == w && b.h == h
}

/// Whether `m` is the main menu laid out around `center_x` from height `y`
/// (half pixels), as `MainMenu::new` lays it out.
pub open spec fn main_menu_at(m: MainMenu, center_x: int, y: int) -> bool {
    &&& m.buttons@.len() == 3
    &&& button_is(m.buttons@[0], "CRIAR MUNDO"@, center_x - 240, y, 480, 96)
    &&& button_is(m.buttons@[1], "CARREGAR MUNDO"@, center_x - 240, y + 128, 480, 96)
    &&& button_is(m.buttons@[2], "SAIR"@, center_x - 240, y + 256, 480, 96)
}

/// Whether `m` is the creation menu laid out around `center_x` below the
/// name field at height `y` (half pixels), as `CreateWorldMenu::new` lays it
/// out.
pub open spec fn create_menu_at(m: CreateWorldMenu, center_x: int, y: int) -> bool {
    &&& m.buttons@.len() == 4
    &&& button_is(m.buttons@[0], "MODO"@, center_x - 280, y + 172, 560, 84)
    &&& button_is(m.buttons@[1], "GERACAO"@, center_x - 280, y + 272, 560, 84)
    &&& button_is(m.buttons@[2], "CRIAR"@, center_x - 280, y + 392, 270, 96)
    &&& button_is(m.buttons@[3], "VOLTAR"@, center_x + 10, y + 392, 270, 96)
}

/// The title screen: create a world, load the saved one, or quit.
pub struct MainMenu {
    pub buttons: Vec<Button>,
}

/// The world-creation screen: game mode, terrain kind, create and back.
pub struct CreateWorldMenu {
    pub buttons: Vec<Button>,
}

impl MainMenu {
    /// Three 240 x 48 pixel buttons stacked 64 pixels apart, centred on
    /// `center_x`, the first at height `y` (all in half pixels).
    pub fn new(center_x: i64, y: i64) -> (m: Self)
        requires
            center_x - 240 >= i64::MIN,
            y + 256 <= i64::MAX,
        ensures
            main_menu_at(m, center_x as int, y as int),
    {
        let mut buttons: Vec<Button> = Vec::new();
        buttons.push(Button::new("CRIAR MUNDO", center_x - 240, y, 480, 96));
        buttons.push(Button::new("CARREGAR MUNDO", center_x - 240, y + 128, 480, 96));
        buttons.push(Button::new("SAIR", center_x - 240, y + 256, 480, 96));
        MainMenu { buttons }
    }

    /// The action of the first button under point (mx, my), in half pixels.
    pub fn click(&self, mx: i64, my: i64) -> (a: Option<MainMenuAction>)
        ensures
            a == (match first_covering(self.buttons@, mx as int, my as int, 0) {
                Some(i) => Some(main_action(i)),
                None => None,
            }),
    {
        match first_hit(&self.buttons, mx, my) {
            Some(i) => Some(
                if i == 0 {
                    MainMenuAction::CreateWorld
                } else if i == 1 {
                    MainMenuAction::LoadWorld
                } else {
                    MainMenuAction::Exit
                },
            ),
            None => None,
        }
    }
}

impl CreateWorldMenu {
    /// The mode and terrain buttons (280 x 42 pixels) under the name field
    /// that starts at height `y`, and the create and back buttons (135 x 48
    /// pixels) side by side below them, centred on `center_x` (all in half
    /// pixels).
    pub fn new(center_x: i64, y: i64) -> (m: Self)
        requires
            center_x - 280 >= i64::MIN,
            center_x + 10 <= i64::MAX,
            y + 392 <= i64::MAX,
        ensures
            create_menu_at(m, center_x as int, y as int),
    {
        let mut buttons: Vec<Button> = Vec::new();
        buttons.push(Button::new("MODO", center_x - 280, y + 172, 560, 84));
        buttons.push(Button::new("GERACAO", center_x - 280, y + 272, 560, 84));
        buttons.push(Button::new("CRIAR", center_x - 280, y + 392, 270, 96));
        buttons.push(Button::new("VOLTAR", center_x + 10, y + 392, 270, 96));
        CreateWorldMenu { buttons }
    }

    /// The action of the first button under point (mx, my), in half pixels.
    pub fn click(&self, mx: i64, my: i64) -> (a: Option<CreateWorldAction>)
        ensures
            a == (match first_covering(self.buttons@, mx as int, my as int, 0) {
                Some(i) => Some(create_action(i)),
                None => None,
            }),
    {
        match first_hit(&self.buttons, mx, my) {
            Some(i) => Some(
                if i == 0 {
                    CreateWorldAction::ToggleMode
                } else if i == 1 {
                    CreateWorldAction::ToggleGenerator
                } else if i == 2 {
                    CreateWorldAction::Create
                } else {
                    CreateWorldAction::Back
                },
            ),
            None => None,
        }
    }
}

} // verus!

verus! {

/// The buttons of a laid-out main menu do not overlap: a click on button
/// `i` triggers button `i`'s action.
pub proof fn lemma_main_menu_click(m: MainMenu, center_x: int, y: int, i: int, mx: int, my: int)
    requires
        main_menu_at(m, center_x, y),
        0 <= i < 3,
        m.buttons@[i].covers(mx, my),
    ensures
        first_covering(m.buttons@, mx, my, 0) == Some(i),
{
    reveal_with_fuel(first_covering, 4);
}

/// The buttons of a laid-out creation menu do not overlap: a click on
/// button `i` triggers button `i`'s action.
pub proof fn lemma_create_menu_click(
    m: CreateWorldMenu,
    center_x: int,
    y: int,
    i: int,
    mx: int,
    my: int,
)
    requires
        create_menu_at(m, center_x, y),
        0 <= i < 4,
        m.buttons@[i].covers(mx, my),
    ensures
        first_covering(m.buttons@, mx, my, 0) == Some(i),
{
    reveal_with_fuel(first_covering, 5);
}

} // verus!
