//! The two application states, the main menu's view and its message handling,
//! and the rule that ends a round.
use vstd::prelude::*;

verus! {

/// The state that selects which systems run. A game starts in the menu.
#[derive(Clone, Copy, Debug, PartialEq, Eq, Hash, Structural)]
pub enum GameState {
    MainMenu,
    Playing,
}

impl GameState {
    /// The state a game starts in.
    pub fn initial() -> (r: GameState)
        ensures
            r == GameState::MainMenu,
    {
        GameState::MainMenu
    }
}

/// What the menu's widgets report.
#[derive(Clone, Copy, Debug, PartialEq, Eq, Structural)]
pub enum Message {
    StartClicked,
}

/// Where content sits along one axis of the space it is given.
#[derive(Clone, Copy, Debug, PartialEq, Eq, Structural)]
pub enum Align {
    Start,
    Center,
    End,
}

/// How much space a widget takes along one axis.
#[derive(Clone, Copy, Debug, PartialEq, Eq, Structural)]
pub enum Extent {
    /// All the space there is.
    Fill,
    /// Just what its content needs.
    Shrink,
}

/// The menu's layout: a column holding the title and the start button, with
/// its items aligned by `items_align`, inside a container that takes
/// `width` and `height` and places the column at `align_x`, `align_y`.
#[derive(Debug)]
pub struct MenuView {
    pub title: String,
    pub title_size: u16,
    pub button_label: String,
    pub on_press: Message,
    pub spacing: u16,
    pub items_align: Align,
    pub width: Extent,
    pub height: Extent,
    pub align_x: Align,
    pub align_y: Align,
}

pub const TITLE_SIZE: u16 = 50;
pub const MENU_SPACING: u16 = 20;

/// Describes the main menu: the column is centred both ways in a container
/// that fills the window, and its items are centred.
pub fn view() -> (r: MenuView)
    ensures
        r.items_align == Align::Center,
        r.width == Extent::Fill,
        r.height == Extent::Fill,
        r.align_x == Align::Center,
        r.align_y == Align::Center,
        r.title@ == "Bevy Bowling"@,
        r.button_label@ == "Start Game"@,
        r.title_size == TITLE_SIZE,
        r.spacing == MENU_SPACING,
        r.on_press == Message::StartClicked,
{
    proof {
        reveal_strlit("Bevy Bowling");
        reveal_strlit("Start Game");
    }
    MenuView {
        title: String::from_str("Bevy Bowling"),
        title_size: TITLE_SIZE,
        button_label: String::from_str("Start Game"),
        on_press: Message::StartClicked,
        spacing: MENU_SPACING,
        items_align: Align::Center,
        width: Extent::Fill,
        height: Extent::Fill,
        align_x: Align::Center,
        align_y: Align::Center,
    }
}

/// The transition that the menu's messages request: a start request for the
/// play state if any message came, else what was already requested.
pub open spec fn after_messages(messages: Seq<Message>, next: Option<GameState>) -> Option<GameState> {
    if messages.len() > 0 {
        Some(GameState::Playing)
    } else {
        next
    }
}

/// Handles the menu's messages of one frame.
pub fn update(messages: &Vec<Message>, next: &mut Option<GameState>)
    ensures
        *final(next) == after_messages(messages@, *old(next)),
{
    let mut i: usize = 0;
    while i < messages.len()
        invariant
            i <= messages@.len(),
            *next == if i > 0 { Some(GameState::Playing) } else { *old(next) },
        decreases messages@.len() - i,
    {
        match messages[i] {
            Message::StartClicked => {
                *next = Some(GameState::Playing);
            },
        }
        i = i + 1;
    }
}

/// The transition that the end rule requests: back to the menu once no pin
/// is left, else what was already requested.
pub open spec fn after_end_check(pins: nat, next: Option<GameState>) -> Option<GameState> {
    if pins == 0 {
        Some(GameState::MainMenu)
    } else {
        next
    }
}

/// The end rule of a round.
pub fn end_condition(pins: usize, next: &mut Option<GameState>)
    ensures
        *final(next) == after_end_check(pins as nat, *old(next)),
{
    if pins == 0 {
        *next = Some(GameState::MainMenu);
    }
}

} // verus!
