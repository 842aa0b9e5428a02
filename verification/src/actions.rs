//! Buttons, and what a click on one of them does.

use crate::scenes::mission::{fresh_soldier, spawn_soldier, MenuId, MenuState};
use crate::units::{Rank, Role, Side, SoldierBundle, SoldierBundleView};
use vstd::prelude::*;

verus! {

/// A colour without transparency. Each channel is given in hundredths of
/// full intensity.
#[derive(Clone, Copy, Debug, PartialEq, Eq, Structural)]
pub struct Color {
    pub red: u8,
    pub green: u8,
    pub blue: u8,
}

/// The menus that are screens of their own.
#[derive(Clone, Copy, Debug, PartialEq, Eq, Structural)]
pub enum MenuType {
    Main,
    Settings,
}

/// What a click on a button asks for.
#[derive(Clone, Debug, PartialEq, Eq)]
pub enum ClickAction {
    /// Field a soldier.
    SpawnSoldier { rank: Rank, role: Role, side: Side },
    /// Select a unit. Nothing is selected yet.
    SelectUnit,
    /// Select a building. Nothing is selected yet.
    SelectBuilding,
    /// Open the panel if it is closed, close it if it is open.
    ToggleMenu(MenuId),
    /// Go to a menu screen. There is none to go to yet.
    OpenMenu(MenuType),
    /// Leave a menu screen. There is none to leave yet.
    CloseMenu,
    /// A note for the log, for trying things out.
    Custom(String),
}

/// The mathematical value of a [`ClickAction`].
pub enum ClickActionView {
    SpawnSoldier { rank: Rank, role: Role, side: Side },
    SelectUnit,
    SelectBuilding,
    ToggleMenu(MenuId),
    OpenMenu(MenuType),
    CloseMenu,
    Custom(Seq<char>),
}

impl View for ClickAction {
    type V = ClickActionView;

    open spec fn view(&self) -> ClickActionView {
        match *self {
            ClickAction::SpawnSoldier { rank, role, side } => ClickActionView::SpawnSoldier {
                rank,
                role,
                side,
            },
            ClickAction::SelectUnit => ClickActionView::SelectUnit,
            ClickAction::SelectBuilding => ClickActionView::SelectBuilding,
            ClickAction::ToggleMenu(id) => ClickActionView::ToggleMenu(id),
            ClickAction::OpenMenu(menu) => ClickActionView::OpenMenu(menu),
            ClickAction::CloseMenu => ClickActionView::CloseMenu,
            ClickAction::Custom(note) => ClickActionView::Custom(note@),
        }
    }
}

/// What is left to do once an action has been handled.
#[derive(Clone, Debug, PartialEq, Eq)]
pub enum Effect {
    /// Put this soldier on the field.
    Spawn(SoldierBundle),
    /// The menus have changed: nothing more to do.
    MenusChanged,
    /// The action has no effect yet: at most it is worth a line in the log.
    Ignored,
}

/// The mathematical value of an [`Effect`].
pub enum EffectView {
    Spawn(SoldierBundleView),
    MenusChanged,
    Ignored,
}

impl View for Effect {
    type V = EffectView;

    open spec fn view(&self) -> EffectView {
        match *self {
            Effect::Spawn(bundle) => EffectView::Spawn(bundle@),
            Effect::MenusChanged => EffectView::MenusChanged,
            Effect::Ignored => EffectView::Ignored,
        }
    }
}

/// The menus once the action has been handled: toggling a panel flips it,
/// every other action leaves the menus alone.
pub open spec fn menus_after(menus: Map<MenuId, bool>, action: ClickActionView) -> Map<
    MenuId,
    bool,
> {
    match action {
        ClickActionView::ToggleMenu(id) => MenuState::after_toggle(menus, id),
        _ => menus,
    }
}

/// What handling the action leaves to the caller.
pub open spec fn effect_of(action: ClickActionView) -> EffectView {
    match action {
        ClickActionView::SpawnSoldier { rank, role, side } => EffectView::Spawn(
            fresh_soldier(rank, role, side),
        ),
        ClickActionView::ToggleMenu(_) => EffectView::MenusChanged,
        _ => EffectView::Ignored,
    }
}

/// Carries out the action of a button that was pressed.
pub fn handle_action(menus: &mut MenuState, action: &ClickAction) -> (effect: Effect)
    ensures
        final(menus)@ == menus_after(old(menus)@, action@),
        effect@ == effect_of(action@),
{
    match action {
        ClickAction::SpawnSoldier { rank, role, side } => Effect::Spawn(
            spawn_soldier(*rank, *role, *side),
        ),
        ClickAction::ToggleMenu(id) => {
            menus.toggle(*id);
            Effect::MenusChanged
        },
        ClickAction::SelectUnit => Effect::Ignored,
        ClickAction::SelectBuilding => Effect::Ignored,
        ClickAction::OpenMenu(_) => Effect::Ignored,
        ClickAction::CloseMenu => Effect::Ignored,
        ClickAction::Custom(_) => Effect::Ignored,
    }
}

/// What the pointer is doing to a button.
#[derive(Clone, Copy, Debug, PartialEq, Eq, Structural)]
pub enum Interaction {
    /// The button is held down.
    Pressed,
    /// The pointer is over the button.
    Hovered,
    /// The pointer is elsewhere.
    Idle,
}

/// The background a button shows: green while pressed, a lighter grey under
/// the pointer, dark grey otherwise.
pub open spec fn feedback_color(interaction: Interaction) -> Color {
    match interaction {
        Interaction::Pressed => Color { red: 35, green: 75, blue: 35 },
        Interaction::Hovered => Color { red: 25, green: 25, blue: 25 },
        Interaction::Idle => Color { red: 15, green: 15, blue: 15 },
    }
}

/// The background of a button in the given state.
pub fn button_background(interaction: Interaction) -> (color: Color)
    ensures
        color == feedback_color(interaction),
{
    match interaction {
        Interaction::Pressed => Color { red: 35, green: 75, blue: 35 },
        Interaction::Hovered => Color { red: 25, green: 25, blue: 25 },
        Interaction::Idle => Color { red: 15, green: 15, blue: 15 },
    }
}

/// Answers a change in what the pointer does to a button. A press carries
/// out the button's action; in every case the button gets the background
/// that shows its state.
pub fn interaction_system(
    menus: &mut MenuState,
    interaction: Interaction,
    action: &ClickAction,
) -> (answer: (Color, Option<Effect>))
    ensures
        answer.0 == feedback_color(interaction),
        interaction is Pressed ==> final(menus)@ == menus_after(old(menus)@, action@),
        interaction is Pressed ==> answer.1 is Some && answer.1->0@ == effect_of(action@),
        !(interaction is Pressed) ==> final(menus)@ == old(menus)@,
        !(interaction is Pressed) ==> answer.1 is None,
{
    let effect = match interaction {
        Interaction::Pressed => Some(handle_action(menus, action)),
        Interaction::Hovered => None,
        Interaction::Idle => None,
    };
    (button_background(interaction), effect)
}

/// How a button is to look and what it does.
#[derive(Clone, Debug, PartialEq, Eq)]
pub struct ButtonConfig {
    pub label: String,
    pub action: ClickAction,
    /// Width in pixels.
    pub width: u32,
    /// Height in pixels.
    pub height: u32,
    /// The background, where it is not the usual one.
    pub bg_color: Option<Color>,
    /// The size of the label in pixels, where it is not the usual one.
    pub text_size: Option<u32>,
}

/// The mathematical value of a [`ButtonConfig`].
pub struct ButtonConfigView {
    pub label: Seq<char>,
    pub action: ClickActionView,
    pub width: u32,
    pub height: u32,
    pub bg_color: Option<Color>,
    pub text_size: Option<u32>,
}

impl View for ButtonConfig {
    type V = ButtonConfigView;

    open spec fn view(&self) -> ButtonConfigView {
        ButtonConfigView {
            label: self.label@,
            action: self.action@,
            width: self.width,
            height: self.height,
            bg_color: self.bg_color,
            text_size: self.text_size,
        }
    }
}

impl ButtonConfig {
    /// A button of the usual size and look, labelled "Button", whose action
    /// is an empty note.
    pub open spec fn spec_default() -> ButtonConfigView {
        ButtonConfigView {
            label: "Button"@,
            action: ClickActionView::Custom(Seq::empty()),
            width: 150,
            height: 65,
            bg_color: None,
            text_size: None,
        }
    }
}

impl Default for ButtonConfig {
    fn default() -> (config: ButtonConfig)
        ensures
            config@ == ButtonConfig::spec_default(),
    {
        ButtonConfig {
            label: "Button".to_string(),
            action: ClickAction::Custom(String::new()),
            width: 150,
            height: 65,
            bg_color: None,
            text_size: None,
        }
    }
}

/// A button as it is put on display: a bordered box that holds the label.
#[derive(Clone, Debug, PartialEq, Eq)]
pub struct ButtonNode {
    /// Width in pixels.
    pub width: u32,
    /// Height in pixels.
    pub height: u32,
    /// Width of the border on every side, in pixels.
    pub border: u32,
    pub border_color: Color,
    pub background: Color,
    pub action: ClickAction,
    pub label: String,
    /// The size of the label in pixels.
    pub text_size: u32,
    pub text_color: Color,
}

/// The mathematical value of a [`ButtonNode`].
pub struct ButtonNodeView {
    pub width: u32,
    pub height: u32,
    pub border: u32,
    pub border_color: Color,
    pub background: Color,
    pub action: ClickActionView,
    pub label: Seq<char>,
    pub text_size: u32,
    pub text_color: Color,
}

impl View for ButtonNode {
    type V = ButtonNodeView;

    open spec fn view(&self) -> ButtonNodeView {
        ButtonNodeView {
            width: self.width,
            height: self.height,
            border: self.border,
            border_color: self.border_color,
            background: self.background,
            action: self.action@,
            label: self.label@,
            text_size: self.text_size,
            text_color: self.text_color,
        }
    }
}

/// The button that the configuration describes: a black border of five
/// pixels and a light grey label; the background and the label's size are
/// the usual ones (that of an idle button, and twenty pixels) unless the
/// configuration names others.
pub open spec fn button_node(config: ButtonConfigView) -> ButtonNodeView {
    ButtonNodeView {
        width: config.width,
        height: config.height,
        border: 5,
        border_color: Color { red: 0, green: 0, blue: 0 },
        background: match config.bg_color {
            Some(color) => color,
            None => feedback_color(Interaction::Idle),
        },
        action: config.action,
        label: config.label,
        text_size: match config.text_size {
            Some(size) => size,
            None => 20,
        },
        text_color: Color { red: 90, green: 90, blue: 90 },
    }
}

/// Lays out the button that the configuration describes.
pub fn spawn_button(config: ButtonConfig) -> (node: ButtonNode)
    ensures
        node@ == button_node(config@),
{
    let background = match config.bg_color {
        Some(color) => color,
        None => button_background(Interaction::Idle),
    };
    let text_size = match config.text_size {
        Some(size) => size,
        None => 20,
    };
    ButtonNode {
        width: config.width,
        height: config.height,
        border: 5,
        border_color: Color { red: 0, green: 0, blue: 0 },
        background,
        action: config.action,
        label: config.label,
        text_size,
        text_color: Color { red: 90, green: 90, blue: 90 },
    }
}

/// The mathematical values of a row of buttons.
pub open spec fn config_views(buttons: Seq<ButtonConfig>) -> Seq<ButtonConfigView> {
    buttons.map_values(|config: ButtonConfig| config@)
}

} // verus!
