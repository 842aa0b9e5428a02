//! The mission screen: its menu panels, and the soldiers fielded from it.

use crate::actions::{config_views, ButtonConfig, ButtonConfigView, ClickAction, ClickActionView};
use crate::ui::{setup_unit_bar, unit_bar};
use crate::units::{
    Allegiance, Health, Inventory, Mobility, Rank, Role, Side, Soldier, SoldierBundle,
    SoldierBundleView,
};
use std::collections::HashMap;
use vstd::prelude::*;

verus! {

broadcast use vstd::std_specs::hash::group_hash_axioms;

/// Marks the root of everything the mission screen has put on display.
#[derive(Clone, Copy, Debug, PartialEq, Eq, Structural)]
pub struct MissionScreenRoot;

/// The menu panels of the mission screen.
#[derive(Clone, Copy, Debug, PartialEq, Eq, Hash, Structural)]
pub enum MenuId {
    Meta,
    Unit,
    Settings,
}

impl MenuId {
    /// The number a panel is filed under.
    spec fn spec_key(self) -> u8 {
        match self {
            MenuId::Meta => 0,
            MenuId::Unit => 1,
            MenuId::Settings => 2,
        }
    }

    /// The number a panel is filed under: no two panels share one.
    #[verifier::when_used_as_spec(spec_key)]
    fn key(self) -> (key: u8)
        ensures
            key == self.spec_key(),
    {
        match self {
            MenuId::Meta => 0,
            MenuId::Unit => 1,
            MenuId::Settings => 2,
        }
    }
}

/// Marks a panel on display as the given menu.
#[derive(Clone, Copy, Debug, PartialEq, Eq, Structural)]
pub struct Menu {
    pub id: MenuId,
}

/// Which menus are open.
pub struct MenuState {
    states: HashMap<u8, bool>,
}

impl View for MenuState {
    type V = Map<MenuId, bool>;

    /// For every menu, whether it is open. A menu without an entry counts as
    /// closed.
    closed spec fn view(&self) -> Map<MenuId, bool> {
        Map::total(|id: MenuId| self.states@.contains_key(id.key()) && self.states@[id.key()])
    }
}

impl MenuState {
    /// The state a mission starts in: only the meta menu is open.
    pub open spec fn initial() -> Map<MenuId, bool> {
        Map::total(|id: MenuId| id == MenuId::Meta)
    }

    /// The menus after `id` went from open to closed or from closed to open.
    pub open spec fn after_toggle(menus: Map<MenuId, bool>, id: MenuId) -> Map<MenuId, bool> {
        menus.insert(id, !menus[id])
    }

    /// The menus after `id` was opened.
    pub open spec fn after_open(menus: Map<MenuId, bool>, id: MenuId) -> Map<MenuId, bool> {
        menus.insert(id, true)
    }

    /// The menus after `id` was closed.
    pub open spec fn after_close(menus: Map<MenuId, bool>, id: MenuId) -> Map<MenuId, bool> {
        menus.insert(id, false)
    }

    /// The view says of every menu whether it is open.
    pub proof fn lemma_view_is_total(&self)
        ensures
            forall|id: MenuId| self@.contains_key(id),
    {
    }

    /// A mission starts with the meta menu open and the others closed.
    pub proof fn lemma_initial()
        ensures
            Self::initial()[MenuId::Meta],
            !Self::initial()[MenuId::Unit],
            !Self::initial()[MenuId::Settings],
    {
    }

    /// Toggling a menu flips its flag and no other.
    pub proof fn lemma_toggle_flips(menus: Map<MenuId, bool>, id: MenuId)
        ensures
            Self::after_toggle(menus, id)[id] == !menus[id],
            forall|other: MenuId|
                other != id ==> Self::after_toggle(menus, id)[other] == menus[other],
    {
    }

    /// Each toggle flips the flag once: two in a row leave the menus as they
    /// were.
    pub proof fn lemma_toggle_twice(menus: Map<MenuId, bool>, id: MenuId)
        requires
            menus.contains_key(id),
        ensures
            Self::after_toggle(Self::after_toggle(menus, id), id) == menus,
    {
        assert(Self::after_toggle(Self::after_toggle(menus, id), id) =~= menus);
    }

    /// Opening a menu leaves it open whatever it was before, and touches no
    /// other.
    pub proof fn lemma_open_sets(menus: Map<MenuId, bool>, id: MenuId)
        ensures
            Self::after_open(menus, id)[id],
            forall|other: MenuId|
                other != id ==> Self::after_open(menus, id)[other] == menus[other],
    {
    }

    /// Closing a menu leaves it closed whatever it was before, and touches no
    /// other.
    pub proof fn lemma_close_sets(menus: Map<MenuId, bool>, id: MenuId)
        ensures
            !Self::after_close(menus, id)[id],
            forall|other: MenuId|
                other != id ==> Self::after_close(menus, id)[other] == menus[other],
    {
    }

    /// Only the meta menu is open.
    pub fn new() -> (state: MenuState)
        ensures
            state@ == Self::initial(),
    {
        let mut states: HashMap<u8, bool> = HashMap::new();
        states.insert(MenuId::Meta.key(), true);
        states.insert(MenuId::Unit.key(), false);
        states.insert(MenuId::Settings.key(), false);
        let state = MenuState { states };
        assert(state@ =~= Self::initial());
        state
    }

    /// Whether the menu is open.
    pub fn is_open(&self, id: MenuId) -> (open: bool)
        ensures
            open == self@[id],
    {
        let key = id.key();
        match self.states.get(&key) {
            Some(open) => *open,
            None => false,
        }
    }

    /// Opens the menu if it is closed, closes it if it is open. The other
    /// menus stay as they are.
    pub fn toggle(&mut self, id: MenuId)
        ensures
            final(self)@ == Self::after_toggle(old(self)@, id),
    {
        let open = self.is_open(id);
        self.states.insert(id.key(), !open);
        assert(self@ =~= old(self)@.insert(id, !old(self)@[id]));
    }

    /// Opens the menu, whatever it was. The other menus stay as they are.
    pub fn open(&mut self, id: MenuId)
        ensures
            final(self)@ == Self::after_open(old(self)@, id),
    {
        self.states.insert(id.key(), true);
        assert(self@ =~= old(self)@.insert(id, true));
    }

    /// Closes the menu, whatever it was. The other menus stay as they are.
    pub fn close(&mut self, id: MenuId)
        ensures
            final(self)@ == Self::after_close(old(self)@, id),
    {
        self.states.insert(id.key(), false);
        assert(self@ =~= old(self)@.insert(id, false));
    }
}

/// Whether a panel is drawn.
#[derive(Clone, Copy, Debug, PartialEq, Eq, Structural)]
pub enum Visibility {
    /// As the panel it sits in.
    Inherited,
    /// Not drawn.
    Hidden,
    /// Drawn.
    Visible,
}

/// An open menu is drawn, a closed one is hidden.
pub open spec fn menu_visibility(open: bool) -> Visibility {
    if open {
        Visibility::Visible
    } else {
        Visibility::Hidden
    }
}

/// The panels with each one drawn or hidden as its menu is open or closed.
pub open spec fn refreshed(menus: Map<MenuId, bool>, panels: Seq<(Menu, Visibility)>) -> Seq<
    (Menu, Visibility),
> {
    panels.map_values(|panel: (Menu, Visibility)| (panel.0, menu_visibility(menus[panel.0.id])))
}

/// Brings the panels in line with the menu state. Where the state has not
/// changed since the last pass, the panels are left as they are.
pub fn update_menu_visibility(
    menu_state: &MenuState,
    changed: bool,
    panels: &mut Vec<(Menu, Visibility)>,
)
    ensures
        changed ==> final(panels)@ == refreshed(menu_state@, old(panels)@),
        !changed ==> final(panels)@ == old(panels)@,
{
    if !changed {
        return ;
    }
    let mut i: usize = 0;
    while i < panels.len()
        invariant
            i <= panels.len(),
            panels.len() == old(panels).len(),
            forall|j: int|
                0 <= j < i ==> panels@[j] == (
                    old(panels)@[j].0,
                    menu_visibility(menu_state@[old(panels)@[j].0.id]),
                ),
            forall|j: int| i <= j < panels.len() ==> panels@[j] == old(panels)@[j],
        decreases panels.len() - i,
    {
        let menu = panels[i].0;
        let visibility = if menu_state.is_open(menu.id) {
            Visibility::Visible
        } else {
            Visibility::Hidden
        };
        panels.set(i, (menu, visibility));
        i += 1;
    }
    assert(panels@ =~= refreshed(menu_state@, old(panels)@));
}

/// A soldier as it enters the field: unharmed, at marching speed, carrying
/// nothing.
pub open spec fn fresh_soldier(rank: Rank, role: Role, side: Side) -> SoldierBundleView {
    SoldierBundleView {
        soldier: Soldier { rank, role },
        allegiance: Allegiance { side },
        health: Health { current: 100, max: 100 },
        mobility: Mobility { speed: 10 },
        inventory: Seq::empty(),
    }
}

/// Whatever the rank, role and side, a soldier enters the field with 100 of
/// 100 hit points and an empty inventory.
pub proof fn lemma_fresh_soldier(rank: Rank, role: Role, side: Side)
    ensures
        fresh_soldier(rank, role, side).health == (Health { current: 100, max: 100 }),
        fresh_soldier(rank, role, side).inventory.len() == 0,
        fresh_soldier(rank, role, side).soldier == (Soldier { rank, role }),
        fresh_soldier(rank, role, side).allegiance == (Allegiance { side }),
{
}

/// Makes up a soldier of the given rank, role and side.
pub fn spawn_soldier(rank: Rank, role: Role, side: Side) -> (bundle: SoldierBundle)
    ensures
        bundle@ == fresh_soldier(rank, role, side),
        bundle.inventory.items@.len() == 0,
{
    let bundle = SoldierBundle {
        soldier: Soldier { rank, role },
        allegiance: Allegiance { side },
        health: Health { current: 100, max: 100 },
        mobility: Mobility { speed: 10 },
        inventory: Inventory { items: Vec::new() },
    };
    assert(bundle.inventory@ =~= Seq::empty());
    bundle
}

/// A menu panel of the mission screen and the buttons it holds.
#[derive(Clone, Debug, PartialEq, Eq)]
pub struct MenuPanel {
    pub menu: Menu,
    pub buttons: Vec<ButtonConfig>,
}

/// The mathematical value of a [`MenuPanel`].
pub struct MenuPanelView {
    pub menu: Menu,
    pub buttons: Seq<ButtonConfigView>,
}

impl View for MenuPanel {
    type V = MenuPanelView;

    open spec fn view(&self) -> MenuPanelView {
        MenuPanelView { menu: self.menu, buttons: config_views(self.buttons@) }
    }
}

/// A sidebar button: it opens or closes a menu, and is wider and flatter
/// than the usual button.
pub open spec fn toggle_config(label: Seq<char>, id: MenuId) -> ButtonConfigView {
    ButtonConfigView {
        label,
        action: ClickActionView::ToggleMenu(id),
        width: 180,
        height: 50,
        ..ButtonConfig::spec_default()
    }
}

/// The buttons of the sidebar, from top to bottom.
pub open spec fn sidebar() -> Seq<ButtonConfigView> {
    seq![toggle_config("U"@, MenuId::Unit), toggle_config("S"@, MenuId::Settings)]
}

/// The panels of the mission screen: the sidebar, which is the meta menu,
/// and the unit bar, which is the unit menu.
pub open spec fn mission_ui() -> Seq<MenuPanelView> {
    seq![
        MenuPanelView { menu: Menu { id: MenuId::Meta }, buttons: sidebar() },
        MenuPanelView { menu: Menu { id: MenuId::Unit }, buttons: unit_bar() },
    ]
}

/// The mission screen offers five buttons: two in the sidebar, three in the
/// unit bar.
pub proof fn lemma_five_buttons()
    ensures
        mission_ui().len() == 2,
        mission_ui()[0].buttons.len() == 2,
        mission_ui()[1].buttons.len() == 3,
{
}

/// The mathematical values of a row of panels.
pub open spec fn panel_views(panels: Seq<MenuPanel>) -> Seq<MenuPanelView> {
    panels.map_values(|panel: MenuPanel| panel@)
}

/// A sidebar button that opens or closes a menu.
pub fn toggle_menu_button(label: &str, id: MenuId) -> (config: ButtonConfig)
    ensures
        config@ == toggle_config(label@, id),
{
    let mut config = ButtonConfig::default();
    config.label = label.to_string();
    config.action = ClickAction::ToggleMenu(id);
    config.width = 180;
    config.height = 50;
    config
}

/// The panels of the mission screen with their buttons.
pub fn setup_mission_ui() -> (panels: Vec<MenuPanel>)
    ensures
        panel_views(panels@) == mission_ui(),
        panels@.len() == 2,
{
    let mut side: Vec<ButtonConfig> = Vec::new();
    side.push(toggle_menu_button("U", MenuId::Unit));
    side.push(toggle_menu_button("S", MenuId::Settings));
    assert(config_views(side@) =~= sidebar());

    let mut panels: Vec<MenuPanel> = Vec::new();
    panels.push(MenuPanel { menu: Menu { id: MenuId::Meta }, buttons: side });
    panels.push(MenuPanel { menu: Menu { id: MenuId::Unit }, buttons: setup_unit_bar() });
    assert(panel_views(panels@) =~= mission_ui());
    panels
}

} // verus!
