use tactical_game::actions::{handle_action, ButtonConfig, ClickAction, Effect};
use tactical_game::scenes::mission::{
    setup_mission_ui, toggle_menu_button, update_menu_visibility, Menu, MenuId, MenuPanel,
    MenuState, MissionScreenRoot, Visibility,
};
use tactical_game::ui::{setup_unit_bar, spawn_soldier_button};
use tactical_game::units::{Rank, Role, Side};

fn spawn_config(label: &str, rank: Rank, role: Role) -> ButtonConfig {
    ButtonConfig {
        label: label.to_string(),
        action: ClickAction::SpawnSoldier { rank, role, side: Side::Blue },
        width: 150,
        height: 65,
        bg_color: None,
        text_size: None,
    }
}

fn toggle_config(label: &str, id: MenuId) -> ButtonConfig {
    ButtonConfig {
        label: label.to_string(),
        action: ClickAction::ToggleMenu(id),
        width: 180,
        height: 50,
        bg_color: None,
        text_size: None,
    }
}

#[test]
fn the_unit_bar_has_three_spawn_buttons() {
    assert_eq!(
        setup_unit_bar(),
        vec![
            spawn_config("Spawn Private", Rank::Private, Role::Rifleman),
            spawn_config("Spawn Sergeant", Rank::Sergeant, Role::Rifleman),
            spawn_config("Spawn Medic", Rank::Private, Role::Medic),
        ]
    );
}

#[test]
fn a_spawn_button_fields_for_blue() {
    assert_eq!(
        spawn_soldier_button("Spawn Colonel", Rank::Colonel, Role::Communications),
        spawn_config("Spawn Colonel", Rank::Colonel, Role::Communications)
    );
}

#[test]
fn a_sidebar_button_toggles_its_menu() {
    assert_eq!(
        toggle_menu_button("M", MenuId::Meta),
        toggle_config("M", MenuId::Meta)
    );
}

#[test]
fn the_mission_screen_has_a_sidebar_and_a_unit_bar() {
    assert_eq!(
        setup_mission_ui(),
        vec![
            MenuPanel {
                menu: Menu { id: MenuId::Meta },
                buttons: vec![
                    toggle_config("U", MenuId::Unit),
                    toggle_config("S", MenuId::Settings),
                ],
            },
            MenuPanel {
                menu: Menu { id: MenuId::Unit },
                buttons: vec![
                    spawn_config("Spawn Private", Rank::Private, Role::Rifleman),
                    spawn_config("Spawn Sergeant", Rank::Sergeant, Role::Rifleman),
                    spawn_config("Spawn Medic", Rank::Private, Role::Medic),
                ],
            },
        ]
    );
}

#[test]
fn the_screen_has_five_buttons() {
    let buttons: usize = setup_mission_ui().iter().map(|panel| panel.buttons.len()).sum();
    assert_eq!(buttons, 5);
}

#[test]
fn the_mission_starts_with_the_sidebar_shown_and_the_unit_bar_hidden() {
    let state = MenuState::new();
    let mut panels: Vec<(Menu, Visibility)> = setup_mission_ui()
        .iter()
        .map(|panel| (panel.menu, Visibility::Inherited))
        .collect();
    update_menu_visibility(&state, true, &mut panels);
    assert_eq!(
        panels,
        vec![
            (Menu { id: MenuId::Meta }, Visibility::Visible),
            (Menu { id: MenuId::Unit }, Visibility::Hidden),
        ]
    );
}

#[test]
fn pressing_the_first_sidebar_button_shows_the_unit_bar() {
    let mut state = MenuState::new();
    let ui = setup_mission_ui();
    let effect = handle_action(&mut state, &ui[0].buttons[0].action);
    assert_eq!(effect, Effect::MenusChanged);
    let mut panels: Vec<(Menu, Visibility)> = ui
        .iter()
        .map(|panel| (panel.menu, Visibility::Inherited))
        .collect();
    update_menu_visibility(&state, true, &mut panels);
    assert_eq!(panels[0].1, Visibility::Visible);
    assert_eq!(panels[1].1, Visibility::Visible);
}

#[test]
fn the_root_marker_is_a_plain_value() {
    assert_eq!(MissionScreenRoot, MissionScreenRoot);
}
