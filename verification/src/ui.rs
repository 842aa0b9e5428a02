//! The bar from which units are fielded.

use crate::actions::{config_views, ButtonConfig, ButtonConfigView, ClickAction, ClickActionView};
use crate::units::{Rank, Role, Side};
use vstd::prelude::*;

verus! {

/// A button of the usual size and look that fields a soldier for Blue.
pub open spec fn spawn_config(label: Seq<char>, rank: Rank, role: Role) -> ButtonConfigView {
    ButtonConfigView {
        label,
        action: ClickActionView::SpawnSoldier { rank, role, side: Side::Blue },
        ..ButtonConfig::spec_default()
    }
}

/// The buttons of the unit bar, from left to right.
pub open spec fn unit_bar() -> Seq<ButtonConfigView> {
    seq![
        spawn_config("Spawn Private"@, Rank::Private, Role::Rifleman),
        spawn_config("Spawn Sergeant"@, Rank::Sergeant, Role::Rifleman),
        spawn_config("Spawn Medic"@, Rank::Private, Role::Medic),
    ]
}

/// A button of the usual size and look that fields a soldier for Blue.
pub fn spawn_soldier_button(label: &str, rank: Rank, role: Role) -> (config: ButtonConfig)
    ensures
        config@ == spawn_config(label@, rank, role),
{
    let mut config = ButtonConfig::default();
    config.label = label.to_string();
    config.action = ClickAction::SpawnSoldier { rank, role, side: Side::Blue };
    config
}

/// The buttons of the unit bar: one for a private, one for a sergeant, one
/// for a medic.
pub fn setup_unit_bar() -> (bar: Vec<ButtonConfig>)
    ensures
        config_views(bar@) == unit_bar(),
        bar@.len() == 3,
{
    let mut bar: Vec<ButtonConfig> = Vec::new();
    bar.push(spawn_soldier_button("Spawn Private", Rank::Private, Role::Rifleman));
    bar.push(spawn_soldier_button("Spawn Sergeant", Rank::Sergeant, Role::Rifleman));
    bar.push(spawn_soldier_button("Spawn Medic", Rank::Private, Role::Medic));
    assert(config_views(bar@) =~= unit_bar());
    bar
}

} // verus!
