use std::cmp::Ordering;
use tactical_game::scenes::mission::spawn_soldier;
use tactical_game::units::{
    Allegiance, Health, Inventory, Item, Mobility, Position, Rank, Role, Side, Soldier,
};

const RANKS: [Rank; 5] = [
    Rank::Private,
    Rank::Sergeant,
    Rank::Lieutenant,
    Rank::Colonel,
    Rank::Commander,
];
const ROLES: [Role; 3] = [Role::Rifleman, Role::Communications, Role::Medic];
const SIDES: [Side; 2] = [Side::Blue, Side::Red];

#[test]
fn every_soldier_starts_unharmed_and_unladen() {
    for rank in RANKS {
        for role in ROLES {
            for side in SIDES {
                let bundle = spawn_soldier(rank, role, side);
                assert_eq!(bundle.health, Health { current: 100, max: 100 });
                assert!(bundle.inventory.items.is_empty());
            }
        }
    }
}

#[test]
fn a_soldier_keeps_rank_role_and_side() {
    for rank in RANKS {
        for role in ROLES {
            for side in SIDES {
                let bundle = spawn_soldier(rank, role, side);
                assert_eq!(bundle.soldier, Soldier { rank, role });
                assert_eq!(bundle.allegiance, Allegiance { side });
            }
        }
    }
}

#[test]
fn a_soldier_moves_at_speed_ten() {
    let bundle = spawn_soldier(Rank::Lieutenant, Role::Communications, Side::Red);
    assert_eq!(bundle.mobility, Mobility { speed: 10 });
    assert_eq!(bundle.health.current, 100);
    assert_eq!(bundle.health.max, 100);
    assert_eq!(bundle.inventory, Inventory { items: vec![] });
}

#[test]
fn seniority_counts_from_private() {
    assert_eq!(Rank::Private.seniority(), 0);
    assert_eq!(Rank::Sergeant.seniority(), 1);
    assert_eq!(Rank::Lieutenant.seniority(), 2);
    assert_eq!(Rank::Colonel.seniority(), 3);
    assert_eq!(Rank::Commander.seniority(), 4);
}

#[test]
fn ranks_compare_as_their_seniority() {
    for a in RANKS {
        for b in RANKS {
            assert_eq!(a < b, a.seniority() < b.seniority());
            assert_eq!(a <= b, a.seniority() <= b.seniority());
            assert_eq!(a == b, a.seniority() == b.seniority());
            assert_eq!(a.partial_cmp(&b), Some(a.seniority().cmp(&b.seniority())));
        }
    }
}

#[test]
fn the_total_order_of_ranks_agrees_with_the_partial_one() {
    for a in RANKS {
        for b in RANKS {
            assert_eq!(Some(a.cmp(&b)), a.partial_cmp(&b));
        }
    }
    assert_eq!(Rank::Private.cmp(&Rank::Commander), Ordering::Less);
    assert_eq!(Rank::Colonel.cmp(&Rank::Sergeant), Ordering::Greater);
    assert_eq!(RANKS.iter().max(), Some(&Rank::Commander));
    assert_eq!(RANKS.iter().min(), Some(&Rank::Private));
}

#[test]
fn an_inventory_keeps_its_items_in_order() {
    let inventory = Inventory {
        items: vec![
            Item { name: "rifle".to_string() },
            Item { name: "radio".to_string() },
        ],
    };
    let names: Vec<&str> = inventory.items.iter().map(|item| item.name.as_str()).collect();
    assert_eq!(names, vec!["rifle", "radio"]);
}

#[test]
fn a_position_has_three_coordinates() {
    let position = Position { x: -3, y: 7, z: 0 };
    assert_eq!((position.x, position.y, position.z), (-3, 7, 0));
}
