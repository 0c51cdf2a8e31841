use adventure::direction::Direction;
use adventure::exit::Exit;
use adventure::loader::{build_rooms, CRASHED_SHIP, START_ROOM};
use adventure::navigation::{resolve_move, NavigationResult};
use adventure::room::Room;
use adventure::world::RoomMap;

fn room(name: &str, exits: &[(Direction, &str)]) -> Room {
    Room {
        name: name.to_string(),
        description: format!("You are in {}.", name),
        exits: exits
            .iter()
            .map(|(d, to)| Exit { direction: *d, goes_to: to.to_string() })
            .collect(),
    }
}

fn seeded() -> RoomMap {
    let mut map = RoomMap::new();
    build_rooms(&mut map);
    map
}

#[test]
fn exit_accessors() {
    let e = Exit { direction: Direction::East, goes_to: "Hall".to_string() };
    assert_eq!(e.get_direction(), Direction::East);
    assert_eq!(e.goes_to(), "Hall");
}

#[test]
fn summary_without_exits() {
    assert_eq!(room("Cell", &[]).describeExits(), "There is no way out!");
}

#[test]
fn summary_of_three_exits() {
    let r = room(
        "Hall",
        &[(Direction::North, "A"), (Direction::East, "B"), (Direction::West, "C")],
    );
    assert_eq!(r.describeExits(), "Exits are North, East and West");
}

#[test]
fn summary_of_one_two_and_four_exits() {
    assert_eq!(room("A", &[(Direction::South, "B")]).describeExits(), "Exits are South");
    assert_eq!(
        room("A", &[(Direction::North, "B"), (Direction::South, "C")]).describeExits(),
        "Exits are North and South"
    );
    let all = room(
        "A",
        &[
            (Direction::North, "B"),
            (Direction::South, "C"),
            (Direction::East, "D"),
            (Direction::West, "E"),
        ],
    );
    assert_eq!(all.describeExits(), "Exits are North, South, East and West");
}

#[test]
fn summary_lists_directions_in_order() {
    let r = room("A", &[(Direction::West, "B"), (Direction::North, "C")]);
    assert_eq!(r.describeExits(), "Exits are North and West");
}

#[test]
fn seed_world_rooms() {
    let map = seeded();
    let crater = map.get(&START_ROOM.to_string()).unwrap();
    assert_eq!(crater.name, "The Crater");
    assert_eq!(crater.exits.len(), 1);
    assert_eq!(crater.exits[0].direction, Direction::North);
    assert_eq!(crater.exits[0].goes_to, "The Crashed Ship");
    assert_eq!(crater.describeExits(), "Exits are North");
    let ship = map.get(&CRASHED_SHIP.to_string()).unwrap();
    assert_eq!(ship.exits[0].direction, Direction::South);
    assert_eq!(ship.exits[0].goes_to, "The Crater");
    assert!(map.get(&"The Moon".to_string()).is_none());
}

#[test]
fn insert_replaces_room_of_same_name() {
    let mut map = RoomMap::new();
    map.insert(room("A", &[(Direction::North, "B")]));
    map.insert(room("B", &[]));
    map.insert(room("A", &[(Direction::East, "B")]));
    let a = map.get(&"A".to_string()).unwrap();
    assert_eq!(a.exits.len(), 1);
    assert_eq!(a.exits[0].direction, Direction::East);
    assert!(map.get(&"B".to_string()).is_some());
}

#[test]
fn moving_through_an_exit() {
    let map = seeded();
    assert_eq!(
        resolve_move(&map, &START_ROOM.to_string(), Direction::North),
        NavigationResult::Moved("The Crashed Ship".to_string())
    );
    assert_eq!(
        resolve_move(&map, &CRASHED_SHIP.to_string(), Direction::South),
        NavigationResult::Moved("The Crater".to_string())
    );
}

#[test]
fn moving_where_there_is_no_exit() {
    let map = seeded();
    for d in [Direction::South, Direction::East, Direction::West] {
        assert_eq!(resolve_move(&map, &START_ROOM.to_string(), d), NavigationResult::Blocked);
    }
}

#[test]
fn every_exit_of_a_room_is_followed() {
    let mut map = RoomMap::new();
    map.insert(room(
        "Hub",
        &[(Direction::West, "W"), (Direction::North, "N"), (Direction::East, "E")],
    ));
    let hub = "Hub".to_string();
    assert_eq!(resolve_move(&map, &hub, Direction::West), NavigationResult::Moved("W".to_string()));
    assert_eq!(resolve_move(&map, &hub, Direction::North), NavigationResult::Moved("N".to_string()));
    assert_eq!(resolve_move(&map, &hub, Direction::East), NavigationResult::Moved("E".to_string()));
    assert_eq!(resolve_move(&map, &hub, Direction::South), NavigationResult::Blocked);
}
