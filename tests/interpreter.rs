use adventure::action::Verb;
use adventure::direction::Direction;
use adventure::interpreter::processCommandIntoAction;

const ALL: [Direction; 4] = [Direction::North, Direction::South, Direction::East, Direction::West];

fn read(text: &str) -> Option<Direction> {
    processCommandIntoAction(text.to_string()).map(|a| {
        assert_eq!(a.verb, Verb::Move);
        a.direction
    })
}

#[test]
fn direction_names() {
    assert_eq!(Direction::North.as_str(), "North");
    assert_eq!(Direction::South.as_str(), "South");
    assert_eq!(Direction::East.as_str(), "East");
    assert_eq!(Direction::West.as_str(), "West");
}

#[test]
fn upper_and_lower_case_names_are_read() {
    for d in ALL {
        assert_eq!(read(&d.as_str().to_uppercase()), Some(d));
        assert_eq!(read(&d.as_str().to_lowercase()), Some(d));
        assert_eq!(read(d.as_str()), Some(d));
    }
}

#[test]
fn empty_and_unknown_text_is_not_understood() {
    assert_eq!(read(""), None);
    assert_eq!(read("xyzzy"), None);
    assert_eq!(read("banana"), None);
    assert_eq!(read("nort"), None);
}

#[test]
fn direction_inside_a_sentence_is_found() {
    assert_eq!(read("go north please"), Some(Direction::North));
    assert_eq!(read("I walk to the WeSt"), Some(Direction::West));
    assert_eq!(read("southeast"), Some(Direction::South));
}

#[test]
fn first_direction_in_check_order_wins() {
    assert_eq!(read("go west then north"), Some(Direction::North));
    assert_eq!(read("east or south"), Some(Direction::South));
    assert_eq!(read("west, east"), Some(Direction::East));
}

#[test]
fn case_folding_reaches_kelvin_sign_and_long_s() {
    assert_eq!(read("\u{17F}outh"), Some(Direction::South));
    assert_eq!(read("ea\u{17F}t"), Some(Direction::East));
    assert_eq!(read("n\u{F6}rth"), None);
}
