use adventure::session::{Event, Model, ENTER_KEY};

fn submit(model: &mut Model, text: &str) {
    model.update(Event::EditChange(text.to_string()));
    model.update(Event::KeyPressed(ENTER_KEY));
}

#[test]
fn new_game_starts_in_the_crater() {
    let model = Model::default();
    assert_eq!(model.current_room(), "The Crater");
    assert_eq!(model.get_curr_room().name, "The Crater");
    assert_eq!(model.response_text(), "");
    assert_eq!(model.edit_text(), "");
    assert!(model.rooms().get(&"The Crashed Ship".to_string()).is_some());
}

#[test]
fn north_from_the_crater_reaches_the_ship() {
    let mut model = Model::default();
    submit(&mut model, "north");
    assert_eq!(model.current_room(), "The Crashed Ship");
    assert_eq!(model.get_curr_room().name, "The Crashed Ship");
    assert_eq!(model.response_text(), "");
    assert_eq!(model.edit_text(), "");
}

#[test]
fn south_from_the_crater_is_blocked() {
    let mut model = Model::default();
    submit(&mut model, "south");
    assert_eq!(model.current_room(), "The Crater");
    assert_eq!(model.response_text(), "You can't go that way!");
    assert_eq!(model.edit_text(), "");
}

#[test]
fn unknown_word_is_not_understood() {
    let mut model = Model::default();
    submit(&mut model, "banana");
    assert_eq!(model.current_room(), "The Crater");
    assert_eq!(model.response_text(), "I did not understand!");
    assert_eq!(model.edit_text(), "");
}

#[test]
fn repeated_empty_commits_change_nothing() {
    let mut model = Model::default();
    for _ in 0..3 {
        model.process_key_press(ENTER_KEY);
        assert_eq!(model.current_room(), "The Crater");
        assert_eq!(model.response_text(), "I did not understand!");
        assert_eq!(model.edit_text(), "");
    }
}

#[test]
fn reply_is_cleared_by_a_successful_move() {
    let mut model = Model::default();
    submit(&mut model, "south");
    assert_eq!(model.response_text(), "You can't go that way!");
    submit(&mut model, "Go NORTH");
    assert_eq!(model.current_room(), "The Crashed Ship");
    assert_eq!(model.response_text(), "");
    submit(&mut model, "south");
    assert_eq!(model.current_room(), "The Crater");
}

#[test]
fn other_keys_and_edits_do_not_submit() {
    let mut model = Model::default();
    model.update(Event::EditChange("north".to_string()));
    assert_eq!(model.edit_text(), "north");
    model.update(Event::KeyPressed(65));
    assert_eq!(model.current_room(), "The Crater");
    assert_eq!(model.edit_text(), "north");
    assert_eq!(model.response_text(), "");
}
