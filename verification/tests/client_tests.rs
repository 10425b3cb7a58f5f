use snake_game::client::{extract_json, try_extract_json};
use snake_game::client::groq::GroqModels;
use snake_game::client::models::{Commands, InputContent, OutputContent, Role, suggest_commands};
use snake_game::models::Direction;

#[test]
fn extract_json_sheds_surrounding_prose() {
    let reply = "Sure! Here are the commands: {\"commands\": []} Enjoy.";
    assert_eq!(extract_json(reply), "{\"commands\": []}".to_string());
}

#[test]
fn extract_json_takes_the_first_balanced_object() {
    let reply = "x {\"a\": {\"b\": 1}} y {\"c\": 2} z";
    assert_eq!(extract_json(reply), "{\"a\": {\"b\": 1}}".to_string());
}

#[test]
fn extract_json_stops_at_balance_despite_trailing_close() {
    let reply = "{\"commands\": []} done}";
    assert_eq!(extract_json(reply), "{\"commands\": []}".to_string());
}

#[test]
fn try_extract_json_rejects_replies_without_an_object() {
    assert!(try_extract_json("no braces at all").is_none());
    assert!(try_extract_json("{\"unclosed\": [").is_none());
    assert!(try_extract_json("} {").is_none());
    assert_eq!(try_extract_json("ok {\"a\": 1}"), Some("{\"a\": 1}".to_string()));
}

#[test]
fn extract_json_keeps_a_bare_object() {
    assert_eq!(extract_json("{}"), "{}".to_string());
}

fn batch(pairs: &[(Direction, i32)]) -> Vec<Commands> {
    pairs.iter().map(|&(command, repeat)| Commands { command, repeat }).collect()
}

#[test]
fn suggestion_for_food_straight_above() {
    let out = suggest_commands(&InputContent {
        snake_head_x: 10,
        snake_head_y: 20,
        food_x: 10,
        food_y: 53,
    });
    assert_eq!(out, OutputContent { commands: batch(&[(Direction::Up, 33)]) });
}

#[test]
fn suggestion_for_food_straight_below() {
    let out = suggest_commands(&InputContent {
        snake_head_x: 20,
        snake_head_y: 121,
        food_x: 20,
        food_y: 60,
    });
    assert_eq!(out, OutputContent { commands: batch(&[(Direction::Down, 61)]) });
}

#[test]
fn suggestion_for_food_straight_left() {
    let out = suggest_commands(&InputContent {
        snake_head_x: 50,
        snake_head_y: 30,
        food_x: 1,
        food_y: 30,
    });
    assert_eq!(out, OutputContent { commands: batch(&[(Direction::Left, 49)]) });
}

#[test]
fn suggestion_goes_vertical_then_horizontal() {
    let out = suggest_commands(&InputContent {
        snake_head_x: 50,
        snake_head_y: 50,
        food_x: 10,
        food_y: 10,
    });
    assert_eq!(
        out,
        OutputContent { commands: batch(&[(Direction::Down, 40), (Direction::Left, 40)]) },
    );
}

#[test]
fn suggestion_for_food_on_head_is_empty() {
    let out = suggest_commands(&InputContent {
        snake_head_x: 7,
        snake_head_y: 7,
        food_x: 7,
        food_y: 7,
    });
    assert_eq!(out, OutputContent { commands: vec![] });
}

#[test]
fn role_wire_names() {
    assert_eq!(Role::User.as_string(), "user".to_string());
    assert_eq!(Role::System.as_string(), "system".to_string());
    assert_eq!(Role::Assistant.as_string(), "assistant".to_string());
}

#[test]
fn groq_model_identifiers() {
    assert_eq!(GroqModels::LLama3b8.as_string(), "llama3-8b-8192".to_string());
    assert_eq!(GroqModels::Llama3b70.as_string(), "llama3-70b-8192".to_string());
    assert_eq!(GroqModels::Mixtrel8b.as_string(), "Mixtral-8x7b-32768".to_string());
}
