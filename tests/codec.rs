use todui::todo::{deserialize_todos, serialize_todos, Todo};

fn item(description: &str, completed: bool) -> Todo {
    Todo { description: description.to_string(), completed }
}

fn pairs(todos: &[Todo]) -> Vec<(String, bool)> {
    todos.iter().map(|t| (t.description.clone(), t.completed)).collect()
}

#[test]
fn persistence_scenario() {
    let todos = deserialize_todos("- [ ] buy milk\n- [x] pay rent\ngarbage line\n");
    assert_eq!(
        pairs(&todos),
        vec![("buy milk".to_string(), false), ("pay rent".to_string(), true)]
    );
}

#[test]
fn round_trip_of_a_list() {
    let todos = vec![item("buy milk", false), item("pay rent", true), item("", false), item(" x ", true)];
    let text = serialize_todos(&todos);
    assert_eq!(text, "- [ ] buy milk\n- [x] pay rent\n- [ ] \n- [x]  x \n");
    assert_eq!(pairs(&deserialize_todos(&text)), pairs(&todos));
}

#[test]
fn empty_list_and_empty_text() {
    assert_eq!(serialize_todos(&Vec::new()), "");
    assert!(deserialize_todos("").is_empty());
    assert!(deserialize_todos("\n\n").is_empty());
}

#[test]
fn line_without_trailing_newline_is_read() {
    let todos = deserialize_todos("- [X] last");
    assert_eq!(pairs(&todos), vec![("last".to_string(), true)]);
}

#[test]
fn item_text_and_line() {
    assert_eq!(item("a b", false).to_string(), "[ ] a b");
    assert_eq!(item("a b", true).to_string(), "[x] a b");
    assert_eq!(item("a b", true).serialize(), "- [x] a b");
    assert_eq!(item("", false).serialize(), "- [ ] ");
}

#[test]
fn deserialize_one_line() {
    let t = Todo::deserialize("- [X] Shout ").unwrap();
    assert_eq!(t.description, "Shout ");
    assert!(t.completed);
    let t = Todo::deserialize("note: - [ ] inner - [x] not this").unwrap();
    assert_eq!(t.description, "inner - [x] not this");
    assert!(!t.completed);
    assert!(Todo::deserialize("- [y] no").is_none());
    assert!(Todo::deserialize("- [x]").is_none());
    assert!(Todo::deserialize("-  [x] no").is_none());
    assert!(Todo::deserialize("").is_none());
}

#[test]
fn new_item_is_trimmed_and_incomplete() {
    let t = Todo::new("  buy milk \t");
    assert_eq!(t.description, "buy milk");
    assert!(!t.completed);
}
