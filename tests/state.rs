use decision_flow::state::{get_message, hello, set_message, write_all, SharedText};

#[test]
fn hello_greets() {
    assert_eq!(hello(), "Hello, world!");
}

#[test]
fn fresh_cell_reads_empty() {
    let cell = SharedText::new();
    assert_eq!(cell.read(), "");
    assert_eq!(get_message(&cell), "");
}

#[test]
fn message_set_and_read() {
    for name in ["Sirio", "Andromeda", "Altair", "Polluce"] {
        let mut cell = SharedText::new();
        assert_eq!(get_message(&cell), "");
        set_message(name.to_string(), &mut cell);
        assert_eq!(get_message(&cell), name);
    }
}

#[test]
fn last_of_several_writes_wins() {
    let mut cell = SharedText::new();
    cell.write("first".to_string());
    cell.write("second".to_string());
    cell.write("third".to_string());
    assert_eq!(cell.read(), "third");
}

#[test]
fn write_all_keeps_the_last() {
    let mut cell = SharedText::new();
    let ws = vec!["a".to_string(), "bb".to_string(), "ccc".to_string()];
    write_all(&mut cell, &ws);
    assert_eq!(cell.read(), "ccc");
    write_all(&mut cell, &Vec::new());
    assert_eq!(cell.read(), "ccc");
}

#[test]
fn writing_twice_is_writing_once() {
    let mut cell = SharedText::new();
    cell.write("x".to_string());
    cell.write("x".to_string());
    assert_eq!(cell.read(), "x");
}

#[test]
fn empty_write_clears() {
    let mut cell = SharedText::new();
    cell.write("kept".to_string());
    cell.write(String::new());
    assert_eq!(cell.read(), "");
}
