use todui::storage::{data_dir, DataDir};

#[test]
fn override_directory_wins() {
    let r = data_dir(Some("/o".to_string()), Some("/d".to_string()));
    assert_eq!(r, DataDir::Override("/o".to_string()));
}

#[test]
fn data_home_then_home() {
    assert_eq!(data_dir(None, Some("/d".to_string())), DataDir::DataHome("/d".to_string()));
    assert_eq!(data_dir(None, None), DataDir::Home);
}
