use krusty_grab::save::{save_file_name, with_extension};

#[test]
fn epoch_file_name() {
    assert_eq!(save_file_name(0, "png"), Some("1970_01_01-00_00_00.png".to_string()));
}

#[test]
fn recent_time_file_name() {
    assert_eq!(save_file_name(1_700_000_000, "jpg"), Some("2023_11_14-22_13_20.jpg".to_string()));
}

#[test]
fn time_before_epoch() {
    assert_eq!(save_file_name(-1, "gif"), Some("1969_12_31-23_59_59.gif".to_string()));
}

#[test]
fn empty_format_adds_no_extension() {
    assert_eq!(save_file_name(0, ""), Some("1970_01_01-00_00_00".to_string()));
}

#[test]
fn unrepresentable_time_has_no_name() {
    assert_eq!(save_file_name(i64::MAX, "png"), None);
    assert_eq!(save_file_name(i64::MIN, "png"), None);
}

#[test]
fn extension_follows_a_dot() {
    assert_eq!(with_extension("shot".to_string(), "png"), "shot.png");
    assert_eq!(with_extension("shot".to_string(), ""), "shot");
}
