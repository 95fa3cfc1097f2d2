use rivals_robot::keys::is_exit_key;

#[test]
fn lower_and_upper_e_end_the_loop() {
    assert!(is_exit_key(Some('e')));
    assert!(is_exit_key(Some('E')));
}

#[test]
fn other_keys_do_not_end_the_loop() {
    assert!(!is_exit_key(Some('q')));
    assert!(!is_exit_key(Some('x')));
    assert!(!is_exit_key(Some(' ')));
    assert!(!is_exit_key(Some('é')));
    assert!(!is_exit_key(None));
}
