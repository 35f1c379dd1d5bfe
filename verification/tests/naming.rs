use pdf_spreads::names::{
    join_path, page_file_name, page_number_string, revert_renames, revert_target,
    spread_file_name,
};

#[test]
fn page_numbers_render_in_decimal() {
    assert_eq!(page_number_string(0), "0");
    assert_eq!(page_number_string(7), "7");
    assert_eq!(page_number_string(10), "10");
    assert_eq!(page_number_string(45), "45");
    assert_eq!(page_number_string(99), "99");
    assert_eq!(page_number_string(100), "100");
    assert_eq!(page_number_string(207), "207");
    assert_eq!(page_number_string(255), "255");
}

#[test]
fn file_names_carry_the_suffix_convention() {
    assert_eq!(page_file_name(1), "1.png");
    assert_eq!(spread_file_name(1), "1s.png");
    assert_eq!(page_file_name(255), "255.png");
    assert_eq!(spread_file_name(0), "0s.png");
}

#[test]
fn revert_strips_the_spread_suffix() {
    assert_eq!(revert_target(&"1s.png".to_string()), Some("1.png".to_string()));
    assert_eq!(revert_target(&"32s.png".to_string()), Some("32.png".to_string()));
    assert_eq!(revert_target(&"xs.png".to_string()), Some("x.png".to_string()));
    assert_eq!(revert_target(&"s.png".to_string()), Some(".png".to_string()));
}

#[test]
fn revert_skips_other_entries() {
    assert_eq!(revert_target(&"1.png".to_string()), None);
    assert_eq!(revert_target(&".png".to_string()), None);
    assert_eq!(revert_target(&"".to_string()), None);
    assert_eq!(revert_target(&"png".to_string()), None);
    assert_eq!(revert_target(&"1s.PNG".to_string()), None);
}

#[test]
fn spread_then_revert_round_trips() {
    let spread = spread_file_name(1);
    assert_eq!(spread, "1s.png");
    assert_eq!(revert_target(&spread), Some("1.png".to_string()));
    assert_eq!(revert_target(&spread), Some(page_file_name(1)));
}

#[test]
fn revert_is_idempotent_on_a_listing() {
    let listing = vec![
        "1s.png".to_string(),
        "2.png".to_string(),
        "3s.png".to_string(),
        "notes.txt".to_string(),
    ];
    let first = revert_renames(&listing);
    assert_eq!(
        first,
        vec![
            ("1s.png".to_string(), "1.png".to_string()),
            ("3s.png".to_string(), "3.png".to_string()),
        ]
    );
    // the state after performing the renames of the first pass
    let after = vec![
        "1.png".to_string(),
        "2.png".to_string(),
        "3.png".to_string(),
        "notes.txt".to_string(),
    ];
    let second = revert_renames(&after);
    assert_eq!(second, Vec::new());
}

#[test]
fn double_spread_suffix_reverts_one_step_at_a_time() {
    // the one shape a second revert pass still renames
    assert_eq!(revert_target(&"1ss.png".to_string()), Some("1s.png".to_string()));
    assert_eq!(revert_target(&"1s.png".to_string()), Some("1.png".to_string()));
}

#[test]
fn paths_join_with_a_slash() {
    assert_eq!(
        join_path(&"./output".to_string(), &"1.png".to_string()),
        "./output/1.png"
    );
    assert_eq!(join_path(&"".to_string(), &"a".to_string()), "/a");
}
