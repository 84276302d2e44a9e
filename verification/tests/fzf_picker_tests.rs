use ratune::fzf_picker::{
    parse_fzf_output_lines, fuzzy_picker_basename_is_sk, prepare_library_fuzzy_picker_args,
    selected_rows, bind_string_sets_ctrl_r, args_specify_ctrl_r_bind, FZF_EXPECT_REPLACE_QUEUE,
};

#[test]
fn parse_expect_enter_then_rows() {
    let lines = vec![String::new(), "id1\ta\tb".into(), "id2\ta\tb".into()];
    let (replace, rows) = parse_fzf_output_lines(&lines);
    assert!(!replace);
    assert_eq!(rows.len(), 2);
}

#[test]
fn parse_expect_ctrl_r() {
    let lines = vec!["ctrl-r".into(), "id1\tx".into()];
    let (replace, rows) = parse_fzf_output_lines(&lines);
    assert!(replace);
    assert_eq!(rows.len(), 1);
}

#[test]
fn parse_no_expect_plain_rows() {
    let lines = vec!["id1\tx".into(), "id2\ty".into()];
    let (replace, rows) = parse_fzf_output_lines(&lines);
    assert!(!replace);
    assert_eq!(rows.len(), 2);
}

#[test]
fn basename_is_sk() {
    assert!(fuzzy_picker_basename_is_sk("sk"));
    assert!(fuzzy_picker_basename_is_sk("/usr/bin/sk"));
    assert!(fuzzy_picker_basename_is_sk("sk.exe"));
    assert!(!fuzzy_picker_basename_is_sk("fzf"));
    assert!(!fuzzy_picker_basename_is_sk("/usr/bin/fzf"));
}

#[test]
fn prepare_sk_appends_ctrl_r_accept_bind() {
    let args: Vec<String> = vec!["--multi".into()];
    let out = prepare_library_fuzzy_picker_args("sk", args.clone());
    assert_eq!(out.len(), 2);
    assert_eq!(out[1], "--bind=ctrl-r:accept(ctrl-r)");
    let out = prepare_library_fuzzy_picker_args("/x/sk", args);
    assert_eq!(out.last().unwrap(), "--bind=ctrl-r:accept(ctrl-r)");
}

#[test]
fn prepare_fzf_untouched() {
    let args: Vec<String> = vec!["--multi".into()];
    let out = prepare_library_fuzzy_picker_args("fzf", args.clone());
    assert_eq!(out, args);
}

#[test]
fn prepare_sk_skips_when_ctrl_r_already_bound() {
    let args: Vec<String> = vec!["--bind=ctrl-r:ignore".into(), "--multi".into()];
    let out = prepare_library_fuzzy_picker_args("sk", args.clone());
    assert_eq!(out, args);
    let args: Vec<String> = vec!["--bind".into(), "ctrl-r:accept(ctrl-alt-m)".into()];
    let out = prepare_library_fuzzy_picker_args("sk", args);
    assert_eq!(out.len(), 2);
}

#[test]
fn preparing_twice_changes_nothing_more() {
    let once = prepare_library_fuzzy_picker_args("sk", vec!["--multi".into()]);
    let twice = prepare_library_fuzzy_picker_args("sk", once.clone());
    assert_eq!(once, twice);
}

#[test]
fn bind_lists_are_scanned_per_fragment() {
    assert!(bind_string_sets_ctrl_r("ctrl-a:up, CTRL-R:accept"));
    assert!(!bind_string_sets_ctrl_r("ctrl-a:up,ctrl-rr:accept"));
    assert!(!bind_string_sets_ctrl_r("ctrl-r"));
    assert!(args_specify_ctrl_r_bind(&["-b=ctrl-r:abort".to_string()]));
    assert!(!args_specify_ctrl_r_bind(&["--bind".to_string()]));
    assert_eq!(FZF_EXPECT_REPLACE_QUEUE, "ctrl-r");
}

#[test]
fn picker_output_rows() {
    assert_eq!(
        selected_rows("ctrl-r\r\nid1\tx\r\r\n\nid2\ty"),
        Some(vec!["ctrl-r".to_string(), "id1\tx".to_string(), "id2\ty".to_string()])
    );
    assert_eq!(selected_rows("\n\r\n"), None);
    assert_eq!(selected_rows(""), None);
}
