use toico::names::{base_name, decimal_text, output_name, resolve_name, strip_icon_suffix};

#[test]
fn strip_removes_trailing_extension() {
    assert_eq!(strip_icon_suffix("name.ico"), "name");
    assert_eq!(strip_icon_suffix("icons/app.ico"), "icons/app");
}

#[test]
fn strip_removes_repeated_extensions() {
    assert_eq!(strip_icon_suffix("name.ico.ico"), "name");
    assert_eq!(strip_icon_suffix(".ico.ico.ico"), "");
}

#[test]
fn strip_keeps_other_names() {
    assert_eq!(strip_icon_suffix("name"), "name");
    assert_eq!(strip_icon_suffix(""), "");
    assert_eq!(strip_icon_suffix("ico"), "ico");
    assert_eq!(strip_icon_suffix("nameico"), "nameico");
    assert_eq!(strip_icon_suffix("name.ICO"), "name.ICO");
    assert_eq!(strip_icon_suffix("name.ico "), "name.ico ");
    assert_eq!(strip_icon_suffix("name.ico.png"), "name.ico.png");
    assert_eq!(strip_icon_suffix("a.icoico"), "a.icoico");
}

#[test]
fn strip_counts_characters_not_bytes() {
    assert_eq!(strip_icon_suffix("图标.ico"), "图标");
    assert_eq!(strip_icon_suffix("é.ico"), "é");
    assert_eq!(strip_icon_suffix("图标"), "图标");
}

#[test]
fn strip_whole_name() {
    assert_eq!(strip_icon_suffix(".ico"), "");
}

#[test]
fn base_name_is_last_component() {
    assert_eq!(base_name("icons/app"), "app");
    assert_eq!(base_name("app"), "app");
    assert_eq!(base_name("a/b/c"), "c");
    assert_eq!(base_name("/abs/name"), "name");
    assert_eq!(base_name("dir/"), "");
    assert_eq!(base_name(""), "");
    assert_eq!(base_name("/"), "");
    assert_eq!(base_name("目录/图标"), "图标");
}

#[test]
fn decimal_text_of_numbers() {
    assert_eq!(decimal_text(0), "0");
    assert_eq!(decimal_text(7), "7");
    assert_eq!(decimal_text(9), "9");
    assert_eq!(decimal_text(10), "10");
    assert_eq!(decimal_text(16), "16");
    assert_eq!(decimal_text(256), "256");
    assert_eq!(decimal_text(1000), "1000");
    assert_eq!(decimal_text(65535), "65535");
    assert_eq!(decimal_text(u32::MAX), "4294967295");
}

#[test]
fn decimal_text_agrees_with_std() {
    for n in (0..5000u32).chain([99_999, 100_000, 1_234_567_890]) {
        assert_eq!(decimal_text(n), n.to_string());
    }
}

#[test]
fn resolve_prefers_requested_name() {
    assert_eq!(resolve_name("photo.png", Some("photo".to_string()), Some("out")), "out");
    assert_eq!(resolve_name("photo.png", None, Some("out.ico")), "out");
}

#[test]
fn resolve_falls_back_to_stem_then_path() {
    assert_eq!(resolve_name("dir/photo.png", Some("photo".to_string()), None), "photo");
    assert_eq!(resolve_name("..", None, None), "..");
    assert_eq!(resolve_name("x.png", Some("shot.ico".to_string()), None), "shot");
    assert_eq!(resolve_name("weird.ico", None, None), "weird");
}

#[test]
fn output_name_defaults_to_file_stem() {
    assert_eq!(output_name("photo.png", None), "photo");
    assert_eq!(output_name("pictures/logo.jpg", None), "logo");
    assert_eq!(output_name("archive.tar.gz", None), "archive.tar");
    assert_eq!(output_name("noextension", None), "noextension");
    assert_eq!(output_name(".hidden", None), ".hidden");
}

#[test]
fn output_name_without_file_name_is_the_path() {
    assert_eq!(output_name("..", None), "..");
    assert_eq!(output_name("", None), "");
}

#[test]
fn output_name_strips_extension_of_stem() {
    assert_eq!(output_name("shot.ico.png", None), "shot");
}

#[test]
fn output_name_takes_requested_name() {
    assert_eq!(output_name("photo.png", Some("my_icon")), "my_icon");
    assert_eq!(output_name("photo.png", Some("icons/app")), "icons/app");
}

#[test]
fn output_name_strips_requested_extension() {
    assert_eq!(output_name("photo.png", Some("name.ico")), "name");
}

#[test]
fn output_name_of_bare_file_name_is_what_precedes_its_last_dot() {
    assert_eq!(output_name("a.b.c", None), "a.b");
    assert_eq!(output_name("a.", None), "a");
    assert_eq!(output_name("...", None), "..");
    assert_eq!(output_name("..a", None), ".");
    assert_eq!(output_name("my photo.jpeg", None), "my photo");
    assert_eq!(output_name("图标.png", None), "图标");
}

#[test]
fn output_name_of_bare_file_name_without_inner_dot_is_the_name() {
    assert_eq!(output_name("photo", None), "photo");
    assert_eq!(output_name(".png", None), ".png");
    assert_eq!(output_name(".hidden", None), ".hidden");
}

#[test]
fn output_name_of_dot_and_dot_dot_is_the_path() {
    assert_eq!(output_name(".", None), ".");
    assert_eq!(output_name("..", None), "..");
}
