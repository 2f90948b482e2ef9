use rizzybox::applets::{clear_text, yes_text};
use rizzybox::echo::echo_text;
use rizzybox::path_names::basename_text;
use rizzybox::stem::{read_wordlist, stem_line};

const LONG_PATH: &str = "/var/home/username/.local/bin/mybinary";
const ANOTHER_PATH: &str = "/var/home/username/.local/bin/mycoolerbinary";
const PATH_WITH_SUFFIX: &str = "/var/home/username/git/coolproject/main.c";

fn strings(words: &[&str]) -> Vec<String> {
    words.iter().map(|w| w.to_string()).collect()
}

fn wordlist() -> Vec<String> {
    read_wordlist(" abandon,bigot,big,bigwig,configuration,configure,honest,honesty,world\n")
}

#[test]
fn basename_success() {
    assert_eq!(basename_text(&strings(&[LONG_PATH]), false, None, false), "mybinary\n");
}

#[test]
fn with___multiple_arg() {
    assert_eq!(
        basename_text(&strings(&[LONG_PATH, ANOTHER_PATH]), true, None, false),
        "mybinary\nmycoolerbinary\n"
    );
}

#[test]
fn with___suffix_arg() {
    let suffix = ".c".to_string();
    assert_eq!(
        basename_text(&strings(&[PATH_WITH_SUFFIX]), false, Some(&suffix), false),
        "main\n"
    );
}

#[test]
fn with___zero_arg() {
    let text = basename_text(&strings(&[LONG_PATH]), false, None, true);
    assert!(text.ends_with("mybinary\0"));
    assert_eq!(text, "mybinary\0");
}

#[test]
fn basename_with_all_args() {
    let suffix = ".c".to_string();
    let text = basename_text(
        &strings(&[LONG_PATH, ANOTHER_PATH, PATH_WITH_SUFFIX]),
        true,
        Some(&suffix),
        true,
    );
    assert!(text.contains("mybinary\0mycoolerbinary\0main\0"));
    assert_eq!(text, "mybinary\0mycoolerbinary\0main\0");
}

#[test]
fn clear_success() {
    assert_eq!(clear_text(), "\u{1b}[2J\u{1b}[H\n");
}

#[test]
fn echo_success() {
    assert_eq!(echo_text(&strings(&[""]), false, true, false), "\n");
}

#[test]
fn echo_with_text_is_success() {
    assert_eq!(echo_text(&strings(&["henlo"]), false, true, false), "henlo\n");
}

#[test]
fn with_multiple_text_is_success() {
    assert_eq!(echo_text(&strings(&["henlo", "world"]), false, true, false), "henlo world\n");
}

#[test]
fn with_no_args_does_not_interpret_backslash_chars_by_default() {
    assert_eq!(echo_text(&strings(&["\r"]), false, true, false), "\r\n");
}

#[test]
#[allow(non_snake_case)]
fn with__E_disables_interpretation_of_backslash_chars() {
    assert_eq!(echo_text(&strings(&["\r"]), false, true, false), "\r\n");
}

#[test]
#[allow(non_snake_case)]
fn with__e_enables_interpretation_of_backslash_chars() {
    let c_hello_world = "\\x23\\x69\\x6e\\x63\\x6c\\x75\\x64\\x65\\x20\\x3c\\x73\\x74\\x64\\x69\\x6f\\x2e\\x68\\x3e\\x0a\\x0a\\x69\\x6e\\x74\\x20\\x6d\\x61\\x69\\x6e\\x28\\x29\\x20\\x7b\\x0a\\x20\\x20\\x20\\x20\\x70\\x72\\x69\\x6e\\x74\\x66\\x28\\x22\\x68\\x65\\x6c\\x6c\\x6f\\x2c\\x20\\x77\\x6f\\x72\\x6c\\x64\\x5c\\x6e\\x22\\x29\\x3b\\x0a\\x7d";
    assert_eq!(
        echo_text(&strings(&[c_hello_world]), false, true, true),
        "#include <stdio.h>\n\nint main() {\n    printf(\"hello, world\\n\");\n}\n"
    );
}

#[test]
fn with___nonewline_does_not_output_a_newline() {
    assert_eq!(echo_text(&strings(&["howdy"]), true, true, false), "howdy");
}

#[test]
fn echo_with_all_args() {
    assert_eq!(echo_text(&strings(&["weirdoutput"]), true, true, true), "weirdoutput");
}

#[test]
fn stem_success() {
    assert_eq!(stem_line(&strings(&[]), &wordlist(), false), "\n");
}

#[test]
fn stem_with_text_is_success() {
    assert_eq!(stem_line(&strings(&["henlo"]), &wordlist(), false), "henlo\n");
}

#[test]
fn with_multiple_strings_is_success() {
    assert_eq!(stem_line(&strings(&["henlo", "world"]), &wordlist(), false), "henlo world\n");
}

#[test]
fn with___no_newline_does_not_output_newline() {
    assert_eq!(stem_line(&strings(&["preconfigured"]), &wordlist(), true), "configure");
}

#[test]
fn stems_words_correctly() {
    let words = strings(&[
        "big",
        "bigger",
        "biggest",
        "configure",
        "configured",
        "configuring",
        "honestly",
        "preconfigured",
    ]);
    assert_eq!(
        stem_line(&words, &wordlist(), false),
        "big big big configure configure configure honest configure\n"
    );
}

#[test]
fn stem_with_all_args() {
    assert_eq!(stem_line(&strings(&["biggest"]), &wordlist(), true), "big");
}

#[test]
fn amount_outputs_the_specified_amount_of_text() {
    let text = yes_text("y", 789);
    assert!(text.contains(&"y\n".repeat(789)));
    assert_eq!(text, "y\n".repeat(789));
}
