use gitie::ai_utils::clean_ai_output;
use regex::Regex;

#[test]
fn text_clean_ai_output_no_tags() {
    let input = "This is a normal commit message.";
    let expected = "This is a normal commit message.";
    assert_eq!(clean_ai_output(input), expected);
}

#[test]
fn test_clean_ai_output_single_tag() {
    let input = "<think>This is a thought.</think>Actual commit message.";
    let expected = "Actual commit message.";
    assert_eq!(clean_ai_output(input), expected);
}

#[test]
fn test_clean_ai_output_multiple_tags() {
    let input = "<think>Thought 1</think>Commit part 1. <think>Thought 2</think>Commit part 2.";
    let expected = "Commit part 1. Commit part 2.";
    assert_eq!(clean_ai_output(input), expected);
}

#[test]
fn test_clean_ai_output_multiline_tag() {
    let input = "Commit start.\n<think>\nMultiline thought\nAnother line\n</think>\nCommit end.";
    let expected = "Commit start.\n\nCommit end.";
    assert_eq!(clean_ai_output(input), expected);
}

#[test]
fn test_clean_ai_output_empty_tag() {
    let input = "Before<think></think>After";
    let expected = "BeforeAfter";
    assert_eq!(clean_ai_output(input), expected);
}

#[test]
fn test_clean_ai_output_tag_at_start() {
    let input = "<think>Initial thought.</think>The rest of the message.";
    let expected = "The rest of the message.";
    assert_eq!(clean_ai_output(input), expected);
}

#[test]
fn test_clean_ai_output_tag_at_end() {
    let input = "Message part.<think>Final thought.</think>";
    let expected = "Message part.";
    assert_eq!(clean_ai_output(input), expected);
}

#[test]
fn test_clean_ai_output_only_tag() {
    let input = "<think>This is entirely a thought.</think>";
    let expected = "";
    assert_eq!(clean_ai_output(input), expected);
}

#[test]
fn test_clean_ai_output_nested_tags_not_specifically_handled_outermost_wins() {
    let input = "<think>outer<think>inner</think>still outer</think>Commit message.";
    let expected = "still outer</think>Commit message.";
    assert_eq!(clean_ai_output(input), expected);

    let input_greedy_would_fail = "<think>thought 1</think> message <think>thought 2</think>";
    let re_greedy_test = Regex::new(r"(?s)<think>.*</think>").unwrap();
    assert_ne!(
        re_greedy_test
            .replace_all(input_greedy_would_fail, "")
            .into_owned(),
        " message "
    );
}

#[test]
fn test_clean_ai_output_no_closing_tag_leaves_untouched_if_regex_is_strict() {
    let input = "<think>This thought is not closed. Actual message.";
    let expected = "<think>This thought is not closed. Actual message.";
    assert_eq!(clean_ai_output(input), expected);
}

#[test]
fn test_clean_ai_output_tags_with_attributes_ignored_by_current_regex() {
    let input = "<think foo=\"bar\">A thought with attributes.</think>Commit message.";
    let expected = "<think foo=\"bar\">A thought with attributes.</think>Commit message.";
    assert_eq!(clean_ai_output(input), expected);

    let input_simple = "<think>Simple thought.</think>Commit message.";
    let expected_simple = "Commit message.";
    assert_eq!(clean_ai_output(input_simple), expected_simple);
}

#[test]
fn test_complex_scenario_with_varied_spacing_and_content() {
    let input = "  <think>  Leading space thought. </think> Commit part 1.   <think>\\nMultiline\\n  Thought\\n</think>Middle part.<think>Trailing thought</think>   Final part.  ";
    let expected = "   Commit part 1.   Middle part.   Final part.  ";
    assert_eq!(clean_ai_output(input), expected);
}

#[test]
fn clean_ai_output_never_grows_and_keeps_plain_text() {
    let plain = "no tags here </think> at all";
    assert_eq!(clean_ai_output(plain), plain);
    let tagged = "a<think>x</think>b<think>y</think>c";
    let out = clean_ai_output(tagged);
    assert_eq!(out, "abc");
    assert!(out.len() <= tagged.len());
}
