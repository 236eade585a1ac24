use promptline::answer;
use promptline::answer_with;
use promptline::confirm;
use promptline::confirm_with;
use promptline::input_fmt;
use promptline::read_line_expect;
use promptline::Answer;
use promptline::AnswerOptions;
use promptline::InputError;
use promptline::Sink;
use promptline::Source;

#[test]
fn input_fmt_lf() {
    let mut source = Source::new("Insert Text Here\n");
    let mut output = Sink::new();
    let text = input_fmt(&mut source, &mut output, "Prompt: ");
    assert_eq!(output.as_str(), "Prompt: ");
    assert_eq!(text.unwrap(), "Insert Text Here");
}

#[test]
fn input_fmt_crlf() {
    let mut source = Source::new("Insert Text Here\r\n");
    let mut output = Sink::new();
    let text = input_fmt(&mut source, &mut output, "Prompt: ");
    assert_eq!(output.as_str(), "Prompt: ");
    assert_eq!(text.unwrap(), "Insert Text Here");
}

#[test]
fn input_fmt_final() {
    let mut source = Source::new("Insert Text Here");
    let mut output = Sink::new();
    let text = input_fmt(&mut source, &mut output, "Prompt: ");
    assert_eq!(output.as_str(), "Prompt: ");
    assert_eq!(text.unwrap(), "Insert Text Here");
}

#[test]
fn read_line_expect_typical() {
    let text = read_line_expect(&mut Source::new("Insert Text Here\n"));
    assert_eq!(text.unwrap(), "Insert Text Here");
}

#[test]
fn read_line_expect_eof() {
    let text = read_line_expect(&mut Source::new(""));
    assert_eq!(text.unwrap_err(), InputError::EndOfInput);
}

#[test]
fn read_line_empty_line() {
    let mut source = Source::new("\nrest");
    assert_eq!(read_line_expect(&mut source).unwrap(), "");
    assert_eq!(read_line_expect(&mut source).unwrap(), "rest");
}

#[test]
fn read_line_strips_lone_carriage_return() {
    // a trailing '\r' at stream end is a terminator too, and is stripped
    let text = read_line_expect(&mut Source::new("abc\r"));
    assert_eq!(text.unwrap(), "abc");
}

#[test]
fn read_line_advances_past_each_line() {
    let mut source = Source::new("first\r\nsecond\nthird");
    assert_eq!(read_line_expect(&mut source).unwrap(), "first");
    assert_eq!(read_line_expect(&mut source).unwrap(), "second");
    assert_eq!(read_line_expect(&mut source).unwrap(), "third");
    assert_eq!(read_line_expect(&mut source).unwrap_err(), InputError::EndOfInput);
}

#[test]
fn prompt_written_before_read() {
    let mut source = Source::new("abc\n");
    let mut output = Sink::new();
    let text = input_fmt(&mut source, &mut output, "X: ");
    assert_eq!(output.as_str(), "X: ");
    assert_eq!(text.unwrap(), "abc");
}

#[test]
fn answer_recognizes_base_table() {
    assert_eq!(answer("y"), Answer::Affirmative);
    assert_eq!(answer("yes"), Answer::Affirmative);
    assert_eq!(answer("n"), Answer::Negative);
    assert_eq!(answer("no"), Answer::Negative);
    assert_eq!(answer(""), Answer::Unrecognized);
    assert_eq!(answer("maybe"), Answer::Unrecognized);
}

#[test]
fn answer_case_insensitive() {
    assert_eq!(answer("YES"), answer("yes"));
    assert_eq!(answer("YES"), Answer::Affirmative);
    assert_eq!(answer("Y"), Answer::Affirmative);
    assert_eq!(answer("No"), Answer::Negative);
    assert_eq!(answer("N"), Answer::Negative);
    assert_eq!(answer("banana"), Answer::Unrecognized);
}

#[test]
fn answer_repeated_calls_agree() {
    let first = answer("yes");
    let second = answer("yes");
    assert_eq!(first, second);
    let first = answer("banana");
    let second = answer("banana");
    assert_eq!(first, second);
}

#[test]
fn confirm_reprompts_until_recognized() {
    let mut source = Source::new("banana\nyes\n");
    let mut output = Sink::new();
    let verdict = confirm(&mut source, &mut output, "Q? ");
    assert_eq!(verdict.unwrap(), true);
    assert_eq!(output.as_str(), "Q? Q? ");
}

#[test]
fn confirm_negative_on_first_read() {
    let mut source = Source::new("no\n");
    let mut output = Sink::new();
    let verdict = confirm(&mut source, &mut output, "Q? ");
    assert_eq!(verdict.unwrap(), false);
    assert_eq!(output.as_str(), "Q? ");
}

#[test]
fn confirm_empty_stream_reports_end_of_input() {
    let mut source = Source::new("");
    let mut output = Sink::new();
    let verdict = confirm(&mut source, &mut output, "Q? ");
    assert_eq!(verdict.unwrap_err(), InputError::EndOfInput);
    assert_eq!(output.as_str(), "Q? ");
}

#[test]
fn confirm_end_of_input_after_unrecognized_lines() {
    let mut source = Source::new("banana\nperhaps\n");
    let mut output = Sink::new();
    let verdict = confirm(&mut source, &mut output, "Q? ");
    assert_eq!(verdict.unwrap_err(), InputError::EndOfInput);
    assert_eq!(output.as_str(), "Q? Q? Q? ");
}

#[test]
fn confirm_ignores_case() {
    let mut source = Source::new("Y\n");
    let mut output = Sink::new();
    let verdict = confirm(&mut source, &mut output, "Q? ");
    assert_eq!(verdict.unwrap(), true);
    assert_eq!(output.as_str(), "Q? ");
}

#[test]
fn confirm_skips_empty_lines() {
    let mut source = Source::new("\n\nNO\n");
    let mut output = Sink::new();
    let verdict = confirm(&mut source, &mut output, "> ");
    assert_eq!(verdict.unwrap(), false);
    assert_eq!(output.as_str(), "> > > ");
}

#[test]
fn confirm_takes_unterminated_final_answer() {
    let mut source = Source::new("yes");
    let mut output = Sink::new();
    let verdict = confirm(&mut source, &mut output, "Q? ");
    assert_eq!(verdict.unwrap(), true);
    assert_eq!(output.as_str(), "Q? ");
}

#[test]
fn answer_aliases_off_by_default() {
    assert_eq!(answer("sure"), Answer::Unrecognized);
    assert_eq!(answer("nope"), Answer::Unrecognized);
}

#[test]
fn answer_aliases_when_enabled() {
    let opts = AnswerOptions { aliases: true, emoji: false };
    assert_eq!(answer_with("sure", opts), Answer::Affirmative);
    assert_eq!(answer_with("YEAH", opts), Answer::Affirmative);
    assert_eq!(answer_with("yep", opts), Answer::Affirmative);
    assert_eq!(answer_with("true", opts), Answer::Affirmative);
    assert_eq!(answer_with("go", opts), Answer::Affirmative);
    assert_eq!(answer_with("nope", opts), Answer::Negative);
    assert_eq!(answer_with("FALSE", opts), Answer::Negative);
    assert_eq!(answer_with("never", opts), Answer::Negative);
    assert_eq!(answer_with("stop", opts), Answer::Negative);
    assert_eq!(answer_with("banana", opts), Answer::Unrecognized);
}

#[test]
fn answer_emoji_when_enabled() {
    let opts = AnswerOptions { aliases: false, emoji: true };
    assert_eq!(answer_with("\u{1f197}", opts), Answer::Affirmative);
    assert_eq!(answer_with("\u{1f196}", opts), Answer::Negative);
    assert_eq!(answer("\u{1f197}"), Answer::Unrecognized);
}

#[test]
fn confirm_with_alias_answer() {
    let mut source = Source::new("sure\n");
    let mut output = Sink::new();
    let opts = AnswerOptions { aliases: true, emoji: false };
    let verdict = confirm_with(&mut source, &mut output, "Q? ", opts);
    assert_eq!(verdict.unwrap(), true);
    assert_eq!(output.as_str(), "Q? ");
}
