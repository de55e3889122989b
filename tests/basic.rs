use comat::{comat, name2ansi, CFStr, Operation, TemplateError};

fn compile(t: &str) -> String {
    comat(t).unwrap()
}

#[test]
fn basic() {
    assert_eq!(compile("{red}yes{reset}"), "\x1b[0;34;31myes\x1b[0m");
    assert_eq!(compile("{thing:red}"), "\x1b[0m\x1b[0;34;31m{thing}\x1b[0m");
    assert_eq!(compile("{n:.0}"), "{n:.0}");
}

#[test]
fn escapes() {
    assert_eq!(compile("{{ow}} {{red}}"), "{ow} {red}");
    assert_eq!(compile("{{{{"), "{{");
}

#[test]
fn take() {
    assert_eq!(compile("{}"), "{}");
}

#[test]
fn resetty() {
    assert_eq!(compile("{:reset}"), "\x1b[0m{}\x1b[0m");
}

#[test]
fn plain_text_is_unchanged() {
    assert_eq!(compile("just text, no braces: é ü 日本"), "just text, no braces: é ü 日本");
    assert_eq!(compile(""), "");
}

#[test]
fn literal_characters_keep_their_place() {
    assert_eq!(compile("a{red}b{{c}}d{x}e"), "a\x1b[0;34;31mb{c}d{x}e");
    assert_eq!(compile("ab{bold}cd"), "ab\x1b[1mcd");
}

#[test]
fn single_escapes() {
    assert_eq!(compile("{{"), "{");
    assert_eq!(compile("}}"), "}");
}

#[test]
fn every_style_token_becomes_its_sequence() {
    for name in ["black", "red", "bold_cyan", "on_magenta", "on_magenta_bold", "underline", "strike", "default", "on_default_bold"] {
        let expected = name2ansi(name).unwrap();
        assert_eq!(compile(&format!("{{{}}}", name)), expected);
    }
    assert_eq!(compile("{on_magenta}"), "\x1b[0;44;35m");
    assert_eq!(compile("{on_magenta_bold}"), "\x1b[1;44;35m");
    assert_eq!(compile("{underline}"), "\x1b[24m");
    assert_eq!(compile("{bold_default}"), "\x1b[1;34;39m");
    assert_eq!(compile("{on_green}"), "\x1b[0;34;42m");
}

#[test]
fn styled_value() {
    assert_eq!(compile("{x:bold_blue}"), "\x1b[0m\x1b[1;34;34m{x}\x1b[0m");
    assert_eq!(compile("{favorite_thing:underline}"), "\x1b[0m\x1b[24m{favorite_thing}\x1b[0m");
}

#[test]
fn unknown_tokens_pass_through() {
    assert_eq!(compile("{x:?}"), "{x:?}");
    assert_eq!(compile("{Red}"), "{Red}");
    assert_eq!(compile("{purple}"), "{purple}");
    assert_eq!(compile("{a:b:red}"), "{a:b:red}");
    assert_eq!(compile("{0}"), "{0}");
}

#[test]
fn same_input_same_output() {
    let t = "{green}ok{reset} {v:red} {n:.0}";
    assert_eq!(comat(t), comat(t));
}

#[test]
fn trailing_open_brace_is_an_error() {
    assert_eq!(comat("abc{"), Err(TemplateError::UnexpectedEof));
}

#[test]
fn unclosed_token_is_an_error() {
    assert_eq!(comat("{red"), Err(TemplateError::UnexpectedEof));
    assert_eq!(comat("x{thing:red"), Err(TemplateError::UnexpectedEof));
}

#[test]
fn lone_closing_brace_is_an_error() {
    assert_eq!(comat("a}b"), Err(TemplateError::UnexpectedClosingBrace));
    assert_eq!(comat("}"), Err(TemplateError::UnexpectedClosingBrace));
}

#[test]
fn error_messages() {
    assert_eq!(TemplateError::UnexpectedEof.message(), "unexpected eof");
    assert_eq!(TemplateError::UnexpectedClosingBrace.message(), "unexpected text");
}

#[test]
fn name_lookup() {
    assert_eq!(name2ansi("red"), Some("\x1b[0;34;31m"));
    assert_eq!(name2ansi("reset"), Some("\x1b[0m"));
    assert_eq!(name2ansi("dim"), Some("\x1b[2m"));
    assert_eq!(name2ansi("RED"), None);
    assert_eq!(name2ansi(""), None);
    assert_eq!(name2ansi("red "), None);
}

#[test]
fn cfstr_holds_the_output() {
    let c = CFStr::parse("{red}hi").unwrap();
    assert_eq!(c.as_str(), "\x1b[0;34;31mhi");
    assert_eq!(c.into_string(), "\x1b[0;34;31mhi");
    assert!(CFStr::parse("}").is_err());
}

#[test]
fn operations_name_their_host_macro() {
    assert_eq!(Operation::PrintLine.macro_name(), "println");
    assert_eq!(Operation::Print.macro_name(), "print");
    assert_eq!(Operation::Format.macro_name(), "format");
    assert_eq!(Operation::FormatArgs.macro_name(), "format_args");
    assert_eq!(Operation::Panic.macro_name(), "panic");
    assert_eq!(Operation::Write.macro_name(), "write");
    assert_eq!(Operation::WriteLine.macro_name(), "writeln");
    assert!(Operation::Write.takes_sink());
    assert!(Operation::WriteLine.takes_sink());
    assert!(!Operation::Format.takes_sink());
    assert!(!Operation::PrintLine.takes_sink());
}

#[test]
fn reset_value_has_one_reset_each_side() {
    assert_eq!(compile("{x:reset}"), "\x1b[0m{x}\x1b[0m");
}
