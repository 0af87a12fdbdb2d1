use cmus_status_line::cmus_status::data::CmusPlaybackStatus;
use cmus_status_line::cmus_status::output::format::notation::Value;
use cmus_status_line::cmus_status::output::format::parse_keyword;
use cmus_status_line::cmus_status::output::{
    Format, FormatExpression, FormatPart, ProgressBarConfig,
};
use cmus_status_line::error::Error;

fn parts(source: &str) -> Vec<FormatPart> {
    let format = Format::try_from(source).unwrap();
    let mut out = Vec::new();
    for part in format.iter() {
        out.push(part.clone());
    }
    out
}

fn text(s: &str) -> FormatPart {
    FormatPart::Text(s.to_string())
}

fn bar(s: &str) -> ProgressBarConfig {
    ProgressBarConfig::try_from(s.to_string()).unwrap()
}

#[test]
fn literal_text_is_one_part() {
    assert_eq!(parts("hello world"), vec![text("hello world")]);
}

#[test]
fn empty_template_has_no_parts() {
    assert_eq!(parts(""), Vec::<FormatPart>::new());
}

#[test]
fn text_around_a_keyword_is_merged_on_each_side() {
    assert_eq!(
        parts("ab%{Title}cd"),
        vec![text("ab"), FormatPart::Title, text("cd")]
    );
}

#[test]
fn line_feeds_are_literal_text() {
    assert_eq!(parts("a\nb"), vec![text("a\nb")]);
    assert_eq!(
        parts("%{Title}\n%{Status}"),
        vec![FormatPart::Title, text("\n"), FormatPart::Status]
    );
}

#[test]
fn text_keyword_is_followed_by_literal_text() {
    assert_eq!(parts("%{Text(\"a\")}b"), vec![text("ab")]);
    assert_eq!(parts("a%{Text(\"b\")}"), vec![text("a"), text("b")]);
    assert_eq!(parts("a%{Text(\"b\")}c"), vec![text("a"), text("bc")]);
}

#[test]
fn keyword_may_have_white_space_around_it() {
    assert_eq!(parts("%{ Title }"), vec![FormatPart::Title]);
    assert_eq!(parts("%{\n\tStatus\n}"), vec![FormatPart::Status]);
    assert_eq!(
        parts("%{ Truncate ( Title , 60 ) }"),
        vec![FormatPart::Truncate(Box::new(FormatPart::Title), 60)]
    );
}

#[test]
fn every_keyword_is_read() {
    assert_eq!(parts("%{Title}"), vec![FormatPart::Title]);
    assert_eq!(parts("%{Status}"), vec![FormatPart::Status]);
    assert_eq!(parts("%{Text(\"x y\")}"), vec![text("x y")]);
    assert_eq!(
        parts("%{Tag(\"artist\")}"),
        vec![FormatPart::Tag("artist".to_string())]
    );
    assert_eq!(
        parts("%{Truncate(Status, 60)}"),
        vec![FormatPart::Truncate(Box::new(FormatPart::Status), 60)]
    );
    assert_eq!(
        parts("%{HtmlEscape(Title)}"),
        vec![FormatPart::HtmlEscape(Box::new(FormatPart::Title))]
    );
    assert_eq!(
        parts("%{ProgressBar(\"<###--->\")}"),
        vec![FormatPart::ProgressBar(bar("<###--->"))]
    );
    assert_eq!(
        parts("%{Container([Text(\"Hello \"), Text(\"World! \"), Status,])}"),
        vec![FormatPart::Container(vec![
            Box::new(text("Hello ")),
            Box::new(text("World! ")),
            Box::new(FormatPart::Status),
        ])]
    );
    assert_eq!(
        parts("%{Container([])}"),
        vec![FormatPart::Container(vec![])]
    );
    assert_eq!(
        parts("%{If(IsStatus(Playing), Text(\"Cmus is playing a song!\"))}"),
        vec![FormatPart::If(
            FormatExpression::IsStatus(CmusPlaybackStatus::Playing),
            Box::new(text("Cmus is playing a song!")),
        )]
    );
    assert_eq!(
        parts("%{IfElse(HasTag(\"artist\"), Tag(\"artist\"), Text(\"unknown artist\"))}"),
        vec![FormatPart::IfElse(
            FormatExpression::HasTag("artist".to_string()),
            Box::new(FormatPart::Tag("artist".to_string())),
            Box::new(text("unknown artist")),
        )]
    );
}

#[test]
fn every_condition_is_read() {
    let condition = |source: &str| match parse_keyword(source).unwrap() {
        FormatPart::If(e, _) => e,
        _ => unreachable!(),
    };
    assert_eq!(condition("If(True, Title)"), FormatExpression::True);
    assert_eq!(condition("If(False, Title)"), FormatExpression::False);
    assert_eq!(
        condition("If(And(True, False), Title)"),
        FormatExpression::And(
            Box::new(FormatExpression::True),
            Box::new(FormatExpression::False)
        )
    );
    assert_eq!(
        condition("If(Or(IsStatus(Paused), IsStatus(Stopped)), Title)"),
        FormatExpression::Or(
            Box::new(FormatExpression::IsStatus(CmusPlaybackStatus::Paused)),
            Box::new(FormatExpression::IsStatus(CmusPlaybackStatus::Stopped)),
        )
    );
    assert_eq!(
        condition("If(Not(HasTag(\"album\")), Title)"),
        FormatExpression::Not(Box::new(FormatExpression::HasTag("album".to_string())))
    );
}

#[test]
fn unknown_keyword_is_refused() {
    assert_eq!(
        Format::try_from("%{NotAKeyword}").unwrap_err(),
        Error::InvalidFormatKeyword("NotAKeyword".to_string())
    );
}

#[test]
fn malformed_keywords_are_refused_with_their_text() {
    let refused = |source: &str, raw: &str| {
        assert_eq!(
            Format::try_from(source).unwrap_err(),
            Error::InvalidFormatKeyword(raw.to_string()),
            "{}",
            source
        );
    };
    refused("a %{ Bogus(1) } b", "Bogus(1)");
    refused("%{Title()}", "Title()");
    refused("%{Title(1)}", "Title(1)");
    refused("%{Text}", "Text");
    refused("%{Text(1)}", "Text(1)");
    refused("%{Text(\"a\", \"b\")}", "Text(\"a\", \"b\")");
    refused("%{Truncate(60, Title)}", "Truncate(60, Title)");
    refused("%{Truncate(Title, \"60\")}", "Truncate(Title, \"60\")");
    refused("%{Truncate(Title)}", "Truncate(Title)");
    refused("%{ProgressBar(12)}", "ProgressBar(12)");
    refused("%{Container(Title)}", "Container(Title)");
    refused("%{If(Title, Title)}", "If(Title, Title)");
    refused("%{If(IsStatus(Loud), Title)}", "If(IsStatus(Loud), Title)");
    refused("%{IfElse(True, Title)}", "IfElse(True, Title)");
    refused("%{Text('a')}", "Text('a')");
    refused("%{Title Status}", "Title Status");
    refused("%{Truncate(Title, 60}", "Truncate(Title, 60");
    refused("%{MatchStatus(Playing, \"x\")}", "MatchStatus(Playing, \"x\")");
    refused("%{ }", "");
    refused("%{   }x}", "");
    refused("%{Text(\"}\")}", "Text(\"");
    refused(
        "%{Truncate(Title, 99999999999999999999999999)}",
        "Truncate(Title, 99999999999999999999999999)",
    );
}

#[test]
fn first_error_in_the_text_is_returned() {
    assert_eq!(
        Format::try_from("%{Title}%{Nope}%{ProgressBar(\"x\")}").unwrap_err(),
        Error::InvalidFormatKeyword("Nope".to_string())
    );
    assert_eq!(
        Format::try_from("%{Container([ProgressBar(\"x\"), Nope])}").unwrap_err(),
        Error::ProgressBarConfigMinLen(2, "x".to_string())
    );
}

#[test]
fn short_progress_bar_is_refused() {
    assert_eq!(
        Format::try_from("%{ProgressBar(\"x\")}").unwrap_err(),
        Error::ProgressBarConfigMinLen(2, "x".to_string())
    );
    assert_eq!(
        Format::try_from("%{ProgressBar(\"\")}").unwrap_err(),
        Error::ProgressBarConfigMinLen(2, "".to_string())
    );
    assert_eq!(
        ProgressBarConfig::try_from("#".to_string()).unwrap_err(),
        Error::ProgressBarConfigMinLen(2, "#".to_string())
    );
}

#[test]
fn brackets_that_do_not_close_are_literal_text() {
    assert_eq!(parts("%{Title"), vec![text("%{Title")]);
    assert_eq!(parts("%{}"), vec![text("%{}")]);
    assert_eq!(parts("100% {sure}"), vec![text("100% {sure}")]);
    assert_eq!(parts("%"), vec![text("%")]);
    assert_eq!(parts("a}b"), vec![text("a}b")]);
}

#[test]
fn keyword_ends_at_the_first_closing_bracket_behind_one_character() {
    assert_eq!(
        Format::try_from("%{}Title}").unwrap_err(),
        Error::InvalidFormatKeyword("}Title".to_string())
    );
    assert_eq!(parts("%{Title}}"), vec![FormatPart::Title, text("}")]);
}

#[test]
fn progress_bar_config_by_length() {
    let two = bar("#-");
    assert_eq!((two.start, two.end, two.full, two.empty), (None, None, '#', '-'));
    assert_eq!(two.total_width, 2);
    assert_eq!(two.inner_width(), 2);
    let three = bar("<#-");
    assert_eq!(
        (three.start, three.end, three.full, three.empty),
        (Some('<'), None, '#', '-')
    );
    assert_eq!(three.inner_width(), 2);
    let four = bar("<#->");
    assert_eq!(
        (four.start, four.end, four.full, four.empty),
        (Some('<'), Some('>'), '#', '-')
    );
    assert_eq!(four.inner_width(), 2);
    let ten = bar("<####---->");
    assert_eq!(
        (ten.start, ten.end, ten.full, ten.empty),
        (Some('<'), Some('>'), '#', '-')
    );
    assert_eq!(ten.total_width, 10);
    assert_eq!(ten.inner_width(), 8);
    let wide = bar("«█░»");
    assert_eq!(
        (wide.start, wide.end, wide.full, wide.empty),
        (Some('«'), Some('»'), '█', '░')
    );
    assert_eq!(wide.total_width, 4);
}

#[test]
fn progress_bar_text_with_filled() {
    let ten = bar("<####---->");
    assert_eq!(ten.text_with_filled(0), "<-------->");
    assert_eq!(ten.text_with_filled(3), "<###----->");
    assert_eq!(ten.text_with_filled(8), "<########>");
    assert_eq!(bar("#-").text_with_filled(2), "##");
    assert_eq!(bar("[#-").text_with_filled(1), "[#-");
}

#[test]
fn is_text_and_is_keyword() {
    assert!(text("a").is_text());
    assert!(!text("a").is_keyword());
    assert!(FormatPart::Title.is_keyword());
    assert!(!FormatPart::Title.is_text());
}

#[test]
fn notation_values() {
    assert_eq!(Value::parse("Title"), Some(Value::Name("Title".to_string())));
    assert_eq!(Value::parse("  _a1  "), Some(Value::Name("_a1".to_string())));
    assert_eq!(Value::parse("42"), Some(Value::Number(42)));
    assert_eq!(Value::parse("007"), Some(Value::Number(7)));
    assert_eq!(Value::parse("'x'"), Some(Value::Character('x')));
    assert_eq!(Value::parse("'\\n'"), Some(Value::Character('\n')));
    assert_eq!(Value::parse("'\\''"), Some(Value::Character('\'')));
    assert_eq!(
        Value::parse("\"a\\\"b\\\\c\\n\\t\\r\\0'\\'\""),
        Some(Value::Text("a\"b\\c\n\t\r\0''".to_string()))
    );
    assert_eq!(Value::parse("[]"), Some(Value::List(vec![])));
    assert_eq!(
        Value::parse("[1, [2], \"3\",]"),
        Some(Value::List(vec![
            Value::Number(1),
            Value::List(vec![Value::Number(2)]),
            Value::Text("3".to_string()),
        ]))
    );
    assert_eq!(
        Value::parse("f ( g(), 1 )"),
        Some(Value::Call(
            "f".to_string(),
            vec![Value::Call("g".to_string(), vec![]), Value::Number(1)]
        ))
    );
}

#[test]
fn notation_refuses_what_is_no_value() {
    for source in [
        "", " ", "(", ")", "f(", "f(1", "f(1,,2)", "f(,)", "[1 2]", "\"open", "'ab'", "''",
        "\"\\q\"", "1a b", "a b", "-1", "f(1))", "[1]]", "\"a\" \"b\"", "é",
    ] {
        assert_eq!(Value::parse(source), None, "{:?}", source);
    }
}

#[test]
fn default_format_says_that_there_is_none() {
    let format = Format::default();
    let all: Vec<&FormatPart> = format.iter().collect();
    assert_eq!(all, vec![&text("NO FORMAT")]);
    assert_eq!(parts("NO FORMAT"), vec![text("NO FORMAT")]);
}

#[test]
fn try_from_string_reads_like_try_from() {
    let format = Format::try_from_string("a%{Status}".to_string()).unwrap();
    let all: Vec<&FormatPart> = format.iter().collect();
    assert_eq!(all, vec![&text("a"), &FormatPart::Status]);
}

#[test]
fn parts_are_cloned_with_all_that_is_in_them() {
    for source in [
        "%{IfElse(And(Not(True), Or(False, IsStatus(Paused))), Container([Title, Truncate(HtmlEscape(Tag(\"a\")), 3)]), ProgressBar(\"<#->\"))}",
        "%{If(HasTag(\"x\"), Text(\"y\"))}%{Status}",
    ] {
        let format = Format::try_from(source).unwrap();
        for part in format.iter() {
            assert_eq!(&part.clone(), part);
        }
    }
    let condition = FormatExpression::And(
        Box::new(FormatExpression::HasTag("a".to_string())),
        Box::new(FormatExpression::Not(Box::new(FormatExpression::False))),
    );
    assert_eq!(condition.clone(), condition);
}
