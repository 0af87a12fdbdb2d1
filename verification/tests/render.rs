use cmus_status_line::cmus_status::data::report::Report;
use cmus_status_line::cmus_status::data::{CmusData, CmusPlaybackStatus};
use cmus_status_line::cmus_status::output::{
    truncate, Format, FormatExpression, FormatPart, ProgressBarConfig, StatusOutput,
};
use cmus_status_line::config::OutputConfig;
use cmus_status_line::error::Error;

fn data(
    status: CmusPlaybackStatus,
    title: Option<&str>,
    time: Option<(u32, u32)>,
    tags: &[(&str, &str)],
) -> CmusData {
    let report = Report {
        status: Some(status),
        file: title.map(|t| format!("/music/{}.mp3", t)),
        duration: time.map(|t| t.1),
        position: time.map(|t| t.0),
        tags: tags.iter().map(|(k, v)| (k.to_string(), v.to_string())).collect(),
    };
    CmusData::from_report(report, title.map(|t| t.to_string())).unwrap()
}

fn render_with(source: &str, data: CmusData, escape_html: bool) -> String {
    let format = Format::try_from(source).unwrap();
    let output = StatusOutput::builder()
        .data(data)
        .format(format)
        .config(OutputConfig { escape_html })
        .build()
        .unwrap();
    output.to_string()
}

fn render(source: &str, data: CmusData) -> String {
    render_with(source, data, false)
}

fn playing() -> CmusData {
    data(CmusPlaybackStatus::Playing, Some("Song"), Some((50, 100)), &[("artist", "Band")])
}

fn part_text(part: &FormatPart, data: CmusData, escape_html: bool) -> Option<String> {
    let output = StatusOutput::new(data, Format::default(), OutputConfig { escape_html });
    output.get_format_text(part)
}

#[test]
fn literal_template_renders_to_itself() {
    assert_eq!(render("hello world", playing()), "hello world");
    assert_eq!(render("", playing()), "");
    assert_eq!(render("a < b & c\n", playing()), "a < b & c\n");
    assert_eq!(render_with("a < b & c", playing(), true), "a < b & c");
}

#[test]
fn text_around_an_absent_title_is_joined() {
    let no_title = data(CmusPlaybackStatus::Stopped, None, None, &[]);
    assert_eq!(render("ab%{Title}cd", no_title), "abcd");
    assert_eq!(render("ab%{Title}cd", playing()), "abSongcd");
}

#[test]
fn truncation_boundary() {
    let long = FormatPart::Text("abcdefghij".to_string());
    assert_eq!(
        part_text(&FormatPart::Truncate(Box::new(long), 5), playing(), false),
        Some("abcde".to_string())
    );
    let long = FormatPart::Text("abcdefghij".to_string());
    assert_eq!(
        part_text(&FormatPart::Truncate(Box::new(long), 8), playing(), false),
        Some("abcde...".to_string())
    );
    assert_eq!(render("%{Truncate(Text(\"abcdefghij\"), 5)}", playing()), "abcde");
    assert_eq!(render("%{Truncate(Text(\"abcdefghij\"), 8)}", playing()), "abcde...");
}

#[test]
fn truncation_at_every_length() {
    let text = "abcdefghij";
    let expected = [
        "", "a", "ab", "abc", "abcd", "abcde", "abc...", "abcd...", "abcde...", "abcdef...",
        "abcdefghij", "abcdefghij",
    ];
    for (max, want) in expected.iter().enumerate() {
        assert_eq!(truncate(text.to_string(), max), *want, "max {}", max);
    }
    assert_eq!(truncate("äöüßéè".to_string(), 4), "äöüß");
    assert_eq!(truncate("äöüßéèñ".to_string(), 6), "äöü...");
    assert_eq!(truncate("".to_string(), 0), "");
}

#[test]
fn truncation_of_nothing_is_nothing() {
    let no_title = data(CmusPlaybackStatus::Stopped, None, None, &[]);
    assert_eq!(
        part_text(&FormatPart::Truncate(Box::new(FormatPart::Title), 3), no_title, false),
        None
    );
}

#[test]
fn conditional_on_status() {
    let source = "%{If(IsStatus(Playing), Text(\"X\"))}";
    for (status, want) in [
        (CmusPlaybackStatus::Playing, "X"),
        (CmusPlaybackStatus::Paused, ""),
        (CmusPlaybackStatus::Stopped, ""),
    ] {
        assert_eq!(render(source, data(status, None, None, &[])), want);
    }
}

#[test]
fn conditional_on_tag() {
    let source = "%{IfElse(HasTag(\"artist\"), Tag(\"artist\"), Text(\"unknown\"))}";
    assert_eq!(render(source, playing()), "Band");
    assert_eq!(
        render(source, data(CmusPlaybackStatus::Playing, None, None, &[("album", "x")])),
        "unknown"
    );
}

#[test]
fn conditions() {
    let output = StatusOutput::new(playing(), Format::default(), OutputConfig::default());
    let t = || Box::new(FormatExpression::True);
    let f = || Box::new(FormatExpression::False);
    assert!(output.is_expression_true(&FormatExpression::True));
    assert!(!output.is_expression_true(&FormatExpression::False));
    assert!(output.is_expression_true(&FormatExpression::And(t(), t())));
    assert!(!output.is_expression_true(&FormatExpression::And(t(), f())));
    assert!(!output.is_expression_true(&FormatExpression::And(f(), t())));
    assert!(output.is_expression_true(&FormatExpression::Or(f(), t())));
    assert!(output.is_expression_true(&FormatExpression::Or(t(), f())));
    assert!(!output.is_expression_true(&FormatExpression::Or(f(), f())));
    assert!(output.is_expression_true(&FormatExpression::Not(f())));
    assert!(!output.is_expression_true(&FormatExpression::Not(t())));
    assert!(output.is_expression_true(&FormatExpression::IsStatus(CmusPlaybackStatus::Playing)));
    assert!(!output.is_expression_true(&FormatExpression::IsStatus(CmusPlaybackStatus::Paused)));
    assert!(output.is_expression_true(&FormatExpression::HasTag("artist".to_string())));
    assert!(!output.is_expression_true(&FormatExpression::HasTag("album".to_string())));
}

#[test]
fn progress_bar_exactness() {
    let source = "%{ProgressBar(\"<####---->\")}";
    let at = |position: u32, duration: u32| {
        render(
            source,
            data(CmusPlaybackStatus::Playing, None, Some((position, duration)), &[]),
        )
    };
    assert_eq!(at(50, 100), "<####---->");
    assert_eq!(at(0, 100), "<-------->");
    assert_eq!(at(100, 100), "<########>");
    assert_eq!(at(1, 100), "<-------->");
    assert_eq!(at(99, 100), "<########>");
    assert_eq!(at(1, 16), "<#------->");
    assert_eq!(at(3, 16), "<##------>");
    assert_eq!(at(6, 100), "<-------->");
    assert_eq!(at(7, 100), "<#------->");
    assert_eq!(at(4_000_000_000, 4_294_967_295), "<#######->");
}

#[test]
fn progress_bar_without_ends_is_full_at_the_end() {
    let at = |source: &str, position: u32| {
        render(source, data(CmusPlaybackStatus::Playing, None, Some((position, 4)), &[]))
    };
    assert_eq!(at("%{ProgressBar(\"#-\")}", 0), "--");
    assert_eq!(at("%{ProgressBar(\"#-\")}", 2), "#-");
    assert_eq!(at("%{ProgressBar(\"#-\")}", 4), "##");
    assert_eq!(at("%{ProgressBar(\"[#-\")}", 4), "[##");
}

#[test]
fn progress_bar_without_time_is_absent() {
    let stopped = data(CmusPlaybackStatus::Stopped, None, None, &[]);
    assert_eq!(render("a%{ProgressBar(\"<####---->\")}b", stopped), "ab");
    let config = ProgressBarConfig::try_from("<#->".to_string()).unwrap();
    let stopped = data(CmusPlaybackStatus::Stopped, None, None, &[]);
    assert_eq!(part_text(&FormatPart::ProgressBar(config), stopped, false), None);
}

#[test]
fn progress_bar_is_not_escaped() {
    assert_eq!(
        render_with("%{ProgressBar(\"<####---->\")}", playing(), true),
        "<####---->"
    );
}

#[test]
fn title_is_escaped_once() {
    let title = || data(CmusPlaybackStatus::Playing, Some("A & B"), None, &[]);
    assert_eq!(render_with("%{Title}", title(), true), "A &amp; B");
    assert_eq!(render_with("%{Truncate(Title, 60)}", title(), true), "A &amp; B");
    assert_eq!(render_with("%{Container([Title])}", title(), true), "A &amp; B");
    assert_eq!(
        render_with("%{If(True, Container([Truncate(Title, 60)]))}", title(), true),
        "A &amp; B"
    );
    assert_eq!(render_with("%{Title}", title(), false), "A & B");
}

#[test]
fn tags_and_status_are_escaped_where_asked() {
    let tagged = || {
        data(
            CmusPlaybackStatus::Paused,
            None,
            None,
            &[("artist", "<Tom> & \"Jerry's\"")],
        )
    };
    assert_eq!(
        render_with("%{Tag(\"artist\")}", tagged(), true),
        "&lt;Tom&gt; &amp; &quot;Jerry&#x27;s&quot;"
    );
    assert_eq!(
        render_with("%{Tag(\"artist\")}", tagged(), false),
        "<Tom> & \"Jerry's\""
    );
    assert_eq!(render_with("%{Status}", tagged(), true), "Paused");
}

#[test]
fn html_escape_part_escapes_what_it_wraps() {
    assert_eq!(
        render("%{HtmlEscape(Text(\"<a href='x'>\\\"&\\\"</a>\"))}", playing()),
        "&lt;a href=&#x27;x&#x27;&gt;&quot;&amp;&quot;&lt;/a&gt;"
    );
    assert_eq!(
        render(
            "%{HtmlEscape(Title)}",
            data(CmusPlaybackStatus::Playing, Some("A & B"), None, &[])
        ),
        "A &amp; B"
    );
    let no_title = data(CmusPlaybackStatus::Stopped, None, None, &[]);
    assert_eq!(
        part_text(&FormatPart::HtmlEscape(Box::new(FormatPart::Title)), no_title, false),
        None
    );
}

#[test]
fn escaping_comes_before_truncation() {
    let title = data(CmusPlaybackStatus::Playing, Some("A & B"), None, &[]);
    assert_eq!(render_with("%{Truncate(Title, 4)}", title, true), "A &a");
}

#[test]
fn status_labels() {
    for (status, want) in [
        (CmusPlaybackStatus::Playing, "Playing"),
        (CmusPlaybackStatus::Paused, "Paused"),
        (CmusPlaybackStatus::Stopped, "Stopped"),
    ] {
        assert_eq!(render("%{Status}", data(status, None, None, &[])), want);
        assert_eq!(status.to_string(), want);
    }
}

#[test]
fn absent_tag_prints_nothing() {
    assert_eq!(render("[%{Tag(\"album\")}]", playing()), "[]");
    assert_eq!(
        part_text(&FormatPart::Tag("album".to_string()), playing(), false),
        None
    );
}

#[test]
fn container_joins_what_its_parts_print() {
    assert_eq!(
        render(
            "%{Container([Text(\"Hello \"), Tag(\"album\"), Text(\"World! \"), Status])}",
            playing()
        ),
        "Hello World! Playing"
    );
    assert_eq!(
        part_text(&FormatPart::Container(vec![]), playing(), false),
        Some(String::new())
    );
}

#[test]
fn parts_are_printed_one_after_the_other() {
    let output = StatusOutput::new(playing(), Format::default(), OutputConfig::default());
    let a = FormatPart::Title;
    let b = FormatPart::Tag("album".to_string());
    let c = FormatPart::Status;
    assert_eq!(output.get_format_text_for_parts(vec![&a, &b, &c]), "SongPlaying");
    assert_eq!(output.get_format_text_for_parts(vec![]), "");
}

#[test]
fn a_whole_status_line() {
    let source = "%{If(IsStatus(Playing), Text(\"> \"))}%{Truncate(Title, 8)} %{ProgressBar(\"<####---->\")} by %{IfElse(HasTag(\"artist\"), Tag(\"artist\"), Text(\"unknown\"))}";
    let state = data(
        CmusPlaybackStatus::Playing,
        Some("A very long title"),
        Some((25, 100)),
        &[("artist", "Band")],
    );
    assert_eq!(render(source, state), "> A ver... <##------> by Band");
}

#[test]
fn builder_needs_data() {
    assert_eq!(
        StatusOutput::builder().build().unwrap_err(),
        Error::CmusStatusNoData
    );
    assert_eq!(
        StatusOutput::builder()
            .format(Format::default())
            .config(OutputConfig::default())
            .build()
            .unwrap_err(),
        Error::CmusStatusNoData
    );
}

#[test]
fn builder_falls_back_on_the_default_format() {
    let output = StatusOutput::builder().data(playing()).build().unwrap();
    assert_eq!(output.to_string(), "NO FORMAT");
}

#[test]
fn builder_does_not_escape_by_default() {
    let title = data(CmusPlaybackStatus::Playing, Some("A & B"), None, &[]);
    let output = StatusOutput::builder()
        .data(title)
        .format(Format::try_from("%{Title}").unwrap())
        .build()
        .unwrap();
    assert_eq!(output.to_string(), "A & B");
    assert!(!OutputConfig::default().escape_html);
}
