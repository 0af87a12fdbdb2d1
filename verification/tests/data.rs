use cmus_status_line::cmus_status::data::report::{parse_seconds, read_report, Report};
use cmus_status_line::cmus_status::data::{title_of, CmusData, CmusPlaybackStatus, CmusTime};
use cmus_status_line::error::Error;
use cmus_status_line::text::{
    chars_of, decimal_string, join_words, same_text, split_words, string_of, trim_white,
};

const REPORT: &str = "status playing
file /home/noah/Music/Soundtracks/LittleRunmo/Little_Runmo_Level_One.mp3
duration 106
position 72
tag artist Little   Runmo
tag album
set aaa_mode artist
set continue true
set vol_left 90
";

fn read(report: &str) -> Result<CmusData, Error> {
    CmusData::try_from(report.to_string())
}

#[test]
fn report_is_read() {
    let data = read(REPORT).unwrap();
    assert_eq!(*data.get_status(), CmusPlaybackStatus::Playing);
    assert!(data.is_status(&CmusPlaybackStatus::Playing));
    assert!(!data.is_status(&CmusPlaybackStatus::Paused));
    assert!(!data.is_status(&CmusPlaybackStatus::Stopped));
    assert_eq!(data.get_title(), Some("Little Runmo Level One".to_string()));
    assert_eq!(*data.get_time(), Some(CmusTime { duration: 106, position: 72 }));
    assert_eq!(data.get_tag("artist"), Some("Little Runmo".to_string()));
    assert_eq!(data.get_tag("album"), Some("".to_string()));
    assert_eq!(data.get_tag("genre"), None);
    assert!(data.has_tag("artist"));
    assert!(data.has_tag("album"));
    assert!(!data.has_tag("genre"));
    assert!(data.is_well_formed());
}

#[test]
fn report_facts() {
    let report = read_report(REPORT).unwrap();
    assert_eq!(report.status, Some(CmusPlaybackStatus::Playing));
    assert_eq!(
        report.file,
        Some("/home/noah/Music/Soundtracks/LittleRunmo/Little_Runmo_Level_One.mp3".to_string())
    );
    assert_eq!(report.duration, Some(106));
    assert_eq!(report.position, Some(72));
    assert_eq!(
        report.tags,
        vec![
            ("artist".to_string(), "Little Runmo".to_string()),
            ("album".to_string(), "".to_string()),
        ]
    );
}

#[test]
fn white_space_around_the_report_is_dropped() {
    let data = read("\n\n  status paused\r\n\t\n").unwrap();
    assert_eq!(*data.get_status(), CmusPlaybackStatus::Paused);
    let data = read(" \n\t status\u{3000}PAUSED \r\n ").unwrap();
    assert_eq!(*data.get_status(), CmusPlaybackStatus::Paused);
    assert_eq!(data.get_title(), None);
    assert_eq!(*data.get_time(), None);
}

#[test]
fn later_facts_replace_earlier_ones() {
    let data = read("status playing\nstatus stopped\ntag a 1\ntag b 2\ntag a 3").unwrap();
    assert_eq!(*data.get_status(), CmusPlaybackStatus::Stopped);
    assert_eq!(data.get_tag("a"), Some("3".to_string()));
    assert_eq!(data.get_tag("b"), Some("2".to_string()));
}

#[test]
fn time_needs_position_and_duration() {
    assert_eq!(*read("status playing\nduration 5").unwrap().get_time(), None);
    assert_eq!(*read("status playing\nposition 5").unwrap().get_time(), None);
    assert_eq!(
        *read("status playing\nposition +5\nduration 007").unwrap().get_time(),
        Some(CmusTime { duration: 7, position: 5 })
    );
}

#[test]
fn time_is_well_formed_inside_the_track() {
    assert!(CmusTime { duration: 1, position: 0 }.is_well_formed());
    assert!(CmusTime { duration: 1, position: 1 }.is_well_formed());
    assert!(!CmusTime { duration: 0, position: 0 }.is_well_formed());
    assert!(!CmusTime { duration: 1, position: 2 }.is_well_formed());
    assert!(!read("status playing\nposition 2\nduration 1").unwrap().is_well_formed());
    assert!(read("status playing").unwrap().is_well_formed());
}

#[test]
fn filled_characters_are_rounded_to_the_nearest() {
    let at = |position, duration, width| {
        CmusTime { duration, position }.filled_characters(width)
    };
    assert_eq!(at(50, 100, 8), 4);
    assert_eq!(at(0, 100, 8), 0);
    assert_eq!(at(100, 100, 8), 8);
    assert_eq!(at(1, 16, 8), 1);
    assert_eq!(at(1, 17, 8), 0);
    assert_eq!(at(1, 3, 10), 3);
    assert_eq!(at(2, 3, 10), 7);
    assert_eq!(at(1, 2, 1), 1);
    assert_eq!(at(1, 2, 0), 0);
    assert_eq!(at(u32::MAX, u32::MAX, usize::MAX), usize::MAX);
    assert_eq!(at(1, u32::MAX, u32::MAX as usize), 1);
    assert_eq!(at(1, u32::MAX, 2 * u32::MAX as usize), 2);
}

#[test]
fn line_without_a_word_is_refused() {
    for report in ["", "  \n ", "status playing\n\nduration 1"] {
        assert_eq!(
            read(report).unwrap_err(),
            Error::CmusParseError(format!(
                "Couldn't get data identifier name from `cmus-remote -Q` (first word per line)\nOutput:\n{}",
                report
            )),
        );
    }
}

#[test]
fn unknown_fact_is_refused() {
    assert_eq!(
        read("status playing\nvolume  11 ").unwrap_err(),
        Error::CmusUnknownData("volume  11".to_string())
    );
    assert_eq!(
        read("Status playing").unwrap_err(),
        Error::CmusUnknownData("Status playing".to_string())
    );
}

#[test]
fn unknown_status_is_refused() {
    assert_eq!(
        read("status Humming").unwrap_err(),
        Error::CmusUnknownStatus("humming".to_string())
    );
    assert_eq!(
        read("status").unwrap_err(),
        Error::CmusUnknownStatus("".to_string())
    );
    assert_eq!(
        read("status playing now").unwrap_err(),
        Error::CmusUnknownStatus("playing now".to_string())
    );
}

#[test]
fn time_that_is_no_number_is_refused() {
    for line in [
        "duration", "duration x", "duration 1 2", "duration -1", "duration 1.5",
        "duration 4294967296", "position +", "position 99999999999999999999",
    ] {
        assert_eq!(
            read(&format!("status playing\n{}", line)).unwrap_err(),
            Error::CouldntParseTimeToNumber(line.to_string())
        );
    }
    assert_eq!(
        *read("status playing\nduration 4294967295\nposition 0").unwrap().get_time(),
        Some(CmusTime { duration: u32::MAX, position: 0 })
    );
}

#[test]
fn tag_without_a_name_is_refused() {
    assert_eq!(
        read("status playing\ntag").unwrap_err(),
        Error::CmusExpectDataArguments(1, "tag".to_string())
    );
}

#[test]
fn report_without_status_is_refused() {
    assert_eq!(
        read("file /a/b.mp3\nduration 1\nposition 0").unwrap_err(),
        Error::CmusMissingData("status".to_string())
    );
}

#[test]
fn first_fault_in_the_report_is_returned() {
    assert_eq!(
        read("bogus\nstatus humming").unwrap_err(),
        Error::CmusUnknownData("bogus".to_string())
    );
    assert_eq!(
        read("duration x\nbogus").unwrap_err(),
        Error::CouldntParseTimeToNumber("duration x".to_string())
    );
}

#[test]
fn status_is_read_in_any_case() {
    for (name, status) in [
        ("playing", CmusPlaybackStatus::Playing),
        ("PLAYING", CmusPlaybackStatus::Playing),
        ("Paused", CmusPlaybackStatus::Paused),
        ("sToPpEd", CmusPlaybackStatus::Stopped),
    ] {
        assert_eq!(CmusPlaybackStatus::try_from(name), Ok(status));
    }
    assert_eq!(
        CmusPlaybackStatus::try_from("PLAY"),
        Err(Error::CmusUnknownStatus("play".to_string()))
    );
    assert_eq!(
        CmusPlaybackStatus::from_name("Playing"),
        Err(Error::CmusUnknownStatus("Playing".to_string()))
    );
    assert_eq!(CmusPlaybackStatus::from_name("paused"), Ok(CmusPlaybackStatus::Paused));
}

#[test]
fn title_has_blanks_for_underscores() {
    assert_eq!(title_of("23_Official_Celeste_B-Sides"), "23 Official Celeste B-Sides");
    assert_eq!(title_of(""), "");
    assert_eq!(title_of("__a__"), "  a  ");
    assert_eq!(title_of("no underscore"), "no underscore");
}

#[test]
fn title_is_the_stem_of_the_file() {
    let data = read("status playing\nfile /music/Old_Site.Black.mp3").unwrap();
    assert_eq!(data.get_title(), Some("Old Site.Black".to_string()));
    let data = read("status playing\nfile /music/My Song.flac").unwrap();
    assert_eq!(data.get_title(), Some("My Song".to_string()));
    let data = read("status playing\nfile ..").unwrap();
    assert_eq!(data.get_title(), None);
}

#[test]
fn state_of_a_report() {
    let report = Report {
        status: None,
        file: Some("/a.mp3".to_string()),
        duration: Some(3),
        position: Some(1),
        tags: vec![],
    };
    assert_eq!(
        CmusData::from_report(report, Some("a".to_string())).unwrap_err(),
        Error::CmusMissingData("status".to_string())
    );
    let report = Report {
        status: Some(CmusPlaybackStatus::Paused),
        file: None,
        duration: Some(3),
        position: None,
        tags: vec![("a".to_string(), "1".to_string()), ("a".to_string(), "2".to_string())],
    };
    let data = CmusData::from_report(report, Some("a_b".to_string())).unwrap();
    assert_eq!(data.get_title(), None);
    assert_eq!(*data.get_time(), None);
    assert_eq!(data.get_tag("a"), Some("2".to_string()));
    let report = Report {
        status: Some(CmusPlaybackStatus::Paused),
        file: Some("/x/a_b.mp3".to_string()),
        duration: Some(3),
        position: Some(2),
        tags: vec![],
    };
    let data = CmusData::from_report(report, Some("a_b".to_string())).unwrap();
    assert_eq!(data.get_title(), Some("a b".to_string()));
    assert_eq!(*data.get_time(), Some(CmusTime { duration: 3, position: 2 }));
}

#[test]
fn seconds() {
    assert_eq!(parse_seconds("0"), Some(0));
    assert_eq!(parse_seconds("+0"), Some(0));
    assert_eq!(parse_seconds("106"), Some(106));
    assert_eq!(parse_seconds("4294967295"), Some(4294967295));
    assert_eq!(parse_seconds("0004294967295"), Some(4294967295));
    for text in ["", "+", "-", "-0", "++1", "4294967296", "42949672950", "1 ", " 1", "１", "0x1"] {
        assert_eq!(parse_seconds(text), None, "{:?}", text);
        assert_eq!(text.parse::<u32>().ok(), None, "{:?}", text);
    }
}

#[test]
fn words_of_a_text() {
    let words = |s: &str| split_words(&chars_of(s));
    assert_eq!(words(""), Vec::<String>::new());
    assert_eq!(words(" \t\n"), Vec::<String>::new());
    assert_eq!(words("a"), vec!["a"]);
    assert_eq!(words("  tag  artist\tA\u{a0}B\u{2003}C  "), vec!["tag", "artist", "A", "B", "C"]);
    let all = words("one two  three");
    assert_eq!(join_words(&all, 0), "one two three");
    assert_eq!(join_words(&all, 1), "two three");
    assert_eq!(join_words(&all, 2), "three");
    assert_eq!(join_words(&all, 3), "");
    assert_eq!(join_words(&all, 9), "");
}

#[test]
fn trimming() {
    let trim = |s: &str| {
        let t = trim_white(&chars_of(s));
        string_of(&t, 0, t.len())
    };
    for s in ["", " ", "a", " a", "a ", " a b \n", "\u{3000}é \u{85}", "\n\n"] {
        assert_eq!(trim(s), s.trim(), "{:?}", s);
    }
}

#[test]
fn texts() {
    assert!(same_text("", ""));
    assert!(same_text("häh", "häh"));
    assert!(!same_text("a", "b"));
    assert!(!same_text("a", "ab"));
    assert!(!same_text("ab", "a"));
    assert_eq!(chars_of("aé"), vec!['a', 'é']);
    assert_eq!(string_of(&vec!['a', 'b', 'c'], 1, 3), "bc");
    assert_eq!(string_of(&vec!['a', 'b', 'c'], 2, 2), "");
    for n in [0usize, 1, 9, 10, 11, 99, 100, 12345, usize::MAX] {
        assert_eq!(decimal_string(n), n.to_string());
    }
}
