use crunchy_log::clock::timestamp;
use crunchy_log::level::{Level, LevelFilter};
use crunchy_log::producer::{progress, progress_pause};
use crunchy_log::record::{channel, normalize_target, Channel, Record};
use crunchy_log::render::{above_line, extended_line, terse_line};
use crunchy_log::sink::{Action, CliLogger, InitError};
use crunchy_log::style::{finish_glyph, spinner_template, tick_strings, TICK_MILLIS};
use crunchy_log::text::{digits_of, has_prefix, same_text};

#[test]
fn timestamps_are_utc_to_the_second() {
    assert_eq!(timestamp(0), Some("1970-01-01 00:00:00".to_string()));
    assert_eq!(timestamp(1_704_164_645), Some("2024-01-02 03:04:05".to_string()));
    assert_eq!(timestamp(-1), Some("1969-12-31 23:59:59".to_string()));
    assert_eq!(timestamp(951_827_696), Some("2000-02-29 12:34:56".to_string()));
}

#[test]
fn instants_without_a_date_have_no_timestamp() {
    assert_eq!(timestamp(i64::MAX), None);
    assert_eq!(timestamp(i64::MIN), None);
}

#[test]
fn levels_are_ordered_by_severity() {
    let levels = [Level::Error, Level::Warn, Level::Info, Level::Debug, Level::Trace];
    let ranks: Vec<u8> = levels.iter().map(|l| l.rank()).collect();
    assert_eq!(ranks, vec![1, 2, 3, 4, 5]);
    let names: Vec<&str> = levels.iter().map(|l| l.as_str()).collect();
    assert_eq!(names, vec!["ERROR", "WARN", "INFO", "DEBUG", "TRACE"]);
}

#[test]
fn verbosity_admits_what_is_at_least_as_severe() {
    let filters = [
        LevelFilter::Off,
        LevelFilter::Error,
        LevelFilter::Warn,
        LevelFilter::Info,
        LevelFilter::Debug,
        LevelFilter::Trace,
    ];
    let levels = [Level::Error, Level::Warn, Level::Info, Level::Debug, Level::Trace];
    for (f, filter) in filters.iter().enumerate() {
        assert_eq!(filter.rank() as usize, f);
        assert_eq!(filter.is_verbose(), f >= 4);
        for (l, level) in levels.iter().enumerate() {
            assert_eq!(filter.admits(*level), l + 1 <= f);
            assert_eq!(CliLogger::new(*filter).enabled(*level), l + 1 <= f);
        }
    }
}

#[test]
fn targets_have_channels() {
    assert_eq!(channel("progress"), Some(Channel::Begin));
    assert_eq!(channel("progress_pause"), Some(Channel::Pause));
    assert_eq!(channel("progress_end"), Some(Channel::End));
    assert_eq!(channel("crunchy_cli"), Some(Channel::Plain));
    assert_eq!(channel("crunchy_cli::x"), Some(Channel::Plain));
    assert_eq!(channel("crunchy_cli_core::utils"), Some(Channel::Plain));
    assert_eq!(channel("unrelated_crate"), None);
    assert_eq!(channel("progress_"), None);
    assert_eq!(channel("progress_ended"), None);
    assert_eq!(channel("crunchy_cl"), None);
    assert_eq!(channel("my::crunchy_cli"), None);
    assert_eq!(channel(""), None);
}

#[test]
fn shown_targets_collapse_to_the_prefix() {
    assert_eq!(normalize_target("progress"), "crunchy_cli");
    assert_eq!(normalize_target("progress_pause"), "crunchy_cli");
    assert_eq!(normalize_target("progress_end"), "crunchy_cli");
    assert_eq!(normalize_target("crunchy_cli_core"), "crunchy_cli");
    assert_eq!(normalize_target("crunchy_cli_core::utils::log"), "crunchy_cli::utils::log");
    assert_eq!(normalize_target("crunchy_cli::search"), "crunchy_cli::search");
    assert_eq!(normalize_target("crunchy_cli"), "crunchy_cli");
    assert_eq!(normalize_target("other"), "other");
}

#[test]
fn thread_text_is_cut_down_to_digits() {
    assert_eq!(digits_of("ThreadId(7)"), "7");
    assert_eq!(digits_of("ThreadId(1024)"), "1024");
    assert_eq!(digits_of("12"), "12");
    assert_eq!(digits_of("main"), "");
    assert_eq!(digits_of(""), "");
    assert_eq!(digits_of("a1\u{2192}2)3"), "123");
}

#[test]
fn texts_compare_by_characters() {
    assert!(same_text("", ""));
    assert!(same_text("progress", "progress"));
    assert!(!same_text("progress", "progresz"));
    assert!(!same_text("progress", "progress_end"));
    assert!(same_text("\u{2714}", "\u{2714}"));
    assert!(!same_text("\u{2714}", "\u{221a}"));
    assert!(has_prefix("crunchy_cli::x", "crunchy_cli"));
    assert!(has_prefix("crunchy_cli", "crunchy_cli"));
    assert!(has_prefix("anything", ""));
    assert!(!has_prefix("crunchy", "crunchy_cli"));
    assert!(!has_prefix("xcrunchy_cli", "crunchy_cli"));
    assert!(has_prefix("\u{2014}\u{2014}x", "\u{2014}"));
}

#[test]
fn lines_have_their_shapes() {
    assert_eq!(terse_line("boom"), ":: boom");
    assert_eq!(terse_line(""), ":: ");
    assert_eq!(above_line("got item"), ":: \u{2192} got item");
    let record = Record::new(Level::Warn, "crunchy_cli_core::api", "slow", "ThreadId(12)");
    assert_eq!(
        extended_line("2024-01-02 03:04:05", &record),
        "[2024-01-02 03:04:05] WARN  crunchy_cli::api (12) slow"
    );
}

#[test]
fn sink_renders_by_stream() {
    let sink = CliLogger::new(LevelFilter::Info);
    let record = Record::new(Level::Debug, "crunchy_cli", "text", "ThreadId(3)");
    assert_eq!(sink.normal(&record), Action::Stdout(":: text".to_string()));
    assert_eq!(sink.error(&record), Action::Stderr(":: text".to_string()));
    assert_eq!(
        sink.extended(&record, "1999-12-31 23:59:59"),
        Action::Stdout("[1999-12-31 23:59:59] DEBUG  crunchy_cli (3) text".to_string())
    );
    assert_eq!(sink.level(), LevelFilter::Info);
}

#[test]
fn progress_begins_interleaves_and_ends() {
    let mut sink = CliLogger::new(LevelFilter::Info);
    let record = Record::new(Level::Info, "progress", "load", "ThreadId(1)");
    let empty = Record::new(Level::Info, "progress_end", "", "ThreadId(1)");

    assert_eq!(sink.progress(&empty, true), Action::Skip);
    assert!(sink.spinner().is_none());
    assert_eq!(sink.progress(&record, false), Action::Start("load".to_string()));
    assert_eq!(sink.progress(&record, false), Action::Above(":: \u{2192} load".to_string()));
    assert_eq!(sink.pause(), Action::Hide);
    assert_eq!(sink.pause(), Action::Show);
    assert_eq!(sink.progress(&empty, true), Action::Finish("load".to_string()));
    assert!(sink.spinner().is_none());
    assert_eq!(sink.pause(), Action::Skip);

    assert_eq!(sink.progress(&record, false), Action::Start("load".to_string()));
    let named = Record::new(Level::Info, "progress_end", "loaded", "ThreadId(1)");
    assert_eq!(sink.progress(&named, true), Action::Finish("loaded".to_string()));
    assert!(sink.spinner().is_none());
}

#[test]
fn a_sink_is_installed_once() {
    let mut place: Option<CliLogger> = None;
    assert_eq!(CliLogger::init(&mut place, LevelFilter::Info), Ok(()));
    let installed = place.as_ref().expect("installed");
    assert_eq!(installed.level(), LevelFilter::Info);
    assert!(installed.spinner().is_none());

    assert_eq!(CliLogger::init(&mut place, LevelFilter::Debug), Err(InitError::AlreadyInstalled));
    assert_eq!(place.as_ref().expect("still installed").level(), LevelFilter::Info);
}

#[test]
fn a_guard_ends_its_progress_once() {
    let (begin, guard) = progress("job");
    assert_eq!(begin.level, Level::Info);
    assert_eq!(begin.target, "progress");
    assert_eq!(begin.message, "job");
    assert!(!guard.is_stopped());
    let end = guard.stop("finished");
    assert_eq!(end.level, Level::Info);
    assert_eq!(end.target, "progress_end");
    assert_eq!(end.message, "finished");

    let (_, dropped) = progress("job");
    let end = dropped.release().expect("one end");
    assert_eq!(end.level, Level::Info);
    assert_eq!(end.target, "progress_end");
    assert_eq!(end.message, "");

    let pause = progress_pause();
    assert_eq!(pause.level, Level::Info);
    assert_eq!(pause.target, "progress_pause");
    assert_eq!(pause.message, "");
}

#[test]
fn emissions_become_records_on_a_thread() {
    let (begin, _guard) = progress("job");
    let record = begin.on_thread("ThreadId(9)");
    assert_eq!(record, Record::new(Level::Info, "progress", "job", "ThreadId(9)"));
    assert_eq!(record.thread, "ThreadId(9)");
}

#[test]
fn the_spinner_has_five_frames() {
    assert_eq!(tick_strings(false), vec!["\u{2014}", "\\", "|", "/", "\u{2714}"]);
    assert_eq!(tick_strings(true), vec!["\u{2014}", "\\", "|", "/", "\u{221a}"]);
    assert_eq!(finish_glyph(false), "\u{2714}");
    assert_eq!(finish_glyph(true), "\u{221a}");
    assert_eq!(spinner_template(), ":: {spinner} {msg}");
    assert_eq!(TICK_MILLIS, 200);
}
