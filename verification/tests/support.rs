use std::time::Duration;
use svc_rust::archive::{
    check_entry_count, is_directory_name, plan_entry, ArchiveEntry, ArchiveError, EntryPlan,
};
use svc_rust::config::{
    AppConfig, Settings, DEFAULT_MAX_FILE_SIZE_MB, DEFAULT_SERVER_PORT, JSON_DIR_VAR,
    LARGE_JSON_DIR_VAR, LARGE_UPLOAD_DIR_VAR, MAX_FILE_SIZE_MB_VAR, SERVER_HOST_VAR,
    SERVER_PORT_VAR, UPLOAD_DIR_VAR, UPLOAD_FILE_NAME_VAR,
};
use svc_rust::dispatch::{has_json_extension, ProcessingConfig, Strategy};
use svc_rust::error::PipelineError;
use svc_rust::stats::{BatchReport, ProcessingStats};
use svc_rust::text::{decimal, parse_unsigned};
use svc_rust::types::{collect_actors, gather_actors, Actor, Event, Repo};
use svc_rust::upload::{is_upload_field, UPLOAD_FIELD};

#[test]
fn decimal_writes_numbers() {
    assert_eq!(decimal(0), "0");
    assert_eq!(decimal(7), "7");
    assert_eq!(decimal(10), "10");
    assert_eq!(decimal(500), "500");
    assert_eq!(decimal(1234567890), "1234567890");
    assert_eq!(decimal(u64::MAX), "18446744073709551615");
}

#[test]
fn parse_reads_unsigned_literals() {
    assert_eq!(parse_unsigned("0", 10), Some(0));
    assert_eq!(parse_unsigned("42", 100), Some(42));
    assert_eq!(parse_unsigned("+42", 100), Some(42));
    assert_eq!(parse_unsigned("007", 100), Some(7));
    assert_eq!(parse_unsigned("100", 100), Some(100));
    assert_eq!(parse_unsigned("101", 100), None);
    assert_eq!(parse_unsigned("65535", 65535), Some(65535));
    assert_eq!(parse_unsigned("65536", 65535), None);
    assert_eq!(parse_unsigned("18446744073709551615", u64::MAX), Some(u64::MAX));
    assert_eq!(parse_unsigned("18446744073709551616", u64::MAX), None);
    assert_eq!(parse_unsigned("99999999999999999999999", u64::MAX), None);
    assert_eq!(parse_unsigned("000000000000000000000000001", 5), Some(1));
}

#[test]
fn parse_refuses_what_is_no_literal() {
    assert_eq!(parse_unsigned("", 100), None);
    assert_eq!(parse_unsigned("+", 100), None);
    assert_eq!(parse_unsigned("-1", 100), None);
    assert_eq!(parse_unsigned("-0", 100), None);
    assert_eq!(parse_unsigned("++1", 100), None);
    assert_eq!(parse_unsigned("1+", 100), None);
    assert_eq!(parse_unsigned(" 1", 100), None);
    assert_eq!(parse_unsigned("1 ", 100), None);
    assert_eq!(parse_unsigned("1_0", 100), None);
    assert_eq!(parse_unsigned("1.0", 100), None);
    assert_eq!(parse_unsigned("0x10", 100), None);
    assert_eq!(parse_unsigned("abc", 100), None);
    assert_eq!(parse_unsigned("\u{661}\u{662}", 100), None);
    assert_eq!(parse_unsigned("1\u{e9}", 100), None);
}

#[test]
fn parse_agrees_with_the_standard_library() {
    for text in ["0", "1", "+9", "0012", "", "+", "-3", "4 ", "70000", "65535", "x", "１"] {
        assert_eq!(
            parse_unsigned(text, u16::MAX as u64),
            text.parse::<u16>().ok().map(|n| n as u64),
            "{:?}",
            text
        );
        assert_eq!(
            parse_unsigned(text, usize::MAX as u64),
            text.parse::<usize>().ok().map(|n| n as u64),
            "{:?}",
            text
        );
    }
}

#[test]
fn error_messages() {
    assert_eq!(
        PipelineError::InputTooLarge { max_mb: 500, actual_mb: 612 }.message(),
        "File too large. Max allowed: 500MB, Current: 612MB"
    );
    assert_eq!(
        PipelineError::InputTooLarge { max_mb: 0, actual_mb: 1 }.message(),
        "File too large. Max allowed: 0MB, Current: 1MB"
    );
    assert_eq!(
        PipelineError::InputUnreadable { reason: String::from("no such file") }.message(),
        "Input unreadable: no such file"
    );
    assert_eq!(
        PipelineError::OutputUnwritable { reason: String::from("disk full") }.message(),
        "Output unwritable: disk full"
    );
    assert_eq!(
        PipelineError::Serialization { index: 12 }.message(),
        "Cannot serialize the projection of record 12"
    );
}

#[test]
fn config_defaults() {
    let config = AppConfig::new(Settings::unset());
    assert_eq!(config.json_dir, "./tmp/");
    assert_eq!(config.large_json_dir, "./tmp-large/");
    assert_eq!(config.upload_dir, "./uploads/");
    assert_eq!(config.large_upload_dir, "./uploads-large/");
    assert_eq!(config.max_file_size_mb, 500);
    assert_eq!(config.upload_file_name, "upload.zip");
    assert_eq!(config.server_host, "127.0.0.1");
    assert_eq!(config.server_port, 8080);
    assert_eq!(DEFAULT_MAX_FILE_SIZE_MB, 500);
    assert_eq!(DEFAULT_SERVER_PORT, 8080);
}

#[test]
fn config_takes_what_is_set() {
    let settings = Settings {
        json_dir: Some(String::from("/data/json/")),
        large_json_dir: Some(String::from("/data/large/")),
        upload_dir: Some(String::from("/data/up/")),
        large_upload_dir: Some(String::from("/data/up-large/")),
        max_file_size_mb: Some(String::from("64")),
        upload_file_name: Some(String::from("in.zip")),
        server_host: Some(String::from("0.0.0.0")),
        server_port: Some(String::from("9000")),
    };
    let config = AppConfig::new(settings);
    assert_eq!(config.json_dir, "/data/json/");
    assert_eq!(config.large_json_dir, "/data/large/");
    assert_eq!(config.upload_dir, "/data/up/");
    assert_eq!(config.large_upload_dir, "/data/up-large/");
    assert_eq!(config.max_file_size_mb, 64);
    assert_eq!(config.upload_file_name, "in.zip");
    assert_eq!(config.server_host, "0.0.0.0");
    assert_eq!(config.server_port, 9000);
    assert_eq!(config.upload_file_path(), "/data/json/in.zip");
    assert_eq!(config.unzipped_dir(), "/data/json/unzipped/");
}

#[test]
fn config_falls_back_on_numbers_it_cannot_read() {
    let mut settings = Settings::unset();
    settings.max_file_size_mb = Some(String::from("lots"));
    settings.server_port = Some(String::from("65536"));
    let config = AppConfig::new(settings);
    assert_eq!(config.max_file_size_mb, 500);
    assert_eq!(config.server_port, 8080);
    let mut settings = Settings::unset();
    settings.max_file_size_mb = Some(String::from(""));
    settings.server_port = Some(String::from("-1"));
    let config = AppConfig::new(settings);
    assert_eq!(config.max_file_size_mb, 500);
    assert_eq!(config.server_port, 8080);
    let mut settings = Settings::unset();
    settings.max_file_size_mb = Some(String::from("0"));
    settings.server_port = Some(String::from("+65535"));
    let config = AppConfig::new(settings);
    assert_eq!(config.max_file_size_mb, 0);
    assert_eq!(config.server_port, 65535);
}

#[test]
fn config_describes_itself() {
    assert_eq!(
        AppConfig::new(Settings::unset()).describe(),
        "JSON_DIR: ./tmp/, LARGE_JSON_DIR: ./tmp-large/, UPLOAD_DIR: ./uploads/, \
         LARGE_UPLOAD_DIR: ./uploads-large/, MAX_FILE_SIZE_MB: 500, UPLOAD_FILE_NAME: upload.zip, \
         SERVER_HOST: 127.0.0.1, SERVER_PORT: 8080"
    );
}

#[test]
fn config_variable_names() {
    assert_eq!(JSON_DIR_VAR, "JSON_DIR");
    assert_eq!(LARGE_JSON_DIR_VAR, "LARGE_JSON_DIR");
    assert_eq!(UPLOAD_DIR_VAR, "UPLOAD_DIR");
    assert_eq!(LARGE_UPLOAD_DIR_VAR, "LARGE_UPLOAD_DIR");
    assert_eq!(MAX_FILE_SIZE_MB_VAR, "MAX_FILE_SIZE_MB");
    assert_eq!(UPLOAD_FILE_NAME_VAR, "UPLOAD_FILE_NAME");
    assert_eq!(SERVER_HOST_VAR, "SERVER_HOST");
    assert_eq!(SERVER_PORT_VAR, "SERVER_PORT");
}

fn stats(total: usize, processed: usize, errors: usize, millis: u64) -> ProcessingStats {
    ProcessingStats {
        total_records: total,
        processed_records: processed,
        error_records: errors,
        processing_time: Duration::from_millis(millis),
        output_file: String::from("x.json"),
    }
}

#[test]
fn empty_stats_count_nothing() {
    let total = ProcessingStats::empty();
    assert_eq!(total.total_records, 0);
    assert_eq!(total.processed_records, 0);
    assert_eq!(total.error_records, 0);
    assert_eq!(total.processing_time, Duration::new(0, 0));
    assert_eq!(total.processing_nanos(), 0);
    assert_eq!(total.output_file, "");
}

#[test]
fn processing_nanos_is_the_whole_span() {
    let mut s = stats(0, 0, 0, 0);
    s.processing_time = Duration::new(1, 5);
    assert_eq!(s.processing_nanos(), 1_000_000_005);
}

#[test]
fn stats_absorb_a_finished_run() {
    let mut total = ProcessingStats::empty();
    assert!(total.absorb(&stats(3, 2, 1, 40)));
    assert!(total.absorb(&stats(10, 10, 0, 2)));
    assert_eq!(total.total_records, 13);
    assert_eq!(total.processed_records, 12);
    assert_eq!(total.error_records, 1);
    assert_eq!(total.processing_time, Duration::from_millis(42));
    assert_eq!(total.output_file, "");
    assert_eq!(total.total_records, total.processed_records + total.error_records);
}

#[test]
fn stats_leave_a_sum_that_does_not_fit() {
    let mut total = stats(usize::MAX, 1, 1, 7);
    assert!(!total.absorb(&stats(1, 1, 0, 1)));
    assert_eq!(total.total_records, usize::MAX);
    assert_eq!(total.processed_records, 1);
    assert_eq!(total.error_records, 1);
    assert_eq!(total.processing_time, Duration::from_millis(7));
    let mut total = stats(2, 0, usize::MAX, 7);
    assert!(!total.absorb(&stats(1, 0, 1, 1)));
    assert_eq!(total.total_records, 2);
    assert_eq!(total.error_records, usize::MAX);
    let mut total = stats(1, 1, 0, 0);
    total.processing_time = Duration::MAX;
    let mut run = stats(1, 1, 0, 0);
    run.processing_time = Duration::new(0, 1);
    assert!(!total.absorb(&run));
    assert_eq!(total.total_records, 1);
    assert_eq!(total.processing_time, Duration::MAX);
    let mut total = stats(1, 1, 0, 0);
    total.processing_time = Duration::MAX - Duration::new(0, 1);
    let mut run = stats(1, 1, 0, 0);
    run.processing_time = Duration::new(0, 1);
    assert!(total.absorb(&run));
    assert_eq!(total.total_records, 2);
    assert_eq!(total.processing_time, Duration::MAX);
}

#[test]
fn report_starts_empty() {
    let report = BatchReport::new();
    assert_eq!(report.totals.total_records, 0);
    assert_eq!(report.totals.processed_records, 0);
    assert_eq!(report.totals.error_records, 0);
    assert_eq!(report.totals.processing_time, Duration::new(0, 0));
    assert_eq!(report.totals.output_file, "");
    assert!(report.failures.is_empty());
}

#[test]
fn report_sums_the_runs_that_finished() {
    let mut report = BatchReport::new();
    assert!(report.record(String::from("a.json"), Ok(stats(3, 2, 1, 40))));
    assert!(report.record(String::from("b.json"), Ok(stats(10, 10, 0, 2))));
    assert_eq!(report.totals.total_records, 13);
    assert_eq!(report.totals.processed_records, 12);
    assert_eq!(report.totals.error_records, 1);
    assert_eq!(report.totals.processing_time, Duration::from_millis(42));
    assert!(report.failures.is_empty());
}

#[test]
fn report_records_a_failed_run_against_its_file() {
    let mut report = BatchReport::new();
    assert!(report.record(String::from("a.json"), Ok(stats(5, 4, 1, 9))));
    let too_large = PipelineError::InputTooLarge { max_mb: 1, actual_mb: 2 };
    assert!(report.record(String::from("big.json"), Err(too_large.clone())));
    let unreadable = PipelineError::InputUnreadable { reason: String::from("gone") };
    assert!(report.record(String::from("gone.json"), Err(unreadable.clone())));
    assert!(report.record(String::from("c.json"), Ok(stats(1, 1, 0, 1))));
    assert_eq!(report.totals.total_records, 6);
    assert_eq!(report.totals.processed_records, 5);
    assert_eq!(report.totals.error_records, 1);
    assert_eq!(report.totals.processing_time, Duration::from_millis(10));
    assert_eq!(
        report.totals.total_records,
        report.totals.processed_records + report.totals.error_records
    );
    assert_eq!(report.failures.len(), 2);
    assert_eq!(report.failures[0].file_name, "big.json");
    assert_eq!(report.failures[0].error, too_large);
    assert_eq!(report.failures[1].file_name, "gone.json");
    assert_eq!(report.failures[1].error, unreadable);
}

#[test]
fn report_leaves_a_run_whose_sums_do_not_fit() {
    let mut report = BatchReport::new();
    assert!(report.record(String::from("a.json"), Ok(stats(usize::MAX, usize::MAX, 0, 3))));
    assert!(!report.record(String::from("b.json"), Ok(stats(1, 1, 0, 1))));
    assert_eq!(report.totals.total_records, usize::MAX);
    assert_eq!(report.totals.processed_records, usize::MAX);
    assert_eq!(report.totals.processing_time, Duration::from_millis(3));
    assert!(report.failures.is_empty());
}

fn actor(id: i64) -> Actor {
    Actor { id: Some(id), ..Actor::default() }
}

fn event(actor: Option<Actor>) -> Event {
    Event { actor, ..Event::default() }
}

#[test]
fn actors_are_collected_in_order() {
    let events = vec![event(Some(actor(1))), event(None), event(Some(actor(2))), event(Some(actor(3))), event(None)];
    assert_eq!(collect_actors(events), vec![actor(1), actor(2), actor(3)]);
    assert_eq!(collect_actors(vec![]), vec![]);
    assert_eq!(collect_actors(vec![event(None)]), vec![]);
}

#[test]
fn actors_are_gathered_list_after_list() {
    let lists = vec![vec![actor(1), actor(2)], vec![], vec![actor(3)], vec![actor(4), actor(5)]];
    assert_eq!(gather_actors(lists), vec![actor(1), actor(2), actor(3), actor(4), actor(5)]);
    assert_eq!(gather_actors(vec![]), vec![]);
    assert_eq!(gather_actors(vec![vec![], vec![]]), vec![]);
}

#[test]
fn typed_records_have_defaults() {
    let e = Event::default();
    assert_eq!(e.id, None);
    assert_eq!(e.type_field, None);
    assert_eq!(e.actor, None);
    assert_eq!(e.repo, None);
    assert!(!e.public);
    assert_eq!(e.created_at, None);
    let r = Repo::default();
    assert_eq!(r.id, None);
    assert_eq!(r.name, None);
    assert_eq!(r.url, None);
}

#[test]
fn dispatcher_selects_json_files_but_its_own_output() {
    let pass = ProcessingConfig::for_json_dir();
    assert_eq!(pass.exclude_filename, "actors.json");
    assert_eq!(pass.output_filename, "actors.json");
    assert_eq!(pass.strategy, Strategy::WholeFile);
    assert!(pass.selects(Some("a.json"), Some("json")));
    assert!(!pass.selects(Some("actors.json"), Some("json")));
    assert!(pass.selects(Some("actors-stream.json"), Some("json")));
    assert!(!pass.selects(Some("a.txt"), Some("txt")));
    assert!(!pass.selects(Some("json"), None));
    assert!(!pass.selects(Some("a.JSON"), Some("JSON")));
    assert!(pass.selects(None, Some("json")));
    assert!(!pass.selects(None, None));
    let pass = ProcessingConfig::for_large_json_dir();
    assert_eq!(pass.exclude_filename, "actors-stream.json");
    assert_eq!(pass.output_filename, "actors-stream.json");
    assert_eq!(pass.strategy, Strategy::Streamed);
    assert!(pass.selects(Some("actors.json"), Some("json")));
    assert!(!pass.selects(Some("actors-stream.json"), Some("json")));
    let pass = ProcessingConfig::default();
    assert_eq!(pass.exclude_filename, "actors.json");
    assert_eq!(pass.strategy, Strategy::WholeFile);
}

#[test]
fn dispatcher_names_its_directory_and_output() {
    let config = AppConfig::new(Settings::unset());
    let pass = ProcessingConfig::for_json_dir();
    assert_eq!(pass.scanned_dir(&config), "./tmp/");
    assert_eq!(pass.output_path(pass.scanned_dir(&config)), "./tmp/actors.json");
    let pass = ProcessingConfig::for_large_json_dir();
    assert_eq!(pass.scanned_dir(&config), "./tmp-large/");
    assert_eq!(pass.output_path(pass.scanned_dir(&config)), "./tmp-large/actors-stream.json");
}

#[test]
fn json_extension() {
    assert!(has_json_extension(Some("json")));
    assert!(!has_json_extension(Some("jsonl")));
    assert!(!has_json_extension(Some("")));
    assert!(!has_json_extension(None));
}

#[test]
fn upload_field_is_named_file() {
    assert_eq!(UPLOAD_FIELD, "file");
    assert!(is_upload_field(Some("file")));
    assert!(!is_upload_field(Some("File")));
    assert!(!is_upload_field(Some("UNKNOWN")));
    assert!(!is_upload_field(Some("")));
    assert!(!is_upload_field(None));
}

fn entry(name: &str, size: u64, enclosed: Option<&str>) -> ArchiveEntry {
    ArchiveEntry { name: String::from(name), size, enclosed_name: enclosed.map(String::from) }
}

#[test]
fn archive_without_entries_is_turned_away() {
    assert_eq!(check_entry_count(0), Err(ArchiveError::Empty));
    assert_eq!(check_entry_count(1), Ok(()));
    assert_eq!(check_entry_count(usize::MAX), Ok(()));
}

#[test]
fn archive_entries_are_planned() {
    assert_eq!(
        plan_entry(entry("a/b.json", 10, Some("a/b.json"))),
        Ok(EntryPlan::File { path: String::from("a/b.json") })
    );
    assert_eq!(
        plan_entry(entry("dir/", 1, Some("dir"))),
        Ok(EntryPlan::Directory { path: String::from("dir") })
    );
    assert_eq!(
        plan_entry(entry("../evil.json", 10, None)),
        Err(ArchiveError::UnsafePath { name: String::from("../evil.json") })
    );
    assert_eq!(
        plan_entry(entry("../evil/", 10, None)),
        Err(ArchiveError::UnsafePath { name: String::from("../evil/") })
    );
    assert_eq!(
        plan_entry(entry("empty.json", 0, Some("empty.json"))),
        Err(ArchiveError::Corrupted { name: String::from("empty.json") })
    );
    assert_eq!(
        plan_entry(entry("dir/", 0, Some("dir"))),
        Err(ArchiveError::Corrupted { name: String::from("dir/") })
    );
    assert_eq!(
        plan_entry(entry("../x", 0, None)),
        Err(ArchiveError::Corrupted { name: String::from("../x") })
    );
    assert_eq!(
        plan_entry(entry("caf\u{e9}/", 3, Some("caf\u{e9}"))),
        Ok(EntryPlan::Directory { path: String::from("caf\u{e9}") })
    );
}

#[test]
fn directory_names_end_in_a_slash() {
    assert!(is_directory_name("a/"));
    assert!(is_directory_name("/"));
    assert!(!is_directory_name(""));
    assert!(!is_directory_name("a/b"));
    assert!(!is_directory_name("a\\"));
    assert!(is_directory_name("\u{4e16}\u{754c}/"));
    assert!(!is_directory_name("/\u{4e16}"));
}

#[test]
fn archive_messages() {
    assert_eq!(ArchiveError::Missing.message(), "File does not exist");
    assert_eq!(ArchiveError::NotAFile.message(), "Path is not a file");
    assert_eq!(ArchiveError::Empty.message(), "ZIP archive is empty");
    assert_eq!(
        ArchiveError::Corrupted { name: String::from("a.json") }.message(),
        "File a.json is corrupted"
    );
    assert_eq!(
        ArchiveError::UnsafePath { name: String::from("../a.json") }.message(),
        "File ../a.json has an unsafe path"
    );
}
