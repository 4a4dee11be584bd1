use boe::clock::{Span, Timestamp};
use boe::connection::{conn_cache_duration, CachedConnection};
use boe::fetching::{plan_fetch, FetchPlan, Fetching, Happening, Task};
use boe::listing::{parse_listing, present, ListEntry};
use boe::plates::{choose_plate, newest_plate, parse_plate_index};
use boe::printer_spy::FilePath;
use boe::search::{
    can_be_searched, default_search_dirs, fetch_location, has_file_name, is_fetchable,
    is_searchable, FtpCommand, FtpReply, Interrogation, Progress,
};
use boe::slurper::{CurrentGcode, Gcode, GcodeError, GcodeMeta, GcodeMetaSource};
use std::io::Write;
use std::sync::Arc;

fn at(secs: u64) -> Timestamp {
    Timestamp::AfterEpoch(Span { secs, nanos: 0 })
}

fn entry(name: &str, secs: u64, size: usize) -> ListEntry {
    ListEntry { name: name.to_string(), modified: at(secs), size }
}

fn stripped(path: &str) -> FilePath {
    FilePath::StrippedPath(path.to_string())
}

fn inside(sdcard: &str, subpath: &str) -> FilePath {
    FilePath::Inside3MF { sdcard: sdcard.to_string(), subpath: subpath.to_string() }
}

fn shown<T: std::fmt::Debug>(value: &T) -> String {
    format!("{value:?}")
}

fn meta(source: GcodeMetaSource) -> GcodeMeta {
    GcodeMeta { source, modified_time: at(5), original_filesize: 7 }
}

fn resolved(file: FilePath) -> GcodeMeta {
    meta(GcodeMetaSource::Resolved(file))
}

fn pending(known: &str, hint_plate_file: Option<usize>) -> GcodeMeta {
    meta(GcodeMetaSource::Pending3MF { known: known.to_string(), hint_plate_file })
}

fn bytes(content: &[u8]) -> Arc<[u8]> {
    Arc::from(content)
}

fn archive(files: &[(&str, &[u8])]) -> Arc<[u8]> {
    let mut writer = zip::ZipWriter::new(std::io::Cursor::new(Vec::new()));
    for (name, content) in files {
        writer.start_file(*name, zip::write::SimpleFileOptions::default()).unwrap();
        writer.write_all(content).unwrap();
    }
    Arc::from(writer.finish().unwrap().into_inner())
}

fn begin(target: FilePath) -> Progress {
    Interrogation::start(target, default_search_dirs())
}

fn asked(progress: Progress) -> (Interrogation, String) {
    match progress {
        Progress::Ask(search, FtpCommand::ChangeDir(dir)) => (search, dir),
        Progress::Ask(search, FtpCommand::List) => (search, "LIST".to_string()),
        other => panic!("{other:?}"),
    }
}

fn found(progress: Progress) -> GcodeMeta {
    match progress {
        Progress::Found(meta, path) => {
            assert!(is_fetchable(&path));
            meta
        }
        other => panic!("{other:?}"),
    }
}

#[test]
fn lines_begin_after_breaks() {
    for (content, lines) in [
        ("", vec![]),
        ("G0", vec![0]),
        ("\n", vec![0]),
        ("G0\n", vec![0]),
        ("G0\nG1", vec![0, 3]),
        ("G0\n\nG1\n", vec![0, 3, 4]),
        ("\n\n", vec![0, 1]),
    ] {
        let gcode = Gcode::new(resolved(stripped("/a")), bytes(content.as_bytes()));
        assert_eq!(&gcode.line_table[..], &lines[..], "{content:?}");
        assert_eq!(&gcode.content[..], content.as_bytes());
    }
}

#[test]
fn listings_are_read_line_by_line() {
    let lines = vec![
        "total 3".to_string(),
        "-rw-rw-r-- 1 root  dialout  8192 Nov 5 2018 omar.txt".to_string(),
        "drwxrwxr-x 1 root  dialout  4096 Nov 5 2018 my files".to_string(),
        "nonsense".to_string(),
        "04-08-14  03:09PM  403   readme.txt".to_string(),
    ];
    let entries = parse_listing(&lines);
    assert_eq!(
        shown(&entries),
        shown(&vec![
            entry("omar.txt", 1541376000, 8192),
            entry("my files", 1541376000, 4096),
            entry("readme.txt", 1396969740, 403),
        ])
    );
    assert!(parse_listing(&Vec::new()).is_empty());
}

#[test]
fn dates_without_a_year_are_read() {
    let lines = vec!["-rw-r--r-- 1 u g 12 Nov 5 16:32 plate.gcode".to_string()];
    let entries = parse_listing(&lines);
    assert_eq!(entries.len(), 1);
    assert_eq!((entries[0].name.as_str(), entries[0].size), ("plate.gcode", 12));
    assert!(matches!(entries[0].modified, Timestamp::AfterEpoch(_)));
}

#[test]
fn what_was_read_keeps_its_order() {
    let kept = present(vec![None, Some(entry("a", 1, 1)), None, Some(entry("b", 2, 2))]);
    assert_eq!(shown(&kept), shown(&vec![entry("a", 1, 1), entry("b", 2, 2)]));
}

#[test]
fn plate_numbers_are_read() {
    assert_eq!(parse_plate_index("Metadata/plate_", "Metadata/plate_12.gcode"), Some(12));
    assert_eq!(parse_plate_index("Metadata/plate_", "Metadata/plate_007.gcode"), Some(7));
    assert_eq!(parse_plate_index("Metadata/plate_", "Metadata/plate_1.gcode.md5"), None);
    assert_eq!(parse_plate_index("Metadata/plate_", "xMetadata/plate_1.gcode"), None);
    assert_eq!(parse_plate_index("Metadata/plate_", "Metadata/plate_.gcode"), None);
    assert_eq!(
        parse_plate_index("Metadata/plate_", "Metadata/plate_99999999999999999999999.gcode"),
        None
    );
}

#[test]
fn plate_numbers_are_those_of_the_pattern() {
    let member = regex::Regex::new(r"^Metadata/plate_(\d+).gcode$").unwrap();
    let cached = regex::Regex::new(r"^_plate_(\d+).gcode$").unwrap();
    let number = |pattern: &regex::Regex, name: &str| {
        pattern
            .captures(name)
            .and_then(|c| c.get(1).and_then(|m| m.as_str().parse::<usize>().ok()))
    };
    let tails = [
        "1.gcode",
        "12.gcode",
        "12gcode",
        "1gcode",
        "gcode",
        ".gcode",
        "1..gcode",
        "1-gcode",
        "1\ngcode",
        "1.gcode\n",
        "1.gcodex",
        "1x.gcode",
        "x1.gcode",
        "-1.gcode",
        "+1.gcode",
        "00018446744073709551615.gcode",
        "18446744073709551616.gcode",
        "\u{0661}.gcode",
        "1\u{0661}gcode",
        "1\u{1F600}gcode",
        "",
    ];
    for tail in tails {
        let name = format!("Metadata/plate_{tail}");
        let expected = number(&member, &name);
        assert_eq!(parse_plate_index("Metadata/plate_", &name), expected, "{name:?}");
        let name = format!("_plate_{tail}");
        assert_eq!(parse_plate_index("_plate_", &name), number(&cached, &name), "{name:?}");
    }
}

#[test]
fn hinted_plate_is_chosen_or_else_the_first() {
    let names: Vec<String> = [
        "3D/model.xml",
        "Metadata/plate_3.gcode",
        "Metadata/plate_1.gcode",
        "Metadata/plate_01.gcode",
    ]
    .iter()
    .map(|x| x.to_string())
    .collect();
    assert_eq!(choose_plate(&names, Some(1)).as_deref(), Some("Metadata/plate_1.gcode"));
    assert_eq!(choose_plate(&names, Some(2)).as_deref(), Some("Metadata/plate_3.gcode"));
    assert_eq!(choose_plate(&names, None).as_deref(), Some("Metadata/plate_3.gcode"));
    assert_eq!(choose_plate(&names[..1].to_vec(), Some(3)), None);
    assert_eq!(choose_plate(&Vec::new(), None), None);
}

#[test]
fn newest_cached_plate_is_hinted_at() {
    let entries = vec![
        entry("cube_plate_1.gcode", 10, 1),
        entry("cube_plate_2.gcode", 30, 1),
        entry("cube_plate_3.gcode", 30, 1),
        entry("ball_plate_4.gcode", 99, 1),
        entry("cube_plate_x.gcode", 99, 1),
    ];
    assert_eq!(newest_plate(&entries, "cube"), Some(2));
    assert_eq!(newest_plate(&entries, "ball"), Some(4));
    assert_eq!(newest_plate(&entries, "cone"), None);
    assert_eq!(newest_plate(&Vec::new(), "cube"), None);
    let old = ListEntry {
        name: "cube_plate_5.gcode".to_string(),
        modified: Timestamp::BeforeEpoch(Span { secs: 1, nanos: 0 }),
        size: 0,
    };
    assert_eq!(newest_plate(&vec![old, entry("cube_plate_6.gcode", 0, 0)], "cube"), Some(6));
}

#[test]
fn paths_that_can_be_fetched() {
    assert!(is_fetchable("/a.gcode"));
    assert!(is_fetchable("/model/a.gcode/"));
    assert!(!is_fetchable("a.gcode"));
    assert!(!is_fetchable("/"));
    assert!(!is_fetchable("/a/.."));
    assert!(is_searchable(&stripped("a.gcode")));
    assert!(is_searchable(&stripped("..")));
    assert!(!is_searchable(&stripped("/..")));
    assert!(!is_searchable(&FilePath::NoJob));
    assert!(is_searchable(&inside("/c.3mf", "p")));
    assert!(has_file_name("a/b") && !has_file_name("a/..") && !has_file_name(""));
}

#[test]
fn files_are_fetched_from_their_directory() {
    assert_eq!(fetch_location("/model/a.gcode"), ("/model".to_string(), "a.gcode".to_string()));
    assert_eq!(fetch_location("/a.gcode"), ("/".to_string(), "a.gcode".to_string()));
    assert_eq!(fetch_location("/x//y/z/"), ("/x//y".to_string(), "z".to_string()));
}

#[test]
fn rooted_file_is_looked_for_in_its_directory() {
    let (search, dir) = asked(begin(stripped("/sub/a.gcode")));
    assert_eq!(dir, "/sub");
    let (search, command) = asked(search.advance(FtpReply::Entered));
    assert_eq!(command, "LIST");
    let listing = vec![entry("b.gcode", 1, 1), entry("a.gcode", 2, 3), entry("a.gcode", 4, 5)];
    let meta = found(search.advance(FtpReply::Listing(listing)));
    assert_eq!(
        shown(&meta),
        shown(&GcodeMeta {
            source: GcodeMetaSource::Resolved(stripped("/sub/a.gcode")),
            modified_time: at(2),
            original_filesize: 3
        })
    );
}

#[test]
fn rooted_file_is_looked_for_nowhere_else() {
    let (search, _) = asked(begin(stripped("/sub/a.gcode")));
    let (search, _) = asked(search.advance(FtpReply::Entered));
    assert!(matches!(search.advance(FtpReply::Listing(vec![])), Progress::NotFound));
    let (search, _) = asked(begin(stripped("/sub/a.gcode")));
    assert!(matches!(search.advance(FtpReply::Unavailable), Progress::Failed));
}

#[test]
fn other_file_is_looked_for_at_the_top_and_among_models() {
    let (search, dir) = asked(begin(stripped("sub/a.gcode")));
    assert_eq!(dir, "/");
    let (search, _) = asked(search.advance(FtpReply::Entered));
    let (search, dir) = asked(search.advance(FtpReply::Listing(vec![entry("b", 1, 1)])));
    assert_eq!(dir, "/models");
    let (search, _) = asked(search.advance(FtpReply::Entered));
    let meta = found(search.advance(FtpReply::Listing(vec![entry("a.gcode", 1, 1)])));
    assert_eq!(meta.source.targeted_filename(), "/models/a.gcode");
}

#[test]
fn file_at_the_top_is_found_there() {
    let (search, _) = asked(begin(stripped("a.gcode")));
    let (search, _) = asked(search.advance(FtpReply::Entered));
    let meta = found(search.advance(FtpReply::Listing(vec![entry("a.gcode", 1, 1)])));
    assert_eq!(meta.source.targeted_filename(), "/a.gcode");
}

#[test]
fn missing_directories_are_passed_over() {
    let (search, _) = asked(begin(stripped("a.gcode")));
    let (search, dir) = asked(search.advance(FtpReply::Unavailable));
    assert_eq!(dir, "/models");
    assert!(matches!(search.advance(FtpReply::Unavailable), Progress::NotFound));
}

#[test]
fn failed_commands_end_the_search() {
    let (search, _) = asked(begin(stripped("a.gcode")));
    assert!(matches!(search.advance(FtpReply::Failed), Progress::Failed));
    let (search, _) = asked(begin(stripped("a.gcode")));
    let (search, _) = asked(search.advance(FtpReply::Entered));
    assert!(matches!(search.advance(FtpReply::Unavailable), Progress::Failed));
}

#[test]
fn search_asks_for_at_most_six_commands() {
    let mut count: usize = 1;
    let (mut search, _) = asked(begin(stripped("a.3mf")));
    let replies = [
        FtpReply::Entered,
        FtpReply::Listing(vec![]),
        FtpReply::Entered,
        FtpReply::Listing(vec![entry("a.3mf", 1, 1)]),
        FtpReply::Entered,
    ];
    for reply in replies {
        search = asked(search.advance(reply)).0;
        count += 1;
    }
    assert_eq!(count, 6);
    found(search.advance(FtpReply::Listing(vec![])));
}

#[test]
fn announced_3mf_is_taken_as_announced() {
    let (search, _) = asked(begin(inside("cube.3mf", "Metadata/plate_2.gcode")));
    let (search, _) = asked(search.advance(FtpReply::Entered));
    let meta = found(search.advance(FtpReply::Listing(vec![entry("cube.3mf", 8, 9)])));
    assert_eq!(
        shown(&meta.source),
        shown(&GcodeMetaSource::Resolved(inside("cube.3mf", "Metadata/plate_2.gcode")))
    );
    assert_eq!((meta.modified_time, meta.original_filesize), (at(8), 9));
}

#[test]
fn announced_3mf_is_fetched_from_where_it_was_found() {
    let dirs = default_search_dirs();
    for (sdcard, replies, expected) in [
        ("cube.3mf", vec![FtpReply::Entered], "/cube.3mf"),
        ("a/cube.3mf", vec![FtpReply::Unavailable, FtpReply::Entered], "/models/cube.3mf"),
        ("/a/cube.3mf", vec![FtpReply::Entered], "/a/cube.3mf"),
    ] {
        let target = inside(sdcard, "Metadata/plate_2.gcode");
        let mut fetching = Fetching::Idle;
        let mut served = CurrentGcode::default();
        fetching.step(Happening::File(target), &dirs, &mut served);
        fetching.step(Happening::Connected, &dirs, &mut served);
        for reply in replies {
            fetching.step(Happening::Reply(reply), &dirs, &mut served);
        }
        let listing = FtpReply::Listing(vec![entry("cube.3mf", 8, 9)]);
        let (task, _) = fetching.step(Happening::Reply(listing), &dirs, &mut served);
        match task {
            Task::Retrieve { path, size } => assert_eq!((path.as_str(), size), (expected, 9)),
            other => panic!("{sdcard}: {other:?}"),
        }
        let content = archive(&[("Metadata/plate_2.gcode", b"G28")]);
        let (_, told) = fetching.step(Happening::Content(content), &dirs, &mut served);
        assert!(told);
        match &served {
            CurrentGcode::Current(gcode) => {
                assert_eq!(&gcode.content[..], b"G28");
                assert_eq!(gcode.meta.source.targeted_filename(), sdcard);
            }
            other => panic!("{sdcard}: {other:?}"),
        }
    }
}

#[test]
fn chosen_plate_is_fetched_again() {
    let content = archive(&[("Metadata/plate_1.gcode", b"one")]);
    let gcode = pending("/c.3mf", None).resolve(content).unwrap();
    assert!(matches!(
        plan_fetch(Some(gcode), pending("/c.3mf", None)),
        FetchPlan::Download(_)
    ));
}

#[test]
fn plate_of_a_3mf_is_looked_for_in_the_cache() {
    let (search, _) = asked(begin(stripped("cube.x.3mf")));
    let (search, _) = asked(search.advance(FtpReply::Entered));
    let (search, dir) = asked(search.advance(FtpReply::Listing(vec![entry("cube.x.3mf", 8, 9)])));
    assert_eq!(dir, "/cache");
    let (search, command) = asked(search.advance(FtpReply::Entered));
    assert_eq!(command, "LIST");
    let cache = vec![entry("cube_plate_1.gcode", 1, 1), entry("cube_plate_2.gcode", 2, 1)];
    let meta = found(search.advance(FtpReply::Listing(cache)));
    assert_eq!(
        shown(&meta.source),
        shown(&GcodeMetaSource::Pending3MF {
            known: "/cube.x.3mf".to_string(),
            hint_plate_file: Some(2)
        })
    );
}

#[test]
fn missing_cache_gives_no_hint() {
    let (search, _) = asked(begin(stripped("/cube.3mf")));
    let (search, _) = asked(search.advance(FtpReply::Entered));
    let (search, _) = asked(search.advance(FtpReply::Listing(vec![entry("cube.3mf", 8, 9)])));
    let meta = found(search.advance(FtpReply::Unavailable));
    assert_eq!(
        shown(&meta.source),
        shown(&GcodeMetaSource::Pending3MF {
            known: "/cube.3mf".to_string(),
            hint_plate_file: None
        })
    );
}

#[test]
fn only_the_extension_makes_a_3mf() {
    for name in ["3mf", ".3mf", "a.3MF", "a.3mf.gcode"] {
        let (search, _) = asked(begin(stripped(name)));
        let (search, _) = asked(search.advance(FtpReply::Entered));
        let meta = found(search.advance(FtpReply::Listing(vec![entry(name, 1, 1)])));
        assert_eq!(
            shown(&meta.source),
            shown(&GcodeMetaSource::Resolved(stripped(&format!("/{name}"))))
        );
    }
}

#[test]
fn same_files_have_the_same_components() {
    assert!(resolved(stripped("/a//b/./c")).same(&resolved(stripped("/a/b/c/"))));
    assert!(!resolved(stripped("/a/b")).same(&resolved(stripped("a/b"))));
    assert!(!resolved(stripped("/a/../b")).same(&resolved(stripped("/b"))));
    assert!(resolved(inside("/a", "p/q")).same(&resolved(inside("/a", "p//q"))));
    assert!(!resolved(inside("/a", "p")).same(&resolved(inside("/a", "q"))));
    assert!(!resolved(inside("/a", "p")).same(&resolved(stripped("/a"))));
    assert!(pending("/a", Some(1)).same(&pending("/a/", Some(1))));
    assert!(!pending("/a", Some(1)).same(&pending("/a", None)));
    assert!(!pending("/a", None).same(&resolved(stripped("/a"))));
    let later = GcodeMeta { modified_time: at(6), ..resolved(stripped("/a")) };
    assert!(!later.same(&resolved(stripped("/a"))));
    let longer = GcodeMeta { original_filesize: 8, ..resolved(stripped("/a")) };
    assert!(!longer.same(&resolved(stripped("/a"))));
}

#[test]
fn plain_gcode_is_taken_as_it_is() {
    let gcode = resolved(stripped("/a.gcode")).resolve(bytes(b"G0\nG1\n")).unwrap();
    assert_eq!(&gcode.content[..], b"G0\nG1\n");
    assert_eq!(&gcode.line_table[..], &[0, 3]);
    assert_eq!(shown(&gcode.meta), shown(&resolved(stripped("/a.gcode"))));
}

#[test]
fn announced_gcode_is_read_from_the_3mf() {
    let content = archive(&[("a.txt", b"x"), ("Metadata/plate_2.gcode", b"G2\nG3")]);
    let meta = resolved(inside("/c.3mf", "Metadata/plate_2.gcode"));
    let gcode = meta.resolve(content.clone()).unwrap();
    assert_eq!(&gcode.content[..], b"G2\nG3");
    assert_eq!(&gcode.line_table[..], &[0, 3]);
    let missing = resolved(inside("/c.3mf", "Metadata/plate_1.gcode")).resolve(content);
    assert!(matches!(missing, Err(GcodeError::Zip(_))));
}

#[test]
fn plate_of_a_3mf_is_settled() {
    let content = archive(&[
        ("Metadata/plate_1.gcode", b"one"),
        ("Metadata/plate_2.gcode", b"two"),
        ("Metadata/plate_2.gcode.md5", b"sum"),
    ]);
    let hinted = pending("/c.3mf", Some(2)).resolve(content.clone()).unwrap();
    assert_eq!(&hinted.content[..], b"two");
    assert_eq!(
        shown(&hinted.meta),
        shown(&resolved(inside("/c.3mf", "Metadata/plate_2.gcode")))
    );
    let first = pending("/c.3mf", None).resolve(content).unwrap();
    assert_eq!(&first.content[..], b"one");
}

#[test]
fn settling_goes_by_the_names() {
    let names = vec!["x".to_string(), "Metadata/plate_4.gcode".to_string()];
    let settled = pending("/c.3mf", None).settle(&names).unwrap();
    assert_eq!(shown(&settled), shown(&resolved(inside("/c.3mf", "Metadata/plate_4.gcode"))));
    assert!(pending("/c.3mf", None).settle(&names[..1].to_vec()).is_none());
    let plain = resolved(stripped("/a")).settle(&Vec::new()).unwrap();
    assert_eq!(shown(&plain), shown(&resolved(stripped("/a"))));
}

#[test]
fn what_is_no_3mf_has_no_gcode() {
    assert!(matches!(
        pending("/c.3mf", None).resolve(bytes(b"nothing")),
        Err(GcodeError::Zip(_))
    ));
    assert!(matches!(
        resolved(inside("/c.3mf", "p")).resolve(bytes(b"nothing")),
        Err(GcodeError::Zip(_))
    ));
    assert!(matches!(
        pending("/c.3mf", None).resolve(archive(&[("a.txt", b"x")])),
        Err(GcodeError::NoGcodeIn3MF)
    ));
}

#[test]
fn unchanged_gcode_is_not_fetched_again() {
    let old = Arc::new(Gcode::new(resolved(stripped("/a")), bytes(b"x")));
    match plan_fetch(Some(old.clone()), resolved(stripped("//a"))) {
        FetchPlan::Reuse(gcode) => assert!(Arc::ptr_eq(&gcode, &old)),
        other => panic!("{other:?}"),
    }
    assert!(matches!(
        plan_fetch(Some(old), resolved(stripped("/b"))),
        FetchPlan::Download(_)
    ));
    assert!(matches!(plan_fetch(None, resolved(stripped("/a"))), FetchPlan::Download(_)));
}

#[test]
fn file_is_fetched_and_served() {
    let mut fetching = Fetching::Idle;
    let dirs = default_search_dirs();
    let mut served = CurrentGcode::default();
    let (task, told) = fetching.step(Happening::File(stripped("a.gcode")), &dirs, &mut served);
    assert!(matches!(task, Task::Connect) && !told);
    let (task, told) = fetching.step(Happening::Connected, &dirs, &mut served);
    assert!(matches!(task, Task::Ask(FtpCommand::ChangeDir(_))) && !told);
    let (task, _) = fetching.step(Happening::Reply(FtpReply::Entered), &dirs, &mut served);
    assert!(matches!(task, Task::Ask(FtpCommand::List)));
    let listing = FtpReply::Listing(vec![entry("a.gcode", 1, 2)]);
    let (task, told) = fetching.step(Happening::Reply(listing), &dirs, &mut served);
    match task {
        Task::Retrieve { path, size } => assert_eq!((path.as_str(), size), ("/a.gcode", 2)),
        other => panic!("{other:?}"),
    }
    assert!(!told);
    let (task, told) = fetching.step(Happening::Content(bytes(b"G0")), &dirs, &mut served);
    assert!(matches!(task, Task::Listen) && told && matches!(fetching, Fetching::Idle));
    let first = match &served {
        CurrentGcode::Current(gcode) => gcode.clone(),
        other => panic!("{other:?}"),
    };
    assert_eq!(&first.content[..], b"G0");

    let (_, told) = fetching.step(Happening::File(stripped("a.gcode")), &dirs, &mut served);
    assert!(told && matches!(served, CurrentGcode::Outdated(_)));
    fetching.step(Happening::Connected, &dirs, &mut served);
    fetching.step(Happening::Reply(FtpReply::Entered), &dirs, &mut served);
    let listing = FtpReply::Listing(vec![entry("a.gcode", 1, 2)]);
    let (task, told) = fetching.step(Happening::Reply(listing), &dirs, &mut served);
    assert!(matches!(task, Task::Listen) && told);
    match &served {
        CurrentGcode::Current(gcode) => assert!(Arc::ptr_eq(gcode, &first)),
        other => panic!("{other:?}"),
    }

    let (task, told) = fetching.step(Happening::File(FilePath::NoJob), &dirs, &mut served);
    assert!(matches!(task, Task::Listen) && told && matches!(served, CurrentGcode::Nothing));
}

#[test]
fn changed_file_is_fetched_again() {
    let old = Arc::new(Gcode::new(resolved(stripped("/a")), bytes(b"x")));
    let dirs = default_search_dirs();
    let mut served = CurrentGcode::Current(old);
    let mut fetching = Fetching::Idle;
    fetching.step(Happening::File(stripped("/a")), &dirs, &mut served);
    fetching.step(Happening::Connected, &dirs, &mut served);
    fetching.step(Happening::Reply(FtpReply::Entered), &dirs, &mut served);
    let listing = FtpReply::Listing(vec![entry("a", 6, 7)]);
    let (task, _) = fetching.step(Happening::Reply(listing), &dirs, &mut served);
    assert!(matches!(task, Task::Retrieve { .. }));
    let (task, told) = fetching.step(Happening::NoContent, &dirs, &mut served);
    assert!(matches!(task, Task::Listen) && !told);
    assert!(matches!(served, CurrentGcode::Outdated(_)));
}

#[test]
fn file_that_is_not_found_is_given_up() {
    let mut fetching = Fetching::Idle;
    let dirs = default_search_dirs();
    let mut served = CurrentGcode::default();
    fetching.step(Happening::File(stripped("/a")), &dirs, &mut served);
    fetching.step(Happening::Connected, &dirs, &mut served);
    let (task, told) = fetching.step(Happening::Reply(FtpReply::Unavailable), &dirs, &mut served);
    assert!(matches!(task, Task::Listen) && !told && matches!(fetching, Fetching::Idle));
}

#[test]
fn bad_archive_is_given_up() {
    let mut fetching = Fetching::Retrieving { meta: pending("/c.3mf", None) };
    let dirs = default_search_dirs();
    let mut served = CurrentGcode::default();
    let (task, told) = fetching.step(Happening::Content(bytes(b"x")), &dirs, &mut served);
    assert!(matches!(task, Task::Listen) && !told && matches!(served, CurrentGcode::Nothing));
}

#[test]
fn connection_is_tried_for_four_times() {
    let mut fetching = Fetching::Idle;
    let dirs = default_search_dirs();
    let mut served = CurrentGcode::default();
    let (mut task, _) = fetching.step(Happening::File(stripped("a")), &dirs, &mut served);
    for _ in 0..4 {
        assert!(matches!(task, Task::Connect));
        let (wait, _) = fetching.step(Happening::ConnectionError, &dirs, &mut served);
        assert!(matches!(wait, Task::Wait(Span { secs: 2, nanos: 0 })));
        task = fetching.step(Happening::Waited, &dirs, &mut served).0;
    }
    assert!(matches!(task, Task::Listen) && matches!(fetching, Fetching::Idle));
}

#[test]
fn refused_connection_stops_everything() {
    let mut fetching = Fetching::Idle;
    let dirs = default_search_dirs();
    let mut served = CurrentGcode::default();
    fetching.step(Happening::File(stripped("a")), &dirs, &mut served);
    let (task, told) = fetching.step(Happening::Refused, &dirs, &mut served);
    assert!(matches!(task, Task::Stop) && !told);
}

#[test]
fn directories_that_are_set_are_searched_in_order() {
    assert_eq!(default_search_dirs(), vec!["/".to_string(), "/models".to_string()]);
    let dirs = vec!["/x/".to_string(), "/y".to_string()];
    assert!(can_be_searched(&dirs) && can_be_searched(&default_search_dirs()));
    assert!(!can_be_searched(&vec!["/x".to_string(), "y".to_string()]));
    let (search, dir) = asked(Interrogation::start(stripped("a.gcode"), dirs));
    assert_eq!(dir, "/x/");
    let (search, dir) = asked(search.advance(FtpReply::Unavailable));
    assert_eq!(dir, "/y");
    let (search, _) = asked(search.advance(FtpReply::Entered));
    let meta = found(search.advance(FtpReply::Listing(vec![entry("a.gcode", 1, 1)])));
    assert_eq!(meta.source.targeted_filename(), "/y/a.gcode");
    let none = Interrogation::start(stripped("a.gcode"), Vec::new());
    assert!(matches!(none, Progress::NotFound));
}

#[test]
fn failed_attempt_can_be_repeated() {
    let mut connection: CachedConnection<u8, &str> = CachedConnection::new();
    for _ in 0..3 {
        assert_eq!(connection.acquire(), None);
        let failed: Result<u8, &str> = Err("no network");
        assert_eq!(connection.connected(failed), Err("no network"));
        assert!(matches!(connection, CachedConnection::Dark));
    }
    assert_eq!(connection.acquire(), None);
    let made: Result<u8, &str> = Ok(9);
    assert_eq!(connection.connected(made), Ok(9));
    assert!(matches!(connection, CachedConnection::InUse));
    assert_eq!(conn_cache_duration(), Span { secs: 15, nanos: 0 });
}

#[test]
fn connection_is_kept_and_used_again() {
    let mut connection: CachedConnection<u8, &str> = CachedConnection::new();
    assert!(connection.timer().is_none());
    assert_eq!(connection.acquire(), None);
    assert!(matches!(connection, CachedConnection::InUse));
    connection.release(7, "timer");
    assert_eq!(connection.timer().copied(), Some("timer"));
    assert_eq!(connection.acquire(), Some(7));
    connection.release(7, "timer");
    connection.expire();
    assert!(matches!(connection, CachedConnection::Dark));
    assert_eq!(connection.acquire(), None);
}

#[test]
fn served_gcode_is_cloned_shared() {
    let gcode = Arc::new(Gcode::new(resolved(stripped("/a")), bytes(b"x")));
    match CurrentGcode::Current(gcode.clone()).clone() {
        CurrentGcode::Current(copy) => assert!(Arc::ptr_eq(&copy, &gcode)),
        other => panic!("{other:?}"),
    }
    assert!(matches!(CurrentGcode::Outdated(gcode).clone(), CurrentGcode::Outdated(_)));
    assert!(matches!(CurrentGcode::Nothing.clone(), CurrentGcode::Nothing));
}
