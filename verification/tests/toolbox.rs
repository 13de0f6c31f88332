use shelly::config::load_config;
use shelly::serve::{build_from_config, PathProbe, RequestPlan};
use shelly::toolbox::{
    accepts_download, start_run, work_list, ItemKind, ToolboxAction, ToolboxItem, ToolboxNote,
    DOWNLOAD_TIMEOUT_SECS,
};

const CONFIG: &str = r#"{
    "toolbox": {
        "socat": {
            "x64": {"filename": "socatx64.bin", "download": "https://example.org/socatx64.bin"},
            "x86": {"filename": "socatx86.bin"},
            "arm": {"download": "https://example.org/socatarm.bin"},
            "note": "not an object"
        },
        "broken": 7
    }
}"#;

fn names(list: &[&str]) -> Vec<String> {
    list.iter().map(|s| s.to_string()).collect()
}

#[test]
fn the_work_list_follows_the_configuration() {
    let config = load_config(CONFIG).expect("valid configuration");
    let items = work_list(&names(&["socat", "missing", "broken"]), &config);
    assert_eq!(items.len(), 5);
    assert_eq!(items[0].kind, ItemKind::Artifact);
    assert_eq!(items[0].artifact, "socat");
    assert_eq!(items[0].arch, "x64");
    assert_eq!(items[0].filename.as_deref(), Some("socatx64.bin"));
    assert_eq!(items[0].download.as_deref(), Some("https://example.org/socatx64.bin"));
    assert_eq!(items[1].arch, "x86");
    assert_eq!(items[1].filename.as_deref(), Some("socatx86.bin"));
    assert_eq!(items[1].download, None);
    assert_eq!(items[2].arch, "arm");
    assert_eq!(items[2].filename, None);
    assert_eq!(items[2].download.as_deref(), Some("https://example.org/socatarm.bin"));
    assert_eq!(items[3].kind, ItemKind::Missing);
    assert_eq!(items[3].artifact, "missing");
    assert_eq!(items[4].kind, ItemKind::NotAnObject);
    assert_eq!(items[4].artifact, "broken");
}

#[test]
fn a_configuration_without_a_toolbox_has_nothing_to_offer() {
    let config = load_config("{}").expect("valid configuration");
    let items = work_list(&names(&["socat"]), &config);
    assert_eq!(items.len(), 1);
    assert_eq!(items[0].kind, ItemKind::Missing);
    assert!(work_list(&Vec::new(), &config).is_empty());
}

#[test]
fn files_are_reused_downloaded_or_left_out() {
    let config = load_config(CONFIG).expect("valid configuration");
    let mut run = build_from_config(&names(&["socat", "missing"]), &config, "/home/op/.shelly/toolbox", 8000);
    assert_eq!(run.port(), 8000);
    assert_eq!(DOWNLOAD_TIMEOUT_SECS, 300);

    assert_eq!(run.action(), ToolboxAction::Probe);
    assert_eq!(run.current().map(|i| i.arch.as_str()), Some("x64"));
    assert_eq!(run.current_path().as_deref(), Some("/home/op/.shelly/toolbox/socatx64.bin"));
    assert_eq!(run.on_probe(PathProbe::Unresolved), ToolboxAction::Ask);
    assert_eq!(run.on_answer(Some("Yes\n")), ToolboxAction::Download);
    assert_eq!(run.on_download(true), ToolboxAction::Probe);
    assert_eq!(run.files().len(), 1);

    assert_eq!(run.current().map(|i| i.arch.as_str()), Some("x86"));
    assert_eq!(run.on_probe(PathProbe::Unresolved), ToolboxAction::Report { note: ToolboxNote::NoUrl });
    assert_eq!(run.on_report(), ToolboxAction::Report { note: ToolboxNote::NoFilename });
    assert_eq!(run.current().map(|i| i.arch.as_str()), Some("arm"));
    assert_eq!(run.current_path(), None);
    assert_eq!(run.on_report(), ToolboxAction::Report { note: ToolboxNote::NotInConfig });
    assert_eq!(run.on_report(), ToolboxAction::Finish);
    assert!(run.current().is_none());
    assert_eq!(run.on_report(), ToolboxAction::Finish);
    assert_eq!(run.on_probe(PathProbe::RegularFile), ToolboxAction::Finish);

    assert_eq!(
        run.files(),
        &vec![("socatx64.bin".to_string(), "/home/op/.shelly/toolbox/socatx64.bin".to_string())]
    );
}

#[test]
fn a_file_that_exists_is_reused_without_asking() {
    let config = load_config(CONFIG).expect("valid configuration");
    let mut run = build_from_config(&names(&["socat"]), &config, "box", 1);
    assert_eq!(run.on_probe(PathProbe::RegularFile), ToolboxAction::Probe);
    assert_eq!(run.on_probe(PathProbe::RegularFile), ToolboxAction::Report { note: ToolboxNote::NoFilename });
    assert_eq!(run.on_report(), ToolboxAction::Finish);
    assert_eq!(
        run.files(),
        &vec![
            ("socatx64.bin".to_string(), "box/socatx64.bin".to_string()),
            ("socatx86.bin".to_string(), "box/socatx86.bin".to_string()),
        ]
    );
}

#[test]
fn a_declined_or_failed_download_adds_nothing() {
    let config = load_config(CONFIG).expect("valid configuration");
    let mut run = build_from_config(&names(&["socat"]), &config, "box", 1);
    run.on_probe(PathProbe::Unresolved);
    assert_eq!(run.on_answer(Some("n\n")), ToolboxAction::Report { note: ToolboxNote::Declined });
    assert_eq!(run.on_download(true), ToolboxAction::Report { note: ToolboxNote::Declined });
    assert_eq!(run.on_report(), ToolboxAction::Probe);
    assert!(run.files().is_empty());

    let mut run = build_from_config(&names(&["socat"]), &config, "box", 1);
    run.on_probe(PathProbe::Unresolved);
    assert_eq!(run.on_answer(Some("\n")), ToolboxAction::Download);
    assert_eq!(
        run.on_download(false),
        ToolboxAction::Report { note: ToolboxNote::DownloadFailed }
    );
    assert_eq!(run.on_report(), ToolboxAction::Probe);
    assert!(run.files().is_empty());

    let mut run = build_from_config(&names(&["socat"]), &config, "box", 1);
    run.on_probe(PathProbe::Unresolved);
    assert_eq!(run.on_answer(None), ToolboxAction::Probe);
    assert_eq!(run.current().map(|i| i.arch.as_str()), Some("x86"));
    assert!(run.files().is_empty());
}

#[test]
fn an_answer_agrees_when_it_is_empty_or_says_yes() {
    assert!(accepts_download(""));
    assert!(accepts_download("\n"));
    assert!(accepts_download("  \t\r\n"));
    assert!(accepts_download("y"));
    assert!(accepts_download("Y\n"));
    assert!(accepts_download(" yes "));
    assert!(accepts_download("YeS\n"));
    assert!(!accepts_download("n"));
    assert!(!accepts_download("no\n"));
    assert!(!accepts_download("yes please"));
    assert!(!accepts_download("ye"));
    assert!(!accepts_download("yess"));
    assert!(!accepts_download("\u{212a}"));
}

fn artifact(arch: &str, filename: Option<&str>, download: Option<&str>) -> ToolboxItem {
    ToolboxItem {
        kind: ItemKind::Artifact,
        artifact: "tool".to_string(),
        arch: arch.to_string(),
        filename: filename.map(|s| s.to_string()),
        download: download.map(|s| s.to_string()),
    }
}

#[test]
fn a_run_over_given_items_starts_at_the_first() {
    let mut run = start_run(vec![artifact("x64", Some("tool.bin"), None)], "box", 9);
    assert_eq!(run.action(), ToolboxAction::Probe);
    assert_eq!(run.current_path().as_deref(), Some("box/tool.bin"));
    assert_eq!(run.on_answer(Some("y")), ToolboxAction::Probe);
    assert_eq!(run.on_download(true), ToolboxAction::Probe);
    assert_eq!(run.on_report(), ToolboxAction::Probe);
    assert_eq!(run.on_probe(PathProbe::RegularFile), ToolboxAction::Finish);
    assert_eq!(run.files(), &vec![("tool.bin".to_string(), "box/tool.bin".to_string())]);
    assert_eq!(start_run(Vec::new(), "box", 9).action(), ToolboxAction::Finish);
}

#[test]
fn an_entry_that_cannot_be_served_is_left_out_and_the_rest_is_served() {
    let items = vec![
        artifact("a", Some("dir/tool"), Some("http://example.org/a")),
        artifact("b", Some("tool"), None),
        artifact("c", Some(""), None),
        artifact("d", Some("tool"), Some("http://example.org/d")),
        artifact("e", Some("folder"), None),
        artifact("f", Some("back\\slash"), None),
        artifact("g", Some("other"), Some("http://example.org/g")),
    ];
    let mut run = start_run(items, "/box", 8000);
    assert_eq!(run.action(), ToolboxAction::Report { note: ToolboxNote::InvalidName });
    assert_eq!(run.on_probe(PathProbe::RegularFile), ToolboxAction::Report { note: ToolboxNote::InvalidName });
    assert_eq!(run.on_report(), ToolboxAction::Probe);
    assert_eq!(run.on_probe(PathProbe::RegularFile), ToolboxAction::Report { note: ToolboxNote::InvalidName });
    assert_eq!(run.on_report(), ToolboxAction::Report { note: ToolboxNote::DuplicateName });
    assert_eq!(run.on_report(), ToolboxAction::Probe);
    assert_eq!(run.on_probe(PathProbe::NotAFile), ToolboxAction::Report { note: ToolboxNote::NotAFile });
    assert_eq!(run.on_report(), ToolboxAction::Report { note: ToolboxNote::InvalidName });
    assert_eq!(run.on_report(), ToolboxAction::Probe);
    assert_eq!(run.on_probe(PathProbe::Unresolved), ToolboxAction::Ask);
    assert_eq!(run.on_answer(Some("y")), ToolboxAction::Download);
    assert_eq!(run.on_download(true), ToolboxAction::Finish);
    assert_eq!(
        run.files(),
        &vec![
            ("tool".to_string(), "/box/tool".to_string()),
            ("other".to_string(), "/box/other".to_string()),
        ]
    );

    let server = run.server("0.0.0.0");
    assert_eq!(server.endpoint(), "0.0.0.0:8000");
    assert_eq!(server.len(), 2);
    assert_eq!(server.path_at(1), Some("/box/other"));
    assert_eq!(server.plan_text("GET /tool HTTP/1.1"), RequestPlan::Deliver { entry: 0 });
    assert_eq!(server.plan_text("GET /folder HTTP/1.1"), RequestPlan::NotFound);
}

#[test]
fn a_run_without_files_gives_a_server_that_serves_nothing() {
    let run = start_run(Vec::new(), "box", 1);
    let server = run.server("127.0.0.1");
    assert_eq!(server.len(), 0);
    assert_eq!(server.plan_text("GET / HTTP/1.1"), RequestPlan::NotFound);
}

#[test]
fn an_entry_that_is_no_object_is_reported() {
    let config = load_config(CONFIG).expect("valid configuration");
    let mut run = build_from_config(&names(&["broken", "socat"]), &config, "box", 1);
    assert_eq!(run.action(), ToolboxAction::Report { note: ToolboxNote::NotAnObject });
    assert_eq!(run.current().map(|i| i.artifact.as_str()), Some("broken"));
    assert_eq!(run.on_probe(PathProbe::RegularFile), ToolboxAction::Report { note: ToolboxNote::NotAnObject });
    assert_eq!(run.on_report(), ToolboxAction::Probe);
    assert!(run.files().is_empty());
}
