use orgfetch::config::load;
use orgfetch::error::StepError;
use orgfetch::json::serialize_records;
use orgfetch::pagination::{FetchState, Paginator};
use orgfetch::paths::{issues_file, output_dir, repos_file};
use orgfetch::records::{record_bodies, record_names, RepoRecord};
use orgfetch::run::{planned_files, written_files};
use serde_json::Value;

#[test]
fn config_both_present() {
    let r = load(Some("tok".to_string()), Some("acme".to_string()));
    let c = r.unwrap();
    assert_eq!(c.token, "tok");
    assert_eq!(c.organization, "acme");
}

#[test]
fn config_missing_token() {
    let r = load(None, Some("acme".to_string()));
    match r {
        Err(StepError::MissingConfig { variable }) => {
            assert_eq!(variable, "GITHUB_ACCESS_TOKEN");
        }
        _ => panic!("expected the missing-token error"),
    }
}

#[test]
fn config_missing_organization() {
    let r = load(Some("tok".to_string()), None);
    match r {
        Err(StepError::MissingConfig { variable }) => {
            assert_eq!(variable, "ORGANIZATION");
        }
        _ => panic!("expected the missing-organization error"),
    }
}

#[test]
fn config_missing_both_reports_token_first() {
    let r = load(None, None);
    match r {
        Err(StepError::MissingConfig { variable }) => {
            assert_eq!(variable, "GITHUB_ACCESS_TOKEN");
        }
        _ => panic!("expected the missing-token error"),
    }
}

#[test]
fn error_messages_describe_the_step() {
    let e = StepError::MissingConfig { variable: "ORGANIZATION".to_string() };
    assert_eq!(e.message(), "ORGANIZATION must be set in the environment.");
    assert_eq!(
        StepError::DirectoryCreateFailure.message(),
        "failed to create the output directory."
    );
    assert_eq!(StepError::PageFetchFailure.message(), "failed to fetch a page of results.");
    assert_eq!(
        StepError::SerializationFailure.message(),
        "failed to serialize records to JSON."
    );
    assert_eq!(StepError::FileWriteFailure.message(), "failed to write an output file.");
}

#[test]
fn paths_are_built_exactly() {
    let dir = output_dir("/work", "acme");
    assert_eq!(dir, "/work/data/acme");
    assert_eq!(repos_file(&dir), "/work/data/acme/orgrepos.json");
    assert_eq!(issues_file(&dir, "core"), "/work/data/acme/core.issues.json");
}

#[test]
fn pagination_merges_two_pages_in_order() {
    // 150 items with page size 100: exactly two fetches, merged in order.
    let mut p: Paginator<u64> = Paginator::new();
    assert_eq!(p.state(), FetchState::FetchPage);

    let first: Vec<u64> = (0..100).collect();
    p.on_page(first, Some("page2".to_string()));
    assert_eq!(p.state(), FetchState::HasNext);
    let link = p.advance();
    assert_eq!(link, Some("page2".to_string()));
    assert_eq!(p.state(), FetchState::FetchPage);

    let second: Vec<u64> = (100..150).collect();
    p.on_page(second, None);
    assert_eq!(p.advance(), None);
    assert_eq!(p.state(), FetchState::Done);

    let merged = p.into_items();
    assert_eq!(merged.len(), 150);
    for (i, v) in merged.iter().enumerate() {
        assert_eq!(*v, i as u64);
    }
}

#[test]
fn pagination_empty_single_page() {
    let mut p: Paginator<u64> = Paginator::new();
    p.on_page(Vec::new(), None);
    assert_eq!(p.advance(), None);
    assert_eq!(p.state(), FetchState::Done);
    assert!(p.into_items().is_empty());
}

#[test]
fn pagination_failure_is_terminal() {
    let mut p: Paginator<u64> = Paginator::new();
    p.on_error();
    assert_eq!(p.state(), FetchState::Failed);
}

#[test]
fn pagination_rerun_collects_identical_items() {
    // Re-running over unchanged upstream pages accumulates the same items.
    let pages: Vec<Vec<u64>> = vec![vec![1, 2, 3], vec![4, 5], vec![6]];
    let mut outcomes: Vec<Vec<u64>> = Vec::new();
    for _ in 0..2 {
        let mut p: Paginator<u64> = Paginator::new();
        for (i, page) in pages.iter().enumerate() {
            let next = if i + 1 < pages.len() { Some(format!("p{}", i + 1)) } else { None };
            p.on_page(page.clone(), next);
            p.advance();
        }
        outcomes.push(p.into_items());
    }
    assert_eq!(outcomes[0], outcomes[1]);
    assert_eq!(outcomes[0], vec![1, 2, 3, 4, 5, 6]);
}

#[test]
fn rerun_writes_identical_listing_content() {
    // Over unchanged upstream pages, a re-run renders byte-identical output.
    let pages: Vec<Vec<Value>> = vec![
        vec![Value::String("r1".to_string()), Value::String("r2".to_string())],
        vec![Value::String("r3".to_string())],
    ];
    let mut texts: Vec<String> = Vec::new();
    for _ in 0..2 {
        let mut p: Paginator<Value> = Paginator::new();
        for (i, page) in pages.iter().enumerate() {
            let next = if i + 1 < pages.len() { Some(format!("p{}", i + 1)) } else { None };
            p.on_page(page.clone(), next);
            p.advance();
        }
        texts.push(serialize_records(&p.into_items()).unwrap());
    }
    assert_eq!(texts[0], texts[1]);
}

#[test]
fn planned_files_is_one_per_repository_plus_listing() {
    let names = vec!["core".to_string(), "web".to_string()];
    let files = planned_files("/work/data/acme", &names);
    assert_eq!(files.len(), names.len() + 1);
    assert_eq!(
        files,
        vec![
            "/work/data/acme/orgrepos.json".to_string(),
            "/work/data/acme/core.issues.json".to_string(),
            "/work/data/acme/web.issues.json".to_string(),
        ]
    );
}

#[test]
fn written_files_is_a_prefix_of_planned_files() {
    let names = vec!["a".to_string(), "b".to_string(), "c".to_string()];
    let planned = planned_files("/d", &names);
    // A failure while fetching the second repository's issues leaves the
    // listing file and the first repository's file, nothing more.
    let written = written_files("/d", &names, 1);
    assert_eq!(written.len(), 2);
    assert_eq!(written[..], planned[..2]);
    // A full run writes every planned file.
    let all = written_files("/d", &names, 3);
    assert_eq!(all, planned);
}

#[test]
fn serialize_records_pretty_prints_an_array() {
    let vals = vec![Value::Null, Value::Bool(true)];
    let s = serialize_records(&vals).unwrap();
    assert_eq!(s, "[\n  null,\n  true\n]");
}

#[test]
fn serialize_records_empty_array() {
    let vals: Vec<Value> = Vec::new();
    assert_eq!(serialize_records(&vals).unwrap(), "[]");
}

#[test]
fn record_names_and_bodies_keep_listing_order() {
    let records = vec![
        RepoRecord { name: "core".to_string(), body: Value::String("core-record".to_string()) },
        RepoRecord { name: "web".to_string(), body: Value::String("web-record".to_string()) },
    ];
    let names = record_names(&records);
    assert_eq!(names, vec!["core".to_string(), "web".to_string()]);
    let bodies = record_bodies(&records);
    assert_eq!(bodies.len(), 2);
    assert_eq!(bodies[0], Value::String("core-record".to_string()));
    assert_eq!(bodies[1], Value::String("web-record".to_string()));
}

#[test]
fn two_repositories_three_and_zero_issues() {
    // Organization "acme" has repositories "core" and "web"; "core" has
    // three issues and "web" has none.
    let mut repos: Paginator<RepoRecord> = Paginator::new();
    repos.on_page(
        vec![
            RepoRecord { name: "core".to_string(), body: Value::String("core-record".to_string()) },
            RepoRecord { name: "web".to_string(), body: Value::String("web-record".to_string()) },
        ],
        None,
    );
    repos.advance();
    let records = repos.into_items();
    let names = record_names(&records);
    let listing = serialize_records(&record_bodies(&records)).unwrap();
    let listing_back: Value = serde_json::from_str(&listing).unwrap();
    assert_eq!(listing_back.as_array().unwrap().len(), 2);

    let dir = output_dir("/work", "acme");
    let files = planned_files(&dir, &names);
    assert_eq!(
        files,
        vec![
            "/work/data/acme/orgrepos.json".to_string(),
            "/work/data/acme/core.issues.json".to_string(),
            "/work/data/acme/web.issues.json".to_string(),
        ]
    );

    let mut core_issues: Paginator<Value> = Paginator::new();
    core_issues.on_page(
        vec![
            Value::String("issue-1".to_string()),
            Value::String("issue-2".to_string()),
            Value::String("issue-3".to_string()),
        ],
        None,
    );
    core_issues.advance();
    let core_items = core_issues.into_items();
    assert_eq!(core_items.len(), 3);
    let core_json = serialize_records(&core_items).unwrap();
    let core_back: Value = serde_json::from_str(&core_json).unwrap();
    assert_eq!(core_back.as_array().unwrap().len(), 3);

    let mut web_issues: Paginator<Value> = Paginator::new();
    web_issues.on_page(Vec::new(), None);
    web_issues.advance();
    let web_items = web_issues.into_items();
    assert_eq!(serialize_records(&web_items).unwrap(), "[]");
}
