use delta_fusion::check_plain_name;
use delta_fusion::duration_between;
use delta_fusion::fixed_queries;
use delta_fusion::format_table;
use delta_fusion::FormatError;
use delta_fusion::QuerySpec;
use delta_fusion::RowBatch;
use delta_fusion::RunAction;
use delta_fusion::RunDriver;
use delta_fusion::standard_run;

fn spec(name: &str, sql: &str) -> QuerySpec {
    QuerySpec { name: name.to_string(), sql: sql.to_string(), print_result: true }
}

#[test]
fn empty_result_formats_as_header_only() {
    let header: Vec<String> = vec!["year".to_string(), "genre".to_string()];
    let batches: Vec<RowBatch> = Vec::new();
    let text = format_table(&header, &batches).unwrap();
    assert_eq!(text, "year | genre\n");
}

#[test]
fn empty_result_single_column() {
    let header: Vec<String> = vec!["count(*)".to_string()];
    let batches: Vec<RowBatch> = Vec::new();
    let text = format_table(&header, &batches).unwrap();
    assert_eq!(text, "count(*)\n");
}

#[test]
fn table_is_aligned_and_batches_concatenate_in_order() {
    let header: Vec<String> = vec!["a".to_string(), "bb".to_string()];
    let b1 = RowBatch { rows: vec![vec!["xxx".to_string(), "y".to_string()]] };
    let b2 = RowBatch {
        rows: vec![
            vec!["z".to_string(), "wwww".to_string()],
            vec!["".to_string(), "q".to_string()],
        ],
    };
    let text = format_table(&header, &vec![b1, b2]).unwrap();
    assert_eq!(text, "a   | bb  \nxxx | y   \nz   | wwww\n    | q   \n");
}

#[test]
fn inconsistent_row_is_refused() {
    let header: Vec<String> = vec!["a".to_string(), "b".to_string()];
    let bad = RowBatch { rows: vec![vec!["only-one-cell".to_string()]] };
    let r = format_table(&header, &vec![bad]);
    assert_eq!(r, Err(FormatError::InconsistentRow));
}

#[test]
fn formatting_is_deterministic() {
    let header: Vec<String> = vec!["k".to_string(), "v".to_string()];
    let mk = || RowBatch {
        rows: vec![
            vec!["1".to_string(), "alpha".to_string()],
            vec!["2".to_string(), "beta".to_string()],
        ],
    };
    let once = format_table(&header, &vec![mk()]).unwrap();
    let twice = format_table(&header, &vec![mk()]).unwrap();
    assert_eq!(once, twice);
}

#[test]
fn plain_names() {
    assert!(check_plain_name("demo"));
    assert!(check_plain_name("demo_2"));
    assert!(!check_plain_name(""));
    assert!(!check_plain_name("Demo"));
    assert!(!check_plain_name("a.b"));
    assert!(!check_plain_name("1demo"));
    assert!(!check_plain_name("_demo"));
    assert!(!check_plain_name("demo table"));
}

#[test]
fn fixed_catalog_is_the_eight_named_queries() {
    let qs = fixed_queries();
    assert_eq!(qs.len(), 8);
    let names: Vec<&str> = qs.iter().map(|q| q.name.as_str()).collect();
    assert_eq!(
        names,
        vec![
            "best_genre_each_year",
            "best_song_in_year",
            "best_song_of_heavy_metal",
            "best_song_of_pop_genre_in_year",
            "top_10_artist_with_popularity_over80",
            "stats_tempo_each_genre",
            "top_10_genre_danceability",
            "best_song_2023_based_popularity_and_genre",
        ]
    );
    for q in qs.iter() {
        assert!(q.print_result);
    }
    assert_eq!(
        qs[4].sql,
        "
        SELECT artist_name, COUNT(artist_name) best_artist
        FROM demo
        WHERE popularity >= 80
        GROUP BY artist_name
        ORDER BY best_artist DESC
        LIMIT 10
    "
    );
}

#[test]
fn standard_run_walks_load_register_then_queries_in_order() {
    let mut d = standard_run();
    match d.next_action() {
        RunAction::LoadTable { location, version } => {
            assert_eq!(location, "hdfs://127.0.1.1:9000/delta/spotify");
            assert_eq!(version, 0);
        }
        _ => panic!("the run must start by loading the dataset"),
    }
    d.advance(true);
    match d.next_action() {
        RunAction::RegisterTable { name } => assert_eq!(name, "demo"),
        _ => panic!("the loaded dataset must be registered next"),
    }
    d.advance(true);
    let mut executed: Vec<usize> = Vec::new();
    loop {
        match d.next_action() {
            RunAction::ExecuteQuery { index, sql, print_result } => {
                assert!(!sql.is_empty());
                assert!(print_result);
                executed.push(index);
                d.advance(true);
            }
            RunAction::ReportSuccess => break,
            _ => panic!("a fully successful run must end by reporting success"),
        }
    }
    assert_eq!(executed, vec![0, 1, 2, 3, 4, 5, 6, 7]);
}

#[test]
fn failed_second_query_halts_before_the_third() {
    let specs = vec![spec("q0", "select 0"), spec("q1", "select 1"), spec("q2", "select 2")];
    let mut d = RunDriver::new("memory://data".to_string(), 0, specs);
    d.advance(true);  // load
    d.advance(true);  // register
    let mut executed: Vec<usize> = Vec::new();
    // First query succeeds.
    match d.next_action() {
        RunAction::ExecuteQuery { index, .. } => executed.push(index),
        _ => panic!("expected the first query"),
    }
    d.advance(true);
    // Second query fails.
    match d.next_action() {
        RunAction::ExecuteQuery { index, .. } => executed.push(index),
        _ => panic!("expected the second query"),
    }
    d.advance(false);
    // The third query is never dispatched: the run only reports failure, and
    // keeps doing so whatever outcomes are fed to it afterwards.
    assert!(matches!(d.next_action(), RunAction::ReportFailure));
    d.advance(true);
    assert!(matches!(d.next_action(), RunAction::ReportFailure));
    d.advance(false);
    assert!(matches!(d.next_action(), RunAction::ReportFailure));
    assert_eq!(executed, vec![0, 1]);
}

#[test]
fn failed_load_halts_before_any_registration_or_query() {
    let mut d = standard_run();
    assert!(matches!(d.next_action(), RunAction::LoadTable { .. }));
    d.advance(false);
    assert!(matches!(d.next_action(), RunAction::ReportFailure));
    d.advance(true);
    assert!(matches!(d.next_action(), RunAction::ReportFailure));
}

#[test]
fn empty_query_list_succeeds_after_registration() {
    let mut d = RunDriver::new("memory://data".to_string(), 0, Vec::new());
    d.advance(true);
    d.advance(true);
    assert!(matches!(d.next_action(), RunAction::ReportSuccess));
}

#[test]
fn durations_are_saturating_differences() {
    assert_eq!(duration_between(5, 12), 7);
    assert_eq!(duration_between(12, 12), 0);
    assert_eq!(duration_between(12, 5), 0);
    assert_eq!(duration_between(0, u64::MAX), u64::MAX);
}

#[test]
fn run_duration_covers_query_durations() {
    // Nested monotonic readings: run start, two timed units, run end.
    let base = std::time::Instant::now();
    let r0: u64 = base.elapsed().as_nanos() as u64;
    let s1: u64 = base.elapsed().as_nanos() as u64;
    let header: Vec<String> = vec!["n".to_string()];
    let b = RowBatch { rows: vec![vec!["1".to_string()]] };
    let _ = format_table(&header, &vec![b]).unwrap();
    let e1: u64 = base.elapsed().as_nanos() as u64;
    let s2: u64 = base.elapsed().as_nanos() as u64;
    let _ = format_table(&header, &Vec::new()).unwrap();
    let e2: u64 = base.elapsed().as_nanos() as u64;
    let t: u64 = base.elapsed().as_nanos() as u64;
    let total = duration_between(r0, t);
    let q1 = duration_between(s1, e1);
    let q2 = duration_between(s2, e2);
    assert!(total >= q1 + q2);
    assert!(total >= q1.max(q2));
}
