use usda_etl::config::default_config;
use usda_etl::errors::MigrationError;
use usda_etl::extract::transform;
use usda_etl::filter::{contains_word, matches_filter, sources_url_exists};
use usda_etl::model::{SourceDoc, SourceEntry};
use usda_etl::pipeline::{run_aggregation, run_extraction, Pipeline};
use usda_etl::reader::PageCursor;
use usda_etl::writer::WriterPool;

fn entry(url: Option<&str>) -> SourceEntry {
    SourceEntry { url: url.map(|u| u.to_string()) }
}

fn doc(
    id: Option<&str>,
    creator: Option<&str>,
    product_name: Option<&str>,
    sources: Option<Vec<SourceEntry>>,
) -> SourceDoc {
    SourceDoc {
        id: id.map(|s| s.to_string()),
        creator: creator.map(|s| s.to_string()),
        product_name: product_name.map(|s| s.to_string()),
        sources,
    }
}

#[test]
fn transform_full_document() {
    let d = doc(
        Some("1"),
        Some("USDA database"),
        Some("Bread"),
        Some(vec![entry(Some("http://a"))]),
    );
    let r = transform(&d).unwrap();
    assert_eq!(r.id, "1");
    assert_eq!(r.product_name, "Bread");
    assert_eq!(r.url, "http://a");
}

#[test]
fn transform_empty_sources() {
    let d = doc(Some("2"), Some("usda"), Some("Milk"), Some(vec![]));
    let r = transform(&d).unwrap();
    assert_eq!(r.id, "2");
    assert_eq!(r.product_name, "Milk");
    assert_eq!(r.url, "");
}

#[test]
fn transform_sources_absent() {
    let d = doc(Some("3"), Some("usda"), Some("Rice"), None);
    let r = transform(&d).unwrap();
    assert_eq!(r.url, "");
}

#[test]
fn transform_first_source_without_url() {
    let d = doc(
        Some("4"),
        Some("usda"),
        None,
        Some(vec![entry(None), entry(Some("http://later"))]),
    );
    let r = transform(&d).unwrap();
    assert_eq!(r.product_name, "");
    assert_eq!(r.url, "");
}

#[test]
fn transform_only_first_source_consulted() {
    let d = doc(
        Some("5"),
        Some("usda"),
        Some("Eggs"),
        Some(vec![entry(Some("x")), entry(Some("y")), entry(Some("z"))]),
    );
    let r = transform(&d).unwrap();
    assert_eq!(r.url, "x");
}

#[test]
fn transform_missing_id_fails() {
    let d = doc(None, Some("usda"), Some("Eggs"), Some(vec![entry(Some("http://b"))]));
    match transform(&d) {
        Ok(_) => panic!("a document without _id must not yield a record"),
        Err(e) => assert_eq!(e, MigrationError::Extraction),
    }
}

#[test]
fn missing_id_skipped_and_counted() {
    let mut p = Pipeline::new();
    let d = doc(None, Some("usda"), Some("Eggs"), Some(vec![entry(Some("http://b"))]));
    let r = p.on_document(&d);
    assert!(r.is_none());
    assert_eq!(p.counts.read, 1);
    assert_eq!(p.counts.transformed, 0);
    assert_eq!(p.counts.skipped, 1);
    // The pipeline continues with the next document.
    let d2 = doc(Some("1"), Some("usda"), Some("Bread"), Some(vec![entry(Some("http://a"))]));
    let r2 = p.on_document(&d2);
    assert!(r2.is_some());
    assert_eq!(p.counts.read, 2);
    assert_eq!(p.counts.transformed, 1);
    assert_eq!(p.counts.skipped, 1);
}

#[test]
fn decode_error_skips_and_continues() {
    let mut p = Pipeline::new();
    p.on_decode_error();
    assert_eq!(p.counts.skipped, 1);
    assert_eq!(p.counts.read, 0);
}

#[test]
fn write_results_counted() {
    let mut p = Pipeline::new();
    p.on_write_result(true);
    p.on_write_result(true);
    p.on_write_result(false);
    assert_eq!(p.counts.written, 2);
    assert_eq!(p.counts.write_failed, 1);
}

#[test]
fn word_match_boundaries_and_case() {
    assert!(contains_word("USDA database", "usda"));
    assert!(contains_word("usda", "usda"));
    assert!(contains_word("the UsDa set.", "usda"));
    assert!(contains_word("from usda.", "usda"));
    assert!(!contains_word("musda", "usda"));
    assert!(!contains_word("usdadata", "usda"));
    assert!(!contains_word("us da", "usda"));
    assert!(!contains_word("usda_x", "usda"));
    assert!(!contains_word("", "usda"));
}

#[test]
fn filter_needs_creator_and_source_url() {
    let with_url = Some(vec![entry(Some("http://a"))]);
    assert!(matches_filter(&doc(Some("1"), Some("usda"), None, with_url.clone()), "usda"));
    assert!(!matches_filter(&doc(Some("1"), None, None, with_url.clone()), "usda"));
    assert!(!matches_filter(&doc(Some("1"), Some("other"), None, with_url), "usda"));
    assert!(!matches_filter(&doc(Some("1"), Some("usda"), None, None), "usda"));
    assert!(!matches_filter(&doc(Some("1"), Some("usda"), None, Some(vec![])), "usda"));
    assert!(!matches_filter(&doc(Some("1"), Some("usda"), None, Some(vec![entry(None)])), "usda"));
}

#[test]
fn source_url_anywhere_in_array_counts() {
    let d = doc(Some("1"), Some("usda"), None, Some(vec![entry(None), entry(Some("http://b"))]));
    assert!(sources_url_exists(&d));
    assert!(matches_filter(&d, "usda"));
}

#[test]
fn extraction_run_one_record_per_qualifying_doc() {
    let docs = vec![
        doc(Some("1"), Some("USDA database"), Some("Bread"), Some(vec![entry(Some("http://a"))])),
        doc(Some("2"), Some("someone else"), Some("Jam"), Some(vec![entry(Some("http://c"))])),
        doc(None, Some("usda"), Some("Eggs"), Some(vec![entry(Some("http://b"))])),
        doc(Some("3"), Some("usda import"), Some("Oats"), Some(vec![entry(Some("http://d"))])),
    ];
    let (records, counts) = run_extraction(&docs, "usda");
    assert_eq!(records.len(), 2);
    assert_eq!(records[0].id, "1");
    assert_eq!(records[1].id, "3");
    assert_eq!(counts.read, 3);
    assert_eq!(counts.transformed, 2);
    assert_eq!(counts.skipped, 1);
    assert_eq!(counts.written, 0);
    assert_eq!(counts.write_failed, 0);
}

#[test]
fn extraction_run_missing_id_yields_nothing() {
    let docs = vec![doc(None, Some("usda"), Some("Eggs"), Some(vec![entry(Some("http://b"))]))];
    let (records, counts) = run_extraction(&docs, "usda");
    assert!(records.is_empty());
    assert_eq!(counts.read, 1);
    assert_eq!(counts.skipped, 1);
}

#[test]
fn rerun_duplicates_content() {
    let docs = vec![
        doc(Some("1"), Some("usda"), Some("Bread"), Some(vec![entry(Some("http://a"))])),
        doc(Some("2"), Some("usda"), Some("Milk"), Some(vec![entry(Some("http://m"))])),
    ];
    let (first, _) = run_extraction(&docs, "usda");
    let (second, _) = run_extraction(&docs, "usda");
    // Two runs over an unchanged source produce two field-identical record
    // sets: the target ends up holding every record twice.
    assert_eq!(first.len(), 2);
    assert_eq!(second.len(), 2);
    let mut target = Vec::new();
    target.extend(first);
    target.extend(second);
    assert_eq!(target.len(), 4);
    for k in 0..2 {
        assert_eq!(target[k].id, target[k + 2].id);
        assert_eq!(target[k].product_name, target[k + 2].product_name);
        assert_eq!(target[k].url, target[k + 2].url);
    }
}

#[test]
fn writer_pool_never_exceeds_limit() {
    let mut pool = WriterPool::new(2);
    assert!(pool.try_acquire());
    assert!(pool.in_flight <= 2);
    assert!(pool.try_acquire());
    assert!(pool.in_flight <= 2);
    // The third concurrent write must wait: the limit is respected even
    // with far more records than slots.
    for _ in 0..100 {
        assert!(!pool.try_acquire());
        assert_eq!(pool.in_flight, 2);
    }
    pool.release();
    assert_eq!(pool.in_flight, 1);
    assert!(pool.try_acquire());
    assert_eq!(pool.in_flight, 2);
    pool.release();
    pool.release();
    assert_eq!(pool.in_flight, 0);
}

#[test]
fn strategies_agree_on_scenarios() {
    let docs = vec![
        doc(Some("1"), Some("USDA database"), Some("Bread"), Some(vec![entry(Some("http://a"))])),
        doc(Some("2"), Some("usda"), Some("Milk"), Some(vec![])),
        doc(None, Some("usda"), Some("Eggs"), Some(vec![entry(Some("http://b"))])),
    ];
    let (by_cursor, cursor_counts) = run_extraction(&docs, "usda");
    let (by_aggregation, agg_counts) = run_aggregation(&docs, "usda");
    assert_eq!(by_cursor.len(), by_aggregation.len());
    for k in 0..by_cursor.len() {
        assert_eq!(by_cursor[k].id, by_aggregation[k].id);
        assert_eq!(by_cursor[k].product_name, by_aggregation[k].product_name);
        assert_eq!(by_cursor[k].url, by_aggregation[k].url);
    }
    assert_eq!(cursor_counts.read, agg_counts.read);
    assert_eq!(cursor_counts.skipped, agg_counts.skipped);
}

#[test]
fn strategies_differ_when_first_source_lacks_url() {
    // The extractor consults index zero only and defaults to the empty
    // string; the store's unwind skips url-less elements, so the
    // aggregation strategy surfaces the first url actually present.
    let docs = vec![doc(
        Some("1"),
        Some("usda"),
        Some("Bread"),
        Some(vec![entry(None), entry(Some("http://later"))]),
    )];
    let (by_cursor, _) = run_extraction(&docs, "usda");
    let (by_aggregation, _) = run_aggregation(&docs, "usda");
    assert_eq!(by_cursor.len(), 1);
    assert_eq!(by_aggregation.len(), 1);
    assert_eq!(by_cursor[0].url, "");
    assert_eq!(by_aggregation[0].url, "http://later");
}

#[test]
fn error_kinds_classified() {
    assert!(MigrationError::Connection.is_fatal());
    assert!(MigrationError::QueryIssuance.is_fatal());
    assert!(!MigrationError::MidStreamRead.is_fatal());
    assert!(!MigrationError::Extraction.is_fatal());
    assert!(!MigrationError::Write.is_fatal());
}

#[test]
fn default_config_values() {
    let c = default_config();
    assert_eq!(c.uri, "mongodb://localhost:27017");
    assert_eq!(c.app_name, "Rust Demo");
    assert_eq!(c.db, "off");
    assert_eq!(c.source, "products");
    assert_eq!(c.target, "usda");
    assert_eq!(c.filter_token, "usda");
    assert_eq!(c.connect_timeout_secs, 60);
    assert_eq!(c.find_batch_size, 1000);
    assert_eq!(c.agg_batch_size, 100);
    assert_eq!(c.agg_max_time_secs, 360);
    assert!(c.agg_allow_disk_use);
    assert_eq!(c.writer_limit, 8);
}

#[test]
fn cursor_pages_transparently() {
    let mut cur = PageCursor::new();
    let mut pages = vec![
        vec![
            doc(Some("1"), Some("usda"), Some("Bread"), None),
            doc(Some("2"), Some("usda"), Some("Milk"), None),
        ],
        vec![doc(Some("3"), Some("usda"), Some("Eggs"), None)],
        vec![],
    ]
    .into_iter();
    let mut seen = Vec::new();
    loop {
        if cur.needs_page() {
            cur.supply_page(pages.next().expect("the store was drained twice"));
            continue;
        }
        match cur.next() {
            Some(d) => seen.push(d),
            None => break,
        }
    }
    // The consumer saw one flat sequence: the concatenation of the pages,
    // in order, with no visible page boundaries.
    let ids: Vec<&str> = seen.iter().map(|d| d.id.as_deref().unwrap()).collect();
    assert_eq!(ids, vec!["1", "2", "3"]);
}

#[test]
fn cursor_empty_store_yields_nothing() {
    let mut cur = PageCursor::new();
    assert!(cur.needs_page());
    cur.supply_page(vec![]);
    assert!(!cur.needs_page());
    assert!(cur.next().is_none());
    assert!(cur.next().is_none());
}

#[test]
fn default_config_token_matches_reference_creators() {
    let c = default_config();
    assert!(contains_word("USDA database", &c.filter_token));
    assert!(!contains_word("nusda", &c.filter_token));
}
