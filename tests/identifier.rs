use file_identifier::batch::{build_batch, Batch};
use file_identifier::cas::{prepare_file_values, truncate_cas_id, FilePathRecord, Identified, CAS_ID_LEN};
use file_identifier::job::{orphan_total, task_count_for, FileIdentifierJob, JobProgress, FIRST_CURSOR, PAGE_SIZE};
use file_identifier::reconcile::{assignment_for, find_created, plan_assignments, FileCreated, Resolution};

fn record(id: i32, is_dir: bool) -> FilePathRecord {
    FilePathRecord {
        id,
        location_id: 1,
        materialized_path: format!("dir/file{}", id),
        is_dir,
        file_id: None,
    }
}

fn digest(tag: &str) -> String {
    format!("{}:{}", tag, "0".repeat(63))
}

fn ok(tag: &str) -> Option<Identified> {
    Some(Identified { digest: digest(tag), size_in_bytes: 10 })
}

/// Stands in for the store's insert-if-absent: creates a row for each
/// identifier not yet known and returns only the rows it created.
fn insert_new(store: &mut Vec<FileCreated>, batch: &Batch) -> Vec<FileCreated> {
    let mut created = Vec::new();
    for v in batch.values.iter() {
        if !store.iter().any(|f| f.cas_id == v.cas_id) {
            let row = FileCreated { id: store.len() as i32 + 1, cas_id: v.cas_id.clone() };
            created.push(FileCreated { id: row.id, cas_id: row.cas_id.clone() });
            store.push(row);
        }
    }
    created
}

fn lookup(store: &Vec<FileCreated>, cas_id: &str) -> Option<i32> {
    store.iter().find(|f| f.cas_id == cas_id).map(|f| f.id)
}

/// Runs reconciliation of one page against the store and writes the
/// assignments onto the records; returns the number of rows created.
fn process_page(store: &mut Vec<FileCreated>, page: &mut Vec<FilePathRecord>, ids: &Vec<Option<Identified>>) -> usize {
    let batch = build_batch(page, ids);
    let created = if batch.needs_insert() { insert_new(store, &batch) } else { Vec::new() };
    for res in plan_assignments(&batch.lookup, &created).iter() {
        let looked_up = match res {
            Resolution::Known { .. } => None,
            Resolution::Lookup { cas_id, .. } => lookup(store, cas_id),
        };
        if let Some(a) = assignment_for(res, looked_up) {
            for r in page.iter_mut() {
                if r.id == a.file_path_id {
                    r.file_id = Some(a.file_id);
                }
            }
        }
    }
    created.len()
}

#[test]
fn job_name() {
    let job = FileIdentifierJob { location_id: 1, path: String::from("/data") };
    assert_eq!(job.name(), "file_identifier");
}

#[test]
fn truncates_long_digest() {
    let d = String::from("0123456789abcdef0123456789abcdef");
    let c = truncate_cas_id(&d);
    assert_eq!(c, "0123456789abcdef");
    assert_eq!(c.chars().count(), CAS_ID_LEN);
}

#[test]
fn keeps_short_digest() {
    assert_eq!(truncate_cas_id(&String::from("abc")), "abc");
    assert_eq!(truncate_cas_id(&String::new()), "");
}

#[test]
fn prepare_values_of_file() {
    let id = Some(Identified { digest: String::from("ffffeeeeddddccccbbbbaaaa"), size_in_bytes: 42 });
    let (cas, value) = prepare_file_values(&record(3, false), &id).unwrap();
    assert_eq!(cas, "ffffeeeeddddcccc");
    assert_eq!(value.cas_id, "ffffeeeeddddcccc");
    assert_eq!(value.size_in_bytes, 42);
}

#[test]
fn prepare_values_of_directory_is_empty() {
    let (cas, value) = prepare_file_values(&record(3, true), &ok("a")).unwrap();
    assert_eq!(cas, "");
    assert_eq!(value.cas_id, "");
}

#[test]
fn prepare_values_of_unreadable_file() {
    assert!(prepare_file_values(&record(3, false), &None).is_none());
}

#[test]
fn task_count_rounds_up() {
    assert_eq!(task_count_for(0), 0);
    assert_eq!(task_count_for(1), 1);
    assert_eq!(task_count_for(100), 1);
    assert_eq!(task_count_for(101), 2);
    assert_eq!(task_count_for(150), 2);
    assert_eq!(PAGE_SIZE, 100);
}

#[test]
fn no_orphans_no_pages() {
    let p = JobProgress::start(0);
    assert_eq!(p.task_count, 0);
    assert!(!p.wants_page());
    let b = build_batch(&Vec::new(), &Vec::new());
    assert!(!b.needs_insert());
    assert!(b.lookup.is_empty());
}

#[test]
fn empty_page_ends_walk() {
    let mut p = JobProgress::start(250);
    assert_eq!(p.task_count, 3);
    assert_eq!(p.cursor, FIRST_CURSOR);
    assert!(!p.advance(&Vec::new()));
    assert_eq!(p.completed, 0);
    assert_eq!(p.cursor, 1);
}

#[test]
fn advance_moves_cursor_to_last_record() {
    let mut p = JobProgress::start(150);
    let page: Vec<FilePathRecord> = (5..105).map(|i| record(i, false)).collect();
    assert!(p.advance(&page));
    assert_eq!(p.cursor, 104);
    assert_eq!(p.completed, 1);
    let page2: Vec<FilePathRecord> = (104..120).map(|i| record(i, false)).collect();
    assert!(!p.advance(&page2));
    assert_eq!(p.cursor, 119);
    assert_eq!(p.completed, 2);
}

#[test]
fn batch_dedups_identical_content() {
    let page = vec![record(1, false), record(2, false), record(3, false)];
    let ids = vec![ok("a"), ok("b"), ok("a")];
    let b = build_batch(&page, &ids);
    assert_eq!(b.lookup.len(), 3);
    assert_eq!(b.values.len(), 2);
    assert_eq!(b.lookup[0].1, b.lookup[2].1);
    assert_ne!(b.values[0].cas_id, b.values[1].cas_id);
    let mut store = Vec::new();
    let created = insert_new(&mut store, &b);
    let plan = plan_assignments(&b.lookup, &created);
    let a0 = assignment_for(&plan[0], None).unwrap();
    let a2 = assignment_for(&plan[2], None).unwrap();
    assert_eq!(a0.file_id, a2.file_id);
    assert_eq!(store.len(), 2);
}

#[test]
fn failed_record_is_isolated() {
    let page: Vec<FilePathRecord> = (1..=4).map(|i| record(i, false)).collect();
    let ids = vec![ok("a"), None, ok("c"), ok("d")];
    let b = build_batch(&page, &ids);
    let ids_in_lookup: Vec<i32> = b.lookup.iter().map(|e| e.0).collect();
    assert_eq!(ids_in_lookup, vec![1, 3, 4]);
    let mut store = Vec::new();
    let mut page = page;
    process_page(&mut store, &mut page, &ids);
    assert_eq!(page[0].file_id, Some(1));
    assert_eq!(page[1].file_id, None);
    assert!(page[2].file_id.is_some());
    assert!(page[3].file_id.is_some());
}

#[test]
fn plan_uses_created_rows_then_lookup() {
    let lookup = vec![(7, String::from("aaaa")), (8, String::from("bbbb"))];
    let created = vec![FileCreated { id: 30, cas_id: String::from("bbbb") }];
    let plan = plan_assignments(&lookup, &created);
    assert!(matches!(plan[0], Resolution::Lookup { file_path_id: 7, .. }));
    assert!(matches!(plan[1], Resolution::Known { file_path_id: 8, file_id: 30 }));
    assert!(assignment_for(&plan[0], None).is_none());
    let a = assignment_for(&plan[0], Some(12)).unwrap();
    assert_eq!((a.file_path_id, a.file_id), (7, 12));
    let k = assignment_for(&plan[1], Some(99)).unwrap();
    assert_eq!((k.file_path_id, k.file_id), (8, 30));
}

#[test]
fn find_created_takes_first_match() {
    let created = vec![
        FileCreated { id: 1, cas_id: String::from("x") },
        FileCreated { id: 2, cas_id: String::from("y") },
        FileCreated { id: 3, cas_id: String::from("y") },
    ];
    assert_eq!(find_created(&created, &String::from("y")), Some(2));
    assert_eq!(find_created(&created, &String::from("z")), None);
}

#[test]
fn second_run_does_nothing() {
    let mut store = Vec::new();
    let mut page: Vec<FilePathRecord> = (1..=3).map(|i| record(i, false)).collect();
    let ids = vec![ok("a"), ok("b"), ok("a")];
    assert_eq!(process_page(&mut store, &mut page, &ids), 2);
    let orphans = page.iter().filter(|r| r.file_id.is_none() && !r.is_dir).count();
    assert_eq!(orphans, 0);
    let p = JobProgress::start(orphans);
    assert!(!p.wants_page());
    assert_eq!(store.len(), 2);
}

#[test]
fn scenario_two_pages_with_existing_content() {
    // content X exists before the run
    let mut store = vec![FileCreated { id: 1, cas_id: truncate_cas_id(&digest("x")) }];
    let mut rows: Vec<FilePathRecord> = (1..=150).map(|i| record(i, false)).collect();
    let ident = |i: i32| -> Option<Identified> {
        // ids 96..=100 and 146..=150 hold content X
        if (96..=100).contains(&i) || (146..=150).contains(&i) { ok("x") } else { ok(&format!("u{}", i)) }
    };
    let mut progress = JobProgress::start(rows.len());
    assert_eq!(progress.task_count, 2);
    let mut total_created = 0;
    while progress.wants_page() {
        let start = rows.iter().position(|r| r.id >= progress.cursor && r.file_id.is_none()).unwrap_or(rows.len());
        let mut page: Vec<FilePathRecord> = rows[start..]
            .iter()
            .filter(|r| r.file_id.is_none())
            .take(PAGE_SIZE)
            .map(|r| record(r.id, r.is_dir))
            .collect();
        let ids: Vec<Option<Identified>> = page.iter().map(|r| ident(r.id)).collect();
        let created = process_page(&mut store, &mut page, &ids);
        if progress.completed == 0 {
            assert_eq!(page.len(), 100);
            assert_eq!(created, 95);
            let on_x = page.iter().filter(|r| r.file_id == Some(1)).count();
            assert_eq!(on_x, 5);
        } else {
            assert_eq!(page.len(), 50);
            assert_eq!(created, 45);
        }
        total_created += created;
        for r in page.iter() {
            let k = rows.iter().position(|x| x.id == r.id).unwrap();
            rows[k].file_id = r.file_id;
        }
        let more = progress.advance(&page);
        if progress.completed == 1 {
            assert_eq!(progress.cursor, 100);
            assert!(more);
        }
    }
    assert_eq!(total_created, 140);
    assert_eq!(store.len(), 141);
    assert_eq!(rows.iter().filter(|r| r.file_id.is_none()).count(), 0);
}

#[test]
fn orphan_total_reads_first_row() {
    assert_eq!(orphan_total(&vec![Some(150)]), 150);
    assert_eq!(orphan_total(&vec![None]), 0);
    assert_eq!(orphan_total(&Vec::new()), 0);
}
