use credscan::batch::{process_batch, split_batches, Batch, DEFAULT_BATCH_SIZE};
use credscan::pattern::Patterns;
use credscan::schedule::run;

fn strings(text: &[&str]) -> Vec<String> {
    text.iter().map(|s| s.to_string()).collect()
}

#[test]
fn twelve_hundred_files_make_three_batches() {
    let batches = split_batches(1200, 500);
    assert_eq!(
        batches,
        vec![
            Batch { start: 0, end: 500 },
            Batch { start: 500, end: 1000 },
            Batch { start: 1000, end: 1200 },
        ]
    );
    let sizes: Vec<usize> = batches.iter().map(|b| b.end - b.start).collect();
    assert_eq!(sizes, vec![500, 500, 200]);
}

#[test]
fn default_batch_size_is_five_hundred() {
    assert_eq!(DEFAULT_BATCH_SIZE, 500);
    assert_eq!(split_batches(501, DEFAULT_BATCH_SIZE).len(), 2);
}

#[test]
fn no_files_make_no_batch() {
    assert_eq!(split_batches(0, 500), Vec::<Batch>::new());
}

#[test]
fn exact_multiple_has_no_short_batch() {
    assert_eq!(
        split_batches(6, 3),
        vec![Batch { start: 0, end: 3 }, Batch { start: 3, end: 6 }]
    );
}

#[test]
fn fewer_files_than_a_batch_make_one_batch() {
    assert_eq!(split_batches(7, 500), vec![Batch { start: 0, end: 7 }]);
    assert_eq!(split_batches(1, 1), vec![Batch { start: 0, end: 1 }]);
}

#[test]
fn batch_size_one_gives_one_file_each() {
    assert_eq!(
        split_batches(3, 1),
        vec![
            Batch { start: 0, end: 1 },
            Batch { start: 1, end: 2 },
            Batch { start: 2, end: 3 },
        ]
    );
}

#[test]
fn batches_tile_the_file_list() {
    for files in 0..40usize {
        for size in 1..9usize {
            let batches = split_batches(files, size);
            assert_eq!(batches.len(), (files + size - 1) / size);
            let mut next = 0;
            for (k, b) in batches.iter().enumerate() {
                assert_eq!(b.start, next);
                assert!(b.start < b.end);
                assert!(b.end - b.start <= size);
                if k + 1 < batches.len() {
                    assert_eq!(b.end - b.start, size);
                }
                next = b.end;
            }
            assert_eq!(next, files);
        }
    }
}

#[test]
fn process_batch_puts_the_files_results_end_to_end() {
    let merged = process_batch(vec![strings(&["a", "b"]), strings(&[]), strings(&["c"])]);
    assert_eq!(merged, strings(&["a", "b", "c"]));
    assert_eq!(process_batch(Vec::new()), Vec::<String>::new());
}

#[test]
fn order_of_files_does_not_change_the_multiset_of_records() {
    let one = vec![strings(&["r1", "r2"]), strings(&["r3"]), strings(&["r1"])];
    let other = vec![strings(&["r1"]), strings(&["r1", "r2"]), strings(&["r3"])];
    let mut a = process_batch(one);
    let mut b = process_batch(other);
    assert_ne!(a, b);
    a.sort();
    b.sort();
    assert_eq!(a, b);
}

#[test]
fn run_gives_the_records_of_every_file_in_file_order() {
    let p = Patterns::new().expect("the two patterns compile");
    let files = vec![
        strings(&["http://a.com", "u1", "p1"]),
        strings(&["nothing here:"]),
        strings(&["http://b.com", "u2", "p2", "http://c.com", "u3", "p3"]),
    ];
    let expected = strings(&["http://a.com:u1:p1", "http://b.com:u2:p2", "http://c.com:u3:p3"]);
    assert_eq!(run(&p, &files, 500), expected);
}

#[test]
fn run_does_not_depend_on_the_batch_size() {
    let p = Patterns::new().expect("the two patterns compile");
    let mut files = Vec::new();
    for i in 0..7 {
        files.push(vec![format!("http://h{}.com", i), format!("u{}", i), format!("p{}", i)]);
    }
    let whole = run(&p, &files, 100);
    assert_eq!(whole.len(), 7);
    for size in 1..9usize {
        assert_eq!(run(&p, &files, size), whole);
    }
    assert_eq!(run(&p, &Vec::new(), 3), Vec::<String>::new());
}
