use credscan::rotate::{assign_files, output_file_name, Rotator, DEFAULT_CAP_BYTES};

#[test]
fn three_records_of_twenty_bytes_under_a_cap_of_thirty() {
    // 19 bytes and the newline make 20.
    let files = assign_files(30, &vec![19, 19, 19]);
    assert_eq!(files, vec![0, 1, 2]);

    let mut rotator = Rotator::new(30);
    assert!(!rotator.place(19));
    assert!(rotator.place(19));
    assert!(rotator.place(19));
    assert_eq!(rotator.file_count(), 3);
}

#[test]
fn default_cap_is_a_billion_bytes() {
    assert_eq!(DEFAULT_CAP_BYTES, 1_000_000_000);
}

#[test]
fn fresh_rotator_has_one_empty_file() {
    let rotator = Rotator::new(100);
    assert_eq!(rotator.cap(), 100);
    assert_eq!(rotator.file_index(), 0);
    assert_eq!(rotator.file_count(), 1);
    assert!(!rotator.has_content());
    assert_eq!(assign_files(100, &Vec::new()), Vec::<u64>::new());
}

#[test]
fn record_that_fills_the_file_exactly_stays() {
    // Sizes 10 + 10 + 10 = 30 fit a cap of 30; the fourth record rotates.
    assert_eq!(assign_files(30, &vec![9, 9, 9, 9]), vec![0, 0, 0, 1]);
}

#[test]
fn the_newline_counts() {
    // Two records of 15 bytes take 32 bytes with their newlines.
    assert_eq!(assign_files(30, &vec![15, 15]), vec![0, 1]);
    assert_eq!(assign_files(32, &vec![15, 15]), vec![0, 0]);
}

#[test]
fn oversized_first_record_goes_to_the_first_file() {
    // An empty file takes any record: nothing rotates before the first write.
    assert_eq!(assign_files(10, &vec![50]), vec![0]);
    let mut rotator = Rotator::new(10);
    assert!(!rotator.place(50));
    assert_eq!(rotator.file_index(), 0);
    assert!(rotator.has_content());
    // The next record, however small, starts a new file.
    assert!(rotator.place(0));
    assert_eq!(rotator.file_index(), 1);
}

#[test]
fn oversized_record_in_the_middle_gets_a_file_of_its_own() {
    assert_eq!(assign_files(10, &vec![3, 50, 3, 3]), vec![0, 1, 2, 2]);
}

#[test]
fn cap_of_zero_gives_every_record_its_own_file() {
    assert_eq!(assign_files(0, &vec![0, 0, 0]), vec![0, 1, 2]);
}

#[test]
fn files_stay_within_the_cap_or_hold_one_record() {
    let lens: Vec<usize> = vec![5, 9, 1, 40, 2, 2, 2, 17, 17, 0, 0, 33, 8];
    for cap in 0..60u64 {
        let files = assign_files(cap, &lens);
        assert_eq!(files.len(), lens.len());
        let count = files[files.len() - 1] + 1;
        for f in 0..count {
            let members: Vec<usize> =
                (0..lens.len()).filter(|i| files[*i] == f).collect();
            assert!(!members.is_empty());
            let bytes: u64 = members.iter().map(|i| lens[*i] as u64 + 1).sum();
            assert!(bytes <= cap || members.len() == 1);
        }
        for i in 1..files.len() {
            assert!(files[i] == files[i - 1] || files[i] == files[i - 1] + 1);
        }
        assert_eq!(files[0], 0);
    }
}

#[test]
fn placing_one_by_one_agrees_with_assign_files() {
    let lens: Vec<usize> = vec![12, 30, 7, 7, 7, 100, 1];
    let files = assign_files(25, &lens);
    let mut rotator = Rotator::new(25);
    for (i, len) in lens.iter().enumerate() {
        let before = rotator.file_index();
        let rotated = rotator.place(*len);
        assert_eq!(rotator.file_index(), files[i]);
        assert_eq!(rotated, rotator.file_index() == before + 1);
    }
    assert_eq!(rotator.file_count(), files[files.len() - 1] + 1);
}

#[test]
fn very_long_record_is_counted_exactly() {
    let mut rotator = Rotator::new(u64::MAX);
    assert!(!rotator.place(usize::MAX));
    // The file holds more than the cap can express on a 64-bit machine, or
    // less than the cap on a smaller one; either way the count went on.
    assert!(rotator.has_content());
    let rotated = rotator.place(usize::MAX);
    assert_eq!(rotated, (usize::MAX as u128 + 1) * 2 > u64::MAX as u128);
}

#[test]
fn output_files_are_numbered_from_the_second() {
    assert_eq!(output_file_name(0), "output.txt");
    assert_eq!(output_file_name(1), "output1.txt");
    assert_eq!(output_file_name(2), "output2.txt");
    assert_eq!(output_file_name(9), "output9.txt");
    assert_eq!(output_file_name(10), "output10.txt");
    assert_eq!(output_file_name(109), "output109.txt");
    assert_eq!(output_file_name(1234567890), "output1234567890.txt");
    assert_eq!(output_file_name(u64::MAX), "output18446744073709551615.txt");
}

#[test]
fn output_file_names_agree_with_the_decimal_numeral() {
    for i in 1..300u64 {
        assert_eq!(output_file_name(i), format!("output{}.txt", i));
    }
}
