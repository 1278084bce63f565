use molecular_visualization::conect::{records_from_lines, ConectRecord};

fn record(line: &str) -> Option<(usize, Vec<usize>)> {
    ConectRecord::from_line(line).map(|r| (r.source_atom, r.bonded_atoms))
}

#[test]
fn reads_a_plain_conect_line() {
    assert_eq!(record("CONECT    1    2    3"), Some((1, vec![2, 3])));
}

#[test]
fn reads_a_line_with_four_bonds() {
    assert_eq!(
        record("CONECT 1179 1175 1180 1181 1182"),
        Some((1179, vec![1175, 1180, 1181, 1182]))
    );
}

#[test]
fn leaves_out_bonds_to_the_source_itself() {
    assert_eq!(record("CONECT 7 7 8 7"), Some((7, vec![8])));
}

#[test]
fn a_record_with_only_self_bonds_is_empty() {
    assert_eq!(record("CONECT 7 7"), Some((7, vec![])));
}

#[test]
fn needs_at_least_three_words() {
    assert_eq!(record("CONECT 1"), None);
    assert_eq!(record("CONECT"), None);
    assert_eq!(record(""), None);
    assert_eq!(record("   \t  "), None);
}

#[test]
fn needs_the_conect_record_name() {
    assert_eq!(record("ATOM 1 2 3"), None);
    assert_eq!(record("conect 1 2 3"), None);
    assert_eq!(record("CONEC 1 2 3"), None);
}

#[test]
fn accepts_words_that_begin_with_conect() {
    assert_eq!(record("CONECT1 4 5"), Some((4, vec![5])));
}

#[test]
fn needs_a_numeric_source_atom() {
    assert_eq!(record("CONECT x 2 3"), None);
    assert_eq!(record("CONECT -1 2 3"), None);
    assert_eq!(record("CONECT + 2 3"), None);
}

#[test]
fn passes_over_bonded_words_that_are_no_number() {
    assert_eq!(record("CONECT 1 a 3 4b -5"), Some((1, vec![3])));
}

#[test]
fn reads_numbers_with_a_leading_plus() {
    assert_eq!(record("CONECT +12 +13 ++14"), Some((12, vec![13])));
}

#[test]
fn passes_over_numbers_too_large_for_usize() {
    let line = format!("CONECT 1 {}0 2", usize::MAX);
    assert_eq!(record(&line), Some((1, vec![2])));
    let line = format!("CONECT 1 {} 2", usize::MAX);
    assert_eq!(record(&line), Some((1, vec![usize::MAX, 2])));
}

#[test]
fn splits_on_any_white_space() {
    assert_eq!(record("CONECT\t1\r\n2\u{3000}3\u{a0}4"), Some((1, vec![2, 3, 4])));
    assert_eq!(record("  CONECT   5   6  "), Some((5, vec![6])));
}

#[test]
fn non_ascii_digits_are_no_number() {
    assert_eq!(record("CONECT 1 \u{0663} 2"), Some((1, vec![2])));
}

#[test]
fn reads_the_conect_lines_of_a_file() {
    let lines: Vec<String> = vec![
        "HEADER    TEST".to_string(),
        "ATOM      1  N   ALA A   1      11.104   6.134  -6.504  1.00  0.00           N".to_string(),
        "CONECT    1    2".to_string(),
        "CONECT    2    1    3".to_string(),
        "CONECT    9".to_string(),
        "END".to_string(),
    ];
    let records: Vec<(usize, Vec<usize>)> = records_from_lines(&lines)
        .into_iter()
        .map(|r| (r.source_atom, r.bonded_atoms))
        .collect();
    assert_eq!(records, vec![(1, vec![2]), (2, vec![1, 3])]);
}

#[test]
fn no_lines_no_records() {
    assert!(records_from_lines(&Vec::new()).is_empty());
}
