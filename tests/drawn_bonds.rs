use molecular_visualization::bonds::bond_pairs;
use molecular_visualization::conect::ConectRecord;

fn rec(source_atom: usize, bonded_atoms: Vec<usize>) -> ConectRecord {
    ConectRecord {
        source_atom,
        bonded_atoms,
    }
}

#[test]
fn draws_each_bond_once() {
    let records = vec![rec(1, vec![2, 3]), rec(2, vec![1, 3]), rec(3, vec![1, 2])];
    assert_eq!(
        bond_pairs(&records, &vec![1, 2, 3]),
        vec![(1, 2), (1, 3), (2, 3)]
    );
}

#[test]
fn skips_bonds_to_unknown_atoms() {
    let records = vec![rec(1, vec![2, 9]), rec(8, vec![1]), rec(2, vec![3])];
    assert_eq!(bond_pairs(&records, &vec![1, 2, 3]), vec![(1, 2), (2, 3)]);
}

#[test]
fn repeated_entries_are_drawn_once() {
    let records = vec![rec(4, vec![5, 5]), rec(4, vec![5])];
    assert_eq!(bond_pairs(&records, &vec![5, 4]), vec![(4, 5)]);
}

#[test]
fn keeps_the_order_of_the_records() {
    let records = vec![rec(3, vec![2]), rec(1, vec![3]), rec(2, vec![1])];
    assert_eq!(
        bond_pairs(&records, &vec![1, 2, 3]),
        vec![(3, 2), (1, 3), (2, 1)]
    );
}

#[test]
fn no_atoms_no_bonds() {
    let records = vec![rec(1, vec![2])];
    assert!(bond_pairs(&records, &vec![]).is_empty());
    assert!(bond_pairs(&vec![], &vec![1, 2]).is_empty());
}

#[test]
fn large_serial_numbers_are_kept_apart() {
    let big = usize::MAX;
    let records = vec![rec(big, vec![0, 1]), rec(0, vec![big]), rec(1, vec![0])];
    assert_eq!(
        bond_pairs(&records, &vec![0, 1, big]),
        vec![(big, 0), (big, 1), (1, 0)]
    );
}
