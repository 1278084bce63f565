//! Which bonds of a structure are drawn: those between two of its atoms, each once.
use vstd::prelude::*;
use std::collections::HashSet;
use crate::conect::{ConectRecord, record_views};

verus! {

/// The (source, bonded) pairs of one record, in its order.
pub open spec fn pairs_of(rec: (usize, Seq<usize>)) -> Seq<(usize, usize)> {
    rec.1.map_values(|b: usize| (rec.0, b))
}

/// The (source, bonded) pairs of all records, record after record.
pub open spec fn listed_pairs(recs: Seq<(usize, Seq<usize>)>) -> Seq<(usize, usize)>
    decreases recs.len(),
{
    if recs.len() == 0 {
        Seq::empty()
    } else {
        listed_pairs(recs.drop_last()) + pairs_of(recs.last())
    }
}

/// The bonds drawn for `pairs`: a pair is kept when both its atoms are among
/// `atoms` and neither it nor its reverse was kept before.
pub open spec fn drawn_bonds(pairs: Seq<(usize, usize)>, atoms: Seq<usize>) -> Seq<(usize, usize)>
    decreases pairs.len(),
{
    if pairs.len() == 0 {
        Seq::empty()
    } else {
        let before = drawn_bonds(pairs.drop_last(), atoms);
        let (a, b) = pairs.last();
        if atoms.contains(a) && atoms.contains(b) && !before.contains((a, b)) && !before.contains(
            (b, a),
        ) {
            before.push((a, b))
        } else {
            before
        }
    }
}

/// One number for an ordered pair of atoms: the first in the high 64 bits.
pub open spec fn pair_key(a: usize, b: usize) -> u128 {
    (a * 0x1_0000_0000_0000_0000 + b) as u128
}

proof fn lemma_pair_key_injective(a: usize, b: usize, c: usize, d: usize)
    requires
        pair_key(a, b) == pair_key(c, d),
    ensures
        a == c && b == d,
{
    let m: int = 0x1_0000_0000_0000_0000;
    assert(a * m + b == c * m + d && a * m + b < 0x1_0000_0000_0000_0000_0000_0000_0000_0000);
    assert(a == c && b == d) by (nonlinear_arith)
        requires
            a * m + b == c * m + d,
            0 <= b < m,
            0 <= d < m,
            0 <= a,
            0 <= c,
            m > 0,
    {
        if a < c {
            assert(a * m + m <= c * m);
        } else if c < a {
            assert(c * m + m <= a * m);
        }
    }
}

fn key_of(a: usize, b: usize) -> (k: u128)
    ensures
        k == pair_key(a, b),
{
    assert(a * 0x1_0000_0000_0000_0000 + b < 0x1_0000_0000_0000_0000_0000_0000_0000_0000)
        by (nonlinear_arith)
        requires
            0 <= a < 0x1_0000_0000_0000_0000,
            0 <= b < 0x1_0000_0000_0000_0000,
    ;
    (a as u128) * 0x1_0000_0000_0000_0000u128 + (b as u128)
}

/// Every drawn bond joins two atoms of the structure, and no bond is drawn twice,
/// in the same direction or in the reverse one.
pub proof fn lemma_each_bond_once(pairs: Seq<(usize, usize)>, atoms: Seq<usize>)
    ensures
        forall|i: int|
            0 <= i < drawn_bonds(pairs, atoms).len() ==> atoms.contains(
                (#[trigger] drawn_bonds(pairs, atoms)[i]).0,
            ) && atoms.contains(drawn_bonds(pairs, atoms)[i].1),
        forall|i: int, j: int|
            0 <= i < j < drawn_bonds(pairs, atoms).len() ==> #[trigger] drawn_bonds(pairs, atoms)[i]
                != #[trigger] drawn_bonds(pairs, atoms)[j] && drawn_bonds(pairs, atoms)[i] != (
                drawn_bonds(pairs, atoms)[j].1,
                drawn_bonds(pairs, atoms)[j].0,
            ),
    decreases pairs.len(),
{
    if pairs.len() > 0 {
        lemma_each_bond_once(pairs.drop_last(), atoms);
        let before = drawn_bonds(pairs.drop_last(), atoms);
        let d = drawn_bonds(pairs, atoms);
        let (a, b) = pairs.last();
        if d != before {
            assert(d == before.push((a, b)));
            assert forall|i: int, j: int| 0 <= i < j < d.len() implies #[trigger] d[i] != #[trigger] d[j]
                && d[i] != (d[j].1, d[j].0) by {
                if j == d.len() - 1 {
                    assert(d[i] == before[i]);
                    assert(before.contains(d[i]));
                }
            }
        }
    }
}

proof fn lemma_listed_pairs_step(recs: Seq<ConectRecord>, i: int)
    requires
        0 <= i < recs.len(),
    ensures
        listed_pairs(record_views(recs.subrange(0, i + 1))) == listed_pairs(
            record_views(recs.subrange(0, i)),
        ) + pairs_of(recs[i]@),
{
    let v = record_views(recs.subrange(0, i + 1));
    assert(v.drop_last() =~= record_views(recs.subrange(0, i)));
    assert(v.last() == recs[i]@);
}

/// The bonds to draw for `records` in a structure whose atoms have the serial
/// numbers `atom_serials`, as (first atom, second atom) pairs of serial numbers.
pub fn bond_pairs(records: &Vec<ConectRecord>, atom_serials: &Vec<usize>) -> (r: Vec<(usize, usize)>)
    ensures
        r@ == drawn_bonds(listed_pairs(record_views(records@)), atom_serials@),
{
    let mut atoms: HashSet<usize> = HashSet::new();
    let mut n: usize = 0;
    while n < atom_serials.len()
        invariant
            n <= atom_serials.len(),
            forall|x: usize| #[trigger] atoms@.contains(x) <==> atom_serials@.subrange(0, n as int).contains(x),
        decreases atom_serials.len() - n,
    {
        let ghost before = atom_serials@.subrange(0, n as int);
        let ghost after = atom_serials@.subrange(0, n + 1);
        assert(after =~= before.push(atom_serials@[n as int]));
        atoms.insert(atom_serials[n]);
        assert forall|x: usize| #[trigger] atoms@.contains(x) <==> after.contains(x) by {
            if after.contains(x) && x != atom_serials@[n as int] {
                let j = choose|j: int| 0 <= j < after.len() && after[j] == x;
                assert(before[j] == x);
            }
            if before.contains(x) {
                let j = choose|j: int| 0 <= j < before.len() && before[j] == x;
                assert(after[j] == x);
            }
            if x == atom_serials@[n as int] {
                assert(after[n as int] == x);
            }
        }
        n = n + 1;
    }
    assert(atom_serials@.subrange(0, n as int) =~= atom_serials@);
    let mut drawn: Vec<(usize, usize)> = Vec::new();
    let mut kept: HashSet<u128> = HashSet::new();
    let mut i: usize = 0;
    while i < records.len()
        invariant
            i <= records.len(),
            forall|x: usize| #[trigger] atoms@.contains(x) <==> atom_serials@.contains(x),
            forall|a: usize, b: usize| #[trigger] kept@.contains(pair_key(a, b)) <==> drawn@.contains((a, b)),
            drawn@ == drawn_bonds(listed_pairs(record_views(records@.subrange(0, i as int))), atom_serials@),
        decreases records.len() - i,
    {
        let rec = &records[i];
        let ghost prefix = listed_pairs(record_views(records@.subrange(0, i as int)));
        let ghost all = pairs_of(rec@);
        proof {
            lemma_listed_pairs_step(records@, i as int);
            assert(prefix + all.take(0) =~= prefix);
        }
        let mut j: usize = 0;
        while j < rec.bonded_atoms.len()
            invariant
                j <= rec.bonded_atoms.len(),
                rec == records@[i as int],
                all == pairs_of(rec@),
                forall|x: usize| #[trigger] atoms@.contains(x) <==> atom_serials@.contains(x),
                forall|a: usize, b: usize| #[trigger] kept@.contains(pair_key(a, b)) <==> drawn@.contains((a, b)),
                drawn@ == drawn_bonds(prefix + all.take(j as int), atom_serials@),
            decreases rec.bonded_atoms.len() - j,
        {
            let a = rec.source_atom;
            let b = rec.bonded_atoms[j];
            let ghost upto = prefix + all.take(j + 1);
            assert(upto.drop_last() =~= prefix + all.take(j as int));
            assert(upto.last() == (a, b));
            if atoms.contains(&a) && atoms.contains(&b) && !kept.contains(&key_of(a, b))
                && !kept.contains(&key_of(b, a)) {
                let ghost before = drawn@;
                let k = key_of(a, b);
                kept.insert(k);
                drawn.push((a, b));
                assert forall|x: usize, y: usize| #[trigger] kept@.contains(pair_key(x, y)) <==> drawn@.contains((x, y)) by {
                    if pair_key(x, y) == k {
                        lemma_pair_key_injective(x, y, a, b);
                        assert(drawn@[before.len() as int] == (x, y));
                    } else if before.contains((x, y)) {
                        let t = choose|t: int| 0 <= t < before.len() && before[t] == (x, y);
                        assert(drawn@[t] == (x, y));
                    }
                    if drawn@.contains((x, y)) && (x, y) != (a, b) {
                        let t = choose|t: int| 0 <= t < drawn@.len() && drawn@[t] == (x, y);
                        assert(before[t] == (x, y));
                    }
                }
            }
            j = j + 1;
        }
        assert(all.take(j as int) =~= all);
        i = i + 1;
    }
    assert(records@.subrange(0, i as int) =~= records@);
    drawn
}

} // verus!
