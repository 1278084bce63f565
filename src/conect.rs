//! CONECT records of Protein Data Bank files: one atom and the atoms bonded to it.
//!
//! A line is read as `str::split_whitespace` splits it and each number as
//! `usize::from_str` reads it; both are stated here as spec functions on the
//! line's characters.
use vstd::prelude::*;
use vstd::std_specs::iter::IteratorSpec;

verus! {

/// Unicode's White_Space property, which `char::is_whitespace` implements.
pub open spec fn is_white_space(c: char) -> bool {
    let u = c as u32;
    ||| 0x9 <= u <= 0xd
    ||| u == 0x20
    ||| u == 0x85
    ||| u == 0xa0
    ||| u == 0x1680
    ||| 0x2000 <= u <= 0x200a
    ||| u == 0x2028
    ||| u == 0x2029
    ||| u == 0x202f
    ||| u == 0x205f
    ||| u == 0x3000
}

/// Reading `s` from the left: the words closed so far, and the word still open.
pub open spec fn scan_words(s: Seq<char>) -> (Seq<Seq<char>>, Seq<char>)
    decreases s.len(),
{
    if s.len() == 0 {
        (Seq::empty(), Seq::empty())
    } else {
        let (closed, open) = scan_words(s.drop_last());
        let c = s.last();
        if !is_white_space(c) {
            (closed, open.push(c))
        } else if open.len() > 0 {
            (closed.push(open), Seq::empty())
        } else {
            (closed, open)
        }
    }
}

/// The maximal runs of non-white-space characters of `s`, in order.
pub open spec fn words(s: Seq<char>) -> Seq<Seq<char>> {
    let (closed, open) = scan_words(s);
    if open.len() > 0 {
        closed.push(open)
    } else {
        closed
    }
}

/// The characters of each vector.
pub open spec fn char_views(v: Seq<Vec<char>>) -> Seq<Seq<char>> {
    v.map_values(|w: Vec<char>| w@)
}

/// Whether `c` is white space, as `char::is_whitespace` tells.
fn is_white_space_char(c: char) -> (r: bool)
    ensures
        r == is_white_space(c),
{
    let u = c as u32;
    (0x9 <= u && u <= 0xd) || u == 0x20 || u == 0x85 || u == 0xa0 || u == 0x1680 || (0x2000 <= u
        && u <= 0x200a) || u == 0x2028 || u == 0x2029 || u == 0x202f || u == 0x205f || u == 0x3000
}

/// Splits `line` into its words.
fn split_words(line: &str) -> (r: Vec<Vec<char>>)
    ensures
        char_views(r@) == words(line@),
{
    let mut closed: Vec<Vec<char>> = Vec::new();
    let mut open: Vec<char> = Vec::new();
    let mut chars = line.chars();
    let ghost mut seen: Seq<char> = Seq::empty();
    loop
        invariant
            seen + chars.remaining() == line@,
            scan_words(seen) == (char_views(closed@), open@),
            chars.decrease() is Some,
        ensures
            seen == line@,
            scan_words(seen) == (char_views(closed@), open@),
        decreases chars.decrease()->0,
    {
        let ghost before = chars.remaining();
        match chars.next() {
            None => {
                assert(seen =~= line@);
                break ;
            },
            Some(c) => {
                proof {
                    let prev = seen;
                    seen = seen.push(c);
                    assert(seen.drop_last() =~= prev);
                    assert(seen + chars.remaining() =~= line@) by {
                        assert(before =~= seq![c] + chars.remaining());
                    }
                }
                if !is_white_space_char(c) {
                    open.push(c);
                } else if open.len() > 0 {
                    let w = open;
                    open = Vec::new();
                    closed.push(w);
                    assert(char_views(closed@) =~= char_views(closed@.drop_last()).push(w@));
                }
            },
        }
    }
    let ghost state = scan_words(line@);
    assert(state.0 == char_views(closed@) && state.1 == open@);
    if open.len() > 0 {
        let ghost before = closed@;
        closed.push(open);
        assert(char_views(closed@) =~= char_views(before).push(state.1));
    }
    closed
}

/// An ASCII decimal digit.
pub open spec fn is_decimal_digit(c: char) -> bool {
    '0' <= c <= '9'
}

/// The number that the decimal digits `d` spell, most significant first.
pub open spec fn decimal_value(d: Seq<char>) -> nat
    decreases d.len(),
{
    if d.len() == 0 {
        0
    } else {
        decimal_value(d.drop_last()) * 10 + (d.last() as nat - '0' as nat) as nat
    }
}

/// The part of `w` that holds the digits: all of it, or what follows a leading `+`.
pub open spec fn digits_part(w: Seq<char>) -> Seq<char> {
    if w.len() > 0 && w[0] == '+' {
        w.drop_first()
    } else {
        w
    }
}

/// What `usize::from_str` reads from `w`: one or more decimal digits, with an
/// optional leading `+`, whose value fits in a `usize`.
pub open spec fn unsigned_of(w: Seq<char>) -> Option<usize> {
    let d = digits_part(w);
    if d.len() > 0 && (forall|i: int| 0 <= i < d.len() ==> is_decimal_digit(#[trigger] d[i]))
        && decimal_value(d) <= usize::MAX {
        Some(decimal_value(d) as usize)
    } else {
        None
    }
}

proof fn lemma_decimal_value_grows(d: Seq<char>, k: int)
    requires
        0 <= k <= d.len(),
        forall|i: int| 0 <= i < d.len() ==> is_decimal_digit(#[trigger] d[i]),
    ensures
        decimal_value(d.subrange(0, k)) <= decimal_value(d),
    decreases d.len() - k,
{
    if k < d.len() {
        let p = d.subrange(0, k + 1);
        assert(p.drop_last() =~= d.subrange(0, k));
        lemma_decimal_value_grows(d, k + 1);
    } else {
        assert(d.subrange(0, k) =~= d);
    }
}

/// Reads an unsigned number as `usize::from_str` does.
fn parse_unsigned(w: &Vec<char>) -> (r: Option<usize>)
    ensures
        r == unsigned_of(w@),
{
    let start: usize = if w.len() > 0 && w[0] == '+' {
        1
    } else {
        0
    };
    let ghost d = digits_part(w@);
    assert(d =~= w@.subrange(start as int, w@.len() as int));
    if start == w.len() {
        return None;
    }
    let mut value: usize = 0;
    let mut i: usize = start;
    while i < w.len()
        invariant
            start <= i <= w.len(),
            d == w@.subrange(start as int, w@.len() as int),
            d == digits_part(w@),
            value == decimal_value(d.subrange(0, i - start)),
            forall|j: int| 0 <= j < i - start ==> is_decimal_digit(#[trigger] d[j]),
        decreases w.len() - i,
    {
        let c = w[i];
        assert(d[i - start] == c);
        if !('0' <= c && c <= '9') {
            assert(!is_decimal_digit(d[i - start]));
            return None;
        }
        let ghost p = d.subrange(0, i - start + 1);
        assert(p.drop_last() =~= d.subrange(0, i - start));
        let digit = (c as u32 - '0' as u32) as usize;
        assert(decimal_value(p) == value * 10 + digit);
        if value > (usize::MAX - digit) / 10 {
            proof {
                assert(value * 10 + digit > usize::MAX) by (nonlinear_arith)
                    requires
                        value > (usize::MAX - digit) / 10,
                        digit <= 9,
                ;
                if forall|j: int| 0 <= j < d.len() ==> is_decimal_digit(#[trigger] d[j]) {
                    lemma_decimal_value_grows(d, i - start + 1);
                }
            }
            return None;
        }
        assert(value * 10 + digit <= usize::MAX) by (nonlinear_arith)
            requires
                value <= (usize::MAX - digit) / 10,
                digit <= 9,
        ;
        value = value * 10 + digit;
        i = i + 1;
    }
    assert(d.subrange(0, i - start) =~= d);
    Some(value)
}

/// Whether the word `w` begins with the record name `CONECT`.
pub open spec fn names_conect(w: Seq<char>) -> bool {
    w.len() >= 6 && w.subrange(0, 6) == seq!['C', 'O', 'N', 'E', 'C', 'T']
}

fn starts_with_conect(w: &Vec<char>) -> (r: bool)
    ensures
        r == names_conect(w@),
{
    let ghost name = seq!['C', 'O', 'N', 'E', 'C', 'T'];
    let r = w.len() >= 6 && w[0] == 'C' && w[1] == 'O' && w[2] == 'N' && w[3] == 'E' && w[4] == 'C'
        && w[5] == 'T';
    if w.len() >= 6 {
        assert(r ==> w@.subrange(0, 6) =~= name);
        assert(w@.subrange(0, 6) == name ==> w@.subrange(0, 6)[5] == name[5] && w@.subrange(0, 6)[4] == name[4]
            && w@.subrange(0, 6)[3] == name[3] && w@.subrange(0, 6)[2] == name[2] && w@.subrange(0, 6)[1]
            == name[1] && w@.subrange(0, 6)[0] == name[0]);
    }
    r
}

/// The numbers among `ws` that differ from `source`, in order; words that are no
/// number are passed over.
pub open spec fn bonded_of(ws: Seq<Seq<char>>, source: usize) -> Seq<usize>
    decreases ws.len(),
{
    if ws.len() == 0 {
        Seq::empty()
    } else {
        let before = bonded_of(ws.drop_last(), source);
        let n = unsigned_of(ws.last());
        if n is Some && n->0 != source {
            before.push(n->0)
        } else {
            before
        }
    }
}

/// The record that a line holds, as (source atom, bonded atoms): the line has at
/// least three words, the first begins with `CONECT`, the second is a number.
pub open spec fn conect_of(line: Seq<char>) -> Option<(usize, Seq<usize>)> {
    let ws = words(line);
    if ws.len() < 3 || !names_conect(ws[0]) {
        None
    } else {
        match unsigned_of(ws[1]) {
            Some(source) => Some((source, bonded_of(ws.subrange(2, ws.len() as int), source))),
            None => None,
        }
    }
}

/// A CONECT record: an atom, by serial number, and the atoms bonded to it.
#[derive(Debug, Clone)]
pub struct ConectRecord {
    pub source_atom: usize,
    pub bonded_atoms: Vec<usize>,
}

impl View for ConectRecord {
    type V = (usize, Seq<usize>);

    open spec fn view(&self) -> (usize, Seq<usize>) {
        (self.source_atom, self.bonded_atoms@)
    }
}

impl ConectRecord {
    /// Reads a CONECT line. Bonds of an atom to itself are left out, and so are
    /// bonded atoms that are no number.
    pub fn from_line(line: &str) -> (r: Option<ConectRecord>)
        ensures
            match r {
                Some(rec) => conect_of(line@) == Some(rec@),
                None => conect_of(line@) is None,
            },
    {
        let parts = split_words(line);
        let ghost ws = words(line@);
        if parts.len() < 3 || !starts_with_conect(&parts[0]) {
            return None;
        }
        let source_atom = match parse_unsigned(&parts[1]) {
            Some(n) => n,
            None => {
                return None;
            },
        };
        let mut bonded_atoms: Vec<usize> = Vec::new();
        let mut k: usize = 2;
        while k < parts.len()
            invariant
                2 <= k <= parts.len(),
                char_views(parts@) == ws,
                bonded_atoms@ == bonded_of(ws.subrange(2, k as int), source_atom),
            decreases parts.len() - k,
        {
            let ghost upto = ws.subrange(2, k + 1);
            assert(upto.drop_last() =~= ws.subrange(2, k as int));
            match parse_unsigned(&parts[k]) {
                Some(n) => {
                    if n != source_atom {
                        bonded_atoms.push(n);
                    }
                },
                None => {},
            }
            k = k + 1;
        }
        assert(ws.subrange(2, k as int) =~= ws.subrange(2, ws.len() as int));
        Some(ConectRecord { source_atom, bonded_atoms })
    }
}

/// The records of the CONECT lines among `lines`, in order.
pub open spec fn records_of(lines: Seq<Seq<char>>) -> Seq<(usize, Seq<usize>)>
    decreases lines.len(),
{
    if lines.len() == 0 {
        Seq::empty()
    } else {
        let before = records_of(lines.drop_last());
        match conect_of(lines.last()) {
            Some(rec) => before.push(rec),
            None => before,
        }
    }
}

/// The characters of each string.
pub open spec fn string_views(v: Seq<String>) -> Seq<Seq<char>> {
    v.map_values(|s: String| s@)
}

/// The records of each record.
pub open spec fn record_views(v: Seq<ConectRecord>) -> Seq<(usize, Seq<usize>)> {
    v.map_values(|r: ConectRecord| r@)
}

/// Reads the CONECT records of a file's lines; every other line is passed over.
pub fn records_from_lines(lines: &Vec<String>) -> (r: Vec<ConectRecord>)
    ensures
        record_views(r@) == records_of(string_views(lines@)),
{
    let mut records: Vec<ConectRecord> = Vec::new();
    let mut i: usize = 0;
    while i < lines.len()
        invariant
            i <= lines.len(),
            record_views(records@) == records_of(string_views(lines@.subrange(0, i as int))),
        decreases lines.len() - i,
    {
        let ghost upto = string_views(lines@.subrange(0, i + 1));
        assert(upto.drop_last() =~= string_views(lines@.subrange(0, i as int)));
        assert(upto.last() == lines@[i as int]@);
        match ConectRecord::from_line(lines[i].as_str()) {
            Some(rec) => {
                let ghost before = records@;
                records.push(rec);
                assert(record_views(records@) =~= record_views(before).push(rec@));
            },
            None => {},
        }
        i = i + 1;
    }
    assert(lines@.subrange(0, i as int) =~= lines@);
    records
}

} // verus!
