use vstd::prelude::*;
use vstd::hash_map::StringHashMap;
use vstd::string::StringExecFns;
use vstd::arithmetic::div_mod::lemma_div_denominator;
use vstd::utf8::{decode_utf8, valid_utf8};
use crate::text::decode_text;

verus! {

/// The number of ordinals that `populate` enters: keys `"00000"` to `"99999"`.
pub const ZIP_COUNT: u32 = 100000;

/// The decimal digit character for `d` in `0..10`.
pub open spec fn digit_char(d: int) -> char {
    if d == 0 { '0' }
    else if d == 1 { '1' }
    else if d == 2 { '2' }
    else if d == 3 { '3' }
    else if d == 4 { '4' }
    else if d == 5 { '5' }
    else if d == 6 { '6' }
    else if d == 7 { '7' }
    else if d == 8 { '8' }
    else { '9' }
}

/// Whether `c` is one of `'0'..='9'`.
pub open spec fn is_digit(c: char) -> bool {
    '0' <= c && c <= '9'
}

/// The value of the digit character `c`.
pub open spec fn digit_value(c: char) -> int {
    c as int - '0' as int
}

/// `i` written as exactly five decimal digits, with leading zeros.
pub open spec fn zero_pad5(i: int) -> Seq<char> {
    seq![
        digit_char(i / 10000 % 10),
        digit_char(i / 1000 % 10),
        digit_char(i / 100 % 10),
        digit_char(i / 10 % 10),
        digit_char(i % 10),
    ]
}

/// A key of the shape `populate` enters: five decimal digits.
pub open spec fn is_zip_key(k: Seq<char>) -> bool {
    k.len() == 5 && forall|j: int| 0 <= j < 5 ==> is_digit(#[trigger] k[j])
}

/// The number that a five-digit key spells.
pub open spec fn zip_value(k: Seq<char>) -> int {
    digit_value(k[0]) * 10000 + digit_value(k[1]) * 1000 + digit_value(k[2]) * 100
        + digit_value(k[3]) * 10 + digit_value(k[4])
}

proof fn lemma_digit_char(d: int)
    requires
        0 <= d < 10,
    ensures
        is_digit(digit_char(d)),
        digit_value(digit_char(d)) == d,
{
}


proof fn lemma_zero_pad5(i: int)
    requires
        0 <= i < 100000,
    ensures
        is_zip_key(zero_pad5(i)),
        zip_value(zero_pad5(i)) == i,
{
    lemma_digit_char(i / 10000 % 10);
    lemma_digit_char(i / 1000 % 10);
    lemma_digit_char(i / 100 % 10);
    lemma_digit_char(i / 10 % 10);
    lemma_digit_char(i % 10);
    let q1 = i / 10;
    let q2 = q1 / 10;
    let q3 = q2 / 10;
    let q4 = q3 / 10;
    lemma_div_denominator(i, 10, 10);
    lemma_div_denominator(i, 100, 10);
    lemma_div_denominator(i, 1000, 10);
    assert(i / 100 == q2 && i / 1000 == q3 && i / 10000 == q4);
    assert(zip_value(zero_pad5(i)) == i);
}

proof fn lemma_zip_key_round_trip(k: Seq<char>)
    requires
        is_zip_key(k),
    ensures
        0 <= zip_value(k) < 100000,
        zero_pad5(zip_value(k)) == k,
{
    let d0 = digit_value(k[0]);
    let d1 = digit_value(k[1]);
    let d2 = digit_value(k[2]);
    let d3 = digit_value(k[3]);
    let d4 = digit_value(k[4]);
    assert(is_digit(k[0]) && is_digit(k[1]) && is_digit(k[2]) && is_digit(k[3]) && is_digit(k[4]));
    let v = zip_value(k);
    assert(v / 10000 % 10 == d0 && v / 1000 % 10 == d1 && v / 100 % 10 == d2 && v / 10 % 10 == d3
        && v % 10 == d4 && 0 <= v < 100000) by (nonlinear_arith)
        requires
            0 <= d0 < 10,
            0 <= d1 < 10,
            0 <= d2 < 10,
            0 <= d3 < 10,
            0 <= d4 < 10,
            v == d0 * 10000 + d1 * 1000 + d2 * 100 + d3 * 10 + d4,
    ;
    assert(zero_pad5(v) =~= k);
}


/// The entries that `populate` enters: each five-digit key maps to the number it spells.
pub open spec fn populated_map() -> Map<Seq<char>, u32> {
    Map::new(|k: Seq<char>| is_zip_key(k), |k: Seq<char>| zip_value(k) as u32)
}

/// The entries for the ordinals below `n`.
spec fn populated_below(n: int) -> Map<Seq<char>, u32> {
    Map::new(|k: Seq<char>| is_zip_key(k) && zip_value(k) < n, |k: Seq<char>| zip_value(k) as u32)
}

/// What a lookup of `key` in `m` yields: the stored count, or `0` for an absent key.
pub open spec fn lookup(m: Map<Seq<char>, u32>, key: Seq<char>) -> u32 {
    if m.contains_key(key) {
        m[key]
    } else {
        0
    }
}

/// The one-character text of the digit `d`.
fn digit_text(d: u32) -> (r: &'static str)
    requires
        d < 10,
    ensures
        r@ == seq![digit_char(d as int)],
{
    if d == 0 {
        proof { reveal_strlit("0"); }
        "0"
    } else if d == 1 {
        proof { reveal_strlit("1"); }
        "1"
    } else if d == 2 {
        proof { reveal_strlit("2"); }
        "2"
    } else if d == 3 {
        proof { reveal_strlit("3"); }
        "3"
    } else if d == 4 {
        proof { reveal_strlit("4"); }
        "4"
    } else if d == 5 {
        proof { reveal_strlit("5"); }
        "5"
    } else if d == 6 {
        proof { reveal_strlit("6"); }
        "6"
    } else if d == 7 {
        proof { reveal_strlit("7"); }
        "7"
    } else if d == 8 {
        proof { reveal_strlit("8"); }
        "8"
    } else {
        proof { reveal_strlit("9"); }
        "9"
    }
}

/// `i` as a five-digit key with leading zeros.
pub fn zip_key(i: u32) -> (r: String)
    requires
        i < ZIP_COUNT,
    ensures
        r@ == zero_pad5(i as int),
{
    let mut key = String::new();
    key.append(digit_text(i / 10000 % 10));
    key.append(digit_text(i / 1000 % 10));
    key.append(digit_text(i / 100 % 10));
    key.append(digit_text(i / 10 % 10));
    key.append(digit_text(i % 10));
    assert(key@ =~= zero_pad5(i as int));
    key
}

/// A table from five-digit decimal keys to population counts.
pub struct ZipCodeDatabase {
    population: StringHashMap<u32>,
}

impl View for ZipCodeDatabase {
    type V = Map<Seq<char>, u32>;

    closed spec fn view(&self) -> Map<Seq<char>, u32> {
        self.population@
    }
}

impl ZipCodeDatabase {
    /// An empty table.
    pub fn new() -> (r: ZipCodeDatabase)
        ensures
            r@ == Map::<Seq<char>, u32>::empty(),
    {
        ZipCodeDatabase { population: StringHashMap::new() }
    }

    /// Enters each ordinal `i` below `ZIP_COUNT` under its five-digit key, replacing
    /// what those keys held and keeping every other entry.
    pub fn populate(&mut self)
        ensures
            final(self)@ == old(self)@.union_prefer_right(populated_map()),
    {
        let mut i: u32 = 0;
        while i < ZIP_COUNT
            invariant
                0 <= i <= ZIP_COUNT,
                self@ == old(self)@.union_prefer_right(populated_below(i as int)),
            decreases ZIP_COUNT - i,
        {
            let key = zip_key(i);
            self.population.insert(key, i);
            proof {
                lemma_zero_pad5(i as int);
                assert forall|k: Seq<char>| is_zip_key(k) && zip_value(k) == i implies k
                    == zero_pad5(i as int) by {
                    lemma_zip_key_round_trip(k);
                }
                assert(self@ =~= old(self)@.union_prefer_right(populated_below(i + 1)));
            }
            i = i + 1;
        }
        assert(populated_below(ZIP_COUNT as int) =~= populated_map()) by {
            assert forall|k: Seq<char>| is_zip_key(k) implies zip_value(k) < ZIP_COUNT by {
                lemma_zip_key_round_trip(k);
            }
        }
    }

    /// The count stored under `zip`, or `0` where there is none.
    pub fn population_of(&self, zip: &str) -> (r: u32)
        ensures
            r == lookup(self@, zip@),
    {
        match self.population.get(zip) {
            Some(v) => *v,
            None => 0,
        }
    }
}


/// A fresh table from `new` with `populate` not yet called.
pub fn zip_code_database_new() -> (r: ZipCodeDatabase)
    ensures
        r@ == Map::<Seq<char>, u32>::empty(),
{
    ZipCodeDatabase::new()
}

/// Fills `db` with the five-digit keys and their ordinals.
pub fn zip_code_database_populate(db: &mut ZipCodeDatabase)
    ensures
        final(db)@ == old(db)@.union_prefer_right(populated_map()),
{
    db.populate();
}

/// Looks up the key given as bytes; `None` where the bytes are not valid UTF-8.
pub fn zip_code_database_population_of(db: &ZipCodeDatabase, zip: &[u8]) -> (r: Option<u32>)
    ensures
        r == (if valid_utf8(zip@) {
            Some(lookup(db@, decode_utf8(zip@)))
        } else {
            None::<u32>
        }),
{
    match decode_text(zip) {
        Some(text) => Some(db.population_of(text)),
        None => None,
    }
}

/// Every key yields `0` from a table that `new` made and nothing has filled.
pub proof fn lemma_fresh_lookup_is_zero(key: Seq<char>)
    ensures
        lookup(Map::<Seq<char>, u32>::empty(), key) == 0,
{
}

/// After `populate`, whatever the table held before, the five-digit key of each
/// ordinal `i` below `ZIP_COUNT` yields `i`.
pub proof fn lemma_populated_lookup(before: Map<Seq<char>, u32>, i: u32)
    requires
        i < ZIP_COUNT,
    ensures
        lookup(before.union_prefer_right(populated_map()), zero_pad5(i as int)) == i,
{
    lemma_zero_pad5(i as int);
}

/// After `populate` on a fresh table, a key that is not five decimal digits yields `0`.
pub proof fn lemma_populated_other_key_is_zero(key: Seq<char>)
    requires
        !is_zip_key(key),
    ensures
        lookup(Map::<Seq<char>, u32>::empty().union_prefer_right(populated_map()), key) == 0,
{
}

} // verus!
