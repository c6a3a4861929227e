//! The total order that every store key obeys.
//!
//! A key is either a number or a text; numbers come before texts, numbers
//! compare by value and texts compare lexicographically by character. The
//! executable representation `SortKey` splits numbers into a signed and an
//! unsigned variant so that both negative timestamps and large byte counts
//! fit; both variants abstract to the one mathematical `SortKeyV::Int`.
use vstd::prelude::*;

verus! {

/// Mathematical value of a sort key.
pub enum SortKeyV {
    Int(int),
    Text(Seq<char>),
}

/// Executable sort key.
#[derive(Debug, Clone, PartialEq, Eq)]
pub enum SortKey {
    Int(i64),
    Uint(u128),
    Text(Vec<char>),
}

impl View for SortKey {
    type V = SortKeyV;

    open spec fn view(&self) -> SortKeyV {
        match self {
            SortKey::Int(x) => SortKeyV::Int(*x as int),
            SortKey::Uint(x) => SortKeyV::Int(*x as int),
            SortKey::Text(v) => SortKeyV::Text(v@),
        }
    }
}

/// Lexicographic order on character sequences, by unicode scalar value.
pub open spec fn chars_le(a: Seq<char>, b: Seq<char>) -> bool
    decreases a.len(),
{
    if a.len() == 0 {
        true
    } else if b.len() == 0 {
        false
    } else if a[0] == b[0] {
        chars_le(a.drop_first(), b.drop_first())
    } else {
        (a[0] as u32) < (b[0] as u32)
    }
}

/// Total order on key values: numbers first, then texts.
pub open spec fn key_le(a: SortKeyV, b: SortKeyV) -> bool {
    match (a, b) {
        (SortKeyV::Int(x), SortKeyV::Int(y)) => x <= y,
        (SortKeyV::Int(_), SortKeyV::Text(_)) => true,
        (SortKeyV::Text(_), SortKeyV::Int(_)) => false,
        (SortKeyV::Text(x), SortKeyV::Text(y)) => chars_le(x, y),
    }
}

/// Strict version of `key_le`.
pub open spec fn key_lt(a: SortKeyV, b: SortKeyV) -> bool {
    key_le(a, b) && a != b
}

/// Order on (derived key, primary key) pairs: by derived key first, ties
/// broken by primary key.
pub open spec fn pair_le(a: (SortKeyV, SortKeyV), b: (SortKeyV, SortKeyV)) -> bool {
    if a.0 == b.0 {
        key_le(a.1, b.1)
    } else {
        key_lt(a.0, b.0)
    }
}

pub proof fn lemma_chars_le_total(a: Seq<char>, b: Seq<char>)
    ensures
        chars_le(a, b) || chars_le(b, a),
    decreases a.len(),
{
    if a.len() > 0 && b.len() > 0 {
        if a[0] == b[0] {
            lemma_chars_le_total(a.drop_first(), b.drop_first());
        } else {
            lemma_char_code_injective(a[0], b[0]);
        }
    }
}

/// Distinct characters have distinct unicode scalar values.
proof fn lemma_char_code_injective(a: char, b: char)
    requires
        a != b,
    ensures
        a as u32 != b as u32,
{
    vstd::utf8::char_u32_cast(a, a as u32);
    vstd::utf8::char_u32_cast(b, b as u32);
}

pub proof fn lemma_chars_le_antisym(a: Seq<char>, b: Seq<char>)
    requires
        chars_le(a, b),
        chars_le(b, a),
    ensures
        a == b,
    decreases a.len(),
{
    if a.len() == 0 {
        assert(b.len() == 0);
        assert(a =~= b);
    } else {
        assert(b.len() > 0);
        if a[0] != b[0] {
            lemma_char_code_injective(a[0], b[0]);
            assert(false);
        }
        lemma_chars_le_antisym(a.drop_first(), b.drop_first());
        assert(forall|i: int|
            1 <= i < a.len() ==> a[i] == a.drop_first()[i - 1] && b[i] == b.drop_first()[i - 1]);
        assert(a =~= b);
    }
}

pub proof fn lemma_chars_le_trans(a: Seq<char>, b: Seq<char>, c: Seq<char>)
    requires
        chars_le(a, b),
        chars_le(b, c),
    ensures
        chars_le(a, c),
    decreases a.len(),
{
    if a.len() > 0 && b.len() > 0 && c.len() > 0 {
        if a[0] == b[0] && b[0] == c[0] {
            lemma_chars_le_trans(a.drop_first(), b.drop_first(), c.drop_first());
        }
    }
}

pub proof fn lemma_key_le_total(a: SortKeyV, b: SortKeyV)
    ensures
        key_le(a, b) || key_le(b, a),
{
    if a is Text && b is Text {
        lemma_chars_le_total(a->Text_0, b->Text_0);
    }
}

pub proof fn lemma_key_le_antisym(a: SortKeyV, b: SortKeyV)
    requires
        key_le(a, b),
        key_le(b, a),
    ensures
        a == b,
{
    if a is Text && b is Text {
        lemma_chars_le_antisym(a->Text_0, b->Text_0);
    }
}

pub proof fn lemma_key_le_trans(a: SortKeyV, b: SortKeyV, c: SortKeyV)
    requires
        key_le(a, b),
        key_le(b, c),
    ensures
        key_le(a, c),
{
    if a is Text && b is Text && c is Text {
        lemma_chars_le_trans(a->Text_0, b->Text_0, c->Text_0);
    }
}

pub proof fn lemma_pair_le_total(a: (SortKeyV, SortKeyV), b: (SortKeyV, SortKeyV))
    ensures
        pair_le(a, b) || pair_le(b, a),
{
    lemma_key_le_total(a.0, b.0);
    lemma_key_le_total(a.1, b.1);
}

pub proof fn lemma_pair_le_antisym(a: (SortKeyV, SortKeyV), b: (SortKeyV, SortKeyV))
    requires
        pair_le(a, b),
        pair_le(b, a),
    ensures
        a.0 == b.0,
        a.1 == b.1,
{
    if a.0 == b.0 {
        lemma_key_le_antisym(a.1, b.1);
    } else {
        lemma_key_le_antisym(a.0, b.0);
    }
}

pub proof fn lemma_pair_le_trans(a: (SortKeyV, SortKeyV), b: (SortKeyV, SortKeyV), c: (SortKeyV, SortKeyV))
    requires
        pair_le(a, b),
        pair_le(b, c),
    ensures
        pair_le(a, c),
{
    if a.0 == b.0 && b.0 == c.0 {
        lemma_key_le_trans(a.1, b.1, c.1);
    } else if a.0 == b.0 {
        // a.0 == b.0 < c.0
    } else if b.0 == c.0 {
        // a.0 < b.0 == c.0
    } else {
        lemma_key_le_trans(a.0, b.0, c.0);
        if a.0 == c.0 {
            lemma_key_le_antisym(b.0, c.0);
            assert(false);
        }
    }
}

/// Relates `chars_le` on full sequences to `chars_le` on their tails after a
/// common prefix of length `i`.
proof fn lemma_chars_le_skip(a: Seq<char>, b: Seq<char>, i: int)
    requires
        0 <= i <= a.len(),
        i <= b.len(),
        forall|j: int| 0 <= j < i ==> a[j] == b[j],
    ensures
        chars_le(a, b) == chars_le(a.skip(i), b.skip(i)),
    decreases i,
{
    if i > 0 {
        assert(a.len() > 0 && b.len() > 0);
        assert(a[0] == b[0]);
        assert(a.drop_first() =~= a.skip(1));
        assert(b.drop_first() =~= b.skip(1));
        lemma_chars_le_skip(a.skip(1), b.skip(1), i - 1);
        assert(a.skip(1).skip(i - 1) =~= a.skip(i));
        assert(b.skip(1).skip(i - 1) =~= b.skip(i));
    } else {
        assert(a.skip(0) =~= a);
        assert(b.skip(0) =~= b);
    }
}

/// Executable lexicographic comparison of two character vectors.
fn chars_le_exec(a: &Vec<char>, b: &Vec<char>) -> (r: bool)
    ensures
        r == chars_le(a@, b@),
{
    let mut i: usize = 0;
    loop
        invariant
            0 <= i <= a@.len(),
            i <= b@.len(),
            forall|j: int| 0 <= j < i ==> a@[j] == b@[j],
        ensures
            (i == a@.len() || i == b@.len() || a@[i as int] != b@[i as int]),
            0 <= i <= a@.len(),
            i <= b@.len(),
            forall|j: int| 0 <= j < i ==> a@[j] == b@[j],
        decreases a@.len() - i,
    {
        if i == a.len() || i == b.len() {
            break;
        }
        if a[i] != b[i] {
            break;
        }
        i = i + 1;
    }
    proof {
        lemma_chars_le_skip(a@, b@, i as int);
    }
    if i == a.len() {
        assert(a@.skip(i as int).len() == 0);
        true
    } else if i == b.len() {
        assert(b@.skip(i as int).len() == 0);
        assert(a@.skip(i as int).len() > 0);
        false
    } else {
        assert(a@.skip(i as int)[0] == a@[i as int]);
        assert(b@.skip(i as int)[0] == b@[i as int]);
        (a[i] as u32) < (b[i] as u32)
    }
}

/// Executable equality of two character vectors, at the level of views.
fn chars_eq_exec(a: &Vec<char>, b: &Vec<char>) -> (r: bool)
    ensures
        r == (a@ == b@),
{
    if a.len() != b.len() {
        return false;
    }
    let n = a.len();
    let mut i: usize = 0;
    while i < n
        invariant
            0 <= i <= n,
            n == a@.len() == b@.len(),
            forall|j: int| 0 <= j < i ==> a@[j] == b@[j],
        decreases n - i,
    {
        if a[i] != b[i] {
            return false;
        }
        i = i + 1;
    }
    proof {
        assert(a@ =~= b@);
    }
    true
}

impl SortKey {
    /// Executable test of `key_le` on the keys' mathematical values.
    pub fn le(&self, other: &SortKey) -> (r: bool)
        ensures
            r == key_le(self@, other@),
    {
        match (self, other) {
            (SortKey::Int(x), SortKey::Int(y)) => *x <= *y,
            (SortKey::Int(x), SortKey::Uint(y)) => *x < 0 || (*x as u128) <= *y,
            (SortKey::Uint(x), SortKey::Int(y)) => *y >= 0 && *x <= (*y as u128),
            (SortKey::Uint(x), SortKey::Uint(y)) => *x <= *y,
            (SortKey::Int(_), SortKey::Text(_)) => true,
            (SortKey::Uint(_), SortKey::Text(_)) => true,
            (SortKey::Text(_), SortKey::Int(_)) => false,
            (SortKey::Text(_), SortKey::Uint(_)) => false,
            (SortKey::Text(x), SortKey::Text(y)) => chars_le_exec(x, y),
        }
    }

    /// Executable equality of the keys' mathematical values.
    pub fn key_eq(&self, other: &SortKey) -> (r: bool)
        ensures
            r == (self@ == other@),
    {
        match (self, other) {
            (SortKey::Int(x), SortKey::Int(y)) => *x == *y,
            (SortKey::Int(x), SortKey::Uint(y)) => *x >= 0 && (*x as u128) == *y,
            (SortKey::Uint(x), SortKey::Int(y)) => *y >= 0 && *x == (*y as u128),
            (SortKey::Uint(x), SortKey::Uint(y)) => *x == *y,
            (SortKey::Int(_), SortKey::Text(_)) => false,
            (SortKey::Uint(_), SortKey::Text(_)) => false,
            (SortKey::Text(_), SortKey::Int(_)) => false,
            (SortKey::Text(_), SortKey::Uint(_)) => false,
            (SortKey::Text(x), SortKey::Text(y)) => chars_eq_exec(x, y),
        }
    }

    /// Executable test of `key_lt` on the keys' mathematical values.
    pub fn lt(&self, other: &SortKey) -> (r: bool)
        ensures
            r == key_lt(self@, other@),
    {
        self.le(other) && !self.key_eq(other)
    }
}

} // verus!
