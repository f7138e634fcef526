//! Text helpers: comparing code strings and writing numbers in decimal.
use vstd::prelude::*;
use vstd::string::StringSliceAdditionalSpecFns;

verus! {

/// Whether two strings hold the same characters.
///
/// The comparison runs over the UTF-8 bytes; since decoding undoes encoding,
/// equal bytes mean equal characters.
pub fn same_text(a: &str, b: &str) -> (r: bool)
    ensures
        r == (a@ == b@),
{
    let x = a.as_bytes();
    let y = b.as_bytes();
    proof {
        vstd::utf8::encode_utf8_decode_utf8(a@);
        vstd::utf8::encode_utf8_decode_utf8(b@);
    }
    if x.len() != y.len() {
        return false;
    }
    let mut i: usize = 0;
    while i < x.len()
        invariant
            i <= x.len(),
            x.len() == y.len(),
            forall|k: int| 0 <= k < i ==> x@[k] == y@[k],
            x@ == a.spec_bytes(),
            y@ == b.spec_bytes(),
            vstd::utf8::decode_utf8(a.spec_bytes()) == a@,
            vstd::utf8::decode_utf8(b.spec_bytes()) == b@,
        decreases x.len() - i,
    {
        if x[i] != y[i] {
            return false;
        }
        i = i + 1;
    }
    assert(x@ =~= y@);
    true
}

/// Whether `codes[i]` is the text `s` and no earlier entry is.
pub open spec fn first_at(codes: Seq<&'static str>, s: Seq<char>, i: int) -> bool {
    &&& 0 <= i < codes.len()
    &&& codes[i]@ == s
    &&& forall|j: int| 0 <= j < i ==> codes[j]@ != s
}

/// The place of the text `s` in a list of codes, if it is one of them.
pub open spec fn position(codes: Seq<&'static str>, s: Seq<char>) -> Option<int> {
    if exists|i: int| first_at(codes, s, i) {
        Some(choose|i: int| first_at(codes, s, i))
    } else {
        None
    }
}

/// A list of codes holds the text at `i` and nowhere before: that is its place.
pub proof fn lemma_position_is(codes: Seq<&'static str>, s: Seq<char>, i: int)
    requires
        first_at(codes, s, i),
    ensures
        position(codes, s) == Some(i),
{
    let k = choose|k: int| first_at(codes, s, k);
    assert(k == i);
}

/// The place of a text in a list of codes lies within the list, holds the
/// text, and is the first to do so.
pub proof fn lemma_position_found(codes: Seq<&'static str>, s: Seq<char>)
    ensures
        position(codes, s) matches Some(i) ==> first_at(codes, s, i),
{
}

/// A list of codes that holds the text nowhere gives it no place.
pub proof fn lemma_position_none(codes: Seq<&'static str>, s: Seq<char>)
    requires
        forall|j: int| 0 <= j < codes.len() ==> codes[j]@ != s,
    ensures
        position(codes, s) is None,
{
}

/// What tells short codes apart: the length and the first three characters.
pub open spec fn signature(s: Seq<char>) -> (nat, char, char, char) {
    (s.len(), s[0], s[1], s[2])
}

/// A code that differs in length or in one of its first three characters
/// from every code before it in the list has its own index for its place.
pub proof fn lemma_own_place(codes: Seq<&'static str>, i: int)
    requires
        0 <= i < codes.len(),
        forall|j: int| 0 <= j < i ==> signature(#[trigger] codes[j]@) != signature(codes[i]@),
    ensures
        position(codes, codes[i]@) == Some(i),
{
    lemma_position_is(codes, codes[i]@, i);
}

/// Looks a code up in a list of codes.
pub fn find_code(codes: &[&'static str], s: &str) -> (r: Option<usize>)
    ensures
        match r {
            Some(i) => position(codes@, s@) == Some(i as int) && i < codes@.len(),
            None => position(codes@, s@) is None,
        },
{
    let mut i: usize = 0;
    while i < codes.len()
        invariant
            i <= codes@.len(),
            forall|j: int| 0 <= j < i ==> codes@[j]@ != s@,
        decreases codes@.len() - i,
    {
        if same_text(codes[i], s) {
            proof {
                lemma_position_is(codes@, s@, i as int);
            }
            return Some(i);
        }
        i = i + 1;
    }
    proof {
        lemma_position_none(codes@, s@);
    }
    None
}

/// The character that writes one decimal digit.
pub open spec fn digit_char(d: nat) -> char {
    if d == 0 {
        '0'
    } else if d == 1 {
        '1'
    } else if d == 2 {
        '2'
    } else if d == 3 {
        '3'
    } else if d == 4 {
        '4'
    } else if d == 5 {
        '5'
    } else if d == 6 {
        '6'
    } else if d == 7 {
        '7'
    } else if d == 8 {
        '8'
    } else {
        '9'
    }
}

/// A number written in decimal, most significant digit first, without
/// leading zeros (zero itself is written "0").
pub open spec fn decimal(n: nat) -> Seq<char>
    decreases n,
{
    if n < 10 {
        seq![digit_char(n)]
    } else {
        decimal(n / 10).push(digit_char(n % 10))
    }
}

/// One decimal digit as text.
fn digit_text(d: u64) -> (r: &'static str)
    requires
        d < 10,
    ensures
        r@ == seq![digit_char(d as nat)],
{
    proof {
        reveal_strlit("0");
        reveal_strlit("1");
        reveal_strlit("2");
        reveal_strlit("3");
        reveal_strlit("4");
        reveal_strlit("5");
        reveal_strlit("6");
        reveal_strlit("7");
        reveal_strlit("8");
        reveal_strlit("9");
    }
    let r = if d == 0 {
        "0"
    } else if d == 1 {
        "1"
    } else if d == 2 {
        "2"
    } else if d == 3 {
        "3"
    } else if d == 4 {
        "4"
    } else if d == 5 {
        "5"
    } else if d == 6 {
        "6"
    } else if d == 7 {
        "7"
    } else if d == 8 {
        "8"
    } else {
        "9"
    };
    r
}

/// Writes a number in decimal.
pub fn decimal_text(n: u64) -> (r: String)
    ensures
        r@ == decimal(n as nat),
    decreases n,
{
    if n < 10 {
        String::from_str(digit_text(n))
    } else {
        let mut s = decimal_text(n / 10);
        s.append(digit_text(n % 10));
        s
    }
}

/// A number of hundredths written with two decimals, such as "0.65" for
/// sixty-five.
pub open spec fn two_decimals(hundredths: nat) -> Seq<char> {
    decimal(hundredths / 100) + seq!['.'] + seq![digit_char((hundredths / 10) % 10)] + seq![
        digit_char(hundredths % 10),
    ]
}

/// Writes a number of hundredths with two decimals.
pub fn two_decimals_text(hundredths: u64) -> (r: String)
    ensures
        r@ == two_decimals(hundredths as nat),
{
    let mut s = decimal_text(hundredths / 100);
    proof {
        reveal_strlit(".");
    }
    s.append(".");
    s.append(digit_text((hundredths / 10) % 10));
    s.append(digit_text(hundredths % 10));
    s
}

} // verus!
