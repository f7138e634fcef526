//! The nominal conductor sizes of the catalogue.
use vstd::prelude::*;
use crate::text::{decimal, digit_char, find_code, lemma_own_place, position};

verus! {

/// How many nominal sizes the catalogue knows.
pub const SIZE_COUNT: usize = 18;

/// The size codes, in square millimetres, ascending.
pub const SIZE_CODES: [&'static str; 18] = [
    "1.5", "2.5", "4", "6", "10", "16", "25", "35", "50",
    "70", "95", "120", "150", "185", "240", "300", "400", "500",
];

/// The conductor cross-section of each size, in tenths of a square
/// millimetre, in the order of `SIZE_CODES`.
pub const NOMINAL_TENTHS: [u32; 18] = [
    15, 25, 40, 60, 100, 160, 250, 350, 500,
    700, 950, 1200, 1500, 1850, 2400, 3000, 4000, 5000,
];

/// The place of a size code among the nominal sizes.
pub open spec fn size_index(size: Seq<char>) -> Option<int> {
    position(SIZE_CODES@, size)
}

/// Finds a size code among the nominal sizes.
pub fn find_size(size: &str) -> (r: Option<usize>)
    ensures
        match r {
            Some(i) => size_index(size@) == Some(i as int) && i < SIZE_COUNT,
            None => size_index(size@) is None,
        },
{
    find_code(&SIZE_CODES, size)
}

/// The size codes differ from one another: each has its own index for its
/// place.
pub proof fn lemma_size_code_place(i: int)
    requires
        0 <= i < SIZE_COUNT,
    ensures
        size_index(SIZE_CODES[i]@) == Some(i),
{
    reveal_strlit("1.5");
    reveal_strlit("2.5");
    reveal_strlit("4");
    reveal_strlit("6");
    reveal_strlit("10");
    reveal_strlit("16");
    reveal_strlit("25");
    reveal_strlit("35");
    reveal_strlit("50");
    reveal_strlit("70");
    reveal_strlit("95");
    reveal_strlit("120");
    reveal_strlit("150");
    reveal_strlit("185");
    reveal_strlit("240");
    reveal_strlit("300");
    reveal_strlit("400");
    reveal_strlit("500");
    lemma_own_place(SIZE_CODES@, i);
}

/// A number of tenths written as a size code is written: the whole part in
/// decimal, and a point and one digit after it where the tenths are not
/// whole.
pub open spec fn tenths_written(tenths: nat) -> Seq<char> {
    if tenths % 10 == 0 {
        decimal(tenths / 10)
    } else {
        decimal(tenths / 10) + seq!['.', digit_char(tenths % 10)]
    }
}

/// Each size code is the decimal writing of its nominal cross-section: to
/// read the code as a number gives the figure that the table holds.
pub proof fn lemma_size_code_writes_nominal(i: int)
    requires
        0 <= i < SIZE_COUNT,
    ensures
        SIZE_CODES[i]@ == tenths_written(NOMINAL_TENTHS[i] as nat),
{
    reveal_with_fuel(decimal, 3);
    reveal_strlit("1.5");
    reveal_strlit("2.5");
    reveal_strlit("4");
    reveal_strlit("6");
    reveal_strlit("10");
    reveal_strlit("16");
    reveal_strlit("25");
    reveal_strlit("35");
    reveal_strlit("50");
    reveal_strlit("70");
    reveal_strlit("95");
    reveal_strlit("120");
    reveal_strlit("150");
    reveal_strlit("185");
    reveal_strlit("240");
    reveal_strlit("300");
    reveal_strlit("400");
    reveal_strlit("500");
}

} // verus!
