//! The conduit catalogue and the choice of the smallest conduit that a
//! bundle of cables may fill to no more than the permitted share.
use vstd::prelude::*;
use crate::geometry::{calculate_cable_area, circular_area};
use crate::rounding::{round_half_up, rounded};

verus! {

/// How many conduits the catalogue holds.
pub const CONDUIT_COUNT: usize = 10;

/// Steel conduits, each with its name and its inner diameter in micrometres,
/// from the narrowest to the widest.
pub const CONDUITS: [(&'static str, u32); 10] = [
    ("C16 (16mm)", 15800),
    ("C22 (22mm)", 21000),
    ("C28 (28mm)", 26600),
    ("C36 (36mm)", 35000),
    ("C42 (42mm)", 41000),
    ("C54 (54mm)", 53000),
    ("C70 (70mm)", 69000),
    ("C82 (82mm)", 80000),
    ("C92 (92mm)", 89000),
    ("C104 (104mm)", 101000),
];

/// The share of a conduit's cross-section, in hundredths, that cables may
/// take up.
pub const MAX_FILL: u64 = 33;

/// The label given where no conduit of the catalogue is wide enough.
pub const NEEDS_LARGER: &'static str = "C104 이상 검토 필요";

/// A percentage held exactly, as a fraction.
#[derive(Clone, Copy, Debug, PartialEq, Eq, Structural)]
pub struct Percent {
    pub numerator: u64,
    pub denominator: u64,
}

impl Percent {
    /// Whether the fraction has a value: its denominator is not zero.
    pub open spec fn is_valid(self) -> bool {
        self.denominator > 0
    }

    /// The percentage in tenths of a percent, rounded to the nearest tenth.
    pub open spec fn tenths(self) -> int {
        round_half_up(10 * self.numerator, self.denominator as int)
    }

    /// Rounds the percentage to tenths of a percent.
    pub fn rounded_tenths(&self) -> (r: u128)
        requires
            self.is_valid(),
        ensures
            r == self.tenths(),
    {
        rounded(10 * (self.numerator as u128), self.denominator as u128)
    }
}

/// The inner cross-section of the `i`-th conduit, in circular units.
pub open spec fn conduit_area(i: int) -> int {
    circular_area(CONDUITS[i].1 as int)
}

/// Whether cables of the given total cross-section take up no more than the
/// permitted share of the `i`-th conduit.
pub open spec fn fits(i: int, total_area: int) -> bool {
    100 * total_area <= MAX_FILL * conduit_area(i)
}

/// Whether the `i`-th conduit is wide enough and no narrower one is.
pub open spec fn is_smallest_fit(i: int, total_area: int) -> bool {
    &&& 0 <= i < CONDUIT_COUNT
    &&& fits(i, total_area)
    &&& forall|j: int| 0 <= j < i ==> !fits(j, total_area)
}

/// The narrowest conduit of the catalogue that is wide enough, if any is.
pub open spec fn smallest_fit(total_area: int) -> Option<int> {
    if exists|i: int| is_smallest_fit(i, total_area) {
        Some(choose|i: int| is_smallest_fit(i, total_area))
    } else {
        None
    }
}

/// The conduit that is wide enough while no narrower one is, is the
/// narrowest fit.
pub proof fn lemma_smallest_fit_is(i: int, total_area: int)
    requires
        is_smallest_fit(i, total_area),
    ensures
        smallest_fit(total_area) == Some(i),
{
    let k = choose|k: int| is_smallest_fit(k, total_area);
    assert(k == i);
}

/// The catalogue widens from each conduit to the next, so a bundle that a
/// conduit is wide enough for, every later conduit is wide enough for too.
pub proof fn lemma_catalogue_ascends(narrower: int, wider: int, total_area: int)
    requires
        0 <= narrower <= wider < CONDUIT_COUNT,
    ensures
        CONDUITS[narrower].1 <= CONDUITS[wider].1,
        narrower < wider ==> CONDUITS[narrower].1 < CONDUITS[wider].1,
        fits(narrower, total_area) ==> fits(wider, total_area),
{
}

/// The narrowest fit is wide enough: the permitted share of its
/// cross-section is no less than the bundle's. It is the narrowest such: any
/// conduit of the catalogue that is wide enough is the same or a later one.
/// And where there is none, no conduit of the catalogue is wide enough.
pub proof fn lemma_smallest_fit_is_least(total_area: int)
    ensures
        match smallest_fit(total_area) {
            Some(i) => {
                &&& 0 <= i < CONDUIT_COUNT
                &&& 100 * total_area <= MAX_FILL * conduit_area(i)
                &&& forall|j: int| 0 <= j < CONDUIT_COUNT && fits(j, total_area) ==> i <= j
            },
            None => forall|j: int| 0 <= j < CONDUIT_COUNT ==> !fits(j, total_area),
        },
{
    if smallest_fit(total_area) is None {
        assert forall|j: int| 0 <= j < CONDUIT_COUNT implies !fits(j, total_area) by {
            if fits(j, total_area) {
                lemma_some_fit_has_smallest(j, total_area);
            }
        }
    }
}

/// Where some conduit is wide enough, one of them is the narrowest.
proof fn lemma_some_fit_has_smallest(j: int, total_area: int)
    requires
        0 <= j < CONDUIT_COUNT,
        fits(j, total_area),
    ensures
        exists|i: int| is_smallest_fit(i, total_area),
    decreases j,
{
    if exists|k: int| 0 <= k < j && fits(k, total_area) {
        let k = choose|k: int| 0 <= k < j && fits(k, total_area);
        lemma_some_fit_has_smallest(k, total_area);
    } else {
        assert(is_smallest_fit(j, total_area));
    }
}

/// What is recommended for a total cross-section: the name of the narrowest
/// conduit that is wide enough, with the share of that conduit's own
/// cross-section that the cables take up; where none is wide enough, the
/// label that says so, with one hundred percent.
pub open spec fn recommendation(total_area: int) -> (Seq<char>, Percent) {
    match smallest_fit(total_area) {
        Some(i) => (
            CONDUITS[i].0@,
            Percent { numerator: (100 * total_area) as u64, denominator: conduit_area(i) as u64 },
        ),
        None => (NEEDS_LARGER@, Percent { numerator: 100, denominator: 1 }),
    }
}

/// The fill that goes with a recommended conduit is the bundle's share of
/// that conduit's own cross-section, held without loss, and rounds to no
/// more than the permitted share; where no conduit is wide enough, the fill
/// is one hundred percent.
pub proof fn lemma_fill_within_share(total_area: int)
    requires
        0 <= total_area,
    ensures
        recommendation(total_area).1.is_valid(),
        match smallest_fit(total_area) {
            Some(i) => {
                let fill = recommendation(total_area).1;
                &&& fill.numerator == 100 * total_area
                &&& fill.denominator == conduit_area(i)
                &&& fill.tenths() <= 10 * MAX_FILL
            },
            None => recommendation(total_area).1.tenths() == 1000,
        },
{
    if let Some(i) = smallest_fit(total_area) {
        let area = conduit_area(i);
        let share = 100 * total_area;
        assert(0 < area <= 101000 * 101000) by (nonlinear_arith)
            requires
                area == CONDUITS[i].1 * CONDUITS[i].1,
                15800 <= CONDUITS[i].1 <= 101000,
        ;
        assert(round_half_up(10 * share, area) <= 330) by (nonlinear_arith)
            requires
                round_half_up(10 * share, area) == (2 * (10 * share) + area) / (2 * area),
                0 <= share <= 33 * area,
                area > 0,
        ;
    } else {
        assert(round_half_up(1000, 1) == 1000) by (nonlinear_arith)
            requires
                round_half_up(1000, 1) == (2 * 1000int + 1int) / (2 * 1int),
        ;
    }
}

/// The catalogue as a list: each conduit's name and inner diameter in
/// micrometres, ascending.
pub fn get_conduit_data() -> (r: Vec<(&'static str, u32)>)
    ensures
        r@ == CONDUITS@,
{
    let mut v: Vec<(&'static str, u32)> = Vec::new();
    let mut i: usize = 0;
    while i < CONDUIT_COUNT
        invariant
            i <= CONDUIT_COUNT,
            v@ == CONDUITS@.subrange(0, i as int),
        decreases CONDUIT_COUNT - i,
    {
        v.push(CONDUITS[i]);
        i = i + 1;
    }
    v
}

/// Recommends a conduit for cables of the given total cross-section in
/// circular units.
pub fn recommend_conduit(total_area: u128) -> (r: (String, Percent))
    ensures
        r.0@ == recommendation(total_area as int).0,
        r.1 == recommendation(total_area as int).1,
        r.1.is_valid(),
        r.1.tenths() <= 1000,
{
    let mut i: usize = 0;
    while i < CONDUIT_COUNT
        invariant
            i <= CONDUIT_COUNT,
            forall|j: int| 0 <= j < i ==> !fits(j, total_area as int),
        decreases CONDUIT_COUNT - i,
    {
        let (name, inner_diameter) = CONDUITS[i];
        let area: u64 = calculate_cable_area(inner_diameter);
        assert(0 < area <= 101000 * 101000) by (nonlinear_arith)
            requires
                area == inner_diameter * inner_diameter,
                15800 <= inner_diameter <= 101000,
        ;
        let available: u64 = MAX_FILL * area;
        if total_area <= (available / 100) as u128 {
            proof {
                lemma_smallest_fit_is(i as int, total_area as int);
            }
            proof {
                lemma_fill_within_share(total_area as int);
            }
            let share: u64 = (100 * total_area) as u64;
            return (String::from_str(name), Percent { numerator: share, denominator: area });
        }
        i = i + 1;
    }
    proof {
        lemma_fill_within_share(total_area as int);
    }
    (String::from_str(NEEDS_LARGER), Percent { numerator: 100, denominator: 1 })
}

} // verus!
