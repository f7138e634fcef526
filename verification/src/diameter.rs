//! Outer diameters of the catalogue's cables, in whole micrometres.
use vstd::prelude::*;
use crate::sizes::{find_size, size_index};
use crate::text::same_text;

verus! {

/// The cable families of the catalogue.
#[derive(Clone, Copy, Debug, PartialEq, Eq, Structural)]
pub enum CableFamily {
    /// HFIX, a single-core insulated wire.
    Hfix,
    /// TFR-CV, flame-retardant tray cable.
    TfrCv,
    /// CV, general power cable.
    Cv,
    /// FR-CV, fire-resistant cable.
    FrCv,
    /// TFR-8, heat-resistant cable.
    Tfr8,
}

/// The number of cores of a cable.
#[derive(Clone, Copy, Debug, PartialEq, Eq, Structural)]
pub enum Cores {
    One,
    Two,
    Three,
    Four,
}

/// The family that a cable type code names.
pub open spec fn family_of(cable_type: Seq<char>) -> Option<CableFamily> {
    if cable_type == "HFIX"@ {
        Some(CableFamily::Hfix)
    } else if cable_type == "TFR-CV"@ {
        Some(CableFamily::TfrCv)
    } else if cable_type == "CV"@ {
        Some(CableFamily::Cv)
    } else if cable_type == "FR-CV"@ {
        Some(CableFamily::FrCv)
    } else if cable_type == "TFR-8"@ {
        Some(CableFamily::Tfr8)
    } else {
        None
    }
}

/// The number of cores that a core code names.
pub open spec fn cores_of(cores: Seq<char>) -> Option<Cores> {
    if cores == "1C"@ {
        Some(Cores::One)
    } else if cores == "2C"@ {
        Some(Cores::Two)
    } else if cores == "3C"@ {
        Some(Cores::Three)
    } else if cores == "4C"@ {
        Some(Cores::Four)
    } else {
        None
    }
}

/// Reads a cable type code.
pub fn parse_family(cable_type: &str) -> (r: Option<CableFamily>)
    ensures
        r == family_of(cable_type@),
{
    if same_text(cable_type, "HFIX") {
        Some(CableFamily::Hfix)
    } else if same_text(cable_type, "TFR-CV") {
        Some(CableFamily::TfrCv)
    } else if same_text(cable_type, "CV") {
        Some(CableFamily::Cv)
    } else if same_text(cable_type, "FR-CV") {
        Some(CableFamily::FrCv)
    } else if same_text(cable_type, "TFR-8") {
        Some(CableFamily::Tfr8)
    } else {
        None
    }
}

/// Reads a core code.
pub fn parse_cores(cores: &str) -> (r: Option<Cores>)
    ensures
        r == cores_of(cores@),
{
    if same_text(cores, "1C") {
        Some(Cores::One)
    } else if same_text(cores, "2C") {
        Some(Cores::Two)
    } else if same_text(cores, "3C") {
        Some(Cores::Three)
    } else if same_text(cores, "4C") {
        Some(Cores::Four)
    } else {
        None
    }
}

// Measured outer diameters, in tenths of a millimetre, one entry for each
// nominal size from the smallest on. A table ends where the maker's list ends.

/// TFR-CV, one core.
pub const TFR_CV_1C: [u32; 18] = [
    63, 67, 72, 78, 94, 100, 120, 130, 145,
    160, 185, 200, 220, 240, 270, 300, 340, 370,
];

/// TFR-CV, two cores.
pub const TFR_CV_2C: [u32; 16] = [
    110, 120, 130, 140, 180, 210, 250, 290, 340,
    390, 440, 500, 550, 610, 670, 750,
];

/// HFIX, one core.
pub const HFIX_1C: [u32; 16] = [
    33, 40, 46, 52, 65, 80, 101, 113, 132,
    155, 180, 200, 225, 250, 285, 320,
];

/// CV, one core.
pub const CV_1C: [u32; 18] = [
    60, 64, 69, 75, 90, 96, 115, 125, 140,
    155, 180, 195, 215, 235, 265, 295, 330, 360,
];

/// CV, two cores.
pub const CV_2C: [u32; 16] = [
    105, 115, 125, 135, 170, 200, 240, 280, 330,
    380, 430, 490, 540, 600, 660, 740,
];

/// FR-CV, one core.
pub const FR_CV_1C: [u32; 18] = [
    68, 72, 77, 83, 100, 106, 126, 136, 151,
    166, 191, 206, 226, 246, 276, 306, 346, 376,
];

/// TFR-8, one core.
pub const TFR_8_1C: [u32; 16] = [
    65, 69, 74, 80, 96, 102, 122, 132, 147,
    162, 187, 202, 222, 242, 272, 302,
];

/// No measured diameter exceeds this many tenths of a millimetre.
pub const MAX_MEASURED: u32 = 750;

/// No cable of the catalogue is thicker than this many micrometres.
pub const MAX_DIAMETER: u32 = 93750;

/// How a family's diameters come about for a number of cores: the measured
/// table to read, and the factor, in hundredths, by which its entry is
/// scaled. Cables with three and four cores have no measured table; theirs
/// are scaled from the two-core table where the family has one, and from the
/// one-core table where it has not. There is no rule where the family is not
/// made with that many cores.
pub open spec fn diameter_rule(family: CableFamily, cores: Cores) -> Option<(Seq<u32>, u32)> {
    match family {
        CableFamily::Hfix => match cores {
            Cores::One => Some((HFIX_1C@, 100u32)),
            _ => None,
        },
        CableFamily::TfrCv => match cores {
            Cores::One => Some((TFR_CV_1C@, 100u32)),
            Cores::Two => Some((TFR_CV_2C@, 100u32)),
            Cores::Three => Some((TFR_CV_2C@, 115u32)),
            Cores::Four => Some((TFR_CV_2C@, 125u32)),
        },
        CableFamily::Cv => match cores {
            Cores::One => Some((CV_1C@, 100u32)),
            Cores::Two => Some((CV_2C@, 100u32)),
            Cores::Three => Some((CV_2C@, 115u32)),
            Cores::Four => Some((CV_2C@, 125u32)),
        },
        CableFamily::FrCv => match cores {
            Cores::One => Some((FR_CV_1C@, 100u32)),
            Cores::Two => Some((FR_CV_1C@, 165u32)),
            Cores::Three => Some((FR_CV_1C@, 190u32)),
            Cores::Four => Some((FR_CV_1C@, 210u32)),
        },
        CableFamily::Tfr8 => match cores {
            Cores::One => Some((TFR_8_1C@, 100u32)),
            Cores::Two => Some((TFR_8_1C@, 165u32)),
            Cores::Three => Some((TFR_8_1C@, 190u32)),
            Cores::Four => Some((TFR_8_1C@, 210u32)),
        },
    }
}

/// The outer diameter, in micrometres, of a cable of a family with a number
/// of cores at the `size`-th nominal size, if such a cable is made.
pub open spec fn family_diameter(family: CableFamily, cores: Cores, size: int) -> Option<int> {
    match diameter_rule(family, cores) {
        Some((table, factor)) => if 0 <= size < table.len() {
            Some(table[size] * factor)
        } else {
            None
        },
        None => None,
    }
}

/// The outer diameter, in micrometres, of the cable that the three codes
/// name, if such a cable is made.
pub open spec fn outer_diameter_of(cable_type: Seq<char>, size: Seq<char>, cores: Seq<char>) -> Option<
    int,
> {
    match (family_of(cable_type), cores_of(cores), size_index(size)) {
        (Some(f), Some(c), Some(s)) => family_diameter(f, c, s),
        _ => None,
    }
}

/// Within a family and a number of cores, a larger size is a thicker cable;
/// and no cable of the catalogue is thinner than 3.3 mm or thicker than
/// 93.75 mm.
pub proof fn lemma_diameter_grows_with_size(
    family: CableFamily,
    cores: Cores,
    smaller: int,
    larger: int,
)
    requires
        0 <= smaller < larger,
        family_diameter(family, cores, larger) is Some,
    ensures
        family_diameter(family, cores, smaller) is Some,
        family_diameter(family, cores, smaller).unwrap() < family_diameter(
            family,
            cores,
            larger,
        ).unwrap(),
        3300 <= family_diameter(family, cores, smaller).unwrap(),
        family_diameter(family, cores, larger).unwrap() <= MAX_DIAMETER,
{
}

/// The `size`-th entry of a measured table scaled by a factor in hundredths.
fn scaled_entry(table: &[u32], size: usize, factor: u32) -> (r: Option<u32>)
    requires
        forall|i: int| 0 <= i < table@.len() ==> table@[i] <= MAX_MEASURED,
        factor <= 210,
    ensures
        r matches Some(d) ==> size < table@.len() && d == table@[size as int] * factor,
        r is None ==> size >= table@.len(),
{
    if size < table.len() {
        let base: u32 = table[size];
        assert(base * factor <= 750 * 210) by (nonlinear_arith)
            requires
                base <= 750,
                factor <= 210,
        ;
        Some(base * factor)
    } else {
        None
    }
}

/// The outer diameter, in micrometres, of a cable of a family with a number
/// of cores at the `size`-th nominal size.
pub fn diameter_for(family: CableFamily, cores: Cores, size: usize) -> (r: Option<u32>)
    ensures
        r matches Some(d) ==> family_diameter(family, cores, size as int) == Some(d as int) && d
            <= MAX_DIAMETER,
        r is None ==> family_diameter(family, cores, size as int) is None,
{
    match family {
        CableFamily::Hfix => match cores {
            Cores::One => scaled_entry(&HFIX_1C, size, 100),
            _ => None,
        },
        CableFamily::TfrCv => match cores {
            Cores::One => scaled_entry(&TFR_CV_1C, size, 100),
            Cores::Two => scaled_entry(&TFR_CV_2C, size, 100),
            Cores::Three => scaled_entry(&TFR_CV_2C, size, 115),
            Cores::Four => scaled_entry(&TFR_CV_2C, size, 125),
        },
        CableFamily::Cv => match cores {
            Cores::One => scaled_entry(&CV_1C, size, 100),
            Cores::Two => scaled_entry(&CV_2C, size, 100),
            Cores::Three => scaled_entry(&CV_2C, size, 115),
            Cores::Four => scaled_entry(&CV_2C, size, 125),
        },
        CableFamily::FrCv => match cores {
            Cores::One => scaled_entry(&FR_CV_1C, size, 100),
            Cores::Two => scaled_entry(&FR_CV_1C, size, 165),
            Cores::Three => scaled_entry(&FR_CV_1C, size, 190),
            Cores::Four => scaled_entry(&FR_CV_1C, size, 210),
        },
        CableFamily::Tfr8 => match cores {
            Cores::One => scaled_entry(&TFR_8_1C, size, 100),
            Cores::Two => scaled_entry(&TFR_8_1C, size, 165),
            Cores::Three => scaled_entry(&TFR_8_1C, size, 190),
            Cores::Four => scaled_entry(&TFR_8_1C, size, 210),
        },
    }
}

/// The outer diameter, in micrometres, of the cable that the three codes
/// name. There is none where a code is not known, where the family is not
/// made with that many cores, or where the size is beyond the family's table.
pub fn get_cable_outer_diameter(cable_type: &str, size: &str, cores: &str) -> (r: Option<u32>)
    ensures
        r matches Some(d) ==> outer_diameter_of(cable_type@, size@, cores@) == Some(d as int) && d
            <= MAX_DIAMETER,
        r is None ==> outer_diameter_of(cable_type@, size@, cores@) is None,
{
    let family = match parse_family(cable_type) {
        Some(f) => f,
        None => {
            return None;
        },
    };
    let count = match parse_cores(cores) {
        Some(c) => c,
        None => {
            return None;
        },
    };
    match find_size(size) {
        Some(s) => diameter_for(family, count, s),
        None => None,
    }
}

} // verus!
