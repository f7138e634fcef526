//! Allowable currents by conductor size, insulation class and installation
//! method, after IEC 60364-5-52 (tables B.52.4, B.52.5 and B.52.10 to B.52.13),
//! at 30 °C ambient air or 20 °C ground.
use vstd::prelude::*;
use crate::methods::{
    find_method, lemma_method_code_place, method_index, METHOD_CODES, METHOD_COUNT,
};
use crate::sizes::{find_size, lemma_size_code_place, size_index, SIZE_CODES, SIZE_COUNT};
use crate::text::{lemma_position_found, same_text};

verus! {

/// The thermal class of a cable's insulation.
#[derive(Clone, Copy, Debug, PartialEq, Eq, Structural)]
pub enum Insulation {
    /// Polyvinyl chloride, rated 70 °C.
    Pvc,
    /// Cross-linked polyethylene or polyolefin, rated 90 °C.
    Xlpe,
}

/// Whether a cable type code names a cable with 90 °C insulation.
pub open spec fn is_xlpe_type(cable_type: Seq<char>) -> bool {
    ||| cable_type == "HFIX"@
    ||| cable_type == "CV"@
    ||| cable_type == "TFR-CV"@
    ||| cable_type == "FR-CV"@
    ||| cable_type == "TFR-8"@
}

/// The insulation class of a cable type; a type that is not known counts as
/// PVC, the class with the lower currents.
pub open spec fn insulation_of(cable_type: Seq<char>) -> Insulation {
    if is_xlpe_type(cable_type) {
        Insulation::Xlpe
    } else {
        Insulation::Pvc
    }
}

/// The name of an insulation class.
pub open spec fn insulation_name(insulation: Insulation) -> Seq<char> {
    match insulation {
        Insulation::Pvc => "PVC"@,
        Insulation::Xlpe => "XLPE"@,
    }
}

/// The highest conductor temperature, in degrees Celsius, that an
/// insulation class is rated for.
pub open spec fn max_temperature_of(insulation: Insulation) -> int {
    match insulation {
        Insulation::Pvc => 70,
        Insulation::Xlpe => 90,
    }
}

/// The highest conductor temperature that an insulation class is rated for.
pub fn max_temperature(insulation: Insulation) -> (r: u32)
    ensures
        r == max_temperature_of(insulation),
{
    match insulation {
        Insulation::Pvc => 70,
        Insulation::Xlpe => 90,
    }
}

/// The insulation class of a cable type.
pub fn insulation_class(cable_type: &str) -> (r: Insulation)
    ensures
        r == insulation_of(cable_type@),
{
    if same_text(cable_type, "HFIX") || same_text(cable_type, "CV") || same_text(
        cable_type,
        "TFR-CV",
    ) || same_text(cable_type, "FR-CV") || same_text(cable_type, "TFR-8") {
        Insulation::Xlpe
    } else {
        Insulation::Pvc
    }
}

/// The name of the insulation class of a cable type: "XLPE" or "PVC".
pub fn get_insulation_type(cable_type: &str) -> (r: &'static str)
    ensures
        r@ == insulation_name(insulation_of(cable_type@)),
{
    match insulation_class(cable_type) {
        Insulation::Xlpe => "XLPE",
        Insulation::Pvc => "PVC",
    }
}

/// Allowable currents with PVC insulation, in tenths of an ampere: one row
/// for each installation method, one entry for each nominal size, each entry
/// the current with two loaded conductors and with three.
pub const AMPACITY_PVC: [[(u32, u32); 18]; 9] = [
    // A1
    [
        (145, 135), (195, 180), (260, 240), (340, 310), (460, 420), (610, 560),
        (800, 730), (990, 890), (1190, 1080), (1510, 1360), (1820, 1640), (2100, 1880),
        (2400, 2160), (2730, 2450), (3210, 2860), (3670, 3280), (4240, 3790), (4880, 4360),
    ],
    // A2
    [
        (140, 130), (185, 175), (250, 230), (320, 290), (430, 390), (570, 520),
        (750, 680), (920, 830), (1100, 990), (1390, 1250), (1670, 1500), (1920, 1720),
        (2190, 1960), (2480, 2230), (2910, 2610), (3340, 2980), (3860, 3450), (4440, 3970),
    ],
    // B1
    [
        (175, 155), (240, 210), (320, 280), (410, 360), (570, 500), (760, 680),
        (1010, 890), (1250, 1100), (1510, 1340), (1920, 1710), (2320, 2070), (2690, 2390),
        (3090, 2750), (3530, 3140), (4150, 3690), (4770, 4230), (5550, 4900), (6420, 5650),
    ],
    // B2
    [
        (165, 150), (230, 200), (300, 270), (380, 340), (520, 460), (690, 620),
        (900, 800), (1110, 990), (1330, 1180), (1680, 1490), (2010, 1790), (2320, 2060),
        (2650, 2360), (3000, 2680), (3510, 3130), (4010, 3580), (4640, 4140), (5330, 4760),
    ],
    // C
    [
        (195, 175), (270, 240), (360, 320), (460, 410), (630, 570), (850, 760),
        (1120, 960), (1380, 1190), (1680, 1440), (2130, 1840), (2580, 2230), (2990, 2590),
        (3440, 2990), (3920, 3410), (4610, 4030), (5300, 4640), (6140, 5450), (7070, 6380),
    ],
    // D1
    [
        (220, 180), (290, 240), (370, 300), (460, 380), (610, 500), (790, 640),
        (1010, 820), (1220, 980), (1440, 1160), (1780, 1430), (2110, 1690), (2400, 1920),
        (2710, 2170), (3040, 2430), (3510, 2800), (3960, 3160), (4540, 3630), (5130, 4100),
    ],
    // D2
    [
        (240, 190), (320, 240), (410, 330), (510, 410), (670, 540), (870, 700),
        (1120, 920), (1360, 1100), (1610, 1300), (2000, 1620), (2390, 1930), (2730, 2200),
        (3100, 2460), (3490, 2780), (4040, 3200), (4580, 3590), (5240, 4140), (5900, 4670),
    ],
    // E
    [
        (220, 185), (300, 250), (400, 340), (510, 430), (700, 600), (940, 800),
        (1190, 1010), (1480, 1260), (1800, 1530), (2320, 1960), (2820, 2380), (3280, 2760),
        (3790, 3190), (4340, 3640), (5140, 4300), (5930, 4970), (6940, 5920), (8060, 7060),
    ],
    // F
    [
        (250, 210), (340, 280), (450, 380), (580, 480), (790, 670), (1050, 890),
        (1330, 1130), (1660, 1410), (2010, 1710), (2590, 2190), (3150, 2660), (3670, 3090),
        (4240, 3570), (4860, 4080), (5750, 4820), (6640, 5570), (7770, 6640), (9030, 7910),
    ],
];

/// Allowable currents with XLPE insulation, laid out as `AMPACITY_PVC`.
pub const AMPACITY_XLPE: [[(u32, u32); 18]; 9] = [
    // A1
    [
        (195, 170), (260, 230), (350, 310), (450, 400), (610, 540), (810, 730),
        (1060, 950), (1310, 1170), (1580, 1410), (2000, 1790), (2410, 2160), (2780, 2490),
        (3180, 2850), (3620, 3240), (4240, 3800), (4860, 4350), (5610, 5030), (6450, 5780),
    ],
    // A2
    [
        (185, 165), (250, 220), (330, 300), (420, 380), (570, 510), (760, 680),
        (990, 890), (1210, 1090), (1450, 1300), (1830, 1640), (2200, 1970), (2530, 2270),
        (2900, 2590), (3290, 2950), (3860, 3460), (4420, 3960), (5110, 4580), (5870, 5260),
    ],
    // B1
    [
        (230, 200), (310, 280), (420, 370), (540, 480), (750, 660), (1000, 880),
        (1330, 1170), (1640, 1440), (1980, 1750), (2530, 2220), (3060, 2690), (3540, 3120),
        (4070, 3580), (4640, 4080), (5460, 4810), (6280, 5530), (7320, 6440), (8460, 7450),
    ],
    // B2
    [
        (220, 195), (300, 270), (400, 350), (510, 450), (690, 620), (910, 820),
        (1190, 1070), (1460, 1310), (1750, 1580), (2210, 2000), (2650, 2400), (3050, 2760),
        (3490, 3160), (3950, 3580), (4620, 4190), (5280, 4790), (6090, 5530), (6980, 6350),
    ],
    // C
    [
        (240, 220), (330, 300), (450, 400), (580, 520), (800, 710), (1070, 960),
        (1380, 1190), (1710, 1470), (2090, 1790), (2690, 2290), (3280, 2780), (3820, 3220),
        (4410, 3710), (5060, 4240), (5990, 5000), (6930, 5760), (8120, 6730), (9420, 7780),
    ],
    // D1
    [
        (280, 220), (360, 290), (460, 370), (570, 460), (750, 600), (970, 770),
        (1230, 990), (1490, 1190), (1760, 1400), (2180, 1730), (2590, 2040), (2950, 2330),
        (3340, 2630), (3760, 2950), (4340, 3400), (4920, 3840), (5650, 4410), (6410, 4990),
    ],
    // D2
    [
        (310, 240), (410, 310), (520, 400), (650, 500), (850, 660), (1100, 850),
        (1410, 1090), (1700, 1320), (2020, 1560), (2510, 1930), (3000, 2290), (3430, 2610),
        (3900, 2960), (4400, 3330), (5100, 3850), (5780, 4360), (6640, 5000), (7530, 5660),
    ],
    // E
    [
        (260, 230), (360, 320), (490, 420), (630, 540), (860, 750), (1150, 1000),
        (1490, 1270), (1850, 1580), (2250, 1920), (2890, 2460), (3520, 2980), (4100, 3460),
        (4730, 3990), (5420, 4560), (6410, 5380), (7410, 6210), (8680, 7420), (10080, 8870),
    ],
    // F
    [
        (290, 250), (400, 350), (550, 470), (710, 600), (960, 830), (1280, 1110),
        (1660, 1410), (2060, 1760), (2510, 2140), (3230, 2740), (3930, 3320), (4580, 3860),
        (5290, 4450), (6060, 5090), (7170, 6010), (8290, 6940), (9710, 8280), (11270, 9900),
    ],
];

/// No table entry exceeds this many tenths of an ampere.
pub const MAX_TABULATED: u32 = 11270;

/// The table of an insulation class.
pub open spec fn current_table(insulation: Insulation) -> [[(u32, u32); 18]; 9] {
    match insulation {
        Insulation::Pvc => AMPACITY_PVC,
        Insulation::Xlpe => AMPACITY_XLPE,
    }
}

/// The table entry for an insulation class, a method row and a size.
pub open spec fn table_entry(insulation: Insulation, method: int, size: int) -> (u32, u32) {
    current_table(insulation)[method][size]
}

/// The table of allowable currents of an insulation class: one row for each
/// installation method, one entry for each nominal size.
pub fn get_allowable_current_table(insulation: Insulation) -> (r: [[(u32, u32); 18]; 9])
    ensures
        r == current_table(insulation),
{
    match insulation {
        Insulation::Pvc => AMPACITY_PVC,
        Insulation::Xlpe => AMPACITY_XLPE,
    }
}

/// The allowable currents for a size, an insulation class and an installation
/// method, in tenths of an ampere: with two loaded conductors and with three.
/// There is none where the size or the method is not in the tables.
pub open spec fn ampacity_of(size: Seq<char>, insulation: Insulation, method: Seq<char>) -> Option<
    (u32, u32),
> {
    match (size_index(size), method_index(method)) {
        (Some(s), Some(m)) => Some(table_entry(insulation, m, s)),
        _ => None,
    }
}

/// Every table entry is positive and within the tables' bound, and three
/// loaded conductors never carry more than two.
pub proof fn lemma_table_entry_bounds(insulation: Insulation, method: int, size: int)
    requires
        0 <= method < METHOD_COUNT,
        0 <= size < SIZE_COUNT,
    ensures
        0 < table_entry(insulation, method, size).1,
        table_entry(insulation, method, size).1 <= table_entry(insulation, method, size).0,
        table_entry(insulation, method, size).0 <= MAX_TABULATED,
{
}

/// A larger conductor carries more current, whatever the insulation class
/// and the installation method.
pub proof fn lemma_table_grows_with_size(
    insulation: Insulation,
    method: int,
    smaller: int,
    larger: int,
)
    requires
        0 <= method < METHOD_COUNT,
        0 <= smaller < larger < SIZE_COUNT,
    ensures
        table_entry(insulation, method, smaller).0 < table_entry(insulation, method, larger).0,
        table_entry(insulation, method, smaller).1 < table_entry(insulation, method, larger).1,
{
}

/// What a lookup finds is positive and within the tables' bound, and its
/// current for three loaded conductors is no more than that for two.
pub proof fn lemma_ampacity_bounds(size: Seq<char>, insulation: Insulation, method: Seq<char>)
    ensures
        ampacity_of(size, insulation, method) matches Some(pair) ==> 0 < pair.1 <= pair.0
            <= MAX_TABULATED,
{
    if let (Some(s), Some(m)) = (size_index(size), method_index(method)) {
        lemma_position_found(SIZE_CODES@, size);
        lemma_position_found(METHOD_CODES@, method);
        lemma_table_entry_bounds(insulation, m, s);
    }
}

/// The tables are exhaustive: every nominal size has an entry under every
/// installation method in both insulation classes, and a lookup by the codes
/// finds that entry.
pub proof fn lemma_tables_are_exhaustive(size: int, insulation: Insulation, method: int)
    requires
        0 <= size < SIZE_COUNT,
        0 <= method < METHOD_COUNT,
    ensures
        ampacity_of(SIZE_CODES[size]@, insulation, METHOD_CODES[method]@) == Some(
            table_entry(insulation, method, size),
        ),
{
    lemma_size_code_place(size);
    lemma_method_code_place(method);
}

/// Looks up the allowable currents for a size, an insulation class and an
/// installation method.
pub fn ampacity_pair(size: &str, insulation: Insulation, method: &str) -> (r: Option<(u32, u32)>)
    ensures
        r == ampacity_of(size@, insulation, method@),
{
    let s = match find_size(size) {
        Some(s) => s,
        None => {
            return None;
        },
    };
    let m = match find_method(method) {
        Some(m) => m,
        None => {
            return None;
        },
    };
    let table = get_allowable_current_table(insulation);
    Some(table[m][s])
}

} // verus!
