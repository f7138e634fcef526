//! The calculation itself: from a cable specification to its figures.
use vstd::prelude::*;
use vstd::string::StringExecFns;
use crate::ampacity::{ampacity_of, insulation_of, lemma_ampacity_bounds};
use crate::conduit::{recommend_conduit, recommendation};
use crate::derating::{
    allowable_current, allowable_current_of, base_current, circuit_count, count_circuits,
    get_grouping_factor, grouping_factor, parse_system, resolve_install_method, resolved_method,
    system_of, System,
};
use crate::diameter::{get_cable_outer_diameter, outer_diameter_of, MAX_DIAMETER};
use crate::geometry::{
    calculate_cable_area, circular_area, lemma_square_millimetres_grow, square_millimetres,
    square_millimetres_of,
};
use crate::methods::{get_install_method_description, method_description};
use crate::model::{CableData, CableSpec, CalcError, CalculationResult, ResultFigures};
use crate::rounding::round_half_up;
use crate::sizes::{
    find_size, lemma_size_code_writes_nominal, size_index, tenths_written, NOMINAL_TENTHS,
    SIZE_CODES, SIZE_COUNT,
};
use crate::text::{
    decimal, decimal_text, lemma_position_found, same_text, two_decimals, two_decimals_text,
};

verus! {

/// The size of the ground wire that goes with a main conductor size: a
/// fixed step down, and "95" for whatever lies beyond the steps.
pub open spec fn ground_size_of(size: Seq<char>) -> Seq<char> {
    if size == "1.5"@ || size == "2.5"@ {
        "1.5"@
    } else if size == "4"@ || size == "6"@ {
        "2.5"@
    } else if size == "10"@ || size == "16"@ {
        "6"@
    } else if size == "25"@ || size == "35"@ {
        "16"@
    } else if size == "50"@ || size == "70"@ {
        "25"@
    } else if size == "95"@ || size == "120"@ {
        "35"@
    } else if size == "150"@ || size == "185"@ {
        "70"@
    } else {
        "95"@
    }
}

/// The size of the ground wire that goes with a main conductor size.
pub fn ground_wire_size(size: &str) -> (r: &'static str)
    ensures
        r@ == ground_size_of(size@),
{
    if same_text(size, "1.5") || same_text(size, "2.5") {
        "1.5"
    } else if same_text(size, "4") || same_text(size, "6") {
        "2.5"
    } else if same_text(size, "10") || same_text(size, "16") {
        "6"
    } else if same_text(size, "25") || same_text(size, "35") {
        "16"
    } else if same_text(size, "50") || same_text(size, "70") {
        "25"
    } else if same_text(size, "95") || same_text(size, "120") {
        "35"
    } else if same_text(size, "150") || same_text(size, "185") {
        "70"
    } else {
        "95"
    }
}

/// The cross-section, in circular units, that the ground wire adds: that of
/// one single-core HFIX wire of the stepped-down size where a ground wire is
/// asked for and that wire's diameter is known, and nothing otherwise.
pub open spec fn ground_area_of(spec: CableSpec) -> int {
    if spec.ground_wire == "HFIX"@ {
        match outer_diameter_of("HFIX"@, ground_size_of(spec.size), "1C"@) {
            Some(d) => circular_area(d),
            None => 0,
        }
    } else {
        0
    }
}

/// The cross-section that the ground wire of a cable specification adds.
pub fn ground_wire_area(data: &CableData) -> (r: u64)
    ensures
        r == ground_area_of(data@),
        r <= MAX_DIAMETER * MAX_DIAMETER,
{
    if same_text(data.ground_wire.as_str(), "HFIX") {
        match get_cable_outer_diameter("HFIX", ground_wire_size(data.size.as_str()), "1C") {
            Some(d) => {
                assert(d * d <= MAX_DIAMETER * MAX_DIAMETER) by (nonlinear_arith)
                    requires
                        d <= MAX_DIAMETER,
                ;
                calculate_cable_area(d)
            },
            None => 0,
        }
    } else {
        0
    }
}

/// The installed cross-section of a cable specification, in circular units:
/// that of one cable times the number of runs, and the ground wire's on top.
/// There is none where the cable's outer diameter is not known.
pub open spec fn total_area_of(spec: CableSpec) -> Option<int> {
    match outer_diameter_of(spec.cable_type, spec.size, spec.cores) {
        Some(d) => Some(circular_area(d) * spec.quantity + ground_area_of(spec)),
        None => None,
    }
}

/// The conductor cross-section of a cable specification, in hundredths of a
/// square millimetre: the nominal size times the number of runs.
pub open spec fn conductor_area_of(spec: CableSpec) -> int {
    match size_index(spec.size) {
        Some(i) => NOMINAL_TENTHS[i] * 10 * spec.quantity,
        None => 0,
    }
}

/// The conductor cross-section of a cable specification.
pub fn conductor_area(data: &CableData) -> (r: u64)
    ensures
        r == conductor_area_of(data@),
{
    match find_size(data.size.as_str()) {
        Some(i) => {
            let nominal: u64 = NOMINAL_TENTHS[i] as u64;
            let runs: u64 = data.quantity as u64;
            assert(nominal * 10 * runs <= 50000 * 0xffff_ffff) by (nonlinear_arith)
                requires
                    nominal <= 5000,
                    runs <= 0xffff_ffff,
            ;
            nominal * 10 * runs
        },
        None => 0,
    }
}

/// The words for the loaded conductors of a voltage system.
pub open spec fn loaded_label(system: System) -> Seq<char> {
    match system {
        System::SinglePhase => "2부하(단상)"@,
        System::ThreePhase => "3부하(3상)"@,
        System::Other => "2부하(기본)"@,
    }
}

/// The summary line of a cable specification: the installation method in
/// force in words, the loaded conductors, the grouping factor with two
/// decimals and the number of circuits.
pub open spec fn summary_of(spec: CableSpec) -> Seq<char> {
    let circuits = circuit_count(spec.cores, spec.system, spec.quantity);
    method_description(resolved_method(spec.cores, spec.install_method)) + " / "@ + loaded_label(
        system_of(spec.system),
    ) + " / 집합계수: "@ + two_decimals(grouping_factor(circuits) as nat) + " ("@ + decimal(
        circuits as nat,
    ) + "회로)"@
}

/// Writes the summary line of a cable specification.
pub fn summary(data: &CableData) -> (r: String)
    ensures
        r@ == summary_of(data@),
{
    let circuits: u32 = count_circuits(data);
    let factor: u32 = get_grouping_factor(circuits);
    let label: &'static str = match parse_system(data.system.as_str()) {
        System::SinglePhase => "2부하(단상)",
        System::ThreePhase => "3부하(3상)",
        System::Other => "2부하(기본)",
    };
    let mut s = get_install_method_description(resolve_install_method(data));
    s.append(" / ");
    s.append(label);
    s.append(" / 집합계수: ");
    s.append(two_decimals_text(factor as u64).as_str());
    s.append(" (");
    s.append(decimal_text(circuits as u64).as_str());
    s.append("회로)");
    s
}

/// The figures that a cable specification yields, or why it yields none.
/// The outer diameter is looked up first and the allowable current second,
/// and the first that is missing decides the error. The installed
/// cross-section is given out in square millimetres and rounded to the
/// nearest hundredth, current and fill to the nearest tenth, each once, from
/// its exact value; the conduit is chosen by the exact cross-section.
pub open spec fn figures_of(spec: CableSpec) -> Result<ResultFigures, CalcError> {
    match total_area_of(spec) {
        None => Err(CalcError::UnsupportedCableSpec),
        Some(total) => match allowable_current_of(spec) {
            None => Err(CalcError::UnsupportedAmpacityCombination),
            Some(current) => Ok(
                ResultFigures {
                    total_area: square_millimetres_of(total),
                    conductor_area: conductor_area_of(spec),
                    allowable_current: round_half_up(current, 100),
                    recommended_conduit: recommendation(total).0,
                    fill_rate: recommendation(total).1.tenths(),
                    install_method_desc: summary_of(spec),
                },
            ),
        },
    }
}

/// Where a cable specification yields figures, its size is one of the
/// nominal sizes, and the conductor cross-section is exactly that size's
/// cross-section times the number of runs: in hundredths of a square
/// millimetre, ten times the tenths that the size code reads as.
pub proof fn lemma_conductor_area_exact(spec: CableSpec)
    requires
        figures_of(spec) is Ok,
    ensures
        size_index(spec.size) matches Some(i) && 0 <= i < SIZE_COUNT && spec.size
            == tenths_written(NOMINAL_TENTHS[i] as nat) && figures_of(spec).unwrap().conductor_area
            == 10 * NOMINAL_TENTHS[i] * spec.quantity,
{
    let i = size_index(spec.size).unwrap();
    lemma_position_found(SIZE_CODES@, spec.size);
    lemma_size_code_writes_nominal(i);
}

/// The installed cross-section is no less than that of one cable times the
/// number of runs: a ground wire only adds to it, and without one the two
/// are the same. The same holds of the rounded square millimetres that the
/// figures give.
pub proof fn lemma_total_area_covers_cables(spec: CableSpec)
    requires
        figures_of(spec) is Ok,
    ensures
        outer_diameter_of(spec.cable_type, spec.size, spec.cores) matches Some(d) && ({
            let cables = circular_area(d) * spec.quantity;
            &&& total_area_of(spec).unwrap() >= cables >= 0
            &&& spec.ground_wire != "HFIX"@ ==> total_area_of(spec).unwrap() == cables
            &&& figures_of(spec).unwrap().total_area >= square_millimetres_of(cables)
        }),
{
    let d = outer_diameter_of(spec.cable_type, spec.size, spec.cores).unwrap();
    let cables = circular_area(d) * spec.quantity;
    lemma_square_millimetres_grow(cables, total_area_of(spec).unwrap());
}

/// The derated current never exceeds the tabulated one: grouping only
/// lowers it, and a single circuit keeps it whole.
pub proof fn lemma_derating_only_lowers(spec: CableSpec)
    requires
        allowable_current_of(spec) is Some,
    ensures
        ampacity_of(
            spec.size,
            insulation_of(spec.cable_type),
            resolved_method(spec.cores, spec.install_method),
        ) matches Some(pair) && ({
            let base = base_current(system_of(spec.system), pair);
            let circuits = circuit_count(spec.cores, spec.system, spec.quantity);
            &&& 0 < allowable_current_of(spec).unwrap() <= 100 * base
            &&& circuits <= 1 ==> allowable_current_of(spec).unwrap() == 100 * base
        }),
{
    let method = resolved_method(spec.cores, spec.install_method);
    let insulation = insulation_of(spec.cable_type);
    lemma_ampacity_bounds(spec.size, insulation, method);
}

/// Computes the figures of a cable specification.
pub fn calculate(data: CableData) -> (r: Result<CalculationResult, CalcError>)
    ensures
        match r {
            Ok(figures) => figures_of(data@) == Ok::<ResultFigures, CalcError>(figures@),
            Err(e) => figures_of(data@) == Err::<ResultFigures, CalcError>(e),
        },
{
    let outer_diameter = match get_cable_outer_diameter(
        data.cable_type.as_str(),
        data.size.as_str(),
        data.cores.as_str(),
    ) {
        Some(d) => d,
        None => {
            return Err(CalcError::UnsupportedCableSpec);
        },
    };
    let single: u128 = calculate_cable_area(outer_diameter) as u128;
    let runs: u128 = data.quantity as u128;
    assert(single <= MAX_DIAMETER * MAX_DIAMETER) by (nonlinear_arith)
        requires
            single == outer_diameter * outer_diameter,
            outer_diameter <= MAX_DIAMETER,
    ;
    assert(single * runs <= (MAX_DIAMETER * MAX_DIAMETER) * 0xffff_ffff) by (nonlinear_arith)
        requires
            single <= MAX_DIAMETER * MAX_DIAMETER,
            runs <= 0xffff_ffff,
    ;
    let total: u128 = single * runs + ground_wire_area(&data) as u128;
    let conductor: u64 = conductor_area(&data);
    let current: u32 = match allowable_current(&data) {
        Ok(current) => current,
        Err(e) => {
            return Err(e);
        },
    };
    let (recommended_conduit, fill) = recommend_conduit(total);
    let install_method_desc = summary(&data);
    let fill_rate: u128 = fill.rounded_tenths();
    Ok(
        CalculationResult {
            total_area: square_millimetres(total),
            conductor_area: conductor,
            allowable_current: (current + 50) / 100,
            recommended_conduit,
            fill_rate: fill_rate as u32,
            install_method_desc,
        },
    )
}

} // verus!
