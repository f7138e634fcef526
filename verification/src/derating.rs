//! From a cable specification to its derated allowable current: the
//! installation method in force, the loaded conductors, the number of
//! circuits and the grouping factor.
use vstd::prelude::*;
use crate::ampacity::{
    ampacity_of, ampacity_pair, insulation_class, insulation_of, lemma_ampacity_bounds,
    MAX_TABULATED,
};
use crate::model::{CableData, CableSpec, CalcError};
use crate::text::same_text;

verus! {

/// The voltage system of an installation.
#[derive(Clone, Copy, Debug, PartialEq, Eq, Structural)]
pub enum System {
    /// Single-phase: two loaded conductors to a circuit.
    SinglePhase,
    /// Three-phase: three loaded conductors to a circuit.
    ThreePhase,
    /// Any other label; counted as two loaded conductors.
    Other,
}

/// The voltage system that a label names.
pub open spec fn system_of(label: Seq<char>) -> System {
    if label == "1Φ"@ {
        System::SinglePhase
    } else if label == "3Φ"@ {
        System::ThreePhase
    } else {
        System::Other
    }
}

/// The two labels in use name the two systems.
pub proof fn lemma_system_labels()
    ensures
        system_of("1Φ"@) == System::SinglePhase,
        system_of("3Φ"@) == System::ThreePhase,
{
    reveal_strlit("1Φ");
    reveal_strlit("3Φ");
    assert("1Φ"@[0] != "3Φ"@[0]);
}

/// Reads a voltage system label.
pub fn parse_system(label: &str) -> (r: System)
    ensures
        r == system_of(label@),
{
    if same_text(label, "1Φ") {
        System::SinglePhase
    } else if same_text(label, "3Φ") {
        System::ThreePhase
    } else {
        System::Other
    }
}

/// The number of loaded conductors that make up one circuit.
pub open spec fn conductors_per_circuit(system: System) -> int {
    match system {
        System::ThreePhase => 3,
        _ => 2,
    }
}

/// The grouping factor, in hundredths, for a number of circuits that share
/// one thermal environment (IEC 60364-5-52, table B.52.17). Beyond twenty
/// circuits the factor for twenty stays in force.
pub open spec fn grouping_factor(circuits: int) -> int {
    if circuits <= 1 {
        100
    } else if circuits == 2 {
        80
    } else if circuits == 3 {
        70
    } else if circuits == 4 {
        65
    } else if circuits == 5 {
        60
    } else if circuits == 6 {
        57
    } else if circuits == 7 {
        54
    } else if circuits == 8 {
        52
    } else if circuits == 9 {
        50
    } else if circuits <= 12 {
        45
    } else if circuits <= 16 {
        41
    } else {
        38
    }
}

/// The grouping factors for one to nine circuits, in hundredths.
const SINGLE_STEPS: [u32; 9] = [100, 80, 70, 65, 60, 57, 54, 52, 50];

/// The grouping factor, in hundredths, for a number of circuits.
pub fn get_grouping_factor(num_circuits: u32) -> (r: u32)
    ensures
        r == grouping_factor(num_circuits as int),
{
    if num_circuits == 0 {
        100
    } else if num_circuits <= 9 {
        SINGLE_STEPS[(num_circuits - 1) as usize]
    } else if num_circuits <= 12 {
        45
    } else if num_circuits <= 16 {
        41
    } else {
        38
    }
}

/// More circuits never raise the grouping factor; for no circuit and for one
/// it is one whole; and it always lies above zero and at most at one whole.
pub proof fn lemma_grouping_factor_non_increasing(fewer: int, more: int)
    requires
        fewer <= more,
    ensures
        grouping_factor(more) <= grouping_factor(fewer),
        grouping_factor(0) == 100,
        grouping_factor(1) == 100,
        0 < grouping_factor(fewer) <= 100,
{
}

/// The installation method in force: the one given, or, where none is given,
/// B1 for single-core cable and B2 for any other.
pub open spec fn resolved_method(cores: Seq<char>, install_method: Seq<char>) -> Seq<char> {
    if install_method.len() == 0 {
        if cores == "1C"@ {
            "B1"@
        } else {
            "B2"@
        }
    } else {
        install_method
    }
}

/// The installation method in force for a cable specification.
pub fn resolve_install_method<'a>(data: &'a CableData) -> (r: &'a str)
    ensures
        r@ == resolved_method(data@.cores, data@.install_method),
        data@.install_method.len() > 0 ==> r@ == data@.install_method,
        data@.install_method.len() == 0 && data@.cores == "1C"@ ==> r@ == "B1"@,
        data@.install_method.len() == 0 && data@.cores != "1C"@ ==> r@ == "B2"@,
{
    if data.install_method.as_str().is_empty() {
        if same_text(data.cores.as_str(), "1C") {
            "B1"
        } else {
            "B2"
        }
    } else {
        data.install_method.as_str()
    }
}

/// The number of circuits that the cable runs make up. Single-core runs are
/// bundled into circuits of two or three, a run left over counting as a
/// circuit of its own; every multi-core run is a circuit.
pub open spec fn circuit_count(cores: Seq<char>, system: Seq<char>, quantity: nat) -> int {
    if cores == "1C"@ {
        let per = conductors_per_circuit(system_of(system));
        (quantity + per - 1) / per
    } else {
        quantity as int
    }
}

/// The number of circuits of a cable specification.
pub fn count_circuits(data: &CableData) -> (r: u32)
    ensures
        r == circuit_count(data@.cores, data@.system, data@.quantity),
{
    if same_text(data.cores.as_str(), "1C") {
        let per: u64 = match parse_system(data.system.as_str()) {
            System::ThreePhase => 3,
            _ => 2,
        };
        let n: u64 = (data.quantity as u64 + per - 1) / per;
        n as u32
    } else {
        data.quantity
    }
}

/// The circuits of single-core runs hold all the runs, and one circuit fewer
/// would not: the count is the quotient rounded up.
pub proof fn lemma_circuit_count_rounds_up(system: Seq<char>, quantity: nat)
    ensures
        ({
            let per = conductors_per_circuit(system_of(system));
            let c = circuit_count("1C"@, system, quantity);
            per * (c - 1) < quantity <= per * c
        }),
{
}

/// The current of a table entry that counts for a voltage system: with two
/// loaded conductors, or with three for three-phase.
pub open spec fn base_current(system: System, pair: (u32, u32)) -> int {
    match system {
        System::ThreePhase => pair.1 as int,
        _ => pair.0 as int,
    }
}

/// The derated allowable current of a cable specification, in milliamperes:
/// the tabulated current for its size, its cable type's insulation class and
/// the installation method in force, times the grouping factor of its
/// circuits. There is none where the tables hold no such entry.
pub open spec fn allowable_current_of(spec: CableSpec) -> Option<int> {
    match ampacity_of(
        spec.size,
        insulation_of(spec.cable_type),
        resolved_method(spec.cores, spec.install_method),
    ) {
        Some(pair) => Some(
            base_current(system_of(spec.system), pair) * grouping_factor(
                circuit_count(spec.cores, spec.system, spec.quantity),
            ),
        ),
        None => None,
    }
}

/// The derated allowable current of a cable specification, in milliamperes.
pub fn allowable_current(data: &CableData) -> (r: Result<u32, CalcError>)
    ensures
        match r {
            Ok(current) => allowable_current_of(data@) == Some(current as int) && current
                <= MAX_TABULATED * 100,
            Err(e) => allowable_current_of(data@) is None
                && e == CalcError::UnsupportedAmpacityCombination,
        },
{
    let insulation = insulation_class(data.cable_type.as_str());
    let method = resolve_install_method(data);
    let pair = match ampacity_pair(data.size.as_str(), insulation, method) {
        Some(pair) => pair,
        None => {
            return Err(CalcError::UnsupportedAmpacityCombination);
        },
    };
    let base: u32 = match parse_system(data.system.as_str()) {
        System::ThreePhase => pair.1,
        _ => pair.0,
    };
    let factor: u32 = get_grouping_factor(count_circuits(data));
    proof {
        lemma_ampacity_bounds(data@.size, insulation, method@);
        assert(base * factor <= MAX_TABULATED * 100) by (nonlinear_arith)
            requires
                base <= MAX_TABULATED,
                factor <= 100,
        ;
    }
    Ok(base * factor)
}

} // verus!
