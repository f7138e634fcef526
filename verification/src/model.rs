//! What a calculation is asked and what it answers.
use vstd::prelude::*;

verus! {

/// A cable specification: what is to be installed, and how.
#[derive(Clone, Debug)]
pub struct CableData {
    /// The cable type code: "HFIX", "TFR-CV", "CV", "FR-CV" or "TFR-8".
    pub cable_type: String,
    /// The core code: "1C", "2C", "3C" or "4C".
    pub cores: String,
    /// The nominal conductor size in square millimetres, such as "2.5".
    pub size: String,
    /// The number of cable runs.
    pub quantity: u32,
    /// The voltage system: "1Φ" for single-phase, "3Φ" for three-phase.
    pub system: String,
    /// The ground wire: "HFIX" where one is pulled along, anything else
    /// where none is.
    pub ground_wire: String,
    /// The installation method code, "A1" to "F"; empty where the method is
    /// to follow from the number of cores.
    pub install_method: String,
}

/// A cable specification as plain values.
pub struct CableSpec {
    pub cable_type: Seq<char>,
    pub cores: Seq<char>,
    pub size: Seq<char>,
    pub quantity: nat,
    pub system: Seq<char>,
    pub ground_wire: Seq<char>,
    pub install_method: Seq<char>,
}

impl View for CableData {
    type V = CableSpec;

    open spec fn view(&self) -> CableSpec {
        CableSpec {
            cable_type: self.cable_type@,
            cores: self.cores@,
            size: self.size@,
            quantity: self.quantity as nat,
            system: self.system@,
            ground_wire: self.ground_wire@,
            install_method: self.install_method@,
        }
    }
}

/// The figures of one calculation, each rounded once, from exact values.
#[derive(Clone, Debug)]
pub struct CalculationResult {
    /// The installed cross-section of all cables, the ground wire included,
    /// in hundredths of a square millimetre.
    pub total_area: u128,
    /// The conductor cross-section of all cables, in hundredths of a square
    /// millimetre.
    pub conductor_area: u64,
    /// The derated allowable current, in tenths of an ampere.
    pub allowable_current: u32,
    /// The name of the recommended conduit.
    pub recommended_conduit: String,
    /// The share of the conduit that the cables take up, in tenths of a
    /// percent.
    pub fill_rate: u32,
    /// The installation method, the loaded conductors and the grouping in
    /// words.
    pub install_method_desc: String,
}

/// The figures of one calculation as plain values.
pub struct ResultFigures {
    pub total_area: int,
    pub conductor_area: int,
    pub allowable_current: int,
    pub recommended_conduit: Seq<char>,
    pub fill_rate: int,
    pub install_method_desc: Seq<char>,
}

impl View for CalculationResult {
    type V = ResultFigures;

    open spec fn view(&self) -> ResultFigures {
        ResultFigures {
            total_area: self.total_area as int,
            conductor_area: self.conductor_area as int,
            allowable_current: self.allowable_current as int,
            recommended_conduit: self.recommended_conduit@,
            fill_rate: self.fill_rate as int,
            install_method_desc: self.install_method_desc@,
        }
    }
}

/// Why a calculation gave no figures.
#[derive(Clone, Copy, Debug, PartialEq, Eq, Structural)]
pub enum CalcError {
    /// No outer diameter is known for the cable type, size and core count.
    UnsupportedCableSpec,
    /// No allowable current is tabulated for the size, insulation class and
    /// installation method.
    UnsupportedAmpacityCombination,
}

impl CalcError {
    /// The message shown to the operator.
    pub open spec fn message_of(self) -> Seq<char> {
        match self {
            CalcError::UnsupportedCableSpec => "지원하지 않는 전선 규격입니다."@,
            CalcError::UnsupportedAmpacityCombination => "허용전류 데이터를 찾을 수 없습니다."@,
        }
    }

    /// The message shown to the operator.
    pub fn message(&self) -> (r: String)
        ensures
            r@ == self.message_of(),
    {
        match self {
            CalcError::UnsupportedCableSpec => String::from_str("지원하지 않는 전선 규격입니다."),
            CalcError::UnsupportedAmpacityCombination => String::from_str(
                "허용전류 데이터를 찾을 수 없습니다.",
            ),
        }
    }
}

} // verus!
