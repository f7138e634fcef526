//! What an installer may choose from: cable types, cores, sizes and
//! installation methods, each code with the label shown for it.
use vstd::prelude::*;
use crate::ampacity::{
    get_insulation_type, insulation_class, insulation_name, insulation_of, max_temperature,
    max_temperature_of,
};
use crate::derating::{parse_system, system_of, System};
use crate::diameter::{
    cores_of, diameter_for, diameter_rule, family_diameter, family_of, parse_cores, parse_family,
    CableFamily, Cores,
};
use crate::methods::{lemma_method_code_place, method_index};
use crate::sizes::{SIZE_CODES, SIZE_COUNT};
use crate::text::{same_text, signature};

verus! {

/// The core codes with their labels.
pub const CORE_OPTIONS: [(&'static str, &'static str); 4] = [
    ("1C", "1C (단심)"),
    ("2C", "2C (2심)"),
    ("3C", "3C (3심)"),
    ("4C", "4C (4심)"),
];

/// The installation method codes with their labels, in the order of the
/// method codes.
pub const METHOD_OPTIONS: [(&'static str, &'static str); 9] = [
    ("A1", "A1: 단열벽 속 전선관 (단심)"),
    ("A2", "A2: 단열벽 속 전선관 (다심)"),
    ("B1", "B1: 벽면 고정 전선관 (단심)"),
    ("B2", "B2: 벽면 고정 전선관 (다심)"),
    ("C", "C: 벽면/천정 직접 고정"),
    ("D1", "D1: 지중 매설 덕트"),
    ("D2", "D2: 지중 매설 직매"),
    ("E", "E: 케이블 트레이 (단심)"),
    ("F", "F: 케이블 트레이 (다심)"),
];

/// Which installation methods suit single-core cable, in the order of the
/// method codes: A1, B1, C, D1 and E.
pub const SINGLE_CORE_METHODS: [bool; 9] = [
    true, false, true, false, true, true, false, true, false,
];

/// Which installation methods suit multi-core cable, in the order of the
/// method codes: A2, B2, C, D2 and F.
pub const MULTI_CORE_METHODS: [bool; 9] = [
    false, true, false, true, true, false, true, false, true,
];

/// Every method suits single-core or multi-core cable, and only C, fixed
/// directly to a wall or ceiling, suits both.
pub proof fn lemma_methods_by_cores(method: int)
    requires
        0 <= method < 9,
    ensures
        SINGLE_CORE_METHODS[method] || MULTI_CORE_METHODS[method],
        SINGLE_CORE_METHODS[method] && MULTI_CORE_METHODS[method] <==> method == 4,
        METHOD_OPTIONS[4].0@ == "C"@,
{
}

/// The codes that the lists offer are the codes that the calculation reads:
/// each listed method code has its place among the method codes, and each
/// listed core code names its number of cores.
pub proof fn lemma_listed_codes_are_read(method: int, cores: int)
    requires
        0 <= method < 9,
        0 <= cores < 4,
    ensures
        method_index(METHOD_OPTIONS[method].0@) == Some(method),
        cores_of(CORE_OPTIONS[cores].0@) == Some(cores_at(cores)),
        cores_of(WIRING_OPTIONS[cores].0@) == Some(cores_at(cores)),
{
    lemma_method_code_place(method);
    reveal_strlit("1C");
    reveal_strlit("2C");
    reveal_strlit("3C");
    reveal_strlit("4C");
    assert(signature("1C"@) != signature("2C"@));
    assert(signature("1C"@) != signature("3C"@));
    assert(signature("1C"@) != signature("4C"@));
    assert(signature("2C"@) != signature("3C"@));
    assert(signature("2C"@) != signature("4C"@));
    assert(signature("3C"@) != signature("4C"@));
}

/// A code and its label as plain text.
pub open spec fn pair_text(entry: (&'static str, &'static str)) -> (Seq<char>, Seq<char>) {
    (entry.0@, entry.1@)
}

/// The entries of a table of codes and labels that a mask keeps, among the
/// first `n`, in the table's order.
pub open spec fn selected(
    table: Seq<(&'static str, &'static str)>,
    mask: Seq<bool>,
    n: int,
) -> Seq<(Seq<char>, Seq<char>)>
    decreases n,
{
    if n <= 0 {
        Seq::empty()
    } else if mask[n - 1] {
        selected(table, mask, n - 1).push(pair_text(table[n - 1]))
    } else {
        selected(table, mask, n - 1)
    }
}

/// Whether a mask keeps, among the first `n` entries of a table, one that
/// reads as `entry`.
pub open spec fn keeps(
    table: Seq<(&'static str, &'static str)>,
    mask: Seq<bool>,
    n: int,
    entry: (Seq<char>, Seq<char>),
) -> bool {
    exists|i: int| 0 <= i < n && mask[i] && #[trigger] pair_text(table[i]) == entry
}

/// A selection holds exactly the entries that the mask keeps, and no more
/// entries than the table has.
pub proof fn lemma_selected_members(
    table: Seq<(&'static str, &'static str)>,
    mask: Seq<bool>,
    n: int,
    entry: (Seq<char>, Seq<char>),
)
    requires
        0 <= n <= table.len(),
        mask.len() == table.len(),
    ensures
        selected(table, mask, n).len() <= n,
        selected(table, mask, n).contains(entry) <==> keeps(table, mask, n, entry),
    decreases n,
{
    if n > 0 {
        lemma_selected_members(table, mask, n - 1, entry);
        let before = selected(table, mask, n - 1);
        let now = selected(table, mask, n);
        if now.contains(entry) {
            let k = choose|k: int| 0 <= k < now.len() && now[k] == entry;
            if k < before.len() {
                assert(before.contains(entry));
            }
        }
        if keeps(table, mask, n, entry) {
            let i = choose|i: int| 0 <= i < n && mask[i] && #[trigger] pair_text(table[i]) == entry;
            if i == n - 1 {
                assert(now[before.len() as int] == entry);
            } else {
                let k = choose|k: int| 0 <= k < before.len() && before[k] == entry;
                assert(now[k] == entry);
            }
        }
    }
}

/// Copies the entries of a table that a mask keeps.
fn select_pairs(table: &[(&'static str, &'static str)], mask: &[bool]) -> (r: Vec<(String, String)>)
    requires
        mask@.len() == table@.len(),
    ensures
        r.deep_view() == selected(table@, mask@, table@.len() as int),
{
    let mut v: Vec<(String, String)> = Vec::new();
    let mut i: usize = 0;
    while i < table.len()
        invariant
            i <= table@.len(),
            mask@.len() == table@.len(),
            v.deep_view() == selected(table@, mask@, i as int),
        decreases table@.len() - i,
    {
        if mask[i] {
            let (code, label) = table[i];
            v.push((String::from_str(code), String::from_str(label)));
        }
        i = i + 1;
    }
    v
}

/// The first `n` codes of a list, copied.
fn first_codes(codes: &[&'static str], n: usize) -> (r: Vec<String>)
    requires
        n <= codes@.len(),
    ensures
        r.deep_view() == codes.deep_view().subrange(0, n as int),
{
    let mut v: Vec<String> = Vec::new();
    let mut i: usize = 0;
    while i < n
        invariant
            i <= n <= codes@.len(),
            v.deep_view() == codes.deep_view().subrange(0, i as int),
        decreases n - i,
    {
        let ghost before = v.deep_view();
        v.push(String::from_str(codes[i]));
        assert(v.deep_view() =~= before.push(codes@[i as int]@));
        i = i + 1;
    }
    v
}

/// Every nominal size code, ascending.
pub fn get_cable_sizes() -> (r: Vec<String>)
    ensures
        r.deep_view() == SIZE_CODES.deep_view(),
{
    let r = first_codes(&SIZE_CODES, 18);
    r
}

/// A table of codes and labels, copied whole.
fn owned_pairs(table: &[(&'static str, &'static str)]) -> (r: Vec<(String, String)>)
    ensures
        r.deep_view() == table.deep_view(),
{
    let mut v: Vec<(String, String)> = Vec::new();
    let mut i: usize = 0;
    while i < table.len()
        invariant
            i <= table@.len(),
            v.deep_view() == table.deep_view().subrange(0, i as int),
        decreases table@.len() - i,
    {
        let ghost before = v.deep_view();
        let (code, label) = table[i];
        v.push((String::from_str(code), String::from_str(label)));
        assert(v.deep_view() =~= before.push((code@, label@)));
        i = i + 1;
    }
    v
}

/// Every core code with its label.
pub fn get_core_options() -> (r: Vec<(String, String)>)
    ensures
        r.deep_view() == CORE_OPTIONS.deep_view(),
{
    owned_pairs(&CORE_OPTIONS)
}

/// Every installation method code with its label.
pub fn get_install_methods() -> (r: Vec<(String, String)>)
    ensures
        r.deep_view() == METHOD_OPTIONS.deep_view(),
{
    owned_pairs(&METHOD_OPTIONS)
}

/// The installation methods that suit a core code, with their labels, in
/// the order of the method codes; none for a core code that is not known.
pub open spec fn methods_for_cores(cores: Seq<char>) -> Seq<(Seq<char>, Seq<char>)> {
    match cores_of(cores) {
        Some(Cores::One) => selected(METHOD_OPTIONS@, SINGLE_CORE_METHODS@, 9),
        Some(_) => selected(METHOD_OPTIONS@, MULTI_CORE_METHODS@, 9),
        None => Seq::empty(),
    }
}

/// The installation methods that suit a core code.
pub fn get_install_methods_for_cores(cores: String) -> (r: Vec<(String, String)>)
    ensures
        r.deep_view() == methods_for_cores(cores@),
{
    match parse_cores(cores.as_str()) {
        Some(Cores::One) => select_pairs(&METHOD_OPTIONS, &SINGLE_CORE_METHODS),
        Some(_) => select_pairs(&METHOD_OPTIONS, &MULTI_CORE_METHODS),
        None => {
            let v: Vec<(String, String)> = Vec::new();
            v
        },
    }
}

/// The core codes with the labels that name their wiring.
pub const WIRING_OPTIONS: [(&'static str, &'static str); 4] = [
    ("1C", "1C (단심)"),
    ("2C", "2C (단상 2선)"),
    ("3C", "3C (단상 3선 / 3상 3선)"),
    ("4C", "4C (3상 4선)"),
];

/// Which core counts a voltage system is wired with, in the order of the
/// core codes: single-phase with one, two or three cores, three-phase with
/// one, three or four, and any other label with all.
pub open spec fn wired_with(system: System) -> Seq<bool> {
    match system {
        System::SinglePhase => seq![true, true, true, false],
        System::ThreePhase => seq![true, false, true, true],
        System::Other => seq![true, true, true, true],
    }
}

/// Which core codes are both wired with a voltage system and among those
/// available.
pub open spec fn wiring_mask(system: System, available: Seq<Seq<char>>) -> Seq<bool> {
    Seq::new(4, |i: int| wired_with(system)[i] && available.contains(WIRING_OPTIONS[i].0@))
}

/// The core codes, with their wiring labels, that a voltage system is wired
/// with and that are among those available, in the order of the core codes.
pub open spec fn cores_for_system(system: Seq<char>, available: Seq<Seq<char>>) -> Seq<
    (Seq<char>, Seq<char>),
> {
    selected(WIRING_OPTIONS@, wiring_mask(system_of(system), available), 4)
}

/// Whether a text is in a list of texts.
fn holds_text(list: &Vec<String>, text: &str) -> (r: bool)
    ensures
        r == list.deep_view().contains(text@),
{
    let mut i: usize = 0;
    while i < list.len()
        invariant
            i <= list@.len(),
            forall|j: int| 0 <= j < i ==> list.deep_view()[j] != text@,
        decreases list@.len() - i,
    {
        if same_text(list[i].as_str(), text) {
            assert(list.deep_view()[i as int] == text@);
            return true;
        }
        i = i + 1;
    }
    false
}

/// The core codes that suit a voltage system, among those available.
pub fn get_cores_for_system(system: String, available_cores: Vec<String>) -> (r: Vec<
    (String, String),
>)
    ensures
        r.deep_view() == cores_for_system(system@, available_cores.deep_view()),
{
    let wired: [bool; 4] = match parse_system(system.as_str()) {
        System::SinglePhase => [true, true, true, false],
        System::ThreePhase => [true, false, true, true],
        System::Other => [true, true, true, true],
    };
    let mut mask: Vec<bool> = Vec::new();
    let mut i: usize = 0;
    while i < 4
        invariant
            i <= 4,
            mask@.len() == i,
            wired@ == wired_with(system_of(system@)),
            forall|j: int|
                0 <= j < i ==> mask@[j] == wiring_mask(
                    system_of(system@),
                    available_cores.deep_view(),
                )[j],
        decreases 4 - i,
    {
        let keep = wired[i] && holds_text(&available_cores, WIRING_OPTIONS[i].0);
        mask.push(keep);
        i = i + 1;
    }
    assert(mask@ =~= wiring_mask(system_of(system@), available_cores.deep_view()));
    select_pairs(&WIRING_OPTIONS, mask.as_slice())
}

/// What is told of a cable type.
#[derive(Clone, Debug)]
pub struct CableTypeInfo {
    /// The cable type code.
    pub code: String,
    /// The name shown for it.
    pub name: String,
    /// The standard and the make-up of the cable.
    pub description: String,
    /// The highest conductor temperature, in degrees Celsius.
    pub max_temp: u32,
    /// The name of the insulation class.
    pub insulation: String,
}

/// What is told of a cable type, as plain values.
pub struct CableTypeText {
    pub code: Seq<char>,
    pub name: Seq<char>,
    pub description: Seq<char>,
    pub max_temp: int,
    pub insulation: Seq<char>,
}

impl View for CableTypeInfo {
    type V = CableTypeText;

    open spec fn view(&self) -> CableTypeText {
        CableTypeText {
            code: self.code@,
            name: self.name@,
            description: self.description@,
            max_temp: self.max_temp as int,
            insulation: self.insulation@,
        }
    }
}

/// How many cable types the catalogue holds.
pub const CABLE_TYPE_COUNT: usize = 5;

/// The cable types: code, name and description of each.
pub const CABLE_TYPES: [(&'static str, &'static str, &'static str); 5] = [
    ("HFIX", "HFIX (저독성 난연 전선)", "KS C 3341, 저독성 난연 폴리올레핀 절연"),
    ("TFR-CV", "TFR-CV (난연 트레이용)", "0.6/1kV 가교폴리에틸렌 절연 난연 PVC 시스"),
    ("CV", "CV (일반 전력 케이블)", "0.6/1kV 가교폴리에틸렌 절연 비닐 시스"),
    ("FR-CV", "FR-CV (내화 케이블)", "0.6/1kV 내화 가교폴리에틸렌 절연"),
    ("TFR-8", "TFR-8 (내열 케이블)", "0.6/1kV 내열 가교폴리에틸렌 절연"),
];

/// What is told of the `i`-th cable type: its code, name and description,
/// and the name and rated temperature of its insulation class.
pub open spec fn cable_type_entry(i: int) -> CableTypeText {
    let insulation = insulation_of(CABLE_TYPES[i].0@);
    CableTypeText {
        code: CABLE_TYPES[i].0@,
        name: CABLE_TYPES[i].1@,
        description: CABLE_TYPES[i].2@,
        max_temp: max_temperature_of(insulation),
        insulation: insulation_name(insulation),
    }
}

/// Every cable type of the catalogue.
pub fn get_cable_types() -> (r: Vec<CableTypeInfo>)
    ensures
        r@.len() == CABLE_TYPE_COUNT,
        forall|i: int| 0 <= i < CABLE_TYPE_COUNT ==> (#[trigger] r@[i])@ == cable_type_entry(i),
{
    let mut v: Vec<CableTypeInfo> = Vec::new();
    let mut i: usize = 0;
    while i < CABLE_TYPE_COUNT
        invariant
            i <= CABLE_TYPE_COUNT,
            v@.len() == i,
            forall|j: int| 0 <= j < i ==> (#[trigger] v@[j])@ == cable_type_entry(j),
        decreases CABLE_TYPE_COUNT - i,
    {
        let (code, name, description) = CABLE_TYPES[i];
        v.push(
            CableTypeInfo {
                code: String::from_str(code),
                name: String::from_str(name),
                description: String::from_str(description),
                max_temp: max_temperature(insulation_class(code)),
                insulation: String::from_str(get_insulation_type(code)),
            },
        );
        i = i + 1;
    }
    v
}

/// The family that the `i`-th cable type of the catalogue belongs to.
pub open spec fn family_at(i: int) -> CableFamily {
    if i == 0 {
        CableFamily::Hfix
    } else if i == 1 {
        CableFamily::TfrCv
    } else if i == 2 {
        CableFamily::Cv
    } else if i == 3 {
        CableFamily::FrCv
    } else {
        CableFamily::Tfr8
    }
}

/// Every cable type of the catalogue names a family of its own with known
/// diameters, and is insulated for 90 degrees Celsius.
pub proof fn lemma_cable_types_known(i: int)
    requires
        0 <= i < CABLE_TYPE_COUNT,
    ensures
        family_of(CABLE_TYPES[i].0@) == Some(family_at(i)),
        cable_type_entry(i).max_temp == 90,
        cable_type_entry(i).insulation == "XLPE"@,
{
    reveal_strlit("HFIX");
    reveal_strlit("TFR-CV");
    reveal_strlit("CV");
    reveal_strlit("FR-CV");
    reveal_strlit("TFR-8");
    assert(signature("HFIX"@).0 == 4);
    assert(signature("TFR-CV"@).0 == 6);
    assert(signature("CV"@).0 == 2);
    assert(signature("FR-CV"@).1 == 'F');
    assert(signature("TFR-8"@).1 == 'T');
}

/// What may be chosen for one cable type.
#[derive(Clone, Debug)]
pub struct CableTypeOptions {
    /// The core codes with their labels.
    pub cores: Vec<(String, String)>,
    /// The size codes.
    pub sizes: Vec<String>,
    /// The installation method codes with their labels.
    pub install_methods: Vec<(String, String)>,
}

/// What may be chosen for one cable type, as plain values.
pub struct OptionsText {
    pub cores: Seq<(Seq<char>, Seq<char>)>,
    pub sizes: Seq<Seq<char>>,
    pub install_methods: Seq<(Seq<char>, Seq<char>)>,
}

impl View for CableTypeOptions {
    type V = OptionsText;

    open spec fn view(&self) -> OptionsText {
        OptionsText {
            cores: self.cores.deep_view(),
            sizes: self.sizes.deep_view(),
            install_methods: self.install_methods.deep_view(),
        }
    }
}

/// The core count that the `i`-th core code names.
pub open spec fn cores_at(i: int) -> Cores {
    if i == 0 {
        Cores::One
    } else if i == 1 {
        Cores::Two
    } else if i == 2 {
        Cores::Three
    } else {
        Cores::Four
    }
}

/// Which core counts a family is made with, in the order of the core codes.
pub open spec fn made_with(family: CableFamily) -> Seq<bool> {
    Seq::new(4, |i: int| diameter_rule(family, cores_at(i)) is Some)
}

/// Which installation methods are offered for a family, in the order of the
/// method codes: those that suit a core count that the family is made with.
pub open spec fn offered_methods(family: CableFamily) -> Seq<bool> {
    let single = made_with(family)[0];
    let multi = made_with(family)[1] || made_with(family)[2] || made_with(family)[3];
    Seq::new(9, |m: int| single && SINGLE_CORE_METHODS[m] || multi && MULTI_CORE_METHODS[m])
}

/// How many of the nominal sizes, from the smallest on, are offered for a
/// family.
pub open spec fn offered_sizes(family: CableFamily) -> int {
    match family {
        CableFamily::TfrCv | CableFamily::Cv => 18,
        _ => 16,
    }
}

/// What may be chosen for a cable type: the core counts that its family is
/// made with, the sizes offered for it, and the installation methods that
/// suit those core counts. Nothing may be chosen for a type that is not
/// known.
pub open spec fn options_for(cable_type: Seq<char>) -> OptionsText {
    match family_of(cable_type) {
        Some(family) => OptionsText {
            cores: selected(CORE_OPTIONS@, made_with(family), 4),
            sizes: SIZE_CODES.deep_view().subrange(0, offered_sizes(family)),
            install_methods: selected(METHOD_OPTIONS@, offered_methods(family), 9),
        },
        None => OptionsText {
            cores: Seq::empty(),
            sizes: Seq::empty(),
            install_methods: Seq::empty(),
        },
    }
}

/// What may be chosen for a cable type.
pub fn get_cable_options(cable_type: String) -> (r: CableTypeOptions)
    ensures
        r@ == options_for(cable_type@),
{
    let family = match parse_family(cable_type.as_str()) {
        Some(family) => family,
        None => {
            let r = CableTypeOptions {
                cores: Vec::new(),
                sizes: Vec::new(),
                install_methods: Vec::new(),
            };
            assert(r@.cores =~= Seq::empty());
            assert(r@.sizes =~= Seq::empty());
            assert(r@.install_methods =~= Seq::empty());
            return r;
        },
    };
    let made: [bool; 4] = [
        diameter_for(family, Cores::One, 0).is_some(),
        diameter_for(family, Cores::Two, 0).is_some(),
        diameter_for(family, Cores::Three, 0).is_some(),
        diameter_for(family, Cores::Four, 0).is_some(),
    ];
    assert(made@ =~= made_with(family));
    let single = made[0];
    let multi = made[1] || made[2] || made[3];
    let mut methods: Vec<bool> = Vec::new();
    let mut m: usize = 0;
    while m < 9
        invariant
            m <= 9,
            methods@.len() == m,
            single == made_with(family)[0],
            multi == (made_with(family)[1] || made_with(family)[2] || made_with(family)[3]),
            forall|j: int| 0 <= j < m ==> methods@[j] == offered_methods(family)[j],
        decreases 9 - m,
    {
        methods.push(single && SINGLE_CORE_METHODS[m] || multi && MULTI_CORE_METHODS[m]);
        m = m + 1;
    }
    assert(methods@ =~= offered_methods(family));
    let count: usize = match family {
        CableFamily::TfrCv | CableFamily::Cv => 18,
        _ => 16,
    };
    CableTypeOptions {
        cores: select_pairs(&CORE_OPTIONS, &made),
        sizes: first_codes(&SIZE_CODES, count),
        install_methods: select_pairs(&METHOD_OPTIONS, methods.as_slice()),
    }
}

/// HFIX is made with one core only and is offered the methods for
/// single-core cable; every other family is made with one to four cores and
/// is offered every method.
pub proof fn lemma_offers_by_family(family: CableFamily)
    ensures
        family == CableFamily::Hfix ==> made_with(family) == seq![true, false, false, false]
            && offered_methods(family) == SINGLE_CORE_METHODS@,
        family != CableFamily::Hfix ==> made_with(family) == seq![true, true, true, true]
            && offered_methods(family) == Seq::new(9, |m: int| true),
{
}

/// Every size offered for a family has a known diameter as a single-core
/// cable, and every core count offered has one at the smallest size: what
/// the options offer, the calculation can work with.
pub proof fn lemma_offered_is_made(family: CableFamily, size: int, cores: int)
    requires
        0 <= size < offered_sizes(family),
        0 <= cores < 4,
    ensures
        offered_sizes(family) <= SIZE_COUNT,
        family_diameter(family, Cores::One, size) is Some,
        made_with(family)[cores] ==> family_diameter(family, cores_at(cores), 0) is Some,
{
}

} // verus!
