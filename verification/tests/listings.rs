use cable_sizing::catalogue::{
    get_cable_options, get_cable_sizes, get_cable_types, get_core_options, get_cores_for_system,
    get_install_methods, get_install_methods_for_cores,
};
use cable_sizing::diameter::get_cable_outer_diameter;
use cable_sizing::text::{decimal_text, find_code, same_text, two_decimals_text};

fn codes(pairs: &[(String, String)]) -> Vec<&str> {
    pairs.iter().map(|p| p.0.as_str()).collect()
}

fn owned(list: &[&str]) -> Vec<String> {
    list.iter().map(|s| s.to_string()).collect()
}

#[test]
fn five_cable_types_all_insulated_for_ninety_degrees() {
    let types = get_cable_types();
    assert_eq!(types.len(), 5);
    let listed: Vec<&str> = types.iter().map(|t| t.code.as_str()).collect();
    assert_eq!(listed, ["HFIX", "TFR-CV", "CV", "FR-CV", "TFR-8"]);
    for t in &types {
        assert_eq!(t.max_temp, 90);
        assert_eq!(t.insulation, "XLPE");
    }
    assert_eq!(types[0].name, "HFIX (저독성 난연 전선)");
    assert_eq!(types[0].description, "KS C 3341, 저독성 난연 폴리올레핀 절연");
    assert_eq!(types[1].name, "TFR-CV (난연 트레이용)");
    assert_eq!(types[1].description, "0.6/1kV 가교폴리에틸렌 절연 난연 PVC 시스");
    assert_eq!(types[2].name, "CV (일반 전력 케이블)");
    assert_eq!(types[2].description, "0.6/1kV 가교폴리에틸렌 절연 비닐 시스");
    assert_eq!(types[3].name, "FR-CV (내화 케이블)");
    assert_eq!(types[3].description, "0.6/1kV 내화 가교폴리에틸렌 절연");
    assert_eq!(types[4].name, "TFR-8 (내열 케이블)");
    assert_eq!(types[4].description, "0.6/1kV 내열 가교폴리에틸렌 절연");
}

#[test]
fn all_sizes_cores_and_methods_are_listed() {
    assert_eq!(
        get_cable_sizes(),
        [
            "1.5", "2.5", "4", "6", "10", "16", "25", "35", "50", "70", "95", "120", "150", "185",
            "240", "300", "400", "500"
        ]
    );
    let cores = get_core_options();
    assert_eq!(
        cores,
        [
            ("1C".to_string(), "1C (단심)".to_string()),
            ("2C".to_string(), "2C (2심)".to_string()),
            ("3C".to_string(), "3C (3심)".to_string()),
            ("4C".to_string(), "4C (4심)".to_string()),
        ]
    );
    let methods = get_install_methods();
    assert_eq!(
        methods,
        [
            ("A1".to_string(), "A1: 단열벽 속 전선관 (단심)".to_string()),
            ("A2".to_string(), "A2: 단열벽 속 전선관 (다심)".to_string()),
            ("B1".to_string(), "B1: 벽면 고정 전선관 (단심)".to_string()),
            ("B2".to_string(), "B2: 벽면 고정 전선관 (다심)".to_string()),
            ("C".to_string(), "C: 벽면/천정 직접 고정".to_string()),
            ("D1".to_string(), "D1: 지중 매설 덕트".to_string()),
            ("D2".to_string(), "D2: 지중 매설 직매".to_string()),
            ("E".to_string(), "E: 케이블 트레이 (단심)".to_string()),
            ("F".to_string(), "F: 케이블 트레이 (다심)".to_string()),
        ]
    );
}

#[test]
fn methods_are_offered_by_the_number_of_cores() {
    let single = get_install_methods_for_cores("1C".to_string());
    assert_eq!(codes(&single), ["A1", "B1", "C", "D1", "E"]);
    assert_eq!(single[3].1, "D1: 지중 매설 덕트");
    for cores in ["2C", "3C", "4C"] {
        let multi = get_install_methods_for_cores(cores.to_string());
        assert_eq!(codes(&multi), ["A2", "B2", "C", "D2", "F"]);
        assert_eq!(multi[4].1, "F: 케이블 트레이 (다심)");
    }
    assert!(get_install_methods_for_cores("5C".to_string()).is_empty());
    assert!(get_install_methods_for_cores("".to_string()).is_empty());
}

#[test]
fn cores_are_offered_by_system_and_availability() {
    let all = owned(&["1C", "2C", "3C", "4C"]);
    let single = get_cores_for_system("1Φ".to_string(), all.clone());
    assert_eq!(
        single,
        [
            ("1C".to_string(), "1C (단심)".to_string()),
            ("2C".to_string(), "2C (단상 2선)".to_string()),
            ("3C".to_string(), "3C (단상 3선 / 3상 3선)".to_string()),
        ]
    );
    let three = get_cores_for_system("3Φ".to_string(), all.clone());
    assert_eq!(codes(&three), ["1C", "3C", "4C"]);
    assert_eq!(three[2].1, "4C (3상 4선)");
    let other = get_cores_for_system("DC".to_string(), all.clone());
    assert_eq!(codes(&other), ["1C", "2C", "3C", "4C"]);
    let few = get_cores_for_system("3Φ".to_string(), owned(&["4C", "2C", "7C", "4C"]));
    assert_eq!(codes(&few), ["4C"]);
    let only = get_cores_for_system("1Φ".to_string(), owned(&["1C"]));
    assert_eq!(codes(&only), ["1C"]);
    assert!(get_cores_for_system("1Φ".to_string(), Vec::new()).is_empty());
    assert!(get_cores_for_system("1Φ".to_string(), owned(&["4C"])).is_empty());
}

#[test]
fn hfix_is_offered_single_core_choices_only() {
    let options = get_cable_options("HFIX".to_string());
    assert_eq!(options.cores, [("1C".to_string(), "1C (단심)".to_string())]);
    assert_eq!(options.sizes.len(), 16);
    assert_eq!(options.sizes[0], "1.5");
    assert_eq!(options.sizes[15], "300");
    assert_eq!(codes(&options.install_methods), ["A1", "B1", "C", "D1", "E"]);
}

#[test]
fn other_families_are_offered_every_core_count_and_method() {
    for (code, sizes) in [("TFR-CV", 18), ("CV", 18), ("FR-CV", 16), ("TFR-8", 16)] {
        let options = get_cable_options(code.to_string());
        assert_eq!(options.cores, get_core_options());
        assert_eq!(options.install_methods, get_install_methods());
        assert_eq!(options.sizes, get_cable_sizes()[..sizes]);
    }
}

#[test]
fn unknown_cable_type_is_offered_nothing() {
    for code in ["", "VV", "hfix"] {
        let options = get_cable_options(code.to_string());
        assert!(options.cores.is_empty());
        assert!(options.sizes.is_empty());
        assert!(options.install_methods.is_empty());
    }
}

#[test]
fn what_is_offered_has_a_diameter() {
    for t in get_cable_types() {
        let options = get_cable_options(t.code.clone());
        for size in &options.sizes {
            assert!(get_cable_outer_diameter(&t.code, size, "1C").is_some());
        }
        for (cores, _) in &options.cores {
            assert!(get_cable_outer_diameter(&t.code, "1.5", cores).is_some());
        }
    }
}

#[test]
fn texts_are_compared_by_their_characters() {
    assert!(same_text("", ""));
    assert!(same_text("1Φ", "1Φ"));
    assert!(!same_text("1Φ", "1φ"));
    assert!(!same_text("1Φ", "1"));
    assert!(!same_text("CV", "CV "));
    assert!(!same_text("cv", "CV"));
    assert!(same_text("집합계수", "집합계수"));
    assert!(!same_text("집합계수", "집합계슈"));
}

#[test]
fn codes_are_found_at_their_first_place() {
    let list = ["a", "b", "a", "c"];
    assert_eq!(find_code(&list, "a"), Some(0));
    assert_eq!(find_code(&list, "b"), Some(1));
    assert_eq!(find_code(&list, "c"), Some(3));
    assert_eq!(find_code(&list, "d"), None);
    assert_eq!(find_code(&[], "a"), None);
}

#[test]
fn numbers_are_written_in_decimal() {
    assert_eq!(decimal_text(0), "0");
    assert_eq!(decimal_text(7), "7");
    assert_eq!(decimal_text(10), "10");
    assert_eq!(decimal_text(4096), "4096");
    assert_eq!(decimal_text(1_234_567_890), "1234567890");
    assert_eq!(decimal_text(u64::MAX), "18446744073709551615");
    assert_eq!(two_decimals_text(0), "0.00");
    assert_eq!(two_decimals_text(5), "0.05");
    assert_eq!(two_decimals_text(38), "0.38");
    assert_eq!(two_decimals_text(65), "0.65");
    assert_eq!(two_decimals_text(100), "1.00");
    assert_eq!(two_decimals_text(12_345), "123.45");
}
