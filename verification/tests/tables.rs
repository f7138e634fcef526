use cable_sizing::ampacity::{
    ampacity_pair, get_insulation_type, insulation_class, max_temperature, Insulation,
    AMPACITY_PVC, AMPACITY_XLPE, MAX_TABULATED,
};
use cable_sizing::derating::{get_grouping_factor, parse_system, System};
use cable_sizing::diameter::{
    diameter_for, get_cable_outer_diameter, parse_cores, parse_family, CableFamily, Cores,
};
use cable_sizing::geometry::{calculate_cable_area, square_millimetres, MAX_CIRCULAR};
use cable_sizing::rounding::rounded;
use cable_sizing::methods::{find_method, get_install_method_description, METHOD_CODES};
use cable_sizing::sizes::{find_size, NOMINAL_TENTHS, SIZE_CODES};

#[test]
fn insulation_follows_the_cable_type() {
    for code in ["HFIX", "CV", "TFR-CV", "FR-CV", "TFR-8"] {
        assert_eq!(get_insulation_type(code), "XLPE");
        assert_eq!(insulation_class(code), Insulation::Xlpe);
    }
    for code in ["VV", "", "hfix", "HFIX ", "CV2", "TFR", "XLPE"] {
        assert_eq!(get_insulation_type(code), "PVC");
        assert_eq!(insulation_class(code), Insulation::Pvc);
    }
    assert_eq!(max_temperature(Insulation::Pvc), 70);
    assert_eq!(max_temperature(Insulation::Xlpe), 90);
}

#[test]
fn tabulated_currents_are_read_by_size_class_and_method() {
    assert_eq!(ampacity_pair("2.5", Insulation::Pvc, "B1"), Some((240, 210)));
    assert_eq!(ampacity_pair("1.5", Insulation::Xlpe, "B1"), Some((230, 200)));
    assert_eq!(ampacity_pair("1.5", Insulation::Pvc, "A1"), Some((145, 135)));
    assert_eq!(ampacity_pair("500", Insulation::Pvc, "F"), Some((9030, 7910)));
    assert_eq!(ampacity_pair("500", Insulation::Xlpe, "F"), Some((11270, 9900)));
    assert_eq!(ampacity_pair("500", Insulation::Xlpe, "E"), Some((10080, 8870)));
    assert_eq!(ampacity_pair("25", Insulation::Pvc, "C"), Some((1120, 960)));
    assert_eq!(ampacity_pair("25", Insulation::Xlpe, "D1"), Some((1230, 990)));
    assert_eq!(ampacity_pair("95", Insulation::Pvc, "D2"), Some((2390, 1930)));
    assert_eq!(ampacity_pair("95", Insulation::Xlpe, "A2"), Some((2200, 1970)));
    assert_eq!(ampacity_pair("16", Insulation::Xlpe, "B2"), Some((910, 820)));
    assert_eq!(ampacity_pair("400", Insulation::Pvc, "E"), Some((6940, 5920)));
}

#[test]
fn currents_outside_the_tables_are_absent() {
    assert_eq!(ampacity_pair("3", Insulation::Pvc, "B1"), None);
    assert_eq!(ampacity_pair("", Insulation::Pvc, "B1"), None);
    assert_eq!(ampacity_pair("2.5", Insulation::Pvc, ""), None);
    assert_eq!(ampacity_pair("2.5", Insulation::Xlpe, "b1"), None);
    assert_eq!(ampacity_pair("2.5", Insulation::Xlpe, "D3"), None);
    assert_eq!(ampacity_pair("630", Insulation::Xlpe, "F"), None);
}

#[test]
fn every_tabulated_current_is_within_bounds_and_grows_with_size() {
    for table in [AMPACITY_PVC, AMPACITY_XLPE] {
        for row in table {
            for (i, (two, three)) in row.iter().enumerate() {
                assert!(0 < *three && three <= two && *two <= MAX_TABULATED);
                if i > 0 {
                    assert!(row[i - 1].0 < *two && row[i - 1].1 < *three);
                }
            }
        }
    }
}

#[test]
fn xlpe_carries_more_than_pvc() {
    for m in 0..9 {
        for s in 0..18 {
            assert!(AMPACITY_PVC[m][s].0 < AMPACITY_XLPE[m][s].0);
            assert!(AMPACITY_PVC[m][s].1 < AMPACITY_XLPE[m][s].1);
        }
    }
}

#[test]
fn size_and_method_codes_are_found_at_their_places() {
    for (i, code) in SIZE_CODES.iter().enumerate() {
        assert_eq!(find_size(code), Some(i));
    }
    for (i, code) in METHOD_CODES.iter().enumerate() {
        assert_eq!(find_method(code), Some(i));
    }
    assert_eq!(find_size("2.50"), None);
    assert_eq!(find_size("1,5"), None);
    assert_eq!(find_size(" 4"), None);
    assert_eq!(find_method("a1"), None);
    assert_eq!(find_method("B"), None);
}

#[test]
fn size_codes_read_as_their_nominal_cross_sections() {
    for (code, tenths) in SIZE_CODES.iter().zip(NOMINAL_TENTHS) {
        let read: f64 = code.parse().unwrap();
        assert_eq!((read * 10.0).round() as u32, tenths);
    }
}

#[test]
fn measured_diameters_are_read_as_they_stand() {
    assert_eq!(get_cable_outer_diameter("HFIX", "1.5", "1C"), Some(3300));
    assert_eq!(get_cable_outer_diameter("HFIX", "300", "1C"), Some(32_000));
    assert_eq!(get_cable_outer_diameter("TFR-CV", "1.5", "1C"), Some(6300));
    assert_eq!(get_cable_outer_diameter("TFR-CV", "500", "1C"), Some(37_000));
    assert_eq!(get_cable_outer_diameter("TFR-CV", "300", "2C"), Some(75_000));
    assert_eq!(get_cable_outer_diameter("CV", "10", "1C"), Some(9000));
    assert_eq!(get_cable_outer_diameter("CV", "10", "2C"), Some(17_000));
    assert_eq!(get_cable_outer_diameter("FR-CV", "25", "1C"), Some(12_600));
    assert_eq!(get_cable_outer_diameter("TFR-8", "25", "1C"), Some(12_200));
}

#[test]
fn diameters_for_three_and_four_cores_are_scaled() {
    // from the two-core table, by 1.15 and 1.25
    assert_eq!(get_cable_outer_diameter("TFR-CV", "16", "3C"), Some(24_150));
    assert_eq!(get_cable_outer_diameter("TFR-CV", "16", "4C"), Some(26_250));
    assert_eq!(get_cable_outer_diameter("TFR-CV", "300", "4C"), Some(93_750));
    assert_eq!(get_cable_outer_diameter("CV", "1.5", "3C"), Some(12_075));
    assert_eq!(get_cable_outer_diameter("CV", "1.5", "4C"), Some(13_125));
    // from the one-core table, by 1.65, 1.9 and 2.1
    assert_eq!(get_cable_outer_diameter("FR-CV", "1.5", "2C"), Some(11_220));
    assert_eq!(get_cable_outer_diameter("FR-CV", "1.5", "3C"), Some(12_920));
    assert_eq!(get_cable_outer_diameter("FR-CV", "1.5", "4C"), Some(14_280));
    assert_eq!(get_cable_outer_diameter("FR-CV", "500", "4C"), Some(78_960));
    assert_eq!(get_cable_outer_diameter("TFR-8", "300", "2C"), Some(49_830));
    assert_eq!(get_cable_outer_diameter("TFR-8", "300", "3C"), Some(57_380));
    assert_eq!(get_cable_outer_diameter("TFR-8", "300", "4C"), Some(63_420));
}

#[test]
fn cables_that_are_not_made_have_no_diameter() {
    for cores in ["2C", "3C", "4C", "", "1c", "5C"] {
        assert_eq!(get_cable_outer_diameter("HFIX", "2.5", cores), None);
    }
    assert_eq!(get_cable_outer_diameter("HFIX", "400", "1C"), None);
    assert_eq!(get_cable_outer_diameter("TFR-CV", "400", "2C"), None);
    assert_eq!(get_cable_outer_diameter("TFR-CV", "500", "4C"), None);
    assert_eq!(get_cable_outer_diameter("CV", "400", "3C"), None);
    assert_eq!(get_cable_outer_diameter("TFR-8", "400", "1C"), None);
    assert_eq!(get_cable_outer_diameter("TFR-8", "500", "2C"), None);
    assert_eq!(get_cable_outer_diameter("VV", "2.5", "1C"), None);
    assert_eq!(get_cable_outer_diameter("", "2.5", "1C"), None);
    assert_eq!(get_cable_outer_diameter("CV", "2", "1C"), None);
    assert_eq!(get_cable_outer_diameter("CV", "", "1C"), None);
    assert_eq!(get_cable_outer_diameter("CV", "2.5", "6C"), None);
}

#[test]
fn codes_are_read_into_families_cores_and_systems() {
    assert_eq!(parse_family("HFIX"), Some(CableFamily::Hfix));
    assert_eq!(parse_family("TFR-CV"), Some(CableFamily::TfrCv));
    assert_eq!(parse_family("CV"), Some(CableFamily::Cv));
    assert_eq!(parse_family("FR-CV"), Some(CableFamily::FrCv));
    assert_eq!(parse_family("TFR-8"), Some(CableFamily::Tfr8));
    assert_eq!(parse_family("TFR8"), None);
    assert_eq!(parse_cores("1C"), Some(Cores::One));
    assert_eq!(parse_cores("2C"), Some(Cores::Two));
    assert_eq!(parse_cores("3C"), Some(Cores::Three));
    assert_eq!(parse_cores("4C"), Some(Cores::Four));
    assert_eq!(parse_cores("C4"), None);
    assert_eq!(parse_system("1Φ"), System::SinglePhase);
    assert_eq!(parse_system("3Φ"), System::ThreePhase);
    assert_eq!(parse_system("2Φ"), System::Other);
    assert_eq!(parse_system("1φ"), System::Other);
    assert_eq!(parse_system(""), System::Other);
}

#[test]
fn diameter_by_family_and_place_agrees_with_the_codes() {
    assert_eq!(diameter_for(CableFamily::Cv, Cores::Two, 4), Some(17_000));
    assert_eq!(diameter_for(CableFamily::Cv, Cores::Two, 15), Some(74_000));
    assert_eq!(diameter_for(CableFamily::Cv, Cores::Two, 16), None);
    assert_eq!(diameter_for(CableFamily::Cv, Cores::One, 17), Some(36_000));
    assert_eq!(diameter_for(CableFamily::Cv, Cores::One, 18), None);
    assert_eq!(diameter_for(CableFamily::Hfix, Cores::Three, 0), None);
    assert_eq!(diameter_for(CableFamily::Cv, Cores::One, usize::MAX), None);
}

#[test]
fn a_round_cable_takes_up_its_diameter_squared() {
    assert_eq!(calculate_cable_area(0), 0);
    assert_eq!(calculate_cable_area(1), 1);
    assert_eq!(calculate_cable_area(3300), 10_890_000);
    assert_eq!(calculate_cable_area(93_750), 8_789_062_500);
    assert_eq!(calculate_cable_area(u32::MAX), 18_446_744_065_119_617_025);
}

#[test]
fn areas_are_given_out_in_hundredths_of_a_square_millimetre() {
    // a disc 4 mm across measures 4 pi = 12.566... square millimetres
    assert_eq!(square_millimetres(calculate_cable_area(4000) as u128), 1257);
    assert_eq!(square_millimetres(0), 0);
    assert_eq!(square_millimetres(1), 0);
    // half a hundredth is reached between 6366 and 6367 units
    assert_eq!(square_millimetres(6366), 0);
    assert_eq!(square_millimetres(6367), 1);
    assert_eq!(square_millimetres(108_900_000), 8553);
    assert_eq!(square_millimetres(1_776_707_500), 139_542);
    assert_eq!(square_millimetres(37_748_735_991_534_937_500), 2_964_778_791_832_669);
    assert_eq!(square_millimetres(MAX_CIRCULAR), 78_539_816_339_744_831);
    for units in [0u128, 5, 6367, 250_000, 108_900_000, 1_776_707_500, 351_562_500_000] {
        let float = units as f64 * std::f64::consts::PI / 4.0 / 1.0e6;
        assert_eq!(square_millimetres(units), (float * 100.0).round() as u128);
    }
}

#[test]
fn fractions_round_to_the_nearest_whole_with_halves_up() {
    assert_eq!(rounded(0, 1), 0);
    assert_eq!(rounded(7, 1), 7);
    assert_eq!(rounded(1, 2), 1);
    assert_eq!(rounded(1, 3), 0);
    assert_eq!(rounded(2, 3), 1);
    assert_eq!(rounded(49, 100), 0);
    assert_eq!(rounded(50, 100), 1);
    assert_eq!(rounded(149, 100), 1);
    assert_eq!(rounded(150, 100), 2);
    assert_eq!(rounded(u128::MAX, 1), u128::MAX);
    assert_eq!(rounded(u128::MAX, 2), 1 << 127);
    assert_eq!(rounded(u128::MAX, u128::MAX), 1);
    assert_eq!(rounded(u128::MAX - 1, u128::MAX), 1);
    assert_eq!(rounded(u128::MAX / 2, u128::MAX), 0);
    assert_eq!(rounded(u128::MAX / 2 + 1, u128::MAX), 1);
}

#[test]
fn grouping_factor_steps_down_with_the_circuits() {
    let expected = [
        (0, 100),
        (1, 100),
        (2, 80),
        (3, 70),
        (4, 65),
        (5, 60),
        (6, 57),
        (7, 54),
        (8, 52),
        (9, 50),
        (10, 45),
        (11, 45),
        (12, 45),
        (13, 41),
        (14, 41),
        (16, 41),
        (17, 38),
        (20, 38),
        (21, 38),
        (1000, 38),
        (u32::MAX, 38),
    ];
    for (circuits, factor) in expected {
        assert_eq!(get_grouping_factor(circuits), factor);
    }
    for circuits in 0..64 {
        assert!(get_grouping_factor(circuits + 1) <= get_grouping_factor(circuits));
    }
}

#[test]
fn methods_are_described_in_words() {
    assert_eq!(get_install_method_description("A1"), "단열벽 속 전선관 (절연전선/단심 케이블)");
    assert_eq!(get_install_method_description("A2"), "단열벽 속 전선관 (다심 케이블)");
    assert_eq!(get_install_method_description("B1"), "벽면 고정 전선관 (절연전선/단심 케이블)");
    assert_eq!(get_install_method_description("B2"), "벽면 고정 전선관 (다심 케이블)");
    assert_eq!(get_install_method_description("C"), "벽면/천정 직접 고정 (공기 중)");
    assert_eq!(get_install_method_description("D1"), "지중 매설 덕트");
    assert_eq!(get_install_method_description("D2"), "지중 매설 직매");
    assert_eq!(get_install_method_description("E"), "케이블 트레이 (천공형, 단심)");
    assert_eq!(get_install_method_description("F"), "케이블 트레이 (천공형, 다심)");
    assert_eq!(get_install_method_description("G"), "기타");
    assert_eq!(get_install_method_description(""), "기타");
}
