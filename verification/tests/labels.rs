use fof::image_data_wrapper::DatasetType;
use fof::labeling::{
    autocomplete, build_split_filename, class_of_label, extract_numbers, first_of_runs, label_for_dataset,
    level_of_label, longest_common_prefix, numbers_of_runs, restore_file_name, LabelRathaus,
};
use fof::prefixes::{check_unique_prefixes, PrefixConflict};
use fof::text::{contains, decimal_string, find, parse_i32, parse_usize, signed_decimal_string, starts_with};

fn strings(items: &[&str]) -> Vec<String> {
    items.iter().map(|s| s.to_string()).collect()
}

#[test]
fn town_hall_levels() {
    assert_eq!(LabelRathaus::Gemischt.get_level(), "");
    assert_eq!(LabelRathaus::Rh1.get_level(), "1");
    assert_eq!(LabelRathaus::Rh9.get_level(), "9");
    assert_eq!(LabelRathaus::Rh17.get_level(), "17");
    assert_eq!(LabelRathaus::Gemischt.to_string(), "Gemischt");
    assert_eq!(LabelRathaus::Rh10.to_string(), "RH10");
    let all = LabelRathaus::all_variants();
    assert_eq!(all.len(), 18);
    assert_eq!(all[0], LabelRathaus::Gemischt);
    assert_eq!(all[1], LabelRathaus::Rh1);
    assert_eq!(all[17], LabelRathaus::Rh17);
    for (index, label) in all.iter().enumerate().skip(1) {
        assert_eq!(label.get_level(), index.to_string());
        assert_eq!(label.to_string(), format!("RH{}", index));
    }
}

#[test]
fn longest_common_prefix_of_labels() {
    assert_eq!(longest_common_prefix(&strings(&[])), "");
    assert_eq!(longest_common_prefix(&strings(&["kanone"])), "kanone");
    assert_eq!(longest_common_prefix(&strings(&["kanone", "kanu", "kann"])), "kan");
    assert_eq!(longest_common_prefix(&strings(&["abc", "abcd", "ab"])), "ab");
    assert_eq!(longest_common_prefix(&strings(&["abc", "xbc"])), "");
    assert_eq!(longest_common_prefix(&strings(&["abc", ""])), "");
    assert_eq!(longest_common_prefix(&strings(&["same", "same", "same"])), "same");
    assert_eq!(longest_common_prefix(&strings(&["bogenschützenturm", "bogenschütze"])), "bogenschütze");
    assert_eq!(longest_common_prefix(&strings(&["fegerO", "fegerOR", "fegerU"])), "feger");
}

#[test]
fn numbers_in_labels() {
    assert_eq!(extract_numbers("kanone12"), vec![12]);
    assert_eq!(extract_numbers("a1b22c333"), vec![1, 22, 333]);
    assert_eq!(extract_numbers("none"), Vec::<i32>::new());
    assert_eq!(extract_numbers(""), Vec::<i32>::new());
    assert_eq!(extract_numbers("-5 and 007"), vec![5, 7]);
    assert_eq!(extract_numbers("2147483647 2147483648 3"), vec![2147483647, 3]);
    assert_eq!(extract_numbers("99999999999999999999"), Vec::<i32>::new());
}

#[test]
fn digits_of_other_scripts_are_runs_but_no_numbers() {
    // Arabic-Indic digits form a run of digits, which does not read as a number.
    assert_eq!(extract_numbers("١٢٣ 4"), vec![4]);
}

#[test]
fn numbers_of_given_runs() {
    assert_eq!(numbers_of_runs(&strings(&["12", "x", "+3", "-4", "", "2147483648", "-2147483648"])), vec![
        12,
        3,
        -4,
        -2147483648
    ]);
}

#[test]
fn restore_file_name_cuts_at_the_first_mark() {
    assert_eq!(restore_file_name("th17GELG123.png", "png"), Some("th17.png".to_string()));
    assert_eq!(restore_file_name("aGELGbGELGc.png", "png"), Some("a.png".to_string()));
    assert_eq!(restore_file_name("th17.png", "png"), None);
    assert_eq!(restore_file_name("xGELG1.png.png", "png"), Some("x.png".to_string()));
    assert_eq!(restore_file_name("x.pngGELG.png", "png"), Some("x.png.png".to_string()));
    assert_eq!(restore_file_name("xGELG", ""), Some("x.".to_string()));
    assert_eq!(restore_file_name("x.GELG", "GELG"), None);
    assert_eq!(restore_file_name("gelg.png", "png"), None);
}

#[test]
fn split_folder_name() {
    assert_eq!(build_split_filename("base"), "base_split");
    assert_eq!(build_split_filename(""), "_split");
}

#[test]
fn prefixes_that_several_names_share() {
    let names = strings(&["Kanone", "kanu", "Tesla", "Mauer", "KANTE", "tesla2", "x"]);
    let found = check_unique_prefixes(&names, 3);
    assert_eq!(
        found,
        vec![
            PrefixConflict { prefix: "kan".to_string(), names: strings(&["Kanone", "kanu", "KANTE"]) },
            PrefixConflict { prefix: "tes".to_string(), names: strings(&["Tesla", "tesla2"]) },
        ]
    );
}

#[test]
fn prefixes_that_tell_all_names_apart() {
    assert_eq!(check_unique_prefixes(&strings(&["abc", "abd", "b"]), 3), vec![]);
    assert_eq!(check_unique_prefixes(&strings(&[]), 3), vec![]);
    assert_eq!(check_unique_prefixes(&strings(&["one"]), 0), vec![]);
}

#[test]
fn prefixes_shorter_than_asked_for() {
    let found = check_unique_prefixes(&strings(&["ab", "AB", "abc"]), 5);
    assert_eq!(found, vec![PrefixConflict { prefix: "ab".to_string(), names: strings(&["ab", "AB"]) }]);
    let all = check_unique_prefixes(&strings(&["x", "y"]), 0);
    assert_eq!(all, vec![PrefixConflict { prefix: "".to_string(), names: strings(&["x", "y"]) }]);
}

#[test]
fn prefixes_are_compared_in_lower_case() {
    let found = check_unique_prefixes(&strings(&["ÄRGER", "ärgerlich"]), 2);
    assert_eq!(found, vec![PrefixConflict { prefix: "är".to_string(), names: strings(&["ÄRGER", "ärgerlich"]) }]);
}

#[test]
fn text_is_searched_by_characters() {
    assert_eq!(find("bogenschützenturm", "turm"), Some(13));
    assert_eq!(find("abcabc", "bc"), Some(1));
    assert_eq!(find("abc", ""), Some(0));
    assert_eq!(find("", ""), Some(0));
    assert_eq!(find("abc", "abcd"), None);
    assert_eq!(find("abc", "x"), None);
    assert!(contains("xmauery", "mauer"));
    assert!(!contains("maue", "mauer"));
    assert!(starts_with("dataset_level/x", "dataset_level/"));
    assert!(!starts_with("dataset", "dataset_level/"));
    assert!(starts_with("abc", ""));
    assert!(!starts_with("xabc", "abc"));
}

#[test]
fn numbers_are_read_as_the_standard_library_reads_them() {
    let cases = [
        "", "+", "-", "0", "007", "+5", "-5", "+-5", "12a", " 12", "12 ", "1_000", "2147483647", "2147483648",
        "-2147483648", "-2147483649", "18446744073709551615", "18446744073709551616", "99999999999999999999999",
        "٣", "--1", "+0", "-0",
    ];
    for case in cases {
        assert_eq!(parse_usize(case), case.parse::<usize>().ok(), "usize of {:?}", case);
        assert_eq!(parse_i32(case), case.parse::<i32>().ok(), "i32 of {:?}", case);
    }
}

#[test]
fn numbers_are_written_in_decimal() {
    assert_eq!(decimal_string(0), "0");
    assert_eq!(decimal_string(9), "9");
    assert_eq!(decimal_string(10), "10");
    assert_eq!(decimal_string(1203), "1203");
    assert_eq!(decimal_string(u64::MAX as u128), "18446744073709551615");
    assert_eq!(decimal_string(u128::MAX), "340282366920938463463374607431768211455");
    assert_eq!(signed_decimal_string(0), "0");
    assert_eq!(signed_decimal_string(-1), "-1");
    assert_eq!(signed_decimal_string(i32::MAX as i128), "2147483647");
    assert_eq!(signed_decimal_string(i32::MIN as i128), "-2147483648");
}

#[test]
fn labels_are_completed_from_the_class_names() {
    let names = strings(&["kanone", "kanu", "tesla", "mauer", "minenwerfer", "magierturm"]);
    assert_eq!(autocomplete("te", &names), Some("tesla".to_string()));
    assert_eq!(autocomplete("k", &names), Some("kan".to_string()));
    assert_eq!(autocomplete("kan", &names), None);
    assert_eq!(autocomplete("kano", &names), Some("kanone".to_string()));
    assert_eq!(autocomplete("m", &names), None);
    assert_eq!(autocomplete("ma", &names), None);
    assert_eq!(autocomplete("mag", &names), Some("magierturm".to_string()));
    assert_eq!(autocomplete("x", &names), None);
    // A name that was typed in full completes to nothing, but to a longer name.
    assert_eq!(autocomplete("tesla", &names), None);
    assert_eq!(autocomplete("kanone", &strings(&["kanone", "kanone2"])), Some("kanone2".to_string()));
    assert_eq!(autocomplete("", &strings(&["ab", "ac"])), Some("a".to_string()));
    assert_eq!(autocomplete("", &strings(&[])), None);
    assert_eq!(autocomplete("a", &strings(&["ab", "ab"])), Some("ab".to_string()));
}

#[test]
fn stored_labels_fall_into_class_and_level() {
    assert_eq!(class_of_label("kanone15"), Some("kanone".to_string()));
    assert_eq!(level_of_label("kanone15"), Some("15".to_string()));
    assert_eq!(class_of_label("15"), None);
    assert_eq!(level_of_label("kanone"), None);
    assert_eq!(class_of_label(""), None);
    assert_eq!(level_of_label(""), None);
    assert_eq!(class_of_label("12ab34cd"), Some("ab".to_string()));
    assert_eq!(level_of_label("ab34cd56"), Some("34".to_string()));
    assert_eq!(class_of_label("bauhütte1"), Some("bauhütte".to_string()));
    assert_eq!(label_for_dataset("mauer17", DatasetType::Buildings), Some("mauer".to_string()));
    assert_eq!(label_for_dataset("mauer17", DatasetType::Level), Some("17".to_string()));
    assert_eq!(label_for_dataset("mauer", DatasetType::Level), None);
    assert_eq!(first_of_runs(strings(&["a", "b"])), Some("a".to_string()));
    assert_eq!(first_of_runs(strings(&[])), None);
}

#[test]
fn data_sets_and_their_directories() {
    assert_eq!(DatasetType::all(), vec![DatasetType::Buildings, DatasetType::Level]);
    assert_eq!(DatasetType::Buildings.directory(), "dataset_buildings");
    assert_eq!(DatasetType::Level.directory(), "dataset_level");
}
