//! Helpers for labelling pictures: the town hall levels that a picture can be
//! labelled for, numbers inside labels, what several labels have in common, and
//! the names of the files that labelled pictures are stored under.

use crate::image_data_wrapper::DatasetType;
use crate::text::{
    chars_of, decimal_string, decimal_text, find_chars, first_occurrence, is_substring, matches_at, parse_i32,
    parsed_signed, signed_decimal_string, signed_decimal_text, starts_with,
};
use vstd::prelude::*;

verus! {

/// The town hall level that a picture is labelled for; `Gemischt` stands for
/// pictures of mixed levels.
#[derive(Clone, Copy, Debug, PartialEq, Eq, Structural)]
pub enum LabelRathaus {
    Gemischt,
    Rh1,
    Rh2,
    Rh3,
    Rh4,
    Rh5,
    Rh6,
    Rh7,
    Rh8,
    Rh9,
    Rh10,
    Rh11,
    Rh12,
    Rh13,
    Rh14,
    Rh15,
    Rh16,
    Rh17,
}

/// The level's number as text; empty for mixed levels.
pub open spec fn level_text(label: LabelRathaus) -> Seq<char> {
    match label {
        LabelRathaus::Gemischt => ""@,
        LabelRathaus::Rh1 => "1"@,
        LabelRathaus::Rh2 => "2"@,
        LabelRathaus::Rh3 => "3"@,
        LabelRathaus::Rh4 => "4"@,
        LabelRathaus::Rh5 => "5"@,
        LabelRathaus::Rh6 => "6"@,
        LabelRathaus::Rh7 => "7"@,
        LabelRathaus::Rh8 => "8"@,
        LabelRathaus::Rh9 => "9"@,
        LabelRathaus::Rh10 => "10"@,
        LabelRathaus::Rh11 => "11"@,
        LabelRathaus::Rh12 => "12"@,
        LabelRathaus::Rh13 => "13"@,
        LabelRathaus::Rh14 => "14"@,
        LabelRathaus::Rh15 => "15"@,
        LabelRathaus::Rh16 => "16"@,
        LabelRathaus::Rh17 => "17"@,
    }
}

/// The name under which a level is shown.
pub open spec fn label_text(label: LabelRathaus) -> Seq<char> {
    match label {
        LabelRathaus::Gemischt => "Gemischt"@,
        LabelRathaus::Rh1 => "RH1"@,
        LabelRathaus::Rh2 => "RH2"@,
        LabelRathaus::Rh3 => "RH3"@,
        LabelRathaus::Rh4 => "RH4"@,
        LabelRathaus::Rh5 => "RH5"@,
        LabelRathaus::Rh6 => "RH6"@,
        LabelRathaus::Rh7 => "RH7"@,
        LabelRathaus::Rh8 => "RH8"@,
        LabelRathaus::Rh9 => "RH9"@,
        LabelRathaus::Rh10 => "RH10"@,
        LabelRathaus::Rh11 => "RH11"@,
        LabelRathaus::Rh12 => "RH12"@,
        LabelRathaus::Rh13 => "RH13"@,
        LabelRathaus::Rh14 => "RH14"@,
        LabelRathaus::Rh15 => "RH15"@,
        LabelRathaus::Rh16 => "RH16"@,
        LabelRathaus::Rh17 => "RH17"@,
    }
}

/// All levels: the mixed one first, then from the lowest level up.
pub open spec fn all_labels() -> Seq<LabelRathaus> {
    seq![
        LabelRathaus::Gemischt,
        LabelRathaus::Rh1,
        LabelRathaus::Rh2,
        LabelRathaus::Rh3,
        LabelRathaus::Rh4,
        LabelRathaus::Rh5,
        LabelRathaus::Rh6,
        LabelRathaus::Rh7,
        LabelRathaus::Rh8,
        LabelRathaus::Rh9,
        LabelRathaus::Rh10,
        LabelRathaus::Rh11,
        LabelRathaus::Rh12,
        LabelRathaus::Rh13,
        LabelRathaus::Rh14,
        LabelRathaus::Rh15,
        LabelRathaus::Rh16,
        LabelRathaus::Rh17,
    ]
}

impl LabelRathaus {
    /// The level's number as text; empty for mixed levels.
    pub fn get_level(&self) -> (level: &'static str)
        ensures
            level@ == level_text(*self),
    {
        match self {
            LabelRathaus::Gemischt => "",
            LabelRathaus::Rh1 => "1",
            LabelRathaus::Rh2 => "2",
            LabelRathaus::Rh3 => "3",
            LabelRathaus::Rh4 => "4",
            LabelRathaus::Rh5 => "5",
            LabelRathaus::Rh6 => "6",
            LabelRathaus::Rh7 => "7",
            LabelRathaus::Rh8 => "8",
            LabelRathaus::Rh9 => "9",
            LabelRathaus::Rh10 => "10",
            LabelRathaus::Rh11 => "11",
            LabelRathaus::Rh12 => "12",
            LabelRathaus::Rh13 => "13",
            LabelRathaus::Rh14 => "14",
            LabelRathaus::Rh15 => "15",
            LabelRathaus::Rh16 => "16",
            LabelRathaus::Rh17 => "17",
        }
    }

    /// All levels: the mixed one first, then from the lowest level up.
    pub fn all_variants() -> (labels: Vec<LabelRathaus>)
        ensures
            labels@ == all_labels(),
    {
        let mut labels: Vec<LabelRathaus> = Vec::new();
        labels.push(LabelRathaus::Gemischt);
        labels.push(LabelRathaus::Rh1);
        labels.push(LabelRathaus::Rh2);
        labels.push(LabelRathaus::Rh3);
        labels.push(LabelRathaus::Rh4);
        labels.push(LabelRathaus::Rh5);
        labels.push(LabelRathaus::Rh6);
        labels.push(LabelRathaus::Rh7);
        labels.push(LabelRathaus::Rh8);
        labels.push(LabelRathaus::Rh9);
        labels.push(LabelRathaus::Rh10);
        labels.push(LabelRathaus::Rh11);
        labels.push(LabelRathaus::Rh12);
        labels.push(LabelRathaus::Rh13);
        labels.push(LabelRathaus::Rh14);
        labels.push(LabelRathaus::Rh15);
        labels.push(LabelRathaus::Rh16);
        labels.push(LabelRathaus::Rh17);
        assert(labels@ =~= all_labels());
        labels
    }

    /// The name under which the level is shown.
    pub fn to_string(&self) -> (name: &'static str)
        ensures
            name@ == label_text(*self),
    {
        match self {
            LabelRathaus::Gemischt => "Gemischt",
            LabelRathaus::Rh1 => "RH1",
            LabelRathaus::Rh2 => "RH2",
            LabelRathaus::Rh3 => "RH3",
            LabelRathaus::Rh4 => "RH4",
            LabelRathaus::Rh5 => "RH5",
            LabelRathaus::Rh6 => "RH6",
            LabelRathaus::Rh7 => "RH7",
            LabelRathaus::Rh8 => "RH8",
            LabelRathaus::Rh9 => "RH9",
            LabelRathaus::Rh10 => "RH10",
            LabelRathaus::Rh11 => "RH11",
            LabelRathaus::Rh12 => "RH12",
            LabelRathaus::Rh13 => "RH13",
            LabelRathaus::Rh14 => "RH14",
            LabelRathaus::Rh15 => "RH15",
            LabelRathaus::Rh16 => "RH16",
            LabelRathaus::Rh17 => "RH17",
        }
    }
}

/// The texts of a list of strings.
pub open spec fn texts_of(strings: Seq<String>) -> Seq<Seq<char>> {
    strings.map_values(|s: String| s@)
}

/// Whether every one of the texts begins with `prefix`.
pub open spec fn is_common_prefix(prefix: Seq<char>, texts: Seq<Seq<char>>) -> bool {
    forall|i: int| 0 <= i < texts.len() ==> prefix.is_prefix_of(#[trigger] texts[i])
}

/// Whether `prefix` is the longest text that every one of the texts begins with.
pub open spec fn is_longest_common_prefix(prefix: Seq<char>, texts: Seq<Seq<char>>) -> bool {
    &&& is_common_prefix(prefix, texts)
    &&& forall|other: Seq<char>| #[trigger] is_common_prefix(other, texts) ==> other.len() <= prefix.len()
}

/// The longest text that all the strings begin with, compared character by
/// character; empty where there are no strings.
pub fn longest_common_prefix(strings: &Vec<String>) -> (prefix: String)
    ensures
        strings@.len() == 0 ==> prefix@.len() == 0,
        strings@.len() > 0 ==> is_longest_common_prefix(prefix@, texts_of(strings@)),
{
    if strings.len() == 0 {
        return String::new();
    }
    let ghost texts = texts_of(strings@);
    let first = chars_of(strings[0].as_str());
    let mut length: usize = first.len();
    let ghost mut witness: int = 0;
    let mut j: usize = 1;
    proof {
        assert(texts[0] == first@);
        assert(first@.take(length as int) =~= first@);
        assert(first@.subrange(0, first@.len() as int) =~= first@);
    }
    while j < strings.len()
        invariant
            texts == texts_of(strings@),
            strings@.len() > 0,
            first@ == texts[0],
            1 <= j <= strings.len(),
            0 <= length <= first.len(),
            forall|i: int| 0 <= i < j ==> first@.take(length as int).is_prefix_of(#[trigger] texts[i]),
            length < first.len() ==> 0 <= witness < j && !first@.take(length + 1).is_prefix_of(texts[witness]),
        decreases strings.len() - j,
    {
        let other = chars_of(strings[j].as_str());
        assert(other@ == texts[j as int]);
        let mut k: usize = 0;
        while k < length && k < other.len() && first[k] == other[k]
            invariant
                0 <= k <= length <= first.len(),
                k <= other.len(),
                forall|i: int| 0 <= i < k ==> first@[i] == other@[i],
            decreases length - k,
        {
            k = k + 1;
        }
        proof {
            assert(first@.take(k as int) =~= other@.subrange(0, k as int));
            assert forall|i: int| 0 <= i < j implies first@.take(k as int).is_prefix_of(#[trigger] texts[i]) by {
                let longer = first@.take(length as int);
                assert(longer.is_prefix_of(texts[i]));
                assert(first@.take(k as int) =~= texts[i].subrange(0, k as int)) by {
                    assert(longer =~= texts[i].subrange(0, length as int));
                    let head = first@.take(k as int);
                    let tail = texts[i].subrange(0, k as int);
                    assert forall|x: int| 0 <= x < k implies #[trigger] head[x] == tail[x] by {
                        assert(longer[x] == texts[i].subrange(0, length as int)[x]);
                    }
                }
            }
            if k < length {
                witness = j as int;
                if k < other.len() {
                    assert(first@.take(k + 1)[k as int] != other@.subrange(0, k + 1)[k as int]);
                }
            }
        }
        length = k;
        j = j + 1;
    }
    let prefix = String::from_str(strings[0].as_str().substring_char(0, length));
    proof {
        assert(prefix@ =~= first@.take(length as int));
        assert forall|other: Seq<char>| #[trigger] is_common_prefix(other, texts) implies other.len()
            <= prefix@.len() by {
            if other.len() > length {
                assert(other.is_prefix_of(texts[0]));
                assert(other =~= first@.subrange(0, other.len() as int));
                if length < first.len() {
                    assert(other.is_prefix_of(texts[witness]));
                    assert(first@.take(length + 1) =~= texts[witness].subrange(0, length + 1)) by {
                        assert(other =~= texts[witness].subrange(0, other.len() as int));
                        let head = first@.take(length + 1);
                        let tail = texts[witness].subrange(0, length + 1);
                        assert forall|x: int| 0 <= x < length + 1 implies #[trigger] head[x] == tail[x] by {
                            assert(other[x] == first@.subrange(0, other.len() as int)[x]);
                            assert(other[x] == texts[witness].subrange(0, other.len() as int)[x]);
                        }
                    }
                }
            }
        }
    }
    prefix
}

/// The runs of digits in a text, in their order: each run as long as it can be.
/// A digit is any character that Unicode classes as a decimal digit.
pub uninterp spec fn digit_runs(s: Seq<char>) -> Seq<Seq<char>>;

/// Finds the runs of digits with the regular expression `\d+` of the `regex`
/// crate: `Regex::find_iter` yields the matches one after another, without
/// overlap, and `Match::as_str` gives the text of each. The contract gives the
/// list of these texts its name, `digit_runs`, and claims nothing else.
#[verifier::external_body]
fn find_digit_runs(s: &str) -> (runs: Vec<String>)
    ensures
        texts_of(runs@) == digit_runs(s@),
{
    let pattern = regex::Regex::new(r"\d+").unwrap();
    let mut runs: Vec<String> = Vec::new();
    for found in pattern.find_iter(s) {
        runs.push(found.as_str().to_string());
    }
    runs
}

/// The numbers that the runs stand for, in the order of the runs. A run that is
/// no number that fits into 32 bits with sign is left out.
pub open spec fn numbers_of(runs: Seq<Seq<char>>) -> Seq<i32>
    decreases runs.len(),
{
    if runs.len() == 0 {
        Seq::empty()
    } else {
        let earlier = numbers_of(runs.drop_last());
        match parsed_signed(runs.last(), i32::MAX as nat) {
            Some(value) => earlier.push(value as i32),
            None => earlier,
        }
    }
}

/// The numbers that the runs stand for, in the order of the runs. A run that is
/// no number that fits into 32 bits with sign is left out.
pub fn numbers_of_runs(runs: &Vec<String>) -> (numbers: Vec<i32>)
    ensures
        numbers@ == numbers_of(texts_of(runs@)),
{
    let ghost texts = texts_of(runs@);
    let mut numbers: Vec<i32> = Vec::new();
    let mut i: usize = 0;
    assert(texts.take(0) =~= Seq::<Seq<char>>::empty());
    while i < runs.len()
        invariant
            texts == texts_of(runs@),
            0 <= i <= runs.len(),
            numbers@ == numbers_of(texts.take(i as int)),
        decreases runs.len() - i,
    {
        proof {
            assert(texts.take(i + 1).drop_last() =~= texts.take(i as int));
            assert(texts.take(i + 1).last() == runs@[i as int]@);
        }
        match parse_i32(runs[i].as_str()) {
            Some(value) => {
                numbers.push(value);
            },
            None => {},
        }
        i = i + 1;
    }
    assert(texts.take(runs.len() as int) =~= texts);
    numbers
}

/// The numbers written in a label, in their order: each run of digits that
/// stands for a number that fits into 32 bits.
pub fn extract_numbers(s: &str) -> (numbers: Vec<i32>)
    ensures
        numbers@ == numbers_of(digit_runs(s@)),
{
    let runs = find_digit_runs(s);
    numbers_of_runs(&runs)
}

/// The mark that separates the name of a picture from what was appended to it
/// when the picture was stored as labelled.
pub open spec fn label_mark() -> Seq<char> {
    "GELG"@
}

/// The text without the repetitions of `ending` at its end.
pub open spec fn trimmed_end(s: Seq<char>, ending: Seq<char>) -> Seq<char>
    decreases s.len(),
{
    if ending.len() > 0 && ending.is_suffix_of(s) {
        trimmed_end(s.take(s.len() - ending.len()), ending)
    } else {
        s
    }
}

/// The name that a picture had before it was stored as labelled, given the stored
/// file's name and that name's ending: what stands before the first label mark
/// in the name without its ending, followed by a dot and the ending. `None`
/// where the name holds no label mark before its ending.
pub open spec fn restored_name(file_name: Seq<char>, extension: Seq<char>) -> Option<Seq<char>> {
    let stem = trimmed_end(file_name, "."@ + extension);
    if is_substring(stem, label_mark()) {
        let at = choose|i: int| first_occurrence(stem, label_mark(), i);
        Some(stem.take(at) + "."@ + extension)
    } else {
        None
    }
}

/// A text has one first occurrence of another at most.
pub proof fn lemma_first_occurrence_unique(hay: Seq<char>, needle: Seq<char>, i: int, j: int)
    requires
        first_occurrence(hay, needle, i),
        first_occurrence(hay, needle, j),
    ensures
        i == j,
{
}

/// The length of a text without the repetitions of `ending` at its end.
fn trim_end(chars: &Vec<char>, ending: &Vec<char>) -> (length: usize)
    ensures
        length <= chars@.len(),
        chars@.take(length as int) == trimmed_end(chars@, ending@),
{
    let mut length: usize = chars.len();
    assert(chars@.take(length as int) =~= chars@);
    if ending.len() == 0 {
        return length;
    }
    while length >= ending.len() && matches_suffix(chars, ending, length)
        invariant
            ending.len() > 0,
            0 <= length <= chars.len(),
            trimmed_end(chars@, ending@) == trimmed_end(chars@.take(length as int), ending@),
        decreases length,
    {
        proof {
            assert(chars@.take(length as int).take(length - ending.len()) =~= chars@.take(length - ending.len()));
        }
        length = length - ending.len();
    }
    length
}

/// Whether the first `length` characters of a text end with `ending`.
fn matches_suffix(chars: &Vec<char>, ending: &Vec<char>, length: usize) -> (found: bool)
    requires
        ending.len() <= length <= chars.len(),
    ensures
        found == ending@.is_suffix_of(chars@.take(length as int)),
{
    let found = matches_at(chars, ending, length - ending.len());
    proof {
        let head = chars@.take(length as int);
        assert(head.subrange(head.len() - ending@.len(), head.len() as int) =~= chars@.subrange(
            length - ending@.len(),
            length as int,
        ));
    }
    found
}

/// The name that a picture had before it was stored as labelled, given the
/// stored file's name and that name's ending.
pub fn restore_file_name(file_name: &str, extension: &str) -> (original: Option<String>)
    ensures
        match original {
            Some(name) => restored_name(file_name@, extension@) == Some(name@),
            None => restored_name(file_name@, extension@) is None,
        },
{
    let name = chars_of(file_name);
    let dotted = String::from_str(".").concat(extension);
    let ending = chars_of(dotted.as_str());
    let stem_length = trim_end(&name, &ending);
    let stem_str = file_name.substring_char(0, stem_length);
    let stem = chars_of(stem_str);
    let mark = chars_of("GELG");
    match find_chars(&stem, &mark) {
        Some(at) => {
            proof {
                let chosen = choose|i: int| first_occurrence(stem@, label_mark(), i);
                lemma_first_occurrence_unique(stem@, label_mark(), at as int, chosen);
            }
            let original = String::from_str(stem_str.substring_char(0, at)).concat(".").concat(extension);
            Some(original)
        },
        None => None,
    }
}

/// The name of the directory that the parts of a picture are stored in: the
/// picture's name without its ending, followed by `_split`.
pub fn build_split_filename(file_stem: &str) -> (name: String)
    ensures
        name@ == file_stem@ + "_split"@,
{
    String::from_str(file_stem).concat("_split")
}


/// What is wrong with the level in a label of a picture of mixed levels.
#[derive(Clone, Copy, Debug, PartialEq, Eq, Structural)]
pub enum LevelWarning {
    /// The label holds more than one number.
    MoreThanOne,
    /// The label holds no number.
    Missing,
    /// The number is no level between 1 and 17.
    OutOfRange,
}

/// What is wrong with the numbers found in a label, if anything: there must be
/// exactly one, and it must lie between 1 and 17.
pub open spec fn level_warning_of(numbers: Seq<i32>) -> Option<LevelWarning> {
    if numbers.len() > 1 {
        Some(LevelWarning::MoreThanOne)
    } else if numbers.len() == 0 {
        Some(LevelWarning::Missing)
    } else if numbers[0] < 1 || numbers[0] > 17 {
        Some(LevelWarning::OutOfRange)
    } else {
        None
    }
}

/// What is wrong with the numbers found in a label, if anything.
pub fn level_warning(numbers: &Vec<i32>) -> (warning: Option<LevelWarning>)
    ensures
        warning == level_warning_of(numbers@),
{
    if numbers.len() > 1 {
        Some(LevelWarning::MoreThanOne)
    } else if numbers.len() == 0 {
        Some(LevelWarning::Missing)
    } else if numbers[0] < 1 || numbers[0] > 17 {
        Some(LevelWarning::OutOfRange)
    } else {
        None
    }
}

/// What is wrong with the level written in a label, if anything.
pub fn check_level_label(label: &str) -> (warning: Option<LevelWarning>)
    ensures
        warning == level_warning_of(numbers_of(digit_runs(label@))),
{
    let numbers = extract_numbers(label);
    level_warning(&numbers)
}

/// The number of a level; `None` for mixed levels.
pub open spec fn level_number(label: LabelRathaus) -> Option<nat> {
    match label {
        LabelRathaus::Gemischt => None,
        LabelRathaus::Rh1 => Some(1),
        LabelRathaus::Rh2 => Some(2),
        LabelRathaus::Rh3 => Some(3),
        LabelRathaus::Rh4 => Some(4),
        LabelRathaus::Rh5 => Some(5),
        LabelRathaus::Rh6 => Some(6),
        LabelRathaus::Rh7 => Some(7),
        LabelRathaus::Rh8 => Some(8),
        LabelRathaus::Rh9 => Some(9),
        LabelRathaus::Rh10 => Some(10),
        LabelRathaus::Rh11 => Some(11),
        LabelRathaus::Rh12 => Some(12),
        LabelRathaus::Rh13 => Some(13),
        LabelRathaus::Rh14 => Some(14),
        LabelRathaus::Rh15 => Some(15),
        LabelRathaus::Rh16 => Some(16),
        LabelRathaus::Rh17 => Some(17),
    }
}

/// The highest level that a building has, for the buildings that are labelled
/// with their level.
pub open spec fn highest_level(label: Seq<char>) -> Option<nat> {
    if label == "bogenschützenturm"@ {
        Some(15)
    } else if label == "minenwerfer"@ {
        Some(17)
    } else if label == "multibogenschützenturm"@ {
        Some(17)
    } else if label == "magierturm"@ {
        Some(17)
    } else if label == "labor"@ {
        Some(17)
    } else if label == "tesla"@ {
        Some(17)
    } else if label == "luftabwehr"@ {
        Some(17)
    } else if label == "querschlägerkanone"@ {
        Some(17)
    } else if label == "xbogenboden"@ {
        Some(17)
    } else if label == "xbogenluft"@ {
        Some(17)
    } else if label == "entwicklungsturmkanone"@ {
        Some(17)
    } else if label == "entwicklungsturmbogenschützenturm"@ {
        Some(17)
    } else if label == "feuerspeier"@ {
        Some(17)
    } else if label == "mauer"@ {
        Some(17)
    } else if label == "bombenturm"@ {
        Some(17)
    } else if label == "goldlager"@ {
        Some(17)
    } else if label == "elexirlager"@ {
        Some(17)
    } else if label == "infernoturmmulti"@ {
        Some(17)
    } else if label == "infernoturmeinzel"@ {
        Some(17)
    } else if label == "giftzauberturm"@ {
        Some(15)
    } else if label == "rathaus"@ {
        Some(17)
    } else if label == "dunkleselexirlager"@ {
        Some(17)
    } else if label == "clanburg"@ {
        Some(17)
    } else if label == "streukatapult"@ {
        Some(17)
    } else if label == "monolyth"@ {
        Some(17)
    } else if label == "wutzauberturm"@ {
        Some(15)
    } else if label == "unsichtbarkeitszauberturm"@ {
        Some(15)
    } else if label == "kanone"@ {
        Some(15)
    } else if label == "adlerartillerie"@ {
        Some(16)
    } else {
        None
    }
}

/// What is appended to the label of a builder's hut at a town hall of
/// level `n`: the hut looks the same up to level 13.
pub open spec fn hut_level(n: nat) -> nat {
    if n <= 13 {
        1
    } else {
        n
    }
}

/// What is appended to the label of a sweeper at a town hall of level `n`: the
/// sweeper looks the same from level 12 on.
pub open spec fn sweeper_level(n: nat) -> nat {
    if n >= 12 {
        11
    } else {
        n
    }
}

/// The label of a builder's hut.
pub open spec fn hut_word() -> Seq<char> {
    "bauhütte"@
}

/// The word that the labels of sweepers begin with.
pub open spec fn sweeper_word() -> Seq<char> {
    "feger"@
}

/// A label with the level that the building shows at a town hall of level `n`.
/// A building that is labelled with its level gets the lower of its highest level
/// and `n`. Then a builder's hut gets its level, and then a sweeper its own.
pub open spec fn with_level(label: Seq<char>, n: nat) -> Seq<char> {
    let first = match highest_level(label) {
        Some(highest) => label + decimal_text(
            if highest <= n {
                highest
            } else {
                n
            },
        ),
        None => label,
    };
    let second = if first == hut_word() {
        first + decimal_text(hut_level(n))
    } else {
        first
    };
    if sweeper_word().is_prefix_of(second) {
        second + decimal_text(sweeper_level(n))
    } else {
        second
    }
}

/// The label as it is stored for a picture that is labelled for a town hall
/// level: with the building's level, as `with_level` says, for a level between 1
/// and 17, and unchanged for mixed levels.
pub open spec fn stored_label(label: Seq<char>, town_hall: LabelRathaus) -> Seq<char> {
    match level_number(town_hall) {
        Some(n) => with_level(label, n),
        None => label,
    }
}

/// Whether two texts are the same.
fn same_text(a: &str, b: &str) -> (same: bool)
    ensures
        same == (a@ == b@),
{
    let left = String::from_str(a);
    let right = String::from_str(b);
    left == right
}

/// The highest level that a building has, for the buildings that are labelled
/// with their level.
fn highest_level_of(label: &str) -> (level: Option<u8>)
    ensures
        match level {
            Some(highest) => highest_level(label@) == Some(highest as nat),
            None => highest_level(label@) is None,
        },
{
    if same_text(label, "bogenschützenturm") {
        Some(15)
    } else if same_text(label, "minenwerfer") {
        Some(17)
    } else if same_text(label, "multibogenschützenturm") {
        Some(17)
    } else if same_text(label, "magierturm") {
        Some(17)
    } else if same_text(label, "labor") {
        Some(17)
    } else if same_text(label, "tesla") {
        Some(17)
    } else if same_text(label, "luftabwehr") {
        Some(17)
    } else if same_text(label, "querschlägerkanone") {
        Some(17)
    } else if same_text(label, "xbogenboden") {
        Some(17)
    } else if same_text(label, "xbogenluft") {
        Some(17)
    } else if same_text(label, "entwicklungsturmkanone") {
        Some(17)
    } else if same_text(label, "entwicklungsturmbogenschützenturm") {
        Some(17)
    } else if same_text(label, "feuerspeier") {
        Some(17)
    } else if same_text(label, "mauer") {
        Some(17)
    } else if same_text(label, "bombenturm") {
        Some(17)
    } else if same_text(label, "goldlager") {
        Some(17)
    } else if same_text(label, "elexirlager") {
        Some(17)
    } else if same_text(label, "infernoturmmulti") {
        Some(17)
    } else if same_text(label, "infernoturmeinzel") {
        Some(17)
    } else if same_text(label, "giftzauberturm") {
        Some(15)
    } else if same_text(label, "rathaus") {
        Some(17)
    } else if same_text(label, "dunkleselexirlager") {
        Some(17)
    } else if same_text(label, "clanburg") {
        Some(17)
    } else if same_text(label, "streukatapult") {
        Some(17)
    } else if same_text(label, "monolyth") {
        Some(17)
    } else if same_text(label, "wutzauberturm") {
        Some(15)
    } else if same_text(label, "unsichtbarkeitszauberturm") {
        Some(15)
    } else if same_text(label, "kanone") {
        Some(15)
    } else if same_text(label, "adlerartillerie") {
        Some(16)
    } else {
        None
    }
}

impl LabelRathaus {
    /// The number of the level; `None` for mixed levels.
    pub fn number(&self) -> (number: Option<u8>)
        ensures
            match number {
                Some(n) => level_number(*self) == Some(n as nat) && 1 <= n <= 17,
                None => level_number(*self) is None,
            },
    {
        match self {
            LabelRathaus::Gemischt => None,
            LabelRathaus::Rh1 => Some(1),
            LabelRathaus::Rh2 => Some(2),
            LabelRathaus::Rh3 => Some(3),
            LabelRathaus::Rh4 => Some(4),
            LabelRathaus::Rh5 => Some(5),
            LabelRathaus::Rh6 => Some(6),
            LabelRathaus::Rh7 => Some(7),
            LabelRathaus::Rh8 => Some(8),
            LabelRathaus::Rh9 => Some(9),
            LabelRathaus::Rh10 => Some(10),
            LabelRathaus::Rh11 => Some(11),
            LabelRathaus::Rh12 => Some(12),
            LabelRathaus::Rh13 => Some(13),
            LabelRathaus::Rh14 => Some(14),
            LabelRathaus::Rh15 => Some(15),
            LabelRathaus::Rh16 => Some(16),
            LabelRathaus::Rh17 => Some(17),
        }
    }
}

/// The label as it is stored for a picture that is labelled for a town hall
/// level.
pub fn label_with_level(label: &str, town_hall: LabelRathaus) -> (stored: String)
    ensures
        stored@ == stored_label(label@, town_hall),
{
    let n: u8 = match town_hall.number() {
        Some(n) => n,
        None => {
            return String::from_str(label);
        },
    };
    let mut stored = String::from_str(label);
    match highest_level_of(label) {
        Some(highest) => {
            let lower: u8 = if highest <= n {
                highest
            } else {
                n
            };
            stored = stored.concat(decimal_string(lower as u128).as_str());
        },
        None => {},
    }
    if same_text(stored.as_str(), "bauhütte") {
        let level: u8 = if n <= 13 {
            1
        } else {
            n
        };
        stored = stored.concat(decimal_string(level as u128).as_str());
    }
    if starts_with(stored.as_str(), "feger") {
        let level: u8 = if n >= 12 {
            11
        } else {
            n
        };
        stored = stored.concat(decimal_string(level as u128).as_str());
    }
    stored
}

/// Whether `i` is the position of the first dot of a text, or the text's length
/// where the text holds no dot.
pub open spec fn dot_at(s: Seq<char>, i: int) -> bool {
    &&& 0 <= i <= s.len()
    &&& forall|j: int| 0 <= j < i ==> s[j] != '.'
    &&& i < s.len() ==> s[i] == '.'
}

/// The position of the first dot of a text, or the text's length where the text
/// holds no dot.
pub open spec fn first_dot(s: Seq<char>) -> int {
    choose|i: int| dot_at(s, i)
}

/// A text has one first dot.
pub proof fn lemma_first_dot(s: Seq<char>, i: int)
    requires
        dot_at(s, i),
    ensures
        first_dot(s) == i,
{
    let chosen = first_dot(s);
    assert(dot_at(s, chosen));
    if chosen < i {
        assert(s[chosen] != '.');
    }
    if i < chosen {
        assert(s[i] != '.');
    }
}

/// The name under which a labelled picture is stored: what stands before the
/// first dot of the picture's path, the label mark, the tag, a dot, and what
/// stands between the first dot and the next, or the end. `None` where the path
/// holds no dot.
pub open spec fn marked_name(image_path: Seq<char>, tag: int) -> Option<Seq<char>> {
    let dot = first_dot(image_path);
    if dot < image_path.len() {
        let rest = image_path.skip(dot + 1);
        let ending = rest.take(first_dot(rest));
        Some(image_path.take(dot) + label_mark() + signed_decimal_text(tag) + "."@ + ending)
    } else {
        None
    }
}

/// The position of the first dot from `from` on, or the text's length where
/// there is none.
fn next_dot(chars: &Vec<char>, from: usize) -> (at: usize)
    requires
        from <= chars.len(),
    ensures
        from <= at <= chars.len(),
        forall|i: int| from <= i < at ==> chars@[i] != '.',
        at < chars.len() ==> chars@[at as int] == '.',
{
    let mut at: usize = from;
    while at < chars.len() && chars[at] != '.'
        invariant
            from <= at <= chars.len(),
            forall|i: int| from <= i < at ==> chars@[i] != '.',
        decreases chars.len() - at,
    {
        at = at + 1;
    }
    at
}

/// The name under which a labelled picture is stored, with the tag that tells it
/// from the other pictures stored under the same name.
pub fn marked_file_name(image_path: &str, tag: i128) -> (name: Option<String>)
    ensures
        match name {
            Some(marked) => marked_name(image_path@, tag as int) == Some(marked@),
            None => marked_name(image_path@, tag as int) is None,
        },
{
    let chars = chars_of(image_path);
    let dot = next_dot(&chars, 0);
    proof {
        lemma_first_dot(image_path@, dot as int);
    }
    if dot == chars.len() {
        return None;
    }
    let end = next_dot(&chars, dot + 1);
    proof {
        let path = image_path@;
        let rest = path.skip(dot + 1);
        assert forall|j: int| 0 <= j < end - dot - 1 implies rest[j] != '.' by {
            assert(rest[j] == chars@[dot + 1 + j]);
        }
        lemma_first_dot(rest, end - dot - 1);
        assert(rest.take(end - dot - 1) =~= path.subrange(dot + 1, end as int));
        assert(path.take(dot as int) =~= path.subrange(0, dot as int));
    }
    let stem = image_path.substring_char(0, dot);
    let ending = image_path.substring_char(dot + 1, end);
    let number = signed_decimal_string(tag);
    Some(String::from_str(stem).concat("GELG").concat(number.as_str()).concat(".").concat(ending))
}


/// The runs of characters that are no digits in a text, in their order: each run
/// as long as it can be.
pub uninterp spec fn other_runs(s: Seq<char>) -> Seq<Seq<char>>;

/// Finds the runs of characters that are no digits with the regular expression
/// `\D+` of the `regex` crate: `Regex::find_iter` yields the matches one after
/// another, without overlap, and `Match::as_str` gives the text of each. The
/// contract gives the list of these texts its name, `other_runs`, and claims
/// nothing else.
#[verifier::external_body]
fn find_other_runs(s: &str) -> (runs: Vec<String>)
    ensures
        texts_of(runs@) == other_runs(s@),
{
    let pattern = regex::Regex::new(r"\D+").unwrap();
    let mut runs: Vec<String> = Vec::new();
    for found in pattern.find_iter(s) {
        runs.push(found.as_str().to_string());
    }
    runs
}

/// The first of the runs, if there is one.
pub open spec fn first_run(runs: Seq<Seq<char>>) -> Option<Seq<char>> {
    if runs.len() > 0 {
        Some(runs[0])
    } else {
        None
    }
}

/// The first of the runs, if there is one.
pub fn first_of_runs(runs: Vec<String>) -> (first: Option<String>)
    ensures
        match first {
            Some(run) => first_run(texts_of(runs@)) == Some(run@),
            None => first_run(texts_of(runs@)) is None,
        },
{
    let mut runs = runs;
    if runs.len() > 0 {
        let ghost all = texts_of(runs@);
        let first = runs.swap_remove(0);
        assert(all[0] == first@);
        Some(first)
    } else {
        None
    }
}

/// The part of a stored label that names the building's class: the first run of
/// characters that are no digits. `None` where the label holds digits only, or
/// nothing.
pub fn class_of_label(label: &str) -> (class: Option<String>)
    ensures
        match class {
            Some(name) => first_run(other_runs(label@)) == Some(name@),
            None => first_run(other_runs(label@)) is None,
        },
{
    first_of_runs(find_other_runs(label))
}

/// The part of a stored label that gives the building's level: the first run of
/// digits. `None` where the label holds no digit.
pub fn level_of_label(label: &str) -> (level: Option<String>)
    ensures
        match level {
            Some(digits) => first_run(digit_runs(label@)) == Some(digits@),
            None => first_run(digit_runs(label@)) is None,
        },
{
    first_of_runs(find_digit_runs(label))
}

/// Whether a class name completes what was typed: it begins with it and is
/// longer.
pub open spec fn completes(name: Seq<char>, typed: Seq<char>) -> bool {
    typed.is_prefix_of(name) && name != typed
}

/// The class names that complete what was typed, in their order.
pub open spec fn candidates(names: Seq<Seq<char>>, typed: Seq<char>) -> Seq<Seq<char>>
    decreases names.len(),
{
    if names.len() == 0 {
        Seq::empty()
    } else if completes(names.last(), typed) {
        candidates(names.drop_last(), typed).push(names.last())
    } else {
        candidates(names.drop_last(), typed)
    }
}

/// Whether `completion` is what the typed label is completed to, given the class
/// names that complete it: the one candidate, where there is exactly one; else
/// what all candidates have in common, where that is more than what was typed;
/// else nothing.
pub open spec fn is_completion(found: Seq<Seq<char>>, typed: Seq<char>, completion: Option<Seq<char>>) -> bool {
    if found.len() == 1 {
        completion == Some(found[0])
    } else if found.len() == 0 {
        completion is None
    } else {
        match completion {
            Some(text) => is_longest_common_prefix(text, found) && text.len() > typed.len(),
            None => forall|common: Seq<char>| #[trigger]
                is_longest_common_prefix(common, found) ==> common.len() <= typed.len(),
        }
    }
}

/// The view of an optional string.
pub open spec fn text_of(s: Option<String>) -> Option<Seq<char>> {
    match s {
        Some(text) => Some(text@),
        None => None,
    }
}

/// Completes a typed label from the known class names: to the one name that it
/// begins, or to what all names that it begins have in common, where that is
/// more than what was typed. `None` where nothing can be added.
pub fn autocomplete(typed: &str, class_names: &Vec<String>) -> (completion: Option<String>)
    ensures
        is_completion(candidates(texts_of(class_names@), typed@), typed@, text_of(completion)),
{
    let ghost names = texts_of(class_names@);
    let typed_chars = chars_of(typed);
    let mut found: Vec<String> = Vec::new();
    let mut i: usize = 0;
    assert(names.take(0) =~= Seq::<Seq<char>>::empty());
    assert(texts_of(found@) =~= Seq::<Seq<char>>::empty());
    while i < class_names.len()
        invariant
            names == texts_of(class_names@),
            typed_chars@ == typed@,
            0 <= i <= class_names.len(),
            texts_of(found@) == candidates(names.take(i as int), typed@),
        decreases class_names.len() - i,
    {
        let name = &class_names[i];
        let name_chars = chars_of(name.as_str());
        let begins = matches_at(&name_chars, &typed_chars, 0);
        let same = name_chars.len() == typed_chars.len();
        proof {
            assert(names.take(i + 1).drop_last() =~= names.take(i as int));
            assert(names.take(i + 1).last() == name@);
            if typed@.len() <= name@.len() {
                assert(name@.subrange(0, typed@.len() as int) == typed@ <==> typed@ =~= name@.subrange(
                    0,
                    typed@.len() as int,
                ));
            }
            if begins && same {
                assert(name@.subrange(0, typed@.len() as int) =~= name@);
            }
            assert((begins && !same) == completes(name@, typed@));
        }
        if begins && !same {
            let ghost before = texts_of(found@);
            found.push(name.clone());
            assert(texts_of(found@) =~= before.push(name@));
        }
        i = i + 1;
    }
    assert(names.take(class_names.len() as int) =~= names);
    if found.len() == 1 {
        let ghost all = texts_of(found@);
        let only = found.swap_remove(0);
        assert(all[0] == only@);
        Some(only)
    } else if found.len() == 0 {
        None
    } else {
        let common = longest_common_prefix(&found);
        if common.as_str().unicode_len() > typed_chars.len() {
            Some(common)
        } else {
            proof {
                assert forall|other: Seq<char>| #[trigger]
                    is_longest_common_prefix(other, texts_of(found@)) implies other.len() <= typed@.len() by {
                    assert(is_common_prefix(other, texts_of(found@)));
                }
            }
            None
        }
    }
}


/// The part of a stored label under which a data set knows it: the class for the
/// data set of buildings, the level for the data set of levels.
pub fn label_for_dataset(label: &str, dataset: DatasetType) -> (part: Option<String>)
    ensures
        text_of(part) == first_run(
            match dataset {
                DatasetType::Buildings => other_runs(label@),
                DatasetType::Level => digit_runs(label@),
            },
        ),
{
    match dataset {
        DatasetType::Buildings => class_of_label(label),
        DatasetType::Level => level_of_label(label),
    }
}

} // verus!
