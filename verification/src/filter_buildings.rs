//! Sorting detections into walls, defences and ordinary buildings, and showing
//! only the kinds that were asked for.

use crate::text::{chars_of, find_chars, is_substring, parse_usize, parsed_unsigned};
use vstd::prelude::*;

verus! {

/// One detection. The detector's confidence and the corners of its bounding box
/// `(left, top, right, bottom)` are numbers with a fraction; they are carried
/// here as their 32 bit patterns, which no function of this module looks into.
#[derive(Debug, PartialEq)]
pub struct Building {
    pub class_id: i32,
    pub class_name: String,
    pub confidence: u32,
    pub bounding_box: (u32, u32, u32, u32),
}

/// A detection with its class name as plain text.
pub struct BuildingView {
    pub class_id: i32,
    pub class_name: Seq<char>,
    pub confidence: u32,
    pub bounding_box: (u32, u32, u32, u32),
}

impl View for Building {
    type V = BuildingView;

    open spec fn view(&self) -> BuildingView {
        BuildingView {
            class_id: self.class_id,
            class_name: self.class_name@,
            confidence: self.confidence,
            bounding_box: self.bounding_box,
        }
    }
}

impl Clone for Building {
    /// A copy with the same class, confidence and box.
    fn clone(&self) -> (copy: Self)
        ensures
            copy@ == self@,
    {
        Building {
            class_id: self.class_id,
            class_name: self.class_name.clone(),
            confidence: self.confidence,
            bounding_box: self.bounding_box,
        }
    }
}

/// How many class names count as defences.
pub const DEFENCE_COUNT: usize = 33;

/// The word that marks a class as a wall.
pub open spec fn wall_word() -> Seq<char> {
    "mauer"@
}

/// The class names of the defences.
pub open spec fn defence_names() -> Seq<Seq<char>> {
    seq![
        "bogenschützenturm"@,
        "minenwerfer"@,
        "multibogenschützenturm"@,
        "magierturm"@,
        "tesla"@,
        "luftabwehr"@,
        "querschlägerkanone"@,
        "xbogenluft"@,
        "entwicklungsturmkanone"@,
        "feuerspeier"@,
        "bombenturm"@,
        "warden"@,
        "queen"@,
        "king"@,
        "infernoturmmulti"@,
        "giftzauberturm"@,
        "streukatapult"@,
        "fegerO"@,
        "monolyth"@,
        "wutzauberturm"@,
        "unsichtbarkeitszauberturm"@,
        "kanone"@,
        "adlerartillerie"@,
        "infernoturmeinzel"@,
        "xbogenboden"@,
        "fegerOR"@,
        "fegerR"@,
        "fegerUR"@,
        "fegerU"@,
        "fegerUL"@,
        "fegerL"@,
        "fegerOL"@,
        "entwicklungsturmbogenschützenturm"@,
    ]
}

/// Whether a class name holds the name of a defence.
pub open spec fn names_defence(class_name: Seq<char>) -> bool {
    exists|i: int| 0 <= i < defence_names().len() && is_substring(class_name, #[trigger] defence_names()[i])
}

/// The kind of a class, as `(wall, defence, ordinary)`: a wall where the name
/// holds the wall word; else a defence where it holds the name of one; else an
/// ordinary building unless the name is a number without sign; a number is of no
/// kind.
pub open spec fn building_type(class_name: Seq<char>) -> (bool, bool, bool) {
    if is_substring(class_name, wall_word()) {
        (true, false, false)
    } else if names_defence(class_name) {
        (false, true, false)
    } else if parsed_unsigned(class_name, usize::MAX as nat) is None {
        (false, false, true)
    } else {
        (false, false, false)
    }
}

/// Whether a class is shown: a wall where walls are, a defence where defences
/// are, an ordinary building where those are. A class of no kind is never shown.
pub open spec fn shown(class_name: Seq<char>, normal: bool, walls: bool, defences: bool) -> bool {
    let kind = building_type(class_name);
    (kind.0 && walls) || (kind.1 && defences) || (kind.2 && normal)
}

/// The detections that are shown, in their order.
pub open spec fn filtered(buildings: Seq<BuildingView>, normal: bool, walls: bool, defences: bool) -> Seq<
    BuildingView,
>
    decreases buildings.len(),
{
    if buildings.len() == 0 {
        Seq::empty()
    } else {
        let earlier = filtered(buildings.drop_last(), normal, walls, defences);
        if shown(buildings.last().class_name, normal, walls, defences) {
            earlier.push(buildings.last())
        } else {
            earlier
        }
    }
}

/// The `i`-th defence name.
fn defence_name(i: usize) -> (name: &'static str)
    requires
        i < DEFENCE_COUNT,
    ensures
        defence_names().len() == DEFENCE_COUNT,
        name@ == defence_names()[i as int],
{
    match i {
        0 => "bogenschützenturm",
        1 => "minenwerfer",
        2 => "multibogenschützenturm",
        3 => "magierturm",
        4 => "tesla",
        5 => "luftabwehr",
        6 => "querschlägerkanone",
        7 => "xbogenluft",
        8 => "entwicklungsturmkanone",
        9 => "feuerspeier",
        10 => "bombenturm",
        11 => "warden",
        12 => "queen",
        13 => "king",
        14 => "infernoturmmulti",
        15 => "giftzauberturm",
        16 => "streukatapult",
        17 => "fegerO",
        18 => "monolyth",
        19 => "wutzauberturm",
        20 => "unsichtbarkeitszauberturm",
        21 => "kanone",
        22 => "adlerartillerie",
        23 => "infernoturmeinzel",
        24 => "xbogenboden",
        25 => "fegerOR",
        26 => "fegerR",
        27 => "fegerUR",
        28 => "fegerU",
        29 => "fegerUL",
        30 => "fegerL",
        31 => "fegerOL",
        _ => "entwicklungsturmbogenschützenturm",
    }
}

/// Whether a class name holds the name of a defence.
fn is_defence(class_name: &Vec<char>) -> (found: bool)
    ensures
        found == names_defence(class_name@),
{
    let mut i: usize = 0;
    while i < DEFENCE_COUNT
        invariant
            0 <= i <= DEFENCE_COUNT,
            defence_names().len() == DEFENCE_COUNT,
            forall|j: int| 0 <= j < i ==> !is_substring(class_name@, #[trigger] defence_names()[j]),
        decreases DEFENCE_COUNT - i,
    {
        let name = chars_of(defence_name(i));
        if find_chars(class_name, &name).is_some() {
            return true;
        }
        i = i + 1;
    }
    false
}

/// The kind of a detection by its class name, as `(wall, defence, ordinary)`.
pub fn get_building_type(building: &Building) -> (kind: (bool, bool, bool))
    ensures
        kind == building_type(building@.class_name),
{
    let name = chars_of(building.class_name.as_str());
    let wall = chars_of("mauer");
    let is_wall = find_chars(&name, &wall).is_some();
    if is_wall {
        return (true, false, false);
    }
    if is_defence(&name) {
        return (false, true, false);
    }
    let is_normal = parse_usize(building.class_name.as_str()).is_none();
    if is_normal {
        (false, false, true)
    } else {
        (false, false, false)
    }
}

/// Copies of the detections whose kind is shown, in their order.
pub fn apply_filter(
    buildings: &Vec<Building>,
    show_normal_buildings: bool,
    show_walls: bool,
    show_defences: bool,
) -> (result: Vec<Building>)
    ensures
        result@.map_values(|b: Building| b@) == filtered(
            buildings@.map_values(|b: Building| b@),
            show_normal_buildings,
            show_walls,
            show_defences,
        ),
{
    let ghost all = buildings@.map_values(|b: Building| b@);
    let mut result: Vec<Building> = Vec::new();
    let mut i: usize = 0;
    assert(result@.map_values(|b: Building| b@) =~= Seq::<BuildingView>::empty());
    assert(all.take(0) =~= Seq::<BuildingView>::empty());
    while i < buildings.len()
        invariant
            0 <= i <= buildings.len(),
            all == buildings@.map_values(|b: Building| b@),
            result@.map_values(|b: Building| b@) == filtered(
                all.take(i as int),
                show_normal_buildings,
                show_walls,
                show_defences,
            ),
        decreases buildings.len() - i,
    {
        let building = &buildings[i];
        let (is_wall, is_defence, is_normal) = get_building_type(building);
        proof {
            assert(all.take(i + 1).drop_last() =~= all.take(i as int));
            assert(all.take(i + 1).last() == building@);
        }
        if (is_wall && show_walls) || (is_defence && show_defences) || (is_normal && show_normal_buildings) {
            let ghost before = result@.map_values(|b: Building| b@);
            let copy = building.clone();
            result.push(copy);
            assert(result@.map_values(|b: Building| b@) =~= before.push(building@));
        }
        i = i + 1;
    }
    assert(all.take(buildings.len() as int) =~= all);
    result
}

} // verus!
