//! Class names that cannot be told apart by their first letters.

use vstd::prelude::*;

verus! {

/// A text in lower case, as Unicode defines it.
pub uninterp spec fn lowercase(s: Seq<char>) -> Seq<char>;

/// Turns a text into lower case with `str::to_lowercase`. The contract gives the
/// result its name, `lowercase`, and claims nothing else.
#[verifier::external_body]
fn to_lowercase(s: &str) -> (lower: String)
    ensures
        lower@ == lowercase(s@),
{
    s.to_lowercase()
}

/// The prefix by which a class name is told apart: its first `prefix_len`
/// characters, or all of them where it has fewer, in lower case.
pub open spec fn prefix_of(name: Seq<char>, prefix_len: nat) -> Seq<char> {
    lowercase(
        name.take(
            if prefix_len <= name.len() {
                prefix_len as int
            } else {
                name.len() as int
            },
        ),
    )
}

/// The prefixes of the names, in the order of the names.
pub open spec fn prefixes_of(names: Seq<Seq<char>>, prefix_len: nat) -> Seq<Seq<char>> {
    names.map_values(|name: Seq<char>| prefix_of(name, prefix_len))
}

/// The names among the first `n` whose prefix is `prefix`, in their order.
pub open spec fn members(names: Seq<Seq<char>>, prefixes: Seq<Seq<char>>, prefix: Seq<char>, n: int) -> Seq<
    Seq<char>,
>
    decreases n,
{
    if n <= 0 {
        Seq::empty()
    } else if prefixes[n - 1] == prefix {
        members(names, prefixes, prefix, n - 1).push(names[n - 1])
    } else {
        members(names, prefixes, prefix, n - 1)
    }
}

/// Whether `prefix` is the prefix of one of the first `n` names.
pub open spec fn seen_before(prefixes: Seq<Seq<char>>, prefix: Seq<char>, n: int) -> bool {
    exists|j: int| 0 <= j < n && #[trigger] prefixes[j] == prefix
}

/// The conflicts among the names whose prefix first occurs among the first `n`
/// names: each prefix that two or more names share, with all names that have it,
/// in the order in which the prefixes first occur.
pub open spec fn conflicts(names: Seq<Seq<char>>, prefixes: Seq<Seq<char>>, n: int) -> Seq<
    (Seq<char>, Seq<Seq<char>>),
>
    decreases n,
{
    if n <= 0 {
        Seq::empty()
    } else {
        let earlier = conflicts(names, prefixes, n - 1);
        let prefix = prefixes[n - 1];
        let group = members(names, prefixes, prefix, names.len() as int);
        if !seen_before(prefixes, prefix, n - 1) && group.len() >= 2 {
            earlier.push((prefix, group))
        } else {
            earlier
        }
    }
}

/// One prefix that several class names share, with these names.
#[derive(Debug, PartialEq)]
pub struct PrefixConflict {
    pub prefix: String,
    pub names: Vec<String>,
}

impl View for PrefixConflict {
    type V = (Seq<char>, Seq<Seq<char>>);

    open spec fn view(&self) -> (Seq<char>, Seq<Seq<char>>) {
        (self.prefix@, self.names@.map_values(|name: String| name@))
    }
}

/// The prefix by which a class name is told apart.
fn prefix_string(name: &str, prefix_len: usize) -> (prefix: String)
    ensures
        prefix@ == prefix_of(name@, prefix_len as nat),
{
    let length: usize = name.unicode_len();
    let taken: usize = if prefix_len <= length {
        prefix_len
    } else {
        length
    };
    let head = name.substring_char(0, taken);
    assert(head@ =~= name@.take(taken as int));
    to_lowercase(head)
}

/// The class names that cannot be told apart by their first `prefix_len`
/// characters, without regard to case: each prefix that two or more names share,
/// with all names that have it in their order, the prefixes in the order in which
/// they first occur. No conflict means that all names can be told apart.
pub fn check_unique_prefixes(class_names: &Vec<String>, prefix_len: usize) -> (found: Vec<PrefixConflict>)
    ensures
        found@.map_values(|c: PrefixConflict| c@) == conflicts(
            class_names@.map_values(|name: String| name@),
            prefixes_of(class_names@.map_values(|name: String| name@), prefix_len as nat),
            class_names@.len() as int,
        ),
{
    let ghost names = class_names@.map_values(|name: String| name@);
    let ghost wanted = prefixes_of(names, prefix_len as nat);
    let count: usize = class_names.len();
    let mut prefixes: Vec<String> = Vec::new();
    let mut i: usize = 0;
    while i < count
        invariant
            count == class_names.len(),
            names == class_names@.map_values(|name: String| name@),
            wanted == prefixes_of(names, prefix_len as nat),
            0 <= i <= count,
            prefixes@.len() == i,
            forall|k: int| 0 <= k < i ==> (#[trigger] prefixes@[k])@ == wanted[k],
        decreases count - i,
    {
        let prefix = prefix_string(class_names[i].as_str(), prefix_len);
        prefixes.push(prefix);
        i = i + 1;
    }
    let mut found: Vec<PrefixConflict> = Vec::new();
    let mut n: usize = 0;
    assert(found@.map_values(|c: PrefixConflict| c@) =~= Seq::<(Seq<char>, Seq<Seq<char>>)>::empty());
    while n < count
        invariant
            count == class_names.len(),
            names == class_names@.map_values(|name: String| name@),
            wanted == prefixes_of(names, prefix_len as nat),
            prefixes@.len() == count,
            wanted.len() == count,
            forall|k: int| 0 <= k < count ==> (#[trigger] prefixes@[k])@ == wanted[k],
            0 <= n <= count,
            found@.map_values(|c: PrefixConflict| c@) == conflicts(names, wanted, n as int),
        decreases count - n,
    {
        let mut seen: bool = false;
        let mut j: usize = 0;
        while j < n
            invariant
                0 <= j <= n < count,
                prefixes@.len() == count,
                wanted.len() == count,
                forall|k: int| 0 <= k < count ==> (#[trigger] prefixes@[k])@ == wanted[k],
                seen == seen_before(wanted, wanted[n as int], j as int),
            decreases n - j,
        {
            if prefixes[j] == prefixes[n] {
                seen = true;
                assert(wanted[j as int] == wanted[n as int]);
            }
            j = j + 1;
        }
        if !seen {
            let mut group: Vec<String> = Vec::new();
            let mut k: usize = 0;
            assert(group@.map_values(|name: String| name@) =~= Seq::<Seq<char>>::empty());
            while k < count
                invariant
                    count == class_names.len(),
                    names == class_names@.map_values(|name: String| name@),
                    prefixes@.len() == count,
                    wanted.len() == count,
                    forall|x: int| 0 <= x < count ==> (#[trigger] prefixes@[x])@ == wanted[x],
                    0 <= n < count,
                    0 <= k <= count,
                    group@.map_values(|name: String| name@) == members(names, wanted, wanted[n as int], k as int),
                decreases count - k,
            {
                if prefixes[k] == prefixes[n] {
                    let ghost before = group@.map_values(|name: String| name@);
                    let name = class_names[k].clone();
                    group.push(name);
                    assert(group@.map_values(|name: String| name@) =~= before.push(names[k as int]));
                }
                k = k + 1;
            }
            if group.len() >= 2 {
                let ghost before = found@.map_values(|c: PrefixConflict| c@);
                let conflict = PrefixConflict { prefix: prefixes[n].clone(), names: group };
                found.push(conflict);
                assert(found@.map_values(|c: PrefixConflict| c@) =~= before.push(conflict@));
            }
        }
        n = n + 1;
    }
    found
}

} // verus!
