//! Which plate of a 3MF is printed, by the names of files.

use crate::clock::Timestamp;
use crate::listing::{entry_views, EntryView, ListEntry};
use crate::text::{
    all_digits, chars_of, decimal, ends_with, parse_decimal, strip_prefix,
};
use vstd::prelude::*;

verus! {

/// The number in text that is made of digits, one character that does not end a
/// line, and `gcode`.
pub open spec fn plate_number(text: Seq<char>) -> Option<usize> {
    let end = text.len() - 6;
    if end >= 1 && "gcode"@.is_suffix_of(text) && text[end] != '\n' && all_digits(text.take(end))
        && decimal(text.take(end)) <= usize::MAX {
        Some(decimal(text.take(end)) as usize)
    } else {
        None
    }
}

/// The number of the plate in a name that begins with `prefix`.
pub open spec fn plate_index(prefix: Seq<char>, name: Seq<char>) -> Option<usize> {
    if prefix.is_prefix_of(name) {
        plate_number(name.skip(prefix.len() as int))
    } else {
        None
    }
}

/// Reads the number of the plate in a name that begins with `prefix`.
pub fn parse_plate_index(prefix: &str, name: &str) -> (r: Option<usize>)
    ensures
        r == plate_index(prefix@, name@),
{
    let rest = match strip_prefix(name, prefix) {
        Some(rest) => rest,
        None => return None,
    };
    assert(name@.skip(prefix@.len() as int) == rest@);
    let chars = chars_of(rest);
    proof {
        reveal_strlit("gcode");
    }
    if chars.len() < 7 || !ends_with(rest, "gcode") {
        return None;
    }
    let end: usize = chars.len() - 6;
    if chars[end] == '\n' {
        return None;
    }
    assert(rest@.take(end as int) == chars@.subrange(0, end as int));
    parse_decimal(&chars, 0, end)
}

/// The number of the plate that a file inside a 3MF is the gcode of.
pub open spec fn member_plate(name: Seq<char>) -> Option<usize> {
    plate_index("Metadata/plate_"@, name)
}

/// The number of the plate that a file in the printer's cache is the gcode of,
/// for the 3MF whose name begins with `stem`.
pub open spec fn cached_plate(stem: Seq<char>, name: Seq<char>) -> Option<usize> {
    plate_index(stem + "_plate_"@, name)
}

/// The first of the names that is of some plate.
pub open spec fn first_plate(names: Seq<Seq<char>>) -> Option<Seq<char>>
    decreases names.len(),
{
    if names.len() == 0 {
        None
    } else if member_plate(names[0]) is Some {
        Some(names[0])
    } else {
        first_plate(names.skip(1))
    }
}

/// The first of the names that is of this plate.
pub open spec fn first_of_plate(names: Seq<Seq<char>>, plate: usize) -> Option<Seq<char>>
    decreases names.len(),
{
    if names.len() == 0 {
        None
    } else if member_plate(names[0]) == Some(plate) {
        Some(names[0])
    } else {
        first_of_plate(names.skip(1), plate)
    }
}

/// The name of the file inside a 3MF to print: the first of the plate that the
/// hint is for, or else the first of any.
pub open spec fn chosen_plate(names: Seq<Seq<char>>, hint: Option<usize>) -> Option<Seq<char>> {
    match hint {
        Some(plate) => match first_of_plate(names, plate) {
            Some(name) => Some(name),
            None => first_plate(names),
        },
        None => first_plate(names),
    }
}

/// What the names say, in order.
pub open spec fn name_views(names: Seq<String>) -> Seq<Seq<char>> {
    names.map_values(|s: String| s@)
}

/// Chooses the file inside a 3MF to print: the first of the plate that the hint
/// is for, or else the first of any.
pub fn choose_plate(names: &Vec<String>, hint: Option<usize>) -> (r: Option<String>)
    ensures
        match r {
            Some(name) => chosen_plate(name_views(names@), hint) == Some(name@),
            None => chosen_plate(name_views(names@), hint) is None,
        },
{
    let ghost all = name_views(names@);
    let mut fallback: Option<String> = None;
    assert(all.skip(0) == all);
    for i in 0..names.len()
        invariant
            all == name_views(names@),
            match fallback {
                Some(name) => first_plate(all) == Some(name@),
                None => first_plate(all) == first_plate(all.skip(i as int)),
            },
            hint matches Some(plate) ==> first_of_plate(all, plate) == first_of_plate(
                all.skip(i as int),
                plate,
            ),
    {
        let ghost rest = all.skip(i as int);
        assert(rest[0] == names@[i as int]@);
        assert(rest.skip(1) == all.skip(i + 1));
        if let Some(capture) = parse_plate_index("Metadata/plate_", names[i].as_str()) {
            if let Some(plate) = hint {
                if plate == capture {
                    return Some(names[i].clone());
                }
            }
            if fallback.is_none() {
                fallback = Some(names[i].clone());
            }
        }
    }
    fallback
}

/// The newest of the cached files of the 3MF whose name begins with `stem`, the
/// first of those that are equally new: when it was modified, and its plate.
pub open spec fn newest(entries: Seq<EntryView>, stem: Seq<char>) -> Option<(Timestamp, usize)>
    decreases entries.len(),
{
    if entries.len() == 0 {
        None
    } else {
        let best = newest(entries.drop_last(), stem);
        let last = entries.last();
        match cached_plate(stem, last.name) {
            Some(plate) => match best {
                Some((time, _)) if !time.before(last.modified) => best,
                _ => Some((last.modified, plate)),
            },
            None => best,
        }
    }
}

/// The plate of the newest cached file of the 3MF whose name begins with `stem`.
pub open spec fn newest_plate_of(entries: Seq<EntryView>, stem: Seq<char>) -> Option<usize> {
    match newest(entries, stem) {
        Some((_, plate)) => Some(plate),
        None => None,
    }
}

/// Finds the plate of the newest cached file of the 3MF whose name begins with
/// `stem`.
pub fn newest_plate(entries: &Vec<ListEntry>, stem: &str) -> (r: Option<usize>)
    ensures
        r == newest_plate_of(entry_views(entries@), stem@),
{
    let ghost all = entry_views(entries@);
    let mut candidate: Option<(Timestamp, usize)> = None;
    for i in 0..entries.len()
        invariant
            all == entry_views(entries@),
            candidate == newest(all.take(i as int), stem@),
    {
        let entry = &entries[i];
        let ghost more = all.take(i + 1);
        assert(more.drop_last() == all.take(i as int));
        assert(more.last() == entry@);
        let plate = match strip_prefix(entry.name.as_str(), stem) {
            Some(rest) => {
                let plate = parse_plate_index("_plate_", rest);
                proof {
                    lemma_cached_plate(stem@, rest@);
                }
                plate
            },
            None => {
                proof {
                    lemma_not_cached(stem@, entry.name@);
                }
                None
            },
        };
        if let Some(plate) = plate {
            match candidate {
                Some((time, _)) => if time.is_before(&entry.modified) {
                    candidate = Some((entry.modified, plate));
                },
                None => candidate = Some((entry.modified, plate)),
            }
        }
    }
    assert(all.take(all.len() as int) == all);
    match candidate {
        Some((_, plate)) => Some(plate),
        None => None,
    }
}

/// What follows the stem of a cached file is read as the rest of its name.
proof fn lemma_cached_plate(stem: Seq<char>, rest: Seq<char>)
    ensures
        cached_plate(stem, stem + rest) == plate_index("_plate_"@, rest),
{
    let mark = "_plate_"@;
    let name = stem + rest;
    if mark.is_prefix_of(rest) {
        assert(name.take((stem + mark).len() as int) == stem + mark);
        assert(name.skip((stem + mark).len() as int) == rest.skip(mark.len() as int));
    } else if (stem + mark).is_prefix_of(name) {
        assert(rest.take(mark.len() as int) == name.take((stem + mark).len() as int).skip(
            stem.len() as int,
        ));
        assert((stem + mark).skip(stem.len() as int) == mark);
        assert(mark.is_prefix_of(rest));
    }
}

/// A file whose name does not begin with the stem is not a cached one.
proof fn lemma_not_cached(stem: Seq<char>, name: Seq<char>)
    requires
        !stem.is_prefix_of(name),
    ensures
        cached_plate(stem, name) is None,
{
    let mark = "_plate_"@;
    if (stem + mark).is_prefix_of(name) {
        assert(name.take(stem.len() as int) == (stem + mark).take(stem.len() as int));
        assert((stem + mark).take(stem.len() as int) == stem);
    }
}

/// Whether the entry at `i` is a cached file of the 3MF, no cached file of it is
/// newer, and each one listed before it is older.
pub open spec fn is_newest(entries: Seq<EntryView>, stem: Seq<char>, i: int) -> bool {
    &&& 0 <= i < entries.len()
    &&& cached_plate(stem, entries[i].name) is Some
    &&& forall|j: int|
        0 <= j < entries.len() && cached_plate(stem, (#[trigger] entries[j]).name) is Some
            ==> !entries[i].modified.before(entries[j].modified) && (j < i
            ==> entries[j].modified.before(entries[i].modified))
}

/// The plate that is found is that of a cached file which no cached file is
/// newer than; there is none only when nothing of the 3MF is cached.
pub proof fn law_newest_plate_is_of_the_newest_file(entries: Seq<EntryView>, stem: Seq<char>)
    ensures
        match newest(entries, stem) {
            Some((time, plate)) => exists|i: int| #[trigger]
                is_newest(entries, stem, i) && entries[i].modified == time && cached_plate(
                    stem,
                    entries[i].name,
                ) == Some(plate),
            None => forall|i: int|
                0 <= i < entries.len() ==> cached_plate(stem, (#[trigger] entries[i]).name) is None,
        },
    decreases entries.len(),
{
    if entries.len() > 0 {
        let before = entries.drop_last();
        let last = entries.last();
        law_newest_plate_is_of_the_newest_file(before, stem);
        assert forall|j: int| 0 <= j < before.len() implies entries[j] == before[j] by {}
        if newest(before, stem) is Some {
            let (time, plate) = newest(before, stem)->0;
            let i = choose|i: int| #[trigger]
                is_newest(before, stem, i) && before[i].modified == time && cached_plate(
                    stem,
                    before[i].name,
                ) == Some(plate);
            if newest(entries, stem) == newest(before, stem) {
                assert(is_newest(entries, stem, i));
            } else {
                assert(is_newest(entries, stem, entries.len() - 1));
            }
        } else if cached_plate(stem, last.name) is Some {
            assert(is_newest(entries, stem, entries.len() - 1));
        }
    }
}

/// The first file of a plate is one of it, and is found if there is one.
proof fn lemma_first_of_plate(names: Seq<Seq<char>>, plate: usize)
    ensures
        first_of_plate(names, plate) is Some <==> exists|i: int|
            0 <= i < names.len() && member_plate(#[trigger] names[i]) == Some(plate),
        first_of_plate(names, plate) matches Some(name) ==> names.contains(name) && member_plate(
            name,
        ) == Some(plate),
    decreases names.len(),
{
    if names.len() > 0 {
        let rest = names.skip(1);
        lemma_first_of_plate(rest, plate);
        assert forall|i: int| 0 <= i < rest.len() implies rest[i] == names[i + 1] by {}
        assert forall|i: int| 1 <= i < names.len() implies names[i] == rest[i - 1] by {}
        assert(names.contains(names[0]));
    }
}

/// The first file of any plate is one of some plate, and is found if there is one.
proof fn lemma_first_plate(names: Seq<Seq<char>>)
    ensures
        first_plate(names) is Some <==> exists|i: int|
            0 <= i < names.len() && member_plate(#[trigger] names[i]) is Some,
        first_plate(names) matches Some(name) ==> names.contains(name) && member_plate(
            name,
        ) is Some,
    decreases names.len(),
{
    if names.len() > 0 {
        let rest = names.skip(1);
        lemma_first_plate(rest);
        assert forall|i: int| 0 <= i < rest.len() implies rest[i] == names[i + 1] by {}
        assert forall|i: int| 1 <= i < names.len() implies names[i] == rest[i - 1] by {}
        assert(names.contains(names[0]));
    }
}

/// Some plate is chosen whenever there is one at all, and it is the hinted one
/// whenever there is a file of that.
pub proof fn law_hinted_plate_is_chosen(names: Seq<Seq<char>>, hint: Option<usize>)
    ensures
        chosen_plate(names, hint) is Some <==> exists|i: int|
            0 <= i < names.len() && member_plate(#[trigger] names[i]) is Some,
        chosen_plate(names, hint) matches Some(name) ==> names.contains(name) && member_plate(
            name,
        ) is Some,
        hint matches Some(plate) ==> (exists|i: int|
            0 <= i < names.len() && member_plate(#[trigger] names[i]) == Some(plate)) ==> (
        chosen_plate(names, hint) matches Some(name) && member_plate(name) == Some(plate)),
{
    lemma_first_plate(names);
    if hint is Some {
        lemma_first_of_plate(names, hint->0);
    }
}

/// Text is read as a plate exactly when it is digits, one character that does not
/// end a line, and `gcode`, and as the number that the digits stand for.
proof fn lemma_plate_number(text: Seq<char>, digits: Seq<char>, mark: char)
    requires
        text == digits + seq![mark] + "gcode"@,
        digits.len() > 0,
        all_digits(digits),
        mark != '\n',
        decimal(digits) <= usize::MAX,
    ensures
        plate_number(text) == Some(decimal(digits) as usize),
{
    reveal_strlit("gcode");
    let end = text.len() - 6;
    assert(text.take(end) == digits);
    assert(text.skip(end + 1) == "gcode"@);
    assert(text[end] == mark);
}

/// A plate that is read from a name stands in it as digits, one character that
/// does not end a line, and `gcode`, behind the prefix.
proof fn lemma_plate_index(prefix: Seq<char>, name: Seq<char>)
    requires
        plate_index(prefix, name) is Some,
    ensures
        exists|digits: Seq<char>, mark: char|
            name == #[trigger] (prefix + digits + seq![mark] + "gcode"@) && digits.len() > 0
                && all_digits(digits) && mark != '\n' && decimal(digits) == plate_index(
                prefix,
                name,
            )->0,
{
    reveal_strlit("gcode");
    let text = name.skip(prefix.len() as int);
    let end = text.len() - 6;
    let digits = text.take(end);
    let mark = text[end];
    assert(text.skip(end + 1) == "gcode"@);
    assert(name == prefix + digits + seq![mark] + "gcode"@);
}

/// The files of a plate inside a 3MF, and in the printer's cache for a 3MF with
/// the stem, are named by the number of the plate; and nothing else is.
pub proof fn law_plates_are_named_by_number(
    stem: Seq<char>,
    digits: Seq<char>,
    mark: char,
    name: Seq<char>,
)
    ensures
        digits.len() > 0 && all_digits(digits) && mark != '\n' && decimal(digits) <= usize::MAX ==> {
            let tail = digits + seq![mark] + "gcode"@;
            &&& member_plate("Metadata/plate_"@ + tail) == Some(decimal(digits) as usize)
            &&& cached_plate(stem, stem + "_plate_"@ + tail) == Some(decimal(digits) as usize)
        },
        member_plate(name) matches Some(plate) ==> exists|digits: Seq<char>, mark: char|
            name == #[trigger] ("Metadata/plate_"@ + digits + seq![mark] + "gcode"@)
                && all_digits(digits) && digits.len() > 0 && mark != '\n' && decimal(digits)
                == plate,
        cached_plate(stem, name) matches Some(plate) ==> exists|digits: Seq<char>, mark: char|
            name == #[trigger] (stem + "_plate_"@ + digits + seq![mark] + "gcode"@) && all_digits(
                digits,
            ) && digits.len() > 0 && mark != '\n' && decimal(digits) == plate,
{
    if digits.len() > 0 && all_digits(digits) && mark != '\n' && decimal(digits) <= usize::MAX {
        let tail = digits + seq![mark] + "gcode"@;
        lemma_plate_number(tail, digits, mark);
        let member = "Metadata/plate_"@;
        assert((member + tail).take(member.len() as int) == member);
        assert((member + tail).skip(member.len() as int) == tail);
        let cached = stem + "_plate_"@;
        assert((cached + tail).take(cached.len() as int) == cached);
        assert((cached + tail).skip(cached.len() as int) == tail);
    }
    if member_plate(name) is Some {
        lemma_plate_index("Metadata/plate_"@, name);
    }
    if cached_plate(stem, name) is Some {
        lemma_plate_index(stem + "_plate_"@, name);
    }
}

/// The first file of a plate has none of it before it.
proof fn lemma_first_of_plate_is_first(names: Seq<Seq<char>>, plate: usize)
    ensures
        first_of_plate(names, plate) matches Some(name) ==> exists|i: int|
            0 <= i < names.len() && #[trigger] names[i] == name && forall|j: int|
                0 <= j < i ==> member_plate(#[trigger] names[j]) != Some(plate),
    decreases names.len(),
{
    if names.len() > 0 {
        if member_plate(names[0]) == Some(plate) {
            assert(names[0] == first_of_plate(names, plate)->0);
        } else if first_of_plate(names, plate) is Some {
            let rest = names.skip(1);
            lemma_first_of_plate_is_first(rest, plate);
            let name = first_of_plate(names, plate)->0;
            let i = choose|i: int|
                0 <= i < rest.len() && #[trigger] rest[i] == name && forall|j: int|
                    0 <= j < i ==> member_plate(#[trigger] rest[j]) != Some(plate);
            assert(names[i + 1] == name);
            assert forall|j: int| 0 <= j < i + 1 implies member_plate(#[trigger] names[j]) != Some(
                plate,
            ) by {
                if j > 0 {
                    assert(rest[j - 1] == names[j]);
                }
            }
        }
    }
}

/// The first file of any plate has none of a plate before it.
proof fn lemma_first_plate_is_first(names: Seq<Seq<char>>)
    ensures
        first_plate(names) matches Some(name) ==> exists|i: int|
            0 <= i < names.len() && #[trigger] names[i] == name && forall|j: int|
                0 <= j < i ==> member_plate(#[trigger] names[j]) is None,
    decreases names.len(),
{
    if names.len() > 0 {
        if member_plate(names[0]) is Some {
            assert(names[0] == first_plate(names)->0);
        } else if first_plate(names) is Some {
            let rest = names.skip(1);
            lemma_first_plate_is_first(rest);
            let name = first_plate(names)->0;
            let i = choose|i: int|
                0 <= i < rest.len() && #[trigger] rest[i] == name && forall|j: int|
                    0 <= j < i ==> member_plate(#[trigger] rest[j]) is None;
            assert(names[i + 1] == name);
            assert forall|j: int| 0 <= j < i + 1 implies member_plate(#[trigger] names[j]) is None by {
                if j > 0 {
                    assert(rest[j - 1] == names[j]);
                }
            }
        }
    }
}

/// The file that is chosen is the first of the plate that the hint is for; where
/// there is no hint, or no file of that plate, it is the first of any plate.
pub proof fn law_first_file_of_the_plate_is_chosen(names: Seq<Seq<char>>, hint: Option<usize>)
    ensures
        chosen_plate(names, hint) matches Some(name) ==> exists|i: int|
            #![trigger names[i]]
            0 <= i < names.len() && names[i] == name && if hint is Some && member_plate(name)
                == hint {
                forall|j: int| 0 <= j < i ==> member_plate(#[trigger] names[j]) != hint
            } else {
                &&& forall|j: int| 0 <= j < i ==> member_plate(#[trigger] names[j]) is None
                &&& hint is Some ==> forall|j: int|
                    0 <= j < names.len() ==> member_plate(#[trigger] names[j]) != hint
            },
{
    lemma_first_plate_is_first(names);
    if hint is Some {
        lemma_first_of_plate(names, hint->0);
        lemma_first_of_plate_is_first(names, hint->0);
    }
    lemma_first_plate(names);
}

} // verus!
