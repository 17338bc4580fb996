//! Small operations on text that the rest of the crate shares.

use vstd::prelude::*;

verus! {

/// True when `text` ends with `suffix`.
pub open spec fn has_suffix(text: Seq<char>, suffix: Seq<char>) -> bool {
    suffix.len() <= text.len() && text.skip(text.len() - suffix.len()) == suffix
}

/// `text` without `suffix` at its end; `text` itself when it ends otherwise.
pub open spec fn without_suffix(text: Seq<char>, suffix: Seq<char>) -> Seq<char> {
    if has_suffix(text, suffix) {
        text.take(text.len() - suffix.len())
    } else {
        text
    }
}

/// The texts of `parts` in order, with `separator` between neighbours.
pub open spec fn joined(parts: Seq<Seq<char>>, separator: Seq<char>) -> Seq<char>
    decreases parts.len(),
{
    if parts.len() == 0 {
        Seq::empty()
    } else if parts.len() == 1 {
        parts[0]
    } else {
        joined(parts.drop_last(), separator) + separator + parts.last()
    }
}

/// The views of the strings of `cells`, in order.
pub open spec fn texts(cells: Seq<String>) -> Seq<Seq<char>> {
    cells.map_values(|cell: String| cell@)
}

/// The view of `text` where there is one.
pub open spec fn optional_text(text: Option<String>) -> Option<Seq<char>> {
    match text {
        Some(text) => Some(text@),
        None => None,
    }
}

/// Tells whether `text` ends with `suffix`.
pub fn ends_with(text: &str, suffix: &str) -> (found: bool)
    ensures
        found == has_suffix(text@, suffix@),
{
    let size: usize = text.unicode_len();
    let width: usize = suffix.unicode_len();
    if width > size {
        return false;
    }
    let start: usize = size - width;
    let mut i: usize = 0;
    while i < width
        invariant
            size == text@.len(),
            width == suffix@.len(),
            start + width == size,
            i <= width,
            forall|k: int| 0 <= k < i ==> text@[start + k] == suffix@[k],
        decreases width - i,
    {
        if text.get_char(start + i) != suffix.get_char(i) {
            assert(text@.skip(start as int)[i as int] != suffix@[i as int]);
            return false;
        }
        i = i + 1;
    }
    assert(text@.skip(start as int) =~= suffix@);
    true
}

/// Removes `suffix` from the end of `text` where it stands there.
pub fn strip_suffix(text: &str, suffix: &str) -> (rest: String)
    ensures
        rest@ == without_suffix(text@, suffix@),
{
    if ends_with(text, suffix) {
        let size: usize = text.unicode_len();
        let width: usize = suffix.unicode_len();
        String::from_str(text.substring_char(0, size - width))
    } else {
        String::from_str(text)
    }
}

/// Joins `parts` with `separator` between neighbours.
pub fn join(parts: &Vec<String>, separator: &str) -> (line: String)
    ensures
        line@ == joined(texts(parts@), separator@),
{
    let mut line = String::new();
    let mut i: usize = 0;
    while i < parts.len()
        invariant
            i <= parts.len(),
            line@ == joined(texts(parts@.take(i as int)), separator@),
        decreases parts.len() - i,
    {
        proof {
            let before = texts(parts@.take(i as int));
            let after = texts(parts@.take(i + 1));
            assert(after.drop_last() =~= before);
            assert(after.last() == parts@[i as int]@);
            assert(i == 0 ==> before =~= Seq::<Seq<char>>::empty());
        }
        if i > 0 {
            line.append(separator);
        }
        line.append(parts[i].as_str());
        i = i + 1;
    }
    assert(parts@.take(parts.len() as int) =~= parts@);
    line
}

} // verus!
