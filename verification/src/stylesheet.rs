//! Stylesheet discovery: which file of a scanned output directory supplies
//! the page's style block, and what to do when none does.

use vstd::prelude::*;
use vstd::string::*;

verus! {

/// A file name counts as a stylesheet when it ends in `.css` and has a
/// non-empty stem, mirroring how a path's extension is recognised.
pub open spec fn is_css_name(s: Seq<char>) -> bool {
    &&& s.len() >= 5
    &&& s[s.len() - 4] == '.'
    &&& s[s.len() - 3] == 'c'
    &&& s[s.len() - 2] == 's'
    &&& s[s.len() - 1] == 's'
}

/// Decides whether one file name is recognised as a stylesheet.
pub fn name_is_css(name: &str) -> (r: bool)
    ensures
        r == is_css_name(name@),
{
    let n = name.unicode_len();
    if n < 5 {
        return false;
    }
    let c_dot = name.get_char(n - 4);
    let c_c = name.get_char(n - 3);
    let c_s1 = name.get_char(n - 2);
    let c_s2 = name.get_char(n - 1);
    c_dot == '.' && c_c == 'c' && c_s1 == 's' && c_s2 == 's'
}

/// Picks the first stylesheet among the scanned directory entries, in the
/// order the scan handed them over; directory iteration order itself is not
/// guaranteed, so among several matches no particular one is promised beyond
/// being the first of the given list.
pub fn first_css(names: &Vec<String>) -> (r: Option<usize>)
    ensures
        match r {
            Some(i) => {
                &&& i < names@.len()
                &&& is_css_name(names@[i as int]@)
                &&& forall|j: int| 0 <= j < i ==> !is_css_name(names@[j]@)
            },
            None => forall|j: int| 0 <= j < names@.len() ==> !is_css_name(names@[j]@),
        },
{
    let mut i: usize = 0;
    while i < names.len()
        invariant
            i <= names@.len(),
            forall|j: int| 0 <= j < i ==> !is_css_name(names@[j]@),
        decreases names@.len() - i,
    {
        if name_is_css(names[i].as_str()) {
            return Some(i);
        }
        i = i + 1;
    }
    None
}

/// Settles the style block's text: the scanned file's content when the scan
/// found one, else the content of the fixed default path, else empty text —
/// a missing stylesheet never fails the response.
pub fn choose_stylesheet(scanned: Option<String>, fallback: Option<String>) -> (r: String)
    ensures
        scanned matches Some(s) ==> r@ == s@,
        scanned is None ==> (fallback matches Some(f) ==> r@ == f@),
        scanned is None && fallback is None ==> r@ == Seq::<char>::empty(),
{
    match scanned {
        Some(s) => s,
        None => match fallback {
            Some(f) => f,
            None => String::new(),
        },
    }
}

} // verus!
