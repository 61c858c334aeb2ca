//! Name lookup over the validated catalog: templates and projects are
//! selected by `call_name`, case-insensitively at the command boundary
//! and by exact match inside project definitions.

use vstd::prelude::*;

use crate::catalog::ValidProject;
use crate::catalog::ValidTemplate;

verus! {

/// A character's code point with the letters `A` through `Z` (code points
/// 65 through 90) folded onto their lower-case forms 32 code points
/// higher; every other character is left as it is.
pub open spec fn lower_char(c: char) -> int {
    if 65 <= c as int && c as int <= 90 {
        c as int + 32
    } else {
        c as int
    }
}

/// Whether two strings are equal up to the case of their ASCII letters.
pub open spec fn ci_eq(a: Seq<char>, b: Seq<char>) -> bool {
    a.len() == b.len() && forall|i: int|
        0 <= i < a.len() ==> #[trigger] lower_char(a[i]) == lower_char(b[i])
}

/// Compares two strings for equality, ignoring the case of ASCII letters.
pub fn eq_ignore_case(a: &str, b: &str) -> (r: bool)
    ensures
        r == ci_eq(a@, b@),
{
    let na = a.unicode_len();
    let nb = b.unicode_len();
    if na != nb {
        return false;
    }
    let mut i: usize = 0;
    while i < na
        invariant
            i <= na,
            na == a@.len(),
            nb == b@.len(),
            na == nb,
            forall|k: int| 0 <= k < i ==> #[trigger] lower_char(a@[k]) == lower_char(b@[k]),
        decreases na - i,
    {
        let ca = a.get_char(i);
        let cb = b.get_char(i);
        let va: u32 = ca as u32;
        let vb: u32 = cb as u32;
        let la: u32 = if 65 <= va && va <= 90 {
            va + 32
        } else {
            va
        };
        let lb: u32 = if 65 <= vb && vb <= 90 {
            vb + 32
        } else {
            vb
        };
        if la != lb {
            assert(lower_char(a@[i as int]) != lower_char(b@[i as int]));
            return false;
        }
        i = i + 1;
    }
    true
}

/// Whether some template in the list carries exactly this `call_name`.
pub open spec fn template_known(templates: Seq<ValidTemplate>, name: Seq<char>) -> bool {
    exists|k: int| 0 <= k < templates.len() && #[trigger] templates[k].call_name@ == name
}

/// Finds the first template whose `call_name` equals `name` exactly, as a
/// project's template references are resolved.
pub fn find_template_exact(templates: &Vec<ValidTemplate>, name: &String) -> (r: Option<usize>)
    ensures
        r matches Some(k) ==> k < templates@.len() && templates@[k as int].call_name@ == name@ && (
        forall|m: int| 0 <= m < k ==> templates@[m].call_name@ != name@),
        r is None ==> !template_known(templates@, name@),
{
    let mut i: usize = 0;
    while i < templates.len()
        invariant
            i <= templates@.len(),
            forall|m: int| 0 <= m < i ==> templates@[m].call_name@ != name@,
        decreases templates@.len() - i,
    {
        if templates[i].call_name == *name {
            return Some(i);
        }
        i = i + 1;
    }
    None
}

/// Finds the first template whose `call_name` matches `name` up to ASCII
/// case, as the command boundary selects a single template.
pub fn find_template(templates: &Vec<ValidTemplate>, name: &str) -> (r: Option<usize>)
    ensures
        r matches Some(k) ==> k < templates@.len() && ci_eq(templates@[k as int].call_name@, name@)
            && (forall|m: int| 0 <= m < k ==> !ci_eq(templates@[m].call_name@, name@)),
        r is None ==> forall|m: int|
            0 <= m < templates@.len() ==> !ci_eq(templates@[m].call_name@, name@),
{
    let mut i: usize = 0;
    while i < templates.len()
        invariant
            i <= templates@.len(),
            forall|m: int| 0 <= m < i ==> !ci_eq(templates@[m].call_name@, name@),
        decreases templates@.len() - i,
    {
        if eq_ignore_case(templates[i].call_name.as_str(), name) {
            return Some(i);
        }
        i = i + 1;
    }
    None
}

/// Finds the first project whose `call_name` matches `name` up to ASCII
/// case, as the command boundary selects a project.
pub fn find_project(projects: &Vec<ValidProject>, name: &str) -> (r: Option<usize>)
    ensures
        r matches Some(k) ==> k < projects@.len() && ci_eq(projects@[k as int].call_name@, name@)
            && (forall|m: int| 0 <= m < k ==> !ci_eq(projects@[m].call_name@, name@)),
        r is None ==> forall|m: int|
            0 <= m < projects@.len() ==> !ci_eq(projects@[m].call_name@, name@),
{
    let mut i: usize = 0;
    while i < projects.len()
        invariant
            i <= projects@.len(),
            forall|m: int| 0 <= m < i ==> !ci_eq(projects@[m].call_name@, name@),
        decreases projects@.len() - i,
    {
        if eq_ignore_case(projects[i].call_name.as_str(), name) {
            return Some(i);
        }
        i = i + 1;
    }
    None
}

} // verus!
