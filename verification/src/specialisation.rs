//! Which specialisation of the built configuration gets activated, and
//! where it lies.

use vstd::prelude::*;
use vstd::string::*;

verus! {

/// A name that names something: present and not empty.
pub open spec fn named(name: Option<Seq<char>>) -> Option<Seq<char>> {
    match name {
        Some(n) if n.len() > 0 => Some(n),
        _ => None,
    }
}

/// The specialisation to activate: none where specialisations are
/// switched off; else the one that is active now; else, where none is
/// active or that could not be read, the one that was asked for.
pub open spec fn resolved(
    no_specialisation: bool,
    requested: Option<Seq<char>>,
    current: Option<Seq<char>>,
) -> Option<Seq<char>> {
    if no_specialisation {
        None
    } else if named(current) is Some {
        named(current)
    } else {
        named(requested)
    }
}

/// The profile of a specialisation below the build output `root`; `root`
/// itself where there is no specialisation.
pub open spec fn profile_path(root: Seq<char>, specialisation: Option<Seq<char>>) -> Seq<char> {
    match named(specialisation) {
        Some(name) => root + "/specialisation/"@ + name,
        None => root,
    }
}

/// Resolution is idempotent: with the same request and the same active
/// specialisation it yields the same name, being a function of them; and
/// once the resolved specialisation is the active one, resolving again
/// yields it again.
pub proof fn law_resolution_is_idempotent(
    no_specialisation: bool,
    requested: Option<Seq<char>>,
    current: Option<Seq<char>>,
)
    ensures
        resolved(no_specialisation, requested, resolved(no_specialisation, requested, current))
            == resolved(no_specialisation, requested, current),
        named(resolved(no_specialisation, requested, current)) == resolved(
            no_specialisation,
            requested,
            current,
        ),
{
}

/// The profile of the specialisation `name` is
/// `<root>/specialisation/<name>`, character by character; without a
/// specialisation it is `root`.
pub proof fn law_profile_path(root: Seq<char>, name: Seq<char>)
    ensures
        profile_path(root, None) == root,
        profile_path(root, Some(Seq::empty())) == root,
        name.len() > 0 ==> profile_path(root, Some(name)) == root + seq![
            '/',
            's',
            'p',
            'e',
            'c',
            'i',
            'a',
            'l',
            'i',
            's',
            'a',
            't',
            'i',
            'o',
            'n',
            '/',
        ] + name,
{
    reveal_strlit("/specialisation/");
    assert("/specialisation/"@ =~= seq![
        '/',
        's',
        'p',
        'e',
        'c',
        'i',
        'a',
        'l',
        'i',
        's',
        'a',
        't',
        'i',
        'o',
        'n',
        '/',
    ]);
}

/// A copy of `name` where it names something.
fn keep_named(name: &Option<String>) -> (kept: Option<String>)
    ensures
        kept.deep_view() == named(name.deep_view()),
{
    match name {
        Some(n) => {
            if n.as_str().unicode_len() > 0 {
                Some(n.clone())
            } else {
                None
            }
        },
        None => None,
    }
}

/// Resolves the specialisation to activate from the request and the name
/// of the active one, `None` where none is active or it could not be read.
pub fn resolve_specialisation(
    no_specialisation: bool,
    requested: &Option<String>,
    current: &Option<String>,
) -> (target: Option<String>)
    ensures
        target.deep_view() == resolved(
            no_specialisation,
            requested.deep_view(),
            current.deep_view(),
        ),
{
    if no_specialisation {
        return None;
    }
    let active: Option<String> = keep_named(current);
    if active.is_some() {
        active
    } else {
        keep_named(requested)
    }
}

/// The path of the profile to activate.
pub fn target_profile(root: &str, specialisation: &Option<String>) -> (path: String)
    ensures
        path@ == profile_path(root@, specialisation.deep_view()),
{
    let path: String = String::from_str(root);
    match specialisation {
        Some(name) => {
            if name.as_str().unicode_len() > 0 {
                path.concat("/specialisation/").concat(name.as_str())
            } else {
                path
            }
        },
        None => path,
    }
}

} // verus!
