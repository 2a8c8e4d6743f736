use vstd::prelude::*;

use crate::lookup::views;

verus! {

/// The packages released together, in the order in which they are released:
/// each one after the packages it depends on.
pub open spec fn catalog() -> Seq<Seq<char>> {
    seq![
        "crux_cli"@,
        "crux_macros"@,
        "crux_core"@,
        "crux_http"@,
        "crux_kv"@,
        "crux_platform"@,
        "crux_time"@,
    ]
}

/// The packages a run goes through: those requested, in the order given and
/// as given, or the catalog where none are requested.
pub open spec fn selected(requested: Seq<Seq<char>>) -> Seq<Seq<char>> {
    if requested.len() == 0 {
        catalog()
    } else {
        requested
    }
}

pub fn default_packages() -> (r: Vec<String>)
    ensures
        views(r@) == catalog(),
{
    let mut r: Vec<String> = Vec::new();
    r.push(String::from_str("crux_cli"));
    r.push(String::from_str("crux_macros"));
    r.push(String::from_str("crux_core"));
    r.push(String::from_str("crux_http"));
    r.push(String::from_str("crux_kv"));
    r.push(String::from_str("crux_platform"));
    r.push(String::from_str("crux_time"));
    assert(views(r@) =~= catalog());
    r
}

pub fn select_packages(requested: Vec<String>) -> (r: Vec<String>)
    ensures
        views(r@) == selected(views(requested@)),
{
    if requested.len() == 0 {
        default_packages()
    } else {
        requested
    }
}

} // verus!
