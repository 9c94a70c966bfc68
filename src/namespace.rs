//! The per-namespace deadline override.
use vstd::prelude::*;

use crate::decimal::{parse_i64, parsed_i64};
use crate::model::{Annotation, Namespace};

verus! {

/// The annotation of a Namespace whose value overrides the configured default.
pub const OVERRIDE_ANNOTATION: &'static str = "appuio.io/active-deadline-seconds-override";

/// The first of `nss` whose name is `name`.
pub open spec fn first_named(nss: Seq<Namespace>, name: Seq<char>) -> Option<Namespace>
    decreases nss.len(),
{
    if nss.len() == 0 {
        None
    } else if nss[0].name matches Some(n) && n@ == name {
        Some(nss[0])
    } else {
        first_named(nss.skip(1), name)
    }
}

/// The value of the first annotation of `anns` under `key`.
pub open spec fn annotation_value(anns: Seq<Annotation>, key: Seq<char>) -> Option<String>
    decreases anns.len(),
{
    if anns.len() == 0 {
        None
    } else if anns[0].key@ == key {
        Some(anns[0].value)
    } else {
        annotation_value(anns.skip(1), key)
    }
}

/// The deadline that the Namespace called `name` asks for: its override
/// annotation read as an `i64`. `None` where no Namespace of `nss` has that
/// name, it has no such annotation, or the value is no integer.
pub open spec fn namespace_override(nss: Seq<Namespace>, name: Seq<char>) -> Option<i64> {
    match first_named(nss, name) {
        Some(ns) => match ns.annotations {
            Some(anns) => match annotation_value(anns@, OVERRIDE_ANNOTATION@) {
                Some(v) => parsed_i64(v@),
                None => None,
            },
            None => None,
        },
        None => None,
    }
}

fn find_named<'a>(nss: &'a Vec<Namespace>, name: &String) -> (r: Option<&'a Namespace>)
    ensures
        match first_named(nss@, name@) {
            Some(ns) => r matches Some(x) && *x == ns,
            None => r is None,
        },
{
    let mut i: usize = 0;
    assert(nss@.skip(0) =~= nss@);
    while i < nss.len()
        invariant
            i <= nss@.len(),
            first_named(nss@, name@) == first_named(nss@.skip(i as int), name@),
        decreases nss.len() - i,
    {
        assert(nss@.skip(i as int).skip(1) =~= nss@.skip(i + 1));
        assert(nss@.skip(i as int)[0] == nss@[i as int]);
        let ns = &nss[i];
        if let Some(n) = &ns.name {
            if *n == *name {
                return Some(ns);
            }
        }
        i = i + 1;
    }
    None
}

fn find_annotation<'a>(anns: &'a Vec<Annotation>, key: &String) -> (r: Option<&'a String>)
    ensures
        match annotation_value(anns@, key@) {
            Some(v) => r matches Some(x) && *x == v,
            None => r is None,
        },
{
    let mut i: usize = 0;
    assert(anns@.skip(0) =~= anns@);
    while i < anns.len()
        invariant
            i <= anns@.len(),
            annotation_value(anns@, key@) == annotation_value(anns@.skip(i as int), key@),
        decreases anns.len() - i,
    {
        assert(anns@.skip(i as int).skip(1) =~= anns@.skip(i + 1));
        assert(anns@.skip(i as int)[0] == anns@[i as int]);
        let a = &anns[i];
        if a.key == *key {
            return Some(&a.value);
        }
        i = i + 1;
    }
    None
}

/// The override that the Namespace called `name` sets, if any.
pub fn deadline_from_namespace(namespaces: &Vec<Namespace>, name: &String) -> (r: Option<i64>)
    ensures
        r == namespace_override(namespaces@, name@),
{
    let key = OVERRIDE_ANNOTATION.to_owned();
    match find_named(namespaces, name) {
        Some(ns) => match &ns.annotations {
            Some(anns) => match find_annotation(anns, &key) {
                Some(v) => parse_i64(v.as_str()),
                None => None,
            },
            None => None,
        },
        None => None,
    }
}

} // verus!
