use vstd::prelude::*;
use vstd::string::StrSliceExecFns;

verus! {

/// Whether one of `names` is `name`.
pub open spec fn names_hold(names: Seq<String>, name: Seq<char>) -> bool {
    exists|i: int| 0 <= i < names.len() && (#[trigger] names[i])@ == name
}

/// Whether one of `names` is `name`.
pub fn holds_name(names: &Vec<String>, name: &String) -> (b: bool)
    ensures
        b == names_hold(names@, name@),
{
    let mut i: usize = 0;
    while i < names.len()
        invariant
            i <= names@.len(),
            forall|k: int| 0 <= k < i ==> (#[trigger] names@[k])@ != name@,
        decreases names@.len() - i,
    {
        if names[i] == *name {
            return true;
        }
        i += 1;
    }
    false
}

/// The positions in `names` of the names that `keep` holds for, in rising
/// order.
pub open spec fn positions(names: Seq<String>, keep: spec_fn(Seq<char>) -> bool) -> Seq<usize>
    decreases names.len(),
{
    if names.len() == 0 {
        Seq::empty()
    } else if keep(names.last()@) {
        positions(names.drop_last(), keep).push((names.len() - 1) as usize)
    } else {
        positions(names.drop_last(), keep)
    }
}

/// The names that stay in the documentation of the build file globals:
/// those that are not global symbols anyway.
pub open spec fn outside_globals(globals: Seq<String>) -> spec_fn(Seq<char>) -> bool {
    |name: Seq<char>| !names_hold(globals, name)
}

/// The members of the `native` object that move up to the top level of a
/// module: those whose names are neither globals already nor members of the
/// module.
pub open spec fn promotable(existing_globals: Seq<String>, module_members: Seq<String>) -> spec_fn(
    Seq<char>,
) -> bool {
    |name: Seq<char>| !names_hold(existing_globals, name) && !names_hold(module_members, name)
}

/// The positions of the members `members` of the build file globals that are
/// documented as such: the global symbols among them are left out.
pub fn members_outside_globals(members: &Vec<String>, global_symbols: &Vec<String>) -> (kept: Vec<
    usize,
>)
    ensures
        kept@ == positions(members@, outside_globals(global_symbols@)),
{
    let ghost keep = outside_globals(global_symbols@);
    let mut kept: Vec<usize> = Vec::new();
    let mut i: usize = 0;
    while i < members.len()
        invariant
            i <= members@.len(),
            keep == outside_globals(global_symbols@),
            kept@ == positions(members@.take(i as int), keep),
        decreases members@.len() - i,
    {
        let ghost now = members@.take(i + 1);
        assert(now.drop_last() =~= members@.take(i as int));
        if !holds_name(global_symbols, &members[i]) {
            kept.push(i);
        }
        i += 1;
    }
    assert(members@.take(i as int) =~= members@);
    kept
}

/// The positions of the members `native` of the `native` object that are
/// promoted to the top level of a module with the members `module_members`,
/// where `existing_globals` are taken already.
pub fn members_to_promote(
    native: &Vec<String>,
    existing_globals: &Vec<String>,
    module_members: &Vec<String>,
) -> (promoted: Vec<usize>)
    ensures
        promoted@ == positions(native@, promotable(existing_globals@, module_members@)),
{
    let ghost keep = promotable(existing_globals@, module_members@);
    let mut promoted: Vec<usize> = Vec::new();
    let mut i: usize = 0;
    while i < native.len()
        invariant
            i <= native@.len(),
            keep == promotable(existing_globals@, module_members@),
            promoted@ == positions(native@.take(i as int), keep),
        decreases native@.len() - i,
    {
        let ghost now = native@.take(i + 1);
        assert(now.drop_last() =~= native@.take(i as int));
        if !holds_name(existing_globals, &native[i]) && !holds_name(module_members, &native[i]) {
            promoted.push(i);
        }
        i += 1;
    }
    assert(native@.take(i as int) =~= native@);
    promoted
}

/// The attributes of the documentation of a builtin: its directory, unless
/// that is empty.
pub fn builtin_doc_attrs(directory: &str) -> (attrs: Vec<(String, String)>)
    ensures
        attrs@.len() == if directory@.len() == 0 {
            0nat
        } else {
            1nat
        },
        directory@.len() != 0 ==> attrs@[0].0@ == "directory"@ && attrs@[0].1@ == directory@,
{
    let mut custom_attrs: Vec<(String, String)> = Vec::new();
    if directory.unicode_len() != 0 {
        custom_attrs.push(("directory".to_owned(), directory.to_owned()));
    }
    custom_attrs
}

} // verus!
