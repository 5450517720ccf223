use vstd::prelude::*;
use vstd::string::StringExecFns;
use starlark::collections::SmallSet;

verus! {

#[verifier::external_type_specification]
#[verifier::external_body]
#[verifier::reject_recursive_types(Q)]
pub struct ExSmallSet<Q>(SmallSet<Q>);

/// The characters that a set of short flags holds.
pub uninterp spec fn short_flags(set: SmallSet<char>) -> Set<char>;

/// Calls `SmallSet::new`: a set without elements.
#[verifier::external_body]
fn small_set_new() -> (set: SmallSet<char>)
    ensures
        short_flags(set) == Set::<char>::empty(),
{
    SmallSet::new()
}

/// Calls `SmallSet::contains`: whether the set holds `short`.
#[verifier::external_body]
fn small_set_contains(set: &SmallSet<char>, short: char) -> (b: bool)
    ensures
        b == short_flags(*set).contains(short),
{
    set.contains(&short)
}

/// Calls `SmallSet::insert`: the set holds `short` afterwards, and the
/// result says whether it did not before.
#[verifier::external_body]
fn small_set_insert(set: &mut SmallSet<char>, short: char) -> (added: bool)
    ensures
        short_flags(*final(set)) == short_flags(*old(set)).insert(short),
        added == !short_flags(*old(set)).contains(short),
{
    set.insert(short)
}

/// Whether the short flag at position `i` of `shorts` is one that an earlier
/// argument has too.
pub open spec fn repeats_short(shorts: Seq<Option<char>>, i: int) -> bool {
    &&& 0 <= i < shorts.len()
    &&& shorts[i] is Some
    &&& exists|j: int| 0 <= j < i && shorts[j] == shorts[i]
}

/// Looks for a short flag that two arguments of a function share; `shorts`
/// holds the short flag of each argument, in the order of their declaration.
/// The flag reported is that of the first argument that repeats one.
pub fn check_short_flags(shorts: &Vec<Option<char>>) -> (r: Result<(), char>)
    ensures
        match r {
            Ok(()) => forall|i: int| !repeats_short(shorts@, i),
            Err(short) => exists|i: int|
                repeats_short(shorts@, i) && shorts@[i] == Some(short) && forall|k: int|
                    0 <= k < i ==> !repeats_short(shorts@, k),
        },
{
    let mut short_args = small_set_new();
    let mut i: usize = 0;
    while i < shorts.len()
        invariant
            i <= shorts@.len(),
            forall|k: int| 0 <= k < i ==> !repeats_short(shorts@, k),
            forall|c: char|
                short_flags(short_args).contains(c) <==> exists|j: int|
                    0 <= j < i && shorts@[j] == Some(c),
        decreases shorts@.len() - i,
    {
        if let Some(short) = shorts[i] {
            if small_set_contains(&short_args, short) {
                return Err(short);
            } else {
                small_set_insert(&mut short_args, short);
            }
        }
        i += 1;
    }
    Ok(())
}

/// How a function is shown: by the name it was assigned to, or as unbound
/// while it has none.
pub open spec fn display_text(name: Option<&str>) -> Seq<char> {
    match name {
        Some(name) => name@ + "()"@,
        None => "<unbound bxl>"@,
    }
}

/// How a function is shown: by the name it was assigned to, or as unbound
/// while it has none.
pub fn display(name: Option<&str>) -> (r: String)
    ensures
        r@ == display_text(name),
{
    match name {
        Some(name) => {
            let mut text = name.to_owned();
            text.append("()");
            text
        },
        None => "<unbound bxl>".to_owned(),
    }
}

} // verus!
