//! The flag grammar, as spec functions over character sequences.

use vstd::prelude::*;
use vstd::string::*;

verus! {

/// The characters of each string, in order.
pub open spec fn strs(v: Seq<String>) -> Seq<Seq<char>> {
    v.map_values(|s: String| s@)
}

/// The flags of one path or name: the prefix followed by the item itself.
pub open spec fn prefixed_flags(prefix: Seq<char>, items: Seq<Seq<char>>) -> Seq<Seq<char>> {
    items.map_values(|p: Seq<char>| prefix + p)
}

/// `-L<path>` for each library search path.
pub open spec fn link_paths_flags(paths: Seq<Seq<char>>) -> Seq<Seq<char>> {
    prefixed_flags("-L"@, paths)
}

/// `-I<path>` for each header search path.
pub open spec fn include_paths_flags(paths: Seq<Seq<char>>) -> Seq<Seq<char>> {
    prefixed_flags("-I"@, paths)
}

/// `-F<path>` for each framework search path.
pub open spec fn framework_paths_flags(paths: Seq<Seq<char>>) -> Seq<Seq<char>> {
    prefixed_flags("-F"@, paths)
}

/// `-l<name>` for each library name.
pub open spec fn libs_flags(names: Seq<Seq<char>>) -> Seq<Seq<char>> {
    prefixed_flags("-l"@, names)
}

/// Two tokens for each framework name: `-framework`, then the name.
pub open spec fn frameworks_flags(names: Seq<Seq<char>>) -> Seq<Seq<char>>
    decreases names.len(),
{
    if names.len() == 0 {
        Seq::empty()
    } else {
        seq!["-framework"@, names[0]] + frameworks_flags(names.drop_first())
    }
}

/// The flags of one group of linker fragments: none when the fragments join to
/// nothing, else `-Wl,` followed by the fragments joined with no separator.
pub open spec fn ld_group_flags(group: Seq<Seq<char>>) -> Seq<Seq<char>> {
    if group.flatten().len() == 0 {
        Seq::empty()
    } else {
        seq!["-Wl,"@ + group.flatten()]
    }
}

/// The flags of a sequence of linker fragment groups, group by group.
pub open spec fn ld_args_flags(groups: Seq<Seq<Seq<char>>>) -> Seq<Seq<char>>
    decreases groups.len(),
{
    if groups.len() == 0 {
        Seq::empty()
    } else {
        ld_group_flags(groups[0]) + ld_args_flags(groups.drop_first())
    }
}

/// `-D<name>` for a definition without a value, `-D<name>=<value>` with one.
pub open spec fn define_flag(name: Seq<char>, value: Option<Seq<char>>) -> Seq<char> {
    match value {
        None => "-D"@ + name,
        Some(v) => "-D"@ + name + "="@ + v,
    }
}

/// One flag for each definition, in order.
pub open spec fn defines_flags(defs: Seq<(Seq<char>, Option<Seq<char>>)>) -> Seq<Seq<char>> {
    defs.map_values(|d: (Seq<char>, Option<Seq<char>>)| define_flag(d.0, d.1))
}

/// A string made of `prefix` followed by `s`.
pub fn prefixed(prefix: &str, s: &str) -> (r: String)
    ensures
        r@ == prefix@ + s@,
{
    let mut r = String::from_str(prefix);
    r.append(s);
    r
}

} // verus!
