//! Properties of the flag grammar and of the cc adapter, proved over the
//! spec functions that the executable code is held to.

use vstd::prelude::*;
use crate::descriptor::LibraryModel;
use crate::flags::{
    define_flag, frameworks_flags, framework_paths_flags, include_paths_flags, ld_args_flags,
    ld_group_flags,
    libs_flags, link_paths_flags, prefixed_flags,
};
use crate::merge::build_generic_flags;

verus! {

/// `t` begins with the characters of `p`.
pub open spec fn starts_with(t: Seq<char>, p: Seq<char>) -> bool {
    p.len() <= t.len() && t.take(p.len() as int) == p
}

/// Library, header and framework search paths each give one flag per path,
/// in the order of the paths: `-L`, `-I` and `-F` followed by the path.
pub proof fn lemma_path_flags(paths: Seq<Seq<char>>)
    ensures
        link_paths_flags(paths).len() == paths.len(),
        include_paths_flags(paths).len() == paths.len(),
        framework_paths_flags(paths).len() == paths.len(),
        forall|i: int|
            0 <= i < paths.len() ==> {
                &&& #[trigger] link_paths_flags(paths)[i] == "-L"@ + paths[i]
                &&& include_paths_flags(paths)[i] == "-I"@ + paths[i]
                &&& framework_paths_flags(paths)[i] == "-F"@ + paths[i]
            },
{
}

/// `n` framework names give `2n` tokens: `-framework` at each even place,
/// and the names, in order, at the odd places.
pub proof fn lemma_frameworks_flags(names: Seq<Seq<char>>)
    ensures
        frameworks_flags(names).len() == 2 * names.len(),
        forall|i: int|
            0 <= i < names.len() ==> {
                &&& #[trigger] frameworks_flags(names)[2 * i] == "-framework"@
                &&& frameworks_flags(names)[2 * i + 1] == names[i]
            },
    decreases names.len(),
{
    if names.len() > 0 {
        let rest = names.drop_first();
        lemma_frameworks_flags(rest);
        assert forall|i: int| 0 <= i < names.len() implies {
            &&& #[trigger] frameworks_flags(names)[2 * i] == "-framework"@
            &&& frameworks_flags(names)[2 * i + 1] == names[i]
        } by {
            if i > 0 {
                assert(frameworks_flags(rest)[2 * (i - 1)] == "-framework"@);
                assert(rest[i - 1] == names[i]);
            }
        }
    }
}

/// A group of linker fragments that join to nothing gives no flag; any other
/// group gives exactly one, `-Wl,` followed by the joined fragments.
pub proof fn lemma_ld_group_flags(group: Seq<Seq<char>>)
    ensures
        group.flatten().len() == 0 ==> ld_args_flags(seq![group]).len() == 0,
        group.flatten().len() > 0 ==> ld_args_flags(seq![group]) == seq!["-Wl,"@ + group.flatten()],
{
    let s = seq![group];
    assert(s[0] == group);
    assert(s.drop_first() =~= Seq::<Seq<Seq<char>>>::empty());
    assert(ld_args_flags(s.drop_first()) == Seq::<Seq<char>>::empty());
    assert(ld_args_flags(s) =~= ld_group_flags(group));
}

/// A definition without a value gives `-D<name>`; with a value `v`, it gives
/// `-D<name>=<v>`.
pub proof fn lemma_define_flag(name: Seq<char>, v: Seq<char>)
    ensures
        define_flag(name, None) == "-D"@ + name,
        define_flag(name, Some(v)) == "-D"@ + name + "="@ + v,
{
}

/// Every flag of a sequence of linker groups begins with `-Wl,`.
proof fn lemma_ld_flags_prefix(groups: Seq<Seq<Seq<char>>>)
    ensures
        forall|i: int|
            0 <= i < ld_args_flags(groups).len() ==> starts_with(
                #[trigger] ld_args_flags(groups)[i],
                "-Wl,"@,
            ),
    decreases groups.len(),
{
    if groups.len() > 0 {
        let rest = groups.drop_first();
        lemma_ld_flags_prefix(rest);
        let head = ld_group_flags(groups[0]);
        let g = groups[0].flatten();
        assert(("-Wl,"@ + g).take(("-Wl,"@).len() as int) =~= "-Wl,"@);
        assert forall|i: int| 0 <= i < ld_args_flags(groups).len() implies starts_with(
            #[trigger] ld_args_flags(groups)[i],
            "-Wl,"@,
        ) by {
            if i < head.len() {
                assert(ld_args_flags(groups)[i] == "-Wl,"@ + g);
            } else {
                assert(ld_args_flags(groups)[i] == ld_args_flags(rest)[i - head.len()]);
            }
        }
    }
}

/// The flags of one category whose second character is `c`, which is neither
/// `D` nor `I`, do not begin with `-D` or `-I`.
proof fn lemma_prefixed_not_define_or_header(prefix: Seq<char>, items: Seq<Seq<char>>)
    requires
        prefix.len() >= 2,
        prefix[1] != 'D',
        prefix[1] != 'I',
    ensures
        forall|i: int|
            0 <= i < prefixed_flags(prefix, items).len() ==> {
                &&& !starts_with(#[trigger] prefixed_flags(prefix, items)[i], "-D"@)
                &&& !starts_with(prefixed_flags(prefix, items)[i], "-I"@)
            },
{
    reveal_strlit("-D");
    reveal_strlit("-I");
    assert forall|i: int| 0 <= i < prefixed_flags(prefix, items).len() implies {
        &&& !starts_with(#[trigger] prefixed_flags(prefix, items)[i], "-D"@)
        &&& !starts_with(prefixed_flags(prefix, items)[i], "-I"@)
    } by {
        let t = prefixed_flags(prefix, items)[i];
        assert(t[1] == prefix[1]);
        assert(t.take(2)[1] == t[1]);
    }
}

/// Of what the cc adapter passes as generic flags, no token begins with `-D`
/// or `-I`, as long as no framework name does: a framework name is passed as
/// a token of its own. Definitions and header search paths reach cc only
/// through its typed operations (see `MergeCcArgs for cc::Build`).
pub proof fn lemma_build_generic_flags(m: LibraryModel)
    requires
        forall|j: int|
            0 <= j < m.frameworks.len() ==> !starts_with(#[trigger] m.frameworks[j], "-D"@)
                && !starts_with(m.frameworks[j], "-I"@),
    ensures
        forall|i: int|
            0 <= i < build_generic_flags(m).len() ==> {
                &&& !starts_with(#[trigger] build_generic_flags(m)[i], "-D"@)
                &&& !starts_with(build_generic_flags(m)[i], "-I"@)
            },
{
    reveal_strlit("-D");
    reveal_strlit("-I");
    reveal_strlit("-L");
    reveal_strlit("-F");
    reveal_strlit("-l");
    reveal_strlit("-framework");
    reveal_strlit("-Wl,");
    lemma_prefixed_not_define_or_header("-L"@, m.link_paths);
    lemma_prefixed_not_define_or_header("-F"@, m.framework_paths);
    lemma_prefixed_not_define_or_header("-l"@, m.libs);
    lemma_frameworks_flags(m.frameworks);
    lemma_ld_flags_prefix(m.ld_args);
    let a = link_paths_flags(m.link_paths);
    let b = framework_paths_flags(m.framework_paths);
    let c = libs_flags(m.libs);
    let d = frameworks_flags(m.frameworks);
    let e = ld_args_flags(m.ld_args);
    assert forall|i: int| 0 <= i < build_generic_flags(m).len() implies {
        &&& !starts_with(#[trigger] build_generic_flags(m)[i], "-D"@)
        &&& !starts_with(build_generic_flags(m)[i], "-I"@)
    } by {
        let t = build_generic_flags(m)[i];
        if i < a.len() {
            assert(t == a[i]);
        } else if i < a.len() + b.len() {
            assert(t == b[i - a.len()]);
        } else if i < a.len() + b.len() + c.len() {
            assert(t == c[i - a.len() - b.len()]);
        } else if i < a.len() + b.len() + c.len() + d.len() {
            let k = i - a.len() - b.len() - c.len();
            assert(t == d[k]);
            let j = k / 2;
            if k % 2 == 0 {
                assert(k == 2 * j);
                assert(d[2 * j] == "-framework"@);
                assert(t[1] == 'f');
                assert(t.take(2)[1] == t[1]);
            } else {
                assert(k == 2 * j + 1);
                assert(d[2 * j] == "-framework"@);
                assert(t == m.frameworks[j]);
            }
        } else {
            let k = i - a.len() - b.len() - c.len() - d.len();
            assert(t == e[k]);
            assert(starts_with(e[k], "-Wl,"@));
            assert(t[1] == "-Wl,"@[1]);
            assert(t.take(2)[1] == t[1]);
        }
    }
}

} // verus!
