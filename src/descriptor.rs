//! The description of a library's build requirements, and the canonical flag
//! stream that is assembled from it.

use vstd::prelude::*;
use vstd::std_specs::iter::IteratorSpec;
use crate::flags::{
    defines_flags, frameworks_flags, framework_paths_flags, include_paths_flags, ld_args_flags,
    libs_flags, link_paths_flags, strs,
};
use crate::iter::{
    defs, drain_into, groups, opt_str, DefinesArgsIter, FrameworkPathsArgsIter, FrameworksArgsIter,
    IncludePathsArgsIter, LdArgsArgsIter, LibsArgsIter, LinkPathsArgsIter, FlagIter,
};

verus! {

/// What a library description holds, category by category.
pub struct LibraryModel {
    pub link_paths: Seq<Seq<char>>,
    pub include_paths: Seq<Seq<char>>,
    pub framework_paths: Seq<Seq<char>>,
    pub frameworks: Seq<Seq<char>>,
    pub libs: Seq<Seq<char>>,
    pub ld_args: Seq<Seq<Seq<char>>>,
    pub defines: Seq<(Seq<char>, Option<Seq<char>>)>,
}

/// The canonical flag stream of a library: its library search paths, header
/// search paths, framework search paths, frameworks, libraries, linker
/// arguments and definitions, in that order.
pub open spec fn canonical_flags(m: LibraryModel) -> Seq<Seq<char>> {
    link_paths_flags(m.link_paths) + include_paths_flags(m.include_paths)
        + framework_paths_flags(m.framework_paths) + frameworks_flags(m.frameworks) + libs_flags(
        m.libs,
    ) + ld_args_flags(m.ld_args) + defines_flags(m.defines)
}

/// A source of a library's build requirements.
///
/// Each accessor hands out a fresh copy of its category, so a description
/// can be walked any number of times.
pub trait CcArgs {
    /// What this description holds.
    spec fn model(&self) -> LibraryModel;

    /// The directories searched for libraries.
    fn link_paths(&self) -> (r: Vec<String>)
        ensures
            strs(r@) == self.model().link_paths,
    ;

    /// The directories searched for headers.
    fn include_paths(&self) -> (r: Vec<String>)
        ensures
            strs(r@) == self.model().include_paths,
    ;

    /// The directories searched for frameworks.
    fn framework_paths(&self) -> (r: Vec<String>)
        ensures
            strs(r@) == self.model().framework_paths,
    ;

    /// The frameworks to link against.
    fn frameworks(&self) -> (r: Vec<String>)
        ensures
            strs(r@) == self.model().frameworks,
    ;

    /// The libraries to link against.
    fn libs(&self) -> (r: Vec<String>)
        ensures
            strs(r@) == self.model().libs,
    ;

    /// The groups of fragments passed through to the linker.
    fn ld_args(&self) -> (r: Vec<Vec<String>>)
        ensures
            groups(r@) == self.model().ld_args,
    ;

    /// The preprocessor definitions, each a name and an optional value.
    fn defines(&self) -> (r: Vec<(String, Option<String>)>)
        ensures
            defs(r@) == self.model().defines,
    ;

    /// The `-L` flags of the library search paths.
    fn link_paths_args(&self) -> (r: LinkPathsArgsIter)
        ensures
            r.remaining() == link_paths_flags(self.model().link_paths),
    {
        LinkPathsArgsIter::from(self.link_paths())
    }

    /// The `-I` flags of the header search paths.
    fn include_paths_args(&self) -> (r: IncludePathsArgsIter)
        ensures
            r.remaining() == include_paths_flags(self.model().include_paths),
    {
        IncludePathsArgsIter::from(self.include_paths())
    }

    /// The `-F` flags of the framework search paths.
    fn framework_paths_args(&self) -> (r: FrameworkPathsArgsIter)
        ensures
            r.remaining() == framework_paths_flags(self.model().framework_paths),
    {
        FrameworkPathsArgsIter::from(self.framework_paths())
    }

    /// The `-framework <name>` pairs of the frameworks.
    fn frameworks_args(&self) -> (r: FrameworksArgsIter)
        ensures
            r.remaining() == frameworks_flags(self.model().frameworks),
    {
        FrameworksArgsIter::from(self.frameworks())
    }

    /// The `-l` flags of the libraries.
    fn libs_args(&self) -> (r: LibsArgsIter)
        ensures
            r.remaining() == libs_flags(self.model().libs),
    {
        LibsArgsIter::from(self.libs())
    }

    /// The `-Wl,` flags of the linker fragment groups.
    fn ld_args_args(&self) -> (r: LdArgsArgsIter)
        ensures
            r.remaining() == ld_args_flags(self.model().ld_args),
    {
        LdArgsArgsIter::from(self.ld_args())
    }

    /// The `-D` flags of the definitions.
    fn defines_args(&self) -> (r: DefinesArgsIter)
        ensures
            r.remaining() == defines_flags(self.model().defines),
    {
        DefinesArgsIter::from(self.defines())
    }

    /// The canonical flag stream of this library.
    fn cc_args(&self) -> (r: Vec<String>)
        ensures
            strs(r@) == canonical_flags(self.model()),
    {
        let mut out: Vec<String> = Vec::new();
        drain_into(&mut self.link_paths_args(), &mut out);
        drain_into(&mut self.include_paths_args(), &mut out);
        drain_into(&mut self.framework_paths_args(), &mut out);
        drain_into(&mut self.frameworks_args(), &mut out);
        drain_into(&mut self.libs_args(), &mut out);
        drain_into(&mut self.ld_args_args(), &mut out);
        drain_into(&mut self.defines_args(), &mut out);
        proof {
            assert(strs(Seq::<String>::empty()) =~= Seq::<Seq<char>>::empty());
        }
        out
    }
}

/// A library description held as plain values: the definitions keep the order
/// in which they were given.
pub struct Library {
    pub link_paths: Vec<String>,
    pub include_paths: Vec<String>,
    pub framework_paths: Vec<String>,
    pub frameworks: Vec<String>,
    pub libs: Vec<String>,
    pub ld_args: Vec<Vec<String>>,
    pub defines: Vec<(String, Option<String>)>,
}

/// A walk over the items of a vector, from the first.
pub fn vec_iter<'a, T>(v: &'a Vec<T>) -> (r: std::slice::Iter<'a, T>)
    ensures
        r.remaining() == v@.as_ref(),
        r.initial_value_relation(&r),
        r.decrease() is Some,
{
    v.as_slice().iter()
}

/// A copy of a sequence of strings.
pub fn copy_strs(v: &Vec<String>) -> (r: Vec<String>)
    ensures
        strs(r@) == strs(v@),
{
    let mut r: Vec<String> = Vec::new();
    proof {
        assert(strs(r@) =~= strs(v@).take(0));
    }
    for s in it: vec_iter(v)
        invariant
            it.seq() == v@.as_ref(),
            strs(r@) == strs(v@).take(it.index()),
    {
        proof {
            assert(strs(v@).take(it.index() + 1) =~= strs(r@).push(s@));
        }
        r.push(s.clone());
    }
    proof {
        assert(strs(v@).take(v@.len() as int) =~= strs(v@));
    }
    r
}

/// A copy of a sequence of fragment groups.
pub fn copy_groups(v: &Vec<Vec<String>>) -> (r: Vec<Vec<String>>)
    ensures
        groups(r@) == groups(v@),
{
    let mut r: Vec<Vec<String>> = Vec::new();
    proof {
        assert(groups(r@) =~= groups(v@).take(0));
    }
    for g in it: vec_iter(v)
        invariant
            it.seq() == v@.as_ref(),
            groups(r@) == groups(v@).take(it.index()),
    {
        let c = copy_strs(g);
        proof {
            assert(groups(v@).take(it.index() + 1) =~= groups(r@).push(strs(c@)));
        }
        r.push(c);
    }
    proof {
        assert(groups(v@).take(v@.len() as int) =~= groups(v@));
    }
    r
}

/// A copy of a sequence of definitions.
pub fn copy_defs(v: &Vec<(String, Option<String>)>) -> (r: Vec<(String, Option<String>)>)
    ensures
        defs(r@) == defs(v@),
{
    let mut r: Vec<(String, Option<String>)> = Vec::new();
    proof {
        assert(defs(r@) =~= defs(v@).take(0));
    }
    for d in it: vec_iter(v)
        invariant
            it.seq() == v@.as_ref(),
            defs(r@) == defs(v@).take(it.index()),
    {
        let value = match &d.1 {
            Some(x) => Some(x.clone()),
            None => None,
        };
        let c = (d.0.clone(), value);
        proof {
            assert(defs(v@).take(it.index() + 1) =~= defs(r@).push((c.0@, opt_str(c.1))));
        }
        r.push(c);
    }
    proof {
        assert(defs(v@).take(v@.len() as int) =~= defs(v@));
    }
    r
}

impl CcArgs for Library {
    open spec fn model(&self) -> LibraryModel {
        LibraryModel {
            link_paths: strs(self.link_paths@),
            include_paths: strs(self.include_paths@),
            framework_paths: strs(self.framework_paths@),
            frameworks: strs(self.frameworks@),
            libs: strs(self.libs@),
            ld_args: groups(self.ld_args@),
            defines: defs(self.defines@),
        }
    }

    fn link_paths(&self) -> (r: Vec<String>) {
        copy_strs(&self.link_paths)
    }

    fn include_paths(&self) -> (r: Vec<String>) {
        copy_strs(&self.include_paths)
    }

    fn framework_paths(&self) -> (r: Vec<String>) {
        copy_strs(&self.framework_paths)
    }

    fn frameworks(&self) -> (r: Vec<String>) {
        copy_strs(&self.frameworks)
    }

    fn libs(&self) -> (r: Vec<String>) {
        copy_strs(&self.libs)
    }

    fn ld_args(&self) -> (r: Vec<Vec<String>>) {
        copy_groups(&self.ld_args)
    }

    fn defines(&self) -> (r: Vec<(String, Option<String>)>) {
        copy_defs(&self.defines)
    }
}

} // verus!
