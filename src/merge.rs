//! Hands a library's flags to the configuration objects of bindgen and cc.

use vstd::prelude::*;
use crate::descriptor::{canonical_flags, CcArgs, LibraryModel};
use crate::flags::{
    frameworks_flags, framework_paths_flags, ld_args_flags, libs_flags, link_paths_flags, strs,
};
use crate::iter::{defs, drain_into};

verus! {

#[verifier::external_type_specification]
#[verifier::external_body]
pub struct ExBuilder(bindgen::Builder);

#[verifier::external_type_specification]
#[verifier::external_body]
pub struct ExBuild(cc::Build);

/// The arguments that a bindgen builder passes straight through to clang.
pub uninterp spec fn clang_args_of(b: bindgen::Builder) -> Seq<Seq<char>>;

/// The preprocessor definitions of a cc build, each a name and an optional value.
pub uninterp spec fn definitions_of(b: cc::Build) -> Seq<(Seq<char>, Option<Seq<char>>)>;

/// The header search directories of a cc build.
pub uninterp spec fn header_dirs_of(b: cc::Build) -> Seq<Seq<char>>;

/// The extra compiler flags of a cc build.
pub uninterp spec fn flags_of(b: cc::Build) -> Seq<Seq<char>>;

/// Relies on bindgen::Builder::clang_args: it appends each argument, in
/// order, to the builder's clang arguments.
#[verifier::external_body]
fn builder_clang_args(b: bindgen::Builder, args: Vec<String>) -> (r: bindgen::Builder)
    ensures
        clang_args_of(r) == clang_args_of(b) + strs(args@),
{
    b.clang_args(args)
}

/// Relies on cc::Build::define: it appends the name and the optional value to
/// the build's definitions and touches nothing else that is named here.
#[verifier::external_body]
fn build_define(b: &mut cc::Build, name: &str, value: Option<&str>)
    ensures
        definitions_of(*final(b)) == definitions_of(*old(b)).push(
            (
                name@,
                match value {
                    Some(v) => Some(v@),
                    None => None,
                },
            ),
        ),
        header_dirs_of(*final(b)) == header_dirs_of(*old(b)),
        flags_of(*final(b)) == flags_of(*old(b)),
{
    b.define(name, value);
}

/// Relies on cc::Build::includes: it appends each directory, in order, to the
/// build's header search directories and touches nothing else named here.
#[verifier::external_body]
fn build_header_dirs(b: &mut cc::Build, dirs: &Vec<String>)
    ensures
        header_dirs_of(*final(b)) == header_dirs_of(*old(b)) + strs(dirs@),
        definitions_of(*final(b)) == definitions_of(*old(b)),
        flags_of(*final(b)) == flags_of(*old(b)),
{
    b.includes(dirs);
}

/// Relies on cc::Build::flags: it appends each flag, in order, to the build's
/// extra compiler flags and touches nothing else named here.
#[verifier::external_body]
fn build_flags(b: &mut cc::Build, flags: &Vec<String>)
    ensures
        flags_of(*final(b)) == flags_of(*old(b)) + strs(flags@),
        definitions_of(*final(b)) == definitions_of(*old(b)),
        header_dirs_of(*final(b)) == header_dirs_of(*old(b)),
{
    b.flags(flags);
}

/// The flags that the cc adapter passes through its generic flag operation:
/// library search paths, framework search paths, libraries, frameworks and
/// linker arguments, in that order. Definitions and header search paths take
/// typed operations instead.
pub open spec fn build_generic_flags(m: LibraryModel) -> Seq<Seq<char>> {
    link_paths_flags(m.link_paths) + framework_paths_flags(m.framework_paths) + libs_flags(m.libs)
        + frameworks_flags(m.frameworks) + ld_args_flags(m.ld_args)
}

/// A build configuration that a library's requirements can be merged into.
pub trait MergeCcArgs: Sized {
    /// `after` is `before` with the requirements described by `m` merged in.
    spec fn merged(before: Self, after: Self, m: LibraryModel) -> bool;

    /// Merges the requirements of `lib` into this configuration.
    fn merge_cc_args<A: CcArgs>(self, lib: &A) -> (r: Self)
        ensures
            Self::merged(self, r, lib.model()),
    ;
}

/// bindgen takes the whole canonical flag stream as clang arguments.
impl MergeCcArgs for bindgen::Builder {
    open spec fn merged(before: Self, after: Self, m: LibraryModel) -> bool {
        clang_args_of(after) == clang_args_of(before) + canonical_flags(m)
    }

    fn merge_cc_args<A: CcArgs>(self, lib: &A) -> (r: Self) {
        builder_clang_args(self, lib.cc_args())
    }
}

/// cc takes definitions and header search paths through its typed
/// operations, and the other categories as flags, in the order of
/// `build_generic_flags`, which differs from the canonical order: libraries
/// come before frameworks there.
impl MergeCcArgs for cc::Build {
    open spec fn merged(before: Self, after: Self, m: LibraryModel) -> bool {
        &&& definitions_of(after) == definitions_of(before) + m.defines
        &&& header_dirs_of(after) == header_dirs_of(before) + m.include_paths
        &&& flags_of(after) == flags_of(before) + build_generic_flags(m)
    }

    fn merge_cc_args<A: CcArgs>(self, lib: &A) -> (r: Self) {
        let mut b = self;
        let defines = lib.defines();
        let mut i: usize = 0;
        proof {
            assert(defs(defines@).take(0) =~= Seq::<(Seq<char>, Option<Seq<char>>)>::empty());
        }
        while i < defines.len()
            invariant
                i <= defines.len(),
                definitions_of(b) == definitions_of(self) + defs(defines@).take(i as int),
                header_dirs_of(b) == header_dirs_of(self),
                flags_of(b) == flags_of(self),
            decreases defines.len() - i,
        {
            let d = &defines[i];
            let value = match &d.1 {
                Some(v) => Some(v.as_str()),
                None => None,
            };
            build_define(&mut b, d.0.as_str(), value);
            proof {
                assert(defs(defines@).take(i + 1) =~= defs(defines@).take(i as int).push(
                    defs(defines@)[i as int],
                ));
            }
            i = i + 1;
        }
        proof {
            assert(defs(defines@).take(i as int) =~= defs(defines@));
        }
        build_header_dirs(&mut b, &lib.include_paths());
        let mut flags: Vec<String> = Vec::new();
        drain_into(&mut lib.link_paths_args(), &mut flags);
        drain_into(&mut lib.framework_paths_args(), &mut flags);
        drain_into(&mut lib.libs_args(), &mut flags);
        drain_into(&mut lib.frameworks_args(), &mut flags);
        drain_into(&mut lib.ld_args_args(), &mut flags);
        proof {
            assert(strs(Seq::<String>::empty()) =~= Seq::<Seq<char>>::empty());
        }
        build_flags(&mut b, &flags);
        b
    }
}

} // verus!
