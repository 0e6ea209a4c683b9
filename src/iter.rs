//! One stream of flag tokens per category of a library's requirements.
//!
//! Each stream owns the items of its category and formats one item each time
//! it is advanced, so nothing is formatted before it is asked for.

use vstd::prelude::*;
use crate::flags::{
    define_flag, defines_flags, frameworks_flags, framework_paths_flags, include_paths_flags,
    ld_args_flags, ld_group_flags, libs_flags, link_paths_flags, prefixed, strs,
};

verus! {

/// A finite stream of flag tokens.
pub trait FlagIter: Sized {
    /// The tokens that the stream has yet to hand out, in order.
    spec fn remaining(&self) -> Seq<Seq<char>>;

    /// Hands out the next token, or `None` once the stream is spent.
    fn next(&mut self) -> (r: Option<String>)
        ensures
            old(self).remaining().len() == 0 ==> r is None && final(self).remaining()
                == old(self).remaining(),
            old(self).remaining().len() > 0 ==> r is Some && r->0@ == old(self).remaining()[0]
                && final(self).remaining() == old(self).remaining().drop_first(),
    ;
}

/// Appends to `out` every token that `it` has yet to hand out.
pub fn drain_into<I: FlagIter>(it: &mut I, out: &mut Vec<String>)
    ensures
        strs(final(out)@) == strs(old(out)@) + old(it).remaining(),
        final(it).remaining().len() == 0,
{
    loop
        invariant
            strs(out@) + it.remaining() == strs(old(out)@) + old(it).remaining(),
        decreases it.remaining().len(),
    {
        let ghost before = it.remaining();
        match it.next() {
            Some(t) => {
                let ghost pre = strs(out@);
                out.push(t);
                proof {
                    assert(strs(out@) =~= pre.push(before[0]));
                    assert(pre.push(before[0]) + before.drop_first() =~= pre + before);
                }
            },
            None => {
                return;
            },
        }
    }
}

/// The `-L<path>` flags of a sequence of library search paths.
pub struct LinkPathsArgsIter {
    inner: Vec<String>,
    pos: usize,
}

impl LinkPathsArgsIter {
    #[verifier::type_invariant]
    spec fn inv(self) -> bool {
        self.pos <= self.inner.len()
    }

    /// A stream over the given library search paths, from the first.
    pub fn from(inner: Vec<String>) -> (r: Self)
        ensures
            r.remaining() == link_paths_flags(strs(inner@)),
    {
        let r = LinkPathsArgsIter { inner, pos: 0 };
        proof {
            assert(strs(r.inner@).skip(0) =~= strs(r.inner@));
        }
        r
    }
}

impl FlagIter for LinkPathsArgsIter {
    closed spec fn remaining(&self) -> Seq<Seq<char>> {
        link_paths_flags(strs(self.inner@).skip(self.pos as int))
    }

    fn next(&mut self) -> (r: Option<String>) {
        proof {
            use_type_invariant(&*self);
        }
        if self.pos < self.inner.len() {
            let t = prefixed("-L", self.inner[self.pos].as_str());
            let ghost items = strs(self.inner@);
            self.pos = self.pos + 1;
            proof {
                assert(items.skip(self.pos as int) =~= items.skip(self.pos - 1).drop_first());
                assert(link_paths_flags(items.skip(self.pos as int)) =~= link_paths_flags(items.skip(self.pos - 1)).drop_first());
            }
            Some(t)
        } else {
            None
        }
    }
}

/// The `-I<path>` flags of a sequence of header search paths.
pub struct IncludePathsArgsIter {
    inner: Vec<String>,
    pos: usize,
}

impl IncludePathsArgsIter {
    #[verifier::type_invariant]
    spec fn inv(self) -> bool {
        self.pos <= self.inner.len()
    }

    /// A stream over the given header search paths, from the first.
    pub fn from(inner: Vec<String>) -> (r: Self)
        ensures
            r.remaining() == include_paths_flags(strs(inner@)),
    {
        let r = IncludePathsArgsIter { inner, pos: 0 };
        proof {
            assert(strs(r.inner@).skip(0) =~= strs(r.inner@));
        }
        r
    }
}

impl FlagIter for IncludePathsArgsIter {
    closed spec fn remaining(&self) -> Seq<Seq<char>> {
        include_paths_flags(strs(self.inner@).skip(self.pos as int))
    }

    fn next(&mut self) -> (r: Option<String>) {
        proof {
            use_type_invariant(&*self);
        }
        if self.pos < self.inner.len() {
            let t = prefixed("-I", self.inner[self.pos].as_str());
            let ghost items = strs(self.inner@);
            self.pos = self.pos + 1;
            proof {
                assert(items.skip(self.pos as int) =~= items.skip(self.pos - 1).drop_first());
                assert(include_paths_flags(items.skip(self.pos as int)) =~= include_paths_flags(items.skip(self.pos - 1)).drop_first());
            }
            Some(t)
        } else {
            None
        }
    }
}

/// The `-F<path>` flags of a sequence of framework search paths.
pub struct FrameworkPathsArgsIter {
    inner: Vec<String>,
    pos: usize,
}

impl FrameworkPathsArgsIter {
    #[verifier::type_invariant]
    spec fn inv(self) -> bool {
        self.pos <= self.inner.len()
    }

    /// A stream over the given framework search paths, from the first.
    pub fn from(inner: Vec<String>) -> (r: Self)
        ensures
            r.remaining() == framework_paths_flags(strs(inner@)),
    {
        let r = FrameworkPathsArgsIter { inner, pos: 0 };
        proof {
            assert(strs(r.inner@).skip(0) =~= strs(r.inner@));
        }
        r
    }
}

impl FlagIter for FrameworkPathsArgsIter {
    closed spec fn remaining(&self) -> Seq<Seq<char>> {
        framework_paths_flags(strs(self.inner@).skip(self.pos as int))
    }

    fn next(&mut self) -> (r: Option<String>) {
        proof {
            use_type_invariant(&*self);
        }
        if self.pos < self.inner.len() {
            let t = prefixed("-F", self.inner[self.pos].as_str());
            let ghost items = strs(self.inner@);
            self.pos = self.pos + 1;
            proof {
                assert(items.skip(self.pos as int) =~= items.skip(self.pos - 1).drop_first());
                assert(framework_paths_flags(items.skip(self.pos as int)) =~= framework_paths_flags(items.skip(self.pos - 1)).drop_first());
            }
            Some(t)
        } else {
            None
        }
    }
}

/// The `-l<name>` flags of a sequence of library names.
pub struct LibsArgsIter {
    inner: Vec<String>,
    pos: usize,
}

impl LibsArgsIter {
    #[verifier::type_invariant]
    spec fn inv(self) -> bool {
        self.pos <= self.inner.len()
    }

    /// A stream over the given library names, from the first.
    pub fn from(inner: Vec<String>) -> (r: Self)
        ensures
            r.remaining() == libs_flags(strs(inner@)),
    {
        let r = LibsArgsIter { inner, pos: 0 };
        proof {
            assert(strs(r.inner@).skip(0) =~= strs(r.inner@));
        }
        r
    }
}

impl FlagIter for LibsArgsIter {
    closed spec fn remaining(&self) -> Seq<Seq<char>> {
        libs_flags(strs(self.inner@).skip(self.pos as int))
    }

    fn next(&mut self) -> (r: Option<String>) {
        proof {
            use_type_invariant(&*self);
        }
        if self.pos < self.inner.len() {
            let t = prefixed("-l", self.inner[self.pos].as_str());
            let ghost items = strs(self.inner@);
            self.pos = self.pos + 1;
            proof {
                assert(items.skip(self.pos as int) =~= items.skip(self.pos - 1).drop_first());
                assert(libs_flags(items.skip(self.pos as int)) =~= libs_flags(items.skip(self.pos - 1)).drop_first());
            }
            Some(t)
        } else {
            None
        }
    }
}

/// The `-framework <name>` token pairs of a sequence of framework names.
pub struct FrameworksArgsIter {
    inner: Vec<String>,
    pos: usize,
    /// The name at `pos - 1` is still to be handed out.
    pending: bool,
}

impl FrameworksArgsIter {
    #[verifier::type_invariant]
    spec fn inv(self) -> bool {
        &&& self.pos <= self.inner.len()
        &&& self.pending ==> self.pos >= 1
    }

    /// A stream over the given framework names, from the first.
    pub fn from(inner: Vec<String>) -> (r: Self)
        ensures
            r.remaining() == frameworks_flags(strs(inner@)),
    {
        let r = FrameworksArgsIter { inner, pos: 0, pending: false };
        proof {
            assert(strs(r.inner@).skip(0) =~= strs(r.inner@));
        }
        r
    }
}

impl FlagIter for FrameworksArgsIter {
    closed spec fn remaining(&self) -> Seq<Seq<char>> {
        let names = strs(self.inner@);
        if self.pending {
            seq![names[self.pos - 1]] + frameworks_flags(names.skip(self.pos as int))
        } else {
            frameworks_flags(names.skip(self.pos as int))
        }
    }

    fn next(&mut self) -> (r: Option<String>) {
        proof {
            use_type_invariant(&*self);
        }
        let ghost names = strs(self.inner@);
        if self.pending {
            self.pending = false;
            let t = self.inner[self.pos - 1].clone();
            proof {
                assert(seq![names[self.pos - 1]] + frameworks_flags(names.skip(self.pos as int))
                    =~= frameworks_flags(names.skip(self.pos as int)).insert(0, names[self.pos - 1]));
            }
            Some(t)
        } else if self.pos < self.inner.len() {
            self.pos = self.pos + 1;
            self.pending = true;
            proof {
                let rest = names.skip(self.pos - 1);
                assert(rest.drop_first() =~= names.skip(self.pos as int));
                assert(rest[0] == names[self.pos - 1]);
                assert(frameworks_flags(rest).drop_first() =~= seq![names[self.pos - 1]]
                    + frameworks_flags(names.skip(self.pos as int)));
            }
            Some(String::from_str("-framework"))
        } else {
            None
        }
    }
}

/// The `-Wl,` flags of a sequence of linker fragment groups; a group whose
/// fragments join to nothing gives no flag.
pub struct LdArgsArgsIter {
    inner: Vec<Vec<String>>,
    pos: usize,
}

/// The characters of each fragment of each group.
pub open spec fn groups(v: Seq<Vec<String>>) -> Seq<Seq<Seq<char>>> {
    v.map_values(|g: Vec<String>| strs(g@))
}

/// The fragments of a group joined with no separator.
pub fn join_fragments(group: &Vec<String>) -> (r: String)
    ensures
        r@ == strs(group@).flatten(),
{
    let mut r = String::new();
    let mut i: usize = 0;
    while i < group.len()
        invariant
            i <= group.len(),
            r@ == strs(group@).take(i as int).flatten(),
        decreases group.len() - i,
    {
        proof {
            assert(strs(group@).take(i + 1) =~= strs(group@).take(i as int).push(group@[i as int]@));
            strs(group@).take(i as int).lemma_flatten_push(group@[i as int]@);
        }
        r.append(group[i].as_str());
        i = i + 1;
    }
    proof {
        assert(strs(group@).take(i as int) =~= strs(group@));
    }
    r
}

impl LdArgsArgsIter {
    #[verifier::type_invariant]
    spec fn inv(self) -> bool {
        self.pos <= self.inner.len()
    }

    /// A stream over the given groups, from the first.
    pub fn from(inner: Vec<Vec<String>>) -> (r: Self)
        ensures
            r.remaining() == ld_args_flags(groups(inner@)),
    {
        let r = LdArgsArgsIter { inner, pos: 0 };
        proof {
            assert(groups(r.inner@).skip(0) =~= groups(r.inner@));
        }
        r
    }
}

impl FlagIter for LdArgsArgsIter {
    closed spec fn remaining(&self) -> Seq<Seq<char>> {
        ld_args_flags(groups(self.inner@).skip(self.pos as int))
    }

    fn next(&mut self) -> (r: Option<String>) {
        proof {
            use_type_invariant(&*self);
        }
        let ghost gs = groups(self.inner@);
        let ghost start = self.remaining();
        while self.pos < self.inner.len()
            invariant
                self.pos <= self.inner.len(),
                gs == groups(self.inner@),
                start == self.remaining(),
                start == old(self).remaining(),
            decreases self.inner.len() - self.pos,
        {
            let joined = join_fragments(&self.inner[self.pos]);
            let ghost rest = gs.skip(self.pos as int);
            proof {
                assert(rest.drop_first() =~= gs.skip(self.pos + 1));
                assert(rest[0] == gs[self.pos as int]);
            }
            self.pos = self.pos + 1;
            if !joined.as_str().is_empty() {
                let t = prefixed("-Wl,", joined.as_str());
                proof {
                    assert(ld_group_flags(rest[0]) =~= seq![t@]);
                    assert(start =~= seq![t@] + self.remaining());
                    assert(start.drop_first() =~= self.remaining());
                }
                return Some(t);
            }
            proof {
                assert(ld_group_flags(rest[0]) =~= Seq::<Seq<char>>::empty());
                assert(start =~= self.remaining());
            }
        }
        proof {
            assert(gs.skip(self.pos as int) =~= Seq::<Seq<Seq<char>>>::empty());
        }
        None
    }
}

/// The `-D` flags of a sequence of definitions, each a name and an optional value.
pub struct DefinesArgsIter {
    inner: Vec<(String, Option<String>)>,
    pos: usize,
}

/// The characters of a value, where there is one.
pub open spec fn opt_str(v: Option<String>) -> Option<Seq<char>> {
    match v {
        Some(s) => Some(s@),
        None => None,
    }
}

/// The characters of each definition's name and value.
pub open spec fn defs(v: Seq<(String, Option<String>)>) -> Seq<(Seq<char>, Option<Seq<char>>)> {
    v.map_values(|d: (String, Option<String>)| (d.0@, opt_str(d.1)))
}

/// The flag of one definition.
pub fn define_arg(name: &str, value: Option<&str>) -> (r: String)
    ensures
        r@ == define_flag(name@, match value { Some(v) => Some(v@), None => None }),
{
    let t = prefixed("-D", name);
    match value {
        Some(v) => {
            let mut t = t;
            t.append("=");
            t.append(v);
            t
        },
        None => t,
    }
}

impl DefinesArgsIter {
    #[verifier::type_invariant]
    spec fn inv(self) -> bool {
        self.pos <= self.inner.len()
    }

    /// A stream over the given definitions, from the first.
    pub fn from(inner: Vec<(String, Option<String>)>) -> (r: Self)
        ensures
            r.remaining() == defines_flags(defs(inner@)),
    {
        let r = DefinesArgsIter { inner, pos: 0 };
        proof {
            assert(defs(r.inner@).skip(0) =~= defs(r.inner@));
        }
        r
    }
}

impl FlagIter for DefinesArgsIter {
    closed spec fn remaining(&self) -> Seq<Seq<char>> {
        defines_flags(defs(self.inner@).skip(self.pos as int))
    }

    fn next(&mut self) -> (r: Option<String>) {
        proof {
            use_type_invariant(&*self);
        }
        if self.pos < self.inner.len() {
            let d = &self.inner[self.pos];
            let value = match &d.1 {
                Some(v) => Some(v.as_str()),
                None => None,
            };
            let t = define_arg(d.0.as_str(), value);
            let ghost items = defs(self.inner@);
            self.pos = self.pos + 1;
            proof {
                assert(items.skip(self.pos as int) =~= items.skip(self.pos - 1).drop_first());
                assert(defines_flags(items.skip(self.pos as int)) =~= defines_flags(
                    items.skip(self.pos - 1),
                ).drop_first());
            }
            Some(t)
        } else {
            None
        }
    }
}

} // verus!
