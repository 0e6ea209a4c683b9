use cc_args::descriptor::{vec_iter, CcArgs, Library};
use cc_args::flags::prefixed;
use cc_args::iter::{
    define_arg, join_fragments, DefinesArgsIter, FlagIter, FrameworkPathsArgsIter,
    FrameworksArgsIter, IncludePathsArgsIter, LdArgsArgsIter, LibsArgsIter, LinkPathsArgsIter,
};

fn strings(v: &[&str]) -> Vec<String> {
    v.iter().map(|s| s.to_string()).collect()
}

fn drain<I: FlagIter>(mut it: I) -> Vec<String> {
    let mut out = Vec::new();
    while let Some(t) = it.next() {
        out.push(t);
    }
    out
}

fn empty_library() -> Library {
    Library {
        link_paths: Vec::new(),
        include_paths: Vec::new(),
        framework_paths: Vec::new(),
        frameworks: Vec::new(),
        libs: Vec::new(),
        ld_args: Vec::new(),
        defines: Vec::new(),
    }
}

fn full_library() -> Library {
    Library {
        link_paths: strings(&["/usr/lib", "/opt/lib"]),
        include_paths: strings(&["/usr/include"]),
        framework_paths: strings(&["/Library/Frameworks"]),
        frameworks: strings(&["CoreFoundation", "Security"]),
        libs: strings(&["zstd", "m"]),
        ld_args: vec![strings(&["-rpath,", "/opt/lib"]), strings(&[""])],
        defines: vec![
            ("FOO".to_string(), None),
            ("BAR".to_string(), Some("1".to_string())),
        ],
    }
}

#[test]
fn canonical_scenario() {
    let mut lib = empty_library();
    lib.link_paths = strings(&["/usr/lib"]);
    lib.libs = strings(&["zstd"]);
    lib.defines = vec![
        ("FOO".to_string(), None),
        ("BAR".to_string(), Some("1".to_string())),
    ];
    assert_eq!(lib.cc_args(), strings(&["-L/usr/lib", "-lzstd", "-DFOO", "-DBAR=1"]));
}

#[test]
fn ld_args_scenario() {
    let groups = vec![strings(&["a", "b"]), strings(&["", ""]), strings(&["c"])];
    assert_eq!(drain(LdArgsArgsIter::from(groups)), strings(&["-Wl,ab", "-Wl,c"]));
}

#[test]
fn path_flags_keep_order_and_prefix() {
    let paths = strings(&["/a", "/b c", "rel/d"]);
    assert_eq!(
        drain(LinkPathsArgsIter::from(paths.clone())),
        strings(&["-L/a", "-L/b c", "-Lrel/d"])
    );
    assert_eq!(
        drain(IncludePathsArgsIter::from(paths.clone())),
        strings(&["-I/a", "-I/b c", "-Irel/d"])
    );
    assert_eq!(
        drain(FrameworkPathsArgsIter::from(paths)),
        strings(&["-F/a", "-F/b c", "-Frel/d"])
    );
}

#[test]
fn empty_categories_give_no_flags() {
    assert!(drain(LinkPathsArgsIter::from(Vec::new())).is_empty());
    assert!(drain(FrameworksArgsIter::from(Vec::new())).is_empty());
    assert!(drain(LdArgsArgsIter::from(Vec::new())).is_empty());
    assert!(drain(DefinesArgsIter::from(Vec::new())).is_empty());
    assert!(empty_library().cc_args().is_empty());
}

#[test]
fn spent_stream_stays_spent() {
    let mut it = LibsArgsIter::from(strings(&["z"]));
    assert_eq!(it.next(), Some("-lz".to_string()));
    assert_eq!(it.next(), None);
    assert_eq!(it.next(), None);
}

#[test]
fn libs_flags() {
    assert_eq!(drain(LibsArgsIter::from(strings(&["zstd", "m"]))), strings(&["-lzstd", "-lm"]));
}

#[test]
fn frameworks_alternate_with_names() {
    let names = strings(&["CoreFoundation", "Security", "IOKit"]);
    let out = drain(FrameworksArgsIter::from(names.clone()));
    assert_eq!(out.len(), 6);
    assert_eq!(
        out,
        strings(&[
            "-framework",
            "CoreFoundation",
            "-framework",
            "Security",
            "-framework",
            "IOKit"
        ])
    );
}

#[test]
fn ld_group_joined_to_nothing_is_skipped() {
    assert!(drain(LdArgsArgsIter::from(vec![strings(&["", "", ""])])).is_empty());
    assert!(drain(LdArgsArgsIter::from(vec![Vec::new()])).is_empty());
    assert_eq!(
        drain(LdArgsArgsIter::from(vec![strings(&["-soname,", "libx.so"])])),
        strings(&["-Wl,-soname,libx.so"])
    );
}

#[test]
fn join_fragments_has_no_separator() {
    assert_eq!(join_fragments(&strings(&["a", "", "bc", "d"])), "abcd");
    assert_eq!(join_fragments(&Vec::new()), "");
}

#[test]
fn define_flags() {
    assert_eq!(define_arg("FOO", None), "-DFOO");
    assert_eq!(define_arg("BAR", Some("1")), "-DBAR=1");
    assert_eq!(define_arg("EMPTY", Some("")), "-DEMPTY=");
    let defs = vec![
        ("A".to_string(), Some("x y".to_string())),
        ("B".to_string(), None),
    ];
    assert_eq!(drain(DefinesArgsIter::from(defs)), strings(&["-DA=x y", "-DB"]));
}

#[test]
fn prefixed_joins_prefix_and_text() {
    assert_eq!(prefixed("-L", "/usr/lib"), "-L/usr/lib");
    assert_eq!(prefixed("", "x"), "x");
}

#[test]
fn canonical_order_of_all_categories() {
    let lib = full_library();
    assert_eq!(
        lib.cc_args(),
        strings(&[
            "-L/usr/lib",
            "-L/opt/lib",
            "-I/usr/include",
            "-F/Library/Frameworks",
            "-framework",
            "CoreFoundation",
            "-framework",
            "Security",
            "-lzstd",
            "-lm",
            "-Wl,-rpath,/opt/lib",
            "-DFOO",
            "-DBAR=1",
        ])
    );
}

#[test]
fn canonical_stream_is_the_concatenation_of_the_categories() {
    let lib = full_library();
    let mut expected = Vec::new();
    expected.extend(drain(lib.link_paths_args()));
    expected.extend(drain(lib.include_paths_args()));
    expected.extend(drain(lib.framework_paths_args()));
    expected.extend(drain(lib.frameworks_args()));
    expected.extend(drain(lib.libs_args()));
    expected.extend(drain(lib.ld_args_args()));
    expected.extend(drain(lib.defines_args()));
    assert_eq!(lib.cc_args(), expected);
}

#[test]
fn description_can_be_walked_again() {
    let lib = full_library();
    assert_eq!(lib.cc_args(), lib.cc_args());
}

#[test]
fn accessors_copy_the_categories() {
    let lib = full_library();
    assert_eq!(lib.link_paths(), lib.link_paths);
    assert_eq!(lib.include_paths(), lib.include_paths);
    assert_eq!(lib.framework_paths(), lib.framework_paths);
    assert_eq!(lib.frameworks(), lib.frameworks);
    assert_eq!(lib.libs(), lib.libs);
    assert_eq!(lib.ld_args(), lib.ld_args);
    assert_eq!(lib.defines(), lib.defines);
}

#[test]
fn vec_iter_walks_in_order() {
    let v = vec![3u8, 1, 2];
    assert_eq!(vec_iter(&v).copied().collect::<Vec<u8>>(), vec![3, 1, 2]);
}
