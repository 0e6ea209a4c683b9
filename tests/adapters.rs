use cc_args::{CcArgs, Library, MergeCcArgs};

fn strings(v: &[&str]) -> Vec<String> {
    v.iter().map(|s| s.to_string()).collect()
}

fn library() -> Library {
    Library {
        link_paths: strings(&["/usr/lib"]),
        include_paths: strings(&["/usr/include/zstd"]),
        framework_paths: strings(&["/Library/Frameworks"]),
        frameworks: strings(&["Security"]),
        libs: strings(&["zstd"]),
        ld_args: vec![strings(&["-rpath,", "/usr/lib"])],
        defines: vec![
            ("FOO".to_string(), None),
            ("BAR".to_string(), Some("1".to_string())),
        ],
    }
}

#[test]
fn bindgen_takes_the_canonical_stream() {
    let lib = library();
    let builder = bindgen::Builder::default().merge_cc_args(&lib);
    let flags = builder.command_line_flags();
    let sep = flags.iter().position(|f| f == "--").expect("separator");
    assert_eq!(flags[sep + 1..].to_vec(), lib.cc_args());
}

#[test]
fn bindgen_keeps_earlier_arguments() {
    let lib = library();
    let builder = bindgen::Builder::default().clang_arg("-v").merge_cc_args(&lib);
    let flags = builder.command_line_flags();
    let sep = flags.iter().position(|f| f == "--").expect("separator");
    let mut expected = vec!["-v".to_string()];
    expected.extend(lib.cc_args());
    assert_eq!(flags[sep + 1..].to_vec(), expected);
}

#[test]
fn cc_takes_definitions_and_header_paths_as_typed_calls() {
    let lib = library();
    let mut build = cc::Build::new();
    build
        .target("x86_64-unknown-linux-gnu")
        .host("x86_64-unknown-linux-gnu")
        .opt_level(0)
        .debug(false)
        .cargo_metadata(false)
        .warnings(false)
        .extra_warnings(false)
        .no_default_flags(true)
        .compiler("cc");
    let build = build.merge_cc_args(&lib);
    let tool = build.get_compiler();
    let args: Vec<String> = tool
        .args()
        .iter()
        .map(|a| a.to_string_lossy().into_owned())
        .collect();
    let pos = |s: &str| args.iter().position(|a| a == s).unwrap_or_else(|| panic!("{s} missing: {args:?}"));
    assert_eq!(args[pos("/usr/include/zstd") - 1], "-I");
    assert!(args.contains(&"-DFOO".to_string()));
    assert!(args.contains(&"-DBAR=1".to_string()));
    let generic = [
        "-L/usr/lib",
        "-F/Library/Frameworks",
        "-lzstd",
        "-framework",
        "Security",
        "-Wl,-rpath,/usr/lib",
    ];
    let at: Vec<usize> = generic.iter().map(|g| pos(g)).collect();
    for w in at.windows(2) {
        assert_eq!(w[0] + 1, w[1], "{args:?}");
    }
    assert!(!args.contains(&"-I/usr/include/zstd".to_string()));
}

