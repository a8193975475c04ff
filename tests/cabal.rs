use cargo_cabal::cabal::{generate, lib_name, package_name};

const WINDOWS_LIBS: [&str; 3] = ["userenv", "ws2_32", "bcrypt"];

fn count(haystack: &str, needle: &str) -> usize {
    haystack.matches(needle).count()
}

#[test]
fn custom_mode_bundles_the_library() {
    let out = generate("my-lib", "MyLib", "0.1.0.0", false);
    assert!(out.contains("name:               my-lib\n"));
    assert!(out.contains("version:            0.1.0.0\n"));
    assert!(out.contains("build-type:         Custom"));
    assert!(out.contains("extra-bundled-libraries: my_lib"));
    assert!(out.contains("exposed-modules:  MyLib\n"));
    assert!(!out.contains("extra-libraries:"));
}

#[test]
fn nix_mode_leaves_the_library_to_the_host() {
    let out = generate("my_lib", "MyLib", "1.0.0", true);
    assert!(out.contains("name:               my-lib\n"));
    assert!(out.contains("build-type:         Simple"));
    assert!(out.contains("extra-libraries:  my_lib\n"));
    assert!(out.contains("if os(windows)"));
    assert!(out.contains("userenv ws2_32 bcrypt"));
    assert!(!out.contains("custom-setup"));
}

#[test]
fn empty_values_are_substituted() {
    let out = generate("", "", "", false);
    assert!(out.starts_with("cabal-version:      2.4\n"));
    assert!(out.contains("\nname:               \n"));
    assert!(out.contains("\nversion:            \n"));
    assert!(out.contains("exposed-modules:  \n"));
    assert!(out.ends_with("extra-bundled-libraries: \n\n-- This file was generated by `cargo-cabal`, but please don't hesitate to edit it!\n\n-- We would rather rely on `cabal init --non-interactive` to generate this file\n-- but there is no CLI arg to set `build-type: Custom` on which it sadly\n-- currently have to rely on."));
}

#[test]
fn mixed_separators_are_normalized_independently() {
    assert_eq!(lib_name("a-b_c"), "a_b_c");
    assert_eq!(package_name("a-b_c"), "a-b-c");
    let out = generate("a-b_c", "M", "1", true);
    assert!(out.contains("name:               a-b-c\n"));
    assert!(out.contains("extra-libraries:  a_b_c\n"));
    assert!(out.contains("exposed-modules:  M\n"));
    assert!(out.contains("version:            1\n"));
}

#[test]
fn names_without_separators_are_kept() {
    assert_eq!(lib_name("plain"), "plain");
    assert_eq!(package_name("plain"), "plain");
    assert_eq!(lib_name(""), "");
    assert_eq!(package_name(""), "");
}

#[test]
fn name_normalization_removes_one_separator_each() {
    let name = "foo_bar-baz--q__";
    let lib = lib_name(name);
    let package = package_name(name);
    assert_eq!(lib, "foo_bar_baz__q__");
    assert_eq!(package, "foo-bar-baz--q--");
    assert!(!lib.contains('-'));
    assert!(!package.contains('_'));
    assert_eq!(lib.chars().count(), name.chars().count());
    assert_eq!(package.chars().count(), name.chars().count());
}

#[test]
fn non_ascii_names_are_kept_character_for_character() {
    assert_eq!(lib_name("é-ü_ß"), "é_ü_ß");
    assert_eq!(package_name("é-ü_ß"), "é-ü-ß");
}

#[test]
fn repeated_calls_give_identical_output() {
    for nix in [false, true] {
        let a = generate("pkg-x", "Pkg.X", "2.3", nix);
        let b = generate("pkg-x", "Pkg.X", "2.3", nix);
        assert_eq!(a, b);
        assert_eq!(a.as_bytes(), b.as_bytes());
    }
}

#[test]
fn exactly_one_build_type_field() {
    for nix in [false, true] {
        let out = generate("some-pkg", "Some", "0.2", nix);
        let simple = count(&out, "build-type:         Simple");
        let custom = count(&out, "build-type:         Custom");
        assert_eq!(simple + custom, 1);
        assert_eq!(simple == 1, nix);
    }
}

#[test]
fn windows_libraries_only_in_nix_mode() {
    for nix in [false, true] {
        let out = generate("some-pkg", "Some", "0.2", nix);
        for lib in WINDOWS_LIBS {
            assert_eq!(out.contains(lib), nix);
        }
    }
}

#[test]
fn exactly_one_library_field() {
    for nix in [false, true] {
        let out = generate("some_pkg", "Some", "0.2", nix);
        let external = out.contains("extra-libraries:");
        let bundled = out.contains("extra-bundled-libraries:");
        assert!(external != bundled);
        assert_eq!(external, nix);
    }
}

#[test]
fn values_with_special_characters_are_embedded_as_is() {
    let out = generate("x", "A:B\nC", "1:2\n3", false);
    assert!(out.contains("\nversion:            1:2\n3\n"));
    assert!(out.contains("\n    exposed-modules:  A:B\nC\n"));
    assert_eq!(count(&out, "A:B\nC"), 1);
    assert_eq!(count(&out, "1:2\n3"), 1);
}

#[test]
fn only_the_values_differ_between_two_manifests() {
    let a = generate("n", "Mod", "1.0", true);
    let b = generate("n", "Other.Module", "1.0", true);
    assert_eq!(a.replace("Mod\n", "Other.Module\n"), b);
    let c = generate("n", "Mod", "9.9.9", true);
    assert_eq!(a.replacen("version:            1.0\n", "version:            9.9.9\n", 1), c);
    assert_eq!(b.len() - a.len(), "Other.Module".len() - "Mod".len());
}

#[test]
fn nix_block_lists_the_library_then_the_windows_stanza() {
    let out = generate("q-r", "Q", "0", true);
    let lib = out.find("extra-libraries:  q_r\n").unwrap();
    let windows = out.find("  if os(windows)\n    extra-libraries: userenv ws2_32 bcrypt\n").unwrap();
    assert!(lib < windows);
    assert!(out.contains("\ncommon warnings\n    ghc-options: -Wall\n"));
    assert!(out.contains("    default-language: Haskell2010\n"));
}
