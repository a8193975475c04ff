use vstd::prelude::*;

verus! {

/// Text up to the package name: the specification version and the header comments.
pub const HEADER: &'static str = "cabal-version:      2.4
-- The cabal-version field refers to the version of the .cabal specification,
-- and can be different from the cabal-install (the tool) version and the
-- Cabal (the library) version you are using. As such, the Cabal (the library)
-- version used must be equal or greater than the version stated in this field.
-- Starting from the specification version 2.2, the cabal-version field must be
-- the first thing in the cabal file.

-- Initial package description generated by 'cabal init'. For further
-- documentation, see: http://haskell.org/cabal/users-guide/
--
-- The name of the package.
name:               ";

/// Text between the package name and the version.
pub const AFTER_NAME: &'static str = "

-- The package version.
-- See the Haskell package versioning policy (PVP) for standards
-- guiding when and how versions should be incremented.
-- https://pvp.haskell.org
-- PVP summary:     +-+------- breaking API changes
--                  | | +----- non-breaking API additions
--                  | | | +--- code changes with no API change
version:            ";

/// Text between the version and the build-type block: the optional metadata fields, commented out.
pub const AFTER_VERSION: &'static str = "

-- A short (one-line) description of the package.
-- synopsis:

-- A longer description of the package.
-- description:

-- The license under which the package is released.
-- license:

-- The package author(s).
-- author:

-- An email address to which users can send suggestions, bug reports, and
-- patches.
-- maintainer:

-- A copyright notice.
-- copyright:

";

/// Text between the build-type block and the exposed module: the warnings stanza and the start of the library stanza.
pub const AFTER_BUILD_TYPE: &'static str = "

-- Extra doc files to be distributed with the package, such as a CHANGELOG or a
-- README.
-- extra-doc-files:

-- Extra source files to be distributed with the package, such as examples, or
-- a tutorial module.
-- extra-source-files:
--
-- FIXME: It's still unclear to me what would be the best strategy to let users
-- publish packages generated by `cargo-cabal` on Hackage. While it is pretty
-- hazardous to put Rust code in sdist archive (because that would require that
-- the library end-user have a Rust developer environment on this machine and
-- that wouldn't play well with cross-compilation), is it a good idea to
-- package generated platform-dependent library as source?

common warnings
    ghc-options: -Wall

library
    -- Import common warning flags.
    import:           warnings

    -- Modules exported by the library.
    exposed-modules:  ";

/// Text between the exposed module and the linkage block: the rest of the library stanza.
pub const AFTER_MODULE: &'static str = "

    -- Modules included in this library but not exported.
    -- other-modules:

    -- LANGUAGE extensions used by modules in this package.
    -- other-extensions:

    -- Other library packages from which modules are imported.
    build-depends:    base

    -- Directories containing source files.
    hs-source-dirs:   src

    -- Base language which the package is written in.
    default-language: Haskell2010

";

/// Closing comments.
pub const FOOTER: &'static str = "

-- This file was generated by `cargo-cabal`, but please don't hesitate to edit it!

-- We would rather rely on `cabal init --non-interactive` to generate this file
-- but there is no CLI arg to set `build-type: Custom` on which it sadly
-- currently have to rely on.";

/// Build-type block of nix mode: the host toolchain supplies the linking configuration.
pub const SIMPLE_BUILD_TYPE: &'static str = "
build-type:         Simple";

/// Build-type block otherwise: a custom setup step and its build-time dependencies.
pub const CUSTOM_BUILD_TYPE: &'static str = "
-- This let us hook Cabal steps to Setup.lhs script.
build-type:         Custom
custom-setup
    setup-depends:  Cabal, base, directory, process";

/// Linkage block of nix mode, up to the library name.
pub const EXTERNAL_LINKAGE_HEAD: &'static str = "
    -- `haskell.nix` tell GHC linker where to find the `libNAME.a` by setting
    -- automatically `extra-lib-dirs`:
    -- https://input-output-hk.github.io/haskell.nix/tutorials/pkg-map.html
    extra-libraries:  ";

/// Linkage block of nix mode, after the library name: the system libraries that Windows targets need.
pub const EXTERNAL_LINKAGE_TAIL: &'static str = "

    -- Cross-compilation to target `x86_64-w64-mingw32-cc` thrown a lot of
    -- `undefined reference to 'X'` errors during linking stage ...
  if os(windows)
    extra-libraries: userenv ws2_32 bcrypt
    -- Here is a mapping between library names and missing symbols:
    -- `bcrypt`  -> `BCryptGenRandom`
    -- `userenv` -> `GetUserProfileDirectoryW`
    -- `ws2_32`  -> `freeaddrinfo getaddrinfo WSASend WSARecv WSASocketW`";

/// Linkage block otherwise, up to the library name, which ends it.
pub const BUNDLED_LINKAGE_HEAD: &'static str = "
    -- Libraries that are bundled with the package.
    extra-bundled-libraries: ";

/// `c`, or `to` where `c` is `from`.
pub open spec fn swap_char(c: char, from: char, to: char) -> char {
    if c == from {
        to
    } else {
        c
    }
}

/// `s` with every `from` replaced by `to`, character for character.
pub open spec fn replace_char(s: Seq<char>, from: char, to: char) -> Seq<char> {
    s.map_values(|c: char| swap_char(c, from, to))
}

/// The library name: `name` with every `-` replaced by `_`.
pub open spec fn lib_name_of(name: Seq<char>) -> Seq<char> {
    replace_char(name, '-', '_')
}

/// The package name: `name` with every `_` replaced by `-`.
pub open spec fn package_name_of(name: Seq<char>) -> Seq<char> {
    replace_char(name, '_', '-')
}

/// The build-type block selected by the mode.
pub open spec fn build_type_block(enable_nix: bool) -> Seq<char> {
    if enable_nix {
        SIMPLE_BUILD_TYPE@
    } else {
        CUSTOM_BUILD_TYPE@
    }
}

/// The linkage block for library `lib` selected by the mode.
pub open spec fn linkage_block(lib: Seq<char>, enable_nix: bool) -> Seq<char> {
    if enable_nix {
        EXTERNAL_LINKAGE_HEAD@ + lib + EXTERNAL_LINKAGE_TAIL@
    } else {
        BUNDLED_LINKAGE_HEAD@ + lib
    }
}

/// The whole manifest for the given package name, module, version and mode.
pub open spec fn manifest(
    name: Seq<char>,
    module: Seq<char>,
    version: Seq<char>,
    enable_nix: bool,
) -> Seq<char> {
    HEADER@ + package_name_of(name) + AFTER_NAME@ + version + AFTER_VERSION@ + build_type_block(
        enable_nix,
    ) + AFTER_BUILD_TYPE@ + module + AFTER_MODULE@ + linkage_block(lib_name_of(name), enable_nix)
        + FOOTER@
}

/// Relies on String::push: the character is appended at the end.
#[verifier::external_body]
fn push_char(s: &mut String, c: char)
    ensures
        final(s)@ == old(s)@.push(c),
{
    s.push(c)
}

/// `s` with every `from` replaced by `to`.
fn replaced(s: &str, from: char, to: char) -> (r: String)
    ensures
        r@ == replace_char(s@, from, to),
{
    let mut r = String::new();
    let ghost mut n: int = 0;
    for c in it: s.chars()
        invariant
            it.seq() == s@,
            n == it.index(),
            r@ == replace_char(s@.take(n), from, to),
    {
        proof {
            assert(s@.take(n + 1) =~= s@.take(n).push(c));
        }
        if c == from {
            push_char(&mut r, to);
        } else {
            push_char(&mut r, c);
        }
        proof {
            assert(r@ =~= replace_char(s@.take(n + 1), from, to));
            n = n + 1;
        }
    }
    proof {
        assert(s@.take(n) =~= s@);
    }
    r
}

/// The library name: `name` with every `-` replaced by `_`.
pub fn lib_name(name: &str) -> (r: String)
    ensures
        r@ == lib_name_of(name@),
{
    replaced(name, '-', '_')
}

/// The package name: `name` with every `_` replaced by `-`.
pub fn package_name(name: &str) -> (r: String)
    ensures
        r@ == package_name_of(name@),
{
    replaced(name, '_', '-')
}

/// The manifest of package `name` exposing `module` at `version`; with `enable_nix` the
/// library is left for the host toolchain to find, otherwise it is bundled and a custom
/// setup step is declared.
pub fn generate(name: &str, module: &str, version: &str, enable_nix: bool) -> (r: String)
    ensures
        r@ == manifest(name@, module@, version@, enable_nix),
{
    let lib = lib_name(name);
    let package = package_name(name);
    let mut r = String::from_str(HEADER);
    r.append(package.as_str());
    r.append(AFTER_NAME);
    r.append(version);
    r.append(AFTER_VERSION);
    if enable_nix {
        r.append(SIMPLE_BUILD_TYPE);
    } else {
        r.append(CUSTOM_BUILD_TYPE);
    }
    r.append(AFTER_BUILD_TYPE);
    r.append(module);
    r.append(AFTER_MODULE);
    if enable_nix {
        r.append(EXTERNAL_LINKAGE_HEAD);
        r.append(lib.as_str());
        r.append(EXTERNAL_LINKAGE_TAIL);
    } else {
        r.append(BUNDLED_LINKAGE_HEAD);
        r.append(lib.as_str());
    }
    r.append(FOOTER);
    r
}

} // verus!
