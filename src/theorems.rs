use vstd::prelude::*;
use crate::cabal::{
    build_type_block, lib_name_of, linkage_block, manifest, package_name_of,
    AFTER_BUILD_TYPE, AFTER_MODULE, AFTER_NAME, AFTER_VERSION, BUNDLED_LINKAGE_HEAD,
    CUSTOM_BUILD_TYPE, EXTERNAL_LINKAGE_HEAD, EXTERNAL_LINKAGE_TAIL, FOOTER, HEADER,
    SIMPLE_BUILD_TYPE,
};
use crate::text::{
    agrees_from, clear_of, ends_with, free_of, lemma_free_of, lemma_occurs_at,
    lemma_occurs_within, lemma_skip_clear, lemma_split_at_line, occurs, splice,
};

verus! {

/// The label of the package name field.
pub open spec fn name_label() -> Seq<char> {
    "name:               "@
}

/// The label of the version field.
pub open spec fn version_label() -> Seq<char> {
    "version:            "@
}

/// The label of the exposed-module field.
pub open spec fn module_label() -> Seq<char> {
    "exposed-modules:  "@
}

/// Where the package name starts in the manifest.
pub open spec fn name_at() -> int {
    HEADER@.len() as int
}

/// Where the version starts in the manifest of a package called `name`.
pub open spec fn version_at(name: Seq<char>) -> int {
    name_at() + package_name_of(name).len() + AFTER_NAME@.len()
}

/// Where the module starts in the manifest.
pub open spec fn module_at(name: Seq<char>, version: Seq<char>, enable_nix: bool) -> int {
    version_at(name) + version.len() + AFTER_VERSION@.len() + build_type_block(enable_nix).len()
        + AFTER_BUILD_TYPE@.len()
}

/// The build-type field of nix mode.
pub open spec fn simple_field() -> Seq<char> {
    "build-type:         Simple"@
}

/// The build-type field of the custom setup mode.
pub open spec fn custom_field() -> Seq<char> {
    "build-type:         Custom"@
}

/// The Windows system library that resolves the user profile directory.
pub open spec fn userenv_library() -> Seq<char> {
    "userenv"@
}

/// The Windows system library of sockets and address resolution.
pub open spec fn ws2_32_library() -> Seq<char> {
    "ws2_32"@
}

/// The Windows system library that generates random numbers.
pub open spec fn bcrypt_library() -> Seq<char> {
    "bcrypt"@
}

/// The field that names a library for the host toolchain to find.
pub open spec fn external_field() -> Seq<char> {
    "extra-libraries:"@
}

/// The field that names a library shipped inside the package.
pub open spec fn bundled_field() -> Seq<char> {
    "extra-bundled-libraries:"@
}

/// The fixed text `HEADER`, as far as the proofs about the whole manifest need it.
pub proof fn lemma_header_text()
    ensures
        ends_with(HEADER@, name_label()),
        clear_of(HEADER@, simple_field()),
        clear_of(HEADER@, custom_field()),
        clear_of(HEADER@, userenv_library()),
        clear_of(HEADER@, ws2_32_library()),
        clear_of(HEADER@, bcrypt_library()),
        clear_of(HEADER@, external_field()),
        clear_of(HEADER@, bundled_field()),
{
    reveal_strlit("cabal-version:      2.4
-- The cabal-version field refers to the version of the .cabal specification,
-- and can be different from the cabal-install (the tool) version and the
-- Cabal (the library) version you are using. As such, the Cabal (the library)
-- version used must be equal or greater than the version stated in this field.
-- Starting from the specification version 2.2, the cabal-version field must be
-- the first thing in the cabal file.

-- Initial package description generated by 'cabal init'. For further
-- documentation, see: http://haskell.org/cabal/users-guide/
--
-- The name of the package.
name:               ");
    reveal_strlit("bcrypt");
    reveal_strlit("extra-bundled-libraries:");
    reveal_strlit("build-type:         Custom");
    reveal_strlit("extra-libraries:");
    reveal_strlit("build-type:         Simple");
    reveal_strlit("userenv");
    reveal_strlit("ws2_32");
    reveal_with_fuel(agrees_from, 26);
    assert(HEADER@ == "cabal-version:      2.4
-- The cabal-version field refers to the version of the .cabal specification,
-- and can be different from the cabal-install (the tool) version and the
-- Cabal (the library) version you are using. As such, the Cabal (the library)
-- version used must be equal or greater than the version stated in this field.
-- Starting from the specification version 2.2, the cabal-version field must be
-- the first thing in the cabal file.

-- Initial package description generated by 'cabal init'. For further
-- documentation, see: http://haskell.org/cabal/users-guide/
--
-- The name of the package.
name:               "@);
    reveal_strlit("name:               ");
    assert(HEADER@.subrange(
        HEADER@.len() - name_label().len(),
        HEADER@.len() as int,
    ) =~= name_label());
}

/// The fixed text `AFTER_NAME`, as far as the proofs about the whole manifest need it.
pub proof fn lemma_after_name_text()
    ensures
        ends_with(AFTER_NAME@, version_label()),
        AFTER_NAME@.len() > 0,
        AFTER_NAME@[0] == '\n',
        clear_of(AFTER_NAME@, simple_field()),
        clear_of(AFTER_NAME@, custom_field()),
        clear_of(AFTER_NAME@, userenv_library()),
        clear_of(AFTER_NAME@, ws2_32_library()),
        clear_of(AFTER_NAME@, bcrypt_library()),
        clear_of(AFTER_NAME@, external_field()),
        clear_of(AFTER_NAME@, bundled_field()),
{
    reveal_strlit("

-- The package version.
-- See the Haskell package versioning policy (PVP) for standards
-- guiding when and how versions should be incremented.
-- https://pvp.haskell.org
-- PVP summary:     +-+------- breaking API changes
--                  | | +----- non-breaking API additions
--                  | | | +--- code changes with no API change
version:            ");
    reveal_strlit("bcrypt");
    reveal_strlit("extra-bundled-libraries:");
    reveal_strlit("build-type:         Custom");
    reveal_strlit("extra-libraries:");
    reveal_strlit("build-type:         Simple");
    reveal_strlit("userenv");
    reveal_strlit("ws2_32");
    reveal_with_fuel(agrees_from, 26);
    assert(AFTER_NAME@ == "

-- The package version.
-- See the Haskell package versioning policy (PVP) for standards
-- guiding when and how versions should be incremented.
-- https://pvp.haskell.org
-- PVP summary:     +-+------- breaking API changes
--                  | | +----- non-breaking API additions
--                  | | | +--- code changes with no API change
version:            "@);
    reveal_strlit("version:            ");
    assert(AFTER_NAME@.subrange(
        AFTER_NAME@.len() - version_label().len(),
        AFTER_NAME@.len() as int,
    ) =~= version_label());
}

/// The fixed text `AFTER_VERSION`, as far as the proofs about the whole manifest need it.
pub proof fn lemma_after_version_text()
    ensures
        AFTER_VERSION@.len() > 0,
        AFTER_VERSION@[0] == '\n',
        free_of(AFTER_VERSION@, simple_field()),
        free_of(AFTER_VERSION@, custom_field()),
        free_of(AFTER_VERSION@, userenv_library()),
        free_of(AFTER_VERSION@, ws2_32_library()),
        free_of(AFTER_VERSION@, bcrypt_library()),
        free_of(AFTER_VERSION@, external_field()),
        free_of(AFTER_VERSION@, bundled_field()),
{
    reveal_strlit("

-- A short (one-line) description of the package.
-- synopsis:

-- A longer description of the package.
-- description:

-- The license under which the package is released.
-- license:

-- The package author(s).
-- author:

-- An email address to which users can send suggestions, bug reports, and
-- patches.
-- maintainer:

-- A copyright notice.
-- copyright:

");
    reveal_strlit("bcrypt");
    reveal_strlit("extra-bundled-libraries:");
    reveal_strlit("build-type:         Custom");
    reveal_strlit("extra-libraries:");
    reveal_strlit("build-type:         Simple");
    reveal_strlit("userenv");
    reveal_strlit("ws2_32");
    reveal_with_fuel(agrees_from, 26);
    assert(AFTER_VERSION@ == "

-- A short (one-line) description of the package.
-- synopsis:

-- A longer description of the package.
-- description:

-- The license under which the package is released.
-- license:

-- The package author(s).
-- author:

-- An email address to which users can send suggestions, bug reports, and
-- patches.
-- maintainer:

-- A copyright notice.
-- copyright:

"@);
}

/// The fixed text `AFTER_BUILD_TYPE`, as far as the proofs about the whole manifest need it.
#[verifier::rlimit(100)]
pub proof fn lemma_after_build_type_text()
    ensures
        ends_with(AFTER_BUILD_TYPE@, module_label()),
        AFTER_BUILD_TYPE@.len() > 0,
        AFTER_BUILD_TYPE@[0] == '\n',
        clear_of(AFTER_BUILD_TYPE@, simple_field()),
        clear_of(AFTER_BUILD_TYPE@, custom_field()),
        clear_of(AFTER_BUILD_TYPE@, userenv_library()),
        clear_of(AFTER_BUILD_TYPE@, ws2_32_library()),
        clear_of(AFTER_BUILD_TYPE@, bcrypt_library()),
        clear_of(AFTER_BUILD_TYPE@, external_field()),
        clear_of(AFTER_BUILD_TYPE@, bundled_field()),
{
    reveal_strlit("

-- Extra doc files to be distributed with the package, such as a CHANGELOG or a
-- README.
-- extra-doc-files:

-- Extra source files to be distributed with the package, such as examples, or
-- a tutorial module.
-- extra-source-files:
--
-- FIXME: It's still unclear to me what would be the best strategy to let users
-- publish packages generated by `cargo-cabal` on Hackage. While it is pretty
-- hazardous to put Rust code in sdist archive (because that would require that
-- the library end-user have a Rust developer environment on this machine and
-- that wouldn't play well with cross-compilation), is it a good idea to
-- package generated platform-dependent library as source?

common warnings
    ghc-options: -Wall

library
    -- Import common warning flags.
    import:           warnings

    -- Modules exported by the library.
    exposed-modules:  ");
    reveal_strlit("bcrypt");
    reveal_strlit("extra-bundled-libraries:");
    reveal_strlit("build-type:         Custom");
    reveal_strlit("extra-libraries:");
    reveal_strlit("build-type:         Simple");
    reveal_strlit("userenv");
    reveal_strlit("ws2_32");
    reveal_with_fuel(agrees_from, 26);
    assert(AFTER_BUILD_TYPE@ == "

-- Extra doc files to be distributed with the package, such as a CHANGELOG or a
-- README.
-- extra-doc-files:

-- Extra source files to be distributed with the package, such as examples, or
-- a tutorial module.
-- extra-source-files:
--
-- FIXME: It's still unclear to me what would be the best strategy to let users
-- publish packages generated by `cargo-cabal` on Hackage. While it is pretty
-- hazardous to put Rust code in sdist archive (because that would require that
-- the library end-user have a Rust developer environment on this machine and
-- that wouldn't play well with cross-compilation), is it a good idea to
-- package generated platform-dependent library as source?

common warnings
    ghc-options: -Wall

library
    -- Import common warning flags.
    import:           warnings

    -- Modules exported by the library.
    exposed-modules:  "@);
    reveal_strlit("exposed-modules:  ");
    assert(AFTER_BUILD_TYPE@.subrange(
        AFTER_BUILD_TYPE@.len() - module_label().len(),
        AFTER_BUILD_TYPE@.len() as int,
    ) =~= module_label());
}

/// The fixed text `AFTER_MODULE`, as far as the proofs about the whole manifest need it.
pub proof fn lemma_after_module_text()
    ensures
        AFTER_MODULE@.len() > 0,
        AFTER_MODULE@[0] == '\n',
        free_of(AFTER_MODULE@, simple_field()),
        free_of(AFTER_MODULE@, custom_field()),
        free_of(AFTER_MODULE@, userenv_library()),
        free_of(AFTER_MODULE@, ws2_32_library()),
        free_of(AFTER_MODULE@, bcrypt_library()),
        free_of(AFTER_MODULE@, external_field()),
        free_of(AFTER_MODULE@, bundled_field()),
{
    reveal_strlit("

    -- Modules included in this library but not exported.
    -- other-modules:

    -- LANGUAGE extensions used by modules in this package.
    -- other-extensions:

    -- Other library packages from which modules are imported.
    build-depends:    base

    -- Directories containing source files.
    hs-source-dirs:   src

    -- Base language which the package is written in.
    default-language: Haskell2010

");
    reveal_strlit("bcrypt");
    reveal_strlit("extra-bundled-libraries:");
    reveal_strlit("build-type:         Custom");
    reveal_strlit("extra-libraries:");
    reveal_strlit("build-type:         Simple");
    reveal_strlit("userenv");
    reveal_strlit("ws2_32");
    reveal_with_fuel(agrees_from, 26);
    assert(AFTER_MODULE@ == "

    -- Modules included in this library but not exported.
    -- other-modules:

    -- LANGUAGE extensions used by modules in this package.
    -- other-extensions:

    -- Other library packages from which modules are imported.
    build-depends:    base

    -- Directories containing source files.
    hs-source-dirs:   src

    -- Base language which the package is written in.
    default-language: Haskell2010

"@);
}

/// The fixed text `FOOTER`, as far as the proofs about the whole manifest need it.
pub proof fn lemma_footer_text()
    ensures
        FOOTER@.len() > 0,
        FOOTER@[0] == '\n',
        free_of(FOOTER@, simple_field()),
        free_of(FOOTER@, custom_field()),
        free_of(FOOTER@, userenv_library()),
        free_of(FOOTER@, ws2_32_library()),
        free_of(FOOTER@, bcrypt_library()),
        free_of(FOOTER@, external_field()),
        free_of(FOOTER@, bundled_field()),
{
    reveal_strlit("

-- This file was generated by `cargo-cabal`, but please don't hesitate to edit it!

-- We would rather rely on `cabal init --non-interactive` to generate this file
-- but there is no CLI arg to set `build-type: Custom` on which it sadly
-- currently have to rely on.");
    reveal_strlit("bcrypt");
    reveal_strlit("extra-bundled-libraries:");
    reveal_strlit("build-type:         Custom");
    reveal_strlit("extra-libraries:");
    reveal_strlit("build-type:         Simple");
    reveal_strlit("userenv");
    reveal_strlit("ws2_32");
    reveal_with_fuel(agrees_from, 26);
    assert(FOOTER@ == "

-- This file was generated by `cargo-cabal`, but please don't hesitate to edit it!

-- We would rather rely on `cabal init --non-interactive` to generate this file
-- but there is no CLI arg to set `build-type: Custom` on which it sadly
-- currently have to rely on."@);
}

/// The fixed text `SIMPLE_BUILD_TYPE`, as far as the proofs about the whole manifest need it.
pub proof fn lemma_simple_build_type_text()
    ensures
        SIMPLE_BUILD_TYPE@.len() > 0,
        SIMPLE_BUILD_TYPE@[0] == '\n',
        free_of(SIMPLE_BUILD_TYPE@, custom_field()),
        free_of(SIMPLE_BUILD_TYPE@, bundled_field()),
        occurs(simple_field(), SIMPLE_BUILD_TYPE@),
{
    reveal_strlit("
build-type:         Simple");
    reveal_strlit("extra-bundled-libraries:");
    reveal_strlit("build-type:         Custom");
    reveal_strlit("build-type:         Simple");
    reveal_with_fuel(agrees_from, 26);
    assert(SIMPLE_BUILD_TYPE@ == "
build-type:         Simple"@);
    lemma_occurs_at(SIMPLE_BUILD_TYPE@, simple_field(), 1);
}

/// The fixed text `CUSTOM_BUILD_TYPE`, as far as the proofs about the whole manifest need it.
pub proof fn lemma_custom_build_type_text()
    ensures
        CUSTOM_BUILD_TYPE@.len() > 0,
        CUSTOM_BUILD_TYPE@[0] == '\n',
        free_of(CUSTOM_BUILD_TYPE@, simple_field()),
        free_of(CUSTOM_BUILD_TYPE@, userenv_library()),
        free_of(CUSTOM_BUILD_TYPE@, ws2_32_library()),
        free_of(CUSTOM_BUILD_TYPE@, bcrypt_library()),
        free_of(CUSTOM_BUILD_TYPE@, external_field()),
        occurs(custom_field(), CUSTOM_BUILD_TYPE@),
{
    reveal_strlit("
-- This let us hook Cabal steps to Setup.lhs script.
build-type:         Custom
custom-setup
    setup-depends:  Cabal, base, directory, process");
    reveal_strlit("bcrypt");
    reveal_strlit("build-type:         Custom");
    reveal_strlit("extra-libraries:");
    reveal_strlit("build-type:         Simple");
    reveal_strlit("userenv");
    reveal_strlit("ws2_32");
    reveal_with_fuel(agrees_from, 26);
    assert(CUSTOM_BUILD_TYPE@ == "
-- This let us hook Cabal steps to Setup.lhs script.
build-type:         Custom
custom-setup
    setup-depends:  Cabal, base, directory, process"@);
    lemma_occurs_at(CUSTOM_BUILD_TYPE@, custom_field(), 54);
}

/// The fixed text `EXTERNAL_LINKAGE_HEAD`, as far as the proofs about the whole manifest need it.
pub proof fn lemma_external_linkage_head_text()
    ensures
        EXTERNAL_LINKAGE_HEAD@.len() > 0,
        EXTERNAL_LINKAGE_HEAD@[0] == '\n',
        clear_of(EXTERNAL_LINKAGE_HEAD@, custom_field()),
        clear_of(EXTERNAL_LINKAGE_HEAD@, bundled_field()),
        occurs(external_field(), EXTERNAL_LINKAGE_HEAD@),
{
    reveal_strlit("
    -- `haskell.nix` tell GHC linker where to find the `libNAME.a` by setting
    -- automatically `extra-lib-dirs`:
    -- https://input-output-hk.github.io/haskell.nix/tutorials/pkg-map.html
    extra-libraries:  ");
    reveal_strlit("extra-bundled-libraries:");
    reveal_strlit("build-type:         Custom");
    reveal_strlit("extra-libraries:");
    reveal_with_fuel(agrees_from, 26);
    assert(EXTERNAL_LINKAGE_HEAD@ == "
    -- `haskell.nix` tell GHC linker where to find the `libNAME.a` by setting
    -- automatically `extra-lib-dirs`:
    -- https://input-output-hk.github.io/haskell.nix/tutorials/pkg-map.html
    extra-libraries:  "@);
    lemma_occurs_at(EXTERNAL_LINKAGE_HEAD@, external_field(), 198);
}

/// The fixed text `EXTERNAL_LINKAGE_TAIL`, as far as the proofs about the whole manifest need it.
pub proof fn lemma_external_linkage_tail_text()
    ensures
        EXTERNAL_LINKAGE_TAIL@.len() > 0,
        EXTERNAL_LINKAGE_TAIL@[0] == '\n',
        free_of(EXTERNAL_LINKAGE_TAIL@, custom_field()),
        free_of(EXTERNAL_LINKAGE_TAIL@, bundled_field()),
        occurs(userenv_library(), EXTERNAL_LINKAGE_TAIL@),
        occurs(ws2_32_library(), EXTERNAL_LINKAGE_TAIL@),
        occurs(bcrypt_library(), EXTERNAL_LINKAGE_TAIL@),
{
    reveal_strlit("

    -- Cross-compilation to target `x86_64-w64-mingw32-cc` thrown a lot of
    -- `undefined reference to 'X'` errors during linking stage ...
  if os(windows)
    extra-libraries: userenv ws2_32 bcrypt
    -- Here is a mapping between library names and missing symbols:
    -- `bcrypt`  -> `BCryptGenRandom`
    -- `userenv` -> `GetUserProfileDirectoryW`
    -- `ws2_32`  -> `freeaddrinfo getaddrinfo WSASend WSARecv WSASocketW`");
    reveal_strlit("bcrypt");
    reveal_strlit("extra-bundled-libraries:");
    reveal_strlit("build-type:         Custom");
    reveal_strlit("userenv");
    reveal_strlit("ws2_32");
    reveal_with_fuel(agrees_from, 26);
    assert(EXTERNAL_LINKAGE_TAIL@ == "

    -- Cross-compilation to target `x86_64-w64-mingw32-cc` thrown a lot of
    -- `undefined reference to 'X'` errors during linking stage ...
  if os(windows)
    extra-libraries: userenv ws2_32 bcrypt
    -- Here is a mapping between library names and missing symbols:
    -- `bcrypt`  -> `BCryptGenRandom`
    -- `userenv` -> `GetUserProfileDirectoryW`
    -- `ws2_32`  -> `freeaddrinfo getaddrinfo WSASend WSARecv WSASocketW`"@);
    lemma_occurs_at(EXTERNAL_LINKAGE_TAIL@, userenv_library(), 183);
    lemma_occurs_at(EXTERNAL_LINKAGE_TAIL@, ws2_32_library(), 191);
    lemma_occurs_at(EXTERNAL_LINKAGE_TAIL@, bcrypt_library(), 198);
}

/// The fixed text `BUNDLED_LINKAGE_HEAD`, as far as the proofs about the whole manifest need it.
pub proof fn lemma_bundled_linkage_head_text()
    ensures
        BUNDLED_LINKAGE_HEAD@.len() > 0,
        BUNDLED_LINKAGE_HEAD@[0] == '\n',
        clear_of(BUNDLED_LINKAGE_HEAD@, simple_field()),
        clear_of(BUNDLED_LINKAGE_HEAD@, userenv_library()),
        clear_of(BUNDLED_LINKAGE_HEAD@, ws2_32_library()),
        clear_of(BUNDLED_LINKAGE_HEAD@, bcrypt_library()),
        clear_of(BUNDLED_LINKAGE_HEAD@, external_field()),
        occurs(bundled_field(), BUNDLED_LINKAGE_HEAD@),
{
    reveal_strlit("
    -- Libraries that are bundled with the package.
    extra-bundled-libraries: ");
    reveal_strlit("bcrypt");
    reveal_strlit("extra-bundled-libraries:");
    reveal_strlit("extra-libraries:");
    reveal_strlit("build-type:         Simple");
    reveal_strlit("userenv");
    reveal_strlit("ws2_32");
    reveal_with_fuel(agrees_from, 26);
    assert(BUNDLED_LINKAGE_HEAD@ == "
    -- Libraries that are bundled with the package.
    extra-bundled-libraries: "@);
    lemma_occurs_at(BUNDLED_LINKAGE_HEAD@, bundled_field(), 57);
}

/// All the fixed text of the manifest, for both modes.
proof fn lemma_fixed_texts()
    ensures
        AFTER_NAME@.len() > 0 && AFTER_NAME@[0] == '\n',
        AFTER_VERSION@.len() > 0 && AFTER_VERSION@[0] == '\n',
        AFTER_BUILD_TYPE@.len() > 0 && AFTER_BUILD_TYPE@[0] == '\n',
        AFTER_MODULE@.len() > 0 && AFTER_MODULE@[0] == '\n',
        FOOTER@.len() > 0 && FOOTER@[0] == '\n',
        SIMPLE_BUILD_TYPE@.len() > 0 && SIMPLE_BUILD_TYPE@[0] == '\n',
        CUSTOM_BUILD_TYPE@.len() > 0 && CUSTOM_BUILD_TYPE@[0] == '\n',
        EXTERNAL_LINKAGE_HEAD@.len() > 0 && EXTERNAL_LINKAGE_HEAD@[0] == '\n',
        EXTERNAL_LINKAGE_TAIL@.len() > 0 && EXTERNAL_LINKAGE_TAIL@[0] == '\n',
        BUNDLED_LINKAGE_HEAD@.len() > 0 && BUNDLED_LINKAGE_HEAD@[0] == '\n',
{
    lemma_header_text();
    lemma_after_name_text();
    lemma_after_version_text();
    lemma_after_build_type_text();
    lemma_after_module_text();
    lemma_footer_text();
    lemma_simple_build_type_text();
    lemma_custom_build_type_text();
    lemma_external_linkage_head_text();
    lemma_external_linkage_tail_text();
    lemma_bundled_linkage_head_text();
}

/// None of the values that `name`, `module` and `version` put into the manifest holds `p`.
pub open spec fn inputs_free_of(
    name: Seq<char>,
    module: Seq<char>,
    version: Seq<char>,
    p: Seq<char>,
) -> bool {
    &&& !occurs(p, package_name_of(name))
    &&& !occurs(p, lib_name_of(name))
    &&& !occurs(p, module)
    &&& !occurs(p, version)
}

/// The fixed text of the manifest in the given mode holds no `p`, not even where it meets
/// a supplied value.
pub open spec fn fixed_text_free_of(p: Seq<char>, enable_nix: bool) -> bool {
    &&& clear_of(HEADER@, p)
    &&& clear_of(AFTER_NAME@, p)
    &&& free_of(AFTER_VERSION@, p)
    &&& free_of(build_type_block(enable_nix), p)
    &&& clear_of(AFTER_BUILD_TYPE@, p)
    &&& free_of(AFTER_MODULE@, p)
    &&& free_of(FOOTER@, p)
    &&& enable_nix ==> clear_of(EXTERNAL_LINKAGE_HEAD@, p) && free_of(EXTERNAL_LINKAGE_TAIL@, p)
    &&& !enable_nix ==> clear_of(BUNDLED_LINKAGE_HEAD@, p)
}

/// A one-line text that neither the fixed text nor the supplied values hold is not in the
/// manifest.
proof fn lemma_manifest_free_of(
    name: Seq<char>,
    module: Seq<char>,
    version: Seq<char>,
    enable_nix: bool,
    p: Seq<char>,
)
    requires
        p.len() > 0,
        !p.contains('\n'),
        fixed_text_free_of(p, enable_nix),
        inputs_free_of(name, module, version, p),
    ensures
        !occurs(p, manifest(name, module, version, enable_nix)),
{
    lemma_fixed_texts();
    let package = package_name_of(name);
    let lib = lib_name_of(name);
    let bt = build_type_block(enable_nix);
    let tail = if enable_nix {
        EXTERNAL_LINKAGE_TAIL@ + FOOTER@
    } else {
        FOOTER@
    };
    let link_head = if enable_nix {
        EXTERNAL_LINKAGE_HEAD@
    } else {
        BUNDLED_LINKAGE_HEAD@
    };
    let r10 = lib + tail;
    let r9 = link_head + r10;
    let r8 = AFTER_MODULE@ + r9;
    let r7 = module + r8;
    let r6 = AFTER_BUILD_TYPE@ + r7;
    let r5 = bt + r6;
    let r4 = AFTER_VERSION@ + r5;
    let r3 = version + r4;
    let r2 = AFTER_NAME@ + r3;
    let r1 = package + r2;
    assert(manifest(name, module, version, enable_nix) =~= HEADER@ + r1);
    if occurs(p, HEADER@ + r1) {
        lemma_skip_clear(HEADER@, r1, p);
        lemma_split_at_line(package, r2, p);
        lemma_skip_clear(AFTER_NAME@, r3, p);
        lemma_split_at_line(version, r4, p);
        lemma_split_at_line(AFTER_VERSION@, r5, p);
        lemma_free_of(AFTER_VERSION@, p);
        lemma_split_at_line(bt, r6, p);
        lemma_free_of(bt, p);
        lemma_skip_clear(AFTER_BUILD_TYPE@, r7, p);
        lemma_split_at_line(module, r8, p);
        lemma_split_at_line(AFTER_MODULE@, r9, p);
        lemma_free_of(AFTER_MODULE@, p);
        lemma_skip_clear(link_head, r10, p);
        lemma_split_at_line(lib, tail, p);
        if enable_nix {
            lemma_split_at_line(EXTERNAL_LINKAGE_TAIL@, FOOTER@, p);
            lemma_free_of(EXTERNAL_LINKAGE_TAIL@, p);
        }
        lemma_free_of(FOOTER@, p);
    }
}

/// A text in the build-type block is in the manifest.
proof fn lemma_in_build_type_block(
    name: Seq<char>,
    module: Seq<char>,
    version: Seq<char>,
    enable_nix: bool,
    p: Seq<char>,
)
    requires
        occurs(p, build_type_block(enable_nix)),
    ensures
        occurs(p, manifest(name, module, version, enable_nix)),
{
    let before = HEADER@ + package_name_of(name) + AFTER_NAME@ + version + AFTER_VERSION@;
    let after = AFTER_BUILD_TYPE@ + module + AFTER_MODULE@ + linkage_block(
        lib_name_of(name),
        enable_nix,
    ) + FOOTER@;
    lemma_occurs_within(before, build_type_block(enable_nix), after, p);
    assert(manifest(name, module, version, enable_nix) =~= before + build_type_block(enable_nix)
        + after);
}

/// A text in the fixed part of the linkage block is in the manifest.
proof fn lemma_in_linkage_block(
    name: Seq<char>,
    module: Seq<char>,
    version: Seq<char>,
    enable_nix: bool,
    p: Seq<char>,
)
    requires
        enable_nix ==> occurs(p, EXTERNAL_LINKAGE_HEAD@) || occurs(p, EXTERNAL_LINKAGE_TAIL@),
        !enable_nix ==> occurs(p, BUNDLED_LINKAGE_HEAD@),
    ensures
        occurs(p, manifest(name, module, version, enable_nix)),
{
    let lib = lib_name_of(name);
    let e = Seq::<char>::empty();
    if enable_nix {
        if occurs(p, EXTERNAL_LINKAGE_HEAD@) {
            lemma_occurs_within(e, EXTERNAL_LINKAGE_HEAD@, lib + EXTERNAL_LINKAGE_TAIL@, p);
            assert(e + EXTERNAL_LINKAGE_HEAD@ + (lib + EXTERNAL_LINKAGE_TAIL@) =~= linkage_block(
                lib,
                enable_nix,
            ));
        } else {
            lemma_occurs_within(EXTERNAL_LINKAGE_HEAD@ + lib, EXTERNAL_LINKAGE_TAIL@, e, p);
            assert(EXTERNAL_LINKAGE_HEAD@ + lib + EXTERNAL_LINKAGE_TAIL@ + e =~= linkage_block(
                lib,
                enable_nix,
            ));
        }
    } else {
        lemma_occurs_within(e, BUNDLED_LINKAGE_HEAD@, lib, p);
        assert(e + BUNDLED_LINKAGE_HEAD@ + lib =~= linkage_block(lib, enable_nix));
    }
    let before = HEADER@ + package_name_of(name) + AFTER_NAME@ + version + AFTER_VERSION@
        + build_type_block(enable_nix) + AFTER_BUILD_TYPE@ + module + AFTER_MODULE@;
    lemma_occurs_within(before, linkage_block(lib, enable_nix), FOOTER@, p);
}

/// The manifest holds exactly one of the two build-type fields: the simple one in nix mode,
/// the custom one otherwise. Values that themselves hold the other field's text are left out.
pub proof fn lemma_build_type_exclusive(
    name: Seq<char>,
    module: Seq<char>,
    version: Seq<char>,
    enable_nix: bool,
)
    requires
        enable_nix ==> inputs_free_of(name, module, version, custom_field()),
        !enable_nix ==> inputs_free_of(name, module, version, simple_field()),
    ensures
        occurs(simple_field(), manifest(name, module, version, enable_nix)) <==> enable_nix,
        occurs(custom_field(), manifest(name, module, version, enable_nix)) <==> !enable_nix,
{
    lemma_header_text();
    lemma_after_name_text();
    lemma_after_version_text();
    lemma_after_build_type_text();
    lemma_after_module_text();
    lemma_footer_text();
    lemma_simple_build_type_text();
    lemma_custom_build_type_text();
    lemma_external_linkage_head_text();
    lemma_external_linkage_tail_text();
    lemma_bundled_linkage_head_text();
    reveal_strlit("build-type:         Simple");
    reveal_strlit("build-type:         Custom");
    if enable_nix {
        lemma_in_build_type_block(name, module, version, enable_nix, simple_field());
        lemma_manifest_free_of(name, module, version, enable_nix, custom_field());
    } else {
        lemma_in_build_type_block(name, module, version, enable_nix, custom_field());
        lemma_manifest_free_of(name, module, version, enable_nix, simple_field());
    }
}

/// The three Windows system libraries are named in the manifest exactly in nix mode. Values
/// that themselves hold one of the names are left out.
pub proof fn lemma_windows_libraries(
    name: Seq<char>,
    module: Seq<char>,
    version: Seq<char>,
    enable_nix: bool,
)
    requires
        !enable_nix ==> inputs_free_of(name, module, version, userenv_library()),
        !enable_nix ==> inputs_free_of(name, module, version, ws2_32_library()),
        !enable_nix ==> inputs_free_of(name, module, version, bcrypt_library()),
    ensures
        occurs(userenv_library(), manifest(name, module, version, enable_nix)) <==> enable_nix,
        occurs(ws2_32_library(), manifest(name, module, version, enable_nix)) <==> enable_nix,
        occurs(bcrypt_library(), manifest(name, module, version, enable_nix)) <==> enable_nix,
{
    lemma_header_text();
    lemma_after_name_text();
    lemma_after_version_text();
    lemma_after_build_type_text();
    lemma_after_module_text();
    lemma_footer_text();
    lemma_simple_build_type_text();
    lemma_custom_build_type_text();
    lemma_external_linkage_head_text();
    lemma_external_linkage_tail_text();
    lemma_bundled_linkage_head_text();
    reveal_strlit("userenv");
    reveal_strlit("ws2_32");
    reveal_strlit("bcrypt");
    if enable_nix {
        lemma_in_linkage_block(name, module, version, enable_nix, userenv_library());
        lemma_in_linkage_block(name, module, version, enable_nix, ws2_32_library());
        lemma_in_linkage_block(name, module, version, enable_nix, bcrypt_library());
    } else {
        lemma_manifest_free_of(name, module, version, enable_nix, userenv_library());
        lemma_manifest_free_of(name, module, version, enable_nix, ws2_32_library());
        lemma_manifest_free_of(name, module, version, enable_nix, bcrypt_library());
    }
}

/// The manifest holds exactly one of the two library fields: the one for the host toolchain
/// in nix mode, the bundled one otherwise. Values that themselves hold the other field's text
/// are left out.
pub proof fn lemma_linkage_exclusive(
    name: Seq<char>,
    module: Seq<char>,
    version: Seq<char>,
    enable_nix: bool,
)
    requires
        enable_nix ==> inputs_free_of(name, module, version, bundled_field()),
        !enable_nix ==> inputs_free_of(name, module, version, external_field()),
    ensures
        occurs(external_field(), manifest(name, module, version, enable_nix)) <==> enable_nix,
        occurs(bundled_field(), manifest(name, module, version, enable_nix)) <==> !enable_nix,
{
    lemma_header_text();
    lemma_after_name_text();
    lemma_after_version_text();
    lemma_after_build_type_text();
    lemma_after_module_text();
    lemma_footer_text();
    lemma_simple_build_type_text();
    lemma_custom_build_type_text();
    lemma_external_linkage_head_text();
    lemma_external_linkage_tail_text();
    lemma_bundled_linkage_head_text();
    reveal_strlit("extra-libraries:");
    reveal_strlit("extra-bundled-libraries:");
    if enable_nix {
        lemma_in_linkage_block(name, module, version, enable_nix, external_field());
        lemma_manifest_free_of(name, module, version, enable_nix, bundled_field());
    } else {
        lemma_in_linkage_block(name, module, version, enable_nix, bundled_field());
        lemma_manifest_free_of(name, module, version, enable_nix, external_field());
    }
}

/// Equal arguments give the same manifest, character for character.
pub proof fn lemma_deterministic(
    name: Seq<char>,
    module: Seq<char>,
    version: Seq<char>,
    enable_nix: bool,
    name2: Seq<char>,
    module2: Seq<char>,
    version2: Seq<char>,
    enable_nix2: bool,
)
    requires
        name == name2,
        module == module2,
        version == version2,
        enable_nix == enable_nix2,
    ensures
        manifest(name, module, version, enable_nix) == manifest(
            name2,
            module2,
            version2,
            enable_nix2,
        ),
{
}

/// The library name holds no `-` and the package name no `_`; each is taken from `name`
/// itself, character for character, not from the other.
pub proof fn lemma_name_normalization(name: Seq<char>)
    ensures
        !lib_name_of(name).contains('-'),
        !package_name_of(name).contains('_'),
        lib_name_of(name).len() == name.len(),
        package_name_of(name).len() == name.len(),
        forall|i: int|
            0 <= i < name.len() ==> #[trigger] lib_name_of(name)[i] == if name[i] == '-' {
                '_'
            } else {
                name[i]
            },
        forall|i: int|
            0 <= i < name.len() ==> #[trigger] package_name_of(name)[i] == if name[i] == '_' {
                '-'
            } else {
                name[i]
            },
{
}

/// The package name, the version and the module each stand verbatim right after the label of
/// their field and end that line, whatever they hold. The version and the module stand there
/// once: the rest of the manifest is the same for any other value of them.
#[verifier::spinoff_prover]
#[verifier::rlimit(60)]
pub proof fn lemma_fields_verbatim(
    name: Seq<char>,
    module: Seq<char>,
    version: Seq<char>,
    enable_nix: bool,
)
    ensures
        manifest(name, module, version, enable_nix).subrange(
            name_at() - name_label().len(),
            name_at(),
        ) == name_label(),
        manifest(name, module, version, enable_nix).subrange(
            name_at(),
            name_at() + package_name_of(name).len(),
        ) == package_name_of(name),
        manifest(name, module, version, enable_nix)[name_at() + package_name_of(name).len()]
            == '\n',
        manifest(name, module, version, enable_nix).subrange(
            version_at(name) - version_label().len(),
            version_at(name),
        ) == version_label(),
        manifest(name, module, version, enable_nix).subrange(
            version_at(name),
            version_at(name) + version.len(),
        ) == version,
        manifest(name, module, version, enable_nix)[version_at(name) + version.len()] == '\n',
        manifest(name, module, version, enable_nix).subrange(
            module_at(name, version, enable_nix) - module_label().len(),
            module_at(name, version, enable_nix),
        ) == module_label(),
        manifest(name, module, version, enable_nix).subrange(
            module_at(name, version, enable_nix),
            module_at(name, version, enable_nix) + module.len(),
        ) == module,
        manifest(name, module, version, enable_nix)[module_at(name, version, enable_nix)
            + module.len()] == '\n',
        forall|other: Seq<char>|
            #[trigger] manifest(name, module, other, enable_nix) == splice(
                manifest(name, module, version, enable_nix),
                version_at(name),
                version.len() as int,
                other,
            ),
        forall|other: Seq<char>|
            #[trigger] manifest(name, other, version, enable_nix) == splice(
                manifest(name, module, version, enable_nix),
                module_at(name, version, enable_nix),
                module.len() as int,
                other,
            ),
{
    lemma_header_text();
    lemma_after_name_text();
    lemma_after_version_text();
    lemma_after_build_type_text();
    lemma_after_module_text();
    let out = manifest(name, module, version, enable_nix);
    let package = package_name_of(name);
    let n = name_at();
    let v = version_at(name);
    let m = module_at(name, version, enable_nix);
    let a = HEADER@ + package + AFTER_NAME@;
    let b = AFTER_VERSION@ + build_type_block(enable_nix) + AFTER_BUILD_TYPE@;
    let c = AFTER_MODULE@ + linkage_block(lib_name_of(name), enable_nix) + FOOTER@;
    assert(out =~= a + version + b + module + c);
    assert(out.subrange(n - name_label().len(), n) =~= HEADER@.subrange(
        HEADER@.len() - name_label().len(),
        HEADER@.len() as int,
    ));
    assert(out.subrange(n, n + package.len()) =~= package);
    assert(out[n + package.len()] == AFTER_NAME@[0]);
    assert(out.subrange(v - version_label().len(), v) =~= AFTER_NAME@.subrange(
        AFTER_NAME@.len() - version_label().len(),
        AFTER_NAME@.len() as int,
    ));
    assert(out.subrange(v, v + version.len()) =~= version);
    assert(out[v + version.len()] == AFTER_VERSION@[0]);
    assert(out.subrange(m - module_label().len(), m) =~= AFTER_BUILD_TYPE@.subrange(
        AFTER_BUILD_TYPE@.len() - module_label().len(),
        AFTER_BUILD_TYPE@.len() as int,
    ));
    assert(out.subrange(m, m + module.len()) =~= module);
    assert(out[m + module.len()] == AFTER_MODULE@[0]);
    assert(out.subrange(0, v) =~= a);
    assert(out.subrange(v + version.len(), out.len() as int) =~= b + module + c);
    assert(out.subrange(0, m) =~= a + version + b);
    assert(out.subrange(m + module.len(), out.len() as int) =~= c);
    assert forall|other: Seq<char>|
        #[trigger] manifest(name, module, other, enable_nix) == splice(
            out,
            v,
            version.len() as int,
            other,
        ) by {
        assert(manifest(name, module, other, enable_nix) =~= a + other + (b + module + c));
    }
    assert forall|other: Seq<char>|
        #[trigger] manifest(name, other, version, enable_nix) == splice(
            out,
            m,
            module.len() as int,
            other,
        ) by {
        assert(manifest(name, other, version, enable_nix) =~= a + version + b + other + c);
    }
}

} // verus!
