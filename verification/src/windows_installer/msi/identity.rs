//! Names and codes that identify an MSI package and its parts.
use vstd::prelude::*;

use crate::text::{
    concat2, decimal, has_prefix, int_decimal, is_ascii_alnum, is_ascii_alnum_char,
    join_seq, keep_alnum, alnum_only, owned, push_char, push_str, split_char, split_seq,
    starts_with, trim_both, trim_char, trim_ws,
};
use crate::windows_installer::config::{publisher_name_spec, InstallerConfig};

verus! {

/// The product name shown by the installer: the display name, else the
/// application name.
pub open spec fn display_name_spec(config: InstallerConfig) -> Seq<char> {
    match config.display_name {
        Some(name) => name@,
        None => config.app_name@,
    }
}

pub fn display_name(config: &InstallerConfig) -> (r: &str)
    ensures
        r@ == display_name_spec(*config),
{
    match &config.display_name {
        Some(name) => name.as_str(),
        None => config.app_name.as_str(),
    }
}

/// The manufacturer: the publisher when it is not blank, else `unknown`.
pub open spec fn manufacturer_spec(config: InstallerConfig) -> Seq<char> {
    match publisher_name_spec(config.publisher) {
        Some(p) => p,
        None => "unknown"@,
    }
}

pub fn manufacturer(config: &InstallerConfig) -> (r: &str)
    ensures
        r@ == manufacturer_spec(*config),
{
    match config.publisher_name() {
        Some(p) => p,
        None => "unknown",
    }
}

pub open spec fn stream_char(c: char) -> char {
    if is_ascii_alnum_char(c) || c == '-' || c == '_' {
        c
    } else {
        '-'
    }
}

/// The cabinet stream name for a package: its name with every character
/// other than ASCII letters, digits, `-` and `_` turned into `-`, dashes
/// trimmed from both ends, `app` when nothing is left, and `.cab` appended.
pub open spec fn cabinet_stream_name_spec(package: Seq<char>) -> Seq<char> {
    let base = trim_char(package.map_values(|c: char| stream_char(c)), '-');
    if base.len() == 0 {
        "app.cab"@
    } else {
        base + ".cab"@
    }
}

pub fn cabinet_stream_name(package: &str) -> (r: String)
    ensures
        r@ == cabinet_stream_name_spec(package@),
{
    let chars = crate::text::chars_of(package);
    let mut mapped = String::new();
    let mut i: usize = 0;
    while i < chars.len()
        invariant
            chars@ == package@,
            i <= chars@.len(),
            mapped@ == package@.take(i as int).map_values(|c: char| stream_char(c)),
        decreases chars@.len() - i,
    {
        let c = chars[i];
        let kept = if is_ascii_alnum(c) || c == '-' || c == '_' { c } else { '-' };
        push_char(&mut mapped, kept);
        i = i + 1;
        assert(package@.take(i as int).map_values(|c: char| stream_char(c))
            == package@.take(i - 1).map_values(|c: char| stream_char(c)).push(stream_char(c)));
    }
    assert(package@.take(chars@.len() as int) == package@);
    let mut name = trim_both(mapped.as_str(), '-');
    if name.as_str().unicode_len() == 0 {
        return owned("app.cab");
    }
    push_str(&mut name, ".cab");
    name
}

/// An MSI identifier made of the ASCII letters and digits of `value`, or
/// `Item` when there are none.
pub open spec fn identifier_spec(value: Seq<char>) -> Seq<char> {
    if alnum_only(value).len() == 0 {
        "Item"@
    } else {
        alnum_only(value)
    }
}

pub fn identifier(value: &str) -> (r: String)
    ensures
        r@ == identifier_spec(value@),
{
    let id = keep_alnum(value);
    if id.as_str().unicode_len() == 0 {
        owned("Item")
    } else {
        id
    }
}

/// The first three dot-separated parts of `version`, padded with `0` parts
/// to three and joined with dots.
pub open spec fn msi_version_spec(version: Seq<char>) -> Seq<char> {
    let parts = split_seq(version, '.');
    let taken = if parts.len() >= 3 { parts.take(3) } else { parts };
    let padded = if taken.len() == 1 {
        taken + seq![seq!['0'], seq!['0']]
    } else if taken.len() == 2 {
        taken + seq![seq!['0']]
    } else {
        taken
    };
    join_seq(padded, seq!['.'])
}

pub fn msi_version(version: &str) -> (r: String)
    ensures
        r@ == msi_version_spec(version@),
{
    let parts = split_char(version, '.');
    let ghost sp = split_seq(version@, '.');
    let first = &parts[0];
    let mut out = owned(first.as_str());
    let second: &str = if parts.len() >= 2 { parts[1].as_str() } else { "0" };
    let third: &str = if parts.len() >= 3 { parts[2].as_str() } else { "0" };
    push_char(&mut out, '.');
    push_str(&mut out, second);
    push_char(&mut out, '.');
    push_str(&mut out, third);
    proof {
        reveal_strlit("0");
        let taken = if sp.len() >= 3 { sp.take(3) } else { sp };
        let padded = if taken.len() == 1 {
            taken + seq![seq!['0'], seq!['0']]
        } else if taken.len() == 2 {
            taken + seq![seq!['0']]
        } else {
            taken
        };
        assert(padded.len() == 3);
        assert(padded[0] == parts@[0]@);
        assert(padded[1] == second@);
        assert(padded[2] == third@);
        assert(padded.drop_last().drop_last() == seq![padded[0]]);
        assert(padded.drop_last().last() == padded[1]);
        let p2 = padded.drop_last();
        assert(p2.len() == 2);
        assert(join_seq(p2.drop_last(), seq!['.']) == padded[0]);
        assert(join_seq(p2, seq!['.']) == padded[0] + seq!['.'] + padded[1]);
        assert(out@ == padded[0] + seq!['.'] + padded[1] + seq!['.'] + padded[2]);
    }
    out
}

/// The architecture part of a target triple: the text before its first `-`,
/// when it has one.
pub open spec fn target_architecture(target: Seq<char>) -> Option<Seq<char>> {
    if split_seq(target, '-').len() > 1 {
        Some(split_seq(target, '-')[0])
    } else {
        None
    }
}

/// The MSI platform of a target: `Arm64` for `aarch64`, `x64` for `x86_64`,
/// else `Intel`.
pub open spec fn msi_platform_spec(target: Seq<char>) -> Seq<char> {
    match target_architecture(target) {
        Some(arch) => if arch == "aarch64"@ {
            "Arm64"@
        } else if arch == "x86_64"@ {
            "x64"@
        } else {
            "Intel"@
        },
        None => "Intel"@,
    }
}

pub fn msi_platform(target: &str) -> (r: &'static str)
    ensures
        r@ == msi_platform_spec(target@),
{
    let parts = split_char(target, '-');
    if parts.len() > 1 {
        let arch = parts[0].as_str();
        if crate::text::str_eq(arch, "aarch64") {
            "Arm64"
        } else if crate::text::str_eq(arch, "x86_64") {
            "x64"
        } else {
            "Intel"
        }
    } else {
        "Intel"
    }
}

/// The summary page count (the minimum installer version) for a target.
pub open spec fn msi_page_count_spec(target: Seq<char>) -> i32 {
    if starts_with(target, "aarch64-"@) {
        500
    } else if starts_with(target, "x86_64-"@) {
        200
    } else {
        100
    }
}

pub fn msi_page_count(target: &str) -> (r: i32)
    ensures
        r == msi_page_count_spec(target@),
{
    if has_prefix(target, "aarch64-") {
        500
    } else if has_prefix(target, "x86_64-") {
        200
    } else {
        100
    }
}

pub const COMPONENT_64BIT: i32 = 256;

pub const COMPONENT_REGISTRY_KEYPATH: i32 = 4;

/// Component attributes for a target: 64-bit for `aarch64-` and `x86_64-`.
pub open spec fn component_attributes_spec(target: Seq<char>) -> i32 {
    if starts_with(target, "aarch64-"@) || starts_with(target, "x86_64-"@) {
        256
    } else {
        0
    }
}

pub fn component_attributes(target: &str) -> (r: i32)
    ensures
        r == component_attributes_spec(target@),
{
    if has_prefix(target, "aarch64-") || has_prefix(target, "x86_64-") {
        COMPONENT_64BIT
    } else {
        0
    }
}

/// The name-based (version 5, URL namespace) UUID of `name`'s UTF-8 bytes.
pub uninterp spec fn uuid_v5_url(name: Seq<char>) -> Seq<u8>;

/// Calls `uuid::Uuid::new_v5` with the URL namespace on the UTF-8 bytes of
/// `name` and returns the sixteen bytes of the UUID. The contract names the
/// result; it says nothing of the SHA-1 computation behind it.
#[verifier::external_body]
pub(crate) fn uuid_v5_url_bytes(name: &str) -> (r: [u8; 16])
    ensures
        r@ == uuid_v5_url(name@),
{
    *uuid::Uuid::new_v5(&uuid::Uuid::NAMESPACE_URL, name.as_bytes()).as_bytes()
}

pub open spec fn hex_digit(d: nat) -> char {
    if d < 10 {
        ((d + 48) as u32) as char
    } else {
        ((d + 55) as u32) as char
    }
}

/// Upper-case hexadecimal digits of `bytes`, two per byte.
pub open spec fn hex_bytes(bytes: Seq<u8>) -> Seq<char>
    decreases bytes.len(),
{
    if bytes.len() == 0 {
        Seq::empty()
    } else {
        hex_bytes(bytes.drop_last()) + seq![
            hex_digit((bytes.last() / 16) as nat),
            hex_digit((bytes.last() % 16) as nat),
        ]
    }
}

/// A GUID in registry form: braced, hyphenated 8-4-4-4-12, upper case.
pub open spec fn braced_guid(b: Seq<u8>) -> Seq<char> {
    "{"@ + hex_bytes(b.subrange(0, 4)) + "-"@ + hex_bytes(b.subrange(4, 6)) + "-"@ + hex_bytes(
        b.subrange(6, 8),
    ) + "-"@ + hex_bytes(b.subrange(8, 10)) + "-"@ + hex_bytes(b.subrange(10, 16)) + "}"@
}

fn hex_char(d: u8) -> (r: char)
    requires
        d < 16,
    ensures
        r == hex_digit(d as nat),
{
    if d < 10 {
        (d + 48) as char
    } else {
        (d + 55) as char
    }
}

fn push_hex(s: &mut String, b: &[u8; 16], from: usize, to: usize)
    requires
        from <= to <= 16,
    ensures
        final(s)@ == old(s)@ + hex_bytes(b@.subrange(from as int, to as int)),
{
    let mut i = from;
    assert(b@.subrange(from as int, from as int) == Seq::<u8>::empty());
    while i < to
        invariant
            from <= i <= to <= 16,
            s@ == old(s)@ + hex_bytes(b@.subrange(from as int, i as int)),
        decreases to - i,
    {
        let byte = b[i];
        push_char(s, hex_char(byte / 16));
        push_char(s, hex_char(byte % 16));
        i = i + 1;
        assert(b@.subrange(from as int, i as int).drop_last() == b@.subrange(from as int, i - 1));
    }
}

/// The registry form of a GUID.
pub fn guid(b: &[u8; 16]) -> (r: String)
    ensures
        r@ == braced_guid(b@),
{
    proof {
        reveal_strlit("{");
        reveal_strlit("-");
        reveal_strlit("}");
    }
    let mut s = String::new();
    push_char(&mut s, '{');
    push_hex(&mut s, b, 0, 4);
    push_char(&mut s, '-');
    push_hex(&mut s, b, 4, 6);
    push_char(&mut s, '-');
    push_hex(&mut s, b, 6, 8);
    push_char(&mut s, '-');
    push_hex(&mut s, b, 8, 10);
    push_char(&mut s, '-');
    push_hex(&mut s, b, 10, 16);
    push_char(&mut s, '}');
    s
}

/// `parts` joined with `:`.
pub open spec fn colon_join(parts: Seq<Seq<char>>) -> Seq<char> {
    join_seq(parts, seq![':'])
}

pub(crate) fn join_colon(parts: &Vec<&str>) -> (r: String)
    requires
        parts@.len() >= 1,
    ensures
        r@ == colon_join(parts@.map_values(|p: &str| p@)),
{
    let mut s = owned(parts[0]);
    let mut i: usize = 1;
    let ghost views = parts@.map_values(|p: &str| p@);
    assert(views.take(1) == seq![views[0]]);
    while i < parts.len()
        invariant
            1 <= i <= parts@.len(),
            views == parts@.map_values(|p: &str| p@),
            s@ == colon_join(views.take(i as int)),
        decreases parts@.len() - i,
    {
        push_char(&mut s, ':');
        push_str(&mut s, parts[i]);
        i = i + 1;
        assert(views.take(i as int).drop_last() == views.take(i - 1));
    }
    assert(views.take(parts@.len() as int) == views);
    s
}

pub open spec fn package_code_name(plan: InstallerConfig) -> Seq<char> {
    colon_join(seq![
        "cargo-crapapp"@,
        "msi"@,
        "v3"@,
        "package"@,
        plan.app_name@,
        plan.app_version@,
        plan.bundle_target@,
        plan.bundled_at@,
    ])
}

pub open spec fn product_code_name(plan: InstallerConfig) -> Seq<char> {
    colon_join(seq![
        "cargo-crapapp"@,
        "msi"@,
        "v2"@,
        "product"@,
        plan.app_name@,
        plan.app_version@,
        plan.bundle_target@,
    ])
}

pub open spec fn upgrade_code_name(plan: InstallerConfig) -> Seq<char> {
    colon_join(seq!["cargo-crapapp"@, "msi"@, "upgrade"@, plan.app_name@])
}

/// The name of a code of `kind` for one part (`part`) of the package.
pub open spec fn part_code_name(plan: InstallerConfig, kind: Seq<char>, part: Seq<char>) -> Seq<char> {
    colon_join(seq![
        "cargo-crapapp"@,
        "msi"@,
        "v2"@,
        kind,
        plan.app_name@,
        plan.app_version@,
        plan.bundle_target@,
        part,
    ])
}

/// The package code: it changes with every bundling time.
pub fn package_code(plan: &InstallerConfig) -> (r: [u8; 16])
    ensures
        r@ == uuid_v5_url(package_code_name(*plan)),
{
    let parts = vec![
        "cargo-crapapp",
        "msi",
        "v3",
        "package",
        plan.app_name.as_str(),
        plan.app_version.as_str(),
        plan.bundle_target.as_str(),
        plan.bundled_at.as_str(),
    ];
    let name = join_colon(&parts);
    assert(parts@.map_values(|p: &str| p@) == seq![
        "cargo-crapapp"@,
        "msi"@,
        "v3"@,
        "package"@,
        plan.app_name@,
        plan.app_version@,
        plan.bundle_target@,
        plan.bundled_at@,
    ]);
    uuid_v5_url_bytes(name.as_str())
}

/// The product code: stable for one application, version and target.
pub fn product_code(plan: &InstallerConfig) -> (r: [u8; 16])
    ensures
        r@ == uuid_v5_url(product_code_name(*plan)),
{
    let parts = vec![
        "cargo-crapapp",
        "msi",
        "v2",
        "product",
        plan.app_name.as_str(),
        plan.app_version.as_str(),
        plan.bundle_target.as_str(),
    ];
    let name = join_colon(&parts);
    assert(parts@.map_values(|p: &str| p@) == seq![
        "cargo-crapapp"@,
        "msi"@,
        "v2"@,
        "product"@,
        plan.app_name@,
        plan.app_version@,
        plan.bundle_target@,
    ]);
    uuid_v5_url_bytes(name.as_str())
}

/// The upgrade code: stable for one application across versions.
pub fn upgrade_code(plan: &InstallerConfig) -> (r: [u8; 16])
    ensures
        r@ == uuid_v5_url(upgrade_code_name(*plan)),
{
    let parts = vec!["cargo-crapapp", "msi", "upgrade", plan.app_name.as_str()];
    let name = join_colon(&parts);
    assert(parts@.map_values(|p: &str| p@) == seq!["cargo-crapapp"@, "msi"@, "upgrade"@, plan.app_name@]);
    uuid_v5_url_bytes(name.as_str())
}

/// The code of one part of the package, such as a component.
pub fn part_code(plan: &InstallerConfig, kind: &str, part: &str) -> (r: [u8; 16])
    ensures
        r@ == uuid_v5_url(part_code_name(*plan, kind@, part@)),
{
    let parts = vec![
        "cargo-crapapp",
        "msi",
        "v2",
        kind,
        plan.app_name.as_str(),
        plan.app_version.as_str(),
        plan.bundle_target.as_str(),
        part,
    ];
    let name = join_colon(&parts);
    assert(parts@.map_values(|p: &str| p@) == seq![
        "cargo-crapapp"@,
        "msi"@,
        "v2"@,
        kind@,
        plan.app_name@,
        plan.app_version@,
        plan.bundle_target@,
        part@,
    ]);
    uuid_v5_url_bytes(name.as_str())
}

} // verus!
