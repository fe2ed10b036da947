//! The rules that classify a file by its name: configuration files that an
//! installation must leave alone, artifacts of the proxy that it replaces,
//! and the proxy's executable itself.

use crate::text::{
    chars_of, contains, ends_with, lowercase, lowered_chars, occurs_in, starts_with,
    strip_hyphens, without_hyphens,
};
use vstd::prelude::*;

verus! {

/// The platform whose conventions for executables apply.
#[derive(Clone, Copy, Debug, PartialEq, Eq, Structural)]
pub enum Platform {
    /// Executables end in `.exe`; processes are killed as a tree.
    Windows,
    /// Executables carry no extension and need the executable permission.
    Unix,
}

/// Whether a lower-cased file name is that of a configuration file: it ends
/// with `yaml`, `yml`, `json`, `toml` or `env`.
pub open spec fn is_config_name(lower: Seq<char>) -> bool {
    ||| "yaml"@.is_suffix_of(lower)
    ||| "yml"@.is_suffix_of(lower)
    ||| "json"@.is_suffix_of(lower)
    ||| "toml"@.is_suffix_of(lower)
    ||| "env"@.is_suffix_of(lower)
}

/// Whether a file of this name is protected: its lower-case form is the name
/// of a configuration file.
pub open spec fn is_protected(name: Seq<char>) -> bool {
    is_config_name(lowercase(name))
}

/// Whether a lower-cased file name looks like an artifact of the proxy.
pub open spec fn is_artifact_name(lower: Seq<char>) -> bool {
    occurs_in(lower, "cliproxy"@) || occurs_in(lower, "cli-proxy"@)
}

/// Whether an installation replaces a file of this name: it looks like an
/// artifact of the proxy and is not protected.
pub open spec fn is_managed(name: Seq<char>) -> bool {
    is_artifact_name(lowercase(name)) && !is_protected(name)
}

/// Whether a lower-cased file name, hyphens left out, begins with the name
/// of the proxy's binary.
pub open spec fn has_binary_prefix(lower: Seq<char>) -> bool {
    "cliproxy"@.is_prefix_of(without_hyphens(lower))
}

/// Whether a lower-cased file name has the form of an executable that an
/// installation yields on the platform.
pub open spec fn has_executable_form(lower: Seq<char>, platform: Platform) -> bool {
    match platform {
        Platform::Windows => ".exe"@.is_suffix_of(lower),
        Platform::Unix => !".exe"@.is_suffix_of(lower) && !".dll"@.is_suffix_of(lower)
            && !".dylib"@.is_suffix_of(lower),
    }
}

/// Whether a lower-cased file name has the form of a program that can stand
/// beside the running executable on the platform.
pub open spec fn has_sibling_form(lower: Seq<char>, platform: Platform) -> bool {
    match platform {
        Platform::Windows => ".exe"@.is_suffix_of(lower),
        Platform::Unix => !".dll"@.is_suffix_of(lower) && !".dylib"@.is_suffix_of(lower),
    }
}

/// Whether a lower-cased file name is that of the proxy's executable.
pub open spec fn is_executable_name(lower: Seq<char>, platform: Platform) -> bool {
    has_binary_prefix(lower) && has_executable_form(lower, platform)
}

/// Whether a lower-cased file name is that of another build of the proxy.
pub open spec fn is_sibling_name(lower: Seq<char>, platform: Platform) -> bool {
    has_binary_prefix(lower) && has_sibling_form(lower, platform)
}

/// Whether a lower-cased file name carries the marker of the plus variant.
pub open spec fn has_plus_marker(lower: Seq<char>) -> bool {
    occurs_in(lower, "plus"@)
}

/// Whether a file of this name, as written, is given the executable
/// permission when its archive stores none.
pub open spec fn wants_executable_bit(name: Seq<char>) -> bool {
    occurs_in(name, "CLIProxyAPI"@) || occurs_in(name, "cliproxy"@)
}

/// Whether the lower-cased name is that of a configuration file.
pub fn is_config_lowered(lower: &Vec<char>) -> (config: bool)
    ensures
        config == is_config_name(lower@),
{
    ends_with(lower, "yaml") || ends_with(lower, "yml") || ends_with(lower, "json") || ends_with(
        lower,
        "toml",
    ) || ends_with(lower, "env")
}

/// Whether a file of this name is protected from an installation.
pub fn is_config_file(name: &str) -> (protected: bool)
    ensures
        protected == is_protected(name@),
{
    let lower = lowered_chars(name);
    is_config_lowered(&lower)
}

/// Whether the lower-cased name looks like an artifact of the proxy.
pub fn is_artifact_lowered(lower: &Vec<char>) -> (artifact: bool)
    ensures
        artifact == is_artifact_name(lower@),
{
    contains(lower, "cliproxy") || contains(lower, "cli-proxy")
}

/// Whether an installation replaces a file of this name.
pub fn is_managed_file(name: &str) -> (managed: bool)
    ensures
        managed == is_managed(name@),
{
    let lower = lowered_chars(name);
    is_artifact_lowered(&lower) && !is_config_lowered(&lower)
}

/// Whether the lower-cased name is that of the proxy's executable on the
/// platform.
pub fn is_executable_lowered(lower: &Vec<char>, platform: Platform) -> (executable: bool)
    ensures
        executable == is_executable_name(lower@, platform),
{
    let plain = strip_hyphens(lower);
    if !starts_with(&plain, "cliproxy") {
        return false;
    }
    match platform {
        Platform::Windows => ends_with(lower, ".exe"),
        Platform::Unix => !ends_with(lower, ".exe") && !ends_with(lower, ".dll") && !ends_with(
            lower,
            ".dylib",
        ),
    }
}

/// Whether a file of this name is the proxy's executable on the platform.
pub fn is_executable_file(name: &str, platform: Platform) -> (executable: bool)
    ensures
        executable == is_executable_name(lowercase(name@), platform),
{
    let lower = lowered_chars(name);
    is_executable_lowered(&lower, platform)
}

/// Whether the lower-cased name is that of another build of the proxy on the
/// platform.
pub fn is_sibling_lowered(lower: &Vec<char>, platform: Platform) -> (sibling: bool)
    ensures
        sibling == is_sibling_name(lower@, platform),
{
    let plain = strip_hyphens(lower);
    if !starts_with(&plain, "cliproxy") {
        return false;
    }
    match platform {
        Platform::Windows => ends_with(lower, ".exe"),
        Platform::Unix => !ends_with(lower, ".dll") && !ends_with(lower, ".dylib"),
    }
}

/// Whether the lower-cased name carries the marker of the plus variant.
pub fn is_plus_lowered(lower: &Vec<char>) -> (plus: bool)
    ensures
        plus == has_plus_marker(lower@),
{
    contains(lower, "plus")
}

/// Whether a file of this name is given the executable permission when its
/// archive stores none.
pub fn needs_executable_bit(name: &str) -> (needed: bool)
    ensures
        needed == wants_executable_bit(name@),
{
    let chars = chars_of(name);
    contains(&chars, "CLIProxyAPI") || contains(&chars, "cliproxy")
}

} // verus!
