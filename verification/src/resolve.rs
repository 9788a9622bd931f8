//! The resolvers: each turns one part of the raw configuration into its
//! typed descriptor or a precise error. `resolve_project` composes them
//! into the full, validated project descriptor.
//!
//! Each executable resolver is pinned to a spec-level resolution function,
//! so resolution is a pure function of the input value (and, for the
//! compiler default, of the host platform) — calls are independent and
//! deterministic.

use vstd::prelude::*;
use crate::descriptor::{
    CStandard, CppStandard, Compiler, HostPlatform, LangFamily, Language, Project, ResolveError,
    c_standard_of, compiler_of, cpp_standard_of, default_compiler, default_language_of,
    lang_family_of,
};
use crate::value::{DynValue, field, field_or_nil, is_token};

verus! {

/// What C-standard resolution returns: the standard a text value spells,
/// `UnknownStandard` for any other text, `InvalidStandardType` for any
/// non-text value — a standard has no default in the structured form.
pub open spec fn spec_resolve_c_standard(v: DynValue) -> Result<CStandard, ResolveError> {
    match v {
        DynValue::Text(s) => match c_standard_of(s@) {
            Some(k) => Ok(k),
            None => Err(ResolveError::UnknownStandard),
        },
        _ => Err(ResolveError::InvalidStandardType),
    }
}

/// What C++-standard resolution returns; the C++ counterpart of
/// [`spec_resolve_c_standard`].
pub open spec fn spec_resolve_cpp_standard(v: DynValue) -> Result<CppStandard, ResolveError> {
    match v {
        DynValue::Text(s) => match cpp_standard_of(s@) {
            Some(k) => Ok(k),
            None => Err(ResolveError::UnknownStandard),
        },
        _ => Err(ResolveError::InvalidStandardType),
    }
}

/// What resolving a `std` value under an already-known language family
/// returns: the family's standard resolver, with the standard wrapped into
/// the matching [`Language`] variant.
pub open spec fn spec_resolve_standard_for(f: LangFamily, v: DynValue) -> Result<
    Language,
    ResolveError,
> {
    match f {
        LangFamily::C => match spec_resolve_c_standard(v) {
            Ok(k) => Ok(Language::C(k)),
            Err(e) => Err(e),
        },
        LangFamily::Cpp => match spec_resolve_cpp_standard(v) {
            Ok(k) => Ok(Language::Cpp(k)),
            Err(e) => Err(e),
        },
    }
}

/// What language resolution returns.
///
/// A table is the structured form: its `langtype` field must be text
/// spelling a family alias (else `UnknownLanguage`), and its `std` field is
/// resolved by that family's standard resolver. Text is the bare form: a
/// family alias resolving to the family's default standard, any other text
/// failing with `UnknownLanguage`. Every other shape fails with
/// `InvalidLanguageSpecifier`. Resolution is never partial: either family
/// and standard are both determined, or the whole call fails.
pub open spec fn spec_resolve_language(v: DynValue) -> Result<Language, ResolveError> {
    match v {
        DynValue::Table(fields) => match field_or_nil(fields@, "langtype"@) {
            DynValue::Text(s) => match lang_family_of(s@) {
                Some(f) => spec_resolve_standard_for(f, field_or_nil(fields@, "std"@)),
                None => Err(ResolveError::UnknownLanguage),
            },
            _ => Err(ResolveError::UnknownLanguage),
        },
        DynValue::Text(s) => match lang_family_of(s@) {
            Some(f) => Ok(default_language_of(f)),
            None => Err(ResolveError::UnknownLanguage),
        },
        _ => Err(ResolveError::InvalidLanguageSpecifier),
    }
}

/// What compiler resolution returns: nil (an omitted field) resolves to the
/// host's default toolchain; text must spell a known compiler name; any
/// other shape, or unknown text, fails with `UnknownCompiler`.
pub open spec fn spec_resolve_compiler(v: DynValue, host: HostPlatform) -> Result<
    Compiler,
    ResolveError,
> {
    match v {
        DynValue::Nil => Ok(default_compiler(host)),
        DynValue::Text(s) => match compiler_of(s@) {
            Some(c) => Ok(c),
            None => Err(ResolveError::UnknownCompiler),
        },
        _ => Err(ResolveError::UnknownCompiler),
    }
}

/// What project resolution returns: for a table, the resolved `lang` field
/// and the resolved `compiler` field composed into a [`Project`], with a
/// language failure propagated before the compiler is even considered; for
/// any other shape, `InvalidProjectShape`. Sub-resolver errors are passed
/// on verbatim, never wrapped.
pub open spec fn spec_resolve_project(v: DynValue, host: HostPlatform) -> Result<
    Project,
    ResolveError,
> {
    match v {
        DynValue::Table(fields) => match spec_resolve_language(field_or_nil(fields@, "lang"@)) {
            Ok(lang) => match spec_resolve_compiler(field_or_nil(fields@, "compiler"@), host) {
                Ok(compiler) => Ok(Project { lang, compiler }),
                Err(e) => Err(e),
            },
            Err(e) => Err(e),
        },
        _ => Err(ResolveError::InvalidProjectShape),
    }
}

/// The C standard a text token spells, if any.
fn c_standard_token(s: &str) -> (r: Option<CStandard>)
    ensures
        r == c_standard_of(s@),
{
    if is_token(s, "c89") {
        Some(CStandard::C89)
    } else if is_token(s, "c90") {
        Some(CStandard::C90)
    } else if is_token(s, "c99") {
        Some(CStandard::C99)
    } else if is_token(s, "c11") {
        Some(CStandard::C11)
    } else if is_token(s, "c17") {
        Some(CStandard::C17)
    } else if is_token(s, "gnu89") {
        Some(CStandard::Gnu89)
    } else if is_token(s, "gnu90") {
        Some(CStandard::Gnu90)
    } else if is_token(s, "gnu99") {
        Some(CStandard::Gnu99)
    } else if is_token(s, "gnu11") {
        Some(CStandard::Gnu11)
    } else if is_token(s, "gnu17") {
        Some(CStandard::Gnu17)
    } else {
        None
    }
}

/// The C++ standard a text token spells, if any.
fn cpp_standard_token(s: &str) -> (r: Option<CppStandard>)
    ensures
        r == cpp_standard_of(s@),
{
    if is_token(s, "c++98") {
        Some(CppStandard::Cpp98)
    } else if is_token(s, "c++11") {
        Some(CppStandard::Cpp11)
    } else if is_token(s, "c++14") {
        Some(CppStandard::Cpp14)
    } else if is_token(s, "c++17") {
        Some(CppStandard::Cpp17)
    } else if is_token(s, "c++20") {
        Some(CppStandard::Cpp20)
    } else if is_token(s, "c++23") {
        Some(CppStandard::Cpp23)
    } else if is_token(s, "gnu++98") {
        Some(CppStandard::Gnupp98)
    } else if is_token(s, "gnu++11") {
        Some(CppStandard::Gnupp11)
    } else if is_token(s, "gnu++14") {
        Some(CppStandard::Gnupp14)
    } else if is_token(s, "gnu++17") {
        Some(CppStandard::Gnupp17)
    } else if is_token(s, "gnu++20") {
        Some(CppStandard::Gnupp20)
    } else if is_token(s, "gnu++23") {
        Some(CppStandard::Gnupp23)
    } else {
        None
    }
}

/// The language family a text token spells, if any.
fn lang_family_token(s: &str) -> (r: Option<LangFamily>)
    ensures
        r == lang_family_of(s@),
{
    if is_token(s, "c") || is_token(s, "C") {
        Some(LangFamily::C)
    } else if is_token(s, "cpp") || is_token(s, "CPP") || is_token(s, "Cpp") || is_token(s, "c++")
        || is_token(s, "C++") {
        Some(LangFamily::Cpp)
    } else {
        None
    }
}

/// The compiler a text token spells, if any.
fn compiler_token(s: &str) -> (r: Option<Compiler>)
    ensures
        r == compiler_of(s@),
{
    if is_token(s, "gcc") {
        Some(Compiler::Gcc)
    } else if is_token(s, "clang") {
        Some(Compiler::Clang)
    } else if is_token(s, "msvc") {
        Some(Compiler::Msvc)
    } else if is_token(s, "mingw") {
        Some(Compiler::Mingw)
    } else {
        None
    }
}

/// Resolves a `std` value into a C standard; see
/// [`spec_resolve_c_standard`] for exactly what is returned.
pub fn resolve_c_standard(v: &DynValue) -> (r: Result<CStandard, ResolveError>)
    ensures
        r == spec_resolve_c_standard(*v),
{
    match v {
        DynValue::Text(s) => match c_standard_token(s.as_str()) {
            Some(k) => Ok(k),
            None => Err(ResolveError::UnknownStandard),
        },
        _ => Err(ResolveError::InvalidStandardType),
    }
}

/// Resolves a `std` value into a C++ standard; see
/// [`spec_resolve_cpp_standard`] for exactly what is returned.
pub fn resolve_cpp_standard(v: &DynValue) -> (r: Result<CppStandard, ResolveError>)
    ensures
        r == spec_resolve_cpp_standard(*v),
{
    match v {
        DynValue::Text(s) => match cpp_standard_token(s.as_str()) {
            Some(k) => Ok(k),
            None => Err(ResolveError::UnknownStandard),
        },
        _ => Err(ResolveError::InvalidStandardType),
    }
}

/// Resolves a `std` value under an already-known language family.
fn resolve_standard_for(f: LangFamily, v: &DynValue) -> (r: Result<Language, ResolveError>)
    ensures
        r == spec_resolve_standard_for(f, *v),
{
    match f {
        LangFamily::C => match resolve_c_standard(v) {
            Ok(k) => Ok(Language::C(k)),
            Err(e) => Err(e),
        },
        LangFamily::Cpp => match resolve_cpp_standard(v) {
            Ok(k) => Ok(Language::Cpp(k)),
            Err(e) => Err(e),
        },
    }
}

/// Resolves a `lang` value — structured or bare form — into a language with
/// its standard; see [`spec_resolve_language`] for exactly what is
/// returned.
pub fn resolve_language(v: &DynValue) -> (r: Result<Language, ResolveError>)
    ensures
        r == spec_resolve_language(*v),
{
    match v {
        DynValue::Table(fields) => match field(fields, "langtype") {
            Some(DynValue::Text(s)) => match lang_family_token(s.as_str()) {
                Some(f) => match field(fields, "std") {
                    Some(d) => resolve_standard_for(f, d),
                    None => Err(ResolveError::InvalidStandardType),
                },
                None => Err(ResolveError::UnknownLanguage),
            },
            _ => Err(ResolveError::UnknownLanguage),
        },
        DynValue::Text(s) => match lang_family_token(s.as_str()) {
            Some(LangFamily::C) => Ok(Language::C(CStandard::C11)),
            Some(LangFamily::Cpp) => Ok(Language::Cpp(CppStandard::Cpp17)),
            None => Err(ResolveError::UnknownLanguage),
        },
        _ => Err(ResolveError::InvalidLanguageSpecifier),
    }
}

/// Resolves a `compiler` value (nil when the field was omitted); see
/// [`spec_resolve_compiler`] for exactly what is returned.
pub fn resolve_compiler(v: &DynValue, host: HostPlatform) -> (r: Result<Compiler, ResolveError>)
    ensures
        r == spec_resolve_compiler(*v, host),
{
    match v {
        DynValue::Nil => Ok(host_default_compiler(host)),
        DynValue::Text(s) => match compiler_token(s.as_str()) {
            Some(c) => Ok(c),
            None => Err(ResolveError::UnknownCompiler),
        },
        _ => Err(ResolveError::UnknownCompiler),
    }
}

/// The default toolchain of a host platform.
pub fn host_default_compiler(host: HostPlatform) -> (r: Compiler)
    ensures
        r == default_compiler(host),
{
    match host {
        HostPlatform::Linux => Compiler::Gcc,
        HostPlatform::Macos => Compiler::Clang,
        HostPlatform::Windows => Compiler::Msvc,
    }
}

/// Resolves a whole configuration value into a project descriptor; see
/// [`spec_resolve_project`] for exactly what is returned. This is the
/// single entry of the resolution layer: the scripting boundary hands the
/// raw value here and reports the result.
pub fn resolve_project(v: &DynValue, host: HostPlatform) -> (r: Result<Project, ResolveError>)
    ensures
        r == spec_resolve_project(*v, host),
{
    match v {
        DynValue::Table(fields) => {
            let lang = match field(fields, "lang") {
                Some(d) => resolve_language(d),
                None => Err(ResolveError::InvalidLanguageSpecifier),
            };
            match lang {
                Ok(lang) => {
                    let compiler = match field(fields, "compiler") {
                        Some(d) => resolve_compiler(d, host),
                        None => Ok(host_default_compiler(host)),
                    };
                    match compiler {
                        Ok(compiler) => Ok(Project { lang, compiler }),
                        Err(e) => Err(e),
                    }
                },
                Err(e) => Err(e),
            }
        },
        _ => Err(ResolveError::InvalidProjectShape),
    }
}

} // verus!
