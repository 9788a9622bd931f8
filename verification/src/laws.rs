//! Resolution laws: what holds of the resolvers as a whole, beyond each
//! one's own contract.

use vstd::prelude::*;
use crate::descriptor::{
    Compiler, HostPlatform, LangFamily, Language, Project, ResolveError, default_compiler,
    default_language_of, lang_family_of,
};
use crate::value::{DynValue, field_or_nil};
use crate::resolve::{spec_resolve_compiler, spec_resolve_language, spec_resolve_project};

verus! {

/// Bare-form resolution always attaches the family's documented default
/// standard: any text spelling a C alias resolves to C11, any text spelling
/// a C++ alias to C++17. Together with each resolver being a pure function
/// of its input, resolving the same bare tag twice yields two structurally
/// equal descriptors.
pub proof fn lemma_bare_form_default_standard(s: String)
    ensures
        lang_family_of(s@) == Some(LangFamily::C) ==> spec_resolve_language(DynValue::Text(s))
            == Ok::<Language, ResolveError>(default_language_of(LangFamily::C)),
        lang_family_of(s@) == Some(LangFamily::Cpp) ==> spec_resolve_language(DynValue::Text(s))
            == Ok::<Language, ResolveError>(default_language_of(LangFamily::Cpp)),
{
}

/// An omitted compiler (read as nil) resolves to the host platform's
/// default toolchain.
pub proof fn lemma_omitted_compiler_is_host_default(host: HostPlatform)
    ensures
        spec_resolve_compiler(DynValue::Nil, host) == Ok::<Compiler, ResolveError>(
            default_compiler(host),
        ),
{
}

/// The host platform decides nothing but the omitted-compiler default: on
/// every value that is actually present, compiler resolution returns the
/// same answer on every host.
pub proof fn lemma_present_compiler_host_independent(
    v: DynValue,
    h1: HostPlatform,
    h2: HostPlatform,
)
    requires
        !(v is Nil),
    ensures
        spec_resolve_compiler(v, h1) == spec_resolve_compiler(v, h2),
{
}

/// A configuration table without a `lang` field is rejected outright — the
/// field reads as nil, which is no language specifier — and no project is
/// ever constructed from it.
pub proof fn lemma_missing_lang_rejected(fields: Vec<(String, DynValue)>, host: HostPlatform)
    requires
        field_or_nil(fields@, "lang"@) == DynValue::Nil,
    ensures
        spec_resolve_project(DynValue::Table(fields), host) == Err::<Project, ResolveError>(
            ResolveError::InvalidLanguageSpecifier,
        ),
{
}

/// Failure is total and ordered: when the `lang` field fails to resolve,
/// the project resolution fails with exactly that error, whatever the
/// `compiler` field holds — compiler resolution is short-circuited.
pub proof fn lemma_language_failure_short_circuits(
    fields: Vec<(String, DynValue)>,
    host: HostPlatform,
    e: ResolveError,
)
    requires
        spec_resolve_language(field_or_nil(fields@, "lang"@)) == Err::<Language, ResolveError>(e),
    ensures
        spec_resolve_project(DynValue::Table(fields), host) == Err::<Project, ResolveError>(e),
{
}

/// When both fields of a configuration table resolve, the project is their
/// composition, unchanged and without further cross-validation.
pub proof fn lemma_project_composes_sub_resolutions(
    fields: Vec<(String, DynValue)>,
    host: HostPlatform,
    lang: Language,
    compiler: Compiler,
)
    requires
        spec_resolve_language(field_or_nil(fields@, "lang"@)) == Ok::<Language, ResolveError>(lang),
        spec_resolve_compiler(field_or_nil(fields@, "compiler"@), host) == Ok::<
            Compiler,
            ResolveError,
        >(compiler),
    ensures
        spec_resolve_project(DynValue::Table(fields), host) == Ok::<Project, ResolveError>(
            Project { lang, compiler },
        ),
{
}

} // verus!
