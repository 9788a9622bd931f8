use aedif::descriptor::{
    CStandard, Compiler, CppStandard, HostPlatform, Language, Project, ResolveError,
};
use aedif::resolve::{
    resolve_c_standard, resolve_compiler, resolve_cpp_standard, resolve_language, resolve_project,
};
use aedif::value::DynValue;

fn text(s: &str) -> DynValue {
    DynValue::Text(s.to_string())
}

fn table(fields: Vec<(&str, DynValue)>) -> DynValue {
    DynValue::Table(fields.into_iter().map(|(k, v)| (k.to_string(), v)).collect())
}

#[test]
fn c_standard_aliases_resolve_to_canonical_variants() {
    let cases = vec![
        ("c89", CStandard::C89),
        ("c90", CStandard::C90),
        ("c99", CStandard::C99),
        ("c11", CStandard::C11),
        ("c17", CStandard::C17),
        ("gnu89", CStandard::Gnu89),
        ("gnu90", CStandard::Gnu90),
        ("gnu99", CStandard::Gnu99),
        ("gnu11", CStandard::Gnu11),
        ("gnu17", CStandard::Gnu17),
    ];
    for (spelling, expected) in cases {
        assert_eq!(resolve_c_standard(&text(spelling)), Ok(expected));
    }
}

#[test]
fn cpp_standard_aliases_resolve_to_canonical_variants() {
    let cases = vec![
        ("c++98", CppStandard::Cpp98),
        ("c++11", CppStandard::Cpp11),
        ("c++14", CppStandard::Cpp14),
        ("c++17", CppStandard::Cpp17),
        ("c++20", CppStandard::Cpp20),
        ("c++23", CppStandard::Cpp23),
        ("gnu++98", CppStandard::Gnupp98),
        ("gnu++11", CppStandard::Gnupp11),
        ("gnu++14", CppStandard::Gnupp14),
        ("gnu++17", CppStandard::Gnupp17),
        ("gnu++20", CppStandard::Gnupp20),
        ("gnu++23", CppStandard::Gnupp23),
    ];
    for (spelling, expected) in cases {
        assert_eq!(resolve_cpp_standard(&text(spelling)), Ok(expected));
    }
}

#[test]
fn language_tag_aliases_resolve_to_canonical_variants() {
    for spelling in ["c", "C"] {
        assert_eq!(
            resolve_language(&text(spelling)),
            Ok(Language::C(CStandard::C11))
        );
    }
    for spelling in ["cpp", "CPP", "Cpp", "c++", "C++"] {
        assert_eq!(
            resolve_language(&text(spelling)),
            Ok(Language::Cpp(CppStandard::Cpp17))
        );
    }
}

#[test]
fn compiler_aliases_resolve_to_canonical_variants() {
    let cases = vec![
        ("gcc", Compiler::Gcc),
        ("clang", Compiler::Clang),
        ("msvc", Compiler::Msvc),
        ("mingw", Compiler::Mingw),
    ];
    for (spelling, expected) in cases {
        assert_eq!(
            resolve_compiler(&text(spelling), HostPlatform::Linux),
            Ok(expected)
        );
    }
}

#[test]
fn mutated_standard_spellings_are_unknown_standards() {
    for spelling in ["C89", "c89.", "c 89", "gnu17 ", "Gnu17", "c++17", "c98"] {
        assert_eq!(
            resolve_c_standard(&text(spelling)),
            Err(ResolveError::UnknownStandard),
            "spelling {spelling:?}"
        );
    }
    for spelling in ["C++98", "c++98.", "c++ 98", "gnu++17 ", "Gnu++17", "c17", "c++99"] {
        assert_eq!(
            resolve_cpp_standard(&text(spelling)),
            Err(ResolveError::UnknownStandard),
            "spelling {spelling:?}"
        );
    }
}

#[test]
fn mutated_language_tags_are_unknown_languages() {
    for spelling in ["c.", " c", "cC", "CpP", "cPP", "c+", "c+++", "C+ +"] {
        assert_eq!(
            resolve_language(&text(spelling)),
            Err(ResolveError::UnknownLanguage),
            "spelling {spelling:?}"
        );
    }
}

#[test]
fn mutated_compiler_names_are_unknown_compilers() {
    for spelling in ["Gcc", "GCC", "gcc ", "g++", "clang.", "Clang", "msvc!", "MinGW"] {
        assert_eq!(
            resolve_compiler(&text(spelling), HostPlatform::Linux),
            Err(ResolveError::UnknownCompiler),
            "spelling {spelling:?}"
        );
    }
}

#[test]
fn bare_form_resolution_is_idempotent_with_defaults() {
    let first = resolve_language(&text("c"));
    let second = resolve_language(&text("c"));
    assert_eq!(first, Ok(Language::C(CStandard::C11)));
    assert_eq!(second, Ok(Language::C(CStandard::C11)));
    assert_eq!(first, second);
    assert_eq!(
        resolve_language(&text("cpp")),
        Ok(Language::Cpp(CppStandard::Cpp17))
    );
}

#[test]
fn structured_form_uses_the_named_standard() {
    let c_gnu99 = table(vec![("langtype", text("c")), ("std", text("gnu99"))]);
    assert_eq!(resolve_language(&c_gnu99), Ok(Language::C(CStandard::Gnu99)));

    let cpp20 = table(vec![("langtype", text("c++")), ("std", text("c++20"))]);
    assert_eq!(resolve_language(&cpp20), Ok(Language::Cpp(CppStandard::Cpp20)));
}

#[test]
fn omitted_compiler_resolves_to_the_host_default() {
    assert_eq!(
        resolve_compiler(&DynValue::Nil, HostPlatform::Linux),
        Ok(Compiler::Gcc)
    );
    assert_eq!(
        resolve_compiler(&DynValue::Nil, HostPlatform::Macos),
        Ok(Compiler::Clang)
    );
    assert_eq!(
        resolve_compiler(&DynValue::Nil, HostPlatform::Windows),
        Ok(Compiler::Msvc)
    );
}

#[test]
fn explicit_compiler_wins_on_every_host() {
    for host in [HostPlatform::Linux, HostPlatform::Macos, HostPlatform::Windows] {
        assert_eq!(resolve_compiler(&text("mingw"), host), Ok(Compiler::Mingw));
    }
}

#[test]
fn missing_lang_field_never_builds_a_project() {
    let config = table(vec![("compiler", text("gcc"))]);
    assert_eq!(
        resolve_project(&config, HostPlatform::Linux),
        Err(ResolveError::InvalidLanguageSpecifier)
    );
}

#[test]
fn non_table_configuration_is_an_invalid_project_shape() {
    for config in [text("c"), DynValue::Nil, DynValue::Other] {
        assert_eq!(
            resolve_project(&config, HostPlatform::Linux),
            Err(ResolveError::InvalidProjectShape)
        );
    }
}

#[test]
fn end_to_end_bare_c_with_clang() {
    let config = table(vec![("lang", text("c")), ("compiler", text("clang"))]);
    assert_eq!(
        resolve_project(&config, HostPlatform::Linux),
        Ok(Project {
            lang: Language::C(CStandard::C11),
            compiler: Compiler::Clang,
        })
    );
}

#[test]
fn end_to_end_unknown_cpp_standard_fails() {
    let lang = table(vec![("langtype", text("cpp")), ("std", text("c++99"))]);
    let config = table(vec![("lang", lang), ("compiler", text("gcc"))]);
    assert_eq!(
        resolve_project(&config, HostPlatform::Linux),
        Err(ResolveError::UnknownStandard)
    );
}

#[test]
fn non_text_lang_value_is_an_invalid_language_specifier() {
    for lang in [DynValue::Nil, DynValue::Other] {
        assert_eq!(
            resolve_language(&lang),
            Err(ResolveError::InvalidLanguageSpecifier)
        );
    }
}

#[test]
fn unknown_or_non_text_langtype_is_an_unknown_language() {
    let unknown = table(vec![("langtype", text("rust")), ("std", text("c11"))]);
    assert_eq!(resolve_language(&unknown), Err(ResolveError::UnknownLanguage));

    let non_text = table(vec![("langtype", DynValue::Other), ("std", text("c11"))]);
    assert_eq!(resolve_language(&non_text), Err(ResolveError::UnknownLanguage));

    let absent = table(vec![("std", text("c11"))]);
    assert_eq!(resolve_language(&absent), Err(ResolveError::UnknownLanguage));
}

#[test]
fn structured_form_requires_a_text_standard() {
    let missing = table(vec![("langtype", text("c"))]);
    assert_eq!(resolve_language(&missing), Err(ResolveError::InvalidStandardType));

    let non_text = table(vec![("langtype", text("c")), ("std", DynValue::Other)]);
    assert_eq!(resolve_language(&non_text), Err(ResolveError::InvalidStandardType));

    assert_eq!(
        resolve_c_standard(&DynValue::Nil),
        Err(ResolveError::InvalidStandardType)
    );
    assert_eq!(
        resolve_cpp_standard(&DynValue::Other),
        Err(ResolveError::InvalidStandardType)
    );
}

#[test]
fn non_text_compiler_value_is_an_unknown_compiler() {
    let value = table(vec![]);
    assert_eq!(
        resolve_compiler(&value, HostPlatform::Linux),
        Err(ResolveError::UnknownCompiler)
    );
}

#[test]
fn language_failure_short_circuits_the_compiler_field() {
    let config = table(vec![("lang", text("fortran")), ("compiler", text("icc"))]);
    assert_eq!(
        resolve_project(&config, HostPlatform::Linux),
        Err(ResolveError::UnknownLanguage)
    );
}

#[test]
fn first_field_entry_wins_when_a_name_repeats() {
    let config = table(vec![
        ("lang", text("c")),
        ("lang", text("fortran")),
        ("compiler", text("gcc")),
    ]);
    assert_eq!(
        resolve_project(&config, HostPlatform::Windows),
        Ok(Project {
            lang: Language::C(CStandard::C11),
            compiler: Compiler::Gcc,
        })
    );
}

#[test]
fn project_defaults_compiler_per_host() {
    let config = table(vec![("lang", text("cpp"))]);
    assert_eq!(
        resolve_project(&config, HostPlatform::Macos),
        Ok(Project {
            lang: Language::Cpp(CppStandard::Cpp17),
            compiler: Compiler::Clang,
        })
    );
}
