//! The typed descriptor model: languages, language standards, compiler
//! toolchains and the resolved project aggregate, together with the alias
//! tables that map accepted textual spellings to canonical variants.

use vstd::prelude::*;

verus! {

/// A revision of the C language specification.
#[derive(Clone, Copy, Debug, PartialEq, Eq, Structural)]
pub enum CStandard {
    C89,
    C90,
    C99,
    C11,
    C17,
    Gnu89,
    Gnu90,
    Gnu99,
    Gnu11,
    Gnu17,
}

/// A revision of the C++ language specification.
#[derive(Clone, Copy, Debug, PartialEq, Eq, Structural)]
pub enum CppStandard {
    Cpp98,
    Cpp11,
    Cpp14,
    Cpp17,
    Cpp20,
    Cpp23,
    Gnupp98,
    Gnupp11,
    Gnupp14,
    Gnupp17,
    Gnupp20,
    Gnupp23,
}

/// The target language of a compilation unit. A C project always carries a
/// C standard and a C++ project a C++ standard: the pairing is enforced by
/// the shape of the type, not by a runtime check.
#[derive(Clone, Copy, Debug, PartialEq, Eq, Structural)]
pub enum Language {
    C(CStandard),
    Cpp(CppStandard),
}

/// A language family on its own, before a standard has been attached.
#[derive(Clone, Copy, Debug, PartialEq, Eq, Structural)]
pub enum LangFamily {
    C,
    Cpp,
}

/// A compiler toolchain family.
#[derive(Clone, Copy, Debug, PartialEq, Eq, Structural)]
pub enum Compiler {
    Gcc,
    Clang,
    Msvc,
    Mingw,
}

/// The operating system the resolver runs on, fixed when the tool is built.
/// It decides only the default compiler used when none is named.
#[derive(Clone, Copy, Debug, PartialEq, Eq, Structural)]
pub enum HostPlatform {
    Linux,
    Macos,
    Windows,
}

/// One compilation unit's resolved target: exactly one language (with its
/// standard) and one compiler. Immutable once constructed.
///
/// No cross-validation is done between the language standard and the
/// compiler: a resolved project is not guaranteed to be buildable by the
/// named toolchain.
#[derive(Clone, Copy, Debug, PartialEq, Eq, Structural)]
pub struct Project {
    pub lang: Language,
    pub compiler: Compiler,
}

/// Why a configuration value could not be resolved. Every unresolvable
/// input is a hard failure carrying the first cause found; nothing defaults
/// silently.
#[derive(Clone, Copy, Debug, PartialEq, Eq, Structural)]
pub enum ResolveError {
    /// The `lang` value is neither a structured descriptor nor a text tag.
    InvalidLanguageSpecifier,
    /// A language tag (bare, or the `langtype` field) matches no known
    /// language-family alias.
    UnknownLanguage,
    /// The `std` field is absent or not text where a standard is required.
    InvalidStandardType,
    /// The `std` text matches no accepted spelling for the language family.
    UnknownStandard,
    /// The `compiler` field is present but not a known compiler name, or
    /// not text at all.
    UnknownCompiler,
    /// The top-level configuration value is not a structured object.
    InvalidProjectShape,
}

/// The accepted spellings of a language family tag. Spellings are listed
/// explicitly; nothing is case-folded.
pub open spec fn lang_family_of(s: Seq<char>) -> Option<LangFamily> {
    if s == "c"@ || s == "C"@ {
        Some(LangFamily::C)
    } else if s == "cpp"@ || s == "CPP"@ || s == "Cpp"@ || s == "c++"@ || s == "C++"@ {
        Some(LangFamily::Cpp)
    } else {
        None
    }
}

/// The accepted spellings of a C standard, all lowercase, each naming
/// exactly one canonical variant.
pub open spec fn c_standard_of(s: Seq<char>) -> Option<CStandard> {
    if s == "c89"@ {
        Some(CStandard::C89)
    } else if s == "c90"@ {
        Some(CStandard::C90)
    } else if s == "c99"@ {
        Some(CStandard::C99)
    } else if s == "c11"@ {
        Some(CStandard::C11)
    } else if s == "c17"@ {
        Some(CStandard::C17)
    } else if s == "gnu89"@ {
        Some(CStandard::Gnu89)
    } else if s == "gnu90"@ {
        Some(CStandard::Gnu90)
    } else if s == "gnu99"@ {
        Some(CStandard::Gnu99)
    } else if s == "gnu11"@ {
        Some(CStandard::Gnu11)
    } else if s == "gnu17"@ {
        Some(CStandard::Gnu17)
    } else {
        None
    }
}

/// The accepted spellings of a C++ standard, in `c++NN` / `gnu++NN` form.
pub open spec fn cpp_standard_of(s: Seq<char>) -> Option<CppStandard> {
    if s == "c++98"@ {
        Some(CppStandard::Cpp98)
    } else if s == "c++11"@ {
        Some(CppStandard::Cpp11)
    } else if s == "c++14"@ {
        Some(CppStandard::Cpp14)
    } else if s == "c++17"@ {
        Some(CppStandard::Cpp17)
    } else if s == "c++20"@ {
        Some(CppStandard::Cpp20)
    } else if s == "c++23"@ {
        Some(CppStandard::Cpp23)
    } else if s == "gnu++98"@ {
        Some(CppStandard::Gnupp98)
    } else if s == "gnu++11"@ {
        Some(CppStandard::Gnupp11)
    } else if s == "gnu++14"@ {
        Some(CppStandard::Gnupp14)
    } else if s == "gnu++17"@ {
        Some(CppStandard::Gnupp17)
    } else if s == "gnu++20"@ {
        Some(CppStandard::Gnupp20)
    } else if s == "gnu++23"@ {
        Some(CppStandard::Gnupp23)
    } else {
        None
    }
}

/// The accepted compiler names, case-sensitive and without variants.
pub open spec fn compiler_of(s: Seq<char>) -> Option<Compiler> {
    if s == "gcc"@ {
        Some(Compiler::Gcc)
    } else if s == "clang"@ {
        Some(Compiler::Clang)
    } else if s == "msvc"@ {
        Some(Compiler::Msvc)
    } else if s == "mingw"@ {
        Some(Compiler::Mingw)
    } else {
        None
    }
}

/// The documented default standard a bare language tag resolves to:
/// C defaults to C11, C++ to C++17. A policy default, overridable by the
/// structured form.
pub open spec fn default_language_of(f: LangFamily) -> Language {
    match f {
        LangFamily::C => Language::C(CStandard::C11),
        LangFamily::Cpp => Language::Cpp(CppStandard::Cpp17),
    }
}

/// The compiler used when the configuration names none: a property of the
/// host the resolver runs on.
pub open spec fn default_compiler(h: HostPlatform) -> Compiler {
    match h {
        HostPlatform::Linux => Compiler::Gcc,
        HostPlatform::Macos => Compiler::Clang,
        HostPlatform::Windows => Compiler::Msvc,
    }
}

} // verus!
