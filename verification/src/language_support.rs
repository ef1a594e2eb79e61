//! The language registry: which languages exist, which file extensions
//! belong to them, whether they need an external compiler, and the exact
//! command line that builds or checks one file.

use vstd::prelude::*;

verus! {

use vstd::string::*;
use crate::paths::with_object_ext;
use crate::text::{split_ws, split_whitespace_owned, str_eq, views_of};

/// The views of a sequence of string slices.
pub open spec fn str_views(v: Seq<&str>) -> Seq<Seq<char>> {
    v.map_values(|s: &str| s@)
}

/// One supported source language.
#[derive(Debug, Clone, Copy, PartialEq, Eq, Hash, Structural)]
pub enum Language {
    C,
    Cpp,
    Python,
    Java,
    Rust,
    Go,
    JavaScript,
    TypeScript,
    CSharp,
    Swift,
    Kotlin,
    Scala,
    Haskell,
    FSharp,
    OCaml,
    Nim,
    Zig,
    V,
    Odin,
    Jai,
}

/// The display name of a language.
pub open spec fn name_of(l: Language) -> Seq<char> {
    match l {
        Language::C => "C"@,
        Language::Cpp => "C++"@,
        Language::Python => "Python"@,
        Language::Java => "Java"@,
        Language::Rust => "Rust"@,
        Language::Go => "Go"@,
        Language::JavaScript => "JavaScript"@,
        Language::TypeScript => "TypeScript"@,
        Language::CSharp => "C#"@,
        Language::Swift => "Swift"@,
        Language::Kotlin => "Kotlin"@,
        Language::Scala => "Scala"@,
        Language::Haskell => "Haskell"@,
        Language::FSharp => "F#"@,
        Language::OCaml => "OCaml"@,
        Language::Nim => "Nim"@,
        Language::Zig => "Zig"@,
        Language::V => "V"@,
        Language::Odin => "Odin"@,
        Language::Jai => "Jai"@,
    }
}

/// The extensions recognized for a language, in registry order.
pub open spec fn extensions_of(l: Language) -> Seq<Seq<char>> {
    match l {
        Language::C => seq!["c"@, "h"@],
        Language::Cpp => seq!["cpp"@, "cc"@, "cxx"@, "c++"@, "hpp"@, "hxx"@, "h++"@],
        Language::Python => seq!["py"@, "pyw"@, "pyx"@, "pxd"@],
        Language::Java => seq!["java"@],
        Language::Rust => seq!["rs"@],
        Language::Go => seq!["go"@],
        Language::JavaScript => seq!["js"@, "mjs"@, "cjs"@],
        Language::TypeScript => seq!["ts"@, "tsx"@],
        Language::CSharp => seq!["cs"@],
        Language::Swift => seq!["swift"@],
        Language::Kotlin => seq!["kt"@, "kts"@],
        Language::Scala => seq!["scala"@, "sc"@],
        Language::Haskell => seq!["hs"@, "lhs"@],
        Language::FSharp => seq!["fs"@, "fsx"@, "fsi"@],
        Language::OCaml => seq!["ml"@, "mli"@],
        Language::Nim => seq!["nim"@],
        Language::Zig => seq!["zig"@],
        Language::V => seq!["v"@],
        Language::Odin => seq!["odin"@],
        Language::Jai => seq!["jai"@],
    }
}

/// Whether building a file of this language produces an artifact, as
/// opposed to a syntax or lint check.
pub open spec fn spec_is_compiled(l: Language) -> bool {
    !(l is Python || l is JavaScript || l is TypeScript)
}

/// The executable and arguments used to probe for the language's compiler.
pub open spec fn probe_of(l: Language) -> (Seq<char>, Seq<Seq<char>>) {
    match l {
        Language::C => ("gcc"@, seq!["--version"@]),
        Language::Cpp => ("g++"@, seq!["--version"@]),
        Language::Java => ("javac"@, seq!["-version"@]),
        Language::Rust => ("rustc"@, seq!["--version"@]),
        Language::Go => ("go"@, seq!["version"@]),
        Language::CSharp => ("dotnet"@, seq!["--version"@]),
        Language::Swift => ("swiftc"@, seq!["--version"@]),
        Language::Kotlin => ("kotlinc"@, seq!["-version"@]),
        Language::Scala => ("scalac"@, seq!["-version"@]),
        Language::Haskell => ("ghc"@, seq!["--version"@]),
        Language::FSharp => ("fsharpc"@, seq!["--help"@]),
        Language::OCaml => ("ocamlc"@, seq!["-version"@]),
        Language::Nim => ("nim"@, seq!["--version"@]),
        Language::Zig => ("zig"@, seq!["version"@]),
        Language::V => ("v"@, seq!["version"@]),
        Language::Odin => ("odin"@, seq!["version"@]),
        Language::Jai => ("jai"@, seq!["--version"@]),
        Language::Python | Language::JavaScript | Language::TypeScript => (""@, Seq::empty()),
    }
}

impl Language {
    /// The display name of the language.
    pub fn name(&self) -> (r: &'static str)
        ensures
            r@ == name_of(*self),
    {
        match self {
            Language::C => "C",
            Language::Cpp => "C++",
            Language::Python => "Python",
            Language::Java => "Java",
            Language::Rust => "Rust",
            Language::Go => "Go",
            Language::JavaScript => "JavaScript",
            Language::TypeScript => "TypeScript",
            Language::CSharp => "C#",
            Language::Swift => "Swift",
            Language::Kotlin => "Kotlin",
            Language::Scala => "Scala",
            Language::Haskell => "Haskell",
            Language::FSharp => "F#",
            Language::OCaml => "OCaml",
            Language::Nim => "Nim",
            Language::Zig => "Zig",
            Language::V => "V",
            Language::Odin => "Odin",
            Language::Jai => "Jai",
        }
    }

    /// The file extensions recognized for this language.
    pub fn extensions(&self) -> (r: Vec<&'static str>)
        ensures
            str_views(r@) == extensions_of(*self),
    {
        let r: Vec<&'static str> = match self {
            Language::C => vec!["c", "h"],
            Language::Cpp => vec!["cpp", "cc", "cxx", "c++", "hpp", "hxx", "h++"],
            Language::Python => vec!["py", "pyw", "pyx", "pxd"],
            Language::Java => vec!["java"],
            Language::Rust => vec!["rs"],
            Language::Go => vec!["go"],
            Language::JavaScript => vec!["js", "mjs", "cjs"],
            Language::TypeScript => vec!["ts", "tsx"],
            Language::CSharp => vec!["cs"],
            Language::Swift => vec!["swift"],
            Language::Kotlin => vec!["kt", "kts"],
            Language::Scala => vec!["scala", "sc"],
            Language::Haskell => vec!["hs", "lhs"],
            Language::FSharp => vec!["fs", "fsx", "fsi"],
            Language::OCaml => vec!["ml", "mli"],
            Language::Nim => vec!["nim"],
            Language::Zig => vec!["zig"],
            Language::V => vec!["v"],
            Language::Odin => vec!["odin"],
            Language::Jai => vec!["jai"],
        };
        proof {
            assert(str_views(r@) =~= extensions_of(*self));
        }
        r
    }

    /// Whether this language's build step produces an artifact.
    pub fn is_compiled(&self) -> (r: bool)
        ensures
            r == spec_is_compiled(*self),
    {
        match self {
            Language::C | Language::Cpp | Language::Java | Language::Rust | Language::Go
                | Language::CSharp | Language::Swift | Language::Kotlin | Language::Scala
                | Language::Haskell | Language::FSharp | Language::OCaml | Language::Nim
                | Language::Zig | Language::V | Language::Odin | Language::Jai => true,
            Language::Python | Language::JavaScript | Language::TypeScript => false,
        }
    }

    /// Whether the language needs an external compiler to be present.
    pub fn needs_compiler_check(&self) -> (r: bool)
        ensures
            r == spec_is_compiled(*self),
    {
        match self {
            Language::C | Language::Cpp | Language::Java | Language::Rust | Language::Go
                | Language::CSharp | Language::Swift | Language::Kotlin | Language::Scala
                | Language::Haskell | Language::FSharp | Language::OCaml | Language::Nim
                | Language::Zig | Language::V | Language::Odin | Language::Jai => true,
            Language::Python | Language::JavaScript | Language::TypeScript => false,
        }
    }

    /// The executable and arguments that probe for this language's compiler.
    pub fn get_compiler_command(&self) -> (r: (&'static str, Vec<&'static str>))
        ensures
            r.0@ == probe_of(*self).0,
            str_views(r.1@) == probe_of(*self).1,
    {
        let r: (&'static str, Vec<&'static str>) = match self {
            Language::C => ("gcc", vec!["--version"]),
            Language::Cpp => ("g++", vec!["--version"]),
            Language::Java => ("javac", vec!["-version"]),
            Language::Rust => ("rustc", vec!["--version"]),
            Language::Go => ("go", vec!["version"]),
            Language::CSharp => ("dotnet", vec!["--version"]),
            Language::Swift => ("swiftc", vec!["--version"]),
            Language::Kotlin => ("kotlinc", vec!["-version"]),
            Language::Scala => ("scalac", vec!["-version"]),
            Language::Haskell => ("ghc", vec!["--version"]),
            Language::FSharp => ("fsharpc", vec!["--help"]),
            Language::OCaml => ("ocamlc", vec!["-version"]),
            Language::Nim => ("nim", vec!["--version"]),
            Language::Zig => ("zig", vec!["version"]),
            Language::V => ("v", vec!["version"]),
            Language::Odin => ("odin", vec!["version"]),
            Language::Jai => ("jai", vec!["--version"]),
            Language::Python | Language::JavaScript | Language::TypeScript => ("", Vec::new()),
        };
        proof {
            assert(str_views(r.1@) =~= probe_of(*self).1);
        }
        r
    }
}

/// A single external build invocation: the executable and its arguments.
#[derive(Debug, Clone)]
pub struct BuildCommand {
    /// The executable name.
    pub program: String,
    /// Its arguments, in order.
    pub args: Vec<String>,
}

/// A custom flag token, given the leading `-` when it lacks one.
pub open spec fn normalize_token(t: Seq<char>) -> Seq<char> {
    if t.len() > 0 && t[0] == '-' {
        t
    } else {
        seq!['-'] + t
    }
}

/// The custom flag string split at whitespace, each token normalized.
pub open spec fn custom_flag_args(flags: Option<&str>) -> Seq<Seq<char>> {
    match flags {
        None => Seq::empty(),
        Some(f) => split_ws(f@).map_values(|t: Seq<char>| normalize_token(t)),
    }
}

/// The executable that compiles or checks one file of the language.
pub open spec fn compile_program_of(l: Language) -> Seq<char> {
    match l {
        Language::C => "gcc"@,
        Language::Cpp => "g++"@,
        Language::Python => "python3"@,
        Language::Java => "javac"@,
        Language::Rust => "rustc"@,
        Language::Go => "go"@,
        Language::JavaScript => "node"@,
        Language::TypeScript => "tsc"@,
        Language::CSharp => "dotnet"@,
        Language::Swift => "swiftc"@,
        Language::Kotlin => "kotlinc"@,
        Language::Scala => "scalac"@,
        Language::Haskell => "ghc"@,
        Language::FSharp => "fsharpc"@,
        Language::OCaml => "ocamlc"@,
        Language::Nim => "nim"@,
        Language::Zig => "zig"@,
        Language::V => "v"@,
        Language::Odin => "odin"@,
        Language::Jai => "jai"@,
    }
}

/// The arguments that compile or check one file: for C and C++ the custom
/// flags are spliced in and the output is the source with a `.o` extension.
pub open spec fn compile_args_of(l: Language, file: Seq<char>, flags: Seq<Seq<char>>) -> Seq<
    Seq<char>,
> {
    match l {
        Language::C | Language::Cpp => seq!["-c"@] + flags + seq![
            "-o"@,
            with_object_ext(file),
            file,
        ],
        Language::Python => seq!["-m"@, "py_compile"@, file],
        Language::Java => seq![file],
        Language::Rust => seq![file],
        Language::Go => seq!["build"@, file],
        Language::JavaScript => seq!["--check"@, file],
        Language::TypeScript => seq!["--noEmit"@, file],
        Language::CSharp => seq!["build"@, file],
        Language::Swift => seq![file],
        Language::Kotlin => seq![file],
        Language::Scala => seq![file],
        Language::Haskell => seq!["-c"@, file],
        Language::FSharp => seq![file],
        Language::OCaml => seq!["-c"@, file],
        Language::Nim => seq!["compile"@, "--run"@, file],
        Language::Zig => seq!["build-exe"@, file],
        Language::V => seq![file],
        Language::Odin => seq!["build"@, file],
        Language::Jai => seq![file],
    }
}

/// Normalizes every custom flag token: a token without a leading `-` gets
/// one prepended.
fn normalize_flag_tokens(toks: &Vec<String>) -> (r: Vec<String>)
    ensures
        r@.len() == toks@.len(),
        forall|j: int| 0 <= j < r@.len() ==> r@[j]@ == normalize_token(toks@[j]@),
{
    let mut r: Vec<String> = Vec::new();
    let mut i: usize = 0;
    while i < toks.len()
        invariant
            i <= toks@.len(),
            r@.len() == i,
            forall|j: int| 0 <= j < i ==> r@[j]@ == normalize_token(toks@[j]@),
        decreases toks@.len() - i,
    {
        let t = &toks[i];
        if t.as_str().unicode_len() > 0 && t.as_str().get_char(0) == '-' {
            r.push(t.clone());
        } else {
            proof {
                reveal_strlit("-");
                assert("-"@ =~= seq!['-']);
            }
            let dashed = "-".to_owned().concat(t.as_str());
            r.push(dashed);
        }
        i += 1;
    }
    r
}

/// Builds the argument list shared by the C and C++ commands.
fn c_like_args(file: &str, custom_flags: Option<&str>) -> (args: Vec<String>)
    ensures
        views_of(args@) == seq!["-c"@] + custom_flag_args(custom_flags) + seq![
            "-o"@,
            with_object_ext(file@),
            file@,
        ],
{
    let ghost fl = custom_flag_args(custom_flags);
    let mut args: Vec<String> = Vec::new();
    args.push("-c".to_owned());
    if let Some(f) = custom_flags {
        let toks = split_whitespace_owned(f);
        let normalized = normalize_flag_tokens(&toks);
        proof {
            assert(fl.len() == normalized@.len());
            assert(forall|j: int| 0 <= j < fl.len() ==> fl[j] == normalize_token(#[trigger] views_of(
                toks@,
            )[j]));
        }
        let mut k: usize = 0;
        while k < normalized.len()
            invariant
                k <= normalized@.len(),
                args@.len() == 1 + k,
                args@[0]@ == "-c"@,
                fl.len() == normalized@.len(),
                forall|j: int| 0 <= j < fl.len() ==> normalized@[j]@ == fl[j],
                forall|j: int| 0 <= j < k ==> args@[1 + j]@ == fl[j],
            decreases normalized@.len() - k,
        {
            args.push(normalized[k].clone());
            k += 1;
        }
    }
    args.push("-o".to_owned());
    args.push(crate::paths::path_with_object_ext(file));
    args.push(file.to_owned());
    proof {
        assert(views_of(args@) =~= seq!["-c"@] + fl + seq!["-o"@, with_object_ext(file@), file@]);
    }
    args
}

impl Language {
    /// The exact command line that builds or checks one file of this
    /// language, with any custom flags normalized and spliced in.
    pub fn get_compilation_command(&self, file: &str, custom_flags: Option<&str>) -> (r:
        BuildCommand)
        ensures
            r.program@ == compile_program_of(*self),
            views_of(r.args@) == compile_args_of(*self, file@, custom_flag_args(custom_flags)),
    {
        let r: BuildCommand = match self {
            Language::C => BuildCommand {
                program: "gcc".to_owned(),
                args: c_like_args(file, custom_flags),
            },
            Language::Cpp => BuildCommand {
                program: "g++".to_owned(),
                args: c_like_args(file, custom_flags),
            },
            Language::Python => {
                let mut args: Vec<String> = Vec::new();
                args.push("-m".to_owned());
                args.push("py_compile".to_owned());
                args.push(file.to_owned());
                BuildCommand { program: "python3".to_owned(), args }
            },
            Language::Java => {
                let mut args: Vec<String> = Vec::new();
                args.push(file.to_owned());
                BuildCommand { program: "javac".to_owned(), args }
            },
            Language::Rust => {
                let mut args: Vec<String> = Vec::new();
                args.push(file.to_owned());
                BuildCommand { program: "rustc".to_owned(), args }
            },
            Language::Go => {
                let mut args: Vec<String> = Vec::new();
                args.push("build".to_owned());
                args.push(file.to_owned());
                BuildCommand { program: "go".to_owned(), args }
            },
            Language::JavaScript => {
                let mut args: Vec<String> = Vec::new();
                args.push("--check".to_owned());
                args.push(file.to_owned());
                BuildCommand { program: "node".to_owned(), args }
            },
            Language::TypeScript => {
                let mut args: Vec<String> = Vec::new();
                args.push("--noEmit".to_owned());
                args.push(file.to_owned());
                BuildCommand { program: "tsc".to_owned(), args }
            },
            Language::CSharp => {
                let mut args: Vec<String> = Vec::new();
                args.push("build".to_owned());
                args.push(file.to_owned());
                BuildCommand { program: "dotnet".to_owned(), args }
            },
            Language::Swift => {
                let mut args: Vec<String> = Vec::new();
                args.push(file.to_owned());
                BuildCommand { program: "swiftc".to_owned(), args }
            },
            Language::Kotlin => {
                let mut args: Vec<String> = Vec::new();
                args.push(file.to_owned());
                BuildCommand { program: "kotlinc".to_owned(), args }
            },
            Language::Scala => {
                let mut args: Vec<String> = Vec::new();
                args.push(file.to_owned());
                BuildCommand { program: "scalac".to_owned(), args }
            },
            Language::Haskell => {
                let mut args: Vec<String> = Vec::new();
                args.push("-c".to_owned());
                args.push(file.to_owned());
                BuildCommand { program: "ghc".to_owned(), args }
            },
            Language::FSharp => {
                let mut args: Vec<String> = Vec::new();
                args.push(file.to_owned());
                BuildCommand { program: "fsharpc".to_owned(), args }
            },
            Language::OCaml => {
                let mut args: Vec<String> = Vec::new();
                args.push("-c".to_owned());
                args.push(file.to_owned());
                BuildCommand { program: "ocamlc".to_owned(), args }
            },
            Language::Nim => {
                let mut args: Vec<String> = Vec::new();
                args.push("compile".to_owned());
                args.push("--run".to_owned());
                args.push(file.to_owned());
                BuildCommand { program: "nim".to_owned(), args }
            },
            Language::Zig => {
                let mut args: Vec<String> = Vec::new();
                args.push("build-exe".to_owned());
                args.push(file.to_owned());
                BuildCommand { program: "zig".to_owned(), args }
            },
            Language::V => {
                let mut args: Vec<String> = Vec::new();
                args.push(file.to_owned());
                BuildCommand { program: "v".to_owned(), args }
            },
            Language::Odin => {
                let mut args: Vec<String> = Vec::new();
                args.push("build".to_owned());
                args.push(file.to_owned());
                BuildCommand { program: "odin".to_owned(), args }
            },
            Language::Jai => {
                let mut args: Vec<String> = Vec::new();
                args.push(file.to_owned());
                BuildCommand { program: "jai".to_owned(), args }
            },
        };
        proof {
            assert(views_of(r.args@) =~= compile_args_of(
                *self,
                file@,
                custom_flag_args(custom_flags),
            ));
        }
        r
    }
}

/// The language that claims a (lowercased) extension; each extension
/// belongs to at most one language.
pub open spec fn language_for_extension(ext: Seq<char>) -> Option<Language> {
    if ext == "c"@ {
        Some(Language::C)
    } else if ext == "h"@ {
        Some(Language::C)
    } else if ext == "cpp"@ {
        Some(Language::Cpp)
    } else if ext == "cc"@ {
        Some(Language::Cpp)
    } else if ext == "cxx"@ {
        Some(Language::Cpp)
    } else if ext == "c++"@ {
        Some(Language::Cpp)
    } else if ext == "hpp"@ {
        Some(Language::Cpp)
    } else if ext == "hxx"@ {
        Some(Language::Cpp)
    } else if ext == "h++"@ {
        Some(Language::Cpp)
    } else if ext == "py"@ {
        Some(Language::Python)
    } else if ext == "pyw"@ {
        Some(Language::Python)
    } else if ext == "pyx"@ {
        Some(Language::Python)
    } else if ext == "pxd"@ {
        Some(Language::Python)
    } else if ext == "java"@ {
        Some(Language::Java)
    } else if ext == "rs"@ {
        Some(Language::Rust)
    } else if ext == "go"@ {
        Some(Language::Go)
    } else if ext == "js"@ {
        Some(Language::JavaScript)
    } else if ext == "mjs"@ {
        Some(Language::JavaScript)
    } else if ext == "cjs"@ {
        Some(Language::JavaScript)
    } else if ext == "ts"@ {
        Some(Language::TypeScript)
    } else if ext == "tsx"@ {
        Some(Language::TypeScript)
    } else if ext == "cs"@ {
        Some(Language::CSharp)
    } else if ext == "swift"@ {
        Some(Language::Swift)
    } else if ext == "kt"@ {
        Some(Language::Kotlin)
    } else if ext == "kts"@ {
        Some(Language::Kotlin)
    } else if ext == "scala"@ {
        Some(Language::Scala)
    } else if ext == "sc"@ {
        Some(Language::Scala)
    } else if ext == "hs"@ {
        Some(Language::Haskell)
    } else if ext == "lhs"@ {
        Some(Language::Haskell)
    } else if ext == "fs"@ {
        Some(Language::FSharp)
    } else if ext == "fsx"@ {
        Some(Language::FSharp)
    } else if ext == "fsi"@ {
        Some(Language::FSharp)
    } else if ext == "ml"@ {
        Some(Language::OCaml)
    } else if ext == "mli"@ {
        Some(Language::OCaml)
    } else if ext == "nim"@ {
        Some(Language::Nim)
    } else if ext == "zig"@ {
        Some(Language::Zig)
    } else if ext == "v"@ {
        Some(Language::V)
    } else if ext == "odin"@ {
        Some(Language::Odin)
    } else if ext == "jai"@ {
        Some(Language::Jai)
    } else {
        None
    }
}

/// The characters of every registry extension literal, so that the
/// lookup chain can be evaluated on them.
proof fn lemma_extension_literals()
    ensures
        "c"@ == seq!['c'],
        "h"@ == seq!['h'],
        "cpp"@ == seq!['c', 'p', 'p'],
        "cc"@ == seq!['c', 'c'],
        "cxx"@ == seq!['c', 'x', 'x'],
        "c++"@ == seq!['c', '+', '+'],
        "hpp"@ == seq!['h', 'p', 'p'],
        "hxx"@ == seq!['h', 'x', 'x'],
        "h++"@ == seq!['h', '+', '+'],
        "py"@ == seq!['p', 'y'],
        "pyw"@ == seq!['p', 'y', 'w'],
        "pyx"@ == seq!['p', 'y', 'x'],
        "pxd"@ == seq!['p', 'x', 'd'],
        "java"@ == seq!['j', 'a', 'v', 'a'],
        "rs"@ == seq!['r', 's'],
        "go"@ == seq!['g', 'o'],
        "js"@ == seq!['j', 's'],
        "mjs"@ == seq!['m', 'j', 's'],
        "cjs"@ == seq!['c', 'j', 's'],
        "ts"@ == seq!['t', 's'],
        "tsx"@ == seq!['t', 's', 'x'],
        "cs"@ == seq!['c', 's'],
        "swift"@ == seq!['s', 'w', 'i', 'f', 't'],
        "kt"@ == seq!['k', 't'],
        "kts"@ == seq!['k', 't', 's'],
        "scala"@ == seq!['s', 'c', 'a', 'l', 'a'],
        "sc"@ == seq!['s', 'c'],
        "hs"@ == seq!['h', 's'],
        "lhs"@ == seq!['l', 'h', 's'],
        "fs"@ == seq!['f', 's'],
        "fsx"@ == seq!['f', 's', 'x'],
        "fsi"@ == seq!['f', 's', 'i'],
        "ml"@ == seq!['m', 'l'],
        "mli"@ == seq!['m', 'l', 'i'],
        "nim"@ == seq!['n', 'i', 'm'],
        "zig"@ == seq!['z', 'i', 'g'],
        "v"@ == seq!['v'],
        "odin"@ == seq!['o', 'd', 'i', 'n'],
        "jai"@ == seq!['j', 'a', 'i'],
        "c"@[0] == 'c',
        "h"@[0] == 'h',
        "cpp"@[0] == 'c',
        "cc"@[0] == 'c',
        "cxx"@[0] == 'c',
        "c++"@[0] == 'c',
        "hpp"@[0] == 'h',
        "hxx"@[0] == 'h',
        "h++"@[0] == 'h',
        "py"@[0] == 'p',
        "pyw"@[0] == 'p',
        "pyx"@[0] == 'p',
        "pxd"@[0] == 'p',
        "java"@[0] == 'j',
        "rs"@[0] == 'r',
        "go"@[0] == 'g',
        "js"@[0] == 'j',
        "mjs"@[0] == 'm',
        "cjs"@[0] == 'c',
        "ts"@[0] == 't',
        "tsx"@[0] == 't',
        "cs"@[0] == 'c',
        "swift"@[0] == 's',
        "kt"@[0] == 'k',
        "kts"@[0] == 'k',
        "scala"@[0] == 's',
        "sc"@[0] == 's',
        "hs"@[0] == 'h',
        "lhs"@[0] == 'l',
        "fs"@[0] == 'f',
        "fsx"@[0] == 'f',
        "fsi"@[0] == 'f',
        "ml"@[0] == 'm',
        "mli"@[0] == 'm',
        "nim"@[0] == 'n',
        "zig"@[0] == 'z',
        "v"@[0] == 'v',
        "odin"@[0] == 'o',
        "jai"@[0] == 'j',
        "c"@.len() == 1,
        "h"@.len() == 1,
        "cpp"@.len() == 3,
        "cc"@.len() == 2,
        "cxx"@.len() == 3,
        "c++"@.len() == 3,
        "hpp"@.len() == 3,
        "hxx"@.len() == 3,
        "h++"@.len() == 3,
        "py"@.len() == 2,
        "pyw"@.len() == 3,
        "pyx"@.len() == 3,
        "pxd"@.len() == 3,
        "java"@.len() == 4,
        "rs"@.len() == 2,
        "go"@.len() == 2,
        "js"@.len() == 2,
        "mjs"@.len() == 3,
        "cjs"@.len() == 3,
        "ts"@.len() == 2,
        "tsx"@.len() == 3,
        "cs"@.len() == 2,
        "swift"@.len() == 5,
        "kt"@.len() == 2,
        "kts"@.len() == 3,
        "scala"@.len() == 5,
        "sc"@.len() == 2,
        "hs"@.len() == 2,
        "lhs"@.len() == 3,
        "fs"@.len() == 2,
        "fsx"@.len() == 3,
        "fsi"@.len() == 3,
        "ml"@.len() == 2,
        "mli"@.len() == 3,
        "nim"@.len() == 3,
        "zig"@.len() == 3,
        "v"@.len() == 1,
        "odin"@.len() == 4,
        "jai"@.len() == 3,
{
    reveal_strlit("c");
    reveal_strlit("h");
    reveal_strlit("cpp");
    reveal_strlit("cc");
    reveal_strlit("cxx");
    reveal_strlit("c++");
    reveal_strlit("hpp");
    reveal_strlit("hxx");
    reveal_strlit("h++");
    reveal_strlit("py");
    reveal_strlit("pyw");
    reveal_strlit("pyx");
    reveal_strlit("pxd");
    reveal_strlit("java");
    reveal_strlit("rs");
    reveal_strlit("go");
    reveal_strlit("js");
    reveal_strlit("mjs");
    reveal_strlit("cjs");
    reveal_strlit("ts");
    reveal_strlit("tsx");
    reveal_strlit("cs");
    reveal_strlit("swift");
    reveal_strlit("kt");
    reveal_strlit("kts");
    reveal_strlit("scala");
    reveal_strlit("sc");
    reveal_strlit("hs");
    reveal_strlit("lhs");
    reveal_strlit("fs");
    reveal_strlit("fsx");
    reveal_strlit("fsi");
    reveal_strlit("ml");
    reveal_strlit("mli");
    reveal_strlit("nim");
    reveal_strlit("zig");
    reveal_strlit("v");
    reveal_strlit("odin");
    reveal_strlit("jai");
    assert("c"@ =~= seq!['c']);
    assert("h"@ =~= seq!['h']);
    assert("cpp"@ =~= seq!['c', 'p', 'p']);
    assert("cc"@ =~= seq!['c', 'c']);
    assert("cxx"@ =~= seq!['c', 'x', 'x']);
    assert("c++"@ =~= seq!['c', '+', '+']);
    assert("hpp"@ =~= seq!['h', 'p', 'p']);
    assert("hxx"@ =~= seq!['h', 'x', 'x']);
    assert("h++"@ =~= seq!['h', '+', '+']);
    assert("py"@ =~= seq!['p', 'y']);
    assert("pyw"@ =~= seq!['p', 'y', 'w']);
    assert("pyx"@ =~= seq!['p', 'y', 'x']);
    assert("pxd"@ =~= seq!['p', 'x', 'd']);
    assert("java"@ =~= seq!['j', 'a', 'v', 'a']);
    assert("rs"@ =~= seq!['r', 's']);
    assert("go"@ =~= seq!['g', 'o']);
    assert("js"@ =~= seq!['j', 's']);
    assert("mjs"@ =~= seq!['m', 'j', 's']);
    assert("cjs"@ =~= seq!['c', 'j', 's']);
    assert("ts"@ =~= seq!['t', 's']);
    assert("tsx"@ =~= seq!['t', 's', 'x']);
    assert("cs"@ =~= seq!['c', 's']);
    assert("swift"@ =~= seq!['s', 'w', 'i', 'f', 't']);
    assert("kt"@ =~= seq!['k', 't']);
    assert("kts"@ =~= seq!['k', 't', 's']);
    assert("scala"@ =~= seq!['s', 'c', 'a', 'l', 'a']);
    assert("sc"@ =~= seq!['s', 'c']);
    assert("hs"@ =~= seq!['h', 's']);
    assert("lhs"@ =~= seq!['l', 'h', 's']);
    assert("fs"@ =~= seq!['f', 's']);
    assert("fsx"@ =~= seq!['f', 's', 'x']);
    assert("fsi"@ =~= seq!['f', 's', 'i']);
    assert("ml"@ =~= seq!['m', 'l']);
    assert("mli"@ =~= seq!['m', 'l', 'i']);
    assert("nim"@ =~= seq!['n', 'i', 'm']);
    assert("zig"@ =~= seq!['z', 'i', 'g']);
    assert("v"@ =~= seq!['v']);
    assert("odin"@ =~= seq!['o', 'd', 'i', 'n']);
    assert("jai"@ =~= seq!['j', 'a', 'i']);
}

proof fn lemma_claims_c()
    ensures
        language_for_extension("c"@) == Some(Language::C),
        language_for_extension("h"@) == Some(Language::C),
{
    lemma_extension_literals();
    assert(language_for_extension("c"@) == Some(Language::C));
    assert(language_for_extension("h"@) == Some(Language::C));
}

proof fn lemma_claims_cpp()
    ensures
        language_for_extension("cpp"@) == Some(Language::Cpp),
        language_for_extension("cc"@) == Some(Language::Cpp),
        language_for_extension("cxx"@) == Some(Language::Cpp),
        language_for_extension("c++"@) == Some(Language::Cpp),
        language_for_extension("hpp"@) == Some(Language::Cpp),
        language_for_extension("hxx"@) == Some(Language::Cpp),
        language_for_extension("h++"@) == Some(Language::Cpp),
{
    lemma_extension_literals();
    assert(language_for_extension("cpp"@) == Some(Language::Cpp));
    assert(language_for_extension("cc"@) == Some(Language::Cpp));
    assert(language_for_extension("cxx"@) == Some(Language::Cpp));
    assert(language_for_extension("c++"@) == Some(Language::Cpp));
    assert(language_for_extension("hpp"@) == Some(Language::Cpp));
    assert(language_for_extension("hxx"@) == Some(Language::Cpp));
    assert(language_for_extension("h++"@) == Some(Language::Cpp));
}

proof fn lemma_claims_python()
    ensures
        language_for_extension("py"@) == Some(Language::Python),
        language_for_extension("pyw"@) == Some(Language::Python),
        language_for_extension("pyx"@) == Some(Language::Python),
        language_for_extension("pxd"@) == Some(Language::Python),
{
    lemma_extension_literals();
    assert(language_for_extension("py"@) == Some(Language::Python));
    assert(language_for_extension("pyw"@) == Some(Language::Python));
    assert(language_for_extension("pyx"@) == Some(Language::Python));
    assert(language_for_extension("pxd"@) == Some(Language::Python));
}

proof fn lemma_claims_java()
    ensures
        language_for_extension("java"@) == Some(Language::Java),
{
    lemma_extension_literals();
    assert(language_for_extension("java"@) == Some(Language::Java));
}

proof fn lemma_claims_rust()
    ensures
        language_for_extension("rs"@) == Some(Language::Rust),
{
    lemma_extension_literals();
    assert(language_for_extension("rs"@) == Some(Language::Rust));
}

proof fn lemma_claims_go()
    ensures
        language_for_extension("go"@) == Some(Language::Go),
{
    lemma_extension_literals();
    assert(language_for_extension("go"@) == Some(Language::Go));
}

proof fn lemma_claims_javascript()
    ensures
        language_for_extension("js"@) == Some(Language::JavaScript),
        language_for_extension("mjs"@) == Some(Language::JavaScript),
        language_for_extension("cjs"@) == Some(Language::JavaScript),
{
    lemma_extension_literals();
    assert(language_for_extension("js"@) == Some(Language::JavaScript));
    assert(language_for_extension("mjs"@) == Some(Language::JavaScript));
    assert(language_for_extension("cjs"@) == Some(Language::JavaScript));
}

proof fn lemma_claims_typescript()
    ensures
        language_for_extension("ts"@) == Some(Language::TypeScript),
        language_for_extension("tsx"@) == Some(Language::TypeScript),
{
    lemma_extension_literals();
    assert(language_for_extension("ts"@) == Some(Language::TypeScript));
    assert(language_for_extension("tsx"@) == Some(Language::TypeScript));
}

proof fn lemma_claims_csharp()
    ensures
        language_for_extension("cs"@) == Some(Language::CSharp),
{
    lemma_extension_literals();
    assert(language_for_extension("cs"@) == Some(Language::CSharp));
}

proof fn lemma_claims_swift()
    ensures
        language_for_extension("swift"@) == Some(Language::Swift),
{
    lemma_extension_literals();
    assert(language_for_extension("swift"@) == Some(Language::Swift));
}

proof fn lemma_claims_kotlin()
    ensures
        language_for_extension("kt"@) == Some(Language::Kotlin),
        language_for_extension("kts"@) == Some(Language::Kotlin),
{
    lemma_extension_literals();
    assert(language_for_extension("kt"@) == Some(Language::Kotlin));
    assert(language_for_extension("kts"@) == Some(Language::Kotlin));
}

proof fn lemma_claims_scala()
    ensures
        language_for_extension("scala"@) == Some(Language::Scala),
        language_for_extension("sc"@) == Some(Language::Scala),
{
    lemma_extension_literals();
    assert(language_for_extension("scala"@) == Some(Language::Scala));
    assert(language_for_extension("sc"@) == Some(Language::Scala));
}

proof fn lemma_claims_haskell()
    ensures
        language_for_extension("hs"@) == Some(Language::Haskell),
        language_for_extension("lhs"@) == Some(Language::Haskell),
{
    lemma_extension_literals();
    assert(language_for_extension("hs"@) == Some(Language::Haskell));
    assert(language_for_extension("lhs"@) == Some(Language::Haskell));
}

proof fn lemma_claims_fsharp()
    ensures
        language_for_extension("fs"@) == Some(Language::FSharp),
        language_for_extension("fsx"@) == Some(Language::FSharp),
        language_for_extension("fsi"@) == Some(Language::FSharp),
{
    lemma_extension_literals();
    assert(language_for_extension("fs"@) == Some(Language::FSharp));
    assert(language_for_extension("fsx"@) == Some(Language::FSharp));
    assert(language_for_extension("fsi"@) == Some(Language::FSharp));
}

proof fn lemma_claims_ocaml()
    ensures
        language_for_extension("ml"@) == Some(Language::OCaml),
        language_for_extension("mli"@) == Some(Language::OCaml),
{
    lemma_extension_literals();
    assert(language_for_extension("ml"@) == Some(Language::OCaml));
    assert(language_for_extension("mli"@) == Some(Language::OCaml));
}

proof fn lemma_claims_nim()
    ensures
        language_for_extension("nim"@) == Some(Language::Nim),
{
    lemma_extension_literals();
    assert(language_for_extension("nim"@) == Some(Language::Nim));
}

proof fn lemma_claims_zig()
    ensures
        language_for_extension("zig"@) == Some(Language::Zig),
{
    lemma_extension_literals();
    assert(language_for_extension("zig"@) == Some(Language::Zig));
}

proof fn lemma_claims_v()
    ensures
        language_for_extension("v"@) == Some(Language::V),
{
    lemma_extension_literals();
    // the two other single-character extensions, which length alone
    // cannot tell apart from this one
    assert("v"@ != "c"@);
    assert("v"@ != "h"@);
    assert(language_for_extension("v"@) == Some(Language::V));
}

proof fn lemma_claims_odin()
    ensures
        language_for_extension("odin"@) == Some(Language::Odin),
{
    lemma_extension_literals();
    assert(language_for_extension("odin"@) == Some(Language::Odin));
}

proof fn lemma_claims_jai()
    ensures
        language_for_extension("jai"@) == Some(Language::Jai),
{
    lemma_extension_literals();
    assert(language_for_extension("jai"@) == Some(Language::Jai));
}

/// The per-language extension lists and the lookup agree: every extension
/// a language lists is claimed back by exactly that language. In
/// particular no two languages claim the same extension.
pub proof fn lemma_registry_coherent(l: Language, i: int)
    requires
        0 <= i < extensions_of(l).len(),
    ensures
        language_for_extension(extensions_of(l)[i]) == Some(l),
{
    match l {
        Language::C => lemma_claims_c(),
        Language::Cpp => lemma_claims_cpp(),
        Language::Python => lemma_claims_python(),
        Language::Java => lemma_claims_java(),
        Language::Rust => lemma_claims_rust(),
        Language::Go => lemma_claims_go(),
        Language::JavaScript => lemma_claims_javascript(),
        Language::TypeScript => lemma_claims_typescript(),
        Language::CSharp => lemma_claims_csharp(),
        Language::Swift => lemma_claims_swift(),
        Language::Kotlin => lemma_claims_kotlin(),
        Language::Scala => lemma_claims_scala(),
        Language::Haskell => lemma_claims_haskell(),
        Language::FSharp => lemma_claims_fsharp(),
        Language::OCaml => lemma_claims_ocaml(),
        Language::Nim => lemma_claims_nim(),
        Language::Zig => lemma_claims_zig(),
        Language::V => lemma_claims_v(),
        Language::Odin => lemma_claims_odin(),
        Language::Jai => lemma_claims_jai(),
    }
}

/// The extension table in registry order: each recognized extension with
/// its language.
pub open spec fn registry() -> Seq<(Seq<char>, Language)> {
    seq![
        ("c"@, Language::C),
        ("h"@, Language::C),
        ("cpp"@, Language::Cpp),
        ("cc"@, Language::Cpp),
        ("cxx"@, Language::Cpp),
        ("c++"@, Language::Cpp),
        ("hpp"@, Language::Cpp),
        ("hxx"@, Language::Cpp),
        ("h++"@, Language::Cpp),
        ("py"@, Language::Python),
        ("pyw"@, Language::Python),
        ("pyx"@, Language::Python),
        ("pxd"@, Language::Python),
        ("java"@, Language::Java),
        ("rs"@, Language::Rust),
        ("go"@, Language::Go),
        ("cs"@, Language::CSharp),
        ("swift"@, Language::Swift),
        ("kt"@, Language::Kotlin),
        ("kts"@, Language::Kotlin),
        ("scala"@, Language::Scala),
        ("sc"@, Language::Scala),
        ("hs"@, Language::Haskell),
        ("lhs"@, Language::Haskell),
        ("fs"@, Language::FSharp),
        ("fsx"@, Language::FSharp),
        ("fsi"@, Language::FSharp),
        ("ml"@, Language::OCaml),
        ("mli"@, Language::OCaml),
        ("nim"@, Language::Nim),
        ("zig"@, Language::Zig),
        ("v"@, Language::V),
        ("odin"@, Language::Odin),
        ("jai"@, Language::Jai),
        ("js"@, Language::JavaScript),
        ("mjs"@, Language::JavaScript),
        ("cjs"@, Language::JavaScript),
        ("ts"@, Language::TypeScript),
        ("tsx"@, Language::TypeScript),
    ]
}

/// The views of an extension table.
pub open spec fn table_views(v: Seq<(String, Language)>) -> Seq<(Seq<char>, Language)> {
    v.map_values(|p: (String, Language)| (p.0@, p.1))
}

/// The extension table, mapping each recognized extension to its language.
pub struct LanguageSupport {
    /// The table entries, in registry order.
    pub languages: Vec<(String, Language)>,
}

impl LanguageSupport {
    /// The table holds exactly the registry.
    pub open spec fn wf(self) -> bool {
        table_views(self.languages@) == registry()
    }

    /// Builds the extension table.
    #[verifier::rlimit(30)]
    pub fn new() -> (r: Self)
        ensures
            r.wf(),
    {
        let mut v: Vec<(String, Language)> = Vec::new();
        v.push(("c".to_owned(), Language::C));
        v.push(("h".to_owned(), Language::C));
        v.push(("cpp".to_owned(), Language::Cpp));
        v.push(("cc".to_owned(), Language::Cpp));
        v.push(("cxx".to_owned(), Language::Cpp));
        v.push(("c++".to_owned(), Language::Cpp));
        v.push(("hpp".to_owned(), Language::Cpp));
        v.push(("hxx".to_owned(), Language::Cpp));
        v.push(("h++".to_owned(), Language::Cpp));
        v.push(("py".to_owned(), Language::Python));
        v.push(("pyw".to_owned(), Language::Python));
        v.push(("pyx".to_owned(), Language::Python));
        v.push(("pxd".to_owned(), Language::Python));
        v.push(("java".to_owned(), Language::Java));
        v.push(("rs".to_owned(), Language::Rust));
        v.push(("go".to_owned(), Language::Go));
        v.push(("cs".to_owned(), Language::CSharp));
        v.push(("swift".to_owned(), Language::Swift));
        v.push(("kt".to_owned(), Language::Kotlin));
        v.push(("kts".to_owned(), Language::Kotlin));
        v.push(("scala".to_owned(), Language::Scala));
        v.push(("sc".to_owned(), Language::Scala));
        v.push(("hs".to_owned(), Language::Haskell));
        v.push(("lhs".to_owned(), Language::Haskell));
        v.push(("fs".to_owned(), Language::FSharp));
        v.push(("fsx".to_owned(), Language::FSharp));
        v.push(("fsi".to_owned(), Language::FSharp));
        v.push(("ml".to_owned(), Language::OCaml));
        v.push(("mli".to_owned(), Language::OCaml));
        v.push(("nim".to_owned(), Language::Nim));
        v.push(("zig".to_owned(), Language::Zig));
        v.push(("v".to_owned(), Language::V));
        v.push(("odin".to_owned(), Language::Odin));
        v.push(("jai".to_owned(), Language::Jai));
        v.push(("js".to_owned(), Language::JavaScript));
        v.push(("mjs".to_owned(), Language::JavaScript));
        v.push(("cjs".to_owned(), Language::JavaScript));
        v.push(("ts".to_owned(), Language::TypeScript));
        v.push(("tsx".to_owned(), Language::TypeScript));
        proof {
            assert(table_views(v@) =~= registry());
        }
        LanguageSupport { languages: v }
    }

    /// Looks up the language that claims an extension.
    pub fn get_language_by_extension(&self, extension: &str) -> (r: Option<Language>)
        ensures
            r == language_for_extension(extension@),
    {
        if str_eq(extension, "c") {
            Some(Language::C)
        } else if str_eq(extension, "h") {
            Some(Language::C)
        } else if str_eq(extension, "cpp") {
            Some(Language::Cpp)
        } else if str_eq(extension, "cc") {
            Some(Language::Cpp)
        } else if str_eq(extension, "cxx") {
            Some(Language::Cpp)
        } else if str_eq(extension, "c++") {
            Some(Language::Cpp)
        } else if str_eq(extension, "hpp") {
            Some(Language::Cpp)
        } else if str_eq(extension, "hxx") {
            Some(Language::Cpp)
        } else if str_eq(extension, "h++") {
            Some(Language::Cpp)
        } else if str_eq(extension, "py") {
            Some(Language::Python)
        } else if str_eq(extension, "pyw") {
            Some(Language::Python)
        } else if str_eq(extension, "pyx") {
            Some(Language::Python)
        } else if str_eq(extension, "pxd") {
            Some(Language::Python)
        } else if str_eq(extension, "java") {
            Some(Language::Java)
        } else if str_eq(extension, "rs") {
            Some(Language::Rust)
        } else if str_eq(extension, "go") {
            Some(Language::Go)
        } else if str_eq(extension, "js") {
            Some(Language::JavaScript)
        } else if str_eq(extension, "mjs") {
            Some(Language::JavaScript)
        } else if str_eq(extension, "cjs") {
            Some(Language::JavaScript)
        } else if str_eq(extension, "ts") {
            Some(Language::TypeScript)
        } else if str_eq(extension, "tsx") {
            Some(Language::TypeScript)
        } else if str_eq(extension, "cs") {
            Some(Language::CSharp)
        } else if str_eq(extension, "swift") {
            Some(Language::Swift)
        } else if str_eq(extension, "kt") {
            Some(Language::Kotlin)
        } else if str_eq(extension, "kts") {
            Some(Language::Kotlin)
        } else if str_eq(extension, "scala") {
            Some(Language::Scala)
        } else if str_eq(extension, "sc") {
            Some(Language::Scala)
        } else if str_eq(extension, "hs") {
            Some(Language::Haskell)
        } else if str_eq(extension, "lhs") {
            Some(Language::Haskell)
        } else if str_eq(extension, "fs") {
            Some(Language::FSharp)
        } else if str_eq(extension, "fsx") {
            Some(Language::FSharp)
        } else if str_eq(extension, "fsi") {
            Some(Language::FSharp)
        } else if str_eq(extension, "ml") {
            Some(Language::OCaml)
        } else if str_eq(extension, "mli") {
            Some(Language::OCaml)
        } else if str_eq(extension, "nim") {
            Some(Language::Nim)
        } else if str_eq(extension, "zig") {
            Some(Language::Zig)
        } else if str_eq(extension, "v") {
            Some(Language::V)
        } else if str_eq(extension, "odin") {
            Some(Language::Odin)
        } else if str_eq(extension, "jai") {
            Some(Language::Jai)
        } else {
            None
        }
    }

    /// The languages in the table, one entry per recognized extension.
    pub fn get_available_languages(&self) -> (r: Vec<Language>)
        requires
            self.wf(),
        ensures
            r@.len() == registry().len(),
            forall|i: int| 0 <= i < r@.len() ==> r@[i] == registry()[i].1,
    {
        let mut r: Vec<Language> = Vec::new();
        let mut i: usize = 0;
        while i < self.languages.len()
            invariant
                self.wf(),
                i <= self.languages@.len(),
                r@.len() == i,
                forall|j: int| 0 <= j < i ==> r@[j] == registry()[j].1,
            decreases self.languages@.len() - i,
        {
            proof {
                assert(table_views(self.languages@)[i as int] == registry()[i as int]);
            }
            r.push(self.languages[i].1);
            i += 1;
        }
        r
    }

    /// All recognized extensions, in registry order.
    pub fn get_supported_extensions(&self) -> (r: Vec<String>)
        requires
            self.wf(),
        ensures
            r@.len() == registry().len(),
            forall|i: int| 0 <= i < r@.len() ==> r@[i]@ == registry()[i].0,
    {
        let mut r: Vec<String> = Vec::new();
        let mut i: usize = 0;
        while i < self.languages.len()
            invariant
                self.wf(),
                i <= self.languages@.len(),
                r@.len() == i,
                forall|j: int| 0 <= j < i ==> r@[j]@ == registry()[j].0,
            decreases self.languages@.len() - i,
        {
            proof {
                assert(table_views(self.languages@)[i as int] == registry()[i as int]);
            }
            r.push(self.languages[i].0.clone());
            i += 1;
        }
        r
    }
}

} // verus!
