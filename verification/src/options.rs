//! Request options understood by the compilation front ends: assembly
//! dialect, backtrace setting, optimization level and compiler output
//! format, each parsed from the short textual form used in requests.

use vstd::prelude::*;
use crate::error::StringError;

verus! {

/// The assembly dialect emitted when compiling to assembly.
#[derive(Debug, PartialEq, Eq, Copy, Clone, Structural)]
pub enum AsmFlavor {
    Att,
    Intel,
}

/// The textual name of an assembly dialect.
pub open spec fn spec_asm_flavor_name(f: AsmFlavor) -> Seq<char> {
    match f {
        AsmFlavor::Att => "att"@,
        AsmFlavor::Intel => "intel"@,
    }
}

impl AsmFlavor {
    /// The textual name of this dialect.
    pub fn as_str(&self) -> (r: &'static str)
        ensures
            r@ == spec_asm_flavor_name(*self),
    {
        match *self {
            AsmFlavor::Att => "att",
            AsmFlavor::Intel => "intel",
        }
    }

    /// Parses the textual name of an assembly dialect; any other text is
    /// rejected with an error naming the unknown dialect.
    pub fn from_str(s: &str) -> (r: Result<AsmFlavor, StringError>)
        ensures
            s@ == spec_asm_flavor_name(AsmFlavor::Att) ==> r == Ok::<AsmFlavor, StringError>(
                AsmFlavor::Att,
            ),
            s@ == spec_asm_flavor_name(AsmFlavor::Intel) ==> r == Ok::<AsmFlavor, StringError>(
                AsmFlavor::Intel,
            ),
            !(s@ == spec_asm_flavor_name(AsmFlavor::Att) || s@ == spec_asm_flavor_name(
                AsmFlavor::Intel,
            )) ==> (r matches Err(e) && e.0@ == "unknown asm dialect "@ + s@),
    {
        proof {
            reveal_strlit("att");
            reveal_strlit("intel");
            assert("att"@.len() == 3);
            assert("intel"@.len() == 5);
        }
        if crate::channel::str_eq(s, "att") {
            Ok(AsmFlavor::Att)
        } else if crate::channel::str_eq(s, "intel") {
            Ok(AsmFlavor::Intel)
        } else {
            Err(StringError(String::from_str("unknown asm dialect ").concat(s)))
        }
    }
}

/// Whether the guest program is asked to print a backtrace on panic.
#[derive(Debug, PartialEq, Eq, Copy, Clone, Structural)]
pub enum Backtrace {
    Never,
    Always,
    Auto,
}

impl Backtrace {
    /// Whether a backtrace should be requested, given whether the build
    /// is a debug build: `Never` and `Always` are unconditional, while
    /// `Auto` requests one exactly for debug builds.
    pub fn is_requested(&self, debug: bool) -> (r: bool)
        ensures
            r == (*self == Backtrace::Always || (*self == Backtrace::Auto && debug)),
    {
        match *self {
            Backtrace::Never => false,
            Backtrace::Always => true,
            Backtrace::Auto => debug,
        }
    }

    /// Parses a backtrace setting ("0", "1" or "2"); any other text is
    /// rejected with an error naming the unknown setting.
    pub fn from_str(s: &str) -> (r: Result<Backtrace, StringError>)
        ensures
            s@ == "0"@ ==> r == Ok::<Backtrace, StringError>(Backtrace::Never),
            s@ == "1"@ ==> r == Ok::<Backtrace, StringError>(Backtrace::Always),
            s@ == "2"@ ==> r == Ok::<Backtrace, StringError>(Backtrace::Auto),
            !(s@ == "0"@ || s@ == "1"@ || s@ == "2"@) ==> (r matches Err(e) && e.0@
                == "unknown backtrace setting "@ + s@),
    {
        proof {
            reveal_strlit("0");
            reveal_strlit("1");
            reveal_strlit("2");
            assert("0"@[0] != "1"@[0]);
            assert("0"@[0] != "2"@[0]);
            assert("1"@[0] != "2"@[0]);
        }
        if crate::channel::str_eq(s, "0") {
            Ok(Backtrace::Never)
        } else if crate::channel::str_eq(s, "1") {
            Ok(Backtrace::Always)
        } else if crate::channel::str_eq(s, "2") {
            Ok(Backtrace::Auto)
        } else {
            Err(StringError(String::from_str("unknown backtrace setting ").concat(s)))
        }
    }
}

/// The optimization level handed to the compiler.
#[derive(Debug, PartialEq, Eq, Copy, Clone, Structural)]
pub enum OptLevel {
    O0,
    O1,
    O2,
    O3,
}

impl OptLevel {
    /// The numeric value of this optimization level.
    pub fn as_u8(&self) -> (r: u8)
        ensures
            *self == OptLevel::O0 ==> r == 0,
            *self == OptLevel::O1 ==> r == 1,
            *self == OptLevel::O2 ==> r == 2,
            *self == OptLevel::O3 ==> r == 3,
    {
        match *self {
            OptLevel::O0 => 0,
            OptLevel::O1 => 1,
            OptLevel::O2 => 2,
            OptLevel::O3 => 3,
        }
    }

    /// Parses an optimization level ("0" through "3"); any other text is
    /// rejected with an error naming the unknown level.
    pub fn from_str(s: &str) -> (r: Result<OptLevel, StringError>)
        ensures
            s@ == "0"@ ==> r == Ok::<OptLevel, StringError>(OptLevel::O0),
            s@ == "1"@ ==> r == Ok::<OptLevel, StringError>(OptLevel::O1),
            s@ == "2"@ ==> r == Ok::<OptLevel, StringError>(OptLevel::O2),
            s@ == "3"@ ==> r == Ok::<OptLevel, StringError>(OptLevel::O3),
            !(s@ == "0"@ || s@ == "1"@ || s@ == "2"@ || s@ == "3"@) ==> (r matches Err(e) && e.0@
                == "unknown optimization level "@ + s@),
    {
        proof {
            reveal_strlit("0");
            reveal_strlit("1");
            reveal_strlit("2");
            reveal_strlit("3");
            assert("0"@[0] != "1"@[0]);
            assert("0"@[0] != "2"@[0]);
            assert("0"@[0] != "3"@[0]);
            assert("1"@[0] != "2"@[0]);
            assert("1"@[0] != "3"@[0]);
            assert("2"@[0] != "3"@[0]);
        }
        if crate::channel::str_eq(s, "0") {
            Ok(OptLevel::O0)
        } else if crate::channel::str_eq(s, "1") {
            Ok(OptLevel::O1)
        } else if crate::channel::str_eq(s, "2") {
            Ok(OptLevel::O2)
        } else if crate::channel::str_eq(s, "3") {
            Ok(OptLevel::O3)
        } else {
            Err(StringError(String::from_str("unknown optimization level ").concat(s)))
        }
    }
}

/// The kind of compiler output a compile request asks for.
#[derive(Debug, PartialEq, Eq, Copy, Clone, Structural)]
pub enum CompileOutput {
    Asm,
    Llvm,
    Mir,
}

impl CompileOutput {
    /// The compiler options that select this output format.
    pub fn as_opts(&self) -> (r: Vec<&'static str>)
        ensures
            *self == CompileOutput::Asm ==> r@.len() == 1 && r@[0]@ == "--emit=asm"@,
            *self == CompileOutput::Llvm ==> r@.len() == 1 && r@[0]@ == "--emit=llvm-ir"@,
            *self == CompileOutput::Mir ==> r@.len() == 2 && r@[0]@ == "-Zunstable-options"@
                && r@[1]@ == "--unpretty=mir"@,
    {
        match *self {
            CompileOutput::Asm => vec!["--emit=asm"],
            CompileOutput::Llvm => vec!["--emit=llvm-ir"],
            CompileOutput::Mir => vec!["-Zunstable-options", "--unpretty=mir"],
        }
    }

    /// Parses the textual name of an output format; any other text is
    /// rejected with an error naming the unknown format.
    pub fn from_str(s: &str) -> (r: Result<CompileOutput, StringError>)
        ensures
            s@ == "asm"@ ==> r == Ok::<CompileOutput, StringError>(CompileOutput::Asm),
            s@ == "llvm-ir"@ ==> r == Ok::<CompileOutput, StringError>(CompileOutput::Llvm),
            s@ == "mir"@ ==> r == Ok::<CompileOutput, StringError>(CompileOutput::Mir),
            !(s@ == "asm"@ || s@ == "llvm-ir"@ || s@ == "mir"@) ==> (r matches Err(e) && e.0@
                == "unknown output format "@ + s@),
    {
        proof {
            reveal_strlit("asm");
            reveal_strlit("llvm-ir");
            reveal_strlit("mir");
            assert("asm"@.len() == 3);
            assert("llvm-ir"@.len() == 7);
            assert("mir"@.len() == 3);
            assert("asm"@[0] != "mir"@[0]);
        }
        if crate::channel::str_eq(s, "asm") {
            Ok(CompileOutput::Asm)
        } else if crate::channel::str_eq(s, "llvm-ir") {
            Ok(CompileOutput::Llvm)
        } else if crate::channel::str_eq(s, "mir") {
            Ok(CompileOutput::Mir)
        } else {
            Err(StringError(String::from_str("unknown output format ").concat(s)))
        }
    }
}

/// The name of the syntax-highlighting lexer that fits an output format.
pub open spec fn spec_lexer_name(f: CompileOutput) -> Seq<char> {
    match f {
        CompileOutput::Asm => "gas"@,
        CompileOutput::Llvm => "llvm"@,
        CompileOutput::Mir => "text"@,
    }
}

/// Selects the syntax-highlighting lexer for compiled output of the
/// given format.
pub fn highlight_lexer(output_format: CompileOutput) -> (r: &'static str)
    ensures
        r@ == spec_lexer_name(output_format),
{
    match output_format {
        CompileOutput::Asm => "gas",
        CompileOutput::Llvm => "llvm",
        CompileOutput::Mir => "text",
    }
}

} // verus!
