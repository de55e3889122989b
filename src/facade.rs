//! The colour macros: each compiles its template and hands it, with the
//! arguments unchanged, to one of std's formatting macros.
use vstd::prelude::*;

verus! {

/// One colour macro.
#[derive(Debug, Clone, Copy, PartialEq, Eq, Structural)]
pub enum Operation {
    /// `cprintln`: print to standard output with a newline.
    PrintLine,
    /// `cprint`: print to standard output.
    Print,
    /// `cformat`: format into a `String`.
    Format,
    /// `cformat_args`: build lazy formatting arguments.
    FormatArgs,
    /// `cpanic`: panic with the formatted message.
    Panic,
    /// `cwrite`: write to a sink given before the template.
    Write,
    /// `cwriteln`: write to a sink given before the template, with a newline.
    WriteLine,
}

/// The std macro that an operation hands its compiled template to.
pub open spec fn host_macro(op: Operation) -> Seq<char> {
    match op {
        Operation::PrintLine => "println"@,
        Operation::Print => "print"@,
        Operation::Format => "format"@,
        Operation::FormatArgs => "format_args"@,
        Operation::Panic => "panic"@,
        Operation::Write => "write"@,
        Operation::WriteLine => "writeln"@,
    }
}

impl Operation {
    /// The name of the std macro that this operation expands to.
    pub fn macro_name(&self) -> (r: &'static str)
        ensures
            r@ == host_macro(*self),
    {
        match self {
            Operation::PrintLine => "println",
            Operation::Print => "print",
            Operation::Format => "format",
            Operation::FormatArgs => "format_args",
            Operation::Panic => "panic",
            Operation::Write => "write",
            Operation::WriteLine => "writeln",
        }
    }

    /// Whether a sink expression comes before the template.
    pub fn takes_sink(&self) -> (r: bool)
        ensures
            r == (*self == Operation::Write || *self == Operation::WriteLine),
    {
        match self {
            Operation::Write | Operation::WriteLine => true,
            _ => false,
        }
    }
}

} // verus!
