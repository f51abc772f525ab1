//! The closed set of supported languages, and the three-way outcome status.

use vstd::prelude::*;

verus! {

/// A supported language. The set is fixed and closed: adding a language is a
/// reviewed code change, since each one carries its own sandbox profile.
#[derive(Clone, Copy, Debug, PartialEq, Eq, Structural)]
pub enum Lang {
    C,
    Cpp,
    Go,
    Rust,
    Python2,
    Python3,
}

/// The classification of a finished request.
#[derive(Clone, Copy, Debug, PartialEq, Eq, Structural)]
pub enum Status {
    CompilerTimeError,
    RuntimeError,
    Success,
}

impl Lang {
    /// The source file extension of this language.
    pub open spec fn spec_extension(self) -> Seq<char> {
        match self {
            Lang::C => "c"@,
            Lang::Cpp => "cpp"@,
            Lang::Go => "go"@,
            Lang::Rust => "rs"@,
            Lang::Python2 => "py"@,
            Lang::Python3 => "py"@,
        }
    }

    pub fn get_extension(&self) -> (r: &'static str)
        ensures
            r@ == self.spec_extension(),
    {
        match self {
            Lang::C => "c",
            Lang::Cpp => "cpp",
            Lang::Go => "go",
            Lang::Rust => "rs",
            Lang::Python2 => "py",
            Lang::Python3 => "py",
        }
    }

    /// Whether this language runs straight from its source file, with no
    /// compilation step.
    pub open spec fn spec_interpreted(self) -> bool {
        self matches Lang::Python2 || self matches Lang::Python3
    }

    pub fn is_interpreted(&self) -> (r: bool)
        ensures
            r == self.spec_interpreted(),
    {
        match self {
            Lang::Python2 => true,
            Lang::Python3 => true,
            _ => false,
        }
    }

    /// The interpreter binary for an interpreted language; empty otherwise.
    pub open spec fn spec_interpreter(self) -> Seq<char> {
        match self {
            Lang::Python2 => "python2"@,
            Lang::Python3 => "python3"@,
            _ => Seq::<char>::empty(),
        }
    }

    /// The interpreter binary of an interpreted language.
    pub fn interpreter(&self) -> (r: &'static str)
        requires
            self.spec_interpreted(),
        ensures
            r@ == self.spec_interpreter(),
    {
        match self {
            Lang::Python2 => "python2",
            Lang::Python3 => "python3",
            _ => {
                proof {
                    assert(false);
                }
                ""
            },
        }
    }

    /// The tag under which a request names this language.
    pub open spec fn spec_tag(self) -> Seq<char> {
        match self {
            Lang::C => "C"@,
            Lang::Cpp => "C++"@,
            Lang::Go => "Go"@,
            Lang::Rust => "Rust"@,
            Lang::Python2 => "Python2"@,
            Lang::Python3 => "Python3"@,
        }
    }
}

impl Status {
    /// The stringified tag of this status, as a response reports it.
    pub open spec fn spec_name(self) -> Seq<char> {
        match self {
            Status::CompilerTimeError => "CompileTimeError"@,
            Status::RuntimeError => "RuntimeError"@,
            Status::Success => "Ok"@,
        }
    }

    pub fn name(&self) -> (r: &'static str)
        ensures
            r@ == self.spec_name(),
    {
        match self {
            Status::CompilerTimeError => "CompileTimeError",
            Status::RuntimeError => "RuntimeError",
            Status::Success => "Ok",
        }
    }
}

/// Maps a language tag to its language, and rejects everything outside the
/// closed set. Must be consulted before any filesystem or process work.
pub fn parse_lang(s: &str) -> (r: Option<Lang>)
    ensures
        match r {
            Some(l) => s@ == l.spec_tag(),
            None => forall|l: Lang| s@ != #[trigger] l.spec_tag(),
        },
{
    let t = s.to_owned();
    if t == String::from_str("C") {
        Some(Lang::C)
    } else if t == String::from_str("C++") {
        Some(Lang::Cpp)
    } else if t == String::from_str("Go") {
        Some(Lang::Go)
    } else if t == String::from_str("Rust") {
        Some(Lang::Rust)
    } else if t == String::from_str("Python2") {
        Some(Lang::Python2)
    } else if t == String::from_str("Python3") {
        Some(Lang::Python3)
    } else {
        None
    }
}

/// Whether a requested time limit lies in the accepted range of 1 to 10
/// seconds inclusive.
pub open spec fn time_limit_in_range(t: u8) -> bool {
    1 <= t <= 10
}

pub fn time_limit_valid(t: u8) -> (r: bool)
    ensures
        r == time_limit_in_range(t),
{
    1 <= t && t <= 10
}

} // verus!
