use vstd::prelude::*;
use vstd::string::StringExecFns;

verus! {

/// One of the three letters that may begin a digraph with `h`.
#[allow(clippy::upper_case_acronyms)]
#[derive(Debug, Copy, Clone, PartialEq, Eq, Hash, Structural)]
pub enum ZCS {
    Z,
    C,
    S,
}

impl ZCS {
    /// The initial that the letter is by itself.
    pub open spec fn spec_plain(self) -> SpellingInitial {
        match self {
            ZCS::Z => SpellingInitial::Z,
            ZCS::C => SpellingInitial::C,
            ZCS::S => SpellingInitial::S,
        }
    }

    /// The initial that the letter is together with `h`.
    pub open spec fn spec_with_h(self) -> SpellingInitial {
        match self {
            ZCS::Z => SpellingInitial::ZH,
            ZCS::C => SpellingInitial::CH,
            ZCS::S => SpellingInitial::SH,
        }
    }

    /// The initial that the letter is by itself.
    #[verifier::when_used_as_spec(spec_plain)]
    pub fn plain(self) -> (i: SpellingInitial)
        ensures
            i == self.spec_plain(),
    {
        match self {
            ZCS::Z => SpellingInitial::Z,
            ZCS::C => SpellingInitial::C,
            ZCS::S => SpellingInitial::S,
        }
    }

    /// The initial that the letter is together with `h`.
    #[verifier::when_used_as_spec(spec_with_h)]
    pub fn with_h(self) -> (i: SpellingInitial)
        ensures
            i == self.spec_with_h(),
    {
        match self {
            ZCS::Z => SpellingInitial::ZH,
            ZCS::C => SpellingInitial::CH,
            ZCS::S => SpellingInitial::SH,
        }
    }
}

/// The onset of a syllable as it is spelled. `ZeroAEO` is the empty onset
/// of a syllable that begins with `a`, `e` or `o`.
#[derive(Debug, Copy, Clone, PartialEq, Eq, Hash, Structural)]
pub enum SpellingInitial {
    B,
    P,
    M,
    F,
    D,
    T,
    N,
    L,
    G,
    K,
    H,
    J,
    Q,
    X,
    ZH,
    CH,
    SH,
    R,
    Z,
    C,
    S,
    Y,
    W,
    ZeroAEO,
}

impl SpellingInitial {
    /// The small letters that write the initial.
    pub open spec fn text(self) -> Seq<char> {
        match self {
            SpellingInitial::B => seq!['b'],
            SpellingInitial::P => seq!['p'],
            SpellingInitial::M => seq!['m'],
            SpellingInitial::F => seq!['f'],
            SpellingInitial::D => seq!['d'],
            SpellingInitial::T => seq!['t'],
            SpellingInitial::N => seq!['n'],
            SpellingInitial::L => seq!['l'],
            SpellingInitial::G => seq!['g'],
            SpellingInitial::K => seq!['k'],
            SpellingInitial::H => seq!['h'],
            SpellingInitial::J => seq!['j'],
            SpellingInitial::Q => seq!['q'],
            SpellingInitial::X => seq!['x'],
            SpellingInitial::ZH => seq!['z', 'h'],
            SpellingInitial::CH => seq!['c', 'h'],
            SpellingInitial::SH => seq!['s', 'h'],
            SpellingInitial::R => seq!['r'],
            SpellingInitial::Z => seq!['z'],
            SpellingInitial::C => seq!['c'],
            SpellingInitial::S => seq!['s'],
            SpellingInitial::Y => seq!['y'],
            SpellingInitial::W => seq!['w'],
            SpellingInitial::ZeroAEO => seq![],
        }
    }

    /// The initial as a text.
    pub fn as_str(self) -> (s: &'static str)
        ensures
            s@ == self.text(),
    {
        proof {
            reveal_strlit("b");
            reveal_strlit("p");
            reveal_strlit("m");
            reveal_strlit("f");
            reveal_strlit("d");
            reveal_strlit("t");
            reveal_strlit("n");
            reveal_strlit("l");
            reveal_strlit("g");
            reveal_strlit("k");
            reveal_strlit("h");
            reveal_strlit("j");
            reveal_strlit("q");
            reveal_strlit("x");
            reveal_strlit("zh");
            reveal_strlit("ch");
            reveal_strlit("sh");
            reveal_strlit("r");
            reveal_strlit("z");
            reveal_strlit("c");
            reveal_strlit("s");
            reveal_strlit("y");
            reveal_strlit("w");
            reveal_strlit("");
        }
        match self {
            SpellingInitial::B => "b",
            SpellingInitial::P => "p",
            SpellingInitial::M => "m",
            SpellingInitial::F => "f",
            SpellingInitial::D => "d",
            SpellingInitial::T => "t",
            SpellingInitial::N => "n",
            SpellingInitial::L => "l",
            SpellingInitial::G => "g",
            SpellingInitial::K => "k",
            SpellingInitial::H => "h",
            SpellingInitial::J => "j",
            SpellingInitial::Q => "q",
            SpellingInitial::X => "x",
            SpellingInitial::ZH => "zh",
            SpellingInitial::CH => "ch",
            SpellingInitial::SH => "sh",
            SpellingInitial::R => "r",
            SpellingInitial::Z => "z",
            SpellingInitial::C => "c",
            SpellingInitial::S => "s",
            SpellingInitial::Y => "y",
            SpellingInitial::W => "w",
            SpellingInitial::ZeroAEO => "",
        }
    }

    /// The initial as an owned text.
    pub fn to_string(&self) -> (s: String)
        ensures
            s@ == self.text(),
    {
        String::from_str(self.as_str())
    }
}

} // verus!
