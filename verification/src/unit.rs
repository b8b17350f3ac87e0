//! Typed CSS dimension units.
use vstd::prelude::*;

use crate::text::{chars_of, compare_char_seqs, NameOrder};

verus! {

/// Typed CSS dimension units.
#[derive(Debug, Clone, PartialEq, Eq, Hash)]
pub enum CssUnit {
    // Absolute length
    Px,
    Cm,
    Mm,
    Q,
    In,
    Pt,
    Pc,
    // Font-relative length
    Em,
    Rem,
    Ex,
    Ch,
    // Viewport-relative length
    Vw,
    Vh,
    Vmin,
    Vmax,
    Vi,
    Vb,
    // Angle
    Deg,
    Rad,
    Grad,
    Turn,
    // Time
    S,
    Ms,
    // Frequency
    Hz,
    Khz,
    // Resolution
    Dpi,
    Dpcm,
    Dppx,
    // Flex
    Fr,
    // Unknown / not-yet-supported
    Other(String),
}

/// The unit spelled `s`, when `s` is the spelling of a known unit.
pub open spec fn known_unit(s: Seq<char>) -> Option<CssUnit> {
    if s == "px"@ { Some(CssUnit::Px) }
    else if s == "cm"@ { Some(CssUnit::Cm) }
    else if s == "mm"@ { Some(CssUnit::Mm) }
    else if s == "Q"@ { Some(CssUnit::Q) }
    else if s == "in"@ { Some(CssUnit::In) }
    else if s == "pt"@ { Some(CssUnit::Pt) }
    else if s == "pc"@ { Some(CssUnit::Pc) }
    else if s == "em"@ { Some(CssUnit::Em) }
    else if s == "rem"@ { Some(CssUnit::Rem) }
    else if s == "ex"@ { Some(CssUnit::Ex) }
    else if s == "ch"@ { Some(CssUnit::Ch) }
    else if s == "vw"@ { Some(CssUnit::Vw) }
    else if s == "vh"@ { Some(CssUnit::Vh) }
    else if s == "vmin"@ { Some(CssUnit::Vmin) }
    else if s == "vmax"@ { Some(CssUnit::Vmax) }
    else if s == "vi"@ { Some(CssUnit::Vi) }
    else if s == "vb"@ { Some(CssUnit::Vb) }
    else if s == "deg"@ { Some(CssUnit::Deg) }
    else if s == "rad"@ { Some(CssUnit::Rad) }
    else if s == "grad"@ { Some(CssUnit::Grad) }
    else if s == "turn"@ { Some(CssUnit::Turn) }
    else if s == "s"@ { Some(CssUnit::S) }
    else if s == "ms"@ { Some(CssUnit::Ms) }
    else if s == "Hz"@ { Some(CssUnit::Hz) }
    else if s == "kHz"@ { Some(CssUnit::Khz) }
    else if s == "dpi"@ { Some(CssUnit::Dpi) }
    else if s == "dpcm"@ { Some(CssUnit::Dpcm) }
    else if s == "dppx"@ { Some(CssUnit::Dppx) }
    else if s == "fr"@ { Some(CssUnit::Fr) }
    else { None }
}

impl CssUnit {
    /// How the unit is spelled; an unsupported unit keeps its own spelling.
    pub open spec fn spec_str(&self) -> Seq<char> {
        match self {
            CssUnit::Px => "px"@,
            CssUnit::Cm => "cm"@,
            CssUnit::Mm => "mm"@,
            CssUnit::Q => "Q"@,
            CssUnit::In => "in"@,
            CssUnit::Pt => "pt"@,
            CssUnit::Pc => "pc"@,
            CssUnit::Em => "em"@,
            CssUnit::Rem => "rem"@,
            CssUnit::Ex => "ex"@,
            CssUnit::Ch => "ch"@,
            CssUnit::Vw => "vw"@,
            CssUnit::Vh => "vh"@,
            CssUnit::Vmin => "vmin"@,
            CssUnit::Vmax => "vmax"@,
            CssUnit::Vi => "vi"@,
            CssUnit::Vb => "vb"@,
            CssUnit::Deg => "deg"@,
            CssUnit::Rad => "rad"@,
            CssUnit::Grad => "grad"@,
            CssUnit::Turn => "turn"@,
            CssUnit::S => "s"@,
            CssUnit::Ms => "ms"@,
            CssUnit::Hz => "Hz"@,
            CssUnit::Khz => "kHz"@,
            CssUnit::Dpi => "dpi"@,
            CssUnit::Dpcm => "dpcm"@,
            CssUnit::Dppx => "dppx"@,
            CssUnit::Fr => "fr"@,
            CssUnit::Other(s) => s@,
        }
    }

    /// Reads a unit from its spelling; case matters (`Q`, `Hz` and `kHz` are
    /// spelled with capitals). Any other spelling gives `Other`.
    pub fn from_str(s: &str) -> (r: CssUnit)
        ensures
            match known_unit(s@) {
                Some(u) => r == u,
                None => r matches CssUnit::Other(t) && t@ == s@,
            },
    {
        let key = chars_of(s);
        let k = key.as_slice();
        if spelled(k, "px") { return CssUnit::Px; }
        if spelled(k, "cm") { return CssUnit::Cm; }
        if spelled(k, "mm") { return CssUnit::Mm; }
        if spelled(k, "Q") { return CssUnit::Q; }
        if spelled(k, "in") { return CssUnit::In; }
        if spelled(k, "pt") { return CssUnit::Pt; }
        if spelled(k, "pc") { return CssUnit::Pc; }
        if spelled(k, "em") { return CssUnit::Em; }
        if spelled(k, "rem") { return CssUnit::Rem; }
        if spelled(k, "ex") { return CssUnit::Ex; }
        if spelled(k, "ch") { return CssUnit::Ch; }
        if spelled(k, "vw") { return CssUnit::Vw; }
        if spelled(k, "vh") { return CssUnit::Vh; }
        if spelled(k, "vmin") { return CssUnit::Vmin; }
        if spelled(k, "vmax") { return CssUnit::Vmax; }
        if spelled(k, "vi") { return CssUnit::Vi; }
        if spelled(k, "vb") { return CssUnit::Vb; }
        if spelled(k, "deg") { return CssUnit::Deg; }
        if spelled(k, "rad") { return CssUnit::Rad; }
        if spelled(k, "grad") { return CssUnit::Grad; }
        if spelled(k, "turn") { return CssUnit::Turn; }
        if spelled(k, "s") { return CssUnit::S; }
        if spelled(k, "ms") { return CssUnit::Ms; }
        if spelled(k, "Hz") { return CssUnit::Hz; }
        if spelled(k, "kHz") { return CssUnit::Khz; }
        if spelled(k, "dpi") { return CssUnit::Dpi; }
        if spelled(k, "dpcm") { return CssUnit::Dpcm; }
        if spelled(k, "dppx") { return CssUnit::Dppx; }
        if spelled(k, "fr") { return CssUnit::Fr; }
        CssUnit::Other(String::from_str(s))
    }

    /// How the unit is spelled.
    pub fn as_str(&self) -> (r: &str)
        ensures
            r@ == self.spec_str(),
    {
        match self {
            CssUnit::Px => "px",
            CssUnit::Cm => "cm",
            CssUnit::Mm => "mm",
            CssUnit::Q => "Q",
            CssUnit::In => "in",
            CssUnit::Pt => "pt",
            CssUnit::Pc => "pc",
            CssUnit::Em => "em",
            CssUnit::Rem => "rem",
            CssUnit::Ex => "ex",
            CssUnit::Ch => "ch",
            CssUnit::Vw => "vw",
            CssUnit::Vh => "vh",
            CssUnit::Vmin => "vmin",
            CssUnit::Vmax => "vmax",
            CssUnit::Vi => "vi",
            CssUnit::Vb => "vb",
            CssUnit::Deg => "deg",
            CssUnit::Rad => "rad",
            CssUnit::Grad => "grad",
            CssUnit::Turn => "turn",
            CssUnit::S => "s",
            CssUnit::Ms => "ms",
            CssUnit::Hz => "Hz",
            CssUnit::Khz => "kHz",
            CssUnit::Dpi => "dpi",
            CssUnit::Dpcm => "dpcm",
            CssUnit::Dppx => "dppx",
            CssUnit::Fr => "fr",
            CssUnit::Other(s) => s.as_str(),
        }
    }
}

/// Whether `key` is spelled exactly `word`.
fn spelled(key: &[char], word: &str) -> (r: bool)
    ensures
        r == (key@ == word@),
{
    let w = chars_of(word);
    compare_char_seqs(key, w.as_slice()) == NameOrder::Equal
}

/// The spelling of the unit read from `s` is `s` itself.
pub proof fn lemma_str_of_from_str(s: Seq<char>)
    ensures
        known_unit(s) matches Some(u) ==> u.spec_str() == s,
{
}

/// Reading the spelling of a known unit gives that unit back. (An `Other`
/// unit whose spelling is that of a known unit reads back as the known unit.)
pub proof fn lemma_from_str_of_str(u: CssUnit)
    requires
        !(u is Other),
    ensures
        known_unit(u.spec_str()) == Some(u),
{
    reveal_strlit("px");
    reveal_strlit("cm");
    reveal_strlit("mm");
    reveal_strlit("Q");
    reveal_strlit("in");
    reveal_strlit("pt");
    reveal_strlit("pc");
    reveal_strlit("em");
    reveal_strlit("rem");
    reveal_strlit("ex");
    reveal_strlit("ch");
    reveal_strlit("vw");
    reveal_strlit("vh");
    reveal_strlit("vmin");
    reveal_strlit("vmax");
    reveal_strlit("vi");
    reveal_strlit("vb");
    reveal_strlit("deg");
    reveal_strlit("rad");
    reveal_strlit("grad");
    reveal_strlit("turn");
    reveal_strlit("s");
    reveal_strlit("ms");
    reveal_strlit("Hz");
    reveal_strlit("kHz");
    reveal_strlit("dpi");
    reveal_strlit("dpcm");
    reveal_strlit("dppx");
    reveal_strlit("fr");
    assert("px"@.len() == 2 && "px"@[0] == 'p' && "px"@[1] == 'x');
    assert("cm"@.len() == 2 && "cm"@[0] == 'c' && "cm"@[1] == 'm');
    assert("mm"@.len() == 2 && "mm"@[0] == 'm' && "mm"@[1] == 'm');
    assert("Q"@.len() == 1 && "Q"@[0] == 'Q');
    assert("in"@.len() == 2 && "in"@[0] == 'i' && "in"@[1] == 'n');
    assert("pt"@.len() == 2 && "pt"@[0] == 'p' && "pt"@[1] == 't');
    assert("pc"@.len() == 2 && "pc"@[0] == 'p' && "pc"@[1] == 'c');
    assert("em"@.len() == 2 && "em"@[0] == 'e' && "em"@[1] == 'm');
    assert("rem"@.len() == 3 && "rem"@[0] == 'r' && "rem"@[1] == 'e' && "rem"@[2] == 'm');
    assert("ex"@.len() == 2 && "ex"@[0] == 'e' && "ex"@[1] == 'x');
    assert("ch"@.len() == 2 && "ch"@[0] == 'c' && "ch"@[1] == 'h');
    assert("vw"@.len() == 2 && "vw"@[0] == 'v' && "vw"@[1] == 'w');
    assert("vh"@.len() == 2 && "vh"@[0] == 'v' && "vh"@[1] == 'h');
    assert("vmin"@.len() == 4 && "vmin"@[0] == 'v' && "vmin"@[1] == 'm' && "vmin"@[2] == 'i' && "vmin"@[3] == 'n');
    assert("vmax"@.len() == 4 && "vmax"@[0] == 'v' && "vmax"@[1] == 'm' && "vmax"@[2] == 'a' && "vmax"@[3] == 'x');
    assert("vi"@.len() == 2 && "vi"@[0] == 'v' && "vi"@[1] == 'i');
    assert("vb"@.len() == 2 && "vb"@[0] == 'v' && "vb"@[1] == 'b');
    assert("deg"@.len() == 3 && "deg"@[0] == 'd' && "deg"@[1] == 'e' && "deg"@[2] == 'g');
    assert("rad"@.len() == 3 && "rad"@[0] == 'r' && "rad"@[1] == 'a' && "rad"@[2] == 'd');
    assert("grad"@.len() == 4 && "grad"@[0] == 'g' && "grad"@[1] == 'r' && "grad"@[2] == 'a' && "grad"@[3] == 'd');
    assert("turn"@.len() == 4 && "turn"@[0] == 't' && "turn"@[1] == 'u' && "turn"@[2] == 'r' && "turn"@[3] == 'n');
    assert("s"@.len() == 1 && "s"@[0] == 's');
    assert("ms"@.len() == 2 && "ms"@[0] == 'm' && "ms"@[1] == 's');
    assert("Hz"@.len() == 2 && "Hz"@[0] == 'H' && "Hz"@[1] == 'z');
    assert("kHz"@.len() == 3 && "kHz"@[0] == 'k' && "kHz"@[1] == 'H' && "kHz"@[2] == 'z');
    assert("dpi"@.len() == 3 && "dpi"@[0] == 'd' && "dpi"@[1] == 'p' && "dpi"@[2] == 'i');
    assert("dpcm"@.len() == 4 && "dpcm"@[0] == 'd' && "dpcm"@[1] == 'p' && "dpcm"@[2] == 'c' && "dpcm"@[3] == 'm');
    assert("dppx"@.len() == 4 && "dppx"@[0] == 'd' && "dppx"@[1] == 'p' && "dppx"@[2] == 'p' && "dppx"@[3] == 'x');
    assert("fr"@.len() == 2 && "fr"@[0] == 'f' && "fr"@[1] == 'r');
}

} // verus!
