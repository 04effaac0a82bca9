//! The vocabulary of commands: which names the lexer knows, and what each
//! one stands for. Every table is a function from the name to what it names;
//! a name stands in one table at most.

use vstd::prelude::*;
use crate::attribute::{Accent, DisplayStyle, Variant};
use crate::text::same_text;
use crate::token::{Token, TokenView};

verus! {

/// The letters that a command names and that are set in italics:
/// the lower-case Greek alphabet and a few more.
pub open spec fn italic_letter(name: Seq<char>) -> Option<char> {
    if name == "alpha"@ { Some('α') }
    else if name == "beta"@ { Some('β') }
    else if name == "gamma"@ { Some('γ') }
    else if name == "delta"@ { Some('δ') }
    else if name == "epsilon"@ { Some('ϵ') }
    else if name == "varepsilon"@ { Some('ε') }
    else if name == "zeta"@ { Some('ζ') }
    else if name == "eta"@ { Some('η') }
    else if name == "theta"@ { Some('θ') }
    else if name == "vartheta"@ { Some('ϑ') }
    else if name == "iota"@ { Some('ι') }
    else if name == "kappa"@ { Some('κ') }
    else if name == "varkappa"@ { Some('ϰ') }
    else if name == "lambda"@ { Some('λ') }
    else if name == "mu"@ { Some('μ') }
    else if name == "nu"@ { Some('ν') }
    else if name == "xi"@ { Some('ξ') }
    else if name == "omicron"@ { Some('ο') }
    else if name == "pi"@ { Some('π') }
    else if name == "varpi"@ { Some('ϖ') }
    else if name == "rho"@ { Some('ρ') }
    else if name == "varrho"@ { Some('ϱ') }
    else if name == "sigma"@ { Some('σ') }
    else if name == "varsigma"@ { Some('ς') }
    else if name == "tau"@ { Some('τ') }
    else if name == "upsilon"@ { Some('υ') }
    else if name == "phi"@ { Some('ϕ') }
    else if name == "varphi"@ { Some('φ') }
    else if name == "chi"@ { Some('χ') }
    else if name == "psi"@ { Some('ψ') }
    else if name == "omega"@ { Some('ω') }
    else if name == "digamma"@ { Some('ϝ') }
    else if name == "imath"@ { Some('ı') }
    else if name == "jmath"@ { Some('ȷ') }
    else if name == "ell"@ { Some('ℓ') }
    else { None }
}

/// Looks `name` up in [`italic_letter`].
pub(crate) fn find_italic_letter(name: &str) -> (r: Option<char>)
    ensures
        r == italic_letter(name@),
{
    if same_text(name, "alpha") { Some('α') }
    else if same_text(name, "beta") { Some('β') }
    else if same_text(name, "gamma") { Some('γ') }
    else if same_text(name, "delta") { Some('δ') }
    else if same_text(name, "epsilon") { Some('ϵ') }
    else if same_text(name, "varepsilon") { Some('ε') }
    else if same_text(name, "zeta") { Some('ζ') }
    else if same_text(name, "eta") { Some('η') }
    else if same_text(name, "theta") { Some('θ') }
    else if same_text(name, "vartheta") { Some('ϑ') }
    else if same_text(name, "iota") { Some('ι') }
    else if same_text(name, "kappa") { Some('κ') }
    else if same_text(name, "varkappa") { Some('ϰ') }
    else if same_text(name, "lambda") { Some('λ') }
    else if same_text(name, "mu") { Some('μ') }
    else if same_text(name, "nu") { Some('ν') }
    else if same_text(name, "xi") { Some('ξ') }
    else if same_text(name, "omicron") { Some('ο') }
    else if same_text(name, "pi") { Some('π') }
    else if same_text(name, "varpi") { Some('ϖ') }
    else if same_text(name, "rho") { Some('ρ') }
    else if same_text(name, "varrho") { Some('ϱ') }
    else if same_text(name, "sigma") { Some('σ') }
    else if same_text(name, "varsigma") { Some('ς') }
    else if same_text(name, "tau") { Some('τ') }
    else if same_text(name, "upsilon") { Some('υ') }
    else if same_text(name, "phi") { Some('ϕ') }
    else if same_text(name, "varphi") { Some('φ') }
    else if same_text(name, "chi") { Some('χ') }
    else if same_text(name, "psi") { Some('ψ') }
    else if same_text(name, "omega") { Some('ω') }
    else if same_text(name, "digamma") { Some('ϝ') }
    else if same_text(name, "imath") { Some('ı') }
    else if same_text(name, "jmath") { Some('ȷ') }
    else if same_text(name, "ell") { Some('ℓ') }
    else { None }
}

/// The letters and symbols that a command names and that are set upright.
pub open spec fn upright_letter(name: Seq<char>) -> Option<char> {
    if name == "Gamma"@ { Some('Γ') }
    else if name == "Delta"@ { Some('Δ') }
    else if name == "Theta"@ { Some('Θ') }
    else if name == "Lambda"@ { Some('Λ') }
    else if name == "Xi"@ { Some('Ξ') }
    else if name == "Pi"@ { Some('Π') }
    else if name == "Sigma"@ { Some('Σ') }
    else if name == "Upsilon"@ { Some('Υ') }
    else if name == "Phi"@ { Some('Φ') }
    else if name == "Psi"@ { Some('Ψ') }
    else if name == "Omega"@ { Some('Ω') }
    else if name == "aleph"@ { Some('ℵ') }
    else if name == "beth"@ { Some('ℶ') }
    else if name == "gimel"@ { Some('ℷ') }
    else if name == "daleth"@ { Some('ℸ') }
    else if name == "hbar"@ { Some('ℏ') }
    else if name == "hslash"@ { Some('ℏ') }
    else if name == "Re"@ { Some('ℜ') }
    else if name == "Im"@ { Some('ℑ') }
    else if name == "wp"@ { Some('℘') }
    else if name == "infty"@ { Some('∞') }
    else if name == "emptyset"@ { Some('∅') }
    else if name == "varnothing"@ { Some('∅') }
    else if name == "nabla"@ { Some('∇') }
    else if name == "angle"@ { Some('∠') }
    else if name == "measuredangle"@ { Some('∡') }
    else if name == "sphericalangle"@ { Some('∢') }
    else if name == "triangle"@ { Some('△') }
    else if name == "square"@ { Some('□') }
    else if name == "Box"@ { Some('□') }
    else if name == "Diamond"@ { Some('◇') }
    else if name == "top"@ { Some('⊤') }
    else if name == "bot"@ { Some('⊥') }
    else if name == "eth"@ { Some('ð') }
    else if name == "mho"@ { Some('℧') }
    else if name == "Finv"@ { Some('Ⅎ') }
    else if name == "complement"@ { Some('∁') }
    else if name == "flat"@ { Some('♭') }
    else if name == "natural"@ { Some('♮') }
    else if name == "sharp"@ { Some('♯') }
    else if name == "clubsuit"@ { Some('♣') }
    else if name == "diamondsuit"@ { Some('♢') }
    else if name == "heartsuit"@ { Some('♡') }
    else if name == "spadesuit"@ { Some('♠') }
    else if name == "S"@ { Some('§') }
    else if name == "P"@ { Some('¶') }
    else if name == "dag"@ { Some('†') }
    else if name == "ddag"@ { Some('‡') }
    else if name == "copyright"@ { Some('©') }
    else if name == "pounds"@ { Some('£') }
    else if name == "degree"@ { Some('°') }
    else { None }
}

/// Looks `name` up in [`upright_letter`].
pub(crate) fn find_upright_letter(name: &str) -> (r: Option<char>)
    ensures
        r == upright_letter(name@),
{
    if same_text(name, "Gamma") { Some('Γ') }
    else if same_text(name, "Delta") { Some('Δ') }
    else if same_text(name, "Theta") { Some('Θ') }
    else if same_text(name, "Lambda") { Some('Λ') }
    else if same_text(name, "Xi") { Some('Ξ') }
    else if same_text(name, "Pi") { Some('Π') }
    else if same_text(name, "Sigma") { Some('Σ') }
    else if same_text(name, "Upsilon") { Some('Υ') }
    else if same_text(name, "Phi") { Some('Φ') }
    else if same_text(name, "Psi") { Some('Ψ') }
    else if same_text(name, "Omega") { Some('Ω') }
    else if same_text(name, "aleph") { Some('ℵ') }
    else if same_text(name, "beth") { Some('ℶ') }
    else if same_text(name, "gimel") { Some('ℷ') }
    else if same_text(name, "daleth") { Some('ℸ') }
    else if same_text(name, "hbar") { Some('ℏ') }
    else if same_text(name, "hslash") { Some('ℏ') }
    else if same_text(name, "Re") { Some('ℜ') }
    else if same_text(name, "Im") { Some('ℑ') }
    else if same_text(name, "wp") { Some('℘') }
    else if same_text(name, "infty") { Some('∞') }
    else if same_text(name, "emptyset") { Some('∅') }
    else if same_text(name, "varnothing") { Some('∅') }
    else if same_text(name, "nabla") { Some('∇') }
    else if same_text(name, "angle") { Some('∠') }
    else if same_text(name, "measuredangle") { Some('∡') }
    else if same_text(name, "sphericalangle") { Some('∢') }
    else if same_text(name, "triangle") { Some('△') }
    else if same_text(name, "square") { Some('□') }
    else if same_text(name, "Box") { Some('□') }
    else if same_text(name, "Diamond") { Some('◇') }
    else if same_text(name, "top") { Some('⊤') }
    else if same_text(name, "bot") { Some('⊥') }
    else if same_text(name, "eth") { Some('ð') }
    else if same_text(name, "mho") { Some('℧') }
    else if same_text(name, "Finv") { Some('Ⅎ') }
    else if same_text(name, "complement") { Some('∁') }
    else if same_text(name, "flat") { Some('♭') }
    else if same_text(name, "natural") { Some('♮') }
    else if same_text(name, "sharp") { Some('♯') }
    else if same_text(name, "clubsuit") { Some('♣') }
    else if same_text(name, "diamondsuit") { Some('♢') }
    else if same_text(name, "heartsuit") { Some('♡') }
    else if same_text(name, "spadesuit") { Some('♠') }
    else if same_text(name, "S") { Some('§') }
    else if same_text(name, "P") { Some('¶') }
    else if same_text(name, "dag") { Some('†') }
    else if same_text(name, "ddag") { Some('‡') }
    else if same_text(name, "copyright") { Some('©') }
    else if same_text(name, "pounds") { Some('£') }
    else if same_text(name, "degree") { Some('°') }
    else { None }
}

/// The signs that a command names and that stand for themselves: quantifiers,
/// dots and the like.
pub open spec fn sign(name: Seq<char>) -> Option<char> {
    if name == "partial"@ { Some('∂') }
    else if name == "forall"@ { Some('∀') }
    else if name == "exists"@ { Some('∃') }
    else if name == "nexists"@ { Some('∄') }
    else if name == "prime"@ { Some('′') }
    else if name == "lnot"@ { Some('¬') }
    else if name == "neg"@ { Some('¬') }
    else if name == "therefore"@ { Some('∴') }
    else if name == "because"@ { Some('∵') }
    else if name == "ldots"@ { Some('…') }
    else if name == "dots"@ { Some('…') }
    else if name == "cdots"@ { Some('⋯') }
    else if name == "vdots"@ { Some('⋮') }
    else if name == "ddots"@ { Some('⋱') }
    else if name == "colon"@ { Some(':') }
    else if name == "backslash"@ { Some('\\') }
    else if name == "surd"@ { Some('√') }
    else { None }
}

/// Looks `name` up in [`sign`].
pub(crate) fn find_sign(name: &str) -> (r: Option<char>)
    ensures
        r == sign(name@),
{
    if same_text(name, "partial") { Some('∂') }
    else if same_text(name, "forall") { Some('∀') }
    else if same_text(name, "exists") { Some('∃') }
    else if same_text(name, "nexists") { Some('∄') }
    else if same_text(name, "prime") { Some('′') }
    else if same_text(name, "lnot") { Some('¬') }
    else if same_text(name, "neg") { Some('¬') }
    else if same_text(name, "therefore") { Some('∴') }
    else if same_text(name, "because") { Some('∵') }
    else if same_text(name, "ldots") { Some('…') }
    else if same_text(name, "dots") { Some('…') }
    else if same_text(name, "cdots") { Some('⋯') }
    else if same_text(name, "vdots") { Some('⋮') }
    else if same_text(name, "ddots") { Some('⋱') }
    else if same_text(name, "colon") { Some(':') }
    else if same_text(name, "backslash") { Some('\\') }
    else if same_text(name, "surd") { Some('√') }
    else { None }
}

/// The operators between two operands that a command names.
pub open spec fn binary_operator(name: Seq<char>) -> Option<char> {
    if name == "pm"@ { Some('±') }
    else if name == "mp"@ { Some('∓') }
    else if name == "times"@ { Some('×') }
    else if name == "div"@ { Some('÷') }
    else if name == "cdot"@ { Some('⋅') }
    else if name == "ast"@ { Some('∗') }
    else if name == "star"@ { Some('⋆') }
    else if name == "circ"@ { Some('∘') }
    else if name == "bullet"@ { Some('∙') }
    else if name == "dagger"@ { Some('†') }
    else if name == "ddagger"@ { Some('‡') }
    else if name == "oplus"@ { Some('⊕') }
    else if name == "ominus"@ { Some('⊖') }
    else if name == "otimes"@ { Some('⊗') }
    else if name == "oslash"@ { Some('⊘') }
    else if name == "odot"@ { Some('⊙') }
    else if name == "cap"@ { Some('∩') }
    else if name == "cup"@ { Some('∪') }
    else if name == "sqcap"@ { Some('⊓') }
    else if name == "sqcup"@ { Some('⊔') }
    else if name == "uplus"@ { Some('⊎') }
    else if name == "vee"@ { Some('∨') }
    else if name == "lor"@ { Some('∨') }
    else if name == "wedge"@ { Some('∧') }
    else if name == "land"@ { Some('∧') }
    else if name == "setminus"@ { Some('∖') }
    else if name == "wr"@ { Some('≀') }
    else if name == "amalg"@ { Some('⨿') }
    else if name == "diamond"@ { Some('⋄') }
    else if name == "bigtriangleup"@ { Some('△') }
    else if name == "bigtriangledown"@ { Some('▽') }
    else if name == "triangleleft"@ { Some('◁') }
    else if name == "triangleright"@ { Some('▷') }
    else if name == "bigcirc"@ { Some('◯') }
    else if name == "lhd"@ { Some('⊲') }
    else if name == "rhd"@ { Some('⊳') }
    else if name == "unlhd"@ { Some('⊴') }
    else if name == "unrhd"@ { Some('⊵') }
    else { None }
}

/// Looks `name` up in [`binary_operator`].
pub(crate) fn find_binary_operator(name: &str) -> (r: Option<char>)
    ensures
        r == binary_operator(name@),
{
    if same_text(name, "pm") { Some('±') }
    else if same_text(name, "mp") { Some('∓') }
    else if same_text(name, "times") { Some('×') }
    else if same_text(name, "div") { Some('÷') }
    else if same_text(name, "cdot") { Some('⋅') }
    else if same_text(name, "ast") { Some('∗') }
    else if same_text(name, "star") { Some('⋆') }
    else if same_text(name, "circ") { Some('∘') }
    else if same_text(name, "bullet") { Some('∙') }
    else if same_text(name, "dagger") { Some('†') }
    else if same_text(name, "ddagger") { Some('‡') }
    else if same_text(name, "oplus") { Some('⊕') }
    else if same_text(name, "ominus") { Some('⊖') }
    else if same_text(name, "otimes") { Some('⊗') }
    else if same_text(name, "oslash") { Some('⊘') }
    else if same_text(name, "odot") { Some('⊙') }
    else if same_text(name, "cap") { Some('∩') }
    else if same_text(name, "cup") { Some('∪') }
    else if same_text(name, "sqcap") { Some('⊓') }
    else if same_text(name, "sqcup") { Some('⊔') }
    else if same_text(name, "uplus") { Some('⊎') }
    else if same_text(name, "vee") { Some('∨') }
    else if same_text(name, "lor") { Some('∨') }
    else if same_text(name, "wedge") { Some('∧') }
    else if same_text(name, "land") { Some('∧') }
    else if same_text(name, "setminus") { Some('∖') }
    else if same_text(name, "wr") { Some('≀') }
    else if same_text(name, "amalg") { Some('⨿') }
    else if same_text(name, "diamond") { Some('⋄') }
    else if same_text(name, "bigtriangleup") { Some('△') }
    else if same_text(name, "bigtriangledown") { Some('▽') }
    else if same_text(name, "triangleleft") { Some('◁') }
    else if same_text(name, "triangleright") { Some('▷') }
    else if same_text(name, "bigcirc") { Some('◯') }
    else if same_text(name, "lhd") { Some('⊲') }
    else if same_text(name, "rhd") { Some('⊳') }
    else if same_text(name, "unlhd") { Some('⊴') }
    else if same_text(name, "unrhd") { Some('⊵') }
    else { None }
}

/// The relations that a command names.
pub open spec fn relation(name: Seq<char>) -> Option<char> {
    if name == "leq"@ { Some('≤') }
    else if name == "le"@ { Some('≤') }
    else if name == "geq"@ { Some('≥') }
    else if name == "ge"@ { Some('≥') }
    else if name == "neq"@ { Some('≠') }
    else if name == "ne"@ { Some('≠') }
    else if name == "ll"@ { Some('≪') }
    else if name == "gg"@ { Some('≫') }
    else if name == "equiv"@ { Some('≡') }
    else if name == "approx"@ { Some('≈') }
    else if name == "sim"@ { Some('∼') }
    else if name == "simeq"@ { Some('≃') }
    else if name == "cong"@ { Some('≅') }
    else if name == "doteq"@ { Some('≐') }
    else if name == "propto"@ { Some('∝') }
    else if name == "prec"@ { Some('≺') }
    else if name == "succ"@ { Some('≻') }
    else if name == "preceq"@ { Some('⪯') }
    else if name == "succeq"@ { Some('⪰') }
    else if name == "subset"@ { Some('⊂') }
    else if name == "supset"@ { Some('⊃') }
    else if name == "subseteq"@ { Some('⊆') }
    else if name == "supseteq"@ { Some('⊇') }
    else if name == "nsubseteq"@ { Some('⊈') }
    else if name == "nsupseteq"@ { Some('⊉') }
    else if name == "sqsubset"@ { Some('⊏') }
    else if name == "sqsupset"@ { Some('⊐') }
    else if name == "sqsubseteq"@ { Some('⊑') }
    else if name == "sqsupseteq"@ { Some('⊒') }
    else if name == "in"@ { Some('∈') }
    else if name == "ni"@ { Some('∋') }
    else if name == "notin"@ { Some('∉') }
    else if name == "mid"@ { Some('∣') }
    else if name == "nmid"@ { Some('∤') }
    else if name == "parallel"@ { Some('∥') }
    else if name == "nparallel"@ { Some('∦') }
    else if name == "perp"@ { Some('⊥') }
    else if name == "vdash"@ { Some('⊢') }
    else if name == "dashv"@ { Some('⊣') }
    else if name == "models"@ { Some('⊨') }
    else if name == "bowtie"@ { Some('⋈') }
    else if name == "asymp"@ { Some('≍') }
    else if name == "smile"@ { Some('⌣') }
    else if name == "frown"@ { Some('⌢') }
    else { None }
}

/// Looks `name` up in [`relation`].
pub(crate) fn find_relation(name: &str) -> (r: Option<char>)
    ensures
        r == relation(name@),
{
    if same_text(name, "leq") { Some('≤') }
    else if same_text(name, "le") { Some('≤') }
    else if same_text(name, "geq") { Some('≥') }
    else if same_text(name, "ge") { Some('≥') }
    else if same_text(name, "neq") { Some('≠') }
    else if same_text(name, "ne") { Some('≠') }
    else if same_text(name, "ll") { Some('≪') }
    else if same_text(name, "gg") { Some('≫') }
    else if same_text(name, "equiv") { Some('≡') }
    else if same_text(name, "approx") { Some('≈') }
    else if same_text(name, "sim") { Some('∼') }
    else if same_text(name, "simeq") { Some('≃') }
    else if same_text(name, "cong") { Some('≅') }
    else if same_text(name, "doteq") { Some('≐') }
    else if same_text(name, "propto") { Some('∝') }
    else if same_text(name, "prec") { Some('≺') }
    else if same_text(name, "succ") { Some('≻') }
    else if same_text(name, "preceq") { Some('⪯') }
    else if same_text(name, "succeq") { Some('⪰') }
    else if same_text(name, "subset") { Some('⊂') }
    else if same_text(name, "supset") { Some('⊃') }
    else if same_text(name, "subseteq") { Some('⊆') }
    else if same_text(name, "supseteq") { Some('⊇') }
    else if same_text(name, "nsubseteq") { Some('⊈') }
    else if same_text(name, "nsupseteq") { Some('⊉') }
    else if same_text(name, "sqsubset") { Some('⊏') }
    else if same_text(name, "sqsupset") { Some('⊐') }
    else if same_text(name, "sqsubseteq") { Some('⊑') }
    else if same_text(name, "sqsupseteq") { Some('⊒') }
    else if same_text(name, "in") { Some('∈') }
    else if same_text(name, "ni") { Some('∋') }
    else if same_text(name, "notin") { Some('∉') }
    else if same_text(name, "mid") { Some('∣') }
    else if same_text(name, "nmid") { Some('∤') }
    else if same_text(name, "parallel") { Some('∥') }
    else if same_text(name, "nparallel") { Some('∦') }
    else if same_text(name, "perp") { Some('⊥') }
    else if same_text(name, "vdash") { Some('⊢') }
    else if same_text(name, "dashv") { Some('⊣') }
    else if same_text(name, "models") { Some('⊨') }
    else if same_text(name, "bowtie") { Some('⋈') }
    else if same_text(name, "asymp") { Some('≍') }
    else if same_text(name, "smile") { Some('⌣') }
    else if same_text(name, "frown") { Some('⌢') }
    else { None }
}

/// The arrows that a command names.
pub open spec fn arrow(name: Seq<char>) -> Option<char> {
    if name == "to"@ { Some('→') }
    else if name == "gets"@ { Some('←') }
    else if name == "rightarrow"@ { Some('→') }
    else if name == "leftarrow"@ { Some('←') }
    else if name == "leftrightarrow"@ { Some('↔') }
    else if name == "uparrow"@ { Some('↑') }
    else if name == "downarrow"@ { Some('↓') }
    else if name == "updownarrow"@ { Some('↕') }
    else if name == "Rightarrow"@ { Some('⇒') }
    else if name == "Leftarrow"@ { Some('⇐') }
    else if name == "Leftrightarrow"@ { Some('⇔') }
    else if name == "Uparrow"@ { Some('⇑') }
    else if name == "Downarrow"@ { Some('⇓') }
    else if name == "Updownarrow"@ { Some('⇕') }
    else if name == "implies"@ { Some('⟹') }
    else if name == "impliedby"@ { Some('⟸') }
    else if name == "iff"@ { Some('⟺') }
    else if name == "mapsto"@ { Some('↦') }
    else if name == "longmapsto"@ { Some('⟼') }
    else if name == "longrightarrow"@ { Some('⟶') }
    else if name == "longleftarrow"@ { Some('⟵') }
    else if name == "longleftrightarrow"@ { Some('⟷') }
    else if name == "Longrightarrow"@ { Some('⟹') }
    else if name == "Longleftarrow"@ { Some('⟸') }
    else if name == "Longleftrightarrow"@ { Some('⟺') }
    else if name == "hookrightarrow"@ { Some('↪') }
    else if name == "hookleftarrow"@ { Some('↩') }
    else if name == "rightharpoonup"@ { Some('⇀') }
    else if name == "rightharpoondown"@ { Some('⇁') }
    else if name == "leftharpoonup"@ { Some('↼') }
    else if name == "leftharpoondown"@ { Some('↽') }
    else if name == "rightleftharpoons"@ { Some('⇌') }
    else if name == "nearrow"@ { Some('↗') }
    else if name == "searrow"@ { Some('↘') }
    else if name == "swarrow"@ { Some('↙') }
    else if name == "nwarrow"@ { Some('↖') }
    else { None }
}

/// Looks `name` up in [`arrow`].
pub(crate) fn find_arrow(name: &str) -> (r: Option<char>)
    ensures
        r == arrow(name@),
{
    if same_text(name, "to") { Some('→') }
    else if same_text(name, "gets") { Some('←') }
    else if same_text(name, "rightarrow") { Some('→') }
    else if same_text(name, "leftarrow") { Some('←') }
    else if same_text(name, "leftrightarrow") { Some('↔') }
    else if same_text(name, "uparrow") { Some('↑') }
    else if same_text(name, "downarrow") { Some('↓') }
    else if same_text(name, "updownarrow") { Some('↕') }
    else if same_text(name, "Rightarrow") { Some('⇒') }
    else if same_text(name, "Leftarrow") { Some('⇐') }
    else if same_text(name, "Leftrightarrow") { Some('⇔') }
    else if same_text(name, "Uparrow") { Some('⇑') }
    else if same_text(name, "Downarrow") { Some('⇓') }
    else if same_text(name, "Updownarrow") { Some('⇕') }
    else if same_text(name, "implies") { Some('⟹') }
    else if same_text(name, "impliedby") { Some('⟸') }
    else if same_text(name, "iff") { Some('⟺') }
    else if same_text(name, "mapsto") { Some('↦') }
    else if same_text(name, "longmapsto") { Some('⟼') }
    else if same_text(name, "longrightarrow") { Some('⟶') }
    else if same_text(name, "longleftarrow") { Some('⟵') }
    else if same_text(name, "longleftrightarrow") { Some('⟷') }
    else if same_text(name, "Longrightarrow") { Some('⟹') }
    else if same_text(name, "Longleftarrow") { Some('⟸') }
    else if same_text(name, "Longleftrightarrow") { Some('⟺') }
    else if same_text(name, "hookrightarrow") { Some('↪') }
    else if same_text(name, "hookleftarrow") { Some('↩') }
    else if same_text(name, "rightharpoonup") { Some('⇀') }
    else if same_text(name, "rightharpoondown") { Some('⇁') }
    else if same_text(name, "leftharpoonup") { Some('↼') }
    else if same_text(name, "leftharpoondown") { Some('↽') }
    else if same_text(name, "rightleftharpoons") { Some('⇌') }
    else if same_text(name, "nearrow") { Some('↗') }
    else if same_text(name, "searrow") { Some('↘') }
    else if same_text(name, "swarrow") { Some('↙') }
    else if same_text(name, "nwarrow") { Some('↖') }
    else { None }
}

/// The integral signs.
pub open spec fn integral_sign(name: Seq<char>) -> Option<char> {
    if name == "int"@ { Some('∫') }
    else if name == "iint"@ { Some('∬') }
    else if name == "iiint"@ { Some('∭') }
    else if name == "oint"@ { Some('∮') }
    else if name == "oiint"@ { Some('∯') }
    else if name == "oiiint"@ { Some('∰') }
    else { None }
}

/// Looks `name` up in [`integral_sign`].
pub(crate) fn find_integral_sign(name: &str) -> (r: Option<char>)
    ensures
        r == integral_sign(name@),
{
    if same_text(name, "int") { Some('∫') }
    else if same_text(name, "iint") { Some('∬') }
    else if same_text(name, "iiint") { Some('∭') }
    else if same_text(name, "oint") { Some('∮') }
    else if same_text(name, "oiint") { Some('∯') }
    else if same_text(name, "oiiint") { Some('∰') }
    else { None }
}

/// The operators that take limits below and above.
pub open spec fn big_operator(name: Seq<char>) -> Option<char> {
    if name == "sum"@ { Some('∑') }
    else if name == "prod"@ { Some('∏') }
    else if name == "coprod"@ { Some('∐') }
    else if name == "bigcap"@ { Some('⋂') }
    else if name == "bigcup"@ { Some('⋃') }
    else if name == "bigsqcup"@ { Some('⨆') }
    else if name == "bigvee"@ { Some('⋁') }
    else if name == "bigwedge"@ { Some('⋀') }
    else if name == "bigodot"@ { Some('⨀') }
    else if name == "bigotimes"@ { Some('⨂') }
    else if name == "bigoplus"@ { Some('⨁') }
    else if name == "biguplus"@ { Some('⨄') }
    else { None }
}

/// Looks `name` up in [`big_operator`].
pub(crate) fn find_big_operator(name: &str) -> (r: Option<char>)
    ensures
        r == big_operator(name@),
{
    if same_text(name, "sum") { Some('∑') }
    else if same_text(name, "prod") { Some('∏') }
    else if same_text(name, "coprod") { Some('∐') }
    else if same_text(name, "bigcap") { Some('⋂') }
    else if same_text(name, "bigcup") { Some('⋃') }
    else if same_text(name, "bigsqcup") { Some('⨆') }
    else if same_text(name, "bigvee") { Some('⋁') }
    else if same_text(name, "bigwedge") { Some('⋀') }
    else if same_text(name, "bigodot") { Some('⨀') }
    else if same_text(name, "bigotimes") { Some('⨂') }
    else if same_text(name, "bigoplus") { Some('⨁') }
    else if same_text(name, "biguplus") { Some('⨄') }
    else { None }
}

/// The braces, parentheses and brackets set above an expression.
pub open spec fn brace_above(name: Seq<char>) -> Option<char> {
    if name == "overbrace"@ { Some('⏞') }
    else if name == "overparen"@ { Some('⏜') }
    else if name == "overbracket"@ { Some('⎴') }
    else { None }
}

/// Looks `name` up in [`brace_above`].
pub(crate) fn find_brace_above(name: &str) -> (r: Option<char>)
    ensures
        r == brace_above(name@),
{
    if same_text(name, "overbrace") { Some('⏞') }
    else if same_text(name, "overparen") { Some('⏜') }
    else if same_text(name, "overbracket") { Some('⎴') }
    else { None }
}

/// The braces, parentheses and brackets set below an expression.
pub open spec fn brace_below(name: Seq<char>) -> Option<char> {
    if name == "underbrace"@ { Some('⏟') }
    else if name == "underparen"@ { Some('⏝') }
    else if name == "underbracket"@ { Some('⎵') }
    else { None }
}

/// Looks `name` up in [`brace_below`].
pub(crate) fn find_brace_below(name: &str) -> (r: Option<char>)
    ensures
        r == brace_below(name@),
{
    if same_text(name, "underbrace") { Some('⏟') }
    else if same_text(name, "underparen") { Some('⏝') }
    else if same_text(name, "underbracket") { Some('⎵') }
    else { None }
}

/// The delimiters that a command names.
pub open spec fn delimiter(name: Seq<char>) -> Option<Seq<char>> {
    if name == "{"@ { Some("{"@) }
    else if name == "}"@ { Some("}"@) }
    else if name == "langle"@ { Some("⟨"@) }
    else if name == "rangle"@ { Some("⟩"@) }
    else if name == "lceil"@ { Some("⌈"@) }
    else if name == "rceil"@ { Some("⌉"@) }
    else if name == "lfloor"@ { Some("⌊"@) }
    else if name == "rfloor"@ { Some("⌋"@) }
    else if name == "lgroup"@ { Some("⟮"@) }
    else if name == "rgroup"@ { Some("⟯"@) }
    else if name == "llbracket"@ { Some("⟦"@) }
    else if name == "rrbracket"@ { Some("⟧"@) }
    else if name == "lbrack"@ { Some("["@) }
    else if name == "rbrack"@ { Some("]"@) }
    else if name == "lbrace"@ { Some("{"@) }
    else if name == "rbrace"@ { Some("}"@) }
    else if name == "vert"@ { Some("|"@) }
    else if name == "lvert"@ { Some("|"@) }
    else if name == "rvert"@ { Some("|"@) }
    else if name == "|"@ { Some("‖"@) }
    else if name == "Vert"@ { Some("‖"@) }
    else if name == "lVert"@ { Some("‖"@) }
    else if name == "rVert"@ { Some("‖"@) }
    else { None }
}

/// Looks `name` up in [`delimiter`].
pub(crate) fn find_delimiter(name: &str) -> (r: Option<&'static str>)
    ensures
        match r {
            Some(s) => delimiter(name@) == Some(s@),
            None => delimiter(name@) is None,
        },
{
    if same_text(name, "{") { Some("{") }
    else if same_text(name, "}") { Some("}") }
    else if same_text(name, "langle") { Some("⟨") }
    else if same_text(name, "rangle") { Some("⟩") }
    else if same_text(name, "lceil") { Some("⌈") }
    else if same_text(name, "rceil") { Some("⌉") }
    else if same_text(name, "lfloor") { Some("⌊") }
    else if same_text(name, "rfloor") { Some("⌋") }
    else if same_text(name, "lgroup") { Some("⟮") }
    else if same_text(name, "rgroup") { Some("⟯") }
    else if same_text(name, "llbracket") { Some("⟦") }
    else if same_text(name, "rrbracket") { Some("⟧") }
    else if same_text(name, "lbrack") { Some("[") }
    else if same_text(name, "rbrack") { Some("]") }
    else if same_text(name, "lbrace") { Some("{") }
    else if same_text(name, "rbrace") { Some("}") }
    else if same_text(name, "vert") { Some("|") }
    else if same_text(name, "lvert") { Some("|") }
    else if same_text(name, "rvert") { Some("|") }
    else if same_text(name, "|") { Some("‖") }
    else if same_text(name, "Vert") { Some("‖") }
    else if same_text(name, "lVert") { Some("‖") }
    else if same_text(name, "rVert") { Some("‖") }
    else { None }
}

/// The functions that take a limit below, with the text each is set in.
pub open spec fn limit_function(name: Seq<char>) -> Option<Seq<char>> {
    if name == "lim"@ { Some("lim"@) }
    else if name == "liminf"@ { Some("lim inf"@) }
    else if name == "limsup"@ { Some("lim sup"@) }
    else if name == "min"@ { Some("min"@) }
    else if name == "max"@ { Some("max"@) }
    else if name == "inf"@ { Some("inf"@) }
    else if name == "sup"@ { Some("sup"@) }
    else { None }
}

/// Looks `name` up in [`limit_function`].
pub(crate) fn find_limit_function(name: &str) -> (r: Option<&'static str>)
    ensures
        match r {
            Some(s) => limit_function(name@) == Some(s@),
            None => limit_function(name@) is None,
        },
{
    if same_text(name, "lim") { Some("lim") }
    else if same_text(name, "liminf") { Some("lim inf") }
    else if same_text(name, "limsup") { Some("lim sup") }
    else if same_text(name, "min") { Some("min") }
    else if same_text(name, "max") { Some("max") }
    else if same_text(name, "inf") { Some("inf") }
    else if same_text(name, "sup") { Some("sup") }
    else { None }
}

/// The sizes of a delimiter that is scaled by hand.
pub open spec fn delimiter_size(name: Seq<char>) -> Option<Seq<char>> {
    if name == "big"@ { Some("1.2em"@) }
    else if name == "bigl"@ { Some("1.2em"@) }
    else if name == "bigr"@ { Some("1.2em"@) }
    else if name == "bigm"@ { Some("1.2em"@) }
    else if name == "Big"@ { Some("1.623em"@) }
    else if name == "Bigl"@ { Some("1.623em"@) }
    else if name == "Bigr"@ { Some("1.623em"@) }
    else if name == "Bigm"@ { Some("1.623em"@) }
    else if name == "bigg"@ { Some("2.047em"@) }
    else if name == "biggl"@ { Some("2.047em"@) }
    else if name == "biggr"@ { Some("2.047em"@) }
    else if name == "biggm"@ { Some("2.047em"@) }
    else if name == "Bigg"@ { Some("2.470em"@) }
    else if name == "Biggl"@ { Some("2.470em"@) }
    else if name == "Biggr"@ { Some("2.470em"@) }
    else if name == "Biggm"@ { Some("2.470em"@) }
    else { None }
}

/// Looks `name` up in [`delimiter_size`].
pub(crate) fn find_delimiter_size(name: &str) -> (r: Option<&'static str>)
    ensures
        match r {
            Some(s) => delimiter_size(name@) == Some(s@),
            None => delimiter_size(name@) is None,
        },
{
    if same_text(name, "big") { Some("1.2em") }
    else if same_text(name, "bigl") { Some("1.2em") }
    else if same_text(name, "bigr") { Some("1.2em") }
    else if same_text(name, "bigm") { Some("1.2em") }
    else if same_text(name, "Big") { Some("1.623em") }
    else if same_text(name, "Bigl") { Some("1.623em") }
    else if same_text(name, "Bigr") { Some("1.623em") }
    else if same_text(name, "Bigm") { Some("1.623em") }
    else if same_text(name, "bigg") { Some("2.047em") }
    else if same_text(name, "biggl") { Some("2.047em") }
    else if same_text(name, "biggr") { Some("2.047em") }
    else if same_text(name, "biggm") { Some("2.047em") }
    else if same_text(name, "Bigg") { Some("2.470em") }
    else if same_text(name, "Biggl") { Some("2.470em") }
    else if same_text(name, "Biggr") { Some("2.470em") }
    else if same_text(name, "Biggm") { Some("2.470em") }
    else { None }
}

/// The functions that are set upright under their own name.
pub open spec fn function_name(name: Seq<char>) -> Option<Seq<char>> {
    if name == "sin"@ { Some("sin"@) }
    else if name == "cos"@ { Some("cos"@) }
    else if name == "tan"@ { Some("tan"@) }
    else if name == "csc"@ { Some("csc"@) }
    else if name == "sec"@ { Some("sec"@) }
    else if name == "cot"@ { Some("cot"@) }
    else if name == "arcsin"@ { Some("arcsin"@) }
    else if name == "arccos"@ { Some("arccos"@) }
    else if name == "arctan"@ { Some("arctan"@) }
    else if name == "sinh"@ { Some("sinh"@) }
    else if name == "cosh"@ { Some("cosh"@) }
    else if name == "tanh"@ { Some("tanh"@) }
    else if name == "coth"@ { Some("coth"@) }
    else if name == "exp"@ { Some("exp"@) }
    else if name == "ln"@ { Some("ln"@) }
    else if name == "log"@ { Some("log"@) }
    else if name == "lg"@ { Some("lg"@) }
    else if name == "arg"@ { Some("arg"@) }
    else if name == "ker"@ { Some("ker"@) }
    else if name == "dim"@ { Some("dim"@) }
    else if name == "det"@ { Some("det"@) }
    else if name == "deg"@ { Some("deg"@) }
    else if name == "gcd"@ { Some("gcd"@) }
    else if name == "hom"@ { Some("hom"@) }
    else if name == "Pr"@ { Some("Pr"@) }
    else { None }
}

/// Looks `name` up in [`function_name`].
pub(crate) fn find_function_name(name: &str) -> (r: Option<&'static str>)
    ensures
        match r {
            Some(s) => function_name(name@) == Some(s@),
            None => function_name(name@) is None,
        },
{
    if same_text(name, "sin") { Some("sin") }
    else if same_text(name, "cos") { Some("cos") }
    else if same_text(name, "tan") { Some("tan") }
    else if same_text(name, "csc") { Some("csc") }
    else if same_text(name, "sec") { Some("sec") }
    else if same_text(name, "cot") { Some("cot") }
    else if same_text(name, "arcsin") { Some("arcsin") }
    else if same_text(name, "arccos") { Some("arccos") }
    else if same_text(name, "arctan") { Some("arctan") }
    else if same_text(name, "sinh") { Some("sinh") }
    else if same_text(name, "cosh") { Some("cosh") }
    else if same_text(name, "tanh") { Some("tanh") }
    else if same_text(name, "coth") { Some("coth") }
    else if same_text(name, "exp") { Some("exp") }
    else if same_text(name, "ln") { Some("ln") }
    else if same_text(name, "log") { Some("log") }
    else if same_text(name, "lg") { Some("lg") }
    else if same_text(name, "arg") { Some("arg") }
    else if same_text(name, "ker") { Some("ker") }
    else if same_text(name, "dim") { Some("dim") }
    else if same_text(name, "det") { Some("det") }
    else if same_text(name, "deg") { Some("deg") }
    else if same_text(name, "gcd") { Some("gcd") }
    else if same_text(name, "hom") { Some("hom") }
    else if same_text(name, "Pr") { Some("Pr") }
    else { None }
}

/// The font that a style command selects.
pub open spec fn style(name: Seq<char>) -> Option<Variant> {
    if name == "mathrm"@ { Some(Variant::Normal) }
    else if name == "textrm"@ { Some(Variant::Normal) }
    else if name == "mathit"@ { Some(Variant::Italic) }
    else if name == "textit"@ { Some(Variant::Italic) }
    else if name == "mathbf"@ { Some(Variant::Bold) }
    else if name == "textbf"@ { Some(Variant::Bold) }
    else if name == "bm"@ { Some(Variant::BoldItalic) }
    else if name == "symbf"@ { Some(Variant::BoldItalic) }
    else if name == "boldsymbol"@ { Some(Variant::BoldItalic) }
    else if name == "mathbb"@ { Some(Variant::DoubleStruck) }
    else if name == "mathfrak"@ { Some(Variant::Fraktur) }
    else if name == "mathscr"@ { Some(Variant::Script) }
    else if name == "mathcal"@ { Some(Variant::Script) }
    else if name == "mathsf"@ { Some(Variant::SansSerif) }
    else if name == "textsf"@ { Some(Variant::SansSerif) }
    else if name == "mathtt"@ { Some(Variant::Monospace) }
    else if name == "texttt"@ { Some(Variant::Monospace) }
    else { None }
}

/// Looks `name` up in [`style`].
pub(crate) fn find_style(name: &str) -> (r: Option<Variant>)
    ensures
        r == style(name@),
{
    if same_text(name, "mathrm") { Some(Variant::Normal) }
    else if same_text(name, "textrm") { Some(Variant::Normal) }
    else if same_text(name, "mathit") { Some(Variant::Italic) }
    else if same_text(name, "textit") { Some(Variant::Italic) }
    else if same_text(name, "mathbf") { Some(Variant::Bold) }
    else if same_text(name, "textbf") { Some(Variant::Bold) }
    else if same_text(name, "bm") { Some(Variant::BoldItalic) }
    else if same_text(name, "symbf") { Some(Variant::BoldItalic) }
    else if same_text(name, "boldsymbol") { Some(Variant::BoldItalic) }
    else if same_text(name, "mathbb") { Some(Variant::DoubleStruck) }
    else if same_text(name, "mathfrak") { Some(Variant::Fraktur) }
    else if same_text(name, "mathscr") { Some(Variant::Script) }
    else if same_text(name, "mathcal") { Some(Variant::Script) }
    else if same_text(name, "mathsf") { Some(Variant::SansSerif) }
    else if same_text(name, "textsf") { Some(Variant::SansSerif) }
    else if same_text(name, "mathtt") { Some(Variant::Monospace) }
    else if same_text(name, "texttt") { Some(Variant::Monospace) }
    else { None }
}

/// The width of a space command, in ten-thousandths of an em.
pub open spec fn space_width(name: Seq<char>) -> Option<i32> {
    if name == "!"@ { Some(-1667i32) }
    else if name == ","@ { Some(1667i32) }
    else if name == ":"@ { Some(2222i32) }
    else if name == ";"@ { Some(2778i32) }
    else if name == " "@ { Some(10000i32) }
    else if name == "quad"@ { Some(10000i32) }
    else if name == "qquad"@ { Some(20000i32) }
    else { None }
}

/// Looks `name` up in [`space_width`].
pub(crate) fn find_space_width(name: &str) -> (r: Option<i32>)
    ensures
        r == space_width(name@),
{
    if same_text(name, "!") { Some(-1667i32) }
    else if same_text(name, ",") { Some(1667i32) }
    else if same_text(name, ":") { Some(2222i32) }
    else if same_text(name, ";") { Some(2778i32) }
    else if same_text(name, " ") { Some(10000i32) }
    else if same_text(name, "quad") { Some(10000i32) }
    else if same_text(name, "qquad") { Some(20000i32) }
    else { None }
}

/// The accents and lines set above an expression.
pub open spec fn accent_above(name: Seq<char>) -> Option<(char, Accent)> {
    if name == "dot"@ { Some(('˙', Accent::True)) }
    else if name == "ddot"@ { Some(('¨', Accent::True)) }
    else if name == "bar"@ { Some(('¯', Accent::True)) }
    else if name == "hat"@ { Some(('^', Accent::True)) }
    else if name == "check"@ { Some(('ˇ', Accent::True)) }
    else if name == "breve"@ { Some(('˘', Accent::True)) }
    else if name == "acute"@ { Some(('´', Accent::True)) }
    else if name == "grave"@ { Some(('`', Accent::True)) }
    else if name == "tilde"@ { Some(('~', Accent::True)) }
    else if name == "vec"@ { Some(('→', Accent::True)) }
    else if name == "mathring"@ { Some(('˚', Accent::True)) }
    else if name == "overline"@ { Some(('‾', Accent::False)) }
    else if name == "widehat"@ { Some(('^', Accent::False)) }
    else if name == "widetilde"@ { Some(('~', Accent::False)) }
    else if name == "overrightarrow"@ { Some(('→', Accent::False)) }
    else if name == "overleftarrow"@ { Some(('←', Accent::False)) }
    else if name == "overleftrightarrow"@ { Some(('↔', Accent::False)) }
    else { None }
}

/// Looks `name` up in [`accent_above`].
pub(crate) fn find_accent_above(name: &str) -> (r: Option<(char, Accent)>)
    ensures
        r == accent_above(name@),
{
    if same_text(name, "dot") { Some(('˙', Accent::True)) }
    else if same_text(name, "ddot") { Some(('¨', Accent::True)) }
    else if same_text(name, "bar") { Some(('¯', Accent::True)) }
    else if same_text(name, "hat") { Some(('^', Accent::True)) }
    else if same_text(name, "check") { Some(('ˇ', Accent::True)) }
    else if same_text(name, "breve") { Some(('˘', Accent::True)) }
    else if same_text(name, "acute") { Some(('´', Accent::True)) }
    else if same_text(name, "grave") { Some(('`', Accent::True)) }
    else if same_text(name, "tilde") { Some(('~', Accent::True)) }
    else if same_text(name, "vec") { Some(('→', Accent::True)) }
    else if same_text(name, "mathring") { Some(('˚', Accent::True)) }
    else if same_text(name, "overline") { Some(('‾', Accent::False)) }
    else if same_text(name, "widehat") { Some(('^', Accent::False)) }
    else if same_text(name, "widetilde") { Some(('~', Accent::False)) }
    else if same_text(name, "overrightarrow") { Some(('→', Accent::False)) }
    else if same_text(name, "overleftarrow") { Some(('←', Accent::False)) }
    else if same_text(name, "overleftrightarrow") { Some(('↔', Accent::False)) }
    else { None }
}

/// The lines and arrows set below an expression.
pub open spec fn accent_below(name: Seq<char>) -> Option<(char, Accent)> {
    if name == "underline"@ { Some(('_', Accent::False)) }
    else if name == "underrightarrow"@ { Some(('→', Accent::False)) }
    else if name == "underleftarrow"@ { Some(('←', Accent::False)) }
    else { None }
}

/// Looks `name` up in [`accent_below`].
pub(crate) fn find_accent_below(name: &str) -> (r: Option<(char, Accent)>)
    ensures
        r == accent_below(name@),
{
    if same_text(name, "underline") { Some(('_', Accent::False)) }
    else if same_text(name, "underrightarrow") { Some(('→', Accent::False)) }
    else if same_text(name, "underleftarrow") { Some(('←', Accent::False)) }
    else { None }
}

/// The commands that stand for a construct of their own.
pub open spec fn keyword(name: Seq<char>) -> Option<TokenView> {
    if name == "sqrt"@ { Some(TokenView::Sqrt) }
    else if name == "frac"@ { Some(TokenView::Frac) }
    else if name == "left"@ { Some(TokenView::Left) }
    else if name == "right"@ { Some(TokenView::Right) }
    else if name == "middle"@ { Some(TokenView::Middle) }
    else if name == "begin"@ { Some(TokenView::Begin) }
    else if name == "end"@ { Some(TokenView::End) }
    else if name == "\\"@ { Some(TokenView::NewLine) }
    else if name == "overset"@ { Some(TokenView::Overset) }
    else if name == "underset"@ { Some(TokenView::Underset) }
    else if name == "operatorname"@ { Some(TokenView::OperatorName) }
    else if name == "text"@ { Some(TokenView::Text) }
    else if name == "slashed"@ { Some(TokenView::Slashed) }
    else if name == "binom"@ { Some(TokenView::Binom(None)) }
    else if name == "tbinom"@ { Some(TokenView::Binom(Some(DisplayStyle::Inline))) }
    else if name == "dbinom"@ { Some(TokenView::Binom(Some(DisplayStyle::Block))) }
    else { None }
}

/// Looks `name` up in [`keyword`].
pub(crate) fn find_keyword(name: &str) -> (r: Option<Token>)
    ensures
        match r {
            Some(t) => keyword(name@) == Some(t@),
            None => keyword(name@) is None,
        },
{
    if same_text(name, "sqrt") { Some(Token::Sqrt) }
    else if same_text(name, "frac") { Some(Token::Frac) }
    else if same_text(name, "left") { Some(Token::Left) }
    else if same_text(name, "right") { Some(Token::Right) }
    else if same_text(name, "middle") { Some(Token::Middle) }
    else if same_text(name, "begin") { Some(Token::Begin) }
    else if same_text(name, "end") { Some(Token::End) }
    else if same_text(name, "\\") { Some(Token::NewLine) }
    else if same_text(name, "overset") { Some(Token::Overset) }
    else if same_text(name, "underset") { Some(Token::Underset) }
    else if same_text(name, "operatorname") { Some(Token::OperatorName) }
    else if same_text(name, "text") { Some(Token::Text) }
    else if same_text(name, "slashed") { Some(Token::Slashed) }
    else if same_text(name, "binom") { Some(Token::Binom(None)) }
    else if same_text(name, "tbinom") { Some(Token::Binom(Some(DisplayStyle::Inline))) }
    else if same_text(name, "dbinom") { Some(Token::Binom(Some(DisplayStyle::Block))) }
    else { None }
}

} // verus!
