//! Formulas in a text: `$$..$$` around a formula in a block of its own,
//! `$..$` around a formula in a line.

use vstd::prelude::*;
use crate::attribute::DisplayStyle;
use crate::convert::{latex_to_mathml, mathml_of};
use crate::error::{ErrorView, LatexError};
use crate::text::{chars_of, text_of};

verus! {

/// Whether a delimiter of `width` dollar signs stands at `i`.
pub open spec fn is_mark(text: Seq<char>, i: int, width: nat) -> bool {
    &&& 0 <= i
    &&& i + width <= text.len()
    &&& forall|j: int| i <= j < i + width ==> text[j] == '$'
}

/// The places before `n` at which a delimiter stands, in rising order.
pub open spec fn marks_before(text: Seq<char>, width: nat, n: nat) -> Seq<int>
    decreases n,
{
    if n == 0 {
        Seq::empty()
    } else if is_mark(text, n - 1, width) {
        marks_before(text, width, (n - 1) as nat).push(n - 1)
    } else {
        marks_before(text, width, (n - 1) as nat)
    }
}

/// All the places at which a delimiter stands, in rising order.
pub open spec fn marks(text: Seq<char>, width: nat) -> Seq<int> {
    marks_before(text, width, text.len())
}

/// Whether the delimiter before the delimiter `k` ends before it.
pub open spec fn clear_of(m: Seq<int>, k: int, width: nat) -> bool {
    m[k - 1] + width <= m[k]
}

/// Whether no delimiter runs into the next one.
pub open spec fn apart(m: Seq<int>, width: nat) -> bool {
    forall|k: int| 0 < k < m.len() ==> #[trigger] clear_of(m, k, width)
}

/// The end of the text behind the formula that the delimiter `k` closes: the
/// next delimiter, or the end of the text.
pub open spec fn segment_end(text: Seq<char>, m: Seq<int>, k: int) -> int {
    if k + 1 < m.len() {
        m[k + 1]
    } else {
        text.len() as int
    }
}

/// The text from the delimiter `k` on, which opens a formula: the MathML of
/// the formula, the text behind it up to the next formula, and so on to the
/// end. The first formula that cannot be converted gives its error.
pub open spec fn spliced(
    text: Seq<char>,
    m: Seq<int>,
    width: nat,
    display: DisplayStyle,
    k: nat,
) -> Result<Seq<char>, ErrorView>
    decreases m.len() - k,
{
    if k + 1 >= m.len() {
        Ok(Seq::empty())
    } else {
        match mathml_of(text.subrange(m[k as int] + width, m[k as int + 1]), display) {
            Ok(mathml) => match spliced(text, m, width, display, k + 2) {
                Ok(more) => Ok(
                    mathml + text.subrange(m[k as int + 1] + width, segment_end(text, m, k as int + 1))
                        + more,
                ),
                Err(e) => Err(e),
            },
            Err(e) => Err(e),
        }
    }
}

/// `text` with each formula between two delimiters of `width` dollar signs
/// replaced by its MathML. The delimiters have to come in pairs, and none may
/// run into the next one.
#[verifier::opaque]
pub open spec fn formulas_replaced(text: Seq<char>, width: nat, display: DisplayStyle) -> Result<
    Seq<char>,
    ErrorView,
> {
    let m = marks(text, width);
    if m.len() % 2 != 0 || !apart(m, width) {
        Err(ErrorView::InvalidNumberOfDollarSigns)
    } else if m.len() == 0 {
        Ok(text)
    } else {
        match spliced(text, m, width, display, 0) {
            Ok(more) => Ok(text.subrange(0, m[0]) + more),
            Err(e) => Err(e),
        }
    }
}

/// `text` with its formulas replaced: first those in blocks of their own,
/// then, in what has come of that, those in a line.
pub open spec fn document_of(text: Seq<char>) -> Result<Seq<char>, ErrorView> {
    match formulas_replaced(text, 2, DisplayStyle::Block) {
        Ok(blocks_done) => formulas_replaced(blocks_done, 1, DisplayStyle::Inline),
        Err(e) => Err(e),
    }
}

/// The delimiters before `n` are delimiters, lie before `n` and rise.
pub proof fn lemma_marks_before(text: Seq<char>, width: nat, n: nat)
    requires
        n <= text.len(),
    ensures
        forall|k: int|
            0 <= k < marks_before(text, width, n).len() ==> is_mark(
                text,
                #[trigger] marks_before(text, width, n)[k],
                width,
            ) && marks_before(text, width, n)[k] < n,
        forall|j: int, k: int|
            0 <= j < k < marks_before(text, width, n).len() ==> marks_before(text, width, n)[j]
                < marks_before(text, width, n)[k],
    decreases n,
{
    if n > 0 {
        lemma_marks_before(text, width, (n - 1) as nat);
        let shorter = marks_before(text, width, (n - 1) as nat);
        let all = marks_before(text, width, n);
        assert forall|k: int| 0 <= k < all.len() implies is_mark(text, #[trigger] all[k], width)
            && all[k] < n by {
            if k < shorter.len() {
                assert(all[k] == shorter[k]);
            }
        }
        assert forall|j: int, k: int| 0 <= j < k < all.len() implies all[j] < all[k] by {
            assert(all[j] == shorter[j]);
            if k < shorter.len() {
                assert(all[k] == shorter[k]);
            }
        }
    }
}

/// Whether every delimiter lies in the text.
pub open spec fn within(text: Seq<char>, m: Seq<int>, width: nat) -> bool {
    forall|k: int| 0 <= k < m.len() ==> 0 <= #[trigger] m[k] && m[k] + width <= text.len()
}

/// All the delimiters of a text lie in the text.
pub proof fn lemma_marks_within(text: Seq<char>, width: nat)
    ensures
        within(text, marks(text, width), width),
{
    lemma_marks_before(text, width, text.len());
    let all = marks_before(text, width, text.len());
    assert forall|k: int| 0 <= k < all.len() implies 0 <= #[trigger] all[k] && all[k] + width
        <= text.len() by {
        assert(is_mark(text, all[k], width));
    }
}

/// A text in which the delimiters of blocks do not come in pairs has no
/// conversion, and neither has one in which, with no block at all, the
/// delimiters of formulas in a line do not come in pairs.
pub proof fn lemma_odd_delimiters(text: Seq<char>)
    ensures
        marks(text, 2).len() % 2 == 1 ==> document_of(text) == Err::<Seq<char>, ErrorView>(
            ErrorView::InvalidNumberOfDollarSigns,
        ),
        marks(text, 2).len() == 0 && marks(text, 1).len() % 2 == 1 ==> document_of(text) == Err::<
            Seq<char>,
            ErrorView,
        >(ErrorView::InvalidNumberOfDollarSigns),
{
    reveal(formulas_replaced);
}

/// The places as integers.
spec fn places(v: Seq<usize>) -> Seq<int> {
    v.map_values(|p: usize| p as int)
}

/// The places at which a delimiter of `width` dollar signs stands.
fn find_marks(text: &Vec<char>, width: usize) -> (v: Vec<usize>)
    requires
        1 <= width <= 2,
    ensures
        places(v@) == marks(text@, width as nat),
{
    let mut v: Vec<usize> = Vec::new();
    let mut i: usize = 0;
    assert(places(v@) =~= marks_before(text@, width as nat, 0));
    while i < text.len()
        invariant
            i <= text.len(),
            1 <= width <= 2,
            places(v@) == marks_before(text@, width as nat, i as nat),
        decreases text.len() - i,
    {
        let here = text[i] == '$' && (width == 1 || (i + 1 < text.len() && text[i + 1] == '$'));
        proof {
            if here {
                assert(is_mark(text@, i as int, width as nat));
            } else {
                if is_mark(text@, i as int, width as nat) {
                    assert(text@[i as int] == '$');
                    if width == 2 {
                        assert(text@[i + 1] == '$');
                    }
                }
            }
        }
        if here {
            let ghost before = v@;
            v.push(i);
            assert(places(v@) =~= places(before).push(i as int));
        }
        i += 1;
    }
    v
}

/// Whether no delimiter runs into the next one.
fn marks_apart(v: &Vec<usize>, width: usize) -> (r: bool)
    requires
        1 <= width <= 2,
        forall|k: int| 0 <= k < v@.len() ==> v@[k] + width <= usize::MAX,
    ensures
        r == apart(places(v@), width as nat),
{
    let mut k: usize = 1;
    while k < v.len()
        invariant
            1 <= k,
            1 <= width <= 2,
            forall|j: int| 0 <= j < v@.len() ==> v@[j] + width <= usize::MAX,
            forall|j: int| 0 < j < k && j < v@.len() ==> #[trigger] clear_of(
                places(v@),
                j,
                width as nat,
            ),
        decreases v.len() - k,
    {
        if v[k - 1] + width > v[k] {
            assert(!clear_of(places(v@), k as int, width as nat));
            return false;
        }
        assert(clear_of(places(v@), k as int, width as nat));
        k += 1;
    }
    true
}

/// Appends the characters `v[from..to]` to `out`.
fn push_range(out: &mut String, v: &Vec<char>, from: usize, to: usize)
    requires
        from <= to <= v@.len(),
    ensures
        final(out)@ == old(out)@ + v@.subrange(from as int, to as int),
{
    let s = text_of(v, from, to);
    out.append(s.as_str());
}

/// `head` before the text of `r`.
spec fn after_text(head: Seq<char>, r: Result<Seq<char>, ErrorView>) -> Result<
    Seq<char>,
    ErrorView,
> {
    match r {
        Ok(more) => Ok(head + more),
        Err(e) => Err(e),
    }
}

/// Replaces each formula between two delimiters of `width` dollar signs.
fn replace_formulas(text: &Vec<char>, width: usize, display: DisplayStyle) -> (r: Result<
    String,
    LatexError,
>)
    requires
        1 <= width <= 2,
    ensures
        match formulas_replaced(text@, width as nat, display) {
            Ok(replaced) => r is Ok && r->Ok_0@ == replaced,
            Err(e) => r is Err && r->Err_0@ == e,
        },
{
    let found = find_marks(text, width);
    let n = text.len();
    let ghost m = places(found@);
    proof {
        lemma_marks_within(text@, width as nat);
        assert forall|k: int| 0 <= k < found@.len() implies found@[k] + width <= usize::MAX by {
            assert(m[k] == found@[k] as int);
            assert(m[k] + width <= text@.len());
        }
    }
    if found.len() % 2 != 0 || !marks_apart(&found, width) {
        assert(formulas_replaced(text@, width as nat, display) == Err::<Seq<char>, ErrorView>(
            ErrorView::InvalidNumberOfDollarSigns,
        )) by {
            reveal(formulas_replaced);
        }
        return Err(LatexError::InvalidNumberOfDollarSigns);
    }
    let mut out = String::new();
    if found.len() == 0 {
        push_range(&mut out, text, 0, n);
        assert(text@.subrange(0, text@.len() as int) =~= text@);
        assert(out@ =~= text@);
        assert(formulas_replaced(text@, width as nat, display) == Ok::<Seq<char>, ErrorView>(
            text@,
        )) by {
            reveal(formulas_replaced);
        }
        return Ok(out);
    }
    assert(formulas_replaced(text@, width as nat, display) == after_text(
        text@.subrange(0, m[0]),
        spliced(text@, m, width as nat, display, 0),
    )) by {
        reveal(formulas_replaced);
    }
    assert(0 <= m[0] && m[0] + width <= text@.len());
    push_range(&mut out, text, 0, found[0]);
    let mut k: usize = 0;
    assert(out@ + Seq::<char>::empty() =~= out@);
    while k < found.len()
        invariant
            k <= found.len(),
            k % 2 == 0,
            found.len() % 2 == 0,
            1 <= width <= 2,
            n == text@.len(),
            m == places(found@),
            apart(m, width as nat),
            formulas_replaced(text@, width as nat, display) == after_text(
                text@.subrange(0, m[0]),
                spliced(text@, m, width as nat, display, 0),
            ),
            within(text@, m, width as nat),
            after_text(out@, spliced(text@, m, width as nat, display, k as nat)) == after_text(
                text@.subrange(0, m[0]),
                spliced(text@, m, width as nat, display, 0),
            ),
        decreases found.len() - k,
    {
        let open = found[k];
        let close = found[k + 1];
        proof {
            assert(m[k as int] == open && m[k + 1] == close);
            assert(0 <= m[k as int] && m[k as int] + width <= text@.len());
            assert(0 <= m[k + 1] && m[k + 1] + width <= text@.len());
            assert(clear_of(m, k + 1, width as nat));
            if k + 2 < found.len() {
                assert(clear_of(m, k + 2, width as nat));
                assert(m[k + 2] == found@[k + 2]);
            }
        }
        let formula = text_of(text, open + width, close);
        let ghost before = out@;
        assert(k + 1 < m.len());
        let mathml = latex_to_mathml(formula.as_str(), display)?;
        out.append(mathml.as_str());
        let end = if k + 2 < found.len() {
            found[k + 2]
        } else {
            n
        };
        push_range(&mut out, text, close + width, end);
        proof {
            let more = spliced(text@, m, width as nat, display, (k + 2) as nat);
            match more {
                Ok(x) => {
                    assert(out@ + x =~= before + (mathml@ + text@.subrange(
                        close + width,
                        end as int,
                    ) + x));
                },
                Err(e) => {},
            }
        }
        k += 2;
    }
    assert(out@ + Seq::<char>::empty() =~= out@);
    Ok(out)
}

/// Replaces the formulas in a text by their MathML: first those between
/// `$$` and `$$`, which stand in a block of their own, then those between `$`
/// and `$`, which stand in a line.
///
/// The delimiters of either kind have to come in pairs, and no `$$` may run
/// into the next one: else the text has no conversion, and neither has it
/// where a formula has none.
pub fn replace(input: &str) -> (r: Result<String, LatexError>)
    ensures
        match document_of(input@) {
            Ok(output) => r is Ok && r->Ok_0@ == output,
            Err(e) => r is Err && r->Err_0@ == e,
        },
{
    let text = chars_of(input);
    let blocks_done = replace_formulas(&text, 2, DisplayStyle::Block)?;
    let text = chars_of(blocks_done.as_str());
    replace_formulas(&text, 1, DisplayStyle::Inline)
}

} // verus!
