//! Text captured from a subprocess: lossy UTF-8 decoding and trimming.

use vstd::prelude::*;
use vstd::utf8::{decode_utf8, valid_utf8};

verus! {

/// The characters that carry the Unicode `White_Space` property.
pub open spec fn is_white_space(c: char) -> bool {
    let u = c as u32;
    ||| 0x0009 <= u <= 0x000D
    ||| u == 0x0020
    ||| u == 0x0085
    ||| u == 0x00A0
    ||| u == 0x1680
    ||| 0x2000 <= u <= 0x200A
    ||| u == 0x2028
    ||| u == 0x2029
    ||| u == 0x202F
    ||| u == 0x205F
    ||| u == 0x3000
}

/// `s` without its leading run of white space.
pub open spec fn trim_start(s: Seq<char>) -> Seq<char>
    decreases s.len(),
{
    if s.len() > 0 && is_white_space(s.first()) {
        trim_start(s.drop_first())
    } else {
        s
    }
}

/// `s` without its trailing run of white space.
pub open spec fn trim_end(s: Seq<char>) -> Seq<char>
    decreases s.len(),
{
    if s.len() > 0 && is_white_space(s.last()) {
        trim_end(s.drop_last())
    } else {
        s
    }
}

/// `s` without leading and trailing white space.
pub open spec fn trimmed(s: Seq<char>) -> Seq<char> {
    trim_end(trim_start(s))
}

/// What lossy decoding makes of bytes that are not well-formed UTF-8: the
/// text in which U+FFFD REPLACEMENT CHARACTER stands for what is ill-formed.
pub uninterp spec fn utf8_lossy_repaired(bytes: Seq<u8>) -> Seq<char>;

/// The text that lossy UTF-8 decoding produces for `bytes`: the decoded
/// text if they are well-formed UTF-8, the repaired text if they are not.
pub open spec fn utf8_lossy(bytes: Seq<u8>) -> Seq<char> {
    if valid_utf8(bytes) {
        decode_utf8(bytes)
    } else {
        utf8_lossy_repaired(bytes)
    }
}

/// Trusted: `String::from_utf8_lossy`. Well-formed UTF-8 is decoded as it
/// stands. Of other bytes the contract says only that the result is a
/// function of the bytes alone, named [`utf8_lossy_repaired`].
#[verifier::external_body]
fn decode_lossy(bytes: &[u8]) -> (text: String)
    ensures
        valid_utf8(bytes@) ==> text@ == decode_utf8(bytes@),
        !valid_utf8(bytes@) ==> text@ == utf8_lossy_repaired(bytes@),
{
    String::from_utf8_lossy(bytes).into_owned()
}

/// Trusted: `str::trim`. The result is the input without its leading and
/// trailing characters that have the Unicode `White_Space` property.
#[verifier::external_body]
fn trim_white_space(text: &str) -> (core: &str)
    ensures
        core@ == trimmed(text@),
{
    text.trim()
}

/// The text of a captured output stream: the bytes decoded lossily, then
/// trimmed.
pub open spec fn captured_text_spec(bytes: Seq<u8>) -> Seq<char> {
    trimmed(utf8_lossy(bytes))
}

/// Decodes a captured output stream and trims it. Never fails: ill-formed
/// bytes are replaced, not rejected.
pub fn captured_text(bytes: &[u8]) -> (text: String)
    ensures
        text@ == captured_text_spec(bytes@),
{
    let decoded = decode_lossy(bytes);
    let core = trim_white_space(decoded.as_str());
    core.to_owned()
}

/// Whether `s` holds nothing but white space.
pub open spec fn all_white_space(s: Seq<char>) -> bool {
    forall|i: int| 0 <= i < s.len() ==> is_white_space(#[trigger] s[i])
}

/// Whether `s` neither begins nor ends with white space.
pub open spec fn no_outer_white_space(s: Seq<char>) -> bool {
    s.len() > 0 ==> !is_white_space(s.first()) && !is_white_space(s.last())
}

/// Leading white space does not change what is left after trimming the
/// start.
pub proof fn lemma_trim_start_drops_lead(lead: Seq<char>, rest: Seq<char>)
    requires
        all_white_space(lead),
    ensures
        trim_start(lead + rest) == trim_start(rest),
    decreases lead.len(),
{
    if lead.len() == 0 {
        assert(lead + rest =~= rest);
    } else {
        assert(is_white_space(lead[0]));
        assert((lead + rest).first() == lead[0]);
        assert((lead + rest).drop_first() =~= lead.drop_first() + rest);
        assert forall|i: int| 0 <= i < lead.drop_first().len() implies is_white_space(
            #[trigger] lead.drop_first()[i],
        ) by {
            assert(lead.drop_first()[i] == lead[i + 1]);
        }
        lemma_trim_start_drops_lead(lead.drop_first(), rest);
    }
}

/// Trailing white space does not change what is left after trimming the
/// end.
pub proof fn lemma_trim_end_drops_trail(rest: Seq<char>, trail: Seq<char>)
    requires
        all_white_space(trail),
    ensures
        trim_end(rest + trail) == trim_end(rest),
    decreases trail.len(),
{
    if trail.len() == 0 {
        assert(rest + trail =~= rest);
    } else {
        assert(is_white_space(trail[trail.len() - 1]));
        assert((rest + trail).last() == trail[trail.len() - 1]);
        assert((rest + trail).drop_last() =~= rest + trail.drop_last());
        assert forall|i: int| 0 <= i < trail.drop_last().len() implies is_white_space(
            #[trigger] trail.drop_last()[i],
        ) by {
            assert(trail.drop_last()[i] == trail[i]);
        }
        lemma_trim_end_drops_trail(rest, trail.drop_last());
    }
}

/// Trimming takes away exactly the white space around the core of a text:
/// if `core` neither begins nor ends with white space, it is what is left
/// of `core` with any white space before and after it.
pub proof fn lemma_trimmed_is_the_core(lead: Seq<char>, core: Seq<char>, trail: Seq<char>)
    requires
        all_white_space(lead),
        all_white_space(trail),
        no_outer_white_space(core),
    ensures
        trimmed(lead + core + trail) == core,
{
    assert(lead + core + trail =~= lead + (core + trail));
    lemma_trim_start_drops_lead(lead, core + trail);
    if core.len() == 0 {
        assert(core + trail =~= trail + core);
        lemma_trim_start_drops_lead(trail, core);
    } else {
        assert((core + trail).first() == core.first());
        lemma_trim_end_drops_trail(core, trail);
    }
}

/// What is left after trimming the start is the end of the text, and does
/// not begin with white space.
pub proof fn lemma_trim_start_keeps_the_end(s: Seq<char>)
    ensures
        trim_start(s).len() <= s.len(),
        trim_start(s) == s.subrange(s.len() - trim_start(s).len(), s.len() as int),
        all_white_space(s.subrange(0, s.len() - trim_start(s).len())),
        trim_start(s).len() > 0 ==> !is_white_space(trim_start(s).first()),
    decreases s.len(),
{
    if s.len() > 0 && is_white_space(s.first()) {
        let rest = s.drop_first();
        lemma_trim_start_keeps_the_end(rest);
        let kept = trim_start(rest);
        assert(rest.subrange(rest.len() - kept.len(), rest.len() as int) =~= s.subrange(
            s.len() - kept.len(),
            s.len() as int,
        ));
        let dropped = s.subrange(0, s.len() - kept.len());
        let dropped_rest = rest.subrange(0, rest.len() - kept.len());
        assert forall|i: int| 0 <= i < dropped.len() implies is_white_space(
            #[trigger] dropped[i],
        ) by {
            if i > 0 {
                assert(dropped[i] == dropped_rest[i - 1]);
            }
        }
    } else {
        assert(s.subrange(0, s.len() as int) =~= s);
    }
}

/// What is left after trimming the end is the start of the text, and does
/// not end with white space.
pub proof fn lemma_trim_end_keeps_the_start(s: Seq<char>)
    ensures
        trim_end(s).len() <= s.len(),
        trim_end(s) == s.subrange(0, trim_end(s).len() as int),
        all_white_space(s.subrange(trim_end(s).len() as int, s.len() as int)),
        trim_end(s).len() > 0 ==> !is_white_space(trim_end(s).last()),
    decreases s.len(),
{
    if s.len() > 0 && is_white_space(s.last()) {
        let rest = s.drop_last();
        lemma_trim_end_keeps_the_start(rest);
        let kept = trim_end(rest);
        assert(rest.subrange(0, kept.len() as int) =~= s.subrange(0, kept.len() as int));
        let dropped = s.subrange(kept.len() as int, s.len() as int);
        let dropped_rest = rest.subrange(kept.len() as int, rest.len() as int);
        assert forall|i: int| 0 <= i < dropped.len() implies is_white_space(
            #[trigger] dropped[i],
        ) by {
            if i < dropped.len() - 1 {
                assert(dropped[i] == dropped_rest[i]);
            }
        }
    } else {
        assert(s.subrange(0, s.len() as int) =~= s);
    }
}

/// A trimmed text is a part of the text, neither begins nor ends with
/// white space, and trimming it again changes nothing.
pub proof fn lemma_trimmed_has_no_outer_white_space(s: Seq<char>)
    ensures
        no_outer_white_space(trimmed(s)),
        trimmed(trimmed(s)) == trimmed(s),
        exists|from: int, to: int|
            0 <= from <= to <= s.len() && trimmed(s) == #[trigger] s.subrange(from, to),
{
    let started = trim_start(s);
    lemma_trim_start_keeps_the_end(s);
    lemma_trim_end_keeps_the_start(started);
    let core = trimmed(s);
    let from = s.len() - started.len();
    assert(core =~= s.subrange(from, from + core.len()));
    if core.len() > 0 {
        assert(core.first() == started.first());
    }
    lemma_trimmed_is_the_core(Seq::empty(), core, Seq::empty());
    assert(Seq::<char>::empty() + core + Seq::<char>::empty() =~= core);
}

} // verus!
