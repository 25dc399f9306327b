//! Removal of control characters from response text.
//!
//! The extension may embed raw control characters in otherwise valid JSON
//! text. They are dropped before parsing; tab, line feed and carriage return
//! stay, as does everything printable.

use vstd::prelude::*;
use vstd::std_specs::iter::IteratorSpec;
use crate::text::push_char;

verus! {

/// Whether a character survives sanitizing: tab, line feed, carriage return,
/// and every scalar from U+0020 upwards except DEL (U+007F).
pub open spec fn is_kept(c: char) -> bool {
    c == '\t' || c == '\n' || c == '\r' || (c as u32 >= 0x20 && c as u32 != 0x7f)
}

/// `is_kept` as a predicate value, for use with `Seq::filter`.
pub open spec fn kept() -> spec_fn(char) -> bool {
    |c: char| is_kept(c)
}

/// The characters of `s` that are kept, in the order they had.
pub open spec fn sanitized(s: Seq<char>) -> Seq<char> {
    s.filter(kept())
}

/// Decides `is_kept` for one character.
pub fn keeps(c: char) -> (r: bool)
    ensures
        r == is_kept(c),
{
    let n: u32 = c as u32;
    n == 0x09 || n == 0x0a || n == 0x0d || (n >= 0x20 && n != 0x7f)
}

/// Sanitizing the text after its first character.
proof fn lemma_sanitized_step(s: Seq<char>)
    requires
        s.len() > 0,
    ensures
        is_kept(s[0]) ==> sanitized(s) == seq![s[0]] + sanitized(s.drop_first()),
        !is_kept(s[0]) ==> sanitized(s) == sanitized(s.drop_first()),
{
    let head = seq![s[0]];
    assert(s =~= head + s.drop_first());
    Seq::filter_distributes_over_add(head, s.drop_first(), kept());
    assert(head.filter(kept()) =~= if is_kept(s[0]) { head } else { Seq::empty() }) by {
        reveal_with_fuel(Seq::filter, 2);
        assert(head.drop_last() =~= Seq::<char>::empty());
    }
}

/// Drops every control character except tab, line feed and carriage return.
pub fn sanitize_str(s: &str) -> (r: String)
    ensures
        r@ == sanitized(s@),
{
    let mut out = String::new();
    let mut rest = s.chars();
    loop
        invariant
            rest.obeys_prophetic_iter_laws(),
            rest.decrease() is Some,
            out@ + sanitized(rest.remaining()) == sanitized(s@),
        decreases rest.decrease()->0,
    {
        let ghost before = rest.remaining();
        match rest.next() {
            Some(c) => {
                proof {
                    lemma_sanitized_step(before);
                }
                if keeps(c) {
                    push_char(&mut out, c);
                    assert(out@ + sanitized(rest.remaining()) =~= sanitized(s@));
                }
            },
            None => {
                proof {
                    lemma_sanitized_empty();
                    assert(before =~= Seq::<char>::empty());
                    assert(out@ =~= sanitized(s@));
                }
                return out;
            },
        }
    }
}

/// Sanitizing changes nothing where every character is kept.
pub proof fn lemma_sanitized_unchanged(s: Seq<char>)
    requires
        forall|i: int| 0 <= i < s.len() ==> is_kept(#[trigger] s[i]),
    ensures
        sanitized(s) == s,
    decreases s.len(),
{
    reveal(Seq::filter);
    if s.len() > 0 {
        lemma_sanitized_unchanged(s.drop_last());
        assert(s.drop_last().push(s.last()) =~= s);
    }
}

/// Every character of sanitized text is kept.
pub proof fn lemma_sanitized_all_kept(s: Seq<char>)
    ensures
        forall|i: int| 0 <= i < sanitized(s).len() ==> is_kept(#[trigger] sanitized(s)[i]),
{
    assert forall|i: int| 0 <= i < sanitized(s).len() implies is_kept(
        #[trigger] sanitized(s)[i],
    ) by {
        s.lemma_filter_pred(kept(), i);
    }
}

/// Sanitizing twice gives what sanitizing once gives.
pub proof fn lemma_sanitize_idempotent(s: Seq<char>)
    ensures
        sanitized(sanitized(s)) == sanitized(s),
{
    lemma_sanitized_all_kept(s);
    lemma_sanitized_unchanged(sanitized(s));
}

/// Tab, line feed and carriage return are kept, and so is every scalar
/// outside ASCII.
pub proof fn lemma_kept_characters(c: char)
    ensures
        is_kept('\t'),
        is_kept('\n'),
        is_kept('\r'),
        c as u32 >= 0x80 ==> is_kept(c),
        is_kept(c) <==> !(c as u32 <= 0x08 || c as u32 == 0x0b || c as u32 == 0x0c || (0x0e
            <= c as u32 <= 0x1f) || c as u32 == 0x7f),
{
}

/// Sanitizing distributes over concatenation: the relative order of the
/// characters that remain is the order they had.
pub proof fn lemma_sanitized_concat(a: Seq<char>, b: Seq<char>)
    ensures
        sanitized(a + b) == sanitized(a) + sanitized(b),
{
    Seq::filter_distributes_over_add(a, b, kept());
}

/// Nothing is left of empty text.
pub proof fn lemma_sanitized_empty()
    ensures
        sanitized(Seq::<char>::empty()) == Seq::<char>::empty(),
{
    reveal(Seq::filter);
}

} // verus!
