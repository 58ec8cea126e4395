//! Comparing and splitting text.

use vstd::prelude::*;
use vstd::slice::*;
use vstd::string::*;
use vstd::utf8::*;

verus! {

/// `String::push`, which is believed and not proved: it appends the character to
/// the end of the string.
pub assume_specification[ String::push ](text: &mut String, ch: char)
    ensures
        final(text)@ == old(text)@.push(ch),
;

/// Whether two string slices hold the same characters.
pub fn str_eq(a: &str, b: &str) -> (same: bool)
    ensures
        same == (a@ == b@),
{
    let x = a.as_bytes();
    let y = b.as_bytes();
    proof {
        encode_utf8_decode_utf8(a@);
        encode_utf8_decode_utf8(b@);
    }
    if x.len() != y.len() {
        return false;
    }
    let mut i: usize = 0;
    while i < x.len()
        invariant
            i <= x.len(),
            x.len() == y.len(),
            x@ == encode_utf8(a@),
            y@ == encode_utf8(b@),
            forall|j: int| 0 <= j < i ==> x@[j] == y@[j],
        decreases x.len() - i,
    {
        if x[i] != y[i] {
            return false;
        }
        i += 1;
    }
    assert(x@ =~= y@);
    true
}

/// Whether a character is white space: one of the code points with the Unicode
/// property `White_Space`.
pub open spec fn is_space(c: char) -> bool {
    let n = c as u32;
    ||| 0x09 <= n <= 0x0D
    ||| n == 0x20
    ||| n == 0x85
    ||| n == 0xA0
    ||| n == 0x1680
    ||| 0x2000 <= n <= 0x200A
    ||| n == 0x2028
    ||| n == 0x2029
    ||| n == 0x202F
    ||| n == 0x205F
    ||| n == 0x3000
}

/// The words of a text: its longest runs of characters that are not white space,
/// in their order.
///
/// A character that is white space adds nothing. Another one starts a word where
/// the text begins or white space stands before it, and else goes on with the last
/// word.
pub open spec fn words(s: Seq<char>) -> Seq<Seq<char>>
    decreases s.len(),
{
    if s.len() == 0 {
        Seq::empty()
    } else {
        let before = words(s.drop_last());
        if is_space(s.last()) {
            before
        } else if s.len() >= 2 && !is_space(s[s.len() - 2]) {
            before.drop_last().push(before.last().push(s.last()))
        } else {
            before.push(seq![s.last()])
        }
    }
}

/// No word is empty, and no word holds white space.
pub proof fn lemma_words_hold_no_space(s: Seq<char>)
    ensures
        forall|i: int| 0 <= i < words(s).len() ==> (#[trigger] words(s)[i]).len() > 0,
        forall|i: int, j: int|
            0 <= i < words(s).len() && 0 <= j < words(s)[i].len() ==> !is_space(
                #[trigger] words(s)[i][j],
            ),
        s.len() > 0 && !is_space(s.last()) ==> words(s).len() > 0,
    decreases s.len(),
{
    if s.len() > 0 {
        let before = words(s.drop_last());
        lemma_words_hold_no_space(s.drop_last());
        if s.len() >= 2 {
            assert(s.drop_last().last() == s[s.len() - 2]);
        }
        let after = words(s);
        assert forall|i: int| 0 <= i < after.len() implies (#[trigger] after[i]).len() > 0 by {
            if i < before.len() - 1 {
                assert(after[i] == before[i]);
            }
        }
        assert forall|i: int, j: int| 0 <= i < after.len() && 0 <= j < after[i].len() implies !is_space(
            #[trigger] after[i][j],
        ) by {
            if i < before.len() - 1 {
                assert(after[i][j] == before[i][j]);
            } else if i < before.len() && j < before[i].len() {
                assert(after[i][j] == before[i][j]);
            }
        }
    }
}

/// The words of a text, written one after the other, are the text without its
/// white space.
pub proof fn lemma_words_keep_the_rest(s: Seq<char>)
    ensures
        words(s).flatten() == s.filter(|c: char| !is_space(c)),
    decreases s.len(),
{
    reveal(Seq::filter);
    if s.len() == 0 {
        assert(words(s).flatten() =~= Seq::<char>::empty());
    } else {
        let before = words(s.drop_last());
        lemma_words_keep_the_rest(s.drop_last());
        lemma_words_hold_no_space(s.drop_last());
        if is_space(s.last()) {
        } else if s.len() >= 2 && !is_space(s[s.len() - 2]) {
            assert(s.drop_last().last() == s[s.len() - 2]);
            let head = before.drop_last();
            let tail = before.last();
            assert(before =~= head.push(tail));
            head.lemma_flatten_push(tail);
            head.lemma_flatten_push(tail.push(s.last()));
            assert(words(s).flatten() =~= before.flatten().push(s.last()));
        } else {
            before.lemma_flatten_push(seq![s.last()]);
            assert(words(s).flatten() =~= before.flatten().push(s.last()));
        }
    }
}

/// A run without white space that follows the start of a text or white space is
/// one more word.
pub proof fn lemma_words_with_one_more(s: Seq<char>, word: Seq<char>)
    requires
        s.len() == 0 || is_space(s.last()),
        word.len() > 0,
        forall|j: int| 0 <= j < word.len() ==> !is_space(#[trigger] word[j]),
    ensures
        words(s + word) == words(s).push(word),
    decreases word.len(),
{
    let c = word.last();
    let start = word.drop_last();
    assert((s + word).drop_last() =~= s + start);
    assert(word =~= start.push(c));
    if start.len() == 0 {
        assert(s + start =~= s);
        assert(seq![c] =~= word);
    } else {
        lemma_words_with_one_more(s, start);
        assert((s + word)[(s + word).len() - 2] == start.last());
        assert(words(s).push(start).drop_last() =~= words(s));
    }
}

/// Whether a character is white space.
pub fn char_is_space(c: char) -> (space: bool)
    ensures
        space == is_space(c),
{
    let n: u32 = c as u32;
    (0x09 <= n && n <= 0x0D) || n == 0x20 || n == 0x85 || n == 0xA0 || n == 0x1680 || (0x2000 <= n
        && n <= 0x200A) || n == 0x2028 || n == 0x2029 || n == 0x202F || n == 0x205F || n == 0x3000
}

/// Splits a text into its words.
pub fn split_words(s: &str) -> (found: Vec<String>)
    ensures
        found.deep_view() == words(s@),
{
    let mut done: Vec<String> = Vec::new();
    let mut word = String::new();
    assert(s@.take(0) =~= Seq::<char>::empty());
    for c in it: s.chars()
        invariant
            it.seq() == s@,
            word@.len() > 0 <==> it.index() > 0 && !is_space(s@[it.index() - 1]),
            words(s@.take(it.index())) == if word@.len() > 0 {
                done.deep_view().push(word@)
            } else {
                done.deep_view()
            },
    {
        let ghost i = it.index();
        let ghost before = done.deep_view();
        let ghost run = word@;
        proof {
            assert(s@.take(i + 1).drop_last() =~= s@.take(i));
            assert(s@.take(i + 1).last() == c);
            if i > 0 {
                assert(s@.take(i + 1)[i - 1] == s@[i - 1]);
            }
        }
        if char_is_space(c) {
            if !word.as_str().is_empty() {
                done.push(word);
                word = String::new();
                assert(done.deep_view() =~= before.push(run));
            }
        } else {
            word.push(c);
            proof {
                if run.len() > 0 {
                    assert(before.push(run).drop_last() =~= before);
                } else {
                    assert(word@ =~= seq![c]);
                }
            }
        }
    }
    assert(s@.take(s@.len() as int) =~= s@);
    if !word.as_str().is_empty() {
        let ghost before = done.deep_view();
        let ghost run = word@;
        done.push(word);
        assert(done.deep_view() =~= before.push(run));
    }
    done
}

} // verus!
