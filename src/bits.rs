use vstd::prelude::*;
use vstd::string::*;
use vstd::utf8::is_ascii_chars;

verus! {

/// The eight bits of a byte, least significant first.
pub open spec fn byte_bits(b: u8) -> Seq<bool> {
    Seq::new(8, |j: int| (b >> (j as u8)) & 1u8 == 1u8)
}

/// The bits of every character of an ASCII text, character after character.
pub open spec fn ascii_bits(s: Seq<char>) -> Seq<bool>
    decreases s.len(),
{
    if s.len() == 0 {
        Seq::empty()
    } else {
        ascii_bits(s.drop_last()) + byte_bits(s.last() as u8)
    }
}

/// The bit sequence of a text, or `None` when it holds a non-ASCII character.
pub open spec fn text_bits(s: Seq<char>) -> Option<Seq<bool>> {
    if is_ascii_chars(s) {
        Some(ascii_bits(s))
    } else {
        None
    }
}

/// Every character gives exactly eight bits.
pub proof fn lemma_ascii_bits_len(s: Seq<char>)
    ensures
        ascii_bits(s).len() == 8 * s.len(),
    decreases s.len(),
{
    if s.len() > 0 {
        lemma_ascii_bits_len(s.drop_last());
    }
}

/// An ASCII text encodes to eight bits per character; a text with a
/// non-ASCII character anywhere encodes to nothing.
pub proof fn lemma_encoding_length(s: Seq<char>)
    ensures
        is_ascii_chars(s) ==> text_bits(s) == Some(ascii_bits(s)) && ascii_bits(s).len() == 8
            * s.len(),
        (exists|i: int| 0 <= i < s.len() && s[i] > '\u{7f}') ==> text_bits(s) is None,
{
    lemma_ascii_bits_len(s);
}

/// Expands a text into its bits, eight per character, least significant bit
/// first; `None` when the text is not ASCII.
pub fn text_to_binary(input: &str) -> (r: Option<Vec<bool>>)
    ensures
        r is Some <==> is_ascii_chars(input@),
        r is Some ==> r->0@ == ascii_bits(input@),
        r matches Some(v) ==> v@.len() == 8 * input@.len(),
{
    if !input.is_ascii() {
        return None;
    }
    let n = input.unicode_len();
    let mut result: Vec<bool> = Vec::new();
    let mut i: usize = 0;
    while i < n
        invariant
            n == input@.len(),
            is_ascii_chars(input@),
            0 <= i <= n,
            result@ == ascii_bits(input@.subrange(0, i as int)),
        decreases n - i,
    {
        let b = input.get_ascii(i);
        let mut j: u8 = 0;
        while j < 8
            invariant
                0 <= j <= 8,
                result@ == ascii_bits(input@.subrange(0, i as int)) + Seq::new(
                    j as nat,
                    |t: int| (b >> (t as u8)) & 1u8 == 1u8,
                ),
            decreases 8 - j,
        {
            result.push((b >> j) & 1u8 == 1u8);
            j = j + 1;
            assert(result@ =~= ascii_bits(input@.subrange(0, i as int)) + Seq::new(
                j as nat,
                |t: int| (b >> (t as u8)) & 1u8 == 1u8,
            ));
        }
        proof {
            let next = input@.subrange(0, i + 1);
            assert(next.drop_last() =~= input@.subrange(0, i as int));
            assert(next.last() == input@[i as int]);
            assert(Seq::new(8, |t: int| (b >> (t as u8)) & 1u8 == 1u8) =~= byte_bits(b));
        }
        i = i + 1;
    }
    assert(input@.subrange(0, n as int) =~= input@);
    proof {
        lemma_ascii_bits_len(input@);
    }
    Some(result)
}

} // verus!
