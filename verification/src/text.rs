use vstd::prelude::*;

verus! {

/// Number of bytes in the UTF-8 encoding of a character sequence: the length
/// that every size limit of this library is measured in.
pub open spec fn byte_len(s: Seq<char>) -> nat {
    vstd::utf8::encode_utf8(s).len()
}

/// Byte length of a string, by `String::len`, which std documents as the
/// length of the string in bytes: the length of its UTF-8 encoding. Trusted:
/// that the value equals `byte_len` of the characters is not proved here.
#[verifier::external_body]
pub(crate) fn string_byte_len(s: &String) -> (n: usize)
    ensures
        n == byte_len(s@),
{
    s.len()
}

/// Byte lengths add up over concatenation: the encoding of `a + b` is the
/// encoding of `a` followed by that of `b`.
pub proof fn lemma_byte_len_concat(a: Seq<char>, b: Seq<char>)
    ensures
        byte_len(a + b) == byte_len(a) + byte_len(b),
{
    lemma_encode_concat(a, b);
}

proof fn lemma_encode_concat(a: Seq<char>, b: Seq<char>)
    ensures
        vstd::utf8::encode_utf8(a + b) =~= vstd::utf8::encode_utf8(a) + vstd::utf8::encode_utf8(b),
    decreases a.len(),
{
    if a.len() == 0 {
        assert(a + b =~= b);
    } else {
        assert((a + b).drop_first() =~= a.drop_first() + b);
        lemma_encode_concat(a.drop_first(), b);
        assert((a + b)[0] == a[0]);
    }
}

/// The byte length of the empty text is 0, and a single character takes 1
/// byte below U+0080, 2 bytes below U+0800, 3 bytes below U+10000 and 4
/// bytes above; with `lemma_byte_len_concat` this fixes the byte length of
/// every text.
pub proof fn lemma_byte_len_of_chars(c: char)
    ensures
        byte_len(Seq::<char>::empty()) == 0,
        byte_len(seq![c]) == if (c as u32) < 0x80 {
            1int
        } else if (c as u32) < 0x800 {
            2int
        } else if (c as u32) < 0x10000 {
            3int
        } else {
            4int
        },
{
    broadcast use vstd::utf8::char_is_scalar;

    let one = seq![c];
    let v = c as u32;
    assert(one.drop_first() =~= Seq::<char>::empty());
    assert(vstd::utf8::encode_utf8(Seq::<char>::empty()) =~= Seq::<u8>::empty());
    assert(one[0] == c);
    assert(vstd::utf8::encode_utf8(one) =~= vstd::utf8::encode_scalar(v));
    assert(vstd::utf8::is_scalar(v));
}

} // verus!
