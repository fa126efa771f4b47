use vstd::prelude::*;

verus! {

/// The bytes of a C string held in `b`: everything before the first NUL, or
/// all of `b` when it holds no NUL.
pub open spec fn c_text(b: Seq<u8>) -> Seq<u8>
    decreases b.len(),
{
    if b.len() == 0 {
        b
    } else if b[0] == 0 {
        Seq::empty()
    } else {
        seq![b[0]] + c_text(b.drop_first())
    }
}

/// True when every byte is below 0x80.
pub open spec fn is_ascii_bytes(b: Seq<u8>) -> bool {
    forall|i: int| 0 <= i < b.len() ==> b[i] < 0x80
}

/// The characters that ASCII bytes stand for, one for one.
pub open spec fn ascii_chars(b: Seq<u8>) -> Seq<char> {
    b.map_values(|c: u8| c as char)
}

/// The text that `b` encodes as UTF-8, or `None` when `b` is not valid UTF-8.
pub uninterp spec fn utf8_decoded(b: Seq<u8>) -> Option<Seq<char>>;

/// Relies on `String::from_utf8`: it accepts exactly the valid UTF-8 byte
/// strings, and an ASCII byte string is valid UTF-8 that encodes the
/// characters of the same values.
#[verifier::external_body]
fn decode_utf8(b: Vec<u8>) -> (r: Option<String>)
    ensures
        r is None ==> utf8_decoded(b@) is None,
        r is Some ==> utf8_decoded(b@) == Some(r->Some_0@),
        is_ascii_bytes(b@) ==> r is Some && r->Some_0@ == ascii_chars(b@),
{
    String::from_utf8(b).ok()
}

proof fn lemma_c_text_step(b: Seq<u8>, i: int)
    requires
        0 <= i < b.len(),
        b[i] != 0,
    ensures
        c_text(b.skip(i)) == seq![b[i]] + c_text(b.skip(i + 1)),
{
    assert(b.skip(i).drop_first() =~= b.skip(i + 1));
}

/// Copies the bytes of the C string held in `b`.
pub fn c_text_bytes(b: &[u8]) -> (r: Vec<u8>)
    ensures
        r@ == c_text(b@),
{
    let mut r: Vec<u8> = Vec::new();
    let mut i: usize = 0;
    assert(b@.skip(0) =~= b@);
    assert(r@ + c_text(b@) =~= c_text(b@));
    while i < b.len()
        invariant
            i <= b@.len(),
            c_text(b@) == r@ + c_text(b@.skip(i as int)),
        decreases b@.len() - i,
    {
        if b[i] == 0 {
            assert(c_text(b@.skip(i as int)) == Seq::<u8>::empty());
            assert(r@ + Seq::<u8>::empty() =~= r@);
            return r;
        }
        proof {
            lemma_c_text_step(b@, i as int);
            assert(r@ + (seq![b@[i as int]] + c_text(b@.skip(i + 1))) =~= r@.push(b@[i as int])
                + c_text(b@.skip(i + 1)));
        }
        r.push(b[i]);
        i = i + 1;
    }
    assert(b@.skip(i as int) =~= Seq::<u8>::empty());
    assert(r@ + Seq::<u8>::empty() =~= r@);
    r
}

/// Decodes the C string held in `b` as UTF-8.
pub fn decode_c_text(b: &[u8]) -> (r: Option<String>)
    ensures
        r is Some <==> utf8_decoded(c_text(b@)) is Some,
        r matches Some(s) ==> utf8_decoded(c_text(b@)) == Some(s@),
        is_ascii_bytes(c_text(b@)) ==> (r matches Some(s) && s@ == ascii_chars(c_text(b@))),
{
    let bytes = c_text_bytes(b);
    decode_utf8(bytes)
}

/// Decodes `b` as UTF-8 after dropping its last byte, the terminator that
/// the native library writes at the end of a sized string.
pub fn decode_terminated(b: Vec<u8>) -> (r: Option<String>)
    requires
        b@.len() > 0,
    ensures
        r is Some <==> utf8_decoded(b@.drop_last()) is Some,
        r matches Some(s) ==> utf8_decoded(b@.drop_last()) == Some(s@),
        is_ascii_bytes(b@.drop_last()) ==> (r matches Some(s) && s@ == ascii_chars(
            b@.drop_last(),
        )),
{
    let mut b = b;
    let _ = b.pop();
    decode_utf8(b)
}

} // verus!
