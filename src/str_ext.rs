use vstd::prelude::*;
use vstd::string::StringExecFns;
use vstd::utf8::{encode_scalar, encode_utf8, encode_utf8_decode_utf8, encode_utf8_first_scalar, encode_utf8_valid_utf8, is_char_boundary};

verus! {

/// What `str::to_uppercase` makes of a string.
pub uninterp spec fn upper_of(s: Seq<char>) -> Seq<char>;

/// Relies on `str::to_uppercase`: its result depends on the characters alone,
/// and the empty string stays empty.
#[verifier::external_body]
fn uppercase(s: &str) -> (r: String)
    ensures
        r@ == upper_of(s@),
        s@.len() == 0 ==> r@.len() == 0,
{
    s.to_uppercase()
}

/// The string with its first character in upper case.
pub open spec fn capitalized(s: Seq<char>) -> Seq<char> {
    if s.len() == 0 {
        s
    } else {
        upper_of(s.take(1)) + s.skip(1)
    }
}

/// The first character, if any, is ASCII, so that it ends at the first byte.
pub open spec fn starts_narrow(s: Seq<char>) -> bool {
    s.len() == 0 || (s[0] as u32) < 128
}

/// Text helpers for display.
pub trait StrExt: View<V = Seq<char>> {
    /// The string with its first character in upper case.
    fn capitalize(&self) -> (r: String)
        requires
            starts_narrow(self@),
        ensures
            r@ == capitalized(self@),
    ;
}

proof fn lemma_split_after_first(s: Seq<char>)
    requires
        s.len() > 0,
        (s[0] as u32) < 128,
    ensures
        encode_scalar(s[0] as u32).len() == 1,
        encode_utf8(s) == encode_utf8(s.take(1)) + encode_utf8(s.skip(1)),
        encode_utf8(s.take(1)).len() == 1,
        is_char_boundary(encode_utf8(s), 1),
{
    encode_utf8_first_scalar(s);
    encode_utf8_valid_utf8(s);
    let t = s.take(1);
    assert(t.drop_first() =~= Seq::<char>::empty());
    assert(s.drop_first() =~= s.skip(1));
    assert(t[0] == s[0]);
    assert(encode_utf8(t.drop_first()) =~= Seq::<u8>::empty());
    assert(encode_utf8(t) == encode_scalar(t[0] as u32) + encode_utf8(t.drop_first()));
    assert(encode_utf8(t) =~= encode_scalar(s[0] as u32));
    reveal_with_fuel(is_char_boundary, 2);
}

impl StrExt for str {
    fn capitalize(&self) -> (r: String) {
        if self.is_empty() {
            let r = uppercase(self);
            assert(r@ =~= self@);
            r
        } else {
            proof {
                lemma_split_after_first(self@);
            }
            let (head, tail) = self.split_at(1);
            proof {
                let s = self@;
                assert(encode_utf8(head@) =~= encode_utf8(s.take(1)));
                assert(encode_utf8(tail@) =~= encode_utf8(s.skip(1)));
                encode_utf8_decode_utf8(head@);
                encode_utf8_decode_utf8(s.take(1));
                encode_utf8_decode_utf8(tail@);
                encode_utf8_decode_utf8(s.skip(1));
            }
            let upper = uppercase(head);
            upper.concat(tail)
        }
    }
}

} // verus!
