use vstd::prelude::*;
use vstd::utf8::{char_is_scalar, encode_scalar, encode_utf8};

verus! {

/// True for the bytes of the fragment percent-encode set of the URL
/// standard: the C0 controls, DEL, space, `"`, `<`, `>` and backtick.
pub open spec fn in_fragment_set(b: u8) -> bool {
    b < 0x20 || b == 0x7F || b == 0x20 || b == 0x22 || b == 0x3C || b == 0x3E || b == 0x60
}

/// The upper-case hexadecimal digit of `n`, for `n < 16`.
pub open spec fn hex_digit(n: u8) -> char {
    seq!['0', '1', '2', '3', '4', '5', '6', '7', '8', '9', 'A', 'B', 'C', 'D', 'E', 'F'][n as int]
}

/// `%` followed by the two hexadecimal digits of `b`.
pub open spec fn percent_triplet(b: u8) -> Seq<char> {
    seq!['%', hex_digit(b / 16), hex_digit(b % 16)]
}

/// Every byte written as a percent triplet.
pub open spec fn percent_bytes(bs: Seq<u8>) -> Seq<char>
    decreases bs.len(),
{
    if bs.len() == 0 {
        Seq::empty()
    } else {
        percent_bytes(bs.drop_last()) + percent_triplet(bs.last())
    }
}

/// A character as it stands in an encoded URL part: an ASCII character
/// outside the fragment set stays, any other is written as the percent
/// triplets of its UTF-8 bytes.
pub open spec fn encode_char(c: char) -> Seq<char> {
    if (c as u32) < 0x80 && !in_fragment_set((c as u32) as u8) {
        seq![c]
    } else {
        percent_bytes(encode_utf8(seq![c]))
    }
}

/// The percent-encoding of a whole URL part.
pub open spec fn fragment_encode(s: Seq<char>) -> Seq<char>
    decreases s.len(),
{
    if s.len() == 0 {
        Seq::empty()
    } else {
        fragment_encode(s.drop_last()) + encode_char(s.last())
    }
}

/// What percent-decoding `s` and reading the bytes as UTF-8 gives; `None`
/// where the bytes are no UTF-8.
pub uninterp spec fn percent_decoded(s: Seq<char>) -> Option<Seq<char>>;

/// Relies on percent_encoding::percent_encode_byte: the three characters
/// `%XY`, with `XY` the byte in upper-case hexadecimal.
#[verifier::external_body]
fn percent_byte(b: u8) -> (r: &'static str)
    ensures
        r@ == percent_triplet(b),
{
    percent_encoding::percent_encode_byte(b)
}

/// Relies on percent_encoding::percent_decode_str and
/// PercentDecode::decode_utf8: the decoded text, or `None` when the decoded
/// bytes are no UTF-8. A text without `%` decodes to itself.
#[verifier::external_body]
fn percent_decode_text(s: &str) -> (r: Option<String>)
    ensures
        r is None <==> percent_decoded(s@) is None,
        r is Some ==> percent_decoded(s@) == Some(r->Some_0@),
        !s@.contains('%') ==> r is Some && r->Some_0@ == s@,
{
    match percent_encoding::percent_decode_str(s).decode_utf8() {
        Ok(t) => Some(t.into_owned()),
        Err(_) => None,
    }
}

fn is_fragment_byte(b: u8) -> (r: bool)
    ensures
        r == in_fragment_set(b),
{
    b < 0x20 || b == 0x7F || b == 0x20 || b == 0x22 || b == 0x3C || b == 0x3E || b == 0x60
}

/// Text given to `UrlPartUtf8String::decode` that is not UTF-8 once decoded.
#[derive(Clone, Copy, Debug, PartialEq, Eq)]
pub struct InvalidUtf8;

/// One part of a URL path (between two slashes), held decoded. Each part is
/// encoded and decoded on its own, so a `/` inside a part stays a character.
#[derive(Clone, Debug)]
pub struct UrlPartUtf8String {
    s: String,
}

impl View for UrlPartUtf8String {
    type V = Seq<char>;

    closed spec fn view(&self) -> Seq<char> {
        self.s@
    }
}

impl UrlPartUtf8String {
    /// A part from its decoded text.
    pub fn new_from_decoded_string(s: &str) -> (r: UrlPartUtf8String)
        ensures
            r@ == s@,
    {
        UrlPartUtf8String { s: s.to_owned() }
    }

    /// The part from its encoded text: fails where the decoded bytes are no UTF-8.
    pub fn decode(s: &str) -> (r: Result<UrlPartUtf8String, InvalidUtf8>)
        ensures
            match r {
                Ok(p) => percent_decoded(s@) == Some(p@),
                Err(_) => percent_decoded(s@) is None,
            },
            !s@.contains('%') ==> (r matches Ok(p) && p@ == s@),
    {
        match percent_decode_text(s) {
            Some(t) => Ok(UrlPartUtf8String { s: t }),
            None => Err(InvalidUtf8),
        }
    }

    /// The encoded text of this part.
    pub fn get_encoded_string(&self) -> (r: String)
        ensures
            r@ == fragment_encode(self@),
    {
        Self::encode_fragment(self.s.as_str())
    }

    /// The decoded text of this part.
    pub fn to_string(&self) -> (r: String)
        ensures
            r@ == self@,
    {
        self.s.clone()
    }

    /// Percent-encodes `s` with the fragment set.
    pub fn encode_fragment(s: &str) -> (r: String)
        ensures
            r@ == fragment_encode(s@),
    {
        let n = s.unicode_len();
        let mut out = String::new();
        let mut i: usize = 0;
        assert(s@.subrange(0, 0) =~= Seq::<char>::empty());
        while i < n
            invariant
                n == s@.len(),
                i <= n,
                out@ == fragment_encode(s@.subrange(0, i as int)),
            decreases n - i,
        {
            let one = s.substring_char(i, i + 1);
            let ghost c = s@[i as int];
            assert(one@ =~= seq![c]);
            assert(s@.subrange(0, i + 1).drop_last() =~= s@.subrange(0, i as int));
            let bytes = one.as_bytes();
            proof {
                reveal_with_fuel(encode_utf8, 2);
                assert(seq![c].drop_first() =~= Seq::<char>::empty());
                assert(encode_utf8(seq![c]) =~= encode_scalar(c as u32));
                char_is_scalar(c);
                let u = c as u32;
                if u < 0x80 {
                    assert((u & 0x7F) as u8 == u as u8) by (bit_vector)
                        requires
                            u < 0x80,
                    ;
                }
            }
            if bytes.len() == 1 && bytes[0] < 0x80 && !is_fragment_byte(bytes[0]) {
                out.append(one);
            } else {
                let ghost before = out@;
                let mut k: usize = 0;
                assert(bytes@.subrange(0, 0) =~= Seq::<u8>::empty());
                while k < bytes.len()
                    invariant
                        k <= bytes@.len(),
                        out@ == before + percent_bytes(bytes@.subrange(0, k as int)),
                    decreases bytes@.len() - k,
                {
                    assert(bytes@.subrange(0, k + 1).drop_last() =~= bytes@.subrange(0, k as int));
                    out.append(percent_byte(bytes[k]));
                    assert(out@ =~= before + percent_bytes(bytes@.subrange(0, k + 1)));
                    k = k + 1;
                }
                assert(bytes@.subrange(0, k as int) =~= bytes@);
            }
            i = i + 1;
        }
        assert(s@.subrange(0, i as int) =~= s@);
        out
    }
}

impl core::str::FromStr for UrlPartUtf8String {
    type Err = InvalidUtf8;

    fn from_str(s: &str) -> Result<UrlPartUtf8String, InvalidUtf8> {
        UrlPartUtf8String::decode(s)
    }
}

} // verus!
