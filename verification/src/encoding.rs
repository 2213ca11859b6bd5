//! Encodings used when building request URLs and credentials.
//!
//! Query parameters are encoded as `application/x-www-form-urlencoded`:
//! ASCII alphanumerics and `*`, `-`, `.`, `_` stand for themselves, a space
//! becomes `+`, and every other byte of the value's UTF-8 form becomes `%`
//! followed by two upper-case hex digits.

use vstd::prelude::*;
use vstd::string::*;
use vstd::utf8::encode_utf8;

verus! {

/// Bytes that stand for themselves in a form-urlencoded string.
pub open spec fn is_unreserved_byte(b: u8) -> bool {
    (0x30 <= b <= 0x39) || (0x41 <= b <= 0x5A) || (0x61 <= b <= 0x7A) || b == 0x2A || b == 0x2D
        || b == 0x2E || b == 0x5F
}

/// The upper-case hex digit for `n`.
pub open spec fn hex_upper(n: int) -> char
    recommends
        0 <= n < 16,
{
    if n < 10 {
        ((0x30 + n) as u8) as char
    } else {
        ((0x41 + (n - 10)) as u8) as char
    }
}

/// How one byte is rendered in a form-urlencoded string.
pub open spec fn encode_byte(b: u8) -> Seq<char> {
    if is_unreserved_byte(b) {
        seq![b as char]
    } else if b == 0x20 {
        seq!['+']
    } else {
        seq!['%', hex_upper(b as int / 16), hex_upper(b as int % 16)]
    }
}

/// The form-urlencoded rendering of a byte string.
pub open spec fn form_encoded_bytes(s: Seq<u8>) -> Seq<char>
    decreases s.len(),
{
    if s.len() == 0 {
        Seq::empty()
    } else {
        encode_byte(s[0]) + form_encoded_bytes(s.drop_first())
    }
}

/// The form-urlencoded rendering of a character string: its UTF-8 bytes,
/// rendered byte by byte.
pub open spec fn form_encoded(s: Seq<char>) -> Seq<char> {
    form_encoded_bytes(encode_utf8(s))
}

proof fn lemma_form_encoded_bytes_append(a: Seq<u8>, b: Seq<u8>)
    ensures
        form_encoded_bytes(a + b) == form_encoded_bytes(a) + form_encoded_bytes(b),
    decreases a.len(),
{
    if a.len() == 0 {
        assert(a + b =~= b);
        assert(form_encoded_bytes(a) + form_encoded_bytes(b) =~= form_encoded_bytes(b));
    } else {
        assert((a + b).drop_first() =~= a.drop_first() + b);
        lemma_form_encoded_bytes_append(a.drop_first(), b);
        assert(encode_byte(a[0]) + (form_encoded_bytes(a.drop_first()) + form_encoded_bytes(b))
            =~= (encode_byte(a[0]) + form_encoded_bytes(a.drop_first())) + form_encoded_bytes(b));
    }
}

/// Relies on `String::push`: it appends exactly the one character.
#[verifier::external_body]
pub(crate) fn push_char(s: &mut String, c: char)
    ensures
        final(s)@ == old(s)@ + seq![c],
{
    s.push(c);
}

fn hex_upper_char(n: u8) -> (c: char)
    requires
        n < 16,
    ensures
        c == hex_upper(n as int),
{
    if n < 10 {
        (0x30 + n) as char
    } else {
        (0x41 + (n - 10)) as char
    }
}

/// The form-urlencoded rendering of `s`.
pub fn form_urlencode(s: &str) -> (r: String)
    ensures
        r@ == form_encoded(s@),
{
    let bytes = s.as_bytes_vec();
    let n = bytes.len();
    let mut out = String::new();
    let mut i: usize = 0;
    proof {
        assert(bytes@.take(0) =~= Seq::<u8>::empty());
    }
    while i < n
        invariant
            n == bytes@.len(),
            i <= n,
            out@ == form_encoded_bytes(bytes@.take(i as int)),
        decreases n - i,
    {
        let ghost prefix = bytes@.take(i as int);
        let b = bytes[i];
        if (0x30 <= b && b <= 0x39) || (0x41 <= b && b <= 0x5A) || (0x61 <= b && b <= 0x7A) || b
            == 0x2A || b == 0x2D || b == 0x2E || b == 0x5F {
            push_char(&mut out, b as char);
        } else if b == 0x20 {
            push_char(&mut out, '+');
        } else {
            push_char(&mut out, '%');
            let hi = b >> 4;
            let lo = b & 0x0F;
            proof {
                assert(hi == b as int / 16 && lo == b as int % 16 && hi < 16 && lo < 16)
                    by (bit_vector)
                    requires
                        hi == b >> 4 && lo == b & 0x0F,
                ;
            }
            push_char(&mut out, hex_upper_char(hi));
            push_char(&mut out, hex_upper_char(lo));
        }
        proof {
            assert(bytes@.take(i + 1) =~= prefix + seq![bytes@[i as int]]);
            lemma_form_encoded_bytes_append(prefix, seq![bytes@[i as int]]);
            assert(seq![bytes@[i as int]].drop_first() =~= Seq::<u8>::empty());
            assert(form_encoded_bytes(Seq::<u8>::empty()) =~= Seq::<char>::empty());
            assert(form_encoded_bytes(seq![bytes@[i as int]]) =~= encode_byte(bytes@[i as int]));
            assert(out@ =~= form_encoded_bytes(bytes@.take(i + 1)));
        }
        i = i + 1;
    }
    proof {
        assert(bytes@.take(n as int) =~= bytes@);
    }
    out
}

/// The decimal digit character for `n`.
pub open spec fn dec_digit(n: int) -> char
    recommends
        0 <= n < 10,
{
    ((0x30 + n) as u8) as char
}

/// The decimal rendering of `n`, without a sign and without leading zeros.
pub open spec fn dec_str(n: nat) -> Seq<char>
    decreases n,
{
    if n < 10 {
        seq![dec_digit(n as int)]
    } else {
        dec_str(n / 10).push(dec_digit((n % 10) as int))
    }
}

/// The decimal rendering of `n`.
pub fn u64_to_dec(n: u64) -> (r: String)
    ensures
        r@ == dec_str(n as nat),
    decreases n,
{
    if n < 10 {
        let mut s = String::new();
        push_char(&mut s, (0x30 + n as u8) as char);
        proof {
            assert(s@ =~= dec_str(n as nat));
        }
        s
    } else {
        let mut s = u64_to_dec(n / 10);
        push_char(&mut s, (0x30 + (n % 10) as u8) as char);
        proof {
            assert(s@ =~= dec_str(n as nat));
        }
        s
    }
}

/// The rendering of `b` as a query value.
pub open spec fn bool_str(b: bool) -> Seq<char> {
    if b {
        "true"@
    } else {
        "false"@
    }
}

/// The rendering of `b` as a query value.
pub fn bool_to_str(b: bool) -> (r: &'static str)
    ensures
        r@ == bool_str(b),
{
    if b {
        "true"
    } else {
        "false"
    }
}

/// What base64 makes of the UTF-8 bytes of a character string, with the
/// standard alphabet and padding.
pub uninterp spec fn base64_of(s: Seq<char>) -> Seq<char>;

/// Relies on base64's `Engine::encode` with the standard engine: the result
/// is a function of the input bytes alone.
#[verifier::external_body]
pub(crate) fn to_base64(s: &str) -> (r: String)
    ensures
        r@ == base64_of(s@),
{
    base64::Engine::encode(&base64::engine::general_purpose::STANDARD, s.as_bytes())
}

/// One `key=value` query pair, both sides form-urlencoded.
pub open spec fn query_pair(k: Seq<char>, v: Seq<char>) -> Seq<char> {
    form_encoded(k) + "="@ + form_encoded(v)
}

/// `q` extended with one `key=value` pair, `&`-separated once `q` is
/// non-empty.
pub open spec fn with_pair(q: Seq<char>, k: Seq<char>, v: Seq<char>) -> Seq<char> {
    if q.len() == 0 {
        query_pair(k, v)
    } else {
        q + "&"@ + query_pair(k, v)
    }
}

/// A query string under construction, pair by pair.
pub struct QueryString {
    s: String,
}

impl QueryString {
    /// The characters accumulated so far, without a leading `?`.
    pub closed spec fn query(self) -> Seq<char> {
        self.s@
    }

    /// An empty query string.
    pub fn new() -> (r: QueryString)
        ensures
            r.query() == Seq::<char>::empty(),
    {
        QueryString { s: String::new() }
    }

    /// Appends the pair `k=v`, form-urlencoding both sides.
    pub fn add(&mut self, k: &str, v: &str)
        ensures
            final(self).query() == with_pair(old(self).query(), k@, v@),
    {
        if !self.s.as_str().is_empty() {
            self.s.append("&");
        }
        let ek = form_urlencode(k);
        self.s.append(ek.as_str());
        self.s.append("=");
        let ev = form_urlencode(v);
        self.s.append(ev.as_str());
    }

    /// The finished query string.
    pub fn into_string(self) -> (r: String)
        ensures
            r@ == self.query(),
    {
        self.s
    }
}

} // verus!
