use vstd::prelude::*;

use crate::util::text::{chars_of, string_from_chars};

verus! {

pub open spec fn is_digit(b: u8) -> bool {
    48 <= b <= 57
}

/// How many ASCII digits the bytes start with.
pub open spec fn digit_prefix_len(s: Seq<u8>) -> nat
    decreases s.len(),
{
    if s.len() == 0 || !is_digit(s[0]) {
        0
    } else {
        1 + digit_prefix_len(s.drop_first())
    }
}

/// The number that a string of ASCII digits spells in decimal.
pub open spec fn digits_value(s: Seq<u8>) -> nat
    decreases s.len(),
{
    if s.len() == 0 {
        0
    } else {
        10 * digits_value(s.drop_last()) + (s.last() - 48) as nat
    }
}

/// The decimal digits of a number, most significant first, without leading zeroes.
pub open spec fn decimal(n: nat) -> Seq<u8>
    decreases n,
{
    if n < 10 {
        seq![(48 + n) as u8]
    } else {
        decimal(n / 10).push((48 + n % 10) as u8)
    }
}

/// The bytes after the prefix, if they start with it.
pub open spec fn strip(s: Seq<u8>, prefix: Seq<u8>) -> Option<Seq<u8>> {
    if prefix.len() <= s.len() && s.subrange(0, prefix.len() as int) == prefix {
        Some(s.subrange(prefix.len() as int, s.len() as int))
    } else {
        None
    }
}

/// The number the bytes start with and the bytes after it; no number if they don't start
/// with a digit or if the number doesn't fit in a usize (then nothing is consumed).
pub open spec fn spec_number(s: Seq<u8>) -> (Option<usize>, Seq<u8>) {
    let n = digit_prefix_len(s);
    if n == 0 || digits_value(s.subrange(0, n as int)) > usize::MAX {
        (None, s)
    } else {
        (Some(digits_value(s.subrange(0, n as int)) as usize), s.subrange(n as int, s.len() as int))
    }
}

pub open spec fn magic_lf() -> Seq<u8> { seq![80u8, 54, 10] }
pub open spec fn magic_crlf() -> Seq<u8> { seq![80u8, 54, 13, 10] }
pub open spec fn space() -> Seq<u8> { seq![32u8] }
pub open spec fn max_color_lf() -> Seq<u8> { seq![10u8, 50, 53, 53, 10] }
pub open spec fn max_color_crlf() -> Seq<u8> { seq![13u8, 10, 50, 53, 53, 13, 10] }

/// Strips whichever of the two prefixes the bytes start with, trying the first one first.
pub open spec fn strip_either(s: Seq<u8>, first: Seq<u8>, second: Seq<u8>) -> Option<Seq<u8>> {
    match strip(s, first) {
        Some(rest) => Some(rest),
        None => strip(s, second),
    }
}

/// The header of a binary PPM: the width, the height and the pixel data after the header.
pub open spec fn spec_parse(raw: Seq<u8>) -> Option<(usize, usize, Seq<u8>)> {
    match strip_either(raw, magic_lf(), magic_crlf()) {
        None => None,
        Some(s1) => match spec_number(s1) {
            (None, _) => None,
            (Some(width), s2) => match strip(s2, space()) {
                None => None,
                Some(s3) => match spec_number(s3) {
                    (None, _) => None,
                    (Some(height), s4) => match strip_either(s4, max_color_lf(), max_color_crlf()) {
                        None => None,
                        Some(data) => Some((width, height, data)),
                    },
                },
            },
        },
    }
}

/// A binary PPM is valid when its pixel data holds three bytes for each pixel.
pub open spec fn spec_from_bytes(raw: Seq<u8>) -> Option<(usize, usize, Seq<u8>)> {
    match spec_parse(raw) {
        Some((w, h, data)) => if data.len() == 3 * w * h {
            Some((w, h, data))
        } else {
            None
        },
        None => None,
    }
}

/// The decimal digits of a number, as characters.
pub open spec fn decimal_chars(n: nat) -> Seq<char> {
    decimal(n).map_values(|b: u8| b as char)
}

/// Why a byte string is not a binary PPM: the message for the first step of the header that
/// fails, or for pixel data of the wrong length.
pub open spec fn spec_from_bytes_error(raw: Seq<u8>) -> Seq<char> {
    match strip_either(raw, magic_lf(), magic_crlf()) {
        None => "PPM magic value missing."@,
        Some(s1) => match spec_number(s1) {
            (None, _) => "Width missing"@,
            (Some(width), s2) => match strip(s2, space()) {
                None => "Space missing between width and height."@,
                Some(s3) => match spec_number(s3) {
                    (None, _) => "Height missing"@,
                    (Some(height), s4) => match strip_either(s4, max_color_lf(), max_color_crlf()) {
                        None => "Max color value incorrect or missing."@,
                        Some(data) => length_mismatch((3 * width * height) as nat, data.len()),
                    },
                },
            },
        },
    }
}

/// The message for pixel data of the wrong length.
pub open spec fn length_mismatch(expected: nat, actual: nat) -> Seq<char> {
    "Expected PPM data length to be "@ + decimal_chars(expected) + " but was "@ + decimal_chars(actual) + "."@
}

/// The message for pixel data of the wrong length.
fn length_mismatch_message(expected: usize, actual: usize) -> (r: String)
    ensures
        r@ == length_mismatch(expected as nat, actual as nat),
{
    let mut message = chars_of("Expected PPM data length to be ");
    push_decimal_chars(&mut message, expected);
    let mut middle = chars_of(" but was ");
    message.append(&mut middle);
    push_decimal_chars(&mut message, actual);
    let mut end = chars_of(".");
    message.append(&mut end);
    string_from_chars(&message)
}

/// Appends the decimal digits of a number, as characters.
fn push_decimal_chars(chars: &mut Vec<char>, n: usize)
    ensures
        final(chars)@ == old(chars)@ + decimal_chars(n as nat),
    decreases n,
{
    if n < 10 {
        let digit = (48 + n) as u8;
        chars.push(digit as char);
        proof {
            assert(decimal(n as nat) =~= seq![digit]);
            assert(decimal_chars(n as nat) =~= seq![digit as char]);
            assert(old(chars)@.push(digit as char) =~= old(chars)@ + decimal_chars(n as nat));
        }
    } else {
        push_decimal_chars(chars, n / 10);
        let digit = (48 + n % 10) as u8;
        chars.push(digit as char);
        proof {
            let high = decimal((n / 10) as nat);
            assert(decimal(n as nat) == high.push(digit));
            assert(decimal_chars(n as nat) =~= decimal_chars((n / 10) as nat).push(digit as char));
            assert(old(chars)@ + decimal_chars((n / 10) as nat).push(digit as char)
                =~= (old(chars)@ + decimal_chars((n / 10) as nat)).push(digit as char));
        }
    }
}

/// The bytes of a binary PPM: its header, then its pixel data.
pub open spec fn spec_to_bytes(width: usize, height: usize, data: Seq<u8>) -> Seq<u8> {
    magic_lf() + decimal(width as nat) + space() + decimal(height as nat) + max_color_lf() + data
}

/// An image in the binary (P6) Portable PixMap format: three bytes (red, green, blue) for each pixel.
pub struct Ppm {
    data: Vec<u8>,
    pixel_width: usize,
    pixel_height: usize,
}

impl Ppm {
    pub closed spec fn spec_data(&self) -> Seq<u8> { self.data@ }
    pub closed spec fn spec_width(&self) -> usize { self.pixel_width }
    pub closed spec fn spec_height(&self) -> usize { self.pixel_height }

    pub open spec fn wf(&self) -> bool {
        self.spec_data().len() == 3 * self.spec_width() * self.spec_height()
    }

    pub fn new(data: Vec<u8>, pixel_width: usize, pixel_height: usize) -> (r: Ppm)
        requires
            data@.len() == 3 * pixel_width * pixel_height,
        ensures
            r.wf(),
            r.spec_data() == data@,
            r.spec_width() == pixel_width,
            r.spec_height() == pixel_height,
    {
        Self { data, pixel_width, pixel_height }
    }

    /// Parses a binary PPM with a maximum color value of 255 and Unix or Windows line endings.
    pub fn from_bytes(raw: &[u8]) -> (r: Result<Ppm, String>)
        requires
            spec_parse(raw@) matches Some((w, h, _)) ==> 3 * w <= usize::MAX && 3 * w * h <= usize::MAX,
        ensures
            r is Ok <==> spec_from_bytes(raw@) is Some,
            r matches Ok(ppm) ==> ppm.wf() && spec_from_bytes(raw@) == Some(
                (ppm.spec_width(), ppm.spec_height(), ppm.spec_data()),
            ),
            r matches Err(message) ==> message@ == spec_from_bytes_error(raw@),
    {
        let magic_lf_bytes: [u8; 3] = [80, 54, 10];
        let magic_crlf_bytes: [u8; 4] = [80, 54, 13, 10];
        let space_bytes: [u8; 1] = [32];
        let max_lf_bytes: [u8; 5] = [10, 50, 53, 53, 10];
        let max_crlf_bytes: [u8; 7] = [13, 10, 50, 53, 53, 13, 10];
        proof {
            assert(magic_lf_bytes@ =~= magic_lf());
            assert(magic_crlf_bytes@ =~= magic_crlf());
            assert(space_bytes@ =~= space());
            assert(max_lf_bytes@ =~= max_color_lf());
            assert(max_crlf_bytes@ =~= max_color_crlf());
        }
        let mut parser = Parser::new(raw);
        let magic_present = parser.exact(&magic_lf_bytes) || parser.exact(&magic_crlf_bytes);
        if !magic_present {
            return Err(String::from_str("PPM magic value missing."));
        }
        let ghost s1 = parser.spec_remaining();
        assert(strip_either(raw@, magic_lf(), magic_crlf()) == Some(s1));
        let pixel_width = match parser.number() {
            Some(w) => w,
            None => return Err(String::from_str("Width missing")),
        };
        let ghost s2 = parser.spec_remaining();
        assert(spec_number(s1) == (Some(pixel_width), s2));
        let space_present = parser.exact(&space_bytes);
        if !space_present {
            return Err(String::from_str("Space missing between width and height."));
        }
        let ghost s3 = parser.spec_remaining();
        let pixel_height = match parser.number() {
            Some(h) => h,
            None => return Err(String::from_str("Height missing")),
        };
        let ghost s4 = parser.spec_remaining();
        let correct_max_color_value = parser.exact(&max_lf_bytes) || parser.exact(&max_crlf_bytes);
        if !correct_max_color_value {
            return Err(String::from_str("Max color value incorrect or missing."));
        }
        let rest = parser.remainder();
        assert(spec_parse(raw@) == Some((pixel_width, pixel_height, rest@)));
        let expected_len = 3 * pixel_width * pixel_height;
        if rest.len() != expected_len {
            return Err(length_mismatch_message(expected_len, rest.len()));
        }
        let data = copy_bytes(rest);
        Ok(Self { data, pixel_width, pixel_height })
    }

    /// The header followed by the pixel data.
    pub fn to_bytes(&self) -> (r: Vec<u8>)
        ensures
            r@ == spec_to_bytes(self.spec_width(), self.spec_height(), self.spec_data()),
    {
        let mut bytes: Vec<u8> = Vec::new();
        bytes.push(80);
        bytes.push(54);
        bytes.push(10);
        push_decimal(&mut bytes, self.pixel_width);
        bytes.push(32);
        push_decimal(&mut bytes, self.pixel_height);
        bytes.push(10);
        bytes.push(50);
        bytes.push(53);
        bytes.push(53);
        bytes.push(10);
        let mut i: usize = 0;
        let ghost prefix = bytes@;
        while i < self.data.len()
            invariant
                i <= self.data@.len(),
                bytes@ == prefix + self.data@.subrange(0, i as int),
            decreases self.data@.len() - i,
        {
            bytes.push(self.data[i]);
            i = i + 1;
            proof {
                assert(self.data@.subrange(0, i as int) =~= self.data@.subrange(0, i - 1).push(self.data@[i - 1]));
            }
        }
        proof {
            assert(self.data@.subrange(0, self.data@.len() as int) =~= self.data@);
            assert(bytes@ =~= spec_to_bytes(self.pixel_width, self.pixel_height, self.data@));
        }
        bytes
    }
}

/// A vector holding the same bytes as the slice.
pub fn copy_bytes(bytes: &[u8]) -> (r: Vec<u8>)
    ensures
        r@ == bytes@,
{
    let mut r: Vec<u8> = Vec::new();
    let mut i: usize = 0;
    while i < bytes.len()
        invariant
            i <= bytes@.len(),
            r@ == bytes@.subrange(0, i as int),
        decreases bytes@.len() - i,
    {
        r.push(bytes[i]);
        i = i + 1;
        proof {
            assert(bytes@.subrange(0, i as int) =~= bytes@.subrange(0, i - 1).push(bytes@[i - 1]));
        }
    }
    proof {
        assert(bytes@.subrange(0, bytes@.len() as int) =~= bytes@);
    }
    r
}

/// Appends the decimal digits of a number.
fn push_decimal(bytes: &mut Vec<u8>, n: usize)
    ensures
        final(bytes)@ == old(bytes)@ + decimal(n as nat),
    decreases n,
{
    if n < 10 {
        bytes.push((48 + n) as u8);
        proof {
            assert(old(bytes)@.push((48 + n) as u8) =~= old(bytes)@ + decimal(n as nat));
        }
    } else {
        push_decimal(bytes, n / 10);
        bytes.push((48 + n % 10) as u8);
        proof {
            assert(decimal(n as nat) == decimal((n / 10) as nat).push((48 + n % 10) as u8));
            assert(old(bytes)@ + decimal((n / 10) as nat).push((48 + n % 10) as u8)
                =~= (old(bytes)@ + decimal((n / 10) as nat)).push((48 + n % 10) as u8));
        }
    }
}

/// Reads a byte string from front to back.
pub struct Parser<'a> {
    data: &'a [u8],
}

impl<'a> Parser<'a> {
    pub closed spec fn spec_remaining(&self) -> Seq<u8> {
        self.data@
    }

    pub fn new(data: &'a [u8]) -> (r: Self)
        ensures
            r.spec_remaining() == data@,
    {
        Self { data }
    }

    /// Consumes the prefix if the remaining bytes start with it. Returns whether they did.
    pub fn exact(&mut self, prefix: &[u8]) -> (r: bool)
        ensures
            r == strip(old(self).spec_remaining(), prefix@) is Some,
            final(self).spec_remaining() == (match strip(old(self).spec_remaining(), prefix@) {
                Some(rest) => rest,
                None => old(self).spec_remaining(),
            }),
    {
        let n = prefix.len();
        if n > self.data.len() {
            return false;
        }
        let mut i: usize = 0;
        while i < n
            invariant
                n == prefix@.len(),
                n <= self.data@.len(),
                i <= n,
                forall|j: int| 0 <= j < i ==> self.data@[j] == prefix@[j],
            decreases n - i,
        {
            if self.data[i] != prefix[i] {
                proof {
                    assert(self.data@.subrange(0, n as int)[i as int] != prefix@[i as int]);
                }
                return false;
            }
            i = i + 1;
        }
        proof {
            assert(self.data@.subrange(0, n as int) =~= prefix@);
        }
        let len = self.data.len();
        self.data = &self.data[n..len];
        true
    }

    /// Consumes the decimal number that the remaining bytes start with, if there is one that
    /// fits in a usize. Otherwise consumes nothing.
    pub fn number(&mut self) -> (r: Option<usize>)
        ensures
            (r, final(self).spec_remaining()) == spec_number(old(self).spec_remaining()),
    {
        let ghost s = self.data@;
        let mut output: Option<usize> = None;
        let mut num_len: usize = 0;
        let len = self.data.len();
        while num_len < len
            invariant
                s == self.data@,
                len == s.len(),
                num_len <= len,
                num_len <= digit_prefix_len(s),
                forall|j: int| 0 <= j < num_len ==> is_digit(#[trigger] s[j]),
                output == (if num_len == 0 { None } else { Some(digits_value(s.subrange(0, num_len as int)) as usize) }),
                digits_value(s.subrange(0, num_len as int)) <= usize::MAX,
            ensures
                num_len == len || digit_prefix_len(s) == num_len,
                num_len <= len,
                num_len <= digit_prefix_len(s),
                output == (if num_len == 0 { None } else { Some(digits_value(s.subrange(0, num_len as int)) as usize) }),
                digits_value(s.subrange(0, num_len as int)) <= usize::MAX,
            decreases len - num_len,
        {
            let digit = self.data[num_len];
            if !(48 <= digit && digit <= 57) {
                proof {
                    lemma_digit_prefix_stops(s, num_len as int);
                }
                break;
            }
            proof {
                lemma_digit_prefix_continues(s, num_len as int);
                assert(s.subrange(0, num_len + 1).drop_last() =~= s.subrange(0, num_len as int));
            }
            let d = (digit - 48) as usize;
            match output {
                Some(o) => {
                    let m = match o.checked_mul(10) {
                        Some(m) => m,
                        None => {
                            proof {
                                lemma_digit_prefix_bounded(s);
                                lemma_digits_value_grows(s, num_len + 1, digit_prefix_len(s) as int);
                            }
                            return None;
                        }
                    };
                    let a = match m.checked_add(d) {
                        Some(a) => a,
                        None => {
                            proof {
                                lemma_digit_prefix_bounded(s);
                                lemma_digits_value_grows(s, num_len + 1, digit_prefix_len(s) as int);
                            }
                            return None;
                        }
                    };
                    output = Some(a);
                }
                None => {
                    assert(s.subrange(0, 0) =~= Seq::<u8>::empty());
                    output = Some(d);
                }
            }
            num_len = num_len + 1;
        }
        proof {
            lemma_digit_prefix_bounded(s);
            assert(s.subrange(0, len as int) =~= s);
        }
        self.data = &self.data[num_len..len];
        output
    }

    pub fn remainder(&self) -> (r: &[u8])
        ensures
            r@ == self.spec_remaining(),
    {
        self.data
    }
}

proof fn lemma_digit_prefix_bounded(s: Seq<u8>)
    ensures
        digit_prefix_len(s) <= s.len(),
    decreases s.len(),
{
    if s.len() > 0 && is_digit(s[0]) {
        lemma_digit_prefix_bounded(s.drop_first());
    }
}

/// A run of digits at the front continues past `i` if byte `i` is a digit.
proof fn lemma_digit_prefix_continues(s: Seq<u8>, i: int)
    requires
        0 <= i < s.len(),
        forall|j: int| 0 <= j < i ==> is_digit(#[trigger] s[j]),
        is_digit(s[i]),
    ensures
        digit_prefix_len(s) >= i + 1,
    decreases i,
{
    if i > 0 {
        let t = s.drop_first();
        assert forall|j: int| 0 <= j < i - 1 implies is_digit(#[trigger] t[j]) by {
            assert(t[j] == s[j + 1]);
        }
        lemma_digit_prefix_continues(t, i - 1);
    }
}

/// The run of digits at the front ends at the first byte that is not a digit.
proof fn lemma_digit_prefix_stops(s: Seq<u8>, i: int)
    requires
        0 <= i < s.len(),
        forall|j: int| 0 <= j < i ==> is_digit(#[trigger] s[j]),
        !is_digit(s[i]),
    ensures
        digit_prefix_len(s) == i,
    decreases i,
{
    if i > 0 {
        let t = s.drop_first();
        assert forall|j: int| 0 <= j < i - 1 implies is_digit(#[trigger] t[j]) by {
            assert(t[j] == s[j + 1]);
        }
        lemma_digit_prefix_stops(t, i - 1);
    }
}

/// Reading more digits never makes the number smaller.
proof fn lemma_digits_value_grows(s: Seq<u8>, i: int, j: int)
    requires
        0 <= i <= j <= s.len(),
    ensures
        digits_value(s.subrange(0, i)) <= digits_value(s.subrange(0, j)),
    decreases j - i,
{
    if i < j {
        lemma_digits_value_grows(s, i, j - 1);
        assert(s.subrange(0, j).drop_last() =~= s.subrange(0, j - 1));
    }
}

proof fn lemma_decimal_digits(n: nat)
    ensures
        decimal(n).len() >= 1,
        forall|i: int| 0 <= i < decimal(n).len() ==> is_digit(#[trigger] decimal(n)[i]),
        digits_value(decimal(n)) == n,
    decreases n,
{
    if n >= 10 {
        lemma_decimal_digits(n / 10);
        let d = decimal(n / 10);
        assert(decimal(n).drop_last() =~= d);
        let last: u8 = (48 + n % 10) as u8;
        assert(last == 48 + n % 10);
        assert(decimal(n).last() == last);
        assert(digits_value(decimal(n)) == 10 * digits_value(d) + (last - 48) as nat);
        assert(n == 10 * (n / 10) + n % 10);
    } else {
        assert(decimal(n).drop_last() =~= Seq::<u8>::empty());
        let last: u8 = (48 + n) as u8;
        assert(last == 48 + n);
        assert(digits_value(decimal(n)) == 10 * digits_value(Seq::<u8>::empty()) + (last - 48) as nat);
    }
}

proof fn lemma_digit_prefix_of_digits(d: Seq<u8>, rest: Seq<u8>)
    requires
        forall|i: int| 0 <= i < d.len() ==> is_digit(#[trigger] d[i]),
        rest.len() > 0,
        !is_digit(rest[0]),
    ensures
        digit_prefix_len(d + rest) == d.len(),
    decreases d.len(),
{
    if d.len() == 0 {
        assert(d + rest =~= rest);
    } else {
        let t = d.drop_first();
        assert((d + rest).drop_first() =~= t + rest);
        assert forall|i: int| 0 <= i < t.len() implies is_digit(#[trigger] t[i]) by {
            assert(t[i] == d[i + 1]);
        }
        lemma_digit_prefix_of_digits(t, rest);
    }
}

proof fn lemma_number_of_decimal(n: usize, rest: Seq<u8>)
    requires
        rest.len() > 0,
        !is_digit(rest[0]),
    ensures
        spec_number(decimal(n as nat) + rest) == (Some(n), rest),
{
    let d = decimal(n as nat);
    lemma_decimal_digits(n as nat);
    lemma_digit_prefix_of_digits(d, rest);
    assert((d + rest).subrange(0, d.len() as int) =~= d);
    assert((d + rest).subrange(d.len() as int, (d + rest).len() as int) =~= rest);
}

/// The bytes of an image read back as the same image.
pub proof fn lemma_ppm_roundtrip(width: usize, height: usize, data: Seq<u8>)
    requires
        data.len() == 3 * width * height,
    ensures
        spec_from_bytes(spec_to_bytes(width, height, data)) == Some((width, height, data)),
{
    let dw = decimal(width as nat);
    let dh = decimal(height as nat);
    let bytes = spec_to_bytes(width, height, data);
    let s1 = dw + space() + dh + max_color_lf() + data;
    assert(bytes =~= magic_lf() + s1);
    assert(bytes.subrange(0, 3) =~= magic_lf());
    assert(bytes.subrange(3, bytes.len() as int) =~= s1);
    let rest1 = space() + dh + max_color_lf() + data;
    assert(s1 =~= dw + rest1);
    lemma_number_of_decimal(width, rest1);
    let s3 = dh + max_color_lf() + data;
    assert(rest1.subrange(0, 1) =~= space());
    assert(rest1.subrange(1, rest1.len() as int) =~= s3);
    let rest2 = max_color_lf() + data;
    assert(s3 =~= dh + rest2);
    lemma_number_of_decimal(height, rest2);
    assert(rest2.subrange(0, 5) =~= max_color_lf());
    assert(rest2.subrange(5, rest2.len() as int) =~= data);
}

} // verus!
