use vstd::prelude::*;

verus! {

broadcast use vstd::string::axiom_spec_iter;

/// The characters of a string.
pub fn chars_of(s: &str) -> (r: Vec<char>)
    ensures
        r@ == s@,
{
    let mut r: Vec<char> = Vec::new();
    for c in it: s.chars()
        invariant
            r@ == it.seq().take(it.index() as int),
            it.seq() == s@,
    {
        r.push(c);
    }
    r
}

/// A string of the characters, collected with `String`'s `FromIterator`.
#[verifier::external_body]
pub(crate) fn string_from_chars(chars: &Vec<char>) -> (r: String)
    ensures
        r@ == chars@,
{
    chars.iter().collect()
}

/// Unicode white space (the `White_Space` property), as `char::is_whitespace` tests it.
pub open spec fn spec_is_whitespace(c: char) -> bool {
    let n = c as u32;
    ||| 0x09 <= n <= 0x0D
    ||| n == 0x20
    ||| n == 0x85
    ||| n == 0xA0
    ||| n == 0x1680
    ||| 0x2000 <= n <= 0x200A
    ||| n == 0x2028
    ||| n == 0x2029
    ||| n == 0x202F
    ||| n == 0x205F
    ||| n == 0x3000
}

pub fn is_whitespace(c: char) -> (r: bool)
    ensures
        r == spec_is_whitespace(c),
{
    let n = c as u32;
    (0x09 <= n && n <= 0x0D) || n == 0x20 || n == 0x85 || n == 0xA0 || n == 0x1680
        || (0x2000 <= n && n <= 0x200A) || n == 0x2028 || n == 0x2029 || n == 0x202F || n == 0x205F
        || n == 0x3000
}

/// The text without its leading white space.
pub open spec fn trim_start(s: Seq<char>) -> Seq<char>
    decreases s.len(),
{
    if s.len() > 0 && spec_is_whitespace(s[0]) {
        trim_start(s.drop_first())
    } else {
        s
    }
}

/// The text without its trailing white space.
pub open spec fn trim_end(s: Seq<char>) -> Seq<char>
    decreases s.len(),
{
    if s.len() > 0 && spec_is_whitespace(s.last()) {
        trim_end(s.drop_last())
    } else {
        s
    }
}

/// The text without leading and trailing white space, as `str::trim` gives it.
pub open spec fn trim(s: Seq<char>) -> Seq<char> {
    trim_end(trim_start(s))
}

proof fn lemma_trim_start_skips(s: Seq<char>, start: int)
    requires
        0 <= start <= s.len(),
        forall|i: int| 0 <= i < start ==> spec_is_whitespace(#[trigger] s[i]),
        start == s.len() || !spec_is_whitespace(s[start]),
    ensures
        trim_start(s) == s.subrange(start, s.len() as int),
    decreases start,
{
    if start == 0 {
        assert(s.subrange(0, s.len() as int) =~= s);
    } else {
        let t = s.drop_first();
        assert forall|i: int| 0 <= i < start - 1 implies spec_is_whitespace(#[trigger] t[i]) by {
            assert(t[i] == s[i + 1]);
        }
        lemma_trim_start_skips(t, start - 1);
        assert(t.subrange(start - 1, t.len() as int) =~= s.subrange(start, s.len() as int));
    }
}

proof fn lemma_trim_end_skips(s: Seq<char>, end: int)
    requires
        0 <= end <= s.len(),
        forall|i: int| end <= i < s.len() ==> spec_is_whitespace(#[trigger] s[i]),
        end == 0 || !spec_is_whitespace(s[end - 1]),
    ensures
        trim_end(s) == s.subrange(0, end),
    decreases s.len() - end,
{
    if end == s.len() {
        assert(s.subrange(0, end) =~= s);
    } else {
        let t = s.drop_last();
        assert forall|i: int| end <= i < t.len() implies spec_is_whitespace(#[trigger] t[i]) by {
            assert(t[i] == s[i]);
        }
        lemma_trim_end_skips(t, end);
        assert(t.subrange(0, end) =~= s.subrange(0, end));
    }
}

/// The characters of `s` from `start` up to `end`.
pub fn copy_chars(s: &Vec<char>, start: usize, end: usize) -> (r: Vec<char>)
    requires
        start <= end <= s@.len(),
    ensures
        r@ == s@.subrange(start as int, end as int),
{
    let mut r: Vec<char> = Vec::new();
    let mut i: usize = start;
    while i < end
        invariant
            start <= i <= end,
            end <= s@.len(),
            r@ == s@.subrange(start as int, i as int),
        decreases end - i,
    {
        r.push(s[i]);
        i = i + 1;
        proof {
            assert(s@.subrange(start as int, i as int) =~= s@.subrange(start as int, i - 1).push(s@[i - 1]));
        }
    }
    r
}

/// The text without leading and trailing white space.
pub fn trim_chars(s: &Vec<char>) -> (r: Vec<char>)
    ensures
        r@ == trim(s@),
{
    let mut start: usize = 0;
    while start < s.len() && is_whitespace(s[start])
        invariant
            start <= s@.len(),
            forall|i: int| 0 <= i < start ==> spec_is_whitespace(#[trigger] s@[i]),
        decreases s@.len() - start,
    {
        start = start + 1;
    }
    proof {
        lemma_trim_start_skips(s@, start as int);
    }
    let mut end: usize = s.len();
    while end > start && is_whitespace(s[end - 1])
        invariant
            start <= end <= s@.len(),
            forall|i: int| end <= i < s@.len() ==> spec_is_whitespace(#[trigger] s@[i]),
        decreases end,
    {
        end = end - 1;
    }
    let ghost rest = s@.subrange(start as int, s@.len() as int);
    proof {
        assert forall|i: int| end - start <= i < rest.len() implies spec_is_whitespace(#[trigger] rest[i]) by {
            assert(rest[i] == s@[start + i]);
        }
        if end > start {
            assert(rest[end - start - 1] == s@[end - 1]);
        }
        lemma_trim_end_skips(rest, end - start);
        assert(rest.subrange(0, end - start) =~= s@.subrange(start as int, end as int));
    }
    copy_chars(s, start, end)
}

/// The value of a digit in the given radix (`0`-`9`, then letters of either case).
pub open spec fn spec_digit_value(c: char, radix: nat) -> Option<nat> {
    let n = c as u32;
    let v: int = if 0x30 <= n <= 0x39 {
        n - 0x30
    } else if 0x61 <= n <= 0x7A {
        n - 0x61 + 10
    } else if 0x41 <= n <= 0x5A {
        n - 0x41 + 10
    } else {
        36
    };
    if v < radix {
        Some(v as nat)
    } else {
        None
    }
}

pub open spec fn all_digits(s: Seq<char>, radix: nat) -> bool {
    forall|i: int| 0 <= i < s.len() ==> (#[trigger] spec_digit_value(s[i], radix)) is Some
}

/// The number that digits spell in the given radix, most significant first.
pub open spec fn digits_number(s: Seq<char>, radix: nat) -> nat
    decreases s.len(),
{
    if s.len() == 0 {
        0
    } else {
        radix * digits_number(s.drop_last(), radix) + spec_digit_value(s.last(), radix).unwrap_or(0)
    }
}

/// An unsigned integer in the given radix, as `from_str_radix` (and, in radix 10, `str::parse`)
/// reads it for an unsigned type whose largest value is `max`: an optional `+`, then at least one
/// digit, and a value no larger than `max`.
pub open spec fn spec_parse_unsigned(s: Seq<char>, radix: nat, max: nat) -> Option<nat> {
    let digits = if s.len() > 0 && s[0] == '+' { s.drop_first() } else { s };
    if digits.len() > 0 && all_digits(digits, radix) && digits_number(digits, radix) <= max {
        Some(digits_number(digits, radix))
    } else {
        None
    }
}

fn digit_value(c: char, radix: u32) -> (r: Option<u32>)
    requires
        2 <= radix <= 36,
    ensures
        r matches Some(v) ==> spec_digit_value(c, radix as nat) == Some(v as nat),
        r is None ==> spec_digit_value(c, radix as nat) is None,
{
    let n = c as u32;
    let v: u32 = if 0x30 <= n && n <= 0x39 {
        n - 0x30
    } else if 0x61 <= n && n <= 0x7A {
        n - 0x61 + 10
    } else if 0x41 <= n && n <= 0x5A {
        n - 0x41 + 10
    } else {
        36
    };
    if v < radix {
        Some(v)
    } else {
        None
    }
}

proof fn lemma_digits_number_grows(s: Seq<char>, radix: nat, n: int)
    requires
        radix >= 2,
        0 <= n <= s.len(),
    ensures
        digits_number(s.subrange(0, n), radix) <= digits_number(s, radix),
    decreases s.len() - n,
{
    if n < s.len() {
        lemma_digits_number_grows(s.drop_last(), radix, n);
        assert(s.drop_last().subrange(0, n) =~= s.subrange(0, n));
        let d = digits_number(s.drop_last(), radix);
        assert(radix * d >= d) by (nonlinear_arith)
            requires
                radix >= 2,
        ;
    } else {
        assert(s.subrange(0, n) =~= s);
    }
}

/// Reads an unsigned integer in the given radix, with the largest value `max`.
pub fn parse_unsigned(s: &Vec<char>, radix: u32, max: u32) -> (r: Option<u32>)
    requires
        2 <= radix <= 36,
    ensures
        r matches Some(v) ==> spec_parse_unsigned(s@, radix as nat, max as nat) == Some(v as nat),
        r is None ==> spec_parse_unsigned(s@, radix as nat, max as nat) is None,
{
    let start: usize = if s.len() > 0 && s[0] == '+' { 1 } else { 0 };
    let ghost digits = if s@.len() > 0 && s@[0] == '+' { s@.drop_first() } else { s@ };
    proof {
        assert(digits =~= s@.subrange(start as int, s@.len() as int));
    }
    if start >= s.len() {
        return None;
    }
    let mut value: u64 = 0;
    let mut i: usize = start;
    while i < s.len()
        invariant
            start <= i <= s@.len(),
            digits == s@.subrange(start as int, s@.len() as int),
            digits == (if s@.len() > 0 && s@[0] == '+' { s@.drop_first() } else { s@ }),
            digits.len() > 0,
            2 <= radix <= 36,
            all_digits(digits.subrange(0, i - start), radix as nat),
            value == digits_number(digits.subrange(0, i - start), radix as nat),
            value <= max,
        decreases s@.len() - i,
    {
        let ghost prefix = digits.subrange(0, i - start);
        let ghost next = digits.subrange(0, i + 1 - start);
        proof {
            assert(next.drop_last() =~= prefix);
            assert(next.last() == s@[i as int]);
        }
        match digit_value(s[i], radix) {
            None => {
                proof {
                    assert(digits[i - start] == s@[i as int]);
                    assert(spec_digit_value(digits[i - start], radix as nat) is None);
                    assert(!all_digits(digits, radix as nat));
                }
                return None;
            },
            Some(d) => {
                assert(value * (radix as u64) <= 0xFFFF_FFFF * 36) by (nonlinear_arith)
                    requires
                        value <= 0xFFFF_FFFF,
                        radix <= 36,
                ;
                let next_value = value * (radix as u64) + d as u64;
                proof {
                    assert(digits_number(next, radix as nat) == radix * digits_number(prefix, radix as nat) + d);
                    assert(value * radix == radix * value) by (nonlinear_arith);
                }
                if next_value > max as u64 {
                    proof {
                        lemma_digits_number_grows(digits, radix as nat, i + 1 - start);
                    }
                    return None;
                }
                value = next_value;
                i = i + 1;
                proof {
                    assert forall|j: int| 0 <= j < next.len() implies (#[trigger] spec_digit_value(next[j], radix as nat)) is Some by {
                        if j < prefix.len() {
                            assert(next[j] == prefix[j]);
                        }
                    }
                }
            },
        }
    }
    proof {
        assert(digits.subrange(0, i - start) =~= digits);
    }
    Some(value as u32)
}

/// The pieces of a text between its separators, as `str::split` gives them: one more piece
/// than there are separators, empty pieces included.
pub open spec fn split_on(s: Seq<char>, sep: char) -> Seq<Seq<char>>
    decreases s.len(),
{
    if s.len() == 0 {
        seq![Seq::empty()]
    } else {
        let pieces = split_on(s.drop_last(), sep);
        if s.last() == sep {
            pieces.push(Seq::empty())
        } else {
            pieces.update(pieces.len() - 1, pieces.last().push(s.last()))
        }
    }
}


/// A piece, trimmed if asked.
pub open spec fn processed_piece(piece: Seq<char>, trimmed: bool) -> Seq<char> {
    if trimmed {
        trim(piece)
    } else {
        piece
    }
}

/// The pieces (trimmed if asked) that aren't empty, in order.
pub open spec fn kept_pieces(pieces: Seq<Seq<char>>, trimmed: bool) -> Seq<Seq<char>>
    decreases pieces.len(),
{
    if pieces.len() == 0 {
        Seq::empty()
    } else {
        let kept = kept_pieces(pieces.drop_last(), trimmed);
        let piece = processed_piece(pieces.last(), trimmed);
        if piece.len() > 0 {
            kept.push(piece)
        } else {
            kept
        }
    }
}

/// Splits a text at a separator and keeps the pieces (trimmed if asked) that aren't empty.
pub fn split_kept(s: &Vec<char>, sep: char, trimmed: bool) -> (r: Vec<Vec<char>>)
    ensures
        r.deep_view() == kept_pieces(split_on(s@, sep), trimmed),
{
    let mut done: Vec<Vec<char>> = Vec::new();
    let mut current: Vec<char> = Vec::new();
    let mut i: usize = 0;
    proof {
        assert(s@.take(0) =~= Seq::<char>::empty());
        assert(done.deep_view() =~= kept_pieces(split_on(s@.take(0), sep).drop_last(), trimmed));
    }
    while i < s.len()
        invariant
            i <= s@.len(),
            split_on(s@.take(i as int), sep).len() >= 1,
            done.deep_view() == kept_pieces(split_on(s@.take(i as int), sep).drop_last(), trimmed),
            current@ == split_on(s@.take(i as int), sep).last(),
        decreases s@.len() - i,
    {
        let ghost before = split_on(s@.take(i as int), sep);
        let c = s[i];
        proof {
            assert(s@.take(i + 1).drop_last() =~= s@.take(i as int));
            assert(s@.take(i + 1).last() == c);
        }
        if c == sep {
            let piece = if trimmed { trim_chars(&current) } else { current };
            if piece.len() > 0 {
                let ghost old_done = done.deep_view();
                let ghost piece_view = piece@;
                let ghost piece_deep = piece.deep_view();
                done.push(piece);
                proof {
                    assert(piece_deep =~= piece_view);
            assert(done.deep_view() =~= old_done.push(piece_view));
                }
            }
            current = Vec::new();
            proof {
                let after = split_on(s@.take(i + 1), sep);
                assert(after == before.push(Seq::empty()));
                assert(after.drop_last() =~= before);
                assert(before =~= before.drop_last().push(before.last()));
            }
        } else {
            current.push(c);
            proof {
                let after = split_on(s@.take(i + 1), sep);
                assert(after == before.update(before.len() - 1, before.last().push(c)));
                assert(after.drop_last() =~= before.drop_last());
            }
        }
        i = i + 1;
    }
    proof {
        assert(s@.take(i as int) =~= s@);
        let pieces = split_on(s@, sep);
        assert(pieces =~= pieces.drop_last().push(pieces.last()));
    }
    let piece = if trimmed { trim_chars(&current) } else { current };
    if piece.len() > 0 {
        let ghost old_done = done.deep_view();
        let ghost piece_view = piece@;
        let ghost piece_deep = piece.deep_view();
        done.push(piece);
        proof {
            assert(piece_deep =~= piece_view);
            assert(done.deep_view() =~= old_done.push(piece_view));
        }
    }
    done
}

} // verus!
