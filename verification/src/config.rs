//! Parsing of the two per-run settings: the `WIDTHxHEIGHT` size string and
//! the output format token.

use vstd::prelude::*;

verus! {

/// The encoders the adapter can ask the codec for.  `jpg` and `jpeg` are
/// spellings of the same `Jpeg` encoder.
#[derive(Clone, Copy, PartialEq, Eq, Structural, Debug)]
pub enum OutputFormat {
    Png,
    Jpeg,
    Gif,
    Bmp,
    Tiff,
}

pub open spec fn is_digit(c: char) -> bool {
    '0' <= c && c <= '9'
}

pub open spec fn digit_val(c: char) -> int {
    c as int - '0' as int
}

pub open spec fn all_digits(s: Seq<char>) -> bool {
    forall|i: int| 0 <= i < s.len() ==> is_digit(s[i])
}

/// Value of a digit string read as a decimal number.
pub open spec fn digits_val(s: Seq<char>) -> int
    decreases s.len(),
{
    if s.len() == 0 {
        0
    } else {
        digits_val(s.drop_last()) * 10 + digit_val(s.last())
    }
}

/// The string is a positive decimal number that fits in a `u32`.
pub open spec fn parses_as_u32(s: Seq<char>) -> bool {
    s.len() > 0 && all_digits(s) && 0 < digits_val(s) <= u32::MAX
}

/// Position `i` splits the string into a valid `WIDTHxHEIGHT` pair.  Both
/// sides being digit strings, the `x` at `i` is necessarily the only one.
pub open spec fn valid_size_at(s: Seq<char>, i: int) -> bool {
    &&& 0 <= i < s.len()
    &&& s[i] == 'x'
    &&& parses_as_u32(s.take(i))
    &&& parses_as_u32(s.skip(i + 1))
}

/// The parsed target dimensions: the two positive integers around the single
/// `x`, or nothing when the string is not of that shape.
pub open spec fn spec_parse_size(s: Seq<char>) -> Option<(u32, u32)> {
    if exists|i: int| valid_size_at(s, i) {
        let i = choose|i: int| valid_size_at(s, i);
        Some(
            ((digits_val(s.take(i)) as u32), (digits_val(s.skip(i + 1)) as u32)),
        )
    } else {
        None
    }
}

pub proof fn lemma_digits_val_nonneg(s: Seq<char>)
    requires
        all_digits(s),
    ensures
        digits_val(s) >= 0,
    decreases s.len(),
{
    if s.len() > 0 {
        assert(all_digits(s.drop_last()));
        lemma_digits_val_nonneg(s.drop_last());
    }
}

/// A digit string is worth at least as much as any of its prefixes.
pub proof fn lemma_digits_val_prefix(s: Seq<char>, i: int)
    requires
        all_digits(s),
        0 <= i <= s.len(),
    ensures
        digits_val(s.take(i)) <= digits_val(s),
    decreases s.len() - i,
{
    if i == s.len() {
        assert(s.take(i) =~= s);
    } else {
        assert(s.take(i + 1).drop_last() =~= s.take(i));
        assert(all_digits(s.take(i)));
        lemma_digits_val_nonneg(s.take(i));
        assert(digits_val(s.take(i + 1)) == digits_val(s.take(i)) * 10 + digit_val(s[i]));
        lemma_digits_val_prefix(s, i + 1);
    }
}

/// Only one split position can be valid: every character off the split is a
/// digit, and `x` is not one.
pub proof fn lemma_valid_size_at_unique(s: Seq<char>, i: int, j: int)
    requires
        valid_size_at(s, i),
        0 <= j < s.len(),
        s[j] == 'x',
    ensures
        i == j,
{
    if j < i {
        assert(is_digit(s.take(i)[j]));
        assert(false);
    } else if j > i {
        assert(is_digit(s.skip(i + 1)[j - i - 1]));
        assert(false);
    }
}

/// Parse a run of digits between two indices as a positive `u32`.
fn parse_u32_range(s: &str, from: usize, to: usize) -> (r: Option<u32>)
    requires
        from <= to <= s@.len(),
    ensures
        r matches Some(v) ==> parses_as_u32(s@.subrange(from as int, to as int)) && v
            == digits_val(s@.subrange(from as int, to as int)),
        r is None ==> !parses_as_u32(s@.subrange(from as int, to as int)),
{
    let ghost t = s@.subrange(from as int, to as int);
    let mut acc: u64 = 0;
    let mut i: usize = from;
    while i < to
        invariant
            from <= i <= to <= s@.len(),
            t == s@.subrange(from as int, to as int),
            all_digits(t.take(i - from)),
            acc == digits_val(t.take(i - from)),
            acc <= u32::MAX,
        decreases to - i,
    {
        let c = s.get_char(i);
        proof {
            assert(t.take(i + 1 - from).drop_last() =~= t.take(i - from));
            assert(t.take(i + 1 - from).last() == s@[i as int]);
        }
        if c < '0' || c > '9' {
            proof {
                assert(!is_digit(t[i - from]));
            }
            return None;
        }
        let d: u64 = (c as u32) as u64 - 48;
        assert(d == digit_val(t[i - from]));
        let next: u64 = acc * 10 + d;
        if next > 0xFFFF_FFFF {
            proof {
                if parses_as_u32(t) {
                    assert(digits_val(t.take(i + 1 - from)) == next);
                    lemma_digits_val_prefix(t, i + 1 - from);
                    assert(false);
                }
            }
            return None;
        }
        acc = next;
        i = i + 1;
    }
    proof {
        assert(t.take(to - from) =~= t);
    }
    if acc == 0 {
        None
    } else {
        Some(acc as u32)
    }
}

/// Parse a `WIDTHxHEIGHT` size string into target dimensions: exactly one
/// `x`, flanked by two positive integers that fit in `u32`.
pub fn parse_size(s: &str) -> (r: Option<(u32, u32)>)
    ensures
        r == spec_parse_size(s@),
{
    let n = s.unicode_len();
    let mut i: usize = 0;
    while i < n
        invariant
            0 <= i <= n == s@.len(),
            forall|j: int| 0 <= j < i ==> s@[j] != 'x',
        decreases n - i,
    {
        let c = s.get_char(i);
        if c == 'x' {
            let left = parse_u32_range(s, 0, i);
            let right = parse_u32_range(s, i + 1, n);
            proof {
                assert(s@.subrange(0, i as int) =~= s@.take(i as int));
                assert(s@.subrange(i + 1, n as int) =~= s@.skip(i + 1));
            }
            match (left, right) {
                (Some(w), Some(h)) => {
                    proof {
                        assert(valid_size_at(s@, i as int));
                        let j = choose|j: int| valid_size_at(s@, j);
                        lemma_valid_size_at_unique(s@, j, i as int);
                    }
                    return Some((w, h));
                },
                _ => {
                    proof {
                        if exists|j: int| valid_size_at(s@, j) {
                            let j = choose|j: int| valid_size_at(s@, j);
                            lemma_valid_size_at_unique(s@, j, i as int);
                        }
                    }
                    return None;
                },
            }
        }
        i = i + 1;
    }
    proof {
        if exists|j: int| valid_size_at(s@, j) {
            let j = choose|j: int| valid_size_at(s@, j);
            assert(s@[j] == 'x');
        }
    }
    None
}

/// ASCII lowering of one character, as a code point.
pub open spec fn lower_code(c: char) -> u32 {
    if 'A' <= c && c <= 'Z' {
        (c as u32 + 32) as u32
    } else {
        c as u32
    }
}

/// The encoder a format token selects, matching ASCII case-insensitively.
/// `jpg` and `jpeg` name the same encoder.
pub open spec fn spec_parse_format(s: Seq<char>) -> Option<OutputFormat> {
    if s.len() == 3 && lower_code(s[0]) == 'p' as u32 && lower_code(s[1]) == 'n' as u32
        && lower_code(s[2]) == 'g' as u32 {
        Some(OutputFormat::Png)
    } else if s.len() == 3 && lower_code(s[0]) == 'j' as u32 && lower_code(s[1]) == 'p' as u32
        && lower_code(s[2]) == 'g' as u32 {
        Some(OutputFormat::Jpeg)
    } else if s.len() == 4 && lower_code(s[0]) == 'j' as u32 && lower_code(s[1]) == 'p' as u32
        && lower_code(s[2]) == 'e' as u32 && lower_code(s[3]) == 'g' as u32 {
        Some(OutputFormat::Jpeg)
    } else if s.len() == 3 && lower_code(s[0]) == 'g' as u32 && lower_code(s[1]) == 'i' as u32
        && lower_code(s[2]) == 'f' as u32 {
        Some(OutputFormat::Gif)
    } else if s.len() == 3 && lower_code(s[0]) == 'b' as u32 && lower_code(s[1]) == 'm' as u32
        && lower_code(s[2]) == 'p' as u32 {
        Some(OutputFormat::Bmp)
    } else if s.len() == 4 && lower_code(s[0]) == 't' as u32 && lower_code(s[1]) == 'i' as u32
        && lower_code(s[2]) == 'f' as u32 && lower_code(s[3]) == 'f' as u32 {
        Some(OutputFormat::Tiff)
    } else {
        None
    }
}

fn lower_code_exec(c: char) -> (r: u32)
    ensures
        r == lower_code(c),
{
    let u = c as u32;
    if 'A' as u32 <= u && u <= 'Z' as u32 {
        u + 32
    } else {
        u
    }
}

/// Select the encoder named by a format token, ASCII case-insensitively;
/// an unrecognized token selects none.
pub fn determine_image_format(token: &str) -> (r: Option<OutputFormat>)
    ensures
        r == spec_parse_format(token@),
{
    let n = token.unicode_len();
    if n == 3 {
        let c0 = lower_code_exec(token.get_char(0));
        let c1 = lower_code_exec(token.get_char(1));
        let c2 = lower_code_exec(token.get_char(2));
        if c0 == 'p' as u32 && c1 == 'n' as u32 && c2 == 'g' as u32 {
            Some(OutputFormat::Png)
        } else if c0 == 'j' as u32 && c1 == 'p' as u32 && c2 == 'g' as u32 {
            Some(OutputFormat::Jpeg)
        } else if c0 == 'g' as u32 && c1 == 'i' as u32 && c2 == 'f' as u32 {
            Some(OutputFormat::Gif)
        } else if c0 == 'b' as u32 && c1 == 'm' as u32 && c2 == 'p' as u32 {
            Some(OutputFormat::Bmp)
        } else {
            None
        }
    } else if n == 4 {
        let c0 = lower_code_exec(token.get_char(0));
        let c1 = lower_code_exec(token.get_char(1));
        let c2 = lower_code_exec(token.get_char(2));
        let c3 = lower_code_exec(token.get_char(3));
        if c0 == 'j' as u32 && c1 == 'p' as u32 && c2 == 'e' as u32 && c3 == 'g' as u32 {
            Some(OutputFormat::Jpeg)
        } else if c0 == 't' as u32 && c1 == 'i' as u32 && c2 == 'f' as u32 && c3 == 'f' as u32 {
            Some(OutputFormat::Tiff)
        } else {
            None
        }
    } else {
        None
    }
}

/// The two spellings `jpeg` and `jpg` select the same encoder.
pub proof fn lemma_jpeg_jpg_same_encoder()
    ensures
        spec_parse_format("jpeg"@) == Some(OutputFormat::Jpeg),
        spec_parse_format("jpg"@) == Some(OutputFormat::Jpeg),
{
    reveal_strlit("jpeg");
    reveal_strlit("jpg");
}

} // verus!
