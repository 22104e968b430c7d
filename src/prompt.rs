use vstd::prelude::*;

verus! {

/// Why a line of text is no tempo.
#[derive(Clone, Copy, Debug, PartialEq, Eq, Structural)]
pub enum TempoError {
    /// Nothing but whitespace.
    Empty,
    /// Something other than decimal digits, after an optional `+`.
    InvalidDigit,
    /// Digits whose value does not fit in a `u32`.
    Overflow,
    /// The value 0: a tempo is at least one beat per minute.
    Zero,
}

/// Whitespace in the sense of Unicode's White_Space property.
pub open spec fn is_blank(c: char) -> bool {
    let u = c as u32;
    ||| 0x09 <= u <= 0x0d
    ||| u == 0x20
    ||| u == 0x85
    ||| u == 0xa0
    ||| u == 0x1680
    ||| 0x2000 <= u <= 0x200a
    ||| u == 0x2028
    ||| u == 0x2029
    ||| u == 0x202f
    ||| u == 0x205f
    ||| u == 0x3000
}

pub open spec fn is_digit(c: char) -> bool {
    '0' <= c <= '9'
}

/// The first index from `i` on that holds no whitespace, or the length.
pub open spec fn skip_blanks(s: Seq<char>, i: int) -> int
    decreases s.len() - i,
{
    if i < 0 || i >= s.len() {
        s.len() as int
    } else if is_blank(s[i]) {
        skip_blanks(s, i + 1)
    } else {
        i
    }
}

/// The end of `s.subrange(0, j)` once its trailing whitespace is dropped.
pub open spec fn drop_blanks(s: Seq<char>, j: int) -> int
    decreases j,
{
    if j <= 0 || j > s.len() {
        0
    } else if is_blank(s[j - 1]) {
        drop_blanks(s, j - 1)
    } else {
        j
    }
}

/// `s` without its leading and trailing whitespace.
pub open spec fn trimmed(s: Seq<char>) -> Seq<char> {
    let a = skip_blanks(s, 0);
    let b = drop_blanks(s, s.len() as int);
    if a < b {
        s.subrange(a, b)
    } else {
        Seq::empty()
    }
}

/// The decimal value of a run of digits, most significant first.
pub open spec fn digits_value(d: Seq<char>) -> nat
    decreases d.len(),
{
    if d.len() == 0 {
        0
    } else {
        digits_value(d.drop_last()) * 10 + ((d.last() as u32) - ('0' as u32)) as nat
    }
}

/// The trimmed text without its leading `+`, if it has one.
pub open spec fn unsigned_part(s: Seq<char>) -> Seq<char> {
    let t = trimmed(s);
    if t.len() > 0 && t[0] == '+' {
        t.drop_first()
    } else {
        t
    }
}

/// The tempo that a line of text gives: decimal digits, after an optional
/// `+`, with whitespace around them, whose value is a positive `u32`.
pub open spec fn tempo_from_text(s: Seq<char>) -> Result<u32, TempoError> {
    let t = trimmed(s);
    let body = unsigned_part(s);
    if t.len() == 0 {
        Err(TempoError::Empty)
    } else if body.len() == 0 || !(forall|i: int| 0 <= i < body.len() ==> is_digit(body[i])) {
        Err(TempoError::InvalidDigit)
    } else if digits_value(body) > u32::MAX {
        Err(TempoError::Overflow)
    } else if digits_value(body) == 0 {
        Err(TempoError::Zero)
    } else {
        Ok(digits_value(body) as u32)
    }
}

/// Whether `c` is whitespace, as `is_blank` states it.
pub fn is_blank_char(c: char) -> (r: bool)
    ensures
        r == is_blank(c),
{
    let u = c as u32;
    (0x09 <= u && u <= 0x0d) || u == 0x20 || u == 0x85 || u == 0xa0 || u == 0x1680 || (0x2000
        <= u && u <= 0x200a) || u == 0x2028 || u == 0x2029 || u == 0x202f || u == 0x205f || u
        == 0x3000
}

/// Reads the tempo typed at the startup prompt.
pub fn parse_tempo(text: &str) -> (r: Result<u32, TempoError>)
    ensures
        r == tempo_from_text(text@),
{
    let ghost s = text@;
    let n = text.unicode_len();
    let mut a: usize = 0;
    while a < n && is_blank_char(text.get_char(a))
        invariant
            s == text@,
            n == s.len(),
            a <= n,
            skip_blanks(s, a as int) == skip_blanks(s, 0),
        decreases n - a,
    {
        a = a + 1;
    }
    let mut b: usize = n;
    while b > 0 && is_blank_char(text.get_char(b - 1))
        invariant
            s == text@,
            n == s.len(),
            a <= n,
            b <= n,
            a == skip_blanks(s, 0),
            a < n ==> !is_blank(s[a as int]) && a < b,
            drop_blanks(s, b as int) == drop_blanks(s, n as int),
        decreases b,
    {
        b = b - 1;
    }
    if a >= b {
        return Err(TempoError::Empty);
    }
    let ghost t = s.subrange(a as int, b as int);
    assert(trimmed(s) == t);
    let start: usize = if text.get_char(a) == '+' {
        a + 1
    } else {
        a
    };
    let ghost body = s.subrange(start as int, b as int);
    assert(body =~= unsigned_part(s));
    if start == b {
        return Err(TempoError::InvalidDigit);
    }
    let mut value: u64 = 0;
    let mut over = false;
    let mut k: usize = start;
    while k < b
        invariant
            s == text@,
            n == s.len(),
            start <= k <= b <= n,
            body == s.subrange(start as int, b as int),
            body == unsigned_part(s),
            trimmed(s).len() > 0,
            forall|j: int| start <= j < k ==> is_digit(#[trigger] s[j]),
            !over ==> value == digits_value(s.subrange(start as int, k as int)) && value
                <= u32::MAX,
            over ==> digits_value(s.subrange(start as int, k as int)) > u32::MAX,
        decreases b - k,
    {
        let c = text.get_char(k);
        if !('0' <= c && c <= '9') {
            assert(body[k - start] == s[k as int]);
            return Err(TempoError::InvalidDigit);
        }
        let ghost prefix = s.subrange(start as int, k as int);
        let ghost longer = s.subrange(start as int, k + 1);
        assert(longer.drop_last() =~= prefix);
        assert(digits_value(longer) == digits_value(prefix) * 10 + ((c as u32) - ('0' as u32)));
        if !over {
            let next: u64 = value * 10 + ((c as u32) - ('0' as u32)) as u64;
            if next > u32::MAX as u64 {
                over = true;
            } else {
                value = next;
            }
        }
        k = k + 1;
    }
    assert(s.subrange(start as int, k as int) =~= body);
    assert(forall|i: int| 0 <= i < body.len() ==> is_digit(body[i])) by {
        assert forall|i: int| 0 <= i < body.len() implies is_digit(body[i]) by {
            assert(body[i] == s[start + i]);
        }
    }
    if over {
        Err(TempoError::Overflow)
    } else if value == 0 {
        Err(TempoError::Zero)
    } else {
        Ok(value as u32)
    }
}

} // verus!
