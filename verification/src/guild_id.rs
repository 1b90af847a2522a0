use vstd::prelude::*;

verus! {

/// An ASCII decimal digit.
pub open spec fn is_digit(c: char) -> bool {
    '0' <= c && c <= '9'
}

/// Every character is an ASCII decimal digit.
pub open spec fn all_digits(s: Seq<char>) -> bool {
    forall|i: int| 0 <= i < s.len() ==> is_digit(#[trigger] s[i])
}

/// The value of a digit character.
pub open spec fn digit_value(c: char) -> nat {
    (c as int - 48) as nat
}

/// The number that a run of decimal digits denotes.
pub open spec fn digits_value(s: Seq<char>) -> nat
    decreases s.len(),
{
    if s.len() == 0 {
        0
    } else {
        digits_value(s.drop_last()) * 10 + digit_value(s.last())
    }
}

/// The text after an optional leading `+`.
pub open spec fn unsigned_body(s: Seq<char>) -> Seq<char> {
    if s.len() > 0 && s[0] == '+' {
        s.drop_first()
    } else {
        s
    }
}

/// What parsing `s` as a `u64` gives: an optional `+` followed by one or
/// more decimal digits whose value fits in 64 bits, and nothing else.
pub open spec fn parsed_u64(s: Seq<char>) -> Option<u64> {
    let body = unsigned_body(s);
    if body.len() > 0 && all_digits(body) && digits_value(body) <= u64::MAX {
        Some(digits_value(body) as u64)
    } else {
        None
    }
}

/// Why a configured guild id was refused.
#[derive(PartialEq, Eq, Structural, Clone, Copy, Debug)]
pub enum GuildIdError {
    /// The text is not an unsigned 64-bit integer.
    NotAnInteger,
    /// The text is the integer zero, which no Discord id can be.
    Zero,
}

/// The guild id that a configured text denotes.
pub open spec fn guild_id_of(s: Seq<char>) -> Result<u64, GuildIdError> {
    match parsed_u64(s) {
        None => Err(GuildIdError::NotAnInteger),
        Some(n) => if n == 0 {
            Err(GuildIdError::Zero)
        } else {
            Ok(n)
        },
    }
}

/// A prefix of a run of digits denotes no more than the whole run.
proof fn lemma_prefix_value_le(s: Seq<char>, k: int)
    requires
        0 <= k <= s.len(),
        all_digits(s),
    ensures
        digits_value(s.subrange(0, k)) <= digits_value(s),
    decreases s.len(),
{
    if k < s.len() {
        let shorter = s.drop_last();
        assert(all_digits(shorter)) by {
            assert forall|i: int| 0 <= i < shorter.len() implies is_digit(#[trigger] shorter[i]) by {
                assert(shorter[i] == s[i]);
            }
        }
        lemma_prefix_value_le(shorter, k);
        assert(shorter.subrange(0, k) =~= s.subrange(0, k));
    } else {
        assert(s.subrange(0, k) =~= s);
    }
}

/// Parses decimal text as a `u64`, as `str::parse::<u64>` does.
pub fn parse_u64(text: &str) -> (value: Option<u64>)
    ensures
        value == parsed_u64(text@),
{
    let ghost s = text@;
    let n = text.unicode_len();
    let mut start: usize = 0;
    if n > 0 && text.get_char(0) == '+' {
        start = 1;
    }
    let ghost body = s.subrange(start as int, n as int);
    assert(unsigned_body(s) =~= body);
    if start >= n {
        return None;
    }
    let mut value: u64 = 0;
    let mut i: usize = start;
    while i < n
        invariant
            s == text@,
            n == s.len(),
            start <= i <= n,
            start < n,
            body == s.subrange(start as int, n as int),
            unsigned_body(s) == body,
            all_digits(body.subrange(0, i - start)),
            value == digits_value(body.subrange(0, i - start)),
        decreases n - i,
    {
        let c = text.get_char(i);
        let ghost k = i - start;
        assert(body[k] == c);
        if !('0' <= c && c <= '9') {
            assert(!all_digits(body)) by {
                assert(!is_digit(body[k]));
            }
            return None;
        }
        let digit: u64 = (c as u32 - 48) as u64;
        let ghost next = body.subrange(0, k + 1);
        assert(next.drop_last() =~= body.subrange(0, k));
        assert(next.last() == c);
        assert(digits_value(next) == value * 10 + digit);
        assert(all_digits(next)) by {
            assert forall|j: int| 0 <= j < next.len() implies is_digit(#[trigger] next[j]) by {
                if j < k {
                    assert(next[j] == body.subrange(0, k)[j]);
                }
            }
        }
        let scaled = value.checked_mul(10);
        if scaled.is_none() {
            proof {
                if all_digits(body) {
                    lemma_prefix_value_le(body, k + 1);
                }
            }
            return None;
        }
        let sum = scaled.unwrap().checked_add(digit);
        if sum.is_none() {
            proof {
                if all_digits(body) {
                    lemma_prefix_value_le(body, k + 1);
                }
            }
            return None;
        }
        value = sum.unwrap();
        i = i + 1;
    }
    assert(body.subrange(0, n - start) =~= body);
    Some(value)
}

/// The guild id configured as `text`; the id must be a positive integer.
pub fn guild_id_from(text: &str) -> (id: Result<u64, GuildIdError>)
    ensures
        id == guild_id_of(text@),
{
    match parse_u64(text) {
        None => Err(GuildIdError::NotAnInteger),
        Some(n) => if n == 0 {
            Err(GuildIdError::Zero)
        } else {
            Ok(n)
        },
    }
}

} // verus!
