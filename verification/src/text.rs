//! Reading a typed line: stripping the blanks around it and reading a
//! numeral.

use vstd::prelude::*;
use vstd::string::StrSliceExecFns;
use crate::error::InputError;

verus! {

/// Whether `c` is one of the ten ASCII decimal digits.
pub open spec fn is_digit(c: char) -> bool {
    '0' <= c <= '9'
}

/// The number that the decimal digit `c` stands for.
pub open spec fn digit_value(c: char) -> int
    recommends
        is_digit(c),
{
    c as int - '0' as int
}

/// Whether `c` is white space, as Unicode defines it.
pub open spec fn is_blank(c: char) -> bool {
    ||| '\u{9}' <= c <= '\u{d}'
    ||| c == ' '
    ||| c == '\u{85}'
    ||| c == '\u{a0}'
    ||| c == '\u{1680}'
    ||| '\u{2000}' <= c <= '\u{200a}'
    ||| c == '\u{2028}'
    ||| c == '\u{2029}'
    ||| c == '\u{202f}'
    ||| c == '\u{205f}'
    ||| c == '\u{3000}'
}

/// `s` without the white space it starts with.
pub open spec fn trim_start(s: Seq<char>) -> Seq<char>
    decreases s.len(),
{
    if s.len() > 0 && is_blank(s[0]) {
        trim_start(s.skip(1))
    } else {
        s
    }
}

/// `s` without the white space it ends with.
pub open spec fn trim_end(s: Seq<char>) -> Seq<char>
    decreases s.len(),
{
    if s.len() > 0 && is_blank(s.last()) {
        trim_end(s.drop_last())
    } else {
        s
    }
}

/// `s` without the white space on either side of it.
pub open spec fn trimmed(s: Seq<char>) -> Seq<char> {
    trim_end(trim_start(s))
}

/// Whether `s` is a numeral: one or more decimal digits and nothing else.
pub open spec fn is_numeral(s: Seq<char>) -> bool {
    s.len() > 0 && forall|i: int| 0 <= i < s.len() ==> is_digit(#[trigger] s[i])
}

/// The number that a numeral stands for, read in base ten.
pub open spec fn numeral_value(s: Seq<char>) -> nat
    decreases s.len(),
{
    if s.len() == 0 {
        0
    } else {
        (10 * numeral_value(s.drop_last()) + digit_value(s.last())) as nat
    }
}

/// What a typed code below `limit` reads as: the code, or why it is none.
pub open spec fn code_below(s: Seq<char>, limit: nat) -> Result<nat, InputError> {
    if !is_numeral(s) {
        Err(InputError::MalformedInput)
    } else if numeral_value(s) >= limit {
        Err(InputError::UnknownOptionCode)
    } else {
        Ok(numeral_value(s))
    }
}

/// The number that the decimal digit `c` stands for; `None` where `c` is no
/// digit.
pub fn digit_to_value(c: char) -> (value: Option<u8>)
    ensures
        value is Some <==> is_digit(c),
        value is Some ==> value->Some_0 as int == digit_value(c),
{
    match c {
        '0' => Some(0),
        '1' => Some(1),
        '2' => Some(2),
        '3' => Some(3),
        '4' => Some(4),
        '5' => Some(5),
        '6' => Some(6),
        '7' => Some(7),
        '8' => Some(8),
        '9' => Some(9),
        _ => None,
    }
}

/// Whether `c` is white space.
pub fn is_blank_char(c: char) -> (blank: bool)
    ensures
        blank == is_blank(c),
{
    ('\u{9}' <= c && c <= '\u{d}') || c == ' ' || c == '\u{85}' || c == '\u{a0}' || c
        == '\u{1680}' || ('\u{2000}' <= c && c <= '\u{200a}') || c == '\u{2028}' || c
        == '\u{2029}' || c == '\u{202f}' || c == '\u{205f}' || c == '\u{3000}'
}

/// Dropping leading white space from a line equals dropping it from what is
/// left once some leading white space is gone.
proof fn lemma_trim_start_skips(s: Seq<char>, n: int)
    requires
        0 <= n <= s.len(),
        forall|i: int| 0 <= i < n ==> is_blank(#[trigger] s[i]),
    ensures
        trim_start(s) == trim_start(s.skip(n)),
    decreases n,
{
    if n == 0 {
        assert(s.skip(0) =~= s);
    } else {
        let rest = s.skip(1);
        assert forall|i: int| 0 <= i < n - 1 implies is_blank(#[trigger] rest[i]) by {
            assert(rest[i] == s[i + 1]);
        }
        lemma_trim_start_skips(rest, n - 1);
        assert(rest.skip(n - 1) =~= s.skip(n));
    }
}

/// Dropping trailing white space from a line equals dropping it from what is
/// left once some trailing white space is gone.
proof fn lemma_trim_end_takes(s: Seq<char>, n: int)
    requires
        0 <= n <= s.len(),
        forall|i: int| n <= i < s.len() ==> is_blank(#[trigger] s[i]),
    ensures
        trim_end(s) == trim_end(s.take(n)),
    decreases s.len() - n,
{
    if n == s.len() {
        assert(s.take(n) =~= s);
    } else {
        let rest = s.drop_last();
        assert(is_blank(s[s.len() - 1]));
        lemma_trim_end_takes(rest, n);
        assert(rest.take(n) =~= s.take(n));
    }
}

/// The line without the white space on either side of it.
pub fn trim(line: &str) -> (token: &str)
    ensures
        token@ == trimmed(line@),
{
    let len: usize = line.unicode_len();
    let mut start: usize = 0;
    while start < len && is_blank_char(line.get_char(start))
        invariant
            start <= len,
            len == line@.len(),
            forall|i: int| 0 <= i < start ==> is_blank(#[trigger] line@[i]),
        decreases len - start,
    {
        start += 1;
    }
    let mut end: usize = len;
    while end > start && is_blank_char(line.get_char(end - 1))
        invariant
            start <= end <= len,
            len == line@.len(),
            forall|i: int| end <= i < len ==> is_blank(#[trigger] line@[i]),
        decreases end,
    {
        end -= 1;
    }
    let token = line.substring_char(start, end);
    proof {
        let tail = line@.skip(start as int);
        lemma_trim_start_skips(line@, start as int);
        assert(trim_start(tail) == tail) by {
            if tail.len() > 0 {
                assert(tail[0] == line@[start as int]);
            }
        }
        assert forall|i: int| end - start <= i < tail.len() implies is_blank(
            #[trigger] tail[i],
        ) by {
            assert(tail[i] == line@[i + start]);
        }
        lemma_trim_end_takes(tail, end - start);
        assert(tail.take(end - start) =~= line@.subrange(start as int, end as int));
        assert(trim_end(token@) == token@) by {
            if token@.len() > 0 {
                assert(token@.last() == line@[end - 1]);
            }
        }
    }
    token
}

/// Reads a code, which is a numeral that stands for a number below `limit`.
/// Signs and blanks are not part of a numeral; leading zeros are.
pub fn parse_below(text: &str, limit: usize) -> (code: Result<usize, InputError>)
    ensures
        code is Ok <==> code_below(text@, limit as nat) is Ok,
        code is Ok ==> code->Ok_0 as nat == code_below(text@, limit as nat)->Ok_0,
        code is Err ==> code->Err_0 == code_below(text@, limit as nat)->Err_0,
{
    let len: usize = text.unicode_len();
    if len == 0 {
        return Err(InputError::MalformedInput);
    }
    let mut value: usize = 0;
    let mut beyond: bool = false;
    let mut i: usize = 0;
    while i < len
        invariant
            i <= len,
            len == text@.len(),
            forall|j: int| 0 <= j < i ==> is_digit(#[trigger] text@[j]),
            beyond ==> numeral_value(text@.take(i as int)) >= limit,
            !beyond ==> value == numeral_value(text@.take(i as int)),
            !beyond && i > 0 ==> value < limit,
        decreases len - i,
    {
        let digit: usize = match digit_to_value(text.get_char(i)) {
            Some(d) => d as usize,
            None => {
                return Err(InputError::MalformedInput);
            },
        };
        proof {
            let longer = text@.take(i + 1);
            assert(longer.drop_last() =~= text@.take(i as int));
            assert(longer.last() == text@[i as int]);
        }
        if !beyond {
            if limit == 0 || value > (limit - 1) / 10 {
                beyond = true;
            } else {
                let tens: usize = value * 10;
                if digit >= limit - tens {
                    beyond = true;
                } else {
                    value = tens + digit;
                }
            }
        }
        i += 1;
    }
    proof {
        assert(text@.take(len as int) =~= text@);
    }
    if beyond {
        Err(InputError::UnknownOptionCode)
    } else {
        Ok(value)
    }
}

} // verus!
