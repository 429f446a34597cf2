use vstd::prelude::*;

use crate::column::{Column, ColumnModel};
use crate::token::Token;

verus! {

pub open spec fn is_digit(c: char) -> bool {
    '0' <= c <= '9'
}

pub open spec fn all_digits(s: Seq<char>) -> bool {
    forall|i: int| 0 <= i < s.len() ==> is_digit(#[trigger] s[i])
}

pub open spec fn has_dot(s: Seq<char>) -> bool {
    exists|i: int| 0 <= i < s.len() && s[i] == '.'
}

/// The value of a run of decimal digits.
pub open spec fn digits_value(s: Seq<char>) -> nat
    decreases s.len(),
{
    if s.len() == 0 {
        0
    } else {
        digits_value(s.drop_last()) * 10 + (s.last() as u32 - '0' as u32) as nat
    }
}

/// Digits that spell an integer within the range of `i128`.
pub open spec fn is_integer_literal(s: Seq<char>) -> bool {
    s.len() > 0 && all_digits(s) && digits_value(s) <= i128::MAX
}

/// Digits around exactly one `.`, with at least one digit.
pub open spec fn is_fraction_literal(s: Seq<char>) -> bool {
    &&& s.len() >= 2
    &&& forall|i: int| 0 <= i < s.len() ==> #[trigger] s[i] == '.' || is_digit(s[i])
    &&& forall|i: int, j: int|
        0 <= i < s.len() && 0 <= j < s.len() && #[trigger] s[i] == '.' && #[trigger] s[j] == '.'
            ==> i == j
}

/// The column that a raw value token decodes to under the given column name,
/// or `None` where a numeric token does not spell a number.
pub open spec fn typed_column(name: Seq<char>, tok: Token) -> Option<ColumnModel> {
    match tok {
        Token::Number(s) => if has_dot(s@) {
            if is_fraction_literal(s@) {
                Some(ColumnModel::FloatNumber(name, s@))
            } else {
                None
            }
        } else if is_integer_literal(s@) {
            Some(ColumnModel::Number(name, digits_value(s@) as int))
        } else {
            None
        },
        Token::Char(c) => Some(ColumnModel::Character(name, c)),
        Token::SingleQuotedString(s) => Some(ColumnModel::Text(name, s@)),
        Token::NationalStringLiteral(s) => Some(ColumnModel::Text(name, s@)),
        Token::HexStringLiteral(s) => Some(ColumnModel::Text(name, s@)),
        _ => Some(ColumnModel::Absent(name)),
    }
}

proof fn lemma_digits_value_grows(s: Seq<char>, i: int, j: int)
    requires
        0 <= i <= j <= s.len(),
        all_digits(s),
    ensures
        digits_value(s.take(i)) <= digits_value(s.take(j)),
    decreases j - i,
{
    if i < j {
        lemma_digits_value_grows(s, i, j - 1);
        assert(s.take(j).drop_last() =~= s.take(j - 1));
        assert(is_digit(s[j - 1]));
    }
}

fn contains_dot(s: &str) -> (r: bool)
    ensures
        r == has_dot(s@),
{
    let n = s.unicode_len();
    let mut i: usize = 0;
    while i < n
        invariant
            n == s@.len(),
            i <= n,
            forall|k: int| 0 <= k < i ==> s@[k] != '.',
        decreases n - i,
    {
        if s.get_char(i) == '.' {
            return true;
        }
        i = i + 1;
    }
    false
}

/// Checks the shape of a numeric literal that holds a `.`.
fn fraction_literal(s: &str) -> (r: bool)
    ensures
        r == is_fraction_literal(s@),
{
    let n = s.unicode_len();
    if n < 2 {
        return false;
    }
    let mut dots: usize = 0;
    let mut dot_at: usize = 0;
    let mut i: usize = 0;
    while i < n
        invariant
            n == s@.len(),
            i <= n,
            dots <= 1,
            forall|k: int| 0 <= k < i ==> #[trigger] s@[k] == '.' || is_digit(s@[k]),
            dots == 0 ==> forall|k: int| 0 <= k < i ==> s@[k] != '.',
            dots == 1 ==> dot_at < i && s@[dot_at as int] == '.' && forall|k: int|
                0 <= k < i && s@[k] == '.' ==> k == dot_at,
        decreases n - i,
    {
        let c = s.get_char(i);
        if c == '.' {
            if dots == 1 {
                assert(s@[dot_at as int] == '.' && s@[i as int] == '.');
                return false;
            }
            dots = 1;
            dot_at = i;
        } else if !('0' <= c && c <= '9') {
            return false;
        }
        i = i + 1;
    }
    true
}

/// The value of a numeric literal without a `.`, if it spells an `i128`.
fn integer_literal(s: &str) -> (r: Option<i128>)
    ensures
        r matches Some(v) ==> is_integer_literal(s@) && v as int == digits_value(s@),
        r is None ==> !is_integer_literal(s@),
{
    let n = s.unicode_len();
    if n == 0 {
        return None;
    }
    let mut acc: i128 = 0;
    let mut i: usize = 0;
    while i < n
        invariant
            n == s@.len(),
            i <= n,
            all_digits(s@.take(i as int)),
            0 <= acc,
            acc as int == digits_value(s@.take(i as int)),
        decreases n - i,
    {
        let c = s.get_char(i);
        if !('0' <= c && c <= '9') {
            return None;
        }
        let d = (c as u32 - '0' as u32) as i128;
        assert(s@.take(i + 1).drop_last() =~= s@.take(i as int));
        assert(all_digits(s@.take(i + 1)));
        let next = match acc.checked_mul(10) {
            Some(m) => m.checked_add(d),
            None => None,
        };
        match next {
            Some(v) => {
                acc = v;
            },
            None => {
                proof {
                    if all_digits(s@) {
                        lemma_digits_value_grows(s@, i + 1, n as int);
                        assert(s@.take(n as int) =~= s@);
                    }
                }
                return None;
            },
        }
        i = i + 1;
    }
    assert(s@.take(n as int) =~= s@);
    Some(acc)
}

/// Decoding a token is a function of the column name and the token alone:
/// two columns that both decode the same token under the same name hold the
/// same kind and value.
pub proof fn typing_is_deterministic(name: Seq<char>, tok: Token, a: Column, b: Column)
    requires
        typed_column(name, tok) == Some(a@),
        typed_column(name, tok) == Some(b@),
    ensures
        a@ == b@,
        a@.name() == name,
{
}

/// Decodes one raw value token into a column of the given name; `None` where
/// a numeric token does not spell a number.
pub fn infer_column(name: &String, tok: &Token) -> (r: Option<Column>)
    ensures
        match typed_column(name@, *tok) {
            Some(m) => r matches Some(c) && c@ == m,
            None => r is None,
        },
{
    match tok {
        Token::Number(s) => {
            if contains_dot(s.as_str()) {
                if fraction_literal(s.as_str()) {
                    Some(Column::FloatNumberValue(name.clone(), s.clone()))
                } else {
                    None
                }
            } else {
                match integer_literal(s.as_str()) {
                    Some(v) => Some(Column::NumberValue(name.clone(), v)),
                    None => None,
                }
            }
        },
        Token::Char(c) => Some(Column::CharValue(name.clone(), *c)),
        Token::SingleQuotedString(s) => Some(Column::StringValue(name.clone(), s.clone())),
        Token::NationalStringLiteral(s) => Some(Column::StringValue(name.clone(), s.clone())),
        Token::HexStringLiteral(s) => Some(Column::StringValue(name.clone(), s.clone())),
        _ => Some(Column::Unknown(name.clone())),
    }
}

} // verus!
