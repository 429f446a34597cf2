use vstd::prelude::*;

use crate::token::{Keyword, Token};

verus! {

/// Position of the keyword that opens a row insertion.
pub const INSERT_POSITION: usize = 0;

/// Position of the keyword that follows it.
pub const INTO_POSITION: usize = 2;

/// Position of the target table's name: after the keyword pair, whitespace,
/// and a schema qualifier with its period.
pub const TABLE_POSITION: usize = 6;

pub open spec fn is_keyword_at(t: Seq<Token>, k: Keyword, i: int) -> bool {
    0 <= i < t.len() && (t[i] matches Token::Word(_, kw) && kw == k)
}

pub open spec fn word_at(t: Seq<Token>, i: int) -> Option<Seq<char>> {
    if 0 <= i < t.len() && t[i] is Word {
        Some(t[i]->Word_0@)
    } else {
        None
    }
}

/// The table that a statement inserts into, or `None` for any statement that
/// does not have the shape `INSERT INTO <schema>.<table> ...`.
pub open spec fn insert_target(t: Seq<Token>) -> Option<Seq<char>> {
    if is_keyword_at(t, Keyword::Insert, INSERT_POSITION as int) && is_keyword_at(
        t,
        Keyword::Into,
        INTO_POSITION as int,
    ) {
        word_at(t, TABLE_POSITION as int)
    } else {
        None
    }
}

/// The first position at or after `i` that holds an opening parenthesis, or
/// the length of `t` if there is none.
pub open spec fn first_lparen_from(t: Seq<Token>, i: int) -> int
    decreases t.len() - i,
{
    if i >= t.len() {
        t.len() as int
    } else if t[i] is LParen {
        i
    } else {
        first_lparen_from(t, i + 1)
    }
}

/// The first position at or after `i` that holds the keyword `VALUES`, or the
/// length of `t` if there is none.
pub open spec fn first_values_from(t: Seq<Token>, i: int) -> int
    decreases t.len() - i,
{
    if i >= t.len() {
        t.len() as int
    } else if is_keyword_at(t, Keyword::Values, i) {
        i
    } else {
        first_values_from(t, i + 1)
    }
}

/// The texts of the words from position `i` up to the first closing
/// parenthesis.
pub open spec fn words_until_rparen(t: Seq<Token>, i: int) -> Seq<Seq<char>>
    decreases t.len() - i,
{
    if i < 0 || i >= t.len() || t[i] is RParen {
        Seq::empty()
    } else if t[i] is Word {
        seq![t[i]->Word_0@] + words_until_rparen(t, i + 1)
    } else {
        words_until_rparen(t, i + 1)
    }
}

/// Tokens that separate values rather than being one.
pub open spec fn is_separator(tok: Token) -> bool {
    tok is Comma || tok is Whitespace || tok is LParen
}

/// The positions of the value tokens from position `i` up to the first
/// closing parenthesis.
pub open spec fn values_until_rparen(t: Seq<Token>, i: int) -> Seq<int>
    decreases t.len() - i,
{
    if i < 0 || i >= t.len() || t[i] is RParen {
        Seq::empty()
    } else if is_separator(t[i]) {
        values_until_rparen(t, i + 1)
    } else {
        seq![i] + values_until_rparen(t, i + 1)
    }
}

/// The declared column names of an insertion: the words of its first
/// parenthesized list.
pub open spec fn column_names_of(t: Seq<Token>) -> Seq<Seq<char>> {
    words_until_rparen(t, first_lparen_from(t, 0))
}

/// The positions of the values of an insertion: the tokens of the first
/// parenthesized list after `VALUES`.
pub open spec fn value_positions_of(t: Seq<Token>) -> Seq<int> {
    values_until_rparen(t, first_lparen_from(t, first_values_from(t, 0)))
}

pub fn match_keyword_at_position(k: Keyword, tokens: &Vec<Token>, pos: usize) -> (r: bool)
    ensures
        r == is_keyword_at(tokens@, k, pos as int),
{
    if pos < tokens.len() {
        match &tokens[pos] {
            Token::Word(_, kw) => *kw == k,
            _ => false,
        }
    } else {
        false
    }
}

pub fn get_word_value_at_position(tokens: &Vec<Token>, pos: usize) -> (r: Option<String>)
    ensures
        r matches Some(w) ==> word_at(tokens@, pos as int) == Some(w@),
        r is None ==> word_at(tokens@, pos as int) is None,
{
    if pos < tokens.len() {
        match &tokens[pos] {
            Token::Word(w, _) => Some(w.clone()),
            _ => None,
        }
    } else {
        None
    }
}

/// The table that a statement inserts rows into, if it is a row insertion.
pub fn insert_table_name(tokens: &Vec<Token>) -> (r: Option<String>)
    ensures
        r matches Some(w) ==> insert_target(tokens@) == Some(w@),
        r is None ==> insert_target(tokens@) is None,
{
    if match_keyword_at_position(Keyword::Insert, tokens, INSERT_POSITION)
        && match_keyword_at_position(Keyword::Into, tokens, INTO_POSITION) {
        get_word_value_at_position(tokens, TABLE_POSITION)
    } else {
        None
    }
}

fn find_lparen(tokens: &Vec<Token>, start: usize) -> (r: usize)
    requires
        start <= tokens.len(),
    ensures
        r as int == first_lparen_from(tokens@, start as int),
        start <= r <= tokens.len(),
{
    let mut i: usize = start;
    while i < tokens.len()
        invariant
            start <= i <= tokens.len(),
            first_lparen_from(tokens@, i as int) == first_lparen_from(tokens@, start as int),
        decreases tokens.len() - i,
    {
        if let Token::LParen = &tokens[i] {
            return i;
        }
        i = i + 1;
    }
    i
}

fn find_values_keyword(tokens: &Vec<Token>) -> (r: usize)
    ensures
        r as int == first_values_from(tokens@, 0),
        r <= tokens.len(),
{
    let mut i: usize = 0;
    while i < tokens.len()
        invariant
            i <= tokens.len(),
            first_values_from(tokens@, i as int) == first_values_from(tokens@, 0),
        decreases tokens.len() - i,
    {
        if match_keyword_at_position(Keyword::Values, tokens, i) {
            return i;
        }
        i = i + 1;
    }
    i
}

fn is_rparen(tok: &Token) -> (r: bool)
    ensures
        r == tok is RParen,
{
    if let Token::RParen = tok {
        true
    } else {
        false
    }
}

pub open spec fn views_of(v: Seq<String>) -> Seq<Seq<char>> {
    v.map_values(|s: String| s@)
}

/// The declared column names of an insertion statement, in order.
pub fn get_column_names_from_insert_into_query(tokens: &Vec<Token>) -> (r: Vec<String>)
    ensures
        views_of(r@) == column_names_of(tokens@),
{
    let start = find_lparen(tokens, 0);
    let mut names: Vec<String> = Vec::new();
    let mut i: usize = start;
    while i < tokens.len() && !is_rparen(&tokens[i])
        invariant
            start <= i <= tokens.len(),
            start as int == first_lparen_from(tokens@, 0),
            views_of(names@) + words_until_rparen(tokens@, i as int) == column_names_of(tokens@),
        decreases tokens.len() - i,
    {
        match &tokens[i] {
            Token::Word(w, _) => {
                let name = w.clone();
                assert(views_of(names@.push(name)) =~= views_of(names@) + seq![w@]);
                names.push(name);
            },
            _ => {},
        }
        i = i + 1;
    }
    assert(views_of(names@) =~= column_names_of(tokens@));
    names
}

/// The positions of the value tokens of an insertion statement, in order.
pub fn get_column_values_from_insert_into_query(tokens: &Vec<Token>) -> (r: Vec<usize>)
    ensures
        r@.map_values(|p: usize| p as int) == value_positions_of(tokens@),
        forall|k: int| 0 <= k < r@.len() ==> r@[k] < tokens@.len(),
{
    let start = find_lparen(tokens, find_values_keyword(tokens));
    let mut positions: Vec<usize> = Vec::new();
    let mut i: usize = start;
    while i < tokens.len() && !is_rparen(&tokens[i])
        invariant
            start <= i <= tokens.len(),
            start as int == first_lparen_from(tokens@, first_values_from(tokens@, 0)),
            positions@.map_values(|p: usize| p as int) + values_until_rparen(tokens@, i as int)
                == value_positions_of(tokens@),
            forall|k: int| 0 <= k < positions@.len() ==> positions@[k] < i,
        decreases tokens.len() - i,
    {
        match &tokens[i] {
            Token::Comma | Token::Whitespace | Token::LParen => {},
            _ => {
                assert(positions@.push(i).map_values(|p: usize| p as int) =~= positions@.map_values(
                    |p: usize| p as int,
                ) + seq![i as int]);
                positions.push(i);
            },
        }
        i = i + 1;
    }
    assert(positions@.map_values(|p: usize| p as int) =~= value_positions_of(tokens@));
    positions
}

} // verus!
