use vstd::prelude::*;

use crate::record::octal_of;
use crate::triple::{digit_char, ignored_tokens, parse_symbols, token_views, PermValues};

verus! {

/// A string read as symbolic tokens: one token for each character.
pub open spec fn char_tokens(s: Seq<char>) -> Seq<Seq<char>> {
    s.map_values(|c: char| seq![c])
}

/// Splits `s` into one-character tokens, in order.
pub fn tokens_of(s: &str) -> (r: Vec<String>)
    ensures
        token_views(r@) == char_tokens(s@),
{
    let n = s.unicode_len();
    let mut out: Vec<String> = Vec::new();
    let mut i: usize = 0;
    while i < n
        invariant
            n == s@.len(),
            i <= n,
            out@.len() == i,
            token_views(out@) == char_tokens(s@.subrange(0, i as int)),
        decreases n - i,
    {
        let t = s.substring_char(i, i + 1).to_owned();
        assert(t@ =~= seq![s@[i as int]]);
        let ghost before = out@;
        out.push(t);
        assert forall|j: int| 0 <= j < i + 1 implies #[trigger] token_views(out@)[j] == char_tokens(
            s@.subrange(0, i + 1),
        )[j] by {
            if j < i {
                assert(out@[j] == before[j]);
                assert(token_views(before)[j] == char_tokens(s@.subrange(0, i as int))[j]);
            }
        }
        assert(token_views(out@) =~= char_tokens(s@.subrange(0, i + 1)));
        i = i + 1;
    }
    assert(s@.subrange(0, n as int) =~= s@);
    out
}

/// The octal number of three symbolic strings, one character per token, for
/// user, group and other (such as `rwe`, `re`, `re` for `755`), with the
/// characters that were ignored: first the user's, then the group's, then
/// the other's.
pub fn calculate(user: &str, group: &str, other: &str) -> (r: (String, Vec<String>))
    ensures
        r.0@ == seq![
            digit_char(parse_symbols(char_tokens(user@)).octal_num),
            digit_char(parse_symbols(char_tokens(group@)).octal_num),
            digit_char(parse_symbols(char_tokens(other@)).octal_num),
        ],
        token_views(r.1@) == ignored_tokens(char_tokens(user@)) + ignored_tokens(
            char_tokens(group@),
        ) + ignored_tokens(char_tokens(other@)),
{
    let (user_perm, mut warnings) = PermValues::parse_tokens(&tokens_of(user));
    let (group_perm, mut group_warnings) = PermValues::parse_tokens(&tokens_of(group));
    let (other_perm, mut other_warnings) = PermValues::parse_tokens(&tokens_of(other));
    let ghost first = warnings@;
    let ghost second = group_warnings@;
    let ghost third = other_warnings@;
    warnings.append(&mut group_warnings);
    warnings.append(&mut other_warnings);
    assert(token_views(warnings@) =~= token_views(first) + token_views(second) + token_views(third));
    (octal_of(&user_perm, &group_perm, &other_perm), warnings)
}

} // verus!
