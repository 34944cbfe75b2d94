use vstd::prelude::*;

use crate::error::ArgumentErrorLength;

verus! {

/// The octal digit of a triple: 4 for read, 2 for write, 1 for execute.
pub open spec fn digit(read: bool, write: bool, execute: bool) -> int {
    (if read { 4int } else { 0int }) + (if write { 2int } else { 0int }) + (if execute {
        1int
    } else {
        0int
    })
}

/// The triple with the given flags and the octal digit that they make.
pub open spec fn triple_of(read: bool, write: bool, execute: bool) -> PermValues {
    PermValues { read, write, execute, octal_num: digit(read, write, execute) as u32 }
}

/// The character that shows a flag: `c` when it is set, `-` when it is not.
pub open spec fn flag_char(set: bool, c: char) -> char {
    if set {
        c
    } else {
        '-'
    }
}

/// The decimal character of a digit from 0 to 7.
pub open spec fn digit_char(d: u32) -> char {
    if d == 0 {
        '0'
    } else if d == 1 {
        '1'
    } else if d == 2 {
        '2'
    } else if d == 3 {
        '3'
    } else if d == 4 {
        '4'
    } else if d == 5 {
        '5'
    } else if d == 6 {
        '6'
    } else {
        '7'
    }
}

/// How a flag is written in a table cell.
pub open spec fn bool_cell(b: bool) -> Seq<char> {
    if b {
        "true"@
    } else {
        "false"@
    }
}

/// The views of the cells of a row.
pub open spec fn cell_views(row: Seq<String>) -> Seq<Seq<char>> {
    row.map_values(|c: String| c@)
}

/// The table row of one subject: its label, two empty cells under the
/// record's columns, then its three flags.
pub open spec fn subject_row(label: Seq<char>, p: PermValues) -> Seq<Seq<char>> {
    seq![label, " "@, " "@, bool_cell(p.read), bool_cell(p.write), bool_cell(p.execute)]
}

/// Appends the decimal character of `d` to `s`.
pub fn push_digit(s: &mut String, d: u32)
    requires
        d <= 7,
    ensures
        final(s)@ == old(s)@.push(digit_char(d)),
{
    proof {
        reveal_strlit("0");
        reveal_strlit("1");
        reveal_strlit("2");
        reveal_strlit("3");
        reveal_strlit("4");
        reveal_strlit("5");
        reveal_strlit("6");
        reveal_strlit("7");
    }
    if d == 0 {
        s.append("0");
    } else if d == 1 {
        s.append("1");
    } else if d == 2 {
        s.append("2");
    } else if d == 3 {
        s.append("3");
    } else if d == 4 {
        s.append("4");
    } else if d == 5 {
        s.append("5");
    } else if d == 6 {
        s.append("6");
    } else {
        s.append("7");
    }
    assert(s@ =~= old(s)@.push(digit_char(d)));
}

/// The cell that shows a flag: `true` or `false`.
pub fn bool_to_cell(b: bool) -> (r: String)
    ensures
        r@ == bool_cell(b),
{
    if b {
        String::from_str("true")
    } else {
        String::from_str("false")
    }
}

/// The views of a list of tokens.
pub open spec fn token_views(args: Seq<String>) -> Seq<Seq<char>> {
    args.map_values(|t: String| t@)
}

/// A token that the symbol parser recognises: `r`, `w` or `e`.
pub open spec fn is_symbol(t: Seq<char>) -> bool {
    t == seq!['r'] || t == seq!['w'] || t == seq!['e']
}

/// The triple that a list of symbolic tokens stands for: a flag is set when
/// its token occurs anywhere in the list; other tokens do not count.
pub open spec fn parse_symbols(toks: Seq<Seq<char>>) -> PermValues {
    triple_of(toks.contains(seq!['r']), toks.contains(seq!['w']), toks.contains(seq!['e']))
}

/// The tokens that the symbol parser ignores, in the order given.
pub open spec fn ignored_tokens(toks: Seq<Seq<char>>) -> Seq<Seq<char>>
    decreases toks.len(),
{
    if toks.len() == 0 {
        seq![]
    } else {
        let rest = ignored_tokens(toks.drop_last());
        if is_symbol(toks.last()) {
            rest
        } else {
            rest.push(toks.last())
        }
    }
}

/// Whether `t` is the one-character token `c`.
fn is_token(t: &String, c: char) -> (r: bool)
    ensures
        r == (t@ == seq![c]),
{
    let s = t.as_str();
    if s.unicode_len() == 1 {
        let ch = s.get_char(0);
        if ch == c {
            assert(t@ =~= seq![c]);
        } else {
            assert(t@[0] != seq![c][0]);
        }
        ch == c
    } else {
        false
    }
}

/// The read, write and execute permissions of one subject (user, group or
/// other), with the octal digit that they make.
#[derive(Debug, Clone, Copy, PartialEq, Eq, Structural)]
pub struct PermValues {
    pub read: bool,
    pub write: bool,
    pub execute: bool,
    pub octal_num: u32,
}

impl PermValues {
    /// The octal digit agrees with the three flags.
    pub open spec fn wf(&self) -> bool {
        self.octal_num as int == digit(self.read, self.write, self.execute)
    }

    /// The three characters of the unix-style view: `r`, `w`, `x` or `-`.
    pub open spec fn raw_spec(&self) -> Seq<char> {
        seq![flag_char(self.read, 'r'), flag_char(self.write, 'w'), flag_char(self.execute, 'x')]
    }

    /// Builds a triple from its flags, deriving the octal digit from them.
    pub fn new(read: bool, write: bool, execute: bool) -> (r: PermValues)
        ensures
            r == triple_of(read, write, execute),
            r.wf(),
    {
        let mut num: u32 = 0;
        if read {
            num = num + 4;
        }
        if write {
            num = num + 2;
        }
        if execute {
            num = num + 1;
        }
        PermValues { read, write, execute, octal_num: num }
    }

    /// Builds a triple from symbolic tokens, one per element of `args`: `r`
    /// sets read, `w` write and `e` execute, wherever and however often they
    /// occur. Every other token is ignored and handed back, in order, so that
    /// the caller can warn about it. No input is rejected.
    pub fn from_user_input(args: Vec<String>) -> (r: Result<
        (PermValues, Vec<String>),
        ArgumentErrorLength,
    >)
        ensures
            r is Ok,
            r matches Ok((p, warnings)) ==> {
                &&& p == parse_symbols(token_views(args@))
                &&& p.wf()
                &&& token_views(warnings@) == ignored_tokens(token_views(args@))
            },
    {
        Ok(PermValues::parse_tokens(&args))
    }

    /// The triple that the symbolic tokens `args` stand for, and the tokens
    /// that were ignored, in order.
    pub fn parse_tokens(args: &Vec<String>) -> (r: (PermValues, Vec<String>))
        ensures
            r.0 == parse_symbols(token_views(args@)),
            r.0.wf(),
            token_views(r.1@) == ignored_tokens(token_views(args@)),
    {
        let ghost toks = token_views(args@);
        let mut read = false;
        let mut write = false;
        let mut execute = false;
        let mut warnings: Vec<String> = Vec::new();
        let mut i: usize = 0;
        while i < args.len()
            invariant
                i <= args@.len(),
                toks == token_views(args@),
                read == toks.subrange(0, i as int).contains(seq!['r']),
                write == toks.subrange(0, i as int).contains(seq!['w']),
                execute == toks.subrange(0, i as int).contains(seq!['e']),
                token_views(warnings@) == ignored_tokens(toks.subrange(0, i as int)),
            decreases args.len() - i,
        {
            let ghost before = toks.subrange(0, i as int);
            let ghost after = toks.subrange(0, i + 1);
            assert(after.drop_last() =~= before);
            assert(after.last() == args@[i as int]@);
            let is_r = is_token(&args[i], 'r');
            let is_w = is_token(&args[i], 'w');
            let is_e = is_token(&args[i], 'e');
            proof {
                assert(after.contains(seq!['r']) == (before.contains(seq!['r']) || is_r)) by {
                    if is_r {
                        assert(after[i as int] == seq!['r']);
                    }
                    if after.contains(seq!['r']) && !is_r {
                        let j = choose|j: int| 0 <= j < after.len() && after[j] == seq!['r'];
                        assert(before[j] == seq!['r']);
                    }
                }
                assert(after.contains(seq!['w']) == (before.contains(seq!['w']) || is_w)) by {
                    if is_w {
                        assert(after[i as int] == seq!['w']);
                    }
                    if after.contains(seq!['w']) && !is_w {
                        let j = choose|j: int| 0 <= j < after.len() && after[j] == seq!['w'];
                        assert(before[j] == seq!['w']);
                    }
                }
                assert(after.contains(seq!['e']) == (before.contains(seq!['e']) || is_e)) by {
                    if is_e {
                        assert(after[i as int] == seq!['e']);
                    }
                    if after.contains(seq!['e']) && !is_e {
                        let j = choose|j: int| 0 <= j < after.len() && after[j] == seq!['e'];
                        assert(before[j] == seq!['e']);
                    }
                }
            }
            read = read || is_r;
            write = write || is_w;
            execute = execute || is_e;
            if !is_r && !is_w && !is_e {
                let t = args[i].clone();
                warnings.push(t);
                assert(token_views(warnings@) =~= ignored_tokens(before).push(after.last()));
            }
            i = i + 1;
        }
        assert(toks.subrange(0, args@.len() as int) =~= toks);
        (PermValues::new(read, write, execute), warnings)
    }

    /// The table row of this triple under the label `header`.
    pub fn as_row(&self, header: &str) -> (r: Vec<String>)
        ensures
            cell_views(r@) == subject_row(header@, *self),
    {
        let mut row: Vec<String> = Vec::new();
        row.push(String::from_str(header));
        row.push(String::from_str(" "));
        row.push(String::from_str(" "));
        row.push(bool_to_cell(self.read));
        row.push(bool_to_cell(self.write));
        row.push(bool_to_cell(self.execute));
        assert(cell_views(row@) =~= subject_row(header@, *self));
        row
    }

    /// The unix-style view of the triple, such as `rw-` or `r-x`.
    pub fn as_raw(&self) -> (r: String)
        ensures
            r@ == self.raw_spec(),
    {
        proof {
            reveal_strlit("r");
            reveal_strlit("w");
            reveal_strlit("x");
            reveal_strlit("-");
        }
        let mut value = String::new();
        if self.read {
            value.append("r");
        } else {
            value.append("-");
        }
        if self.write {
            value.append("w");
        } else {
            value.append("-");
        }
        if self.execute {
            value.append("x");
        } else {
            value.append("-");
        }
        assert(value@ =~= self.raw_spec());
        value
    }
}

} // verus!
