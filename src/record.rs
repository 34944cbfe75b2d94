use vstd::prelude::*;

use crate::triple::{
    bool_cell, bool_to_cell, cell_views, digit_char, push_digit, subject_row, triple_of, PermValues,
};

verus! {

/// Whether any bit of `mask` is set in `mode`.
pub open spec fn has_bit(mode: u32, mask: u32) -> bool {
    mode & mask != 0
}

/// The owner's triple of a mode integer: bits 0o400, 0o200 and 0o100.
pub open spec fn user_of(mode: u32) -> PermValues {
    triple_of(has_bit(mode, 0o400), has_bit(mode, 0o200), has_bit(mode, 0o100))
}

/// The group's triple of a mode integer: bits 0o040, 0o020 and 0o010.
pub open spec fn group_of(mode: u32) -> PermValues {
    triple_of(has_bit(mode, 0o040), has_bit(mode, 0o020), has_bit(mode, 0o010))
}

/// The triple of everybody else: bits 0o004, 0o002 and 0o001.
pub open spec fn other_of(mode: u32) -> PermValues {
    triple_of(has_bit(mode, 0o004), has_bit(mode, 0o002), has_bit(mode, 0o001))
}

/// The user, group and other triples of a mode integer; all other bits of
/// it are ignored.
pub open spec fn decoded(mode: u32) -> (PermValues, PermValues, PermValues) {
    (user_of(mode), group_of(mode), other_of(mode))
}

/// The subjects that a view shows: those requested, or all three where none
/// is.
pub open spec fn selection(user: bool, group: bool, other: bool) -> (bool, bool, bool) {
    if !user && !group && !other {
        (true, true, true)
    } else {
        (user, group, other)
    }
}

/// The header row of the table view.
pub open spec fn header_row() -> Seq<Seq<char>> {
    seq!["File Permissions"@, "Is directory"@, "Is symlink"@, "read"@, "write"@, "execute"@]
}

/// The views of the rows of a table.
pub open spec fn row_views(rows: Seq<Vec<String>>) -> Seq<Seq<Seq<char>>> {
    rows.map_values(|r: Vec<String>| cell_views(r@))
}

/// Resolves which subjects a view shows: it starts from an empty selection,
/// adds each requested subject, and selects all three when it is still empty.
pub fn select_subjects(user: bool, group: bool, other: bool) -> (r: (bool, bool, bool))
    ensures
        r == selection(user, group, other),
{
    let mut chosen: (bool, bool, bool) = (false, false, false);
    if user {
        chosen.0 = true;
    }
    if group {
        chosen.1 = true;
    }
    if other {
        chosen.2 = true;
    }
    if !chosen.0 && !chosen.1 && !chosen.2 {
        chosen = (true, true, true);
    }
    chosen
}

/// The compute-path octal view: the digits of the three triples, such as
/// `755`.
pub fn octal_of(user: &PermValues, group: &PermValues, other: &PermValues) -> (r: String)
    requires
        user.wf(),
        group.wf(),
        other.wf(),
    ensures
        r@ == seq![digit_char(user.octal_num), digit_char(group.octal_num), digit_char(other.octal_num)],
{
    let mut s = String::new();
    push_digit(&mut s, user.octal_num);
    push_digit(&mut s, group.octal_num);
    push_digit(&mut s, other.octal_num);
    assert(s@ =~= seq![digit_char(user.octal_num), digit_char(group.octal_num), digit_char(other.octal_num)]);
    s
}

/// How a file's permissions are shown as a table.
#[derive(Debug, Clone, Copy, PartialEq, Eq, Structural)]
pub enum PrintStyle {
    Simple,
}

/// The permissions of one inspected path, with what kind of entry it is.
#[derive(Debug)]
pub struct FilePermission {
    pub dir: bool,
    pub user: PermValues,
    pub group: PermValues,
    pub other: PermValues,
    pub num: u32,
    pub name: String,
    pub symlink: bool,
}

impl FilePermission {
    /// The three triples are those that the mode integer decodes to.
    pub open spec fn wf(&self) -> bool {
        (self.user, self.group, self.other) == decoded(self.num)
    }

    /// The first character of the unix-style view: `l` for a symlink, else
    /// `d` for a directory, else `.`.
    pub open spec fn kind_char(&self) -> char {
        if self.symlink {
            'l'
        } else if self.dir {
            'd'
        } else {
            '.'
        }
    }

    /// The unix-style view: the kind character, the `rwx` characters of each
    /// selected subject, and three spaces.
    pub open spec fn unix_spec(&self, user: bool, group: bool, other: bool) -> Seq<char> {
        let sel = selection(user, group, other);
        seq![self.kind_char()] + (if sel.0 {
            self.user.raw_spec()
        } else {
            seq![]
        }) + (if sel.1 {
            self.group.raw_spec()
        } else {
            seq![]
        }) + (if sel.2 {
            self.other.raw_spec()
        } else {
            seq![]
        }) + seq![' ', ' ', ' ']
    }

    /// The inspect-path octal view: the directory flag as `0` or `1`, then
    /// the digits of user, group and other.
    pub open spec fn number_spec(&self) -> Seq<char> {
        seq![
            if self.dir {
                '1'
            } else {
                '0'
            },
            digit_char(self.user.octal_num),
            digit_char(self.group.octal_num),
            digit_char(self.other.octal_num),
        ]
    }

    /// The row that names the path and says what kind of entry it is.
    pub open spec fn summary_row(&self) -> Seq<Seq<char>> {
        seq![self.name@, bool_cell(self.dir), bool_cell(self.symlink)]
    }

    /// The table view: the header row, the summary row, and one row for each
    /// selected subject.
    pub open spec fn table_spec(&self, user: bool, group: bool, other: bool) -> Seq<
        Seq<Seq<char>>,
    > {
        let sel = selection(user, group, other);
        seq![header_row(), self.summary_row()] + (if sel.0 {
            seq![subject_row("User"@, self.user)]
        } else {
            seq![]
        }) + (if sel.1 {
            seq![subject_row("Group"@, self.group)]
        } else {
            seq![]
        }) + (if sel.2 {
            seq![subject_row("Other"@, self.other)]
        } else {
            seq![]
        })
    }

    /// The triple of "other" in the lowest byte of a mode integer: bits 2, 1
    /// and 0.
    pub fn perm_other(b: &u8) -> (r: PermValues)
        ensures
            r == triple_of(*b & 4 != 0, *b & 2 != 0, *b & 1 != 0),
            r.wf(),
    {
        let b = *b;
        let r = ((b & 0b000_0100) >> 2) == 1;
        let w = ((b & 0b000_0010) >> 1) == 1;
        let e = (b & 0b000_0001) == 1;
        assert(r == (b & 4 != 0) && w == (b & 2 != 0) && e == (b & 1 != 0)) by (bit_vector)
            requires
                r == (((b & 4) >> 2) == 1),
                w == (((b & 2) >> 1) == 1),
                e == ((b & 1) == 1),
        ;
        PermValues::new(r, w, e)
    }

    /// The group's triple in the lowest byte of a mode integer: bits 5, 4
    /// and 3.
    pub fn perm_groups(b: &u8) -> (r: PermValues)
        ensures
            r == triple_of(*b & 0x20 != 0, *b & 0x10 != 0, *b & 0x08 != 0),
            r.wf(),
    {
        let b = *b;
        let r = ((b & 0b010_0000) >> 5) == 1;
        let w = ((b & 0b001_0000) >> 4) == 1;
        let e = ((b & 0b000_1000) >> 3) == 1;
        assert(r == (b & 0x20 != 0) && w == (b & 0x10 != 0) && e == (b & 0x08 != 0))
            by (bit_vector)
            requires
                r == (((b & 0x20) >> 5) == 1),
                w == (((b & 0x10) >> 4) == 1),
                e == (((b & 0x08) >> 3) == 1),
        ;
        PermValues::new(r, w, e)
    }

    /// The owner's triple, which straddles two bytes of a mode integer: read
    /// is bit 0 of the second-lowest byte `n1l_b`, write and execute are bits
    /// 7 and 6 of the lowest byte `n0h_b`.
    pub fn perm_user(n1l_b: &u8, n0h_b: &u8) -> (r: PermValues)
        ensures
            r == triple_of(*n1l_b & 1 != 0, *n0h_b & 0x80 != 0, *n0h_b & 0x40 != 0),
            r.wf(),
    {
        let hi = *n1l_b;
        let lo = *n0h_b;
        let r = (hi & 0b000_0001) == 1;
        let w = ((lo & 0b1000_0000) >> 7) == 1;
        let e = ((lo & 0b0100_0000) >> 6) == 1;
        assert(r == (hi & 1 != 0) && w == (lo & 0x80 != 0) && e == (lo & 0x40 != 0))
            by (bit_vector)
            requires
                r == ((hi & 1) == 1),
                w == (((lo & 0x80) >> 7) == 1),
                e == (((lo & 0x40) >> 6) == 1),
        ;
        PermValues::new(r, w, e)
    }

    /// The user, group and other triples of a mode integer.
    pub fn decode_mode(mode: u32) -> (r: (PermValues, PermValues, PermValues))
        ensures
            r == decoded(mode),
            r.0.wf() && r.1.wf() && r.2.wf(),
    {
        let lo: u8 = (mode & 0xff) as u8;
        let hi: u8 = ((mode >> 8) & 0xff) as u8;
        let user = FilePermission::perm_user(&hi, &lo);
        let group = FilePermission::perm_groups(&lo);
        let other = FilePermission::perm_other(&lo);
        assert((hi & 1 != 0) == has_bit(mode, 0o400) && (lo & 0x80 != 0) == has_bit(mode, 0o200)
            && (lo & 0x40 != 0) == has_bit(mode, 0o100)) by (bit_vector)
            requires
                lo == (mode & 0xff) as u8,
                hi == ((mode >> 8) & 0xff) as u8,
        ;
        assert((lo & 0x20 != 0) == has_bit(mode, 0o040) && (lo & 0x10 != 0) == has_bit(mode, 0o020)
            && (lo & 0x08 != 0) == has_bit(mode, 0o010)) by (bit_vector)
            requires
                lo == (mode & 0xff) as u8,
        ;
        assert((lo & 4 != 0) == has_bit(mode, 0o004) && (lo & 2 != 0) == has_bit(mode, 0o002) && (
        lo & 1 != 0) == has_bit(mode, 0o001)) by (bit_vector)
            requires
                lo == (mode & 0xff) as u8,
        ;
        (user, group, other)
    }

    /// The record of the path `name`, from what the operating system reports
    /// of it: whether it is a directory or a symlink, and its mode integer.
    pub fn from_mode(name: String, dir: bool, symlink: bool, mode: u32) -> (r: FilePermission)
        ensures
            r.wf(),
            r.name == name,
            r.dir == dir,
            r.symlink == symlink,
            r.num == mode,
            (r.user, r.group, r.other) == decoded(mode),
    {
        let (user, group, other) = FilePermission::decode_mode(mode);
        FilePermission { dir, user, group, other, num: mode, name, symlink }
    }

    /// The unix-style view of the subjects requested (all three where none
    /// is), such as `drwxr-xr-x   `.
    pub fn unix_string(&self, user: bool, group: bool, other: bool) -> (r: String)
        ensures
            r@ == self.unix_spec(user, group, other),
    {
        proof {
            reveal_strlit("l");
            reveal_strlit("d");
            reveal_strlit(".");
            reveal_strlit("   ");
        }
        let sel = select_subjects(user, group, other);
        let mut out = String::new();
        if self.symlink {
            out.append("l");
        } else if self.dir {
            out.append("d");
        } else {
            out.append(".");
        }
        if sel.0 {
            out.append(self.user.as_raw().as_str());
        }
        if sel.1 {
            out.append(self.group.as_raw().as_str());
        }
        if sel.2 {
            out.append(self.other.as_raw().as_str());
        }
        out.append("   ");
        assert(out@ =~= self.unix_spec(user, group, other));
        out
    }

    /// The inspect-path octal view, such as `0644` for a regular file or
    /// `1755` for a directory.
    pub fn number_string(&self) -> (r: String)
        requires
            self.wf(),
        ensures
            r@ == self.number_spec(),
    {
        proof {
            reveal_strlit("0");
            reveal_strlit("1");
        }
        let mut s = String::new();
        if self.dir {
            s.append("1");
        } else {
            s.append("0");
        }
        push_digit(&mut s, self.user.octal_num);
        push_digit(&mut s, self.group.octal_num);
        push_digit(&mut s, self.other.octal_num);
        assert(s@ =~= self.number_spec());
        s
    }

    /// The rows of the table view of the subjects requested (all three where
    /// none is), header row first.
    pub fn table_rows(&self, user: bool, group: bool, other: bool) -> (r: Vec<Vec<String>>)
        ensures
            row_views(r@) == self.table_spec(user, group, other),
    {
        let sel = select_subjects(user, group, other);
        let mut header: Vec<String> = Vec::new();
        header.push(String::from_str("File Permissions"));
        header.push(String::from_str("Is directory"));
        header.push(String::from_str("Is symlink"));
        header.push(String::from_str("read"));
        header.push(String::from_str("write"));
        header.push(String::from_str("execute"));
        assert(cell_views(header@) =~= header_row());
        let mut summary: Vec<String> = Vec::new();
        summary.push(self.name.clone());
        summary.push(bool_to_cell(self.dir));
        summary.push(bool_to_cell(self.symlink));
        assert(cell_views(summary@) =~= self.summary_row());
        let mut rows: Vec<Vec<String>> = Vec::new();
        rows.push(header);
        rows.push(summary);
        let ghost expected = seq![header_row(), self.summary_row()];
        assert(row_views(rows@) =~= expected);
        if sel.0 {
            rows.push(self.user.as_row("User"));
            proof {
                expected = expected + seq![subject_row("User"@, self.user)];
            }
            assert(row_views(rows@) =~= expected);
        }
        if sel.1 {
            rows.push(self.group.as_row("Group"));
            proof {
                expected = expected + seq![subject_row("Group"@, self.group)];
            }
            assert(row_views(rows@) =~= expected);
        }
        if sel.2 {
            rows.push(self.other.as_row("Other"));
            proof {
                expected = expected + seq![subject_row("Other"@, self.other)];
            }
            assert(row_views(rows@) =~= expected);
        }
        assert(expected =~= self.table_spec(user, group, other));
        rows
    }

    /// The rows of the table of all three subjects in the given style.
    pub fn print_rows(&self, style: PrintStyle) -> (r: Vec<Vec<String>>)
        ensures
            row_views(r@) == self.table_spec(true, true, true),
    {
        match style {
            PrintStyle::Simple => self.table_rows(true, true, true),
        }
    }
}

} // verus!
