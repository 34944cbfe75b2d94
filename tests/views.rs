use permissions::compute::{calculate, tokens_of};
use permissions::error::{ArgumentErrorLength, UtilsError};
use permissions::record::{octal_of, select_subjects, FilePermission, PrintStyle};
use permissions::triple::{bool_to_cell, push_digit, PermValues};

fn toks(s: &[&str]) -> Vec<String> {
    s.iter().map(|t| t.to_string()).collect()
}

fn parse(s: &[&str]) -> (PermValues, Vec<String>) {
    PermValues::from_user_input(toks(s)).unwrap()
}

fn cells(rows: &[&[&str]]) -> Vec<Vec<String>> {
    rows.iter().map(|r| toks(r)).collect()
}

#[test]
fn symbols_ignore_order_and_repetition() {
    for input in [&["r", "w", "e"][..], &["e", "w", "r"][..], &["r", "r", "w", "w", "e", "e"][..]] {
        let (p, warnings) = parse(input);
        assert_eq!(p.octal_num, 7);
        assert!(p.read && p.write && p.execute);
        assert!(warnings.is_empty());
    }
}

#[test]
fn symbols_empty_input() {
    let (p, warnings) = parse(&[]);
    assert_eq!(p, PermValues { read: false, write: false, execute: false, octal_num: 0 });
    assert!(warnings.is_empty());
}

#[test]
fn symbols_unknown_token_is_ignored_with_warning() {
    let (p, warnings) = parse(&["r", "x"]);
    assert_eq!(p, PermValues { read: true, write: false, execute: false, octal_num: 4 });
    assert_eq!(warnings, toks(&["x"]));
}

#[test]
fn symbols_warnings_keep_order_and_repeats() {
    let (p, warnings) = parse(&["q", "w", "rw", "q", "e"]);
    assert_eq!(p, PermValues { read: false, write: true, execute: true, octal_num: 3 });
    assert_eq!(warnings, toks(&["q", "rw", "q"]));
}

#[test]
fn symbols_every_digit() {
    let cases: [(&[&str], u32); 8] = [
        (&[], 0),
        (&["e"], 1),
        (&["w"], 2),
        (&["w", "e"], 3),
        (&["r"], 4),
        (&["r", "e"], 5),
        (&["r", "w"], 6),
        (&["r", "w", "e"], 7),
    ];
    for (input, d) in cases {
        let (p, _) = parse(input);
        assert_eq!(p.octal_num, d);
        assert_eq!(p, PermValues::new(p.read, p.write, p.execute));
    }
}

#[test]
fn decode_755() {
    let (u, g, o) = FilePermission::decode_mode(0o755);
    assert_eq!(u, PermValues { read: true, write: true, execute: true, octal_num: 7 });
    assert_eq!(g, PermValues { read: true, write: false, execute: true, octal_num: 5 });
    assert_eq!(o, PermValues { read: true, write: false, execute: true, octal_num: 5 });
}

#[test]
fn decode_ignores_type_bits() {
    assert_eq!(FilePermission::decode_mode(0o100644), FilePermission::decode_mode(0o644));
    assert_eq!(FilePermission::decode_mode(0o40755), FilePermission::decode_mode(0o755));
    assert_eq!(FilePermission::decode_mode(0o7000), FilePermission::decode_mode(0));
}

#[test]
fn decode_is_deterministic() {
    for m in [0u32, 0o421, 0o644, 0o755, 0o777, 0o100600, u32::MAX] {
        assert_eq!(FilePermission::decode_mode(m), FilePermission::decode_mode(m));
    }
}

#[test]
fn decode_each_bit() {
    let (u, g, o) = FilePermission::decode_mode(0o400);
    assert!(u.read && !u.write && !u.execute && g.octal_num == 0 && o.octal_num == 0);
    let (u, _, _) = FilePermission::decode_mode(0o200);
    assert_eq!(u.octal_num, 2);
    let (u, _, _) = FilePermission::decode_mode(0o100);
    assert_eq!(u.octal_num, 1);
    let (_, g, _) = FilePermission::decode_mode(0o060);
    assert_eq!(g, PermValues { read: true, write: true, execute: false, octal_num: 6 });
    let (_, _, o) = FilePermission::decode_mode(0o003);
    assert_eq!(o, PermValues { read: false, write: true, execute: true, octal_num: 3 });
}

#[test]
fn byte_decoders() {
    assert_eq!(FilePermission::perm_other(&0b101).octal_num, 5);
    assert_eq!(FilePermission::perm_groups(&0b0011_1000).octal_num, 7);
    assert_eq!(FilePermission::perm_user(&1, &0b1000_0000).octal_num, 6);
    assert_eq!(FilePermission::perm_user(&0, &0b0100_1000).octal_num, 1);
    assert_eq!(FilePermission::perm_user(&0, &0b0000_1000).octal_num, 0);
}

#[test]
fn record_keeps_metadata() {
    let f = FilePermission::from_mode("a/b".to_string(), true, false, 0o40750);
    assert_eq!(f.name, "a/b");
    assert!(f.dir && !f.symlink);
    assert_eq!(f.num, 0o40750);
    assert_eq!((f.user.octal_num, f.group.octal_num, f.other.octal_num), (7, 5, 0));
}

#[test]
fn octal_view_regular_file() {
    let f = FilePermission::from_mode("f".to_string(), false, false, 0o644);
    assert_eq!(f.number_string(), "0644");
}

#[test]
fn octal_view_directory() {
    let f = FilePermission::from_mode("d".to_string(), true, false, 0o40755);
    assert_eq!(f.number_string(), "1755");
}

#[test]
fn unix_view_symlink_all_by_default() {
    let f = FilePermission::from_mode("l".to_string(), false, true, 0o777);
    assert_eq!(f.unix_string(false, false, false), "lrwxrwxrwx   ");
}

#[test]
fn unix_view_directory_and_file() {
    let d = FilePermission::from_mode("d".to_string(), true, false, 0o755);
    assert_eq!(d.unix_string(false, false, false), "drwxr-xr-x   ");
    let f = FilePermission::from_mode("f".to_string(), false, false, 0o640);
    assert_eq!(f.unix_string(true, true, true), ".rw-r-----   ");
    let s = FilePermission::from_mode("s".to_string(), true, true, 0);
    assert_eq!(s.unix_string(false, false, false), "l---------   ");
}

#[test]
fn unix_view_only_group() {
    let f = FilePermission::from_mode("f".to_string(), false, false, 0o754);
    assert_eq!(f.unix_string(false, true, false), ".r-x   ");
    assert_eq!(f.unix_string(true, false, true), ".rwxr--   ");
}

#[test]
fn table_view_only_group() {
    let f = FilePermission::from_mode("f".to_string(), false, false, 0o754);
    let expected = cells(&[
        &["File Permissions", "Is directory", "Is symlink", "read", "write", "execute"],
        &["f", "false", "false"],
        &["Group", " ", " ", "true", "false", "true"],
    ]);
    assert_eq!(f.table_rows(false, true, false), expected);
}

#[test]
fn table_view_all_by_default() {
    let f = FilePermission::from_mode("dir".to_string(), true, false, 0o750);
    let expected = cells(&[
        &["File Permissions", "Is directory", "Is symlink", "read", "write", "execute"],
        &["dir", "true", "false"],
        &["User", " ", " ", "true", "true", "true"],
        &["Group", " ", " ", "true", "false", "true"],
        &["Other", " ", " ", "false", "false", "false"],
    ]);
    assert_eq!(f.table_rows(false, false, false), expected);
    assert_eq!(f.table_rows(true, true, true), expected);
    assert_eq!(f.print_rows(PrintStyle::Simple), expected);
}

#[test]
fn selection_policy() {
    assert_eq!(select_subjects(false, false, false), (true, true, true));
    assert_eq!(select_subjects(false, true, false), (false, true, false));
    assert_eq!(select_subjects(true, false, true), (true, false, true));
}

#[test]
fn triple_rendering() {
    let p = PermValues::new(true, false, true);
    assert_eq!(p.octal_num, 5);
    assert_eq!(p.as_raw(), "r-x");
    assert_eq!(PermValues::new(false, true, false).as_raw(), "-w-");
    assert_eq!(p.as_row("User"), toks(&["User", " ", " ", "true", "false", "true"]));
    assert_eq!(bool_to_cell(false), "false");
    let mut s = "x".to_string();
    push_digit(&mut s, 6);
    assert_eq!(s, "x6");
}

#[test]
fn compute_path_octal() {
    let u = PermValues::new(true, true, true);
    let g = PermValues::new(true, false, true);
    let o = PermValues::new(false, false, false);
    assert_eq!(octal_of(&u, &g, &o), "750");
}

#[test]
fn calculate_from_strings() {
    let (octal, warnings) = calculate("rwe", "re", "rx");
    assert_eq!(octal, "754");
    assert_eq!(warnings, toks(&["x"]));
    let (octal, warnings) = calculate("", "zw", "ewr");
    assert_eq!(octal, "027");
    assert_eq!(warnings, toks(&["z"]));
    let (octal, warnings) = calculate("rrwwee", "a", "");
    assert_eq!(octal, "700");
    assert_eq!(warnings, toks(&["a"]));
}

#[test]
fn tokens_are_single_characters() {
    assert_eq!(tokens_of("rwé"), toks(&["r", "w", "é"]));
    assert!(tokens_of("").is_empty());
}

#[test]
fn error_values() {
    let e = ArgumentErrorLength { length: 4, expected: 3 };
    assert_eq!(e.clone(), e);
    let u = UtilsError::InvalidInput("File name is empty".to_string());
    assert_eq!(u, UtilsError::InvalidInput("File name is empty".to_string()));
}
