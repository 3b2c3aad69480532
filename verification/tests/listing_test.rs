use vocofo::listing::{
    canonical_reply, exists_reply, file_info_from_attrs, parse_list_lines, parse_stat_reply,
    scp_command_line, scp_err, sftp_entries, shell_escape, split_lines, ScpCommand,
};
use vocofo::messages_enum::MessageEnum;
use vocofo::text::{parse_unsigned_str, sort_strings, trim_end_matches_str};

#[test]
fn test_shell_escape_quotes() {
    assert_eq!(shell_escape("plain"), "'plain'");
    assert_eq!(shell_escape("it's"), "'it'\\''s'");
    assert_eq!(shell_escape(""), "''");
}

#[test]
fn test_scp_command_lines() {
    assert_eq!(scp_command_line(&ScpCommand::List { path: "/a b".to_string() }), "ls -la '/a b'");
    assert_eq!(
        scp_command_line(&ScpCommand::Stat { path: "/f".to_string() }),
        "stat --format='%s %F %a' '/f' 2>/dev/null || echo 'NOTFOUND'"
    );
    assert_eq!(
        scp_command_line(&ScpCommand::Exists { path: "/f".to_string() }),
        "test -e '/f' && echo 1 || echo 0"
    );
    assert_eq!(
        scp_command_line(&ScpCommand::Canonicalize { path: "x".to_string() }),
        "readlink -f 'x' 2>/dev/null || echo 'x'"
    );
    assert_eq!(
        scp_command_line(&ScpCommand::Move { from: "a".to_string(), to: "b".to_string() }),
        "mv 'a' 'b'"
    );
    assert_eq!(
        scp_command_line(&ScpCommand::CopyAll { from: "a".to_string(), to: "b".to_string() }),
        "cp -r 'a' 'b'"
    );
    assert_eq!(
        scp_command_line(&ScpCommand::Chmod { path: "f".to_string(), mode: 0o755 }),
        "chmod 755 'f'"
    );
    assert_eq!(scp_command_line(&ScpCommand::RemoveAll { path: "d".to_string() }), "rm -rf 'd'");
}

#[test]
fn test_scp_err_text() {
    assert_eq!(scp_err("operation", "broken pipe"), "SCP operation: broken pipe");
}

#[test]
fn test_stat_reply_parsing() {
    let info = parse_stat_reply("/srv/file.txt", "1234 regular file 644\n").unwrap();
    assert_eq!(info.name, "file.txt");
    assert_eq!(info.size, 1234);
    assert!(info.is_file && !info.is_dir && !info.is_symlink);
    // "%F" of a regular file has a space in it, so the third field is "file 644".
    assert_eq!(info.mode, None);
    assert!(!info.readonly);
    let dir = parse_stat_reply("/srv/d", "4096 directory 555").unwrap();
    assert!(dir.is_dir);
    assert_eq!(dir.mode, Some(0o555));
    assert!(dir.readonly);
    assert_eq!(parse_stat_reply("/srv/x", "NOTFOUND\n").err(), Some("File not found".to_string()));
    assert_eq!(parse_stat_reply("/srv/x", "  \n").err(), Some("File not found".to_string()));
}

#[test]
fn test_exists_and_canonical_replies() {
    assert!(exists_reply("1\n"));
    assert!(!exists_reply("0\n"));
    assert_eq!(canonical_reply("/x", "/real/x\n"), "/real/x");
    assert_eq!(canonical_reply("/x", "\n"), "/x");
}

#[test]
fn test_split_lines_like_std() {
    let samples = ["", "a", "a\n", "a\r\nb", "\n\nx\n", "a\rb\n\r\n", "\r"];
    for s in samples {
        let expected: Vec<String> = s.lines().map(|l| l.to_string()).collect();
        assert_eq!(split_lines(s), expected, "{:?}", s);
    }
}

#[test]
fn test_parse_list_lines_skips_unparsable() {
    let lines = vec![
        "total 8".to_string(),
        "drwxr-xr-x 2 u g 4096 Jan 01 12:00 .".to_string(),
        "drwxr-xr-x 2 u g 4096 Jan 01 12:00 dir".to_string(),
        "-rw-r--r-- 1 u g 3 Jan 01 12:00 a.txt".to_string(),
    ];
    let entries = parse_list_lines(&lines, 2024);
    assert_eq!(entries.len(), 2);
    assert_eq!(entries[0].name, "dir");
    assert!(entries[0].info.is_dir);
    assert_eq!(entries[1].info.size, 3);
}

#[test]
fn test_sftp_entries_skip_dots() {
    let raw = vec![
        (".".to_string(), None, Some(0o040755), None),
        ("..".to_string(), None, Some(0o040755), None),
        ("docs".to_string(), Some(4096), Some(0o040755), Some(10)),
        ("a.txt".to_string(), Some(12), Some(0o100444), Some(20)),
        ("ln".to_string(), Some(1), Some(0o120777), None),
    ];
    let entries = sftp_entries(&raw);
    assert_eq!(entries.len(), 3);
    assert!(entries[0].info.is_dir);
    assert!(entries[1].info.is_file && entries[1].info.readonly);
    assert_eq!(entries[1].info.modified, Some(20));
    assert!(entries[2].info.is_symlink);
}

#[test]
fn test_file_info_from_attrs_defaults() {
    let info = file_info_from_attrs("n", None, None, None);
    assert_eq!(info.size, 0);
    assert!(!info.is_dir && !info.is_file && !info.is_symlink);
    assert!(!info.readonly);
    assert!(info.mode.is_none());
}

#[test]
fn test_parse_unsigned_like_std() {
    let samples = ["0", "22", "+22", "65535", "65536", "", "+", "-1", " 1", "1a", "007"];
    for s in samples {
        let expected = s.parse::<u16>().ok().map(|v| v as u64);
        assert_eq!(parse_unsigned_str(s, 10, 65535), expected, "{:?}", s);
    }
    for s in ["755", "7777", "8", "17777777777", "40000000000"] {
        let expected = u32::from_str_radix(s, 8).ok().map(|v| v as u64);
        assert_eq!(parse_unsigned_str(s, 8, 0xFFFF_FFFF), expected, "{:?}", s);
    }
}

#[test]
fn test_sort_strings_like_std() {
    let v: Vec<String> = ["b", "A", "a", "../", "-x/", "aa", "\u{e9}", "Z"].iter().map(|s| s.to_string()).collect();
    let mut expected = v.clone();
    expected.sort();
    assert_eq!(sort_strings(v), expected);
}

#[test]
fn test_trim_end_matches_like_std() {
    for s in ["Copying a...", "Copying a......", "x..", "...", "none"] {
        assert_eq!(trim_end_matches_str(s, "..."), s.trim_end_matches("..."));
    }
}

#[test]
fn test_message_texts() {
    assert_eq!(MessageEnum::AppTitle.as_str(), "Vocofo File Manager");
    assert_eq!(MessageEnum::ErrorNotFound.as_str(), "Item not found");
    assert_eq!(MessageEnum::ErrorInvalidInput("x".to_string()).as_str(), "Invalid input: x");
}
