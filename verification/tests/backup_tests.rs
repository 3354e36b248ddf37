use linux_tools::backup_dbs::{
    backup_file_path, database_dir, diff_command, dump_command, excess_backups, get_backup_files,
    is_backup_file, is_unchanged, latest_backups, old_backups_at, remove_old_backups,
    stamp_shape, str_lt, BackupError, DATABASES,
};
use linux_tools::backup_home::{backup_dir, folder_steps, HOME_FOLDERS};
use linux_tools::action::Action;

fn names(v: &[&str]) -> Vec<String> {
    v.iter().map(|s| s.to_string()).collect()
}

#[test]
fn backup_file_names_follow_the_pattern() {
    assert!(is_backup_file("20240101_120000_backup_crm.sql"));
    assert!(is_backup_file("20240101_120000_backup_.sql"));
    assert!(!is_backup_file("20240101_120000_backup_crm.sql.gz"));
    assert!(!is_backup_file("2024010_120000_backup_crm.sql"));
    assert!(!is_backup_file("notes.txt"));
}

#[test]
fn backup_files_newest_first() {
    let all = names(&[
        "20240101_000000_backup_crm.sql",
        "readme.md",
        "20240301_000000_backup_crm.sql",
        "20240201_000000_backup_crm.sql",
    ]);
    assert_eq!(
        get_backup_files(&all),
        names(&[
            "20240301_000000_backup_crm.sql",
            "20240201_000000_backup_crm.sql",
            "20240101_000000_backup_crm.sql",
        ])
    );
    assert!(get_backup_files(&names(&["a", "b"])).is_empty());
}

#[test]
fn string_order_is_lexicographic() {
    assert!(str_lt("abc", "abd"));
    assert!(str_lt("ab", "abc"));
    assert!(!str_lt("abc", "abc"));
    assert!(!str_lt("b", "abc"));
    assert!(str_lt("", "a"));
}

#[test]
fn latest_pair_and_diff() {
    let files = names(&["20240301_000000_backup_crm.sql", "20240201_000000_backup_crm.sql"]);
    assert_eq!(
        latest_backups(&files, "/b"),
        Some(("/b/20240301_000000_backup_crm.sql".to_string(), "/b/20240201_000000_backup_crm.sql".to_string()))
    );
    assert_eq!(latest_backups(&files[..1].to_vec(), "/b"), None);
    assert!(is_unchanged("1c1\n< -- Dump completed\n---\n> -- Dump completed\n"));
    assert!(!is_unchanged("1\n2\n3\n4\n5\n6"));
    assert!(is_unchanged(""));
}

#[test]
fn excess_beyond_a_hundred() {
    let files: Vec<String> = (0..150).map(|i| format!("f{}", i)).collect();
    let excess = excess_backups(&files);
    assert_eq!(excess.len(), 50);
    assert_eq!(excess[0], "f100");
    assert_eq!(excess[49], "f149");
    assert!(excess_backups(&files[..100].to_vec()).is_empty());
}

#[test]
fn retention_thins_old_backups() {
    let now: i64 = 1717200000;
    let files = names(&[
        "20240530_000000_backup_crm.sql",
        "20240520_120000_backup_crm.sql",
        "20240520_060000_backup_crm.sql",
        "20240402_000000_backup_crm.sql",
        "20240401_000000_backup_crm.sql",
        "20230101_000000_backup_crm.sql",
        "20221231_000000_backup_crm.sql",
        "20241301_000000_backup_crm.sql",
    ]);
    assert_eq!(
        old_backups_at(&files, now),
        names(&[
            "20240520_060000_backup_crm.sql",
            "20240401_000000_backup_crm.sql",
            "20221231_000000_backup_crm.sql",
        ])
    );
}

#[test]
fn retention_keeps_the_last_week() {
    let now: i64 = 1717200000;
    let files = names(&["20240526_000000_backup_crm.sql", "20240525_000001_backup_crm.sql"]);
    assert!(old_backups_at(&files, now).is_empty());
    assert!(old_backups_at(&Vec::new(), now).is_empty());
}

#[test]
fn old_backups_at_a_date_text() {
    let files = names(&["20000101_000000_backup_crm.sql", "20000101_000001_backup_crm.sql"]);
    let removed = remove_old_backups(&files, "2024-06-01 00:00:00").ok().unwrap();
    assert_eq!(removed, names(&["20000101_000001_backup_crm.sql"]));
    assert!(remove_old_backups(&files, "not a date").is_err());
    let stamp = chrono::Local::now().format(linux_tools::backup_dbs::STAMP_FORMAT).to_string();
    assert!(stamp_shape(&format!("{}_backup_crm.sql", stamp)));
    assert!(!stamp_shape("2024"));
    assert!(!stamp_shape("2024010\u{e9}_000000_backup.sql"));
}

#[test]
fn backup_error_message() {
    assert_eq!(BackupError::DateParse.message(), "failed to parse date");
}

#[test]
fn backup_commands_and_paths() {
    assert_eq!(DATABASES, ["crm", "learn_vietnamese", "tractor_pulling"]);
    assert_eq!(database_dir("/home/u", "crm"), "/home/u/backups/databases/crm");
    assert_eq!(dump_command("crm"), "mariadb-dump --order-by-primary --extended-insert=FALSE crm");
    assert_eq!(
        backup_file_path("/d", "20240101_000000", "crm"),
        "/d/20240101_000000_backup_crm.sql"
    );
    assert_eq!(diff_command("/d/a", "/d/b"), "diff /d/a /d/b");
}

#[test]
fn home_backup_steps() {
    assert_eq!(HOME_FOLDERS.len(), 4);
    assert_eq!(backup_dir("/home/u"), "/home/u/backups/home");
    let plain = folder_steps("/home/u/backups/home", "/home/u", "Music", false, "");
    assert_eq!(
        plain,
        vec![
            Action::Shell { command: "rm -f /home/u/backups/home/Music.tar.gz".to_string(), quiet: true },
            Action::Shell { command: "rm -f /home/u/backups/home/Music.tar.gz.gpg".to_string(), quiet: true },
            Action::Print("Compressing Music...".to_string()),
            Action::ShellAt {
                command: "tar --exclude-vcs -cvzf /home/u/backups/home/Music.tar.gz Music".to_string(),
                dir: "/home/u".to_string(),
                quiet: true,
            },
        ]
    );
    let secret = folder_steps("/b", "/h", "Documents", true, "pw");
    assert_eq!(secret.len(), 7);
    assert_eq!(
        secret[5],
        Action::ShellAt {
            command: "gpg --batch -c --passphrase pw /b/Documents.tar.gz".to_string(),
            dir: "/h".to_string(),
            quiet: true,
        }
    );
    assert_eq!(secret[6], Action::Shell { command: "rm -f /b/Documents.tar.gz".to_string(), quiet: true });
}

#[test]
fn stamps_are_cut_at_byte_offsets() {
    let arabic = "2024\u{660}\u{660}12_120000_backup_x.sql";
    assert!(stamp_shape(arabic));
    assert!(stamp_shape("20240101_000000"));
    assert!(!stamp_shape("20240101_00000"));
    assert!(!stamp_shape("202\u{e9}0101_000000_backup.sql"));
    let now: i64 = 1717200000;
    let files = names(&["20240101_000000_backup_x.sql", arabic, "20240101_000001_backup_x.sql"]);
    assert_eq!(old_backups_at(&files, now), names(&["20240101_000001_backup_x.sql"]));
}
