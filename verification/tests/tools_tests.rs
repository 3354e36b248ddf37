use linux_tools::action::Action;
use linux_tools::image_resizer::{
    convert_command, dimension_command, in_small_folder, is_skipped_path, jpeg_target, parse_dimension,
    relative_folder, remove_command, resize_command, resize_decision, Resize, MAX_SIZE,
};
use linux_tools::sfs::{is_skipped_entry, max_size, option_value, relative_entry, size_label, sort_by_size};
use linux_tools::website_setup::{git_dir, make_dir, project_steps, tar_dir, PROJECTS};

#[test]
fn jpeg_targets() {
    let t = jpeg_target("/home/u/Pictures/a.b/photo.png").unwrap();
    assert_eq!(t.file_name, "/home/u/Pictures/a.b/photo.jpeg");
    assert!(t.needs_conversion);
    let j = jpeg_target("/p/x.jpeg").unwrap();
    assert_eq!(j.file_name, "/p/x.jpeg");
    assert!(!j.needs_conversion);
    assert!(jpeg_target("/p/noext").is_none());
}

#[test]
fn folders_of_the_walk() {
    assert!(is_skipped_path("/home/u/Pictures/.git"));
    assert!(!is_skipped_path("/home/u/Pictures/trip"));
    assert_eq!(relative_folder("/home/u/Pictures/", "/home/u/Pictures/"), None);
    assert_eq!(relative_folder("/home/u/Pictures/", "/home/u/Pictures/trip"), Some("trip".to_string()));
    let folders = vec!["trip".to_string(), "family".to_string()];
    assert!(in_small_folder("/home/u/Pictures/family/a.jpeg", &folders));
    assert!(!in_small_folder("/home/u/Pictures/work/a.jpeg", &folders));
    assert!(!in_small_folder("/x", &Vec::new()));
}

#[test]
fn image_commands() {
    assert_eq!(convert_command("a.png", "a.jpeg"), "convert a.png a.jpeg ");
    assert_eq!(remove_command("a.png"), "rm -f a.png");
    assert_eq!(dimension_command("a.jpeg", "h"), "identify -format %[h] a.jpeg");
    assert_eq!(parse_dimension("3000"), 3000);
    assert_eq!(parse_dimension("abc"), 0);
    assert_eq!(parse_dimension(""), 0);
}

#[test]
fn resize_decisions() {
    assert_eq!(MAX_SIZE, 2400);
    assert_eq!(resize_decision(3000, 2000), Resize::TooTall);
    assert_eq!(resize_decision(2000, 3000), Resize::TooWide);
    assert_eq!(resize_decision(3000, 3000), Resize::TooWide);
    assert_eq!(resize_decision(2400, 2400), Resize::SmallEnough);
    assert_eq!(resize_command("a.jpeg", Resize::TooTall), Some("convert a.jpeg -resize x2400 a.jpeg".to_string()));
    assert_eq!(resize_command("a.jpeg", Resize::TooWide), Some("convert a.jpeg -resize 2400 a.jpeg".to_string()));
    assert_eq!(resize_command("a.jpeg", Resize::SmallEnough), None);
}

#[test]
fn size_labels() {
    assert_eq!(size_label(0), "0 B ");
    assert_eq!(size_label(1024), "1024 B ");
    assert_eq!(size_label(1025), "1 KB");
    assert_eq!(size_label(5 * 1024 * 1024 + 1), "5 MB");
    assert_eq!(size_label(3 * 1024 * 1024 * 1024 + 7), "3 GB");
    assert_eq!(size_label(2 * 1024 * 1024 * 1024 * 1024 + 1), "2 TB");
    assert_eq!(size_label(u64::MAX), "16777215 TB");
}

#[test]
fn entries_by_size() {
    let entries = vec![
        ("/a".to_string(), 10u64),
        ("/b".to_string(), 30u64),
        ("/c".to_string(), 10u64),
        ("/d".to_string(), 20u64),
        ("/e".to_string(), 30u64),
    ];
    let sorted = sort_by_size(&entries);
    let order: Vec<&str> = sorted.iter().map(|e| e.0.as_str()).collect();
    assert_eq!(order, vec!["/b", "/e", "/d", "/a", "/c"]);
    assert_eq!(max_size(&entries), 30);
    assert_eq!(max_size(&Vec::new()), 0);
    assert!(sort_by_size(&Vec::new()).is_empty());
}

#[test]
fn scan_entries() {
    assert!(is_skipped_entry("/proc"));
    assert!(!is_skipped_entry("/proc/1"));
    assert_eq!(relative_entry("/home/u/Music", "/home/u"), "/Music");
    assert_eq!(relative_entry("/x/y", "/z"), "/x/y");
    assert_eq!(option_value("/home/u", "/Music"), "/home/u/Music");
}

#[test]
fn website_project_steps() {
    assert_eq!(PROJECTS.len(), 5);
    let g = git_dir("/home/u");
    assert_eq!(g, "/home/u/git/grantfbarnes");
    let t = tar_dir(&g);
    assert_eq!(t, "/home/u/git/grantfbarnes/website_deployment_files");
    assert_eq!(make_dir("/x"), Action::Shell { command: "mkdir -p /x".to_string(), quiet: true });
    let fresh = project_steps(&g, &t, "crm", false);
    assert_eq!(fresh.len(), 8);
    assert_eq!(fresh[0], Action::Print("Working on \x1b[36mcrm\x1b[0m...".to_string()));
    assert_eq!(
        fresh[1],
        Action::ShellAt {
            command: "git clone git@github.com:GrantFBarnes/crm.git".to_string(),
            dir: g.clone(),
            quiet: false,
        }
    );
    let again = project_steps(&g, &t, "crm", true);
    assert_eq!(again.len(), 7);
    assert_eq!(
        again[6],
        Action::ShellAt {
            command: "tar --exclude-vcs -cvzf /home/u/git/grantfbarnes/website_deployment_files/crm.tar.gz crm".to_string(),
            dir: g,
            quiet: true,
        }
    );
}
