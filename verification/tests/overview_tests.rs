use linux_tools::overview::{
    cpu_mhz_values, get_cpu, get_hostname, get_kernel, get_os, get_uptime, get_user, memory_fields,
    numeric_lines, package_count, packages_summary,
};

#[test]
fn user_is_last_component_of_home() {
    assert_eq!(get_user(Some("/home/alice")), "alice");
    assert_eq!(get_user(Some("/home/alice/")), "");
    assert_eq!(get_user(Some("alice")), "(Unknown)");
    assert_eq!(get_user(None), "(Unknown)");
}

#[test]
fn hostname_kernel_uptime_are_trimmed() {
    assert_eq!(get_hostname(Some("box\n")), "box");
    assert_eq!(get_hostname(None), "(Unknown)");
    assert_eq!(get_kernel(Some("6.8.0-31-generic\n")), "6.8.0-31-generic");
    assert_eq!(get_uptime(Some("up 2 hours, 5 minutes\n")), "up 2 hours, 5 minutes");
    assert_eq!(get_uptime(None), "(Unknown)");
}

#[test]
fn os_name_from_release_files() {
    let lsb = "DISTRIB_ID=Ubuntu\nDISTRIB_DESCRIPTION=\"Ubuntu 24.04 LTS\"\n".to_string();
    let os = "NAME=\"Fedora\"\nPRETTY_NAME=\"Fedora Linux 40 (Workstation Edition)\"\n".to_string();
    assert_eq!(get_os(&vec![Some(lsb), None, Some(os.clone())]), "Ubuntu 24.04 LTS");
    assert_eq!(get_os(&vec![None, None, Some(os)]), "Fedora Linux 40 (Workstation Edition)");
    assert_eq!(get_os(&vec![Some("PRETTY_NAME=none\n".to_string()), None, None]), "(Unknown)");
    assert_eq!(get_os(&vec![None, None, None]), "(Unknown)");
}

#[test]
fn cpu_model_from_cpuinfo() {
    let info = "processor\t: 0\nmodel name\t: AMD Ryzen 7 5800X 8-Core Processor\ncpu MHz\t\t: 3800.000\n";
    assert_eq!(get_cpu(Some(info)), "AMD Ryzen 7 5800X 8-Core Processor");
    assert_eq!(get_cpu(Some("processor\t: 0\n")), "(Unknown)");
    assert_eq!(get_cpu(None), "(Unknown)");
}

#[test]
fn cpu_speed_fields() {
    let info = "cpu MHz\t\t: 3800.000\nmodel name\t: X\ncpu MHz\t\t: 2200.5 \ncpu MHz\n";
    assert_eq!(cpu_mhz_values(info), vec!["3800.000", "2200.5"]);
    assert_eq!(numeric_lines("4700000\n\nabc\n 12\n"), vec!["4700000"]);
    assert_eq!(numeric_lines("\u{0663}5\n"), vec!["\u{0663}5"]);
}

#[test]
fn memory_fields_from_meminfo() {
    let info = "MemTotal:       32768000 kB\nMemFree:        1000 kB\nMemAvailable:   16384000 kB\n";
    let (total, available) = memory_fields(info);
    assert_eq!(total, vec!["32768000"]);
    assert_eq!(available, vec!["16384000"]);
    let (t, a) = memory_fields("MemTotal: 5\n");
    assert!(t.is_empty() && a.is_empty());
}

#[test]
fn package_counts_and_summary() {
    assert_eq!(package_count("a\nb\nc\n"), 3);
    assert_eq!(package_count(""), 0);
    assert_eq!(package_count("one line"), 0);
    assert_eq!(packages_summary(1523, 0, 0, 12, 0), "1523 (dpkg), 12 (flatpak)");
    assert_eq!(packages_summary(0, 0, 0, 0, 4), "4 (snap)");
    assert_eq!(packages_summary(1, 2, 3, 4, 5), "1 (dpkg), 2 (pacman), 3 (rpm), 4 (flatpak), 5 (snap)");
}
