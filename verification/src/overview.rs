//! The facts of a system overview, read out of the text of system files and
//! command outputs.
use vstd::prelude::*;
use crate::number::{decimal, decimal_spec};
use crate::text::{
    is_numeric, char_is_numeric, join, join_spec, rsplit_once, rsplit_once_spec, split, split_spec,
    starts_with, starts_with_spec, trim, trim_spec, views,
};

verus! {

/// What is shown for a fact that could not be found.
pub open spec fn unknown() -> Seq<char> {
    "(Unknown)"@
}

/// The user name: the last component of the home directory.
pub fn get_user(home: Option<&str>) -> (r: String)
    ensures
        r@ == match home {
            Some(h) => match rsplit_once_spec(h@, "/"@) {
                Some(parts) => parts.1,
                None => unknown(),
            },
            None => unknown(),
        },
{
    if let Some(h) = home {
        if let Some(parts) = rsplit_once(h, "/") {
            return parts.1;
        }
    }
    "(Unknown)".to_owned()
}

/// The view of an optional text.
pub open spec fn opt_view(o: Option<&str>) -> Option<Seq<char>> {
    match o {
        Some(t) => Some(t@),
        None => None,
    }
}

/// The views of optional texts.
pub open spec fn opt_views(files: Seq<Option<String>>) -> Seq<Option<Seq<char>>> {
    files.map_values(|f: Option<String>| match f {
        Some(s) => Some(s@),
        None => None,
    })
}

/// The text, trimmed, or the trimmed marker for an unknown fact.
pub open spec fn trimmed_or_unknown(text: Option<Seq<char>>) -> Seq<char> {
    match text {
        Some(t) => trim_spec(t),
        None => trim_spec(unknown()),
    }
}

fn trimmed_or_unknown_exec(text: Option<&str>) -> (r: String)
    ensures
        r@ == trimmed_or_unknown(opt_view(text)),
{
    match text {
        Some(t) => trim(t),
        None => trim("(Unknown)"),
    }
}

/// The host name, from the content of `/etc/hostname`.
pub fn get_hostname(content: Option<&str>) -> (r: String)
    ensures
        r@ == trimmed_or_unknown(opt_view(content)),
{
    trimmed_or_unknown_exec(content)
}

/// The kernel release, from the output of `uname -r`.
pub fn get_kernel(output: Option<&str>) -> (r: String)
    ensures
        r@ == trimmed_or_unknown(opt_view(output)),
{
    trimmed_or_unknown_exec(output)
}

/// The uptime, from the output of `uptime -p`.
pub fn get_uptime(output: Option<&str>) -> (r: String)
    ensures
        r@ == trimmed_or_unknown(opt_view(output)),
{
    trimmed_or_unknown_exec(output)
}

/// Whether `line` starts with `a` or with `b` and has more than one piece when
/// split at `sep`.
pub open spec fn labeled(line: Seq<char>, a: Seq<char>, b: Seq<char>, sep: Seq<char>) -> bool {
    (starts_with_spec(line, a) || starts_with_spec(line, b)) && split_spec(line, sep).len() > 1
}

/// The trimmed second piece, split at `sep`, of the first line from index `i` on
/// that [`labeled`] accepts.
pub open spec fn labeled_field(lines: Seq<Seq<char>>, i: int, a: Seq<char>, b: Seq<char>, sep: Seq<char>) -> Option<Seq<char>>
    decreases lines.len() - i,
{
    if i < 0 || i >= lines.len() {
        None
    } else if labeled(lines[i], a, b, sep) {
        Some(trim_spec(split_spec(lines[i], sep)[1]))
    } else {
        labeled_field(lines, i + 1, a, b, sep)
    }
}

fn labeled_field_exec(content: &str, a: &str, b: &str, sep: &str) -> (r: Option<String>)
    requires
        sep@.len() > 0,
    ensures
        match r {
            Some(f) => labeled_field(split_spec(content@, "\n"@), 0, a@, b@, sep@) == Some(f@),
            None => labeled_field(split_spec(content@, "\n"@), 0, a@, b@, sep@) is None,
        },
{
    proof {
        reveal_strlit("\n");
    }
    let lines = split(content, "\n");
    let ghost ls = views(lines@);
    let mut i: usize = 0;
    while i < lines.len()
        invariant
            i <= lines@.len(),
            ls == views(lines@),
            ls == split_spec(content@, "\n"@),
            sep@.len() > 0,
            labeled_field(ls, 0, a@, b@, sep@) == labeled_field(ls, i as int, a@, b@, sep@),
        decreases lines.len() - i,
    {
        let line = lines[i].as_str();
        assert(ls[i as int] == line@);
        if starts_with(line, a) || starts_with(line, b) {
            let parts = split(line, sep);
            if parts.len() > 1 {
                assert(views(parts@)[1] == parts@[1]@);
                return Some(trim(parts[1].as_str()));
            }
        }
        i += 1;
    }
    None
}

/// The operating system's name from the contents of the release files, in
/// order: the first file that holds a `PRETTY_NAME` or `DISTRIB_DESCRIPTION` line
/// with a quoted value gives it.
pub open spec fn os_name(files: Seq<Option<Seq<char>>>, i: int) -> Seq<char>
    decreases files.len() - i,
{
    if i < 0 || i >= files.len() {
        unknown()
    } else {
        match files[i] {
            Some(c) => match labeled_field(
                split_spec(c, "\n"@),
                0,
                "PRETTY_NAME"@,
                "DISTRIB_DESCRIPTION"@,
                "\""@,
            ) {
                Some(v) => v,
                None => os_name(files, i + 1),
            },
            None => os_name(files, i + 1),
        }
    }
}

/// The operating system's name, from the contents of `/etc/lsb-release`,
/// `/usr/lib/os-release` and `/etc/os-release` (`None` where one cannot be read).
pub fn get_os(files: &Vec<Option<String>>) -> (r: String)
    ensures
        r@ == os_name(opt_views(files@), 0),
{
    let ghost fs = opt_views(files@);
    let mut i: usize = 0;
    while i < files.len()
        invariant
            i <= files@.len(),
            fs == opt_views(files@),
            os_name(fs, 0) == os_name(fs, i as int),
        decreases files.len() - i,
    {
        if let Some(c) = &files[i] {
            assert(fs[i as int] == Some(c@));
            proof {
                reveal_strlit("\"");
            }
            if let Some(v) = labeled_field_exec(c.as_str(), "PRETTY_NAME", "DISTRIB_DESCRIPTION", "\"") {
                return v;
            }
        } else {
            assert(fs[i as int] is None);
        }
        i += 1;
    }
    "(Unknown)".to_owned()
}

/// The processor's model name, from the content of `/proc/cpuinfo`.
pub fn get_cpu(content: Option<&str>) -> (r: String)
    ensures
        r@ == match content {
            Some(c) => match labeled_field(split_spec(c@, "\n"@), 0, "model name"@, "model name"@, ": "@) {
                Some(v) => v,
                None => unknown(),
            },
            None => unknown(),
        },
{
    if let Some(c) = content {
        proof {
            reveal_strlit(": ");
        }
        if let Some(v) = labeled_field_exec(c, "model name", "model name", ": ") {
            return v;
        }
    }
    "(Unknown)".to_owned()
}

/// The trimmed values of the first `n` lines that [`labeled`] accepts, in order.
pub open spec fn labeled_values(lines: Seq<Seq<char>>, n: nat, a: Seq<char>, b: Seq<char>, sep: Seq<char>) -> Seq<Seq<char>>
    decreases n,
{
    if n == 0 {
        Seq::empty()
    } else {
        let prev = labeled_values(lines, (n - 1) as nat, a, b, sep);
        if labeled(lines[n - 1], a, b, sep) {
            prev.push(trim_spec(split_spec(lines[n - 1], sep)[1]))
        } else {
            prev
        }
    }
}

/// The clock speeds, as written, of the `cpu MHz` lines of `/proc/cpuinfo`.
pub fn cpu_mhz_values(content: &str) -> (r: Vec<String>)
    ensures
        views(r@) == labeled_values(
            split_spec(content@, "\n"@),
            split_spec(content@, "\n"@).len(),
            "cpu MHz"@,
            "cpu MHz"@,
            ": "@,
        ),
{
    proof {
        reveal_strlit("\n");
    }
    let lines = split(content, "\n");
    let ghost ls = views(lines@);
    let mut r: Vec<String> = Vec::new();
    let mut i: usize = 0;
    while i < lines.len()
        invariant
            i <= lines@.len(),
            ls == views(lines@),
            ls == split_spec(content@, "\n"@),
            views(r@) == labeled_values(ls, i as nat, "cpu MHz"@, "cpu MHz"@, ": "@),
        decreases lines.len() - i,
    {
        let line = lines[i].as_str();
        assert(ls[i as int] == line@);
        let ghost before = views(r@);
        if starts_with(line, "cpu MHz") {
            proof {
                reveal_strlit(": ");
            }
            let parts = split(line, ": ");
            if parts.len() > 1 {
                assert(views(parts@)[1] == parts@[1]@);
                r.push(trim(parts[1].as_str()));
                assert(views(r@) =~= before.push(trim_spec(views(parts@)[1])));
            }
        }
        i += 1;
    }
    r
}

/// The trimmed lines, among the first `n`, whose first character is numeric.
pub open spec fn numeric_lines_spec(lines: Seq<Seq<char>>, n: nat) -> Seq<Seq<char>>
    decreases n,
{
    if n == 0 {
        Seq::empty()
    } else {
        let prev = numeric_lines_spec(lines, (n - 1) as nat);
        let l = lines[n - 1];
        if l.len() > 0 && char_is_numeric(l[0]) {
            prev.push(trim_spec(l))
        } else {
            prev
        }
    }
}

/// The trimmed lines of a frequency file whose first character is numeric.
pub fn numeric_lines(content: &str) -> (r: Vec<String>)
    ensures
        views(r@) == numeric_lines_spec(split_spec(content@, "\n"@), split_spec(content@, "\n"@).len()),
{
    proof {
        reveal_strlit("\n");
    }
    let lines = split(content, "\n");
    let ghost ls = views(lines@);
    let mut r: Vec<String> = Vec::new();
    let mut i: usize = 0;
    while i < lines.len()
        invariant
            i <= lines@.len(),
            ls == views(lines@),
            ls == split_spec(content@, "\n"@),
            views(r@) == numeric_lines_spec(ls, i as nat),
        decreases lines.len() - i,
    {
        let line = lines[i].as_str();
        assert(ls[i as int] == line@);
        let ghost before = views(r@);
        let chars = crate::text::chars_of(line);
        if chars.len() > 0 {
            let c = chars[0];
            if is_numeric(c) {
                r.push(trim(line));
                assert(views(r@) =~= before.push(trim_spec(line@)));
            }
        }
        i += 1;
    }
    r
}

/// Whether the line starts with `label` and has more than two space-separated
/// pieces.
pub open spec fn memory_line(line: Seq<char>, label: Seq<char>) -> bool {
    starts_with_spec(line, label) && split_spec(line, " "@).len() > 2
}

/// The trimmed next-to-last space-separated piece of the lines among the first
/// `n` that [`memory_line`] accepts for `label`, in order.
pub open spec fn memory_values(lines: Seq<Seq<char>>, n: nat, label: Seq<char>) -> Seq<Seq<char>>
    decreases n,
{
    if n == 0 {
        Seq::empty()
    } else {
        let prev = memory_values(lines, (n - 1) as nat, label);
        let l = lines[n - 1];
        if memory_line(l, label) {
            let parts = split_spec(l, " "@);
            prev.push(trim_spec(parts[parts.len() - 2]))
        } else {
            prev
        }
    }
}

/// The amounts, as written, of the `MemTotal` lines and of the `MemAvailable`
/// lines of `/proc/meminfo`.
pub fn memory_fields(content: &str) -> (r: (Vec<String>, Vec<String>))
    ensures
        views(r.0@) == memory_values(split_spec(content@, "\n"@), split_spec(content@, "\n"@).len(), "MemTotal"@),
        views(r.1@) == memory_values(split_spec(content@, "\n"@), split_spec(content@, "\n"@).len(), "MemAvailable"@),
{
    proof {
        reveal_strlit("\n");
    }
    let lines = split(content, "\n");
    let ghost ls = views(lines@);
    let mut total: Vec<String> = Vec::new();
    let mut available: Vec<String> = Vec::new();
    let mut i: usize = 0;
    while i < lines.len()
        invariant
            i <= lines@.len(),
            ls == views(lines@),
            ls == split_spec(content@, "\n"@),
            views(total@) == memory_values(ls, i as nat, "MemTotal"@),
            views(available@) == memory_values(ls, i as nat, "MemAvailable"@),
        decreases lines.len() - i,
    {
        let line = lines[i].as_str();
        assert(ls[i as int] == line@);
        let ghost t0 = views(total@);
        let ghost a0 = views(available@);
        let is_total = starts_with(line, "MemTotal");
        let is_available = starts_with(line, "MemAvailable");
        if is_total || is_available {
            proof {
                reveal_strlit(" ");
            }
            let parts = split(line, " ");
            if parts.len() > 2 {
                let n = parts.len();
                assert(views(parts@)[n - 2] == parts@[n - 2]@);
                let amount = trim(parts[n - 2].as_str());
                if is_total {
                    total.push(amount.clone());
                    assert(views(total@) =~= t0.push(amount@));
                }
                if is_available {
                    available.push(amount);
                    assert(views(available@) =~= a0.push(amount@));
                }
            }
        }
        i += 1;
    }
    (total, available)
}

/// The number of packages that a listing shows: its lines, less one.
pub fn package_count(output: &str) -> (r: usize)
    ensures
        r == split_spec(output@, "\n"@).len() - 1,
{
    proof {
        reveal_strlit("\n");
    }
    let lines = split(output, "\n");
    proof {
        crate::text::lemma_split_nonempty(output@, "\n"@);
    }
    lines.len() - 1
}

/// The package counts that are not zero, each followed by its manager in
/// brackets, in the order dpkg, pacman, rpm, flatpak, snap.
pub open spec fn count_entries(counts: Seq<(nat, Seq<char>)>) -> Seq<Seq<char>>
    decreases counts.len(),
{
    if counts.len() == 0 {
        Seq::empty()
    } else {
        let prev = count_entries(counts.drop_last());
        let (n, name) = counts.last();
        if n > 0 {
            prev.push(decimal_spec(n) + " ("@ + name + ")"@)
        } else {
            prev
        }
    }
}

/// The counts with their package managers.
pub open spec fn labeled_counts(dpkg: nat, pacman: nat, rpm: nat, flatpak: nat, snap: nat) -> Seq<(nat, Seq<char>)> {
    seq![(dpkg, "dpkg"@), (pacman, "pacman"@), (rpm, "rpm"@), (flatpak, "flatpak"@), (snap, "snap"@)]
}

/// The package summary line: the non-zero counts joined with `, `.
pub fn packages_summary(dpkg: usize, pacman: usize, rpm: usize, flatpak: usize, snap: usize) -> (r: String)
    requires
        dpkg > 0 || pacman > 0 || rpm > 0 || flatpak > 0 || snap > 0,
    ensures
        r@ == join_spec(
            count_entries(labeled_counts(dpkg as nat, pacman as nat, rpm as nat, flatpak as nat, snap as nat)),
            ", "@,
        ),
{
    let ghost all = labeled_counts(dpkg as nat, pacman as nat, rpm as nat, flatpak as nat, snap as nat);
    let counts: [usize; 5] = [dpkg, pacman, rpm, flatpak, snap];
    let names: [&str; 5] = ["dpkg", "pacman", "rpm", "flatpak", "snap"];
    let mut parts: Vec<String> = Vec::new();
    let mut i: usize = 0;
    while i < 5
        invariant
            i <= 5,
            all == labeled_counts(dpkg as nat, pacman as nat, rpm as nat, flatpak as nat, snap as nat),
            counts@ == seq![dpkg, pacman, rpm, flatpak, snap],
            names@ == seq!["dpkg", "pacman", "rpm", "flatpak", "snap"],
            views(parts@) == count_entries(all.take(i as int)),
        decreases 5 - i,
    {
        assert(all.take(i + 1).drop_last() =~= all.take(i as int));
        assert(all.take(i + 1).last() == (counts@[i as int] as nat, names@[i as int]@));
        let ghost before = views(parts@);
        let n = counts[i];
        if n > 0 {
            let mut entry = decimal(n as u64);
            entry.append(" (");
            entry.append(names[i]);
            entry.append(")");
            parts.push(entry);
            assert(views(parts@) =~= before.push(decimal_spec(n as nat) + " ("@ + names@[i as int]@ + ")"@));
        }
        i += 1;
    }
    assert(all.take(5) =~= all);
    join(&parts, ", ")
}

} // verus!
