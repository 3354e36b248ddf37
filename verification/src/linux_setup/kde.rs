//! KDE Plasma settings.
use vstd::prelude::*;
use crate::action::{action_views, Action, ActionView, Command, CommandView};
use crate::linux_setup::distribution::lines_spec;
use crate::number::{decimal, decimal_spec};
use crate::text::{
    join_spec, law_join_split,
    chars_of, contains, contains_spec, split, split_chars, split_spec, starts_with, starts_with_spec,
    string_of, utf8_width, views,
};

verus! {

/// The Plasma major version: 6 when the output of `plasmashell --version` holds
/// ` 6`, else 5 (also when the command failed).
pub fn plasma_version(output: Option<&str>) -> (v: u8)
    ensures
        v == (if output matches Some(o) && contains_spec(o@, " 6"@) {
            6u8
        } else {
            5u8
        }),
{
    match output {
        Some(o) => if contains(o, " 6") {
            6
        } else {
            5
        },
        None => 5,
    }
}

/// The group header in force at the first `plugin` line that names `plugin`,
/// scanning `lines` from `i` with `group` the header seen last.
pub open spec fn find_group_from(lines: Seq<Seq<char>>, plugin: Seq<char>, i: int, group: Seq<char>) -> Option<Seq<char>>
    decreases lines.len() - i,
{
    if i < 0 || i >= lines.len() {
        None
    } else {
        let line = lines[i];
        if starts_with_spec(line, "["@) {
            find_group_from(lines, plugin, i + 1, line)
        } else if starts_with_spec(line, "plugin"@) && contains_spec(line, plugin) && group.len() > 0 {
            Some(group)
        } else {
            find_group_from(lines, plugin, i + 1, group)
        }
    }
}

/// The group header (such as `[Containments][1][Applets][5]`) of the applet whose
/// `plugin` line names `plugin`, in the content of an applets configuration file.
pub fn find_group(content: &str, plugin: &str) -> (r: Option<String>)
    ensures
        match r {
            Some(g) => find_group_from(lines_spec(content@), plugin@, 0, Seq::empty()) == Some(g@),
            None => find_group_from(lines_spec(content@), plugin@, 0, Seq::empty()) is None,
        },
{
    proof {
        reveal_strlit("\n");
    }
    let lines = split(content, "\n");
    let mut group = String::new();
    let mut i: usize = 0;
    while i < lines.len()
        invariant
            i <= lines@.len(),
            views(lines@) == lines_spec(content@),
            find_group_from(lines_spec(content@), plugin@, 0, Seq::empty()) == find_group_from(
                lines_spec(content@),
                plugin@,
                i as int,
                group@,
            ),
        decreases lines.len() - i,
    {
        let line = lines[i].as_str();
        assert(views(lines@)[i as int] == line@);
        if starts_with(line, "[") {
            group = line.to_owned();
        } else if starts_with(line, "plugin") {
            if contains(line, plugin) {
                if !group.as_str().is_empty() {
                    return Some(group);
                }
            }
        }
        i += 1;
    }
    None
}

/// The group header can be unbracketed: it has two characters or more and the
/// first and last are one byte each.
pub open spec fn group_ok_spec(group: Seq<char>) -> bool {
    group.len() >= 2 && utf8_width(group[0]) == 1 && utf8_width(group.last()) == 1
}

/// Whether the group header can be unbracketed.
pub fn group_ok(group: &str) -> (r: bool)
    ensures
        r == group_ok_spec(group@),
{
    let v = chars_of(group);
    v.len() >= 2 && (v[0] as u32) < 0x80 && (v[v.len() - 1] as u32) < 0x80
}

/// The group names of a header: without its first and last character, split at `][`.
pub open spec fn groups_spec(group: Seq<char>) -> Seq<Seq<char>> {
    split_spec(group.subrange(1, group.len() - 1), "]["@)
}

/// The group names of a header such as `[Containments][1][Applets][5]`.
pub fn convert_group_to_groups(group: &str) -> (r: Vec<String>)
    requires
        group_ok_spec(group@),
    ensures
        views(r@) == groups_spec(group@),
{
    let v = chars_of(group);
    let inner = string_of(&v, 1, v.len() - 1);
    let inner_chars = chars_of(inner.as_str());
    let pat = chars_of("][");
    proof {
        reveal_strlit("][");
    }
    split_chars(&inner_chars, &pat)
}

/// The group names of a header, joined again with `][` between the first and
/// last characters, give back the header.
pub proof fn law_groups_round_trip(group: Seq<char>)
    requires
        group_ok_spec(group),
    ensures
        seq![group[0]] + join_spec(groups_spec(group), "]["@) + seq![group.last()] == group,
{
    reveal_strlit("][");
    let inner = group.subrange(1, group.len() - 1);
    law_join_split(inner, "]["@);
    assert(seq![group[0]] + inner + seq![group.last()] =~= group);
}

/// The `kwriteconfig` command that sets `key` to `value` in `file`, in the nested
/// `groups`.
pub open spec fn set_config_spec(version: u8, file: Seq<char>, groups: Seq<Seq<char>>, key: Seq<char>, value: Seq<char>) -> CommandView {
    CommandView {
        program: "kwriteconfig"@ + decimal_spec(version as nat),
        args: seq!["--file"@, file] + groups.map_values(|g: Seq<char>| seq!["--group"@, g]).flatten()
            + seq!["--key"@, key, value],
    }
}

/// The `kwriteconfig` command that sets `key` to `value` in `file`.
pub fn set_config(version: u8, file: &str, groups: &Vec<String>, key: &str, value: &str) -> (c: Command)
    ensures
        c@ == set_config_spec(version, file@, views(groups@), key@, value@),
{
    let mut program = "kwriteconfig".to_owned();
    let number = decimal(version as u64);
    program.append(number.as_str());
    let mut args: Vec<String> = Vec::new();
    args.push("--file".to_owned());
    args.push(file.to_owned());
    let ghost g = views(groups@);
    let mut i: usize = 0;
    while i < groups.len()
        invariant
            i <= groups@.len(),
            g == views(groups@),
            views(args@) == seq!["--file"@, file@] + g.take(i as int).map_values(
                |x: Seq<char>| seq!["--group"@, x],
            ).flatten(),
        decreases groups.len() - i,
    {
        let ghost before = views(args@);
        args.push("--group".to_owned());
        args.push(groups[i].clone());
        proof {
            let f = |x: Seq<char>| seq!["--group"@, x];
            assert(g.take(i + 1) =~= g.take(i as int).push(g[i as int]));
            assert(g.take(i + 1).map_values(f) =~= g.take(i as int).map_values(f).push(f(g[i as int])));
            g.take(i as int).map_values(f).lemma_flatten_push(f(g[i as int]));
            assert(views(args@) =~= before + f(g[i as int]));
        }
        i += 1;
    }
    args.push("--key".to_owned());
    args.push(key.to_owned());
    args.push(value.to_owned());
    proof {
        assert(g.take(groups@.len() as int) =~= g);
    }
    let c = Command { program, args };
    assert(c@.args =~= set_config_spec(version, file@, views(groups@), key@, value@).args);
    c
}


/// One setting written with `kwriteconfig`.
pub open spec fn config_spec(version: u8, file: Seq<char>, groups: Seq<Seq<char>>, key: Seq<char>, value: Seq<char>) -> ActionView {
    ActionView::Exec(set_config_spec(version, file, groups, key, value))
}

fn config_action(version: u8, file: &str, groups: &Vec<String>, key: &str, value: &str) -> (a: Action)
    ensures
        a@ == config_spec(version, file@, views(groups@), key@, value@),
{
    Action::Exec(set_config(version, file, groups, key, value))
}

/// The settings made in every Plasma session.
pub open spec fn fixed_settings_spec(version: u8) -> Seq<ActionView> {
    seq![
        config_spec(version, "kcminputrc"@, seq!["Keyboard"@], "NumLock"@, "0"@),
        config_spec(version, "dolphinrc"@, seq!["General"@], "RememberOpenedTabs"@, "false"@),
        config_spec(version, "kscreenlockerrc"@, seq!["Daemon"@], "Timeout"@, "15"@),
        config_spec(version, "ksmserverrc"@, seq!["General"@], "loginMode"@, "emptySession"@),
        config_spec(version, "katerc"@, seq!["General"@], "Show Full Path in Title"@, "true"@),
        config_spec(version, "katerc"@, seq!["KTextEditor Renderer"@], "Show Indentation Lines"@, "true"@),
        config_spec(version, "katerc"@, seq!["KTextEditor Renderer"@], "Animate Bracket Matching"@, "true"@),
        config_spec(version, "katerc"@, seq!["KTextEditor Renderer"@], "Word Wrap Marker"@, "true"@),
        config_spec(version, "katerc"@, seq!["KTextEditor Document"@], "Show Spaces"@, "2"@),
        config_spec(version, "katerc"@, seq!["KTextEditor View"@], "Scroll Past End"@, "true"@),
        config_spec(version, "katerc"@, seq!["KTextEditor View"@], "Input Mode"@, "1"@),
        config_spec(version, "katerc"@, seq!["KTextEditor View"@], "Vi Relative Line Numbers"@, "true"@),
        config_spec(version, "katerc"@, seq!["lspclient"@], "FormatOnSave"@, "true"@),
    ]
}

/// The clock settings, for the clock applet's group header.
pub open spec fn clock_settings_spec(version: u8, group: Seq<char>) -> Seq<ActionView> {
    let g = groups_spec(group) + seq!["Configuration"@, "Appearance"@];
    seq![
        config_spec(version, "plasma-org.kde.plasma.desktop-appletsrc"@, g, "dateDisplayFormat"@, "BelowTime"@),
        config_spec(version, "plasma-org.kde.plasma.desktop-appletsrc"@, g, "dateFormat"@, "isoDate"@),
        config_spec(version, "plasma-org.kde.plasma.desktop-appletsrc"@, g, "showSeconds"@, "Always"@),
    ]
}

/// The battery setting, for the battery applet's group header.
pub open spec fn battery_settings_spec(version: u8, group: Seq<char>) -> Seq<ActionView> {
    let g = groups_spec(group) + seq!["Configuration"@, "General"@];
    seq![
        config_spec(version, "plasma-org.kde.plasma.desktop-appletsrc"@, g, "showPercentage"@, "true"@),
    ]
}

/// The Plasma setup: clock and battery applets where their groups were found,
/// then the settings of input, Dolphin, the screen locker, sessions and Kate.
pub open spec fn setup_spec(version: u8, clock_group: Option<Seq<char>>, battery_group: Option<Seq<char>>) -> Seq<ActionView> {
    (match clock_group {
        Some(g) => clock_settings_spec(version, g),
        None => Seq::empty(),
    }) + (match battery_group {
        Some(g) => battery_settings_spec(version, g),
        None => Seq::empty(),
    }) + fixed_settings_spec(version)
}

fn one_group(name: &str) -> (r: Vec<String>)
    ensures
        views(r@) == seq![name@],
{
    let mut r: Vec<String> = Vec::new();
    r.push(name.to_owned());
    assert(views(r@) =~= seq![name@]);
    r
}

fn applet_groups(group: &str, a: &str, b: &str) -> (r: Vec<String>)
    requires
        group_ok_spec(group@),
    ensures
        views(r@) == groups_spec(group@) + seq![a@, b@],
{
    let mut r = convert_group_to_groups(group);
    let ghost before = views(r@);
    r.push(a.to_owned());
    r.push(b.to_owned());
    assert(views(r@) =~= before + seq![a@, b@]);
    r
}

/// The Plasma setup for `version`, with the group headers of the clock and the
/// battery applets where they were found.
pub fn setup(version: u8, clock_group: Option<&str>, battery_group: Option<&str>) -> (acts: Vec<Action>)
    requires
        clock_group matches Some(g) ==> group_ok_spec(g@),
        battery_group matches Some(g) ==> group_ok_spec(g@),
    ensures
        action_views(acts@) == setup_spec(
            version,
            match clock_group {
                Some(g) => Some(g@),
                None => None,
            },
            match battery_group {
                Some(g) => Some(g@),
                None => None,
            },
        ),
{
    let mut acts: Vec<Action> = Vec::new();
    if let Some(group) = clock_group {
        let groups = applet_groups(group, "Configuration", "Appearance");
        acts.push(config_action(version, "plasma-org.kde.plasma.desktop-appletsrc", &groups, "dateDisplayFormat", "BelowTime"));
        acts.push(config_action(version, "plasma-org.kde.plasma.desktop-appletsrc", &groups, "dateFormat", "isoDate"));
        acts.push(config_action(version, "plasma-org.kde.plasma.desktop-appletsrc", &groups, "showSeconds", "Always"));
    }
    let ghost a = action_views(acts@);
    if let Some(group) = battery_group {
        let groups = applet_groups(group, "Configuration", "General");
        acts.push(config_action(version, "plasma-org.kde.plasma.desktop-appletsrc", &groups, "showPercentage", "true"));
    }
    let ghost b = action_views(acts@);
    acts.push(config_action(version, "kcminputrc", &one_group("Keyboard"), "NumLock", "0"));
    acts.push(config_action(version, "dolphinrc", &one_group("General"), "RememberOpenedTabs", "false"));
    acts.push(config_action(version, "kscreenlockerrc", &one_group("Daemon"), "Timeout", "15"));
    acts.push(config_action(version, "ksmserverrc", &one_group("General"), "loginMode", "emptySession"));
    acts.push(config_action(version, "katerc", &one_group("General"), "Show Full Path in Title", "true"));
    acts.push(config_action(version, "katerc", &one_group("KTextEditor Renderer"), "Show Indentation Lines", "true"));
    acts.push(config_action(version, "katerc", &one_group("KTextEditor Renderer"), "Animate Bracket Matching", "true"));
    acts.push(config_action(version, "katerc", &one_group("KTextEditor Renderer"), "Word Wrap Marker", "true"));
    acts.push(config_action(version, "katerc", &one_group("KTextEditor Document"), "Show Spaces", "2"));
    acts.push(config_action(version, "katerc", &one_group("KTextEditor View"), "Scroll Past End", "true"));
    acts.push(config_action(version, "katerc", &one_group("KTextEditor View"), "Input Mode", "1"));
    acts.push(config_action(version, "katerc", &one_group("KTextEditor View"), "Vi Relative Line Numbers", "true"));
    acts.push(config_action(version, "katerc", &one_group("lspclient"), "FormatOnSave", "true"));
    proof {
        assert(action_views(acts@).skip(b.len() as int) =~= fixed_settings_spec(version));
        assert(action_views(acts@) =~= b + action_views(acts@).skip(b.len() as int));
    }
    assert(action_views(acts@) =~= setup_spec(
        version,
        match clock_group {
            Some(g) => Some(g@),
            None => None,
        },
        match battery_group {
            Some(g) => Some(g@),
            None => None,
        },
    ));
    acts
}

} // verus!
