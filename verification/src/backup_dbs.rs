//! Which database backups to keep: recognising backup files, ordering them
//! newest first, and the retention rules that thin out old backups.
use vstd::prelude::*;
use vstd::seq_lib::{to_multiset_build, to_multiset_insert};
use crate::number::is_digit_spec;
use crate::text::{chars_of, lemma_utf8_len_grows, split, split_spec, string_of, utf8_len, views};
use crate::action::cat3;

verus! {

/// The pattern that backup file names match: a `YYYYMMDD_HHMMSS` stamp, then
/// `_backup_`, then anything, ending in `.sql`.
pub const BACKUP_FILE_PATTERN: &'static str = "^\\d{8}_\\d{6}_backup_.*\\.sql$";

/// The format in which dates are compared.
pub const DATE_FORMAT: &'static str = "%Y-%m-%d %H:%M:%S";

/// The format of the stamp at the start of a backup file name.
pub const STAMP_FORMAT: &'static str = "%Y%m%d_%H%M%S";

/// How many backups are kept at most.
pub const KEPT_BACKUPS: usize = 100;

/// The databases that are backed up.
pub const DATABASES: [&'static str; 3] = ["crm", "learn_vietnamese", "tractor_pulling"];

/// What `regex::Regex::new(pattern)` and then `is_match(text)` give: `None` where
/// the pattern does not compile, else whether it matches `text`.
pub uninterp spec fn regex_match(pattern: Seq<char>, text: Seq<char>) -> Option<bool>;

/// Compiles `pattern` with `regex::Regex::new` and tests `text` with
/// `Regex::is_match`. Trusted: the result depends on the two strings alone;
/// nothing more is claimed of it.
#[verifier::external_body]
fn regex_is_match(pattern: &str, text: &str) -> (r: Option<bool>)
    ensures
        r == regex_match(pattern@, text@),
{
    match regex::Regex::new(pattern) {
        Ok(re) => Some(re.is_match(text)),
        Err(_) => None,
    }
}

/// The Unix timestamp of the date and time, read as UTC, that
/// `chrono::NaiveDateTime::parse_from_str(text, fmt)` gives, or `None` where it fails.
pub uninterp spec fn datetime_timestamp(text: Seq<char>, fmt: Seq<char>) -> Option<int>;

/// Parses `text` with `chrono::NaiveDateTime::parse_from_str` and takes the
/// timestamp of the result read as UTC. Trusted: the result depends on the two
/// strings alone; nothing more is claimed of it.
#[verifier::external_body]
fn parse_timestamp(text: &str, fmt: &str) -> (r: Option<i64>)
    ensures
        match r {
            Some(t) => datetime_timestamp(text@, fmt@) == Some(t as int),
            None => datetime_timestamp(text@, fmt@) is None,
        },
{
    match chrono::NaiveDateTime::parse_from_str(text, fmt) {
        Ok(d) => Some(d.and_utc().timestamp()),
        Err(_) => None,
    }
}

/// Whether `s` ends as `%Y%m%d_%H%M%S` writes any date: eight ASCII digits (the
/// last four of the year, then the month and the day), `_`, and six ASCII digits
/// (hour, minute, second).
pub open spec fn ends_like_stamp(s: Seq<char>) -> bool {
    &&& s.len() >= 15
    &&& forall|i: int| s.len() - 15 <= i < s.len() - 7 ==> is_digit_spec(#[trigger] s[i])
    &&& s[s.len() - 7] == '_'
    &&& forall|i: int| s.len() - 6 <= i < s.len() ==> is_digit_spec(#[trigger] s[i])
}

/// Whether a file name is a backup file name.
pub open spec fn is_backup_name(name: Seq<char>) -> bool {
    regex_match(BACKUP_FILE_PATTERN@, name) == Some(true)
}

/// Whether the file name is a backup file name.
pub fn is_backup_file(name: &str) -> (r: bool)
    ensures
        r == is_backup_name(name@),
{
    match regex_is_match(BACKUP_FILE_PATTERN, name) {
        Some(m) => m,
        None => false,
    }
}

/// Strict lexicographic order of character sequences, the order of `str`.
pub open spec fn str_less(a: Seq<char>, b: Seq<char>) -> bool
    decreases a.len(),
{
    if a.len() == 0 {
        b.len() > 0
    } else if b.len() == 0 {
        false
    } else if a[0] != b[0] {
        (a[0] as u32) < (b[0] as u32)
    } else {
        str_less(a.drop_first(), b.drop_first())
    }
}

/// `str_less` never holds both ways.
pub proof fn lemma_str_less_asym(a: Seq<char>, b: Seq<char>)
    ensures
        !(str_less(a, b) && str_less(b, a)),
    decreases a.len(),
{
    if a.len() > 0 && b.len() > 0 && a[0] == b[0] {
        lemma_str_less_asym(a.drop_first(), b.drop_first());
    }
}

/// `str_less` holds one way or the other between different sequences.
pub proof fn lemma_str_less_total(a: Seq<char>, b: Seq<char>)
    ensures
        a != b ==> str_less(a, b) || str_less(b, a),
    decreases a.len(),
{
    if a.len() == 0 {
        if b.len() == 0 {
            assert(a =~= b);
        }
    } else if b.len() > 0 && a[0] == b[0] {
        lemma_str_less_total(a.drop_first(), b.drop_first());
        if a.drop_first() == b.drop_first() {
            assert(a.drop_first().len() == a.len() - 1);
            assert(b.drop_first().len() == b.len() - 1);
            assert forall|i: int| 0 <= i < a.len() implies a[i] == b[i] by {
                if i > 0 {
                    assert(a[i] == a.drop_first()[i - 1]);
                    assert(b[i] == b.drop_first()[i - 1]);
                }
            }
            assert(a =~= b);
        }
    } else if b.len() > 0 {
        vstd::utf8::char_u32_cast(a[0], a[0] as u32);
        vstd::utf8::char_u32_cast(b[0], b[0] as u32);
    }
}

/// `str_less` is transitive.
pub proof fn lemma_str_less_trans(a: Seq<char>, b: Seq<char>, c: Seq<char>)
    requires
        str_less(a, b),
        str_less(b, c),
    ensures
        str_less(a, c),
    decreases a.len(),
{
    if a.len() > 0 && b.len() > 0 && c.len() > 0 && a[0] == b[0] && b[0] == c[0] {
        lemma_str_less_trans(a.drop_first(), b.drop_first(), c.drop_first());
    }
}

/// `a` comes before `b` when they agree on their first `k` characters and then
/// `a` ends or has the smaller character.
pub proof fn lemma_str_less_at(a: Seq<char>, b: Seq<char>, k: int)
    requires
        0 <= k < b.len(),
        k <= a.len(),
        forall|m: int| 0 <= m < k ==> a[m] == b[m],
        k == a.len() || (a[k] as u32) < (b[k] as u32),
    ensures
        str_less(a, b),
    decreases k,
{
    if k == 0 {
        if a.len() > 0 {
            vstd::utf8::char_u32_cast(a[0], a[0] as u32);
            vstd::utf8::char_u32_cast(b[0], b[0] as u32);
        }
    } else {
        assert(a[0] == b[0]);
        assert forall|m: int| 0 <= m < k - 1 implies a.drop_first()[m] == b.drop_first()[m] by {
            assert(a[m + 1] == b[m + 1]);
        }
        lemma_str_less_at(a.drop_first(), b.drop_first(), k - 1);
    }
}

/// In a sequence whose neighbours increase, every earlier element comes before
/// every later one.
pub proof fn lemma_increasing(s: Seq<Seq<char>>, i: int, j: int)
    requires
        0 <= i < j < s.len(),
        forall|k: int| 0 <= k < s.len() - 1 ==> str_less(#[trigger] s[k], s[k + 1]),
    ensures
        str_less(s[i], s[j]),
    decreases j - i,
{
    if j > i + 1 {
        lemma_increasing(s, i, j - 1);
        assert(str_less(s[j - 1], s[j]));
        lemma_str_less_trans(s[i], s[j - 1], s[j]);
    } else {
        assert(str_less(s[i], s[i + 1]));
    }
}

/// Whether `a` comes before `b`.
pub fn str_lt(a: &str, b: &str) -> (r: bool)
    ensures
        r == str_less(a@, b@),
{
    let x = chars_of(a);
    let y = chars_of(b);
    let mut i: usize = 0;
    assert(x@.skip(0) =~= x@ && y@.skip(0) =~= y@);
    while i < x.len() && i < y.len()
        invariant
            x@ == a@,
            y@ == b@,
            i <= x@.len(),
            i <= y@.len(),
            str_less(x@, y@) == str_less(x@.skip(i as int), y@.skip(i as int)),
        decreases x.len() - i,
    {
        assert(x@.skip(i as int).len() > 0 && y@.skip(i as int).len() > 0);
        assert(x@.skip(i as int)[0] == x@[i as int]);
        assert(y@.skip(i as int)[0] == y@[i as int]);
        if x[i] != y[i] {
            return (x[i] as u32) < (y[i] as u32);
        }
        assert(x@.skip(i as int).drop_first() =~= x@.skip(i + 1));
        assert(y@.skip(i as int).drop_first() =~= y@.skip(i + 1));
        i += 1;
    }
    assert(x@.skip(i as int).len() == x@.len() - i && y@.skip(i as int).len() == y@.len() - i);
    i < y.len()
}

/// Whether the sequence runs from the greatest to the least.
pub open spec fn sorted_desc(s: Seq<Seq<char>>) -> bool {
    forall|i: int, j: int| 0 <= i < j < s.len() ==> !str_less(#[trigger] s[i], #[trigger] s[j])
}

/// The backup file names among the first `n` names, in order.
pub open spec fn backup_names(names: Seq<Seq<char>>, n: nat) -> Seq<Seq<char>>
    decreases n,
{
    if n == 0 {
        Seq::empty()
    } else if is_backup_name(names[n - 1]) {
        backup_names(names, (n - 1) as nat).push(names[n - 1])
    } else {
        backup_names(names, (n - 1) as nat)
    }
}

/// Inserts `name` into `sorted` before the first name that comes before it.
fn insert_desc(sorted: &mut Vec<String>, name: String)
    requires
        sorted_desc(views(old(sorted)@)),
    ensures
        sorted_desc(views(final(sorted)@)),
        views(final(sorted)@).to_multiset() == views(old(sorted)@).to_multiset().insert(name@),
{
    let ghost s = views(sorted@);
    let mut k: usize = 0;
    while k < sorted.len()
        invariant
            k <= sorted@.len(),
            s == views(sorted@),
            sorted_desc(s),
            forall|i: int| 0 <= i < k ==> !str_less(s[i], name@),
        ensures
            k <= sorted@.len(),
            s == views(sorted@),
            forall|i: int| 0 <= i < k ==> !str_less(s[i], name@),
            k < sorted@.len() ==> str_less(s[k as int], name@),
        decreases sorted.len() - k,
    {
        assert(s[k as int] == sorted@[k as int]@);
        if str_lt(sorted[k].as_str(), name.as_str()) {
            break;
        }
        k += 1;
    }
    let ghost x = name@;
    sorted.insert(k, name);
    proof {
        assert(views(sorted@) =~= s.insert(k as int, x));
        to_multiset_insert(s, k as int, x);
        let t = views(sorted@);
        assert forall|i: int, j: int| 0 <= i < j < t.len() implies !str_less(#[trigger] t[i], #[trigger] t[j]) by {
            if j < k {
                assert(t[i] == s[i] && t[j] == s[j]);
            } else if j == k {
                assert(t[i] == s[i]);
            } else if i > k {
                assert(t[i] == s[i - 1] && t[j] == s[j - 1]);
            } else if i == k {
                // s[k] comes before x, and s[j - 1] is no greater than s[k].
                assert(t[j] == s[j - 1] && t[i] == x);
                assert(k < s.len() && str_less(s[k as int], x));
                let y = s[j - 1];
                if j - 1 > k {
                    assert(!str_less(s[k as int], y));
                    lemma_str_less_total(s[k as int], y);
                    if y != s[k as int] {
                        lemma_str_less_trans(y, s[k as int], x);
                    }
                }
                lemma_str_less_asym(y, x);
            } else {
                assert(t[i] == s[i] && t[j] == s[j - 1]);
            }
        }
    }
}

/// The backup file names among `names`, from the greatest to the least, which
/// for these names is from the newest to the oldest.
pub fn get_backup_files(names: &Vec<String>) -> (r: Vec<String>)
    ensures
        sorted_desc(views(r@)),
        views(r@).to_multiset() == backup_names(views(names@), names@.len()).to_multiset(),
{
    let mut r: Vec<String> = Vec::new();
    let mut i: usize = 0;
    proof {
        assert(views(r@).to_multiset() =~= Seq::<Seq<char>>::empty().to_multiset()) by {
            assert(views(r@) =~= Seq::<Seq<char>>::empty());
        }
    }
    while i < names.len()
        invariant
            i <= names@.len(),
            sorted_desc(views(r@)),
            views(r@).to_multiset() == backup_names(views(names@), i as nat).to_multiset(),
        decreases names.len() - i,
    {
        assert(views(names@)[i as int] == names@[i as int]@);
        if is_backup_file(names[i].as_str()) {
            insert_desc(&mut r, names[i].clone());
            proof {
                to_multiset_build(backup_names(views(names@), i as nat), names@[i as int]@);
            }
        }
        i += 1;
    }
    r
}

/// The paths of the newest and the next newest backup, where there are two.
pub fn latest_backups(files: &Vec<String>, dir: &str) -> (r: Option<(String, String)>)
    ensures
        match r {
            Some(p) => files@.len() >= 2 && p.0@ == dir@ + "/"@ + files@[0]@ && p.1@ == dir@ + "/"@
                + files@[1]@,
            None => files@.len() < 2,
        },
{
    if files.len() >= 2 {
        Some((cat3(dir, "/", files[0].as_str()), cat3(dir, "/", files[1].as_str())))
    } else {
        None
    }
}

/// Whether a `diff` of the two newest backups shows them as the same dump: its
/// output has at most five lines.
pub fn is_unchanged(diff: &str) -> (r: bool)
    ensures
        r == (split_spec(diff@, "\n"@).len() <= 5),
{
    proof {
        reveal_strlit("\n");
    }
    let lines = split(diff, "\n");
    lines.len() <= 5
}

/// The backups beyond the newest hundred.
pub fn excess_backups(files: &Vec<String>) -> (r: Vec<String>)
    ensures
        views(r@) == if files@.len() > KEPT_BACKUPS {
            views(files@).skip(KEPT_BACKUPS as int)
        } else {
            Seq::empty()
        },
{
    let mut r: Vec<String> = Vec::new();
    if files.len() > KEPT_BACKUPS {
        let mut i: usize = KEPT_BACKUPS;
        while i < files.len()
            invariant
                KEPT_BACKUPS <= i <= files@.len(),
                views(r@) == views(files@).subrange(KEPT_BACKUPS as int, i as int),
            decreases files.len() - i,
        {
            let ghost before = views(r@);
            r.push(files[i].clone());
            assert(views(r@) =~= before.push(files@[i as int]@));
            assert(views(r@) =~= views(files@).subrange(KEPT_BACKUPS as int, i + 1));
            i += 1;
        }
        assert(views(files@).skip(KEPT_BACKUPS as int) =~= views(files@).subrange(
            KEPT_BACKUPS as int,
            files@.len() as int,
        ));
    }
    r
}

/// Byte offset `k` of `s`, written in UTF-8, falls between two characters (or at
/// either end).
pub open spec fn is_char_boundary(s: Seq<char>, k: int) -> bool {
    exists|i: int| 0 <= i <= s.len() && #[trigger] utf8_len(s.take(i)) == k
}

/// The index of the character that starts at byte offset `k`.
pub open spec fn char_index_at(s: Seq<char>, k: int) -> int {
    choose|i: int| 0 <= i <= s.len() && #[trigger] utf8_len(s.take(i)) == k
}

/// The text between byte offsets `a` and `b`, as `&s[a..b]` gives it.
pub open spec fn byte_slice(s: Seq<char>, a: int, b: int) -> Seq<char> {
    s.subrange(char_index_at(s, a), char_index_at(s, b))
}

/// Whether the date stamp can be cut out of the name: byte offsets 4, 6, 8, 9,
/// 11, 13 and 15 all fall between characters, so the name has at least 15 bytes.
pub open spec fn has_stamp_shape(name: Seq<char>) -> bool {
    &&& is_char_boundary(name, 4)
    &&& is_char_boundary(name, 6)
    &&& is_char_boundary(name, 8)
    &&& is_char_boundary(name, 9)
    &&& is_char_boundary(name, 11)
    &&& is_char_boundary(name, 13)
    &&& is_char_boundary(name, 15)
}

proof fn lemma_take_zero(s: Seq<char>)
    ensures
        utf8_len(s.take(0)) == 0,
{
    assert(s.take(0) =~= Seq::<char>::empty());
}

/// Two character indices at byte offsets `a <= b` are in the same order.
proof fn lemma_index_order(s: Seq<char>, i: int, j: int)
    requires
        0 <= i <= s.len(),
        0 <= j <= s.len(),
        utf8_len(s.take(i)) <= utf8_len(s.take(j)),
    ensures
        i <= j,
{
    if j < i {
        lemma_utf8_len_grows(s, j, i);
    }
}

/// The character index at a byte offset is the one found.
proof fn lemma_char_index(s: Seq<char>, k: int, i: int)
    requires
        0 <= i <= s.len(),
        utf8_len(s.take(i)) == k,
    ensures
        is_char_boundary(s, k),
        char_index_at(s, k) == i,
{
    assert(is_char_boundary(s, k));
    let j = char_index_at(s, k);
    lemma_index_order(s, i, j);
    lemma_index_order(s, j, i);
}

/// The index of the character that starts at byte offset `k`, if one does.
fn char_index(v: &Vec<char>, k: usize) -> (r: Option<usize>)
    requires
        k <= 15,
    ensures
        match r {
            Some(i) => i <= v@.len() && utf8_len(v@.take(i as int)) == k,
            None => !is_char_boundary(v@, k as int),
        },
{
    let mut i: usize = 0;
    let mut bytes: usize = 0;
    proof {
        lemma_take_zero(v@);
    }
    while bytes < k && i < v.len()
        invariant
            i <= v@.len(),
            k <= 15,
            bytes == utf8_len(v@.take(i as int)),
            bytes <= k + 3,
            forall|j: int| 0 <= j < i ==> utf8_len(v@.take(j)) < k,
        decreases v.len() - i,
    {
        let u = v[i] as u32;
        let w: usize = if u < 0x80 {
            1
        } else if u < 0x800 {
            2
        } else if u < 0x10000 {
            3
        } else {
            4
        };
        proof {
            assert(v@.take(i + 1).drop_last() =~= v@.take(i as int));
            assert forall|j: int| 0 <= j < i + 1 implies utf8_len(v@.take(j)) < k by {
                if j == i {
                    assert(utf8_len(v@.take(j)) == bytes);
                }
            }
        }
        bytes = bytes + w;
        i += 1;
    }
    if bytes == k {
        return Some(i);
    }
    proof {
        assert forall|j: int| 0 <= j <= v@.len() implies #[trigger] utf8_len(v@.take(j)) != k by {
            if j > i {
                lemma_utf8_len_grows(v@, i as int, j);
            }
        }
    }
    None
}

/// Whether the date stamp can be cut out of the name.
pub fn stamp_shape(name: &str) -> (r: bool)
    ensures
        r == has_stamp_shape(name@),
{
    let c = chars_of(name);
    char_index(&c, 4).is_some() && char_index(&c, 6).is_some() && char_index(&c, 8).is_some()
        && char_index(&c, 9).is_some() && char_index(&c, 11).is_some() && char_index(&c, 13).is_some()
        && char_index(&c, 15).is_some()
}

/// The date of a backup file name's stamp `YYYYMMDD_HHMMSS`, written as
/// `YYYY-MM-DD HH:MM:SS`, the pieces cut at byte offsets.
pub open spec fn stamp_date(name: Seq<char>) -> Seq<char> {
    byte_slice(name, 0, 4) + "-"@ + byte_slice(name, 4, 6) + "-"@ + byte_slice(name, 6, 8) + " "@
        + byte_slice(name, 9, 11) + ":"@ + byte_slice(name, 11, 13) + ":"@ + byte_slice(name, 13, 15)
}

fn boundary(c: &Vec<char>, k: usize) -> (i: usize)
    requires
        k <= 15,
        is_char_boundary(c@, k as int),
    ensures
        i <= c@.len(),
        utf8_len(c@.take(i as int)) == k,
        char_index_at(c@, k as int) == i,
{
    match char_index(c, k) {
        Some(i) => {
            proof {
                lemma_char_index(c@, k as int, i as int);
            }
            i
        },
        None => 0,
    }
}

fn stamp_date_exec(name: &str) -> (r: String)
    requires
        has_stamp_shape(name@),
    ensures
        r@ == stamp_date(name@),
{
    let c = chars_of(name);
    proof {
        lemma_take_zero(c@);
        lemma_char_index(c@, 0, 0);
    }
    let i4 = boundary(&c, 4);
    let i6 = boundary(&c, 6);
    let i8 = boundary(&c, 8);
    let i9 = boundary(&c, 9);
    let i11 = boundary(&c, 11);
    let i13 = boundary(&c, 13);
    let i15 = boundary(&c, 15);
    proof {
        lemma_index_order(c@, 0, i4 as int);
        lemma_index_order(c@, i4 as int, i6 as int);
        lemma_index_order(c@, i6 as int, i8 as int);
        lemma_index_order(c@, i9 as int, i11 as int);
        lemma_index_order(c@, i11 as int, i13 as int);
        lemma_index_order(c@, i13 as int, i15 as int);
    }
    let mut r = string_of(&c, 0, i4);
    r.append("-");
    r.append(string_of(&c, i4, i6).as_str());
    r.append("-");
    r.append(string_of(&c, i6, i8).as_str());
    r.append(" ");
    r.append(string_of(&c, i9, i11).as_str());
    r.append(":");
    r.append(string_of(&c, i11, i13).as_str());
    r.append(":");
    r.append(string_of(&c, i13, i15).as_str());
    r
}

proof fn lemma_ascii_prefix(s: Seq<char>, m: int)
    requires
        0 <= m <= s.len(),
        forall|i: int| 0 <= i < m ==> (#[trigger] s[i] as u32) < 0x80,
    ensures
        utf8_len(s.take(m)) == m,
    decreases m,
{
    if m == 0 {
        lemma_take_zero(s);
    } else {
        lemma_ascii_prefix(s, m - 1);
        assert(s.take(m).drop_last() =~= s.take(m - 1));
    }
}

/// A backup file named after a stamp of fifteen characters (a year from 1000 to
/// 9999) has a date stamp that can be cut out of its name.
pub proof fn law_stamped_name_has_stamp_shape(stamp: Seq<char>, db: Seq<char>)
    requires
        ends_like_stamp(stamp),
        stamp.len() == 15,
    ensures
        has_stamp_shape(stamp + "_backup_"@ + db + ".sql"@),
{
    let n = stamp + "_backup_"@ + db + ".sql"@;
    assert forall|i: int| 0 <= i < 15 implies (#[trigger] n[i] as u32) < 0x80 by {
        assert(n[i] == stamp[i]);
        if i != 8 {
            assert(is_digit_spec(stamp[i]));
        }
    }
    lemma_ascii_prefix(n, 4);
    lemma_ascii_prefix(n, 6);
    lemma_ascii_prefix(n, 8);
    lemma_ascii_prefix(n, 9);
    lemma_ascii_prefix(n, 11);
    lemma_ascii_prefix(n, 13);
    lemma_ascii_prefix(n, 15);
}

/// Whole days in a signed number of seconds, rounded toward zero.
pub open spec fn whole_days(seconds: int) -> int {
    if seconds >= 0 {
        seconds / 86400
    } else {
        -((-seconds) / 86400)
    }
}

/// The days, weeks and months that have a backup kept, and the backups to remove,
/// in the order they were found.
#[verifier::ext_equal]
pub struct Retention {
    pub days: Seq<int>,
    pub weeks: Seq<int>,
    pub months: Seq<int>,
    pub remove: Seq<Seq<char>>,
}

/// Nothing kept and nothing to remove.
pub open spec fn empty_retention() -> Retention {
    Retention { days: Seq::empty(), weeks: Seq::empty(), months: Seq::empty(), remove: Seq::empty() }
}

/// `name` added to the backups to remove.
pub open spec fn mark(st: Retention, name: Seq<char>) -> Retention {
    if st.remove.contains(name) {
        st
    } else {
        Retention { remove: st.remove.push(name), ..st }
    }
}

/// The retention rules for one backup, `now` being the current timestamp: a
/// backup under a week old is kept; past that, one backup is kept per day of
/// age, past four weeks one per week, and past six months (of four weeks) one
/// per month; the others are removed.
pub open spec fn retention_step(st: Retention, name: Seq<char>, now: int) -> Retention {
    match datetime_timestamp(stamp_date(name), DATE_FORMAT@) {
        None => st,
        Some(t) => {
            let days = whole_days(now - t);
            if days < 7 {
                st
            } else if st.days.contains(days) {
                mark(st, name)
            } else {
                let st1 = Retention { days: st.days.push(days), ..st };
                let weeks = days / 7;
                if weeks < 4 {
                    st1
                } else if st1.weeks.contains(weeks) {
                    mark(st1, name)
                } else {
                    let st2 = Retention { weeks: st1.weeks.push(weeks), ..st1 };
                    let months = weeks / 4;
                    if months < 6 {
                        st2
                    } else if st2.months.contains(months) {
                        mark(st2, name)
                    } else {
                        Retention { months: st2.months.push(months), ..st2 }
                    }
                }
            }
        }
    }
}

/// The retention rules applied to the first `n` backups, in order.
pub open spec fn retention(names: Seq<Seq<char>>, n: nat, now: int) -> Retention
    decreases n,
{
    if n == 0 {
        empty_retention()
    } else {
        retention_step(retention(names, (n - 1) as nat, now), names[n - 1], now)
    }
}

/// A backup is only ever removed if it is one of the backups looked at and at
/// least a week old, and none is listed for removal twice.
pub proof fn law_removed_backups_are_old(names: Seq<Seq<char>>, n: nat, now: int)
    requires
        n <= names.len(),
    ensures
        retention(names, n, now).remove.no_duplicates(),
        forall|k: int| 0 <= k < retention(names, n, now).remove.len() ==> {
            let f = #[trigger] retention(names, n, now).remove[k];
            &&& exists|j: int| 0 <= j < n && names[j] == f
            &&& datetime_timestamp(stamp_date(f), DATE_FORMAT@) matches Some(t) && whole_days(now - t) >= 7
        },
    decreases n,
{
    if n > 0 {
        law_removed_backups_are_old(names, (n - 1) as nat, now);
        let st = retention(names, (n - 1) as nat, now);
        let r = retention(names, n, now);
        let f = names[n - 1];
        assert(r.remove == st.remove || (r.remove == st.remove.push(f) && !st.remove.contains(f)
            && (datetime_timestamp(stamp_date(f), DATE_FORMAT@) matches Some(t) && whole_days(now - t)
            >= 7)));
        assert forall|k: int| 0 <= k < r.remove.len() implies {
            let g = #[trigger] r.remove[k];
            &&& exists|j: int| 0 <= j < n && names[j] == g
            &&& datetime_timestamp(stamp_date(g), DATE_FORMAT@) matches Some(t) && whole_days(now - t) >= 7
        } by {
            if k < st.remove.len() {
                assert(r.remove[k] == st.remove[k]);
                let g = st.remove[k];
                let j = choose|j: int| 0 <= j < n - 1 && names[j] == g;
                assert(0 <= j < n && names[j] == g);
            } else {
                assert(r.remove[k] == f);
                assert(names[n - 1] == f);
            }
        }
    }
}

fn contains_u64(v: &Vec<u64>, x: u64) -> (r: bool)
    ensures
        r == v@.map_values(|y: u64| y as int).contains(x as int),
{
    let ghost m = v@.map_values(|y: u64| y as int);
    let mut i: usize = 0;
    while i < v.len()
        invariant
            i <= v@.len(),
            m == v@.map_values(|y: u64| y as int),
            forall|j: int| 0 <= j < i ==> m[j] != x as int,
        decreases v.len() - i,
    {
        if v[i] == x {
            assert(m[i as int] == x as int);
            return true;
        }
        i += 1;
    }
    false
}

fn contains_name(v: &Vec<String>, x: &str) -> (r: bool)
    ensures
        r == views(v@).contains(x@),
{
    crate::package_installer::position(v, x).is_some()
}

/// The backups that the retention rules remove, `now` being the current
/// timestamp; each backup name must start with its date stamp.
pub fn old_backups_at(files: &Vec<String>, now: i64) -> (r: Vec<String>)
    requires
        forall|i: int| 0 <= i < files@.len() ==> has_stamp_shape(#[trigger] files@[i]@),
    ensures
        views(r@) == retention(views(files@), files@.len(), now as int).remove,
{
    let mut days: Vec<u64> = Vec::new();
    let mut weeks: Vec<u64> = Vec::new();
    let mut months: Vec<u64> = Vec::new();
    let mut remove: Vec<String> = Vec::new();
    let ghost names = views(files@);
    let mut i: usize = 0;
    while i < files.len()
        invariant
            i <= files@.len(),
            names == views(files@),
            forall|j: int| 0 <= j < files@.len() ==> has_stamp_shape(#[trigger] files@[j]@),
            retention(names, i as nat, now as int) == (Retention {
                days: days@.map_values(|y: u64| y as int),
                weeks: weeks@.map_values(|y: u64| y as int),
                months: months@.map_values(|y: u64| y as int),
                remove: views(remove@),
            }),
        decreases files.len() - i,
    {
        let name = files[i].as_str();
        assert(names[i as int] == name@);
        assert(has_stamp_shape(files@[i as int]@));
        let ghost st = retention(names, i as nat, now as int);
        let date = stamp_date_exec(name);
        if let Some(t) = parse_timestamp(date.as_str(), DATE_FORMAT) {
            let diff: i128 = now as i128 - t as i128;
            if diff >= 7 * 86400 {
                let d: u64 = (diff / 86400) as u64;
                assert(whole_days(now - t) == d as int);
                if contains_u64(&days, d) {
                    if !contains_name(&remove, name) {
                        let ghost before = views(remove@);
                        remove.push(name.to_owned());
                        assert(views(remove@) =~= before.push(name@));
                    }
                } else {
                    let ghost before = days@;
                    days.push(d);
                    assert(days@.map_values(|y: u64| y as int) =~= before.map_values(|y: u64| y as int).push(d as int));
                    let w: u64 = d / 7;
                    if w >= 4 {
                        if contains_u64(&weeks, w) {
                            if !contains_name(&remove, name) {
                                let ghost before = views(remove@);
                                remove.push(name.to_owned());
                                assert(views(remove@) =~= before.push(name@));
                            }
                        } else {
                            let ghost before = weeks@;
                            weeks.push(w);
                            assert(weeks@.map_values(|y: u64| y as int) =~= before.map_values(|y: u64| y as int).push(w as int));
                            let m: u64 = w / 4;
                            if m >= 6 {
                                if contains_u64(&months, m) {
                                    if !contains_name(&remove, name) {
                                        let ghost before = views(remove@);
                                        remove.push(name.to_owned());
                                        assert(views(remove@) =~= before.push(name@));
                                    }
                                } else {
                                    let ghost before = months@;
                                    months.push(m);
                                    assert(months@.map_values(|y: u64| y as int) =~= before.map_values(|y: u64| y as int).push(m as int));
                                }
                            }
                        }
                    }
                }
            } else {
                assert(whole_days(now - t) < 7);
            }
        }
        proof {
            assert(retention(names, (i + 1) as nat, now as int) == retention_step(st, names[i as int], now as int));
        }
        i += 1;
    }
    remove
}

/// Why old backups could not be weighed.
pub enum BackupError {
    /// The current date could not be read back.
    DateParse,
}

impl BackupError {
    /// The error's message.
    pub fn message(&self) -> (r: String)
        ensures
            r@ == "failed to parse date"@,
    {
        "failed to parse date".to_owned()
    }
}

/// The backups that the retention rules remove at the current date `now_text`,
/// the local date and time as the clock gives it, written in [`DATE_FORMAT`] and
/// read back; where it cannot be read back, the result is the error.
pub fn remove_old_backups(files: &Vec<String>, now_text: &str) -> (r: Result<Vec<String>, BackupError>)
    requires
        forall|i: int| 0 <= i < files@.len() ==> has_stamp_shape(#[trigger] files@[i]@),
    ensures
        match r {
            Ok(v) => datetime_timestamp(now_text@, DATE_FORMAT@) matches Some(now) && views(v@)
                == retention(views(files@), files@.len(), now).remove,
            Err(_) => datetime_timestamp(now_text@, DATE_FORMAT@) is None,
        },
{
    match parse_timestamp(now_text, DATE_FORMAT) {
        Some(now) => Ok(old_backups_at(files, now)),
        None => Err(BackupError::DateParse),
    }
}

/// The directory that holds a database's backups.
pub fn database_dir(home: &str, db: &str) -> (r: String)
    ensures
        r@ == home@ + "/backups/databases/"@ + db@,
{
    cat3(home, "/backups/databases/", db)
}

/// The command whose output is a database's dump.
pub fn dump_command(db: &str) -> (r: String)
    ensures
        r@ == "mariadb-dump --order-by-primary --extended-insert=FALSE "@ + db@,
{
    crate::action::cat2("mariadb-dump --order-by-primary --extended-insert=FALSE ", db)
}

/// The file that a new backup is written to, `stamp` being the time it is taken.
pub fn backup_file_path(db_dir: &str, stamp: &str, db: &str) -> (r: String)
    ensures
        r@ == db_dir@ + "/"@ + stamp@ + "_backup_"@ + db@ + ".sql"@,
{
    let mut r = cat3(db_dir, "/", stamp);
    r.append("_backup_");
    r.append(db);
    r.append(".sql");
    r
}

/// The command that compares the two newest backups.
pub fn diff_command(latest: &str, last: &str) -> (r: String)
    ensures
        r@ == "diff "@ + latest@ + " "@ + last@,
{
    let mut r = cat3("diff ", latest, " ");
    r.append(last);
    r
}

} // verus!
