//! Decisions of the disk usage scanner: entry names, size labels and the order
//! in which entries are offered.
use vstd::prelude::*;
use crate::action::cat2;
use crate::number::{decimal, decimal_spec};
use crate::text::{replace_first, replace_first_spec, str_eq};

verus! {

/// Bytes in a kilobyte, as the scanner counts.
pub const KB: u64 = 1024;
/// Bytes in a megabyte.
pub const MB: u64 = 1048576;
/// Bytes in a gigabyte.
pub const GB: u64 = 1073741824;
/// Bytes in a terabyte.
pub const TB: u64 = 1099511627776;

/// How a size is shown: in the largest unit that it exceeds, rounded down.
pub open spec fn size_label_spec(bytes: u64) -> Seq<char> {
    if bytes > TB {
        decimal_spec((bytes / TB) as nat) + " TB"@
    } else if bytes > GB {
        decimal_spec((bytes / GB) as nat) + " GB"@
    } else if bytes > MB {
        decimal_spec((bytes / MB) as nat) + " MB"@
    } else if bytes > KB {
        decimal_spec((bytes / KB) as nat) + " KB"@
    } else {
        decimal_spec(bytes as nat) + " B "@
    }
}

/// How a size is shown.
pub fn size_label(bytes: u64) -> (r: String)
    ensures
        r@ == size_label_spec(bytes),
{
    let (n, unit): (u64, &str) = if bytes > TB {
        (bytes / TB, " TB")
    } else if bytes > GB {
        (bytes / GB, " GB")
    } else if bytes > MB {
        (bytes / MB, " MB")
    } else if bytes > KB {
        (bytes / KB, " KB")
    } else {
        (bytes, " B ")
    };
    cat2(decimal(n).as_str(), unit)
}

/// Whether an entry is left out of a scan: the `/proc` file system.
pub fn is_skipped_entry(entry_path: &str) -> (r: bool)
    ensures
        r == (entry_path@ == "/proc"@),
{
    str_eq(entry_path, "/proc")
}

/// An entry's name below the scanned path: the first occurrence of the path
/// taken out of the entry's path.
pub fn relative_entry(entry_path: &str, path: &str) -> (r: String)
    ensures
        r@ == replace_first_spec(entry_path@, path@, Seq::empty()),
{
    proof {
        reveal_strlit("");
    }
    replace_first(entry_path, path, "")
}

/// The path that choosing an entry scans next.
pub fn option_value(path: &str, name: &str) -> (r: String)
    ensures
        r@ == path@ + name@,
{
    cat2(path, name)
}

/// The largest size among the entries, 0 for none.
pub fn max_size(entries: &Vec<(String, u64)>) -> (r: u64)
    ensures
        forall|i: int| 0 <= i < entries@.len() ==> (#[trigger] entries@[i]).1 <= r,
        entries@.len() == 0 ==> r == 0,
        entries@.len() > 0 ==> exists|i: int| 0 <= i < entries@.len() && (#[trigger] entries@[i]).1 == r,
{
    let mut r: u64 = 0;
    let mut i: usize = 0;
    while i < entries.len()
        invariant
            i <= entries@.len(),
            forall|j: int| 0 <= j < i ==> (#[trigger] entries@[j]).1 <= r,
            i == 0 ==> r == 0,
            i > 0 ==> exists|j: int| 0 <= j < i && (#[trigger] entries@[j]).1 == r,
        decreases entries.len() - i,
    {
        if i == 0 || entries[i].1 > r {
            r = entries[i].1;
            assert(entries@[i as int].1 == r);
        }
        i += 1;
    }
    r
}

/// `out` is `input` ordered from the largest size to the smallest, entries of
/// equal size keeping their order: `p` gives the place in `input` of each entry
/// of `out`.
pub open spec fn stable_size_order(input: Seq<(String, u64)>, out: Seq<(String, u64)>, p: Seq<int>) -> bool {
    &&& out.len() == input.len()
    &&& p.len() == input.len()
    &&& forall|i: int| 0 <= i < p.len() ==> 0 <= #[trigger] p[i] < input.len()
    &&& forall|i: int, j: int| 0 <= i < j < p.len() ==> #[trigger] p[i] != #[trigger] p[j]
    &&& forall|i: int| 0 <= i < out.len() ==> #[trigger] out[i] == input[p[i]]
    &&& forall|i: int, j: int|
        0 <= i < j < out.len() ==> (#[trigger] out[i]).1 > (#[trigger] out[j]).1 || (out[i].1 == out[j].1
            && p[i] < p[j])
}

proof fn lemma_insert_stable(
    input: Seq<(String, u64)>,
    i: int,
    out: Seq<(String, u64)>,
    p: Seq<int>,
    k: int,
)
    requires
        0 <= i < input.len(),
        stable_size_order(input.take(i), out, p),
        0 <= k <= out.len(),
        forall|j: int| 0 <= j < k ==> (#[trigger] out[j]).1 >= input[i].1,
        forall|j: int| k <= j < out.len() ==> (#[trigger] out[j]).1 < input[i].1,
    ensures
        stable_size_order(input.take(i + 1), out.insert(k, input[i]), p.insert(k, i)),
{
    let e = input[i];
    let o = out.insert(k, e);
    let q = p.insert(k, i);
    let t = input.take(i + 1);
    assert forall|a: int| 0 <= a < q.len() implies 0 <= #[trigger] q[a] < t.len() by {
        if a < k {
            assert(q[a] == p[a]);
        } else if a > k {
            assert(q[a] == p[a - 1]);
        }
    }
    assert forall|a: int, b: int| 0 <= a < b < q.len() implies #[trigger] q[a] != #[trigger] q[b] by {
        if b < k {
            assert(q[a] == p[a] && q[b] == p[b]);
        } else if b == k {
            assert(q[a] == p[a] && p[a] < i);
        } else if a > k {
            assert(q[a] == p[a - 1] && q[b] == p[b - 1]);
        } else if a == k {
            assert(q[b] == p[b - 1] && p[b - 1] < i);
        } else {
            assert(q[a] == p[a] && q[b] == p[b - 1]);
        }
    }
    assert forall|a: int| 0 <= a < o.len() implies #[trigger] o[a] == t[q[a]] by {
        if a < k {
            assert(o[a] == out[a] && q[a] == p[a] && out[a] == input.take(i)[p[a]]);
        } else if a > k {
            assert(o[a] == out[a - 1] && q[a] == p[a - 1] && out[a - 1] == input.take(i)[p[a - 1]]);
        }
    }
    assert forall|a: int, b: int| 0 <= a < b < o.len() implies (#[trigger] o[a]).1 > (#[trigger] o[b]).1 || (o[a].1
        == o[b].1 && q[a] < q[b]) by {
        if b < k {
            assert(o[a] == out[a] && o[b] == out[b] && q[a] == p[a] && q[b] == p[b]);
        } else if b == k {
            assert(o[a] == out[a] && q[a] == p[a] && p[a] < i);
        } else if a > k {
            assert(o[a] == out[a - 1] && o[b] == out[b - 1] && q[a] == p[a - 1] && q[b] == p[b - 1]);
        } else if a == k {
            assert(o[b] == out[b - 1]);
        } else {
            assert(o[a] == out[a] && o[b] == out[b - 1] && q[a] == p[a] && q[b] == p[b - 1]);
        }
    }
}

/// The entries from the largest to the smallest, entries of equal size in the
/// order given.
pub fn sort_by_size(entries: &Vec<(String, u64)>) -> (r: Vec<(String, u64)>)
    ensures
        exists|p: Seq<int>| stable_size_order(entries@, r@, p),
{
    let mut out: Vec<(String, u64)> = Vec::new();
    let ghost mut p: Seq<int> = Seq::empty();
    let ghost input = entries@;
    let mut i: usize = 0;
    assert(stable_size_order(input.take(0), out@, p));
    while i < entries.len()
        invariant
            i <= input.len(),
            input == entries@,
            stable_size_order(input.take(i as int), out@, p),
        decreases entries.len() - i,
    {
        let e = (entries[i].0.clone(), entries[i].1);
        assert(e == input[i as int]);
        let mut k: usize = 0;
        while k < out.len()
            invariant
                k <= out@.len(),
                stable_size_order(input.take(i as int), out@, p),
                e == input[i as int],
                forall|j: int| 0 <= j < k ==> (#[trigger] out@[j]).1 >= e.1,
            ensures
                k <= out@.len(),
                forall|j: int| 0 <= j < k ==> (#[trigger] out@[j]).1 >= e.1,
                k < out@.len() ==> out@[k as int].1 < e.1,
            decreases out.len() - k,
        {
            if out[k].1 < e.1 {
                break;
            }
            k += 1;
        }
        proof {
            assert forall|j: int| k <= j < out@.len() implies (#[trigger] out@[j]).1 < e.1 by {
                if j > k {
                    assert(out@[k as int].1 > out@[j].1 || out@[k as int].1 == out@[j].1);
                }
            }
            lemma_insert_stable(input, i as int, out@, p, k as int);
            p = p.insert(k as int, i as int);
        }
        out.insert(k, e);
        i += 1;
    }
    assert(input.take(input.len() as int) =~= input);
    out
}

} // verus!
