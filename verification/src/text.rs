//! Character-level text utilities with exact specifications over `Seq<char>`.
use vstd::prelude::*;

verus! {

/// Appends one character to a string.
/// Trusted: `String::push` appends `c` to the end of the string (std documentation).
#[verifier::external_body]
pub(crate) fn push_char(s: &mut String, c: char)
    ensures
        final(s)@ == old(s)@.push(c),
{
    s.push(c);
}

/// The characters of `s`, in order.
pub fn chars_of(s: &str) -> (v: Vec<char>)
    ensures
        v@ == s@,
{
    let mut v: Vec<char> = Vec::new();
    for c in it: s.chars()
        invariant
            v@ == it.seq().take(it.index() as int),
            it.seq() == s@,
    {
        v.push(c);
    }
    v
}

/// Builds a string from a range of characters.
pub fn string_of(v: &Vec<char>, from: usize, to: usize) -> (s: String)
    requires
        from <= to <= v@.len(),
    ensures
        s@ == v@.subrange(from as int, to as int),
{
    let mut s = String::new();
    let mut i = from;
    while i < to
        invariant
            from <= i <= to <= v@.len(),
            s@ == v@.subrange(from as int, i as int),
        decreases to - i,
    {
        push_char(&mut s, v[i]);
        i += 1;
    }
    s
}


/// The abstract contents of a sequence of strings.
pub open spec fn views(v: Seq<String>) -> Seq<Seq<char>> {
    v.map_values(|x: String| x@)
}

/// `pat` occurs in `s` starting at index `i`.
pub open spec fn matches_at(s: Seq<char>, pat: Seq<char>, i: int) -> bool {
    0 <= i && i + pat.len() <= s.len() && s.subrange(i, i + pat.len()) == pat
}

/// `pat` occurs somewhere in `s` (the empty pattern occurs in every string).
pub open spec fn contains_spec(s: Seq<char>, pat: Seq<char>) -> bool {
    exists|i: int| matches_at(s, pat, i)
}

/// `s` begins with `pat`.
pub open spec fn starts_with_spec(s: Seq<char>, pat: Seq<char>) -> bool {
    matches_at(s, pat, 0)
}

/// Glues `c` to the front of the first piece of `p`.
pub open spec fn prepend_piece(c: Seq<char>, p: Seq<Seq<char>>) -> Seq<Seq<char>> {
    if p.len() == 0 {
        seq![c]
    } else {
        p.update(0, c + p[0])
    }
}

/// The pieces of `s` between the leftmost non-overlapping occurrences of the
/// non-empty pattern `pat`, as `str::split` yields them.
pub open spec fn split_spec(s: Seq<char>, pat: Seq<char>) -> Seq<Seq<char>>
    decreases s.len(),
{
    if pat.len() == 0 || s.len() == 0 {
        seq![s]
    } else if matches_at(s, pat, 0) {
        seq![Seq::<char>::empty()] + split_spec(s.skip(pat.len() as int), pat)
    } else {
        prepend_piece(seq![s[0]], split_spec(s.skip(1), pat))
    }
}

pub proof fn lemma_split_nonempty(s: Seq<char>, pat: Seq<char>)
    ensures
        split_spec(s, pat).len() >= 1,
    decreases s.len(),
{
    if pat.len() == 0 || s.len() == 0 {
    } else if matches_at(s, pat, 0) {
        lemma_split_nonempty(s.skip(pat.len() as int), pat);
    } else {
        lemma_split_nonempty(s.skip(1), pat);
    }
}

/// Whether `pat` occurs in `s` at index `i`.
pub fn matches_at_exec(s: &Vec<char>, pat: &Vec<char>, i: usize) -> (r: bool)
    ensures
        r == matches_at(s@, pat@, i as int),
{
    if pat.len() > s.len() || i > s.len() - pat.len() {
        return false;
    }
    let mut k: usize = 0;
    while k < pat.len()
        invariant
            i + pat@.len() <= s@.len(),
            k <= pat@.len(),
            forall|j: int| 0 <= j < k ==> s@[i + j] == pat@[j],
        decreases pat.len() - k,
    {
        assert(i + k < s.len());
        if s[i + k] != pat[k] {
            assert(s@.subrange(i as int, i + pat@.len())[k as int] != pat@[k as int]);
            return false;
        }
        k += 1;
    }
    assert(s@.subrange(i as int, i + pat@.len()) =~= pat@);
    true
}

/// Splits `s` at every leftmost non-overlapping occurrence of `pat`.
pub fn split_chars(s: &Vec<char>, pat: &Vec<char>) -> (r: Vec<String>)
    requires
        pat@.len() > 0,
    ensures
        views(r@) == split_spec(s@, pat@),
{
    let mut done: Vec<String> = Vec::new();
    let mut start: usize = 0;
    let mut i: usize = 0;
    proof {
        assert(s@.skip(0) =~= s@);
        lemma_split_nonempty(s@, pat@);
        assert(prepend_piece(Seq::<char>::empty(), split_spec(s@, pat@)) =~= split_spec(s@, pat@));
        assert(views(done@) =~= Seq::<Seq<char>>::empty());
    }
    while i < s.len()
        invariant
            pat@.len() > 0,
            start <= i <= s@.len(),
            split_spec(s@, pat@) == views(done@) + prepend_piece(
                s@.subrange(start as int, i as int),
                split_spec(s@.skip(i as int), pat@),
            ),
        decreases s.len() - i,
    {
        let ghost rest = s@.skip(i as int);
        let ghost cur = s@.subrange(start as int, i as int);
        if matches_at_exec(s, pat, i) {
            let piece = string_of(s, start, i);
            proof {
                assert(rest.subrange(0, pat@.len() as int) =~= s@.subrange(i as int, i + pat@.len()));
                assert(rest.skip(pat@.len() as int) =~= s@.skip(i + pat@.len()));
                lemma_split_nonempty(s@.skip(i + pat@.len()), pat@);
                let tail = split_spec(s@.skip(i + pat@.len()), pat@);
                assert(prepend_piece(cur, seq![Seq::<char>::empty()] + tail) =~= seq![cur] + tail);
                assert(prepend_piece(Seq::<char>::empty(), tail) =~= tail);
                assert(views(done@.push(piece)) =~= views(done@).push(cur));
            }
            done.push(piece);
            i = i + pat.len();
            start = i;
            proof {
                assert(s@.subrange(start as int, i as int) =~= Seq::<char>::empty());
            }
        } else {
            proof {
                if i + pat@.len() <= s@.len() {
                    assert(rest.subrange(0, pat@.len() as int) =~= s@.subrange(i as int, i + pat@.len()));
                }
                assert(rest.skip(1) =~= s@.skip(i + 1));
                assert(rest[0] == s@[i as int]);
                lemma_split_nonempty(s@.skip(i + 1), pat@);
                let tail = split_spec(s@.skip(i + 1), pat@);
                assert(cur + seq![s@[i as int]] =~= s@.subrange(start as int, i + 1));
                assert(cur + (seq![s@[i as int]] + tail[0]) =~= (cur + seq![s@[i as int]]) + tail[0]);
                assert(prepend_piece(cur, prepend_piece(seq![s@[i as int]], tail)) =~= prepend_piece(
                    s@.subrange(start as int, i + 1),
                    tail,
                ));
            }
            i = i + 1;
        }
    }
    let piece = string_of(s, start, i);
    proof {
        assert(s@.skip(i as int) =~= Seq::<char>::empty());
        assert(views(done@.push(piece)) =~= views(done@).push(piece@));
        assert(prepend_piece(piece@, seq![Seq::<char>::empty()]) =~= seq![piece@]);
    }
    done.push(piece);
    done
}

/// `str::split` with a non-empty pattern.
pub fn split(s: &str, pat: &str) -> (r: Vec<String>)
    requires
        pat@.len() > 0,
    ensures
        views(r@) == split_spec(s@, pat@),
{
    let sc = chars_of(s);
    let pc = chars_of(pat);
    split_chars(&sc, &pc)
}


/// Unicode `White_Space`, the property that `char::is_whitespace` tests.
pub open spec fn is_whitespace_spec(c: char) -> bool {
    let u = c as u32;
    (0x09 <= u && u <= 0x0d) || u == 0x20 || u == 0x85 || u == 0xa0 || u == 0x1680 || (0x2000
        <= u && u <= 0x200a) || u == 0x2028 || u == 0x2029 || u == 0x202f || u == 0x205f || u
        == 0x3000
}

/// Whether `c` is Unicode white space.
pub fn is_whitespace(c: char) -> (r: bool)
    ensures
        r == is_whitespace_spec(c),
{
    let u = c as u32;
    (0x09 <= u && u <= 0x0d) || u == 0x20 || u == 0x85 || u == 0xa0 || u == 0x1680 || (0x2000
        <= u && u <= 0x200a) || u == 0x2028 || u == 0x2029 || u == 0x202f || u == 0x205f || u
        == 0x3000
}

/// `s` without its leading white space.
pub open spec fn trim_start_spec(s: Seq<char>) -> Seq<char>
    decreases s.len(),
{
    if s.len() > 0 && is_whitespace_spec(s[0]) {
        trim_start_spec(s.skip(1))
    } else {
        s
    }
}

/// `s` without its trailing white space.
pub open spec fn trim_end_spec(s: Seq<char>) -> Seq<char>
    decreases s.len(),
{
    if s.len() > 0 && is_whitespace_spec(s.last()) {
        trim_end_spec(s.drop_last())
    } else {
        s
    }
}

/// `s` without leading and trailing white space, as `str::trim` gives it.
pub open spec fn trim_spec(s: Seq<char>) -> Seq<char> {
    trim_end_spec(trim_start_spec(s))
}

proof fn lemma_trim_start(s: Seq<char>, a: int)
    requires
        0 <= a <= s.len(),
        forall|j: int| 0 <= j < a ==> is_whitespace_spec(#[trigger] s[j]),
        a == s.len() || !is_whitespace_spec(s[a]),
    ensures
        trim_start_spec(s) == s.skip(a),
    decreases a,
{
    if a == 0 {
        assert(s.skip(0) =~= s);
    } else {
        assert(s.skip(1).skip(a - 1) =~= s.skip(a));
        assert forall|j: int| 0 <= j < a - 1 implies is_whitespace_spec(#[trigger] s.skip(1)[j]) by {
            assert(s.skip(1)[j] == s[j + 1]);
        }
        lemma_trim_start(s.skip(1), a - 1);
    }
}

proof fn lemma_trim_end(s: Seq<char>, b: int)
    requires
        0 <= b <= s.len(),
        forall|j: int| b <= j < s.len() ==> is_whitespace_spec(#[trigger] s[j]),
        b == 0 || !is_whitespace_spec(s[b - 1]),
    ensures
        trim_end_spec(s) == s.take(b),
    decreases s.len() - b,
{
    if b == s.len() {
        assert(s.take(b) =~= s);
    } else {
        assert(s.drop_last().take(b) =~= s.take(b));
        assert forall|j: int| b <= j < s.drop_last().len() implies is_whitespace_spec(
            #[trigger] s.drop_last()[j],
        ) by {
            assert(s.drop_last()[j] == s[j]);
        }
        lemma_trim_end(s.drop_last(), b);
    }
}

/// `str::trim`: the string without leading and trailing white space.
pub fn trim_chars(v: &Vec<char>) -> (r: String)
    ensures
        r@ == trim_spec(v@),
{
    let mut a: usize = 0;
    while a < v.len() && is_whitespace(v[a])
        invariant
            a <= v@.len(),
            forall|j: int| 0 <= j < a ==> is_whitespace_spec(#[trigger] v@[j]),
        decreases v.len() - a,
    {
        a += 1;
    }
    let mut b: usize = v.len();
    while b > a && is_whitespace(v[b - 1])
        invariant
            a <= b <= v@.len(),
            forall|j: int| b <= j < v@.len() ==> is_whitespace_spec(#[trigger] v@[j]),
        decreases b,
    {
        b -= 1;
    }
    proof {
        lemma_trim_start(v@, a as int);
        let t = v@.skip(a as int);
        assert forall|j: int| b - a <= j < t.len() implies is_whitespace_spec(#[trigger] t[j]) by {
            assert(t[j] == v@[j + a]);
        }
        if b > a {
            assert(t[b - a - 1] == v@[b - 1]);
        }
        lemma_trim_end(t, b - a);
        assert(t.take(b - a) =~= v@.subrange(a as int, b as int));
    }
    string_of(v, a, b)
}

/// `str::trim`.
pub fn trim(s: &str) -> (r: String)
    ensures
        r@ == trim_spec(s@),
{
    let v = chars_of(s);
    trim_chars(&v)
}

/// Whether `pat` occurs in `s`, as `str::contains` answers.
pub fn contains_chars(s: &Vec<char>, pat: &Vec<char>) -> (r: bool)
    ensures
        r == contains_spec(s@, pat@),
{
    if pat.len() > s.len() {
        assert forall|i: int| !matches_at(s@, pat@, i) by {}
        return false;
    }
    let last = s.len() - pat.len();
    let mut i: usize = 0;
    while i < last
        invariant
            i <= last,
            last == s@.len() - pat@.len(),
            forall|j: int| 0 <= j < i ==> !matches_at(s@, pat@, j),
        decreases last - i,
    {
        if matches_at_exec(s, pat, i) {
            return true;
        }
        i += 1;
    }
    if matches_at_exec(s, pat, last) {
        return true;
    }
    assert forall|j: int| !matches_at(s@, pat@, j) by {
        if 0 <= j && j < last {
            assert(!matches_at(s@, pat@, j));
        }
    }
    false
}

/// `str::contains`.
pub fn contains(s: &str, pat: &str) -> (r: bool)
    ensures
        r == contains_spec(s@, pat@),
{
    let sc = chars_of(s);
    let pc = chars_of(pat);
    contains_chars(&sc, &pc)
}

/// `str::starts_with`.
pub fn starts_with(s: &str, pat: &str) -> (r: bool)
    ensures
        r == starts_with_spec(s@, pat@),
{
    let sc = chars_of(s);
    let pc = chars_of(pat);
    matches_at_exec(&sc, &pc, 0)
}


/// The pieces of `s` between single white-space characters (empty pieces kept).
pub open spec fn ws_split_spec(s: Seq<char>) -> Seq<Seq<char>>
    decreases s.len(),
{
    if s.len() == 0 {
        seq![s]
    } else if is_whitespace_spec(s[0]) {
        seq![Seq::<char>::empty()] + ws_split_spec(s.skip(1))
    } else {
        prepend_piece(seq![s[0]], ws_split_spec(s.skip(1)))
    }
}

/// `p` with its empty pieces left out.
pub open spec fn nonempty_pieces(p: Seq<Seq<char>>) -> Seq<Seq<char>>
    decreases p.len(),
{
    if p.len() == 0 {
        p
    } else if p[0].len() == 0 {
        nonempty_pieces(p.skip(1))
    } else {
        seq![p[0]] + nonempty_pieces(p.skip(1))
    }
}

/// The words of `s`, as `str::split_whitespace` yields them.
pub open spec fn split_whitespace_spec(s: Seq<char>) -> Seq<Seq<char>> {
    nonempty_pieces(ws_split_spec(s))
}

proof fn lemma_ws_split_nonempty(s: Seq<char>)
    ensures
        ws_split_spec(s).len() >= 1,
    decreases s.len(),
{
    if s.len() > 0 {
        lemma_ws_split_nonempty(s.skip(1));
    }
}

proof fn lemma_nonempty_cons(c: Seq<char>, p: Seq<Seq<char>>)
    ensures
        nonempty_pieces(seq![c] + p) == (if c.len() == 0 {
            nonempty_pieces(p)
        } else {
            seq![c] + nonempty_pieces(p)
        }),
{
    assert((seq![c] + p)[0] == c);
    assert((seq![c] + p).skip(1) =~= p);
}

/// `str::split_whitespace`.
pub fn split_whitespace_chars(s: &Vec<char>) -> (r: Vec<String>)
    ensures
        views(r@) == split_whitespace_spec(s@),
{
    let mut done: Vec<String> = Vec::new();
    let mut start: usize = 0;
    let mut i: usize = 0;
    proof {
        assert(s@.skip(0) =~= s@);
        lemma_ws_split_nonempty(s@);
        assert(prepend_piece(Seq::<char>::empty(), ws_split_spec(s@)) =~= ws_split_spec(s@));
        assert(views(done@) =~= Seq::<Seq<char>>::empty());
    }
    while i < s.len()
        invariant
            start <= i <= s@.len(),
            split_whitespace_spec(s@) == views(done@) + nonempty_pieces(
                prepend_piece(s@.subrange(start as int, i as int), ws_split_spec(s@.skip(i as int))),
            ),
        decreases s.len() - i,
    {
        let ghost rest = s@.skip(i as int);
        let ghost cur = s@.subrange(start as int, i as int);
        proof {
            assert(rest.skip(1) =~= s@.skip(i + 1));
            assert(rest[0] == s@[i as int]);
            lemma_ws_split_nonempty(s@.skip(i + 1));
        }
        let ghost tail = ws_split_spec(s@.skip(i + 1));
        if is_whitespace(s[i]) {
            proof {
                assert(prepend_piece(cur, seq![Seq::<char>::empty()] + tail) =~= seq![cur] + tail);
                assert(prepend_piece(Seq::<char>::empty(), tail) =~= tail);
                lemma_nonempty_cons(cur, tail);
            }
            if start < i {
                let piece = string_of(s, start, i);
                proof {
                    assert(views(done@.push(piece)) =~= views(done@).push(cur));
                    assert(views(done@).push(cur) + nonempty_pieces(tail) =~= views(done@) + (seq![cur]
                        + nonempty_pieces(tail)));
                }
                done.push(piece);
            } else {
                assert(cur.len() == 0);
            }
            i = i + 1;
            start = i;
            assert(s@.subrange(start as int, i as int) =~= Seq::<char>::empty());
        } else {
            proof {
                assert(cur + seq![s@[i as int]] =~= s@.subrange(start as int, i + 1));
                assert(cur + (seq![s@[i as int]] + tail[0]) =~= (cur + seq![s@[i as int]]) + tail[0]);
                assert(prepend_piece(cur, prepend_piece(seq![s@[i as int]], tail)) =~= prepend_piece(
                    s@.subrange(start as int, i + 1),
                    tail,
                ));
            }
            i = i + 1;
        }
    }
    proof {
        assert(s@.skip(i as int) =~= Seq::<char>::empty());
        assert(prepend_piece(s@.subrange(start as int, i as int), seq![Seq::<char>::empty()]) =~= seq![
            s@.subrange(start as int, i as int),
        ]);
        lemma_nonempty_cons(s@.subrange(start as int, i as int), Seq::empty());
        assert(seq![s@.subrange(start as int, i as int)] + Seq::<Seq<char>>::empty() =~= seq![
            s@.subrange(start as int, i as int),
        ]);
        assert(nonempty_pieces(Seq::<Seq<char>>::empty()) =~= Seq::<Seq<char>>::empty());
    }
    if start < i {
        let piece = string_of(s, start, i);
        proof {
            assert(views(done@.push(piece)) =~= views(done@).push(piece@));
            assert(views(done@) + seq![piece@] =~= views(done@).push(piece@));
        }
        done.push(piece);
    } else {
        assert(views(done@) + Seq::<Seq<char>>::empty() =~= views(done@));
    }
    done
}

/// `str::split_whitespace`.
pub fn split_whitespace(s: &str) -> (r: Vec<String>)
    ensures
        views(r@) == split_whitespace_spec(s@),
{
    let v = chars_of(s);
    split_whitespace_chars(&v)
}


/// The rightmost occurrence of `pat` in `s` that starts below `n`.
pub open spec fn last_match_below(s: Seq<char>, pat: Seq<char>, n: nat) -> Option<int>
    decreases n,
{
    if n == 0 {
        None
    } else if matches_at(s, pat, n - 1) {
        Some(n - 1)
    } else {
        last_match_below(s, pat, (n - 1) as nat)
    }
}

/// `str::rsplit_once`: the text before and after the rightmost occurrence of `pat`.
pub open spec fn rsplit_once_spec(s: Seq<char>, pat: Seq<char>) -> Option<(Seq<char>, Seq<char>)> {
    match last_match_below(s, pat, s.len() + 1) {
        Some(i) => Some((s.take(i), s.skip(i + pat.len()))),
        None => None,
    }
}

proof fn lemma_last_match_in_range(s: Seq<char>, pat: Seq<char>, n: nat)
    ensures
        last_match_below(s, pat, n) matches Some(i) ==> matches_at(s, pat, i) && i < n,
    decreases n,
{
    if n > 0 {
        lemma_last_match_in_range(s, pat, (n - 1) as nat);
    }
}

/// `str::rsplit_once`.
pub fn rsplit_once_chars(s: &Vec<char>, pat: &Vec<char>) -> (r: Option<(String, String)>)
    ensures
        match (r, rsplit_once_spec(s@, pat@)) {
            (Some(p), Some(q)) => p.0@ == q.0 && p.1@ == q.1,
            (None, None) => true,
            _ => false,
        },
{
    let mut k: usize = s.len();
    loop
        invariant
            k <= s@.len(),
            last_match_below(s@, pat@, (s@.len() + 1) as nat) == last_match_below(
                s@,
                pat@,
                (k + 1) as nat,
            ),
        decreases k,
    {
        if matches_at_exec(s, pat, k) {
            assert(k + pat.len() <= s.len());
            let before = string_of(s, 0, k);
            let after = string_of(s, k + pat.len(), s.len());
            assert(before@ =~= s@.take(k as int));
            assert(after@ =~= s@.skip(k + pat@.len()));
            return Some((before, after));
        }
        if k == 0 {
            assert(last_match_below(s@, pat@, 0) is None);
            return None;
        }
        k -= 1;
    }
}

/// `str::rsplit_once`.
pub fn rsplit_once(s: &str, pat: &str) -> (r: Option<(String, String)>)
    ensures
        match (r, rsplit_once_spec(s@, pat@)) {
            (Some(p), Some(q)) => p.0@ == q.0 && p.1@ == q.1,
            (None, None) => true,
            _ => false,
        },
{
    let sc = chars_of(s);
    let pc = chars_of(pat);
    rsplit_once_chars(&sc, &pc)
}

/// The leftmost occurrence of `pat` in `s` at or after `i`.
pub open spec fn first_match_from(s: Seq<char>, pat: Seq<char>, i: int) -> Option<int>
    decreases s.len() + 1 - i,
{
    if i < 0 || i > s.len() {
        None
    } else if matches_at(s, pat, i) {
        Some(i)
    } else {
        first_match_from(s, pat, i + 1)
    }
}

/// `str::replacen(pat, to, 1)`: the leftmost occurrence of `pat` replaced by `to`.
pub open spec fn replace_first_spec(s: Seq<char>, pat: Seq<char>, to: Seq<char>) -> Seq<char> {
    match first_match_from(s, pat, 0) {
        Some(i) => s.take(i) + to + s.skip(i + pat.len()),
        None => s,
    }
}

/// The index of the leftmost occurrence of `pat` in `s`, if any.
pub fn find_chars(s: &Vec<char>, pat: &Vec<char>) -> (r: Option<usize>)
    ensures
        match r {
            Some(i) => first_match_from(s@, pat@, 0) == Some(i as int),
            None => first_match_from(s@, pat@, 0) is None,
        },
{
    let mut i: usize = 0;
    loop
        invariant
            i <= s@.len(),
            first_match_from(s@, pat@, 0) == first_match_from(s@, pat@, i as int),
        decreases s.len() - i,
    {
        if matches_at_exec(s, pat, i) {
            return Some(i);
        }
        if i == s.len() {
            assert(first_match_from(s@, pat@, i + 1) is None);
            return None;
        }
        i += 1;
    }
}

/// `str::replacen(pat, to, 1)`.
pub fn replace_first(s: &str, pat: &str, to: &str) -> (r: String)
    ensures
        r@ == replace_first_spec(s@, pat@, to@),
{
    let sc = chars_of(s);
    let pc = chars_of(pat);
    match find_chars(&sc, &pc) {
        Some(i) => {
            proof {
                assert(matches_at(sc@, pc@, i as int)) by {
                    lemma_first_match_in_range(sc@, pc@, 0);
                }
            }
            assert(i + pc.len() <= sc.len());
            let mut r = string_of(&sc, 0, i);
            r.append(to);
            let tail = string_of(&sc, i + pc.len(), sc.len());
            r.append(tail.as_str());
            assert(sc@.take(i as int) =~= sc@.subrange(0, i as int));
            assert(sc@.skip(i + pc@.len()) =~= sc@.subrange(i + pc@.len(), sc@.len() as int));
            r
        },
        None => string_of(&sc, 0, sc.len()),
    }
}

proof fn lemma_first_match_in_range(s: Seq<char>, pat: Seq<char>, i: int)
    ensures
        first_match_from(s, pat, i) matches Some(j) ==> matches_at(s, pat, j) && i <= j,
    decreases s.len() + 1 - i,
{
    if 0 <= i <= s.len() && !matches_at(s, pat, i) {
        lemma_first_match_in_range(s, pat, i + 1);
    }
}

/// The pieces joined with `sep` between neighbours.
pub open spec fn join_spec(p: Seq<Seq<char>>, sep: Seq<char>) -> Seq<char>
    decreases p.len(),
{
    if p.len() == 0 {
        Seq::empty()
    } else if p.len() == 1 {
        p[0]
    } else {
        join_spec(p.drop_last(), sep) + sep + p.last()
    }
}

proof fn lemma_join_prepend(a: Seq<char>, q: Seq<Seq<char>>, sep: Seq<char>)
    requires
        q.len() > 0,
    ensures
        join_spec(seq![a] + q, sep) == a + sep + join_spec(q, sep),
    decreases q.len(),
{
    let p = seq![a] + q;
    assert(p.last() == q.last());
    if q.len() == 1 {
        assert(p.drop_last() =~= seq![a]);
        assert(join_spec(seq![a], sep) == a);
        assert(join_spec(q, sep) == q[0]);
        assert(join_spec(p, sep) == join_spec(p.drop_last(), sep) + sep + p.last());
    } else {
        assert(p.drop_last() =~= seq![a] + q.drop_last());
        assert(join_spec(p, sep) == join_spec(p.drop_last(), sep) + sep + p.last());
        lemma_join_prepend(a, q.drop_last(), sep);
        assert(a + sep + join_spec(q.drop_last(), sep) + sep + q.last() =~= a + sep + (join_spec(
            q.drop_last(),
            sep,
        ) + sep + q.last()));
    }
}

proof fn lemma_join_glue(c: Seq<char>, q: Seq<Seq<char>>, sep: Seq<char>)
    requires
        q.len() > 0,
    ensures
        join_spec(q.update(0, c + q[0]), sep) == c + join_spec(q, sep),
    decreases q.len(),
{
    let u = q.update(0, c + q[0]);
    if q.len() > 1 {
        assert(u.drop_last() =~= q.drop_last().update(0, c + q.drop_last()[0]));
        lemma_join_glue(c, q.drop_last(), sep);
        assert(c + join_spec(q.drop_last(), sep) + sep + q.last() =~= c + (join_spec(q.drop_last(), sep)
            + sep + q.last()));
    }
}

/// Joining the pieces of a split with the same non-empty pattern gives back the
/// string.
pub proof fn law_join_split(s: Seq<char>, pat: Seq<char>)
    requires
        pat.len() > 0,
    ensures
        join_spec(split_spec(s, pat), pat) == s,
    decreases s.len(),
{
    if s.len() == 0 {
    } else if matches_at(s, pat, 0) {
        let rest = split_spec(s.skip(pat.len() as int), pat);
        lemma_split_nonempty(s.skip(pat.len() as int), pat);
        law_join_split(s.skip(pat.len() as int), pat);
        lemma_join_prepend(Seq::<char>::empty(), rest, pat);
        assert(s.subrange(0, pat.len() as int) == pat);
        assert(Seq::<char>::empty() + pat + s.skip(pat.len() as int) =~= s);
    } else {
        let rest = split_spec(s.skip(1), pat);
        lemma_split_nonempty(s.skip(1), pat);
        law_join_split(s.skip(1), pat);
        lemma_join_glue(seq![s[0]], rest, pat);
        assert(seq![s[0]] + s.skip(1) =~= s);
    }
}

/// The pieces that `str::split` yields for `pat`; for the empty pattern they are
/// the empty string, each character, and the empty string again.
pub open spec fn pieces_spec(s: Seq<char>, pat: Seq<char>) -> Seq<Seq<char>> {
    if pat.len() == 0 {
        seq![Seq::<char>::empty()] + s.map_values(|c: char| seq![c]) + seq![Seq::<char>::empty()]
    } else {
        split_spec(s, pat)
    }
}

/// `str::replace`: every occurrence of `pat` replaced by `to`.
pub open spec fn replace_spec(s: Seq<char>, pat: Seq<char>, to: Seq<char>) -> Seq<char> {
    join_spec(pieces_spec(s, pat), to)
}

/// Joins strings with a separator.
pub fn join(p: &Vec<String>, sep: &str) -> (r: String)
    ensures
        r@ == join_spec(views(p@), sep@),
{
    let mut r = String::new();
    let mut i: usize = 0;
    while i < p.len()
        invariant
            i <= p@.len(),
            r@ == join_spec(views(p@).take(i as int), sep@),
        decreases p.len() - i,
    {
        proof {
            assert(views(p@).take(i + 1).drop_last() =~= views(p@).take(i as int));
            assert(views(p@).take(i + 1).last() == p@[i as int]@);
        }
        if i > 0 {
            r.append(sep);
        } else {
            assert(views(p@).take(1) =~= seq![p@[0]@]);
        }
        r.append(p[i].as_str());
        i += 1;
    }
    assert(views(p@).take(p@.len() as int) =~= views(p@));
    r
}

/// `str::replace`.
pub fn replace(s: &str, pat: &str, to: &str) -> (r: String)
    ensures
        r@ == replace_spec(s@, pat@, to@),
{
    let sc = chars_of(s);
    let pc = chars_of(pat);
    if pc.len() == 0 {
        let mut p: Vec<String> = Vec::new();
        p.push(String::new());
        let mut i: usize = 0;
        while i < sc.len()
            invariant
                i <= sc@.len(),
                views(p@) == seq![Seq::<char>::empty()] + sc@.take(i as int).map_values(
                    |c: char| seq![c],
                ),
            decreases sc.len() - i,
        {
            let one = string_of(&sc, i, i + 1);
            proof {
                assert(one@ =~= seq![sc@[i as int]]);
                assert(views(p@.push(one)) =~= views(p@).push(one@));
                assert(sc@.take(i + 1).map_values(|c: char| seq![c]) =~= sc@.take(i as int).map_values(
                    |c: char| seq![c],
                ).push(seq![sc@[i as int]]));
            }
            p.push(one);
            i += 1;
        }
        let last = String::new();
        proof {
            assert(views(p@.push(last)) =~= views(p@).push(Seq::<char>::empty()));
            assert(sc@.take(sc@.len() as int) =~= sc@);
        }
        p.push(last);
        assert(views(p@) =~= pieces_spec(s@, pat@));
        join(&p, to)
    } else {
        let p = split_chars(&sc, &pc);
        join(&p, to)
    }
}


/// Whether the character is in one of the Unicode general categories Nd, Nl
/// and No, the property that `char::is_numeric` tests.
pub uninterp spec fn char_is_numeric(c: char) -> bool;

/// Whether `c` is numeric.
/// Trusted: `char::is_numeric`, which depends on the character alone; among ASCII
/// characters exactly the digits `0` to `9` are numeric.
#[verifier::external_body]
pub(crate) fn is_numeric(c: char) -> (r: bool)
    ensures
        r == char_is_numeric(c),
        (c as u32) < 128 ==> (r == (48 <= (c as u32) && (c as u32) <= 57)),
{
    c.is_numeric()
}

/// The number of bytes of `c` in UTF-8.
pub open spec fn utf8_width(c: char) -> int {
    let u = c as u32;
    if u < 0x80 {
        1
    } else if u < 0x800 {
        2
    } else if u < 0x10000 {
        3
    } else {
        4
    }
}

/// The number of bytes of `s` in UTF-8.
pub open spec fn utf8_len(s: Seq<char>) -> int
    decreases s.len(),
{
    if s.len() == 0 {
        0
    } else {
        utf8_len(s.drop_last()) + utf8_width(s.last())
    }
}

/// The first index at or after `i` that holds a numeric character.
pub open spec fn first_numeric_from(s: Seq<char>, i: int) -> Option<int>
    decreases s.len() - i,
{
    if i < 0 || i >= s.len() {
        None
    } else if char_is_numeric(s[i]) {
        Some(i)
    } else {
        first_numeric_from(s, i + 1)
    }
}

/// Each further character adds at least one byte.
pub proof fn lemma_utf8_len_grows(s: Seq<char>, i: int, j: int)
    requires
        0 <= i <= j <= s.len(),
    ensures
        utf8_len(s.take(i)) + (j - i) <= utf8_len(s.take(j)),
    decreases j - i,
{
    if i < j {
        lemma_utf8_len_grows(s, i, j - 1);
        assert(s.take(j).drop_last() =~= s.take(j - 1));
    }
}

/// The byte offset of the first numeric character of `s` (`str::find` with
/// `char::is_numeric`), if it has one.
pub open spec fn find_numeric_byte_spec(s: Seq<char>) -> Option<int> {
    match first_numeric_from(s, 0) {
        Some(i) => Some(utf8_len(s.take(i))),
        None => None,
    }
}

/// The byte offset of the first numeric character, but `None` also where that
/// offset exceeds `cap`.
pub fn find_numeric_byte_capped(s: &Vec<char>, cap: usize) -> (r: Option<usize>)
    ensures
        match r {
            Some(b) => find_numeric_byte_spec(s@) == Some(b as int) && b <= cap,
            None => match find_numeric_byte_spec(s@) {
                Some(b) => b > cap,
                None => true,
            },
        },
{
    let mut i: usize = 0;
    let mut bytes: usize = 0;
    while i < s.len()
        invariant
            i <= s@.len(),
            first_numeric_from(s@, 0) == first_numeric_from(s@, i as int),
            bytes == utf8_len(s@.take(i as int)),
            bytes <= cap,
        decreases s.len() - i,
    {
        let c = s[i];
        if is_numeric(c) {
            return Some(bytes);
        }
        let u = c as u32;
        let w: usize = if u < 0x80 {
            1
        } else if u < 0x800 {
            2
        } else if u < 0x10000 {
            3
        } else {
            4
        };
        proof {
            assert(s@.take(i + 1).drop_last() =~= s@.take(i as int));
        }
        if w > cap - bytes {
            proof {
                assert(bytes + w > cap);
                if let Some(k) = first_numeric_from(s@, i + 1) {
                    lemma_first_numeric_range(s@, i + 1);
                    lemma_utf8_len_grows(s@, i + 1, k);
                }
            }
            return None;
        }
        bytes = bytes + w;
        i += 1;
    }
    None
}

proof fn lemma_first_numeric_range(s: Seq<char>, i: int)
    ensures
        first_numeric_from(s, i) matches Some(k) ==> i <= k < s.len() && char_is_numeric(s[k]),
    decreases s.len() - i,
{
    if 0 <= i < s.len() && !char_is_numeric(s[i]) {
        lemma_first_numeric_range(s, i + 1);
    }
}


/// Whether two strings hold the same characters.
pub fn str_eq(a: &str, b: &str) -> (r: bool)
    ensures
        r == (a@ == b@),
{
    let x = chars_of(a);
    let y = chars_of(b);
    if x.len() != y.len() {
        return false;
    }
    let mut i: usize = 0;
    while i < x.len()
        invariant
            i <= x@.len(),
            x@.len() == y@.len(),
            x@ == a@,
            y@ == b@,
            forall|j: int| 0 <= j < i ==> x@[j] == y@[j],
        decreases x.len() - i,
    {
        if x[i] != y[i] {
            assert(a@[i as int] != b@[i as int]);
            return false;
        }
        i += 1;
    }
    assert(x@ =~= y@);
    true
}

} // verus!
