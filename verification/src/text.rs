//! Character-level text: searching, splitting, joining and escaping.
//!
//! Mount options travel as comma-separated text, layer lists as colon-separated
//! text. Everything here is stated over `Seq<char>`, the view of `str` and
//! `String`.

use vstd::prelude::*;
use vstd::std_specs::iter::IteratorSpec;

verus! {

/// Position of the first `c` in `s`, or `s.len()` when `s` holds none.
pub open spec fn find(s: Seq<char>, c: char) -> int
    decreases s.len(),
{
    if s.len() == 0 {
        0
    } else if s[0] == c {
        0
    } else {
        1 + find(s.drop_first(), c)
    }
}

/// The pieces of `s` between occurrences of `c`: one more piece than there are
/// occurrences, empty pieces included.
pub open spec fn split(s: Seq<char>, c: char) -> Seq<Seq<char>>
    decreases s.len(),
{
    let i = find(s, c);
    if 0 <= i < s.len() {
        seq![s.subrange(0, i)] + split(s.subrange(i + 1, s.len() as int), c)
    } else {
        seq![s]
    }
}

/// The pieces of `parts` with `sep` between each two neighbours.
pub open spec fn join(parts: Seq<Seq<char>>, sep: Seq<char>) -> Seq<char>
    decreases parts.len(),
{
    if parts.len() == 0 {
        Seq::empty()
    } else if parts.len() == 1 {
        parts[0]
    } else {
        join(parts.drop_last(), sep) + sep + parts.last()
    }
}

/// Whether `c` has a meaning of its own inside a layer list and must be
/// escaped there: the escape character, the layer separator and the option
/// separator.
pub open spec fn is_special(c: char) -> bool {
    c == '\\' || c == ':' || c == ','
}

/// `s` with a backslash in front of every special character.
pub open spec fn escape(s: Seq<char>) -> Seq<char>
    decreases s.len(),
{
    if s.len() == 0 {
        Seq::empty()
    } else if is_special(s.last()) {
        escape(s.drop_last()).push('\\').push(s.last())
    } else {
        escape(s.drop_last()).push(s.last())
    }
}

/// Whether `needle` occurs in `hay` as a contiguous run.
pub open spec fn contains(hay: Seq<char>, needle: Seq<char>) -> bool {
    exists|i: int|
        0 <= i && i + needle.len() <= hay.len() && #[trigger] hay.subrange(
            i,
            i + needle.len(),
        ) == needle
}

/// Whether `s` holds no `c`.
pub open spec fn free_of(s: Seq<char>, c: char) -> bool {
    forall|j: int| 0 <= j < s.len() ==> s[j] != c
}

/// Whether `s` begins with `p`.
pub open spec fn has_prefix(s: Seq<char>, p: Seq<char>) -> bool {
    p.len() <= s.len() && s.subrange(0, p.len() as int) == p
}

/// What follows the key `key` at the beginning of `s`.
pub open spec fn after(s: Seq<char>, key: Seq<char>) -> Seq<char> {
    s.skip(key.len() as int)
}

/// A text that begins with `p` and goes on with `rest` has the prefix `p`,
/// and `rest` is what follows it.
pub proof fn lemma_prefix_concat(p: Seq<char>, rest: Seq<char>)
    ensures
        has_prefix(p + rest, p),
        (p + rest).skip(p.len() as int) == rest,
{
    assert((p + rest).subrange(0, p.len() as int) =~= p);
    assert((p + rest).skip(p.len() as int) =~= rest);
}

/// A text that differs from `p` at some position of `p`, or ends before it,
/// does not begin with `p`.
pub proof fn lemma_prefix_differs(s: Seq<char>, p: Seq<char>, i: int)
    requires
        0 <= i < p.len(),
        i < s.len() ==> s[i] != p[i],
    ensures
        !has_prefix(s, p),
{
    if p.len() <= s.len() {
        assert(s.subrange(0, p.len() as int)[i] == s[i]);
    }
}

/// `find` stays within `s`, passes over no `c`, and stops on one unless it
/// reaches the end.
pub proof fn lemma_find(s: Seq<char>, c: char)
    ensures
        0 <= find(s, c) <= s.len(),
        forall|j: int| 0 <= j < find(s, c) ==> s[j] != c,
        find(s, c) < s.len() ==> s[find(s, c)] == c,
    decreases s.len(),
{
    if s.len() > 0 && s[0] != c {
        let rest = s.drop_first();
        lemma_find(rest, c);
        assert forall|j: int| 0 <= j < find(s, c) implies s[j] != c by {
            if j > 0 {
                assert(s[j] == rest[j - 1]);
            }
        }
    }
}

/// Any position that passes over no `c` and stops on one, or at the end, is
/// the one that `find` gives.
pub proof fn lemma_find_unique(s: Seq<char>, c: char, i: int)
    requires
        0 <= i <= s.len(),
        forall|j: int| 0 <= j < i ==> s[j] != c,
        i < s.len() ==> s[i] == c,
    ensures
        find(s, c) == i,
{
    lemma_find(s, c);
    let f = find(s, c);
    if f < i {
        assert(s[f] == c);
    } else if i < f {
        assert(s[i] == c);
    }
}

/// A text without `c` splits into itself alone.
pub proof fn lemma_split_none(s: Seq<char>, c: char)
    requires
        forall|j: int| 0 <= j < s.len() ==> s[j] != c,
    ensures
        split(s, c) == seq![s],
{
    lemma_find_unique(s, c, s.len() as int);
}

/// Splitting what was joined gives the pieces back, when no piece holds the
/// separator.
pub proof fn lemma_split_join(parts: Seq<Seq<char>>, c: char)
    requires
        parts.len() > 0,
        forall|k: int| 0 <= k < parts.len() ==> free_of(#[trigger] parts[k], c),
    ensures
        split(join(parts, seq![c]), c) == parts,
    decreases parts.len(),
{
    if parts.len() == 1 {
        assert(free_of(parts[0], c));
        lemma_split_none(parts[0], c);
        assert(parts =~= seq![parts[0]]);
    } else {
        let head = parts.drop_last();
        let last = parts.last();
        assert forall|k: int| 0 <= k < head.len() implies free_of(#[trigger] head[k], c) by {
            assert(head[k] == parts[k]);
        }
        assert(free_of(parts[parts.len() - 1], c));
        lemma_split_join(head, c);
        lemma_split_append(join(head, seq![c]), last, c);
        assert(join(head, seq![c]) + seq![c] + last =~= join(head, seq![c]) + (seq![c] + last));
        assert(parts =~= head.push(last));
    }
}

/// Appending a separator and a piece without separators adds that piece to
/// the split.
pub proof fn lemma_split_append(s: Seq<char>, last: Seq<char>, c: char)
    requires
        forall|j: int| 0 <= j < last.len() ==> last[j] != c,
    ensures
        split(s + (seq![c] + last), c) == split(s, c).push(last),
    decreases s.len(),
{
    let whole = s + (seq![c] + last);
    let i = find(s, c);
    lemma_find(s, c);
    if i < s.len() {
        assert forall|j: int| 0 <= j < i implies whole[j] != c by {
            assert(whole[j] == s[j]);
        }
        assert(whole[i] == s[i]);
        lemma_find_unique(whole, c, i);
        let rest = s.subrange(i + 1, s.len() as int);
        lemma_split_append(rest, last, c);
        assert(whole.subrange(i + 1, whole.len() as int) =~= rest + (seq![c] + last));
        assert(whole.subrange(0, i) =~= s.subrange(0, i));
        assert(seq![s.subrange(0, i)] + split(rest, c).push(last) =~= (seq![s.subrange(0, i)]
            + split(rest, c)).push(last));
    } else {
        assert forall|j: int| 0 <= j < s.len() implies whole[j] != c by {
            assert(whole[j] == s[j]);
        }
        assert(whole[s.len() as int] == c);
        lemma_find_unique(whole, c, s.len() as int);
        assert(whole.subrange(0, s.len() as int) =~= s);
        assert(whole.subrange(s.len() as int + 1, whole.len() as int) =~= last);
        lemma_split_none(last, c);
        assert(seq![s] + seq![last] =~= seq![s].push(last));
    }
}

/// A text without `c`, followed by nothing or by a `c` and more, splits into
/// itself and then the pieces of what follows the `c`.
pub proof fn lemma_split_first(a: Seq<char>, rest: Seq<char>, c: char)
    requires
        free_of(a, c),
        rest.len() == 0 || rest[0] == c,
    ensures
        split(a + rest, c) == seq![a] + split(rest, c).skip(1),
{
    let whole = a + rest;
    if rest.len() == 0 {
        assert(whole =~= a);
        lemma_split_none(a, c);
        assert(split(rest, c) =~= seq![rest]);
        assert(seq![a] + split(rest, c).skip(1) =~= seq![a]);
    } else {
        assert forall|j: int| 0 <= j < a.len() implies whole[j] != c by {
            assert(whole[j] == a[j]);
        }
        assert(whole[a.len() as int] == rest[0]);
        lemma_find_unique(whole, c, a.len() as int);
        lemma_find_unique(rest, c, 0);
        assert(whole.subrange(0, a.len() as int) =~= a);
        assert(whole.subrange(a.len() as int + 1, whole.len() as int) =~= rest.subrange(
            1,
            rest.len() as int,
        ));
        let more = split(rest.subrange(1, rest.len() as int), c);
        assert(split(rest, c) == seq![rest.subrange(0, 0)] + more);
        assert(split(rest, c).skip(1) =~= more);
    }
}

/// Whether `s` holds no special character, so that escaping leaves it as it
/// is.
pub open spec fn plain(s: Seq<char>) -> bool {
    forall|j: int| 0 <= j < s.len() ==> !is_special(#[trigger] s[j])
}

/// Whether every text of `parts` holds no special character.
pub open spec fn all_plain(parts: Seq<Seq<char>>) -> bool {
    forall|k: int| 0 <= k < parts.len() ==> plain(#[trigger] parts[k])
}

/// Escaping a text without special characters leaves it as it is.
pub proof fn lemma_escape_plain(s: Seq<char>)
    requires
        plain(s),
    ensures
        escape(s) == s,
    decreases s.len(),
{
    if s.len() > 0 {
        let head = s.drop_last();
        assert forall|j: int| 0 <= j < head.len() implies !is_special(#[trigger] head[j]) by {
            assert(head[j] == s[j]);
        }
        lemma_escape_plain(head);
        assert(!is_special(s[s.len() - 1]));
        assert(head.push(s.last()) =~= s);
    } else {
        assert(s =~= Seq::<char>::empty());
    }
}

/// Joining one more piece adds the separator and the piece.
pub proof fn lemma_join_push(parts: Seq<Seq<char>>, sep: Seq<char>, piece: Seq<char>)
    requires
        parts.len() > 0,
    ensures
        join(parts.push(piece), sep) == join(parts, sep) + sep + piece,
{
    assert(parts.push(piece).drop_last() =~= parts);
}

/// What is joined from pieces without `c`, by a separator other than `c`,
/// holds no `c`.
pub proof fn lemma_join_free_of(parts: Seq<Seq<char>>, sep: char, c: char)
    requires
        sep != c,
        forall|k: int| 0 <= k < parts.len() ==> free_of(#[trigger] parts[k], c),
    ensures
        free_of(join(parts, seq![sep]), c),
    decreases parts.len(),
{
    if parts.len() == 1 {
        assert(free_of(parts[0], c));
    } else if parts.len() > 1 {
        let head = parts.drop_last();
        assert forall|k: int| 0 <= k < head.len() implies free_of(#[trigger] head[k], c) by {
            assert(head[k] == parts[k]);
        }
        lemma_join_free_of(head, sep, c);
        let joined = join(head, seq![sep]);
        let last = parts.last();
        assert(free_of(parts[parts.len() - 1], c));
        let whole = joined + seq![sep] + last;
        assert forall|j: int| 0 <= j < whole.len() implies whole[j] != c by {
            if j < joined.len() {
                assert(whole[j] == joined[j]);
            } else if j == joined.len() {
                assert(whole[j] == sep);
            } else {
                assert(whole[j] == last[j - joined.len() - 1]);
            }
        }
    }
}

/// The characters of `s`, in order.
pub fn chars_of(s: &str) -> (v: Vec<char>)
    ensures
        v@ == s@,
{
    broadcast use vstd::string::group_string_axioms;

    let mut it = s.chars();
    let mut v: Vec<char> = Vec::new();
    loop
        invariant
            it.obeys_prophetic_iter_laws(),
            it.decrease() is Some,
            v@ + it.remaining() == s@,
        decreases it.decrease()->0,
    {
        match it.next() {
            Some(c) => {
                v.push(c);
                assert(v@ + it.remaining() =~= s@);
            },
            None => {
                assert(v@ =~= s@);
                return v;
            },
        }
    }
}

/// Whether `lit` stands in `t` at position `from`.
pub(crate) fn matches_at(t: &Vec<char>, from: usize, lit: &str) -> (b: bool)
    requires
        from <= t.len(),
    ensures
        b == (from + lit@.len() <= t@.len() && t@.subrange(from as int, from + lit@.len())
            == lit@),
{
    broadcast use vstd::string::group_string_axioms;

    let mut it = lit.chars();
    let mut i: usize = from;
    loop
        invariant
            it.obeys_prophetic_iter_laws(),
            it.decrease() is Some,
            from <= i <= t.len(),
            t@.subrange(from as int, i as int) + it.remaining() == lit@,
        decreases it.decrease()->0,
    {
        let ghost head = t@.subrange(from as int, i as int);
        let ghost tail = it.remaining();
        match it.next() {
            Some(c) => {
                assert(lit@[i - from] == c) by {
                    assert((head + tail)[i - from] == tail[0]);
                }
                if i >= t.len() {
                    return false;
                }
                if t[i] != c {
                    proof {
                        if from + lit@.len() <= t@.len() {
                            let there = t@.subrange(from as int, from + lit@.len());
                            assert(there[i - from] == t@[i as int]);
                        }
                    }
                    return false;
                }
                i = i + 1;
                assert(t@.subrange(from as int, i as int) + it.remaining() =~= lit@);
            },
            None => {
                assert(head =~= lit@);
                return true;
            },
        }
    }
}

/// The length of `lit` where `t` begins with it.
pub fn strip_prefix(t: &Vec<char>, lit: &str) -> (r: Option<usize>)
    ensures
        match r {
            Some(n) => has_prefix(t@, lit@) && n == lit@.len(),
            None => !has_prefix(t@, lit@),
        },
{
    if matches_at(t, 0, lit) {
        Some(lit.unicode_len())
    } else {
        None
    }
}

/// Whether `t` is exactly `lit`.
pub fn is_text(t: &Vec<char>, lit: &str) -> (b: bool)
    ensures
        b == (t@ == lit@),
{
    let hit = matches_at(t, 0, lit);
    let n = lit.unicode_len();
    proof {
        if hit && n == t.len() {
            assert(t@.subrange(0, n as int) =~= t@);
        }
        if t@ == lit@ {
            assert(t@.subrange(0, n as int) =~= t@);
        }
    }
    hit && n == t.len()
}

/// Whether both hold the same characters.
pub fn same_chars(a: &Vec<char>, b: &Vec<char>) -> (r: bool)
    ensures
        r == (a@ == b@),
{
    if a.len() != b.len() {
        return false;
    }
    let n = a.len();
    let mut i: usize = 0;
    while i < n
        invariant
            n == a.len(),
            n == b.len(),
            i <= n,
            forall|j: int| 0 <= j < i ==> a@[j] == b@[j],
        decreases n - i,
    {
        if a[i] != b[i] {
            return false;
        }
        i = i + 1;
    }
    proof {
        assert(a@ =~= b@);
    }
    true
}

/// Position of the first `c` in `t` at or after `from`, or the length of `t`.
pub(crate) fn find_from(t: &Vec<char>, from: usize, c: char) -> (i: usize)
    requires
        from <= t.len(),
    ensures
        from <= i <= t.len(),
        i == from + find(t@.subrange(from as int, t@.len() as int), c),
{
    let mut i: usize = from;
    while i < t.len() && t[i] != c
        invariant
            from <= i <= t.len(),
            forall|j: int| from <= j < i ==> t@[j] != c,
        decreases t.len() - i,
    {
        i = i + 1;
    }
    proof {
        let rest = t@.subrange(from as int, t@.len() as int);
        assert forall|j: int| 0 <= j < i - from implies rest[j] != c by {
            assert(rest[j] == t@[from + j]);
        }
        lemma_find_unique(rest, c, i - from);
    }
    i
}

/// The pieces of `s` between occurrences of `c`.
pub fn split_text(s: &str, c: char) -> (parts: Vec<String>)
    ensures
        parts.deep_view() == split(s@, c),
{
    let t = chars_of(s);
    let mut parts: Vec<String> = Vec::new();
    let mut start: usize = 0;
    proof {
        assert(t@.subrange(0, t@.len() as int) =~= s@);
        assert(parts.deep_view() + split(s@, c) =~= split(s@, c));
    }
    loop
        invariant
            t@ == s@,
            start <= t.len(),
            parts.deep_view() + split(t@.subrange(start as int, t@.len() as int), c) == split(
                s@,
                c,
            ),
        decreases t.len() - start,
    {
        let ghost rest = t@.subrange(start as int, t@.len() as int);
        let ghost done = parts.deep_view();
        let end = find_from(&t, start, c);
        let piece = s.substring_char(start, end).to_owned();
        parts.push(piece);
        proof {
            assert(piece@ =~= rest.subrange(0, end - start));
            assert(parts.deep_view() =~= done.push(piece@));
        }
        if end >= t.len() {
            proof {
                assert(rest.subrange(0, end - start) =~= rest);
                assert(done.push(piece@) =~= done + seq![rest]);
            }
            return parts;
        }
        proof {
            assert(rest.subrange(end - start + 1, rest.len() as int) =~= t@.subrange(
                end + 1,
                t@.len() as int,
            ));
            assert(done.push(piece@) + split(t@.subrange(end + 1, t@.len() as int), c) =~= done
                + split(rest, c));
        }
        start = end + 1;
    }
}

/// Appends to `out` the text `s` with a backslash in front of every special
/// character.
pub fn push_escaped(out: &mut String, s: &str)
    ensures
        final(out)@ == old(out)@ + escape(s@),
{
    let t = chars_of(s);
    let mut start: usize = 0;
    let mut i: usize = 0;
    proof {
        assert(out@ + t@.subrange(0, 0) =~= old(out)@ + escape(t@.subrange(0, 0)));
    }
    while i < t.len()
        invariant
            t@ == s@,
            start <= i <= t.len(),
            out@ + t@.subrange(start as int, i as int) == old(out)@ + escape(
                t@.subrange(0, i as int),
            ),
        decreases t.len() - i,
    {
        let c = t[i];
        let ghost upto = t@.subrange(0, i as int);
        let ghost next = t@.subrange(0, i + 1);
        let ghost pending = t@.subrange(start as int, i as int);
        proof {
            assert(next.drop_last() =~= upto);
            assert(next.last() == c);
        }
        if c == '\\' || c == ':' || c == ',' {
            out.append(s.substring_char(start, i));
            out.append("\\");
            proof {
                reveal_strlit("\\");
                assert("\\"@ =~= seq!['\\']);
                assert(t@.subrange(i as int, i + 1) =~= seq![c]);
                assert(out@ + seq![c] =~= (old(out)@ + escape(upto)).push('\\').push(c));
                assert(out@ + seq![c] =~= old(out)@ + escape(next));
            }
            start = i;
        } else {
            proof {
                assert(t@.subrange(start as int, i + 1) =~= pending.push(c));
                assert(out@ + pending.push(c) =~= (old(out)@ + escape(upto)).push(c));
                assert(out@ + pending.push(c) =~= old(out)@ + escape(next));
            }
        }
        i = i + 1;
    }
    proof {
        assert(t@.subrange(0, i as int) =~= s@);
    }
    out.append(s.substring_char(start, i));
}

/// Whether `needle` occurs in `hay`.
pub fn contains_text(hay: &str, needle: &str) -> (b: bool)
    ensures
        b == contains(hay@, needle@),
{
    let t = chars_of(hay);
    let ghost n = needle@.len() as int;
    let mut i: usize = 0;
    while i < t.len()
        invariant
            t@ == hay@,
            n == needle@.len(),
            i <= t.len(),
            forall|j: int|
                0 <= j < i && j + n <= t@.len() ==> #[trigger] t@.subrange(j, j + n) != needle@,
        decreases t.len() - i,
    {
        if matches_at(&t, i, needle) {
            return true;
        }
        i = i + 1;
    }
    matches_at(&t, i, needle)
}

} // verus!
