//! Character-level text operations shared by the link parsers.
//!
//! Texts are handled as `Vec<char>` while they are taken apart, and each
//! operation is stated over `Seq<char>` the way `str`'s own methods behave.
use vstd::prelude::*;

verus! {

broadcast use vstd::string::group_string_axioms;

/// The pieces of `s` between occurrences of `sep`, as `str::split` with a
/// `char` pattern yields them (always at least one piece).
pub open spec fn split_by(s: Seq<char>, sep: char) -> Seq<Seq<char>>
    decreases s.len(),
{
    if s.len() == 0 {
        seq![Seq::<char>::empty()]
    } else {
        let p = split_by(s.drop_last(), sep);
        if s.last() == sep {
            p.push(Seq::<char>::empty())
        } else {
            p.update(p.len() - 1, p.last().push(s.last()))
        }
    }
}

/// The pieces of `s` as `str::splitn(n, sep)` yields them for `n >= 1`:
/// at most `n` pieces, the last one holding the rest of the text.
pub open spec fn split_n(s: Seq<char>, n: nat, sep: char) -> Seq<Seq<char>>
    decreases s.len(),
{
    if s.len() == 0 {
        seq![Seq::<char>::empty()]
    } else {
        let p = split_n(s.drop_last(), n, sep);
        if s.last() == sep && p.len() < n {
            p.push(Seq::<char>::empty())
        } else {
            p.update(p.len() - 1, p.last().push(s.last()))
        }
    }
}

pub proof fn lemma_split_by_len(s: Seq<char>, sep: char)
    ensures
        split_by(s, sep).len() >= 1,
    decreases s.len(),
{
    if s.len() > 0 {
        lemma_split_by_len(s.drop_last(), sep);
    }
}

pub proof fn lemma_split_n_len(s: Seq<char>, n: nat, sep: char)
    requires
        n >= 1,
    ensures
        1 <= split_n(s, n, sep).len() <= n,
    decreases s.len(),
{
    if s.len() > 0 {
        lemma_split_n_len(s.drop_last(), n, sep);
    }
}

/// No piece of a split holds the separator.
pub proof fn lemma_split_by_pieces_lack_sep(s: Seq<char>, sep: char)
    ensures
        forall|i: int|
            0 <= i < split_by(s, sep).len() ==> !(#[trigger] split_by(s, sep)[i]).contains(sep),
    decreases s.len(),
{
    if s.len() > 0 {
        let p = split_by(s.drop_last(), sep);
        lemma_split_by_pieces_lack_sep(s.drop_last(), sep);
        lemma_split_by_len(s.drop_last(), sep);
        if s.last() == sep {
            assert forall|i: int| 0 <= i < split_by(s, sep).len() implies !(#[trigger] split_by(
                s,
                sep,
            )[i]).contains(sep) by {
                if i < p.len() {
                    assert(split_by(s, sep)[i] == p[i]);
                } else {
                    assert(split_by(s, sep)[i] =~= Seq::<char>::empty());
                }
            }
        } else {
            assert forall|i: int| 0 <= i < split_by(s, sep).len() implies !(#[trigger] split_by(
                s,
                sep,
            )[i]).contains(sep) by {
                if i < p.len() - 1 {
                    assert(split_by(s, sep)[i] == p[i]);
                } else {
                    let q = p.last().push(s.last());
                    assert(split_by(s, sep)[i] == q);
                    assert(!p[p.len() - 1].contains(sep));
                    if q.contains(sep) {
                        let k = choose|k: int| 0 <= k < q.len() && q[k] == sep;
                        if k < p.last().len() {
                            assert(p.last()[k] == sep);
                        }
                    }
                }
            }
        }
    }
}

/// A text without `sep` splits into itself alone.
pub proof fn lemma_split_by_no_sep(s: Seq<char>, sep: char)
    requires
        !s.contains(sep),
    ensures
        split_by(s, sep) == seq![s],
    decreases s.len(),
{
    if s.len() > 0 {
        let r = s.drop_last();
        assert(!r.contains(sep)) by {
            if r.contains(sep) {
                let k = choose|k: int| 0 <= k < r.len() && r[k] == sep;
                assert(s[k] == sep);
            }
        }
        lemma_split_by_no_sep(r, sep);
        assert(s.last() != sep) by {
            assert(s[s.len() - 1] == s.last());
        }
        assert(r.push(s.last()) =~= s);
        assert(split_by(s, sep) =~= seq![s]);
    } else {
        assert(s =~= Seq::<char>::empty());
    }
}

/// Splitting `a`, a separator, then `b` gives the pieces of `a` followed by
/// those of `b`.
pub proof fn lemma_split_by_concat(a: Seq<char>, b: Seq<char>, sep: char)
    ensures
        split_by(a + seq![sep] + b, sep) == split_by(a, sep) + split_by(b, sep),
    decreases b.len(),
{
    let s = a + seq![sep] + b;
    if b.len() == 0 {
        assert(s.drop_last() =~= a);
        assert(split_by(b, sep) =~= seq![Seq::<char>::empty()]);
        assert(split_by(a, sep).push(Seq::<char>::empty()) =~= split_by(a, sep) + split_by(b, sep));
    } else {
        let bl = b.drop_last();
        assert(s.drop_last() =~= a + seq![sep] + bl);
        assert(s.last() == b.last());
        lemma_split_by_concat(a, bl, sep);
        lemma_split_by_len(bl, sep);
        lemma_split_by_len(a, sep);
        let p = split_by(a, sep);
        let q = split_by(bl, sep);
        if b.last() == sep {
            assert((p + q).push(Seq::<char>::empty()) =~= p + q.push(Seq::<char>::empty()));
        } else {
            assert((p + q).update((p + q).len() - 1, (p + q).last().push(b.last())) =~= p + q.update(
                q.len() - 1,
                q.last().push(b.last()),
            ));
        }
    }
}

/// Removing the leading `c`s of `s` keeps its last `c`-piece and removes
/// only empty pieces; a text that does not end with `c` keeps its last
/// character.
pub proof fn lemma_trim_start_keeps_last_piece(s: Seq<char>, c: char)
    ensures
        split_by(s, c).len() >= split_by(trim_start_char(s, c), c).len(),
        after_last(s, c) == after_last(trim_start_char(s, c), c),
        s.len() > 0 && s.last() != c ==> trim_start_char(s, c).len() > 0 && trim_start_char(s, c).last()
            == s.last(),
    decreases s.len(),
{
    if s.len() > 0 && s[0] == c {
        let r = s.drop_first();
        assert(s =~= Seq::<char>::empty() + seq![c] + r);
        lemma_split_by_concat(Seq::<char>::empty(), r, c);
        lemma_split_by_len(r, c);
        lemma_trim_start_keeps_last_piece(r, c);
        if s.last() != c {
            assert(r.len() > 0 && r.last() == s.last()) by {
                if r.len() == 0 {
                    assert(s.len() == 1);
                    assert(s.last() == s[0]);
                }
            }
        }
    }
}

/// A text without `sep` splits into itself alone, however many pieces are
/// allowed.
pub proof fn lemma_split_n_no_sep(s: Seq<char>, n: nat, sep: char)
    requires
        !s.contains(sep),
    ensures
        split_n(s, n, sep) == seq![s],
    decreases s.len(),
{
    if s.len() > 0 {
        let r = s.drop_last();
        assert(!r.contains(sep)) by {
            if r.contains(sep) {
                let k = choose|k: int| 0 <= k < r.len() && r[k] == sep;
                assert(s[k] == sep);
            }
        }
        lemma_split_n_no_sep(r, n, sep);
        assert(s.last() != sep) by {
            assert(s[s.len() - 1] == s.last());
        }
        assert(r.push(s.last()) =~= s);
        assert(split_n(s, n, sep) =~= seq![s]);
    } else {
        assert(s =~= Seq::<char>::empty());
    }
}

/// With at most one piece allowed, a text is that one piece.
pub proof fn lemma_split_n_one(s: Seq<char>, sep: char)
    ensures
        split_n(s, 1, sep) == seq![s],
    decreases s.len(),
{
    if s.len() > 0 {
        let r = s.drop_last();
        lemma_split_n_one(r, sep);
        assert(r.push(s.last()) =~= s);
        assert(split_n(s, 1, sep) =~= seq![s]);
    } else {
        assert(s =~= Seq::<char>::empty());
    }
}

/// A first piece without `sep`, then `sep`, then `b`: the first piece, then
/// the pieces of `b` with one piece fewer allowed.
pub proof fn lemma_split_n_first_piece(a: Seq<char>, b: Seq<char>, n: nat, sep: char)
    requires
        !a.contains(sep),
        n >= 2,
    ensures
        split_n(a + seq![sep] + b, n, sep) == seq![a] + split_n(b, (n - 1) as nat, sep),
    decreases b.len(),
{
    let s = a + seq![sep] + b;
    lemma_split_n_no_sep(a, n, sep);
    if b.len() == 0 {
        assert(s.drop_last() =~= a);
        assert(split_n(b, (n - 1) as nat, sep) =~= seq![Seq::<char>::empty()]);
        assert(seq![a].push(Seq::<char>::empty()) =~= seq![a] + split_n(b, (n - 1) as nat, sep));
    } else {
        let bl = b.drop_last();
        assert(s.drop_last() =~= a + seq![sep] + bl);
        assert(s.last() == b.last());
        lemma_split_n_first_piece(a, bl, n, sep);
        lemma_split_n_len(bl, (n - 1) as nat, sep);
        let q = split_n(bl, (n - 1) as nat, sep);
        let p = seq![a] + q;
        if b.last() == sep && p.len() < n {
            assert(p.push(Seq::<char>::empty()) =~= seq![a] + q.push(Seq::<char>::empty()));
        } else {
            assert(p.update(p.len() - 1, p.last().push(b.last())) =~= seq![a] + q.update(
                q.len() - 1,
                q.last().push(b.last()),
            ));
        }
    }
}

/// A separator, then a text that neither starts nor ends with it, trims to
/// that text.
pub proof fn lemma_trim_leading_sep(body: Seq<char>, c: char)
    requires
        body.len() > 0,
        body[0] != c,
        body.last() != c,
    ensures
        trim_char(seq![c] + body, c) == body,
{
    let s = seq![c] + body;
    assert(s.drop_first() =~= body);
    assert(trim_start_char(body, c) == body);
    assert(trim_start_char(s, c) == body);
}

/// The text before the first `sep` (all of `s` when there is none).
pub open spec fn before_first(s: Seq<char>, sep: char) -> Seq<char> {
    split_by(s, sep)[0]
}

/// The text after the last `sep` (all of `s` when there is none).
pub open spec fn after_last(s: Seq<char>, sep: char) -> Seq<char> {
    split_by(s, sep).last()
}

/// `s` with every leading `c` removed.
pub open spec fn trim_start_char(s: Seq<char>, c: char) -> Seq<char>
    decreases s.len(),
{
    if s.len() > 0 && s[0] == c {
        trim_start_char(s.drop_first(), c)
    } else {
        s
    }
}

/// `s` with every trailing `c` removed.
pub open spec fn trim_end_char(s: Seq<char>, c: char) -> Seq<char>
    decreases s.len(),
{
    if s.len() > 0 && s.last() == c {
        trim_end_char(s.drop_last(), c)
    } else {
        s
    }
}

/// `s` with all leading and trailing `c` removed, as `str::trim_matches`.
pub open spec fn trim_char(s: Seq<char>, c: char) -> Seq<char> {
    trim_end_char(trim_start_char(s, c), c)
}

/// `s` with every occurrence of the non-empty `pat` removed, scanning from
/// the left without overlaps, as `str::replace(pat, "")`.
pub open spec fn remove_all(s: Seq<char>, pat: Seq<char>) -> Seq<char>
    recommends
        pat.len() > 0,
    decreases s.len(),
{
    if pat.len() == 0 || s.len() < pat.len() {
        s
    } else if s.take(pat.len() as int) == pat {
        remove_all(s.skip(pat.len() as int), pat)
    } else {
        seq![s[0]] + remove_all(s.drop_first(), pat)
    }
}

/// The number of bytes `c` takes in UTF-8, as `char::len_utf8`.
pub open spec fn char_utf8_len(c: char) -> nat {
    if (c as u32) < 0x80 {
        1
    } else if (c as u32) < 0x800 {
        2
    } else if (c as u32) < 0x10000 {
        3
    } else {
        4
    }
}

/// The number of bytes of `s` in UTF-8, which is what `str::len` counts.
pub open spec fn utf8_len(s: Seq<char>) -> nat
    decreases s.len(),
{
    if s.len() == 0 {
        0
    } else {
        utf8_len(s.drop_last()) + char_utf8_len(s.last())
    }
}

/// A text takes at least one byte per character in UTF-8.
pub proof fn lemma_utf8_len_at_least_len(s: Seq<char>)
    ensures
        utf8_len(s) >= s.len(),
    decreases s.len(),
{
    if s.len() > 0 {
        lemma_utf8_len_at_least_len(s.drop_last());
    }
}

/// ASCII digits hold no `/`.
pub proof fn lemma_ascii_digits_lack_slash(s: Seq<char>)
    requires
        all_ascii_digits(s),
    ensures
        !s.contains('/'),
{
    if s.contains('/') {
        let k = choose|k: int| 0 <= k < s.len() && s[k] == '/';
        assert(is_ascii_digit(s[k]));
    }
}

/// ASCII letters and digits hold no `/`.
pub proof fn lemma_ascii_alphanumeric_lack_slash(s: Seq<char>)
    requires
        all_ascii_alphanumeric(s),
    ensures
        !s.contains('/'),
{
    if s.contains('/') {
        let k = choose|k: int| 0 <= k < s.len() && s[k] == '/';
        assert(is_ascii_alphanumeric(s[k]));
    }
}

/// The texts held by `v`, in order.
pub open spec fn views(v: Seq<Vec<char>>) -> Seq<Seq<char>> {
    Seq::new(v.len(), |i: int| v[i]@)
}

/// The characters of `s`, in order.
pub fn chars_of(s: &str) -> (res: Vec<char>)
    ensures
        res@ == s@,
{
    let mut res: Vec<char> = Vec::new();
    for c in it: s.chars()
        invariant
            res@ == it.seq().take(it.index() as int),
            it.seq() == s@,
    {
        res.push(c);
    }
    res
}

/// Appends `c` to `s`; `String::push` does this.
#[verifier::external_body]
fn push_char(s: &mut String, c: char)
    ensures
        final(s)@ == old(s)@.push(c),
{
    s.push(c);
}

/// The text made of the characters `v`.
pub fn string_of(v: &[char]) -> (res: String)
    ensures
        res@ == v@,
{
    let mut res = String::new();
    let n = v.len();
    for i in 0..n
        invariant
            n == v@.len(),
            res@ == v@.take(i as int),
    {
        push_char(&mut res, v[i]);
        assert(v@.take(i + 1) == v@.take(i as int).push(v@[i as int]));
    }
    assert(v@.take(n as int) == v@);
    res
}

/// Whether `v` holds exactly the characters of `s`.
pub fn chars_eq_str(v: &[char], s: &str) -> (res: bool)
    ensures
        res == (v@ == s@),
{
    let w = chars_of(s);
    if v.len() != w.len() {
        return false;
    }
    let n = v.len();
    for i in 0..n
        invariant
            n == v@.len(),
            n == w@.len(),
            w@ == s@,
            forall|j: int| 0 <= j < i ==> v@[j] == w@[j],
    {
        if v[i] != w[i] {
            return false;
        }
    }
    assert(v@ =~= w@);
    true
}

/// The pieces of `s` between occurrences of `sep`.
pub fn split_chars(s: &[char], sep: char) -> (res: Vec<Vec<char>>)
    ensures
        views(res@) == split_by(s@, sep),
{
    let mut pieces: Vec<Vec<char>> = Vec::new();
    let mut cur: Vec<char> = Vec::new();
    let n = s.len();
    for i in 0..n
        invariant
            n == s@.len(),
            views(pieces@).push(cur@) == split_by(s@.take(i as int), sep),
    {
        let c = s[i];
        let ghost p = split_by(s@.take(i as int), sep);
        proof {
            assert(s@.take(i + 1).drop_last() == s@.take(i as int));
            assert(s@.take(i + 1).last() == c);
        }
        if c == sep {
            let ghost before = views(pieces@);
            pieces.push(cur);
            cur = Vec::new();
            assert(views(pieces@).push(cur@) =~= before.push(p.last()).push(Seq::<char>::empty()));
            assert(before.push(p.last()) =~= p);
        } else {
            let ghost before = views(pieces@);
            cur.push(c);
            assert(views(pieces@).push(cur@) =~= p.update(p.len() - 1, p.last().push(c)));
        }
    }
    assert(s@.take(n as int) == s@);
    let ghost before = views(pieces@);
    pieces.push(cur);
    assert(views(pieces@) =~= before.push(cur@));
    pieces
}

/// The pieces of `s` as `str::splitn(n, sep)` yields them.
pub fn splitn_chars(s: &[char], n: usize, sep: char) -> (res: Vec<Vec<char>>)
    requires
        n >= 1,
    ensures
        views(res@) == split_n(s@, n as nat, sep),
{
    let mut pieces: Vec<Vec<char>> = Vec::new();
    let mut cur: Vec<char> = Vec::new();
    let len = s.len();
    for i in 0..len
        invariant
            len == s@.len(),
            n >= 1,
            views(pieces@).push(cur@) == split_n(s@.take(i as int), n as nat, sep),
    {
        let c = s[i];
        let ghost p = split_n(s@.take(i as int), n as nat, sep);
        proof {
            assert(s@.take(i + 1).drop_last() == s@.take(i as int));
            assert(s@.take(i + 1).last() == c);
            lemma_split_n_len(s@.take(i as int), n as nat, sep);
        }
        if c == sep && pieces.len() + 1 < n {
            let ghost before = views(pieces@);
            pieces.push(cur);
            cur = Vec::new();
            assert(views(pieces@).push(cur@) =~= before.push(p.last()).push(Seq::<char>::empty()));
            assert(before.push(p.last()) =~= p);
        } else {
            cur.push(c);
            assert(views(pieces@).push(cur@) =~= p.update(p.len() - 1, p.last().push(c)));
        }
    }
    assert(s@.take(len as int) == s@);
    let ghost before = views(pieces@);
    pieces.push(cur);
    assert(views(pieces@) =~= before.push(cur@));
    pieces
}

/// The characters of `s` from `start` up to `end`.
pub fn sub_chars(s: &[char], start: usize, end: usize) -> (res: Vec<char>)
    requires
        start <= end <= s@.len(),
    ensures
        res@ == s@.subrange(start as int, end as int),
{
    let mut res: Vec<char> = Vec::new();
    for i in start..end
        invariant
            start <= end <= s@.len(),
            res@ == s@.subrange(start as int, i as int),
    {
        res.push(s[i]);
        assert(s@.subrange(start as int, i + 1) == s@.subrange(start as int, i as int).push(s@[i as int]));
    }
    res
}

proof fn lemma_trim_start_skip(s: Seq<char>, c: char, k: int)
    requires
        0 <= k < s.len(),
        s[k] == c,
    ensures
        trim_start_char(s.skip(k), c) == trim_start_char(s.skip(k + 1), c),
{
    assert(s.skip(k).drop_first() == s.skip(k + 1));
}

proof fn lemma_trim_end_take(s: Seq<char>, c: char, j: int)
    requires
        0 < j <= s.len(),
        s[j - 1] == c,
    ensures
        trim_end_char(s.take(j), c) == trim_end_char(s.take(j - 1), c),
{
    assert(s.take(j).drop_last() == s.take(j - 1));
}

/// `s` with all leading and trailing `c` removed.
pub fn trim_chars(s: &[char], c: char) -> (res: Vec<char>)
    ensures
        res@ == trim_char(s@, c),
{
    let n = s.len();
    let mut k: usize = 0;
    assert(s@.skip(0) == s@);
    while k < n && s[k] == c
        invariant
            n == s@.len(),
            k <= n,
            trim_start_char(s@, c) == trim_start_char(s@.skip(k as int), c),
        decreases n - k,
    {
        proof {
            lemma_trim_start_skip(s@, c, k as int);
        }
        k = k + 1;
    }
    let ghost t = s@.skip(k as int);
    assert(trim_start_char(s@, c) == t);
    let mut j: usize = n;
    assert(t.take(t.len() as int) == t);
    while j > k && s[j - 1] == c
        invariant
            n == s@.len(),
            k <= j <= n,
            t == s@.skip(k as int),
            trim_end_char(t, c) == trim_end_char(t.take(j - k), c),
        decreases j,
    {
        proof {
            lemma_trim_end_take(t, c, j - k);
        }
        j = j - 1;
    }
    let res = sub_chars(s, k, j);
    assert(res@ == t.take(j - k));
    res
}

/// Whether the characters of `pat` occur in `s` starting at `i`.
pub fn matches_at(s: &[char], i: usize, pat: &[char]) -> (res: bool)
    requires
        i <= s@.len(),
    ensures
        res == (i + pat@.len() <= s@.len() && s@.skip(i as int).take(pat@.len() as int) == pat@),
{
    let m = pat.len();
    if s.len() - i < m {
        return false;
    }
    for j in 0..m
        invariant
            m == pat@.len(),
            i <= s@.len(),
            i + m <= s.len(),
            forall|k: int| 0 <= k < j ==> s@[i + k] == pat@[k],
    {
        if s[i + j] != pat[j] {
            assert(s@.skip(i as int).take(m as int)[j as int] != pat@[j as int]);
            return false;
        }
    }
    assert(s@.skip(i as int).take(m as int) =~= pat@);
    true
}

/// `s` with every occurrence of the non-empty `pat` removed.
pub fn remove_all_chars(s: &[char], pat: &[char]) -> (res: Vec<char>)
    requires
        pat@.len() > 0,
    ensures
        res@ == remove_all(s@, pat@),
{
    let n = s.len();
    let m = pat.len();
    let mut out: Vec<char> = Vec::new();
    let mut i: usize = 0;
    assert(s@.skip(0) == s@);
    while i < n
        invariant
            n == s@.len(),
            m == pat@.len(),
            m > 0,
            i <= n,
            remove_all(s@, pat@) == out@ + remove_all(s@.skip(i as int), pat@),
        decreases n - i,
    {
        let ghost rest = s@.skip(i as int);
        if matches_at(s, i, pat) {
            assert(rest.skip(m as int) == s@.skip(i + m));
            i = i + m;
        } else {
            proof {
                if rest.len() >= m {
                    assert(rest.take(m as int) != pat@);
                }
                assert(rest.drop_first() == s@.skip(i + 1));
                assert(out@.push(s@[i as int]) + remove_all(s@.skip(i + 1), pat@)
                    =~= out@ + (seq![rest[0]] + remove_all(rest.drop_first(), pat@)));
            }
            out.push(s[i]);
            i = i + 1;
        }
    }
    assert(s@.skip(n as int) =~= Seq::<char>::empty());
    assert(out@ + Seq::<char>::empty() =~= out@);
    out
}

/// The number of bytes `c` takes in UTF-8.
pub fn char_len_utf8(c: char) -> (res: u128)
    ensures
        res == char_utf8_len(c),
{
    let v = c as u32;
    if v < 0x80 {
        1
    } else if v < 0x800 {
        2
    } else if v < 0x10000 {
        3
    } else {
        4
    }
}

/// The number of bytes the text `s` takes in UTF-8.
pub fn utf8_len_of(s: &[char]) -> (res: u128)
    ensures
        res == utf8_len(s@),
{
    let mut total: u128 = 0;
    let n = s.len();
    for i in 0..n
        invariant
            n == s@.len(),
            total == utf8_len(s@.take(i as int)),
            total <= 4 * i,
    {
        assert(s@.take(i + 1).drop_last() == s@.take(i as int));
        total = total + char_len_utf8(s[i]);
    }
    assert(s@.take(n as int) == s@);
    total
}

/// The Unicode "numeric" property that `char::is_numeric` tests.
pub uninterp spec fn is_numeric_char(c: char) -> bool;

/// The Unicode "alphanumeric" property that `char::is_alphanumeric` tests.
pub uninterp spec fn is_alphanumeric_char(c: char) -> bool;

/// Whether `c` is an ASCII digit, `'0'` to `'9'`.
pub open spec fn is_ascii_digit(c: char) -> bool {
    0x30 <= (c as u32) && (c as u32) <= 0x39
}

/// Whether `c` is an ASCII letter or digit.
pub open spec fn is_ascii_alphanumeric(c: char) -> bool {
    ||| is_ascii_digit(c)
    ||| 0x41 <= (c as u32) && (c as u32) <= 0x5A
    ||| 0x61 <= (c as u32) && (c as u32) <= 0x7A
}

/// Calls `char::is_numeric`; its result is named by `is_numeric_char`. As
/// std documents, the ASCII digits are numeric.
#[verifier::external_body]
fn char_is_numeric(c: char) -> (res: bool)
    ensures
        res == is_numeric_char(c),
        is_ascii_digit(c) ==> res,
{
    c.is_numeric()
}

/// Calls `char::is_alphanumeric`; its result is named by
/// `is_alphanumeric_char`. As std documents, the ASCII letters and digits
/// are alphanumeric.
#[verifier::external_body]
fn char_is_alphanumeric(c: char) -> (res: bool)
    ensures
        res == is_alphanumeric_char(c),
        is_ascii_alphanumeric(c) ==> res,
{
    c.is_alphanumeric()
}

/// Whether every character of `s` is numeric (true for an empty text).
pub open spec fn all_numeric(s: Seq<char>) -> bool {
    forall|i: int| 0 <= i < s.len() ==> #[trigger] is_numeric_char(s[i])
}

/// Whether every character of `s` is alphanumeric (true for an empty text).
pub open spec fn all_alphanumeric(s: Seq<char>) -> bool {
    forall|i: int| 0 <= i < s.len() ==> #[trigger] is_alphanumeric_char(s[i])
}

/// Whether every character of `s` is an ASCII digit.
pub open spec fn all_ascii_digits(s: Seq<char>) -> bool {
    forall|i: int| 0 <= i < s.len() ==> #[trigger] is_ascii_digit(s[i])
}

/// Whether every character of `s` is an ASCII letter or digit.
pub open spec fn all_ascii_alphanumeric(s: Seq<char>) -> bool {
    forall|i: int| 0 <= i < s.len() ==> #[trigger] is_ascii_alphanumeric(s[i])
}

/// Whether every character of `s` is numeric.
pub fn chars_all_numeric(s: &[char]) -> (res: bool)
    ensures
        res == all_numeric(s@),
        all_ascii_digits(s@) ==> res,
{
    let n = s.len();
    for i in 0..n
        invariant
            n == s@.len(),
            forall|j: int| 0 <= j < i ==> #[trigger] is_numeric_char(s@[j]),
    {
        if !char_is_numeric(s[i]) {
            return false;
        }
    }
    true
}

/// Whether every character of `s` is alphanumeric.
pub fn chars_all_alphanumeric(s: &[char]) -> (res: bool)
    ensures
        res == all_alphanumeric(s@),
        all_ascii_alphanumeric(s@) ==> res,
{
    let n = s.len();
    for i in 0..n
        invariant
            n == s@.len(),
            forall|j: int| 0 <= j < i ==> #[trigger] is_alphanumeric_char(s@[j]),
    {
        if !char_is_alphanumeric(s[i]) {
            return false;
        }
    }
    true
}

} // verus!
