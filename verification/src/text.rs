//! Text helpers on `str` and `String`, stated over the `Seq<char>` view.

use vstd::prelude::*;

verus! {

/// The Unicode `White_Space` property, which `char::is_whitespace`
/// (and so `str::trim`) uses.
pub open spec fn is_white_space(c: char) -> bool {
    let n: u32 = c as u32;
    ||| 0x09 <= n <= 0x0d
    ||| n == 0x20
    ||| n == 0x85
    ||| n == 0xa0
    ||| n == 0x1680
    ||| 0x2000 <= n <= 0x200a
    ||| n == 0x2028
    ||| n == 0x2029
    ||| n == 0x202f
    ||| n == 0x205f
    ||| n == 0x3000
}

/// Drops the leading white space of `s`.
pub open spec fn trim_start(s: Seq<char>) -> Seq<char>
    decreases s.len(),
{
    if s.len() > 0 && is_white_space(s[0]) {
        trim_start(s.drop_first())
    } else {
        s
    }
}

/// Drops the trailing white space of `s`.
pub open spec fn trim_end(s: Seq<char>) -> Seq<char>
    decreases s.len(),
{
    if s.len() > 0 && is_white_space(s.last()) {
        trim_end(s.drop_last())
    } else {
        s
    }
}

/// `s` without its leading and trailing white space, as `str::trim` gives it.
pub open spec fn trim(s: Seq<char>) -> Seq<char> {
    trim_end(trim_start(s))
}

/// Whether `c` is white space in the sense of [`is_white_space`].
pub fn char_is_white_space(c: char) -> (res: bool)
    ensures
        res == is_white_space(c),
{
    let n: u32 = c as u32;
    (0x09 <= n && n <= 0x0d) || n == 0x20 || n == 0x85 || n == 0xa0 || n == 0x1680 || (0x2000
        <= n && n <= 0x200a) || n == 0x2028 || n == 0x2029 || n == 0x202f || n == 0x205f || n
        == 0x3000
}

proof fn lemma_trim_start_skip(s: Seq<char>, k: int)
    requires
        0 <= k <= s.len(),
        forall|j: int| 0 <= j < k ==> is_white_space(#[trigger] s[j]),
    ensures
        trim_start(s) == trim_start(s.subrange(k, s.len() as int)),
    decreases k,
{
    if k > 0 {
        let t = s.drop_first();
        assert forall|j: int| 0 <= j < k - 1 implies is_white_space(#[trigger] t[j]) by {
            assert(t[j] == s[j + 1]);
        }
        lemma_trim_start_skip(t, k - 1);
        assert(t.subrange(k - 1, t.len() as int) =~= s.subrange(k, s.len() as int));
    } else {
        assert(s.subrange(0, s.len() as int) =~= s);
    }
}

proof fn lemma_trim_end_drop(s: Seq<char>, k: int)
    requires
        0 <= k <= s.len(),
        forall|j: int| k <= j < s.len() ==> is_white_space(#[trigger] s[j]),
    ensures
        trim_end(s) == trim_end(s.subrange(0, k)),
    decreases s.len() - k,
{
    if k < s.len() {
        let t = s.drop_last();
        assert forall|j: int| k <= j < t.len() implies is_white_space(#[trigger] t[j]) by {
            assert(t[j] == s[j]);
        }
        lemma_trim_end_drop(t, k);
        assert(t.subrange(0, k) =~= s.subrange(0, k));
    } else {
        assert(s.subrange(0, k) =~= s);
    }
}

/// `s` with its leading and trailing white space removed.
pub fn trim_str(s: &str) -> (res: String)
    ensures
        res@ == trim(s@),
{
    let n: usize = s.unicode_len();
    let mut lo: usize = 0;
    while lo < n && char_is_white_space(s.get_char(lo))
        invariant
            n == s@.len(),
            lo <= n,
            forall|j: int| 0 <= j < lo ==> is_white_space(#[trigger] s@[j]),
        decreases n - lo,
    {
        lo = lo + 1;
    }
    proof {
        lemma_trim_start_skip(s@, lo as int);
    }
    let ghost rest = s@.subrange(lo as int, n as int);
    assert(rest.len() == 0 || !is_white_space(rest[0]));
    assert(trim_start(s@) == rest);
    let mut hi: usize = n;
    while hi > lo && char_is_white_space(s.get_char(hi - 1))
        invariant
            n == s@.len(),
            lo <= hi <= n,
            forall|j: int| hi <= j < n ==> is_white_space(#[trigger] s@[j]),
        decreases hi,
    {
        hi = hi - 1;
    }
    proof {
        let r = rest;
        assert forall|j: int| hi - lo <= j < r.len() implies is_white_space(#[trigger] r[j]) by {
            assert(r[j] == s@[j + lo]);
        }
        lemma_trim_end_drop(r, hi - lo);
        assert(r.subrange(0, hi - lo) =~= s@.subrange(lo as int, hi as int));
    }
    let piece = s.substring_char(lo, hi);
    String::from_str(piece)
}


/// The pieces of `s` between the occurrences of `sep`, as `str::split`
/// with a `char` pattern yields them: one more piece than `sep` occurs.
pub open spec fn split_on(s: Seq<char>, sep: char) -> Seq<Seq<char>>
    decreases s.len(),
{
    if s.len() == 0 {
        seq![Seq::<char>::empty()]
    } else {
        let prev = split_on(s.drop_last(), sep);
        if s.last() == sep {
            prev.push(Seq::<char>::empty())
        } else {
            prev.update(prev.len() - 1, prev.last().push(s.last()))
        }
    }
}

/// How often `c` occurs in `s`.
pub open spec fn count_char(s: Seq<char>, c: char) -> nat
    decreases s.len(),
{
    if s.len() == 0 {
        0
    } else {
        count_char(s.drop_last(), c) + if s.last() == c { 1nat } else { 0nat }
    }
}

/// The views of a vector of strings.
pub open spec fn string_views(v: Seq<String>) -> Seq<Seq<char>> {
    v.map_values(|x: String| x@)
}

/// The list of tags that a comma-separated specification such as
/// `"quick, smoke"` names: each piece between commas, trimmed.
pub open spec fn tag_list(spec: Seq<char>) -> Seq<Seq<char>> {
    split_on(spec, ',').map_values(|p: Seq<char>| trim(p))
}

pub proof fn lemma_split_on_len(s: Seq<char>, sep: char)
    ensures
        split_on(s, sep).len() == count_char(s, sep) + 1,
    decreases s.len(),
{
    if s.len() > 0 {
        lemma_split_on_len(s.drop_last(), sep);
    }
}

proof fn lemma_trim_start_suffix(s: Seq<char>)
    ensures
        trim_start(s).len() <= s.len(),
        trim_start(s) == s.skip(s.len() - trim_start(s).len()),
        trim_start(s).len() > 0 ==> !is_white_space(trim_start(s)[0]),
    decreases s.len(),
{
    if s.len() > 0 && is_white_space(s[0]) {
        lemma_trim_start_suffix(s.drop_first());
        let t = trim_start(s.drop_first());
        assert(s.drop_first().skip(s.drop_first().len() - t.len()) =~= s.skip(s.len() - t.len()));
    } else {
        assert(s.skip(0) =~= s);
    }
}

proof fn lemma_trim_end_prefix(s: Seq<char>)
    ensures
        trim_end(s).len() <= s.len(),
        trim_end(s) == s.take(trim_end(s).len() as int),
        trim_end(s).len() > 0 ==> !is_white_space(trim_end(s).last()),
    decreases s.len(),
{
    if s.len() > 0 && is_white_space(s.last()) {
        lemma_trim_end_prefix(s.drop_last());
        let t = trim_end(s.drop_last());
        assert(s.drop_last().take(t.len() as int) =~= s.take(t.len() as int));
    } else {
        assert(s.take(s.len() as int) =~= s);
    }
}

/// A trimmed text neither starts nor ends with white space, and every
/// character of it comes from the text it was trimmed from.
pub proof fn lemma_trim_shape(s: Seq<char>)
    ensures
        trim(s).len() > 0 ==> !is_white_space(trim(s)[0]) && !is_white_space(trim(s).last()),
        forall|c: char| trim(s).contains(c) ==> s.contains(c),
{
    lemma_trim_start_suffix(s);
    let t = trim_start(s);
    lemma_trim_end_prefix(t);
    let r = trim_end(t);
    if r.len() > 0 {
        assert(r[0] == t[0]);
    }
    assert forall|c: char| r.contains(c) implies s.contains(c) by {
        let j = choose|j: int| 0 <= j < r.len() && r[j] == c;
        assert(r[j] == t[j]);
        assert(t[j] == s[s.len() - t.len() + j]);
    }
}

/// No piece that `split_on` yields holds the separator.
pub proof fn lemma_split_pieces_lack_separator(s: Seq<char>, sep: char)
    ensures
        forall|i: int|
            0 <= i < split_on(s, sep).len() ==> !(#[trigger] split_on(s, sep)[i]).contains(sep),
    decreases s.len(),
{
    if s.len() > 0 {
        lemma_split_on_len(s.drop_last(), sep);
        lemma_split_pieces_lack_separator(s.drop_last(), sep);
        let prev = split_on(s.drop_last(), sep);
        if s.last() != sep {
            let grown = prev.last().push(s.last());
            assert forall|i: int| 0 <= i < split_on(s, sep).len() implies !(#[trigger] split_on(
                s,
                sep,
            )[i]).contains(sep) by {
                if i == prev.len() - 1 {
                    assert(split_on(s, sep)[i] == grown);
                    if grown.contains(sep) {
                        let j = choose|j: int| 0 <= j < grown.len() && grown[j] == sep;
                        assert(prev.last()[j] == sep);
                    }
                } else {
                    assert(split_on(s, sep)[i] == prev[i]);
                }
            }
        } else {
            assert forall|i: int| 0 <= i < split_on(s, sep).len() implies !(#[trigger] split_on(
                s,
                sep,
            )[i]).contains(sep) by {
                if i < prev.len() {
                    assert(split_on(s, sep)[i] == prev[i]);
                }
            }
        }
    }
}

/// A tag specification names one tag more than it has commas; no tag holds
/// a comma, and none starts or ends with white space.
pub proof fn law_tag_list_shape(spec: Seq<char>)
    ensures
        tag_list(spec).len() == count_char(spec, ',') + 1,
        forall|i: int|
            0 <= i < tag_list(spec).len() ==> !(#[trigger] tag_list(spec)[i]).contains(','),
        forall|i: int|
            0 <= i < tag_list(spec).len() && tag_list(spec)[i].len() > 0 ==> !is_white_space(
                #[trigger] tag_list(spec)[i][0],
            ) && !is_white_space(tag_list(spec)[i].last()),
{
    lemma_split_on_len(spec, ',');
    lemma_split_pieces_lack_separator(spec, ',');
    let pieces = split_on(spec, ',');
    assert forall|i: int| 0 <= i < tag_list(spec).len() implies !(#[trigger] tag_list(
        spec,
    )[i]).contains(',') by {
        lemma_trim_shape(pieces[i]);
        assert(tag_list(spec)[i] == trim(pieces[i]));
        assert(!pieces[i].contains(','));
    }
    assert forall|i: int| 0 <= i < tag_list(spec).len() && tag_list(spec)[i].len() > 0 implies !is_white_space(
        #[trigger] tag_list(spec)[i][0],
    ) && !is_white_space(tag_list(spec)[i].last()) by {
        lemma_trim_shape(pieces[i]);
    }
}

/// The pieces joined again, with `sep` between each two.
pub open spec fn join_with(pieces: Seq<Seq<char>>, sep: char) -> Seq<char>
    decreases pieces.len(),
{
    if pieces.len() <= 1 {
        if pieces.len() == 1 {
            pieces[0]
        } else {
            Seq::empty()
        }
    } else {
        join_with(pieces.drop_last(), sep).push(sep) + pieces.last()
    }
}

proof fn lemma_join_split(s: Seq<char>, sep: char)
    ensures
        join_with(split_on(s, sep), sep) == s,
    decreases s.len(),
{
    if s.len() > 0 {
        let t = s.drop_last();
        lemma_join_split(t, sep);
        lemma_split_on_len(t, sep);
        let prev = split_on(t, sep);
        if s.last() == sep {
            let now = prev.push(Seq::<char>::empty());
            assert(now.drop_last() =~= prev);
            assert(join_with(now, sep) =~= join_with(prev, sep).push(sep) + Seq::<char>::empty());
            assert(t.push(sep) =~= s);
        } else {
            let now = prev.update(prev.len() - 1, prev.last().push(s.last()));
            assert(now.last() == prev.last().push(s.last()));
            if prev.len() == 1 {
                assert(join_with(prev, sep) == prev[0]);
                assert(join_with(now, sep) == now[0]);
                assert(t.push(s.last()) =~= s);
            } else {
                assert(now.drop_last() =~= prev.drop_last());
                assert(join_with(now, sep) =~= join_with(prev, sep).push(s.last()));
                assert(t.push(s.last()) =~= s);
            }
        }
    }
}

proof fn lemma_trim_plain(p: Seq<char>)
    requires
        forall|j: int| 0 <= j < p.len() ==> !is_white_space(#[trigger] p[j]),
    ensures
        trim(p) == p,
{
    if p.len() > 0 {
        assert(!is_white_space(p[0]));
        assert(!is_white_space(p.last()));
    }
    assert(trim_start(p) == p);
}

/// Splitting loses nothing: the tags named by a specification without white
/// space, joined again with commas, give back the specification; so each
/// tag is the very text that stands between its commas.
pub proof fn law_tags_rejoin_to_the_specification(spec: Seq<char>)
    requires
        forall|j: int| 0 <= j < spec.len() ==> !is_white_space(#[trigger] spec[j]),
    ensures
        join_with(tag_list(spec), ',') == spec,
{
    lemma_join_split(spec, ',');
    lemma_pieces_plain(spec, ',');
    let pieces = split_on(spec, ',');
    assert forall|i: int| 0 <= i < pieces.len() implies #[trigger] tag_list(spec)[i] == pieces[i] by {
        lemma_trim_plain(pieces[i]);
    }
    assert(tag_list(spec) =~= pieces);
}

proof fn lemma_pieces_plain(s: Seq<char>, sep: char)
    requires
        forall|j: int| 0 <= j < s.len() ==> !is_white_space(#[trigger] s[j]),
    ensures
        forall|i: int, j: int|
            0 <= i < split_on(s, sep).len() && 0 <= j < split_on(s, sep)[i].len()
                ==> !is_white_space(#[trigger] split_on(s, sep)[i][j]),
    decreases s.len(),
{
    if s.len() > 0 {
        let t = s.drop_last();
        assert forall|j: int| 0 <= j < t.len() implies !is_white_space(#[trigger] t[j]) by {
            assert(t[j] == s[j]);
        }
        lemma_pieces_plain(t, sep);
        lemma_split_on_len(t, sep);
        let prev = split_on(t, sep);
        assert(!is_white_space(s[s.len() - 1]));
        assert forall|i: int, j: int|
            0 <= i < split_on(s, sep).len() && 0 <= j < split_on(s, sep)[i].len()
            implies !is_white_space(#[trigger] split_on(s, sep)[i][j]) by {
            if s.last() == sep {
                if i < prev.len() {
                    assert(split_on(s, sep)[i] == prev[i]);
                }
            } else {
                if i < prev.len() - 1 {
                    assert(split_on(s, sep)[i] == prev[i]);
                } else {
                    assert(split_on(s, sep)[i] == prev.last().push(s.last()));
                    if j < prev.last().len() {
                        assert(prev.last()[j] == prev[prev.len() - 1][j]);
                    }
                }
            }
        }
    }
}

/// Splits `s` at every `sep` and trims each piece.
pub fn split_and_trim(s: &str, sep: char) -> (res: Vec<String>)
    ensures
        string_views(res@) == split_on(s@, sep).map_values(|p: Seq<char>| trim(p)),
{
    let n: usize = s.unicode_len();
    let mut pieces: Vec<String> = Vec::new();
    let mut start: usize = 0;
    let mut i: usize = 0;
    assert(s@.take(0) =~= Seq::<char>::empty());
    while i < n
        invariant
            n == s@.len(),
            start <= i <= n,
            split_on(s@.take(i as int), sep).len() == pieces@.len() + 1,
            split_on(s@.take(i as int), sep).last() == s@.subrange(start as int, i as int),
            forall|j: int|
                0 <= j < pieces@.len() ==> #[trigger] pieces@[j]@ == trim(
                    split_on(s@.take(i as int), sep)[j],
                ),
        decreases n - i,
    {
        let c: char = s.get_char(i);
        let ghost prev = split_on(s@.take(i as int), sep);
        let ghost old_pieces = pieces@;
        let ghost old_start = start;
        assert(s@.take(i + 1).drop_last() =~= s@.take(i as int));
        assert(s@.take(i + 1).last() == c);
        if c == sep {
            let piece = trim_str(s.substring_char(start, i));
            pieces.push(piece);
            start = i + 1;
        } else {
            assert(s@.subrange(start as int, i + 1) =~= s@.subrange(start as int, i as int).push(c));
        }
        proof {
            let next = split_on(s@.take(i + 1), sep);
            assert forall|j: int| 0 <= j < pieces@.len() implies #[trigger] pieces@[j]@ == trim(
                next[j],
            ) by {
                if j < old_pieces.len() {
                    assert(next[j] == prev[j]);
                    assert(pieces@[j] == old_pieces[j]);
                } else {
                    assert(next[j] == prev[j]);
                    assert(prev[j] == s@.subrange(old_start as int, i as int));
                }
            }
        }
        i = i + 1;
    }
    let ghost before = pieces@;
    let last = trim_str(s.substring_char(start, n));
    pieces.push(last);
    proof {
        let full = split_on(s@, sep);
        assert(s@.take(n as int) =~= s@);
        let expected = full.map_values(|p: Seq<char>| trim(p));
        assert forall|j: int| 0 <= j < pieces@.len() implies #[trigger] string_views(pieces@)[j]
            == expected[j] by {
            if j < before.len() {
                assert(pieces@[j] == before[j]);
            }
            assert(pieces@[j]@ == trim(full[j]));
        }
        assert(string_views(pieces@) =~= expected);
    }
    pieces
}

/// The tags named by a comma-separated tag specification: the pieces between
/// the commas, each with its surrounding white space removed.
pub fn parse_tag_list(spec: &str) -> (tags: Vec<String>)
    ensures
        string_views(tags@) == tag_list(spec@),
{
    split_and_trim(spec, ',')
}


/// Whether `p` occurs in `s` as a contiguous piece; the empty `p` occurs in
/// every `s`.
pub open spec fn contains_infix(s: Seq<char>, p: Seq<char>) -> bool {
    exists|k: int| 0 <= k && k + p.len() <= s.len() && #[trigger] s.subrange(k, k + p.len()) == p
}

/// Whether the characters of `s` from position `k` on begin with `p`.
fn matches_at(s: &str, p: &str, k: usize, sn: usize, pn: usize) -> (res: bool)
    requires
        sn == s@.len(),
        pn == p@.len(),
        k + pn <= sn,
    ensures
        res == (s@.subrange(k as int, k + pn) == p@),
{
    let mut j: usize = 0;
    while j < pn
        invariant
            sn == s@.len(),
            pn == p@.len(),
            k + pn <= sn,
            j <= pn,
            forall|t: int| 0 <= t < j ==> s@[k + t] == p@[t],
        decreases pn - j,
    {
        if s.get_char(k + j) != p.get_char(j) {
            assert(s@.subrange(k as int, k + pn)[j as int] != p@[j as int]);
            return false;
        }
        j = j + 1;
    }
    assert(s@.subrange(k as int, k + pn) =~= p@);
    true
}

/// Whether `pattern` occurs in `s`, as `str::contains` answers for a `&str`
/// pattern.
pub fn str_contains(s: &str, pattern: &str) -> (res: bool)
    ensures
        res == contains_infix(s@, pattern@),
{
    let sn: usize = s.unicode_len();
    let pn: usize = pattern.unicode_len();
    if pn > sn {
        return false;
    }
    let mut k: usize = 0;
    while k <= sn - pn
        invariant
            sn == s@.len(),
            pn == pattern@.len(),
            pn <= sn,
            k <= sn - pn + 1,
            forall|t: int| 0 <= t < k ==> #[trigger] s@.subrange(t, t + pn) != pattern@,
        decreases sn - pn + 1 - k,
    {
        if matches_at(s, pattern, k, sn, pn) {
            return true;
        }
        if k == sn - pn {
            return false;
        }
        k = k + 1;
    }
    false
}

/// Whether `a` and `b` hold the same characters.
pub fn str_equal(a: &str, b: &str) -> (res: bool)
    ensures
        res == (a@ == b@),
{
    let an: usize = a.unicode_len();
    let bn: usize = b.unicode_len();
    if an != bn {
        return false;
    }
    assert(a@.subrange(0, an as int) =~= a@);
    matches_at(a, b, 0, an, bn)
}

/// `dir`, a slash and `name`: the path that `format!("{}/{}", dir, name)` gives.
pub fn join_path(dir: &str, name: &str) -> (res: String)
    ensures
        res@ == dir@ + seq!['/'] + name@,
{
    let mut res = String::from_str(dir);
    let slash = "/";
    proof {
        reveal_strlit("/");
    }
    res.append(slash);
    res.append(name);
    res
}

} // verus!
