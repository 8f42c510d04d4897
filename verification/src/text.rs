//! Character sequences: white space, splitting and comparison.
//!
//! Text is modelled as `Seq<char>`, the view of `str` and `String`.
use vstd::prelude::*;

verus! {

/// The text held by an optional string, if there is one.
pub open spec fn opt_text(s: Option<String>) -> Option<Seq<char>> {
    match s {
        Some(t) => Some(t@),
        None => None,
    }
}

/// The text behind an optional string slice, if there is one.
pub open spec fn opt_str(s: Option<&str>) -> Option<Seq<char>> {
    match s {
        Some(t) => Some(t@),
        None => None,
    }
}

/// The first of two optional texts that is present.
pub open spec fn first_of(a: Option<Seq<char>>, b: Option<Seq<char>>) -> Option<Seq<char>> {
    match a {
        Some(t) => Some(t),
        None => b,
    }
}

/// The characters of `s`, one by one.
pub fn chars_of(s: &str) -> (r: Vec<char>)
    ensures
        r@ == s@,
{
    let mut r: Vec<char> = Vec::new();
    for c in it: s.chars()
        invariant
            it.seq() == s@,
            r@ == s@.take(it.index() as int),
    {
        r.push(c);
    }
    assert(s@.take(s@.len() as int) == s@);
    r
}

/// Whether two strings hold the same text.
pub fn same_text(a: &str, b: &str) -> (r: bool)
    ensures
        r == (a@ == b@),
{
    a.to_owned() == b.to_owned()
}

/// An optional string, borrowed.
pub fn borrow_opt<'a>(s: &'a Option<String>) -> (r: Option<&'a str>)
    ensures
        opt_str(r) == opt_text(*s),
{
    match s {
        Some(t) => Some(t.as_str()),
        None => None,
    }
}

/// Whether `c` has the Unicode property White_Space.
pub open spec fn white_space(c: char) -> bool {
    let n = c as u32;
    ||| 0x09 <= n <= 0x0d
    ||| n == 0x20
    ||| n == 0x85
    ||| n == 0xa0
    ||| n == 0x1680
    ||| 0x2000 <= n <= 0x200a
    ||| n == 0x2028
    ||| n == 0x2029
    ||| n == 0x202f
    ||| n == 0x205f
    ||| n == 0x3000
}

/// `s` without its leading white space.
pub open spec fn trim_start(s: Seq<char>) -> Seq<char>
    decreases s.len(),
{
    if s.len() > 0 && white_space(s[0]) {
        trim_start(s.skip(1))
    } else {
        s
    }
}

/// `s` without its trailing white space.
pub open spec fn trim_end(s: Seq<char>) -> Seq<char>
    decreases s.len(),
{
    if s.len() > 0 && white_space(s.last()) {
        trim_end(s.drop_last())
    } else {
        s
    }
}

/// `s` without the white space around it.
pub open spec fn trim(s: Seq<char>) -> Seq<char> {
    trim_end(trim_start(s))
}

/// Whether `s` holds nothing but white space.
pub open spec fn is_blank(s: Seq<char>) -> bool {
    forall|i: int| 0 <= i < s.len() ==> white_space(#[trigger] s[i])
}

/// The index of the first `c` in `s`, or the length of `s` when there is none.
pub open spec fn first_index(s: Seq<char>, c: char) -> nat
    decreases s.len(),
{
    if s.len() == 0 || s[0] == c {
        0
    } else {
        1 + first_index(s.skip(1), c)
    }
}

/// The parts of `s` between the occurrences of `sep`. There is always at least one.
pub open spec fn split(s: Seq<char>, sep: char) -> Seq<Seq<char>>
    decreases s.len(),
{
    let k = first_index(s, sep) as int;
    if k >= s.len() {
        seq![s]
    } else {
        seq![s.take(k)] + split(s.skip(k + 1), sep)
    }
}

/// Texts with `sep` between each two of them.
pub open spec fn join(parts: Seq<Seq<char>>, sep: Seq<char>) -> Seq<char>
    decreases parts.len(),
{
    if parts.len() == 0 {
        seq![]
    } else if parts.len() == 1 {
        parts[0]
    } else {
        join(parts.drop_last(), sep) + sep + parts.last()
    }
}

/// Text is blank exactly when trimming leaves nothing of it.
pub proof fn law_blank_trims_to_nothing(s: Seq<char>)
    ensures
        is_blank(s) <==> trim(s).len() == 0,
    decreases s.len(),
{
    if s.len() > 0 && white_space(s[0]) {
        law_blank_trims_to_nothing(s.skip(1));
        assert forall|i: int| is_blank(s.skip(1)) && 0 <= i < s.len() implies white_space(
            #[trigger] s[i],
        ) by {
            if i > 0 {
                assert(s[i] == s.skip(1)[i - 1]);
            }
        }
        assert forall|i: int| is_blank(s) && 0 <= i < s.skip(1).len() implies white_space(
            #[trigger] s.skip(1)[i],
        ) by {
            assert(s.skip(1)[i] == s[i + 1]);
        }
    } else if s.len() > 0 {
        lemma_trim_end_keeps_first(s);
    }
}

/// Text that starts with something else than white space keeps its start when its end is trimmed.
proof fn lemma_trim_end_keeps_first(s: Seq<char>)
    requires
        s.len() > 0,
        !white_space(s[0]),
    ensures
        trim_end(s).len() > 0,
        trim_end(s)[0] == s[0],
    decreases s.len(),
{
    if white_space(s.last()) {
        lemma_trim_end_keeps_first(s.drop_last());
    }
}

/// Removing white space at the end goes past any blank text appended there.
proof fn lemma_trim_end_blank(s: Seq<char>, b: Seq<char>)
    requires
        is_blank(b),
    ensures
        trim_end(s + b) == trim_end(s),
    decreases b.len(),
{
    if b.len() == 0 {
        assert(s + b =~= s);
    } else {
        assert(white_space(b[b.len() - 1]));
        assert((s + b).drop_last() =~= s + b.drop_last());
        assert forall|i: int| 0 <= i < b.drop_last().len() implies white_space(
            #[trigger] b.drop_last()[i],
        ) by {
            assert(b.drop_last()[i] == b[i]);
        }
        lemma_trim_end_blank(s, b.drop_last());
    }
}

/// Removing white space at the start goes past any blank text put there.
pub proof fn lemma_trim_start_blank(a: Seq<char>, s: Seq<char>)
    requires
        is_blank(a),
    ensures
        trim_start(a + s) == trim_start(s),
    decreases a.len(),
{
    if a.len() == 0 {
        assert(a + s =~= s);
    } else {
        assert(white_space(a[0]));
        assert((a + s).skip(1) =~= a.skip(1) + s);
        assert forall|i: int| 0 <= i < a.skip(1).len() implies white_space(
            #[trigger] a.skip(1)[i],
        ) by {
            assert(a.skip(1)[i] == a[i + 1]);
        }
        lemma_trim_start_blank(a.skip(1), s);
    }
}

/// Where text is not blank, what is appended to it has no part in trimming its start.
pub proof fn lemma_trim_start_concat(s: Seq<char>, b: Seq<char>)
    requires
        !is_blank(s),
    ensures
        trim_start(s + b) == trim_start(s) + b,
    decreases s.len(),
{
    if s.len() > 0 && white_space(s[0]) {
        assert((s + b).skip(1) =~= s.skip(1) + b);
        let i = choose|i: int| 0 <= i < s.len() && !white_space(#[trigger] s[i]);
        assert(s.skip(1)[i - 1] == s[i]);
        lemma_trim_start_concat(s.skip(1), b);
    }
}

/// Blank text around a text does not change what trimming leaves.
pub proof fn law_trim_ignores_surrounding_blanks(a: Seq<char>, s: Seq<char>, b: Seq<char>)
    requires
        is_blank(a),
        is_blank(b),
    ensures
        trim(a + s + b) == trim(s),
{
    if is_blank(s) {
        let all = a + s + b;
        assert forall|i: int| 0 <= i < all.len() implies white_space(#[trigger] all[i]) by {
            if i < a.len() {
                assert(all[i] == a[i]);
            } else if i < a.len() + s.len() {
                assert(all[i] == s[i - a.len()]);
            } else {
                assert(all[i] == b[i - a.len() - s.len()]);
            }
        }
        law_blank_trims_to_nothing(all);
        law_blank_trims_to_nothing(s);
        assert(trim(all) =~= trim(s));
    } else {
        assert(a + s + b =~= a + (s + b));
        lemma_trim_start_blank(a, s + b);
        lemma_trim_start_concat(s, b);
        lemma_trim_end_blank(trim_start(s), b);
    }
}

/// The first occurrence of a character is one, and there is none before it.
pub proof fn lemma_first_index(s: Seq<char>, c: char)
    ensures
        first_index(s, c) <= s.len(),
        first_index(s, c) < s.len() ==> s[first_index(s, c) as int] == c,
        forall|i: int| 0 <= i < first_index(s, c) ==> #[trigger] s[i] != c,
    decreases s.len(),
{
    if s.len() > 0 && s[0] != c {
        lemma_first_index(s.skip(1), c);
        assert forall|i: int| 0 <= i < first_index(s, c) implies #[trigger] s[i] != c by {
            if i > 0 {
                assert(s.skip(1)[i - 1] == s[i]);
            }
        }
    }
}

/// A character that does not occur in the first part of a text is first found past that part.
proof fn lemma_first_index_skips(a: Seq<char>, b: Seq<char>, c: char)
    requires
        forall|i: int| 0 <= i < a.len() ==> #[trigger] a[i] != c,
    ensures
        first_index(a + b, c) == a.len() + first_index(b, c),
    decreases a.len(),
{
    if a.len() == 0 {
        assert(a + b =~= b);
    } else {
        assert((a + b).skip(1) =~= a.skip(1) + b);
        lemma_first_index_skips(a.skip(1), b, c);
        assert((a + b)[0] == a[0]);
    }
}

/// Splitting two texts with the separator between them gives the parts of the first, then those of
/// the second.
pub proof fn law_split_concat(a: Seq<char>, sep: char, b: Seq<char>)
    ensures
        split(a + seq![sep] + b, sep) == split(a, sep) + split(b, sep),
    decreases a.len(),
{
    let all = a + seq![sep] + b;
    let k = first_index(a, sep) as int;
    lemma_first_index(a, sep);
    if k >= a.len() {
        lemma_first_index_skips(a, seq![sep] + b, sep);
        assert(all =~= a + (seq![sep] + b));
        assert((seq![sep] + b)[0] == sep);
        assert(all.take(k) =~= a);
        assert(all.skip(k + 1) =~= b);
    } else {
        let head = a.take(k);
        let rest = a.skip(k + 1);
        law_split_concat(rest, sep, b);
        assert(a =~= head + (seq![sep] + rest));
        assert(all =~= head + (seq![sep] + rest + seq![sep] + b));
        assert forall|i: int| 0 <= i < head.len() implies #[trigger] head[i] != sep by {
            assert(head[i] == a[i]);
        }
        lemma_first_index_skips(head, seq![sep] + rest + seq![sep] + b, sep);
        assert((seq![sep] + rest + seq![sep] + b)[0] == sep);
        assert(all.take(k) =~= head);
        assert(all.skip(k + 1) =~= rest + seq![sep] + b);
        assert(seq![head] + (split(rest, sep) + split(b, sep)) =~= (seq![head] + split(rest, sep))
            + split(b, sep));
    }
}

/// The last part of a text ends as the text does, unless the text ends with the separator.
pub proof fn lemma_split_last(s: Seq<char>, sep: char)
    requires
        s.len() > 0,
        s.last() != sep,
    ensures
        split(s, sep).len() > 0,
        split(s, sep).last().len() > 0,
        split(s, sep).last().last() == s.last(),
    decreases s.len(),
{
    let k = first_index(s, sep) as int;
    lemma_first_index(s, sep);
    if k < s.len() {
        let rest = s.skip(k + 1);
        assert(k < s.len() - 1);
        assert(rest.last() == s.last());
        lemma_split_last(rest, sep);
        assert((seq![s.take(k)] + split(rest, sep)).last() == split(rest, sep).last());
    }
}

/// Text without the separator is its only part.
pub proof fn law_split_single(s: Seq<char>, sep: char)
    requires
        forall|i: int| 0 <= i < s.len() ==> #[trigger] s[i] != sep,
    ensures
        split(s, sep) == seq![s],
{
    lemma_first_index(s, sep);
}

/// Whether `c` is white space.
pub fn is_white_space(c: char) -> (r: bool)
    ensures
        r == white_space(c),
{
    let n: u32 = c as u32;
    (0x09 <= n && n <= 0x0d) || n == 0x20 || n == 0x85 || n == 0xa0 || n == 0x1680 || (0x2000 <= n
        && n <= 0x200a) || n == 0x2028 || n == 0x2029 || n == 0x202f || n == 0x205f || n == 0x3000
}

/// Where the text of `v` begins and ends once the white space around it is left out.
pub fn trim_bounds(v: &Vec<char>) -> (r: (usize, usize))
    ensures
        r.0 <= r.1 <= v@.len(),
        v@.subrange(r.0 as int, r.1 as int) == trim(v@),
{
    let mut lo: usize = 0;
    assert(v@.skip(0) =~= v@);
    while lo < v.len() && is_white_space(v[lo])
        invariant
            lo <= v@.len(),
            trim_start(v@.skip(lo as int)) == trim_start(v@),
        decreases v@.len() - lo,
    {
        assert(v@.skip(lo as int).skip(1) =~= v@.skip(lo + 1));
        lo += 1;
    }
    let ghost head = v@.skip(lo as int);
    assert(trim_start(head) == head);
    let mut hi: usize = v.len();
    assert(v@.subrange(lo as int, hi as int) =~= head);
    while hi > lo && is_white_space(v[hi - 1])
        invariant
            lo <= hi <= v@.len(),
            trim_end(v@.subrange(lo as int, hi as int)) == trim_end(head),
        decreases hi,
    {
        let ghost t = v@.subrange(lo as int, hi as int);
        assert(t.last() == v@[hi - 1]);
        assert(t.drop_last() =~= v@.subrange(lo as int, hi - 1));
        hi -= 1;
    }
    assert(hi > lo ==> v@.subrange(lo as int, hi as int).last() == v@[hi - 1]);
    (lo, hi)
}

/// Whether `s` holds nothing but white space.
pub fn blank(s: &str) -> (r: bool)
    ensures
        r == is_blank(s@),
{
    let v = chars_of(s);
    let mut i: usize = 0;
    while i < v.len()
        invariant
            v@ == s@,
            i <= v@.len(),
            forall|j: int| 0 <= j < i ==> white_space(#[trigger] s@[j]),
        decreases v@.len() - i,
    {
        if !is_white_space(v[i]) {
            assert(!white_space(s@[i as int]));
            return false;
        }
        i += 1;
    }
    true
}

/// The index of the first `c` in `v` from `lo` on, or `hi` when there is none before `hi`.
pub fn find_char(v: &Vec<char>, lo: usize, hi: usize, c: char) -> (r: usize)
    requires
        lo <= hi <= v@.len(),
    ensures
        lo <= r <= hi,
        r - lo == first_index(v@.subrange(lo as int, hi as int), c),
{
    let mut i: usize = lo;
    let ghost whole = v@.subrange(lo as int, hi as int);
    assert(v@.subrange(i as int, hi as int) =~= whole);
    while i < hi && v[i] != c
        invariant
            lo <= i <= hi <= v@.len(),
            first_index(whole, c) == i - lo + first_index(v@.subrange(i as int, hi as int), c),
        decreases hi - i,
    {
        assert(v@.subrange(i as int, hi as int).skip(1) =~= v@.subrange(i + 1, hi as int));
        i += 1;
    }
    i
}

/// Whether `s` starts with `prefix`.
pub fn has_prefix(s: &str, prefix: &str) -> (r: bool)
    ensures
        r == prefix@.is_prefix_of(s@),
{
    let v = chars_of(s);
    let p = chars_of(prefix);
    if p.len() > v.len() {
        return false;
    }
    let mut i: usize = 0;
    while i < p.len()
        invariant
            v@ == s@,
            p@ == prefix@,
            i <= p@.len() <= v@.len(),
            forall|j: int| 0 <= j < i ==> p@[j] == v@[j],
        decreases p@.len() - i,
    {
        if p[i] != v[i] {
            assert(s@.subrange(0, prefix@.len() as int)[i as int] == s@[i as int]);
            return false;
        }
        i += 1;
    }
    assert(s@.subrange(0, prefix@.len() as int) =~= prefix@);
    true
}

/// Trimming takes the longest run of white space off each end and nothing else: what is left is a
/// part of the text with only white space around it, and it neither starts nor ends with any.
pub proof fn law_trim_takes_white_space_off_the_ends(s: Seq<char>)
    ensures
        exists|i: int, j: int|
            0 <= i <= j <= s.len() && trim(s) == #[trigger] s.subrange(i, j) && (forall|k: int|
                0 <= k < i || j <= k < s.len() ==> white_space(#[trigger] s[k])) && (i < j
                ==> !white_space(s[i]) && !white_space(s[j - 1])),
{
    let head = trim_start(s);
    let i = s.len() - head.len();
    lemma_trim_start_drops(s);
    lemma_trim_end_drops(head);
    let j = i + trim(s).len();
    assert(trim(s) =~= s.subrange(i, j));
    assert forall|k: int| 0 <= k < i || j <= k < s.len() implies white_space(#[trigger] s[k]) by {
        if j <= k {
            assert(s[k] == head[k - i]);
        }
    }
    if i < j {
        assert(trim(s)[0] == s[i]);
        assert(head[0] == s[i]);
        assert(trim(s).last() == s[j - 1]);
    }
}

proof fn lemma_trim_start_drops(s: Seq<char>)
    ensures
        ({
            let n = s.len() - trim_start(s).len();
            &&& 0 <= n
            &&& trim_start(s) == s.skip(n)
            &&& forall|k: int| 0 <= k < n ==> white_space(#[trigger] s[k])
            &&& trim_start(s).len() > 0 ==> !white_space(trim_start(s)[0])
        }),
    decreases s.len(),
{
    if s.len() > 0 && white_space(s[0]) {
        lemma_trim_start_drops(s.skip(1));
        let n = s.len() - trim_start(s).len();
        assert(s.skip(1).skip(n - 1) =~= s.skip(n));
        assert forall|k: int| 0 <= k < n implies white_space(#[trigger] s[k]) by {
            if k > 0 {
                assert(s.skip(1)[k - 1] == s[k]);
            }
        }
    } else {
        assert(s.skip(0) =~= s);
    }
}

proof fn lemma_trim_end_drops(s: Seq<char>)
    ensures
        trim_end(s).len() <= s.len(),
        trim_end(s) == s.take(trim_end(s).len() as int),
        forall|k: int| trim_end(s).len() <= k < s.len() ==> white_space(#[trigger] s[k]),
        trim_end(s).len() > 0 ==> !white_space(trim_end(s).last()),
    decreases s.len(),
{
    if s.len() > 0 && white_space(s.last()) {
        let t = s.drop_last();
        lemma_trim_end_drops(t);
        assert(t.take(trim_end(s).len() as int) =~= s.take(trim_end(s).len() as int));
        assert forall|k: int| trim_end(s).len() <= k < s.len() implies white_space(
            #[trigger] s[k],
        ) by {
            if k < s.len() - 1 {
                assert(t[k] == s[k]);
            }
        }
    } else {
        assert(s.take(s.len() as int) =~= s);
    }
}

/// Text is blank exactly when each of its characters is white space; a character of another sort
/// anywhere in it makes the difference.
pub proof fn law_blank_text_is_white_space(a: Seq<char>, c: char, b: Seq<char>)
    ensures
        is_blank(Seq::<char>::empty()),
        is_blank(a + seq![c] + b) <==> is_blank(a) && white_space(c) && is_blank(b),
{
    let all = a + seq![c] + b;
    if is_blank(all) {
        assert forall|i: int| 0 <= i < a.len() implies white_space(#[trigger] a[i]) by {
            assert(all[i] == a[i]);
        }
        assert(all[a.len() as int] == c);
        assert forall|i: int| 0 <= i < b.len() implies white_space(#[trigger] b[i]) by {
            assert(all[a.len() + 1 + i] == b[i]);
        }
    }
    if is_blank(a) && white_space(c) && is_blank(b) {
        assert forall|i: int| 0 <= i < all.len() implies white_space(#[trigger] all[i]) by {
            if i < a.len() {
                assert(all[i] == a[i]);
            } else if i > a.len() {
                assert(all[i] == b[i - a.len() - 1]);
            }
        }
    }
}

/// Joining puts the separator between parts and nowhere else: two lists of parts, joined, stand
/// around one separator, and a single part stands alone.
pub proof fn law_join_puts_the_separator_between(
    a: Seq<Seq<char>>,
    b: Seq<Seq<char>>,
    part: Seq<char>,
    sep: Seq<char>,
)
    requires
        a.len() > 0,
        b.len() > 0,
    ensures
        join(Seq::<Seq<char>>::empty(), sep).len() == 0,
        join(seq![part], sep) == part,
        join(a + b, sep) == join(a, sep) + sep + join(b, sep),
    decreases b.len(),
{
    let all = a + b;
    assert(all.drop_last() =~= a + b.drop_last());
    assert(all.last() == b.last());
    if b.len() == 1 {
        assert(a + b.drop_last() =~= a);
    } else {
        law_join_puts_the_separator_between(a, b.drop_last(), part, sep);
        assert(join(a, sep) + sep + join(b.drop_last(), sep) + sep + b.last() =~= join(a, sep) + sep
            + (join(b.drop_last(), sep) + sep + b.last()));
    }
}

/// An optional string stands for its own text, whatever that text is, and the first of two optional
/// texts goes before the second.
pub proof fn law_optional_texts_are_themselves(
    owned: String,
    borrowed: &str,
    a: Seq<char>,
    b: Option<Seq<char>>,
)
    ensures
        opt_text(Some(owned)) == Some(owned@),
        opt_text(None) == None::<Seq<char>>,
        opt_str(Some(borrowed)) == Some(borrowed@),
        opt_str(None) == None::<Seq<char>>,
        first_of(Some(a), b) == Some(a),
        first_of(None, b) == b,
{
}

} // verus!
