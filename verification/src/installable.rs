//! Attribute-path codec and installable references.
//!
//! An attribute path addresses a configuration inside a tree of named
//! configurations.  It is written as dot-separated segments; a segment may
//! be wrapped in double quotes, in which case it may itself contain dots.
//! Whitespace around separators and around quoted segments is insignificant.

use vstd::prelude::*;

use crate::util::push_char;

verus! {

/// Whitespace that is insignificant around path separators.
pub open spec fn is_ws_char(c: char) -> bool {
    c == ' ' || c == '\t' || c == '\n' || c == '\r'
}

/// One step of the splitting scan: `res` holds the finished raw segments,
/// `cur` the one being read (quote characters kept), `q` whether the scan
/// stands inside a quoted stretch.
pub open spec fn split_from(
    res: Seq<Seq<char>>,
    cur: Seq<char>,
    q: bool,
    s: Seq<char>,
) -> (Seq<Seq<char>>, Seq<char>, bool)
    decreases s.len(),
{
    if s.len() == 0 {
        (res, cur, q)
    } else {
        let c = s.first();
        if c == '.' && !q {
            split_from(res.push(cur), Seq::empty(), false, s.drop_first())
        } else if c == '"' {
            split_from(res, cur.push(c), !q, s.drop_first())
        } else {
            split_from(res, cur.push(c), q, s.drop_first())
        }
    }
}

/// The raw segments of an input: split on every dot that stands outside
/// quotes; the quote characters themselves stay in the raw segment.
pub open spec fn raw_segments(s: Seq<char>) -> Seq<Seq<char>> {
    split_from(Seq::empty(), Seq::empty(), false, s).0.push(
        split_from(Seq::empty(), Seq::empty(), false, s).1,
    )
}

pub open spec fn drop_leading_ws(s: Seq<char>) -> Seq<char>
    decreases s.len(),
{
    if s.len() > 0 && is_ws_char(s.first()) {
        drop_leading_ws(s.drop_first())
    } else {
        s
    }
}

pub open spec fn drop_trailing_ws(s: Seq<char>) -> Seq<char>
    decreases s.len(),
{
    if s.len() > 0 && is_ws_char(s.last()) {
        drop_trailing_ws(s.drop_last())
    } else {
        s
    }
}

/// A segment with the whitespace at either end removed.
pub open spec fn trim_ws(s: Seq<char>) -> Seq<char> {
    drop_trailing_ws(drop_leading_ws(s))
}

/// A segment with every quote character removed; what stood inside quotes
/// stays verbatim.
pub open spec fn unquote(s: Seq<char>) -> Seq<char>
    decreases s.len(),
{
    if s.len() == 0 {
        Seq::empty()
    } else if s.last() == '"' {
        unquote(s.drop_last())
    } else {
        unquote(s.drop_last()).push(s.last())
    }
}

/// What a raw segment contributes to the parsed path.
pub open spec fn clean_segment_spec(s: Seq<char>) -> Seq<char> {
    unquote(trim_ws(s))
}

/// The parse of an attribute-path string: an empty input yields the empty
/// path; otherwise the raw segments, each trimmed and unquoted.  Malformed
/// quoting (an unterminated quote) never fails: the rest of the input is
/// taken as literal text for that segment.
pub open spec fn parse_spec(s: Seq<char>) -> Seq<Seq<char>> {
    if s.len() == 0 {
        Seq::empty()
    } else {
        raw_segments(s).map_values(|seg: Seq<char>| clean_segment_spec(seg))
    }
}

/// How one segment is rendered: wrapped in quotes when it contains a dot,
/// bare otherwise.
pub open spec fn join_segment_spec(s: Seq<char>) -> Seq<char> {
    if s.contains('.') {
        seq!['"'] + s + seq!['"']
    } else {
        s
    }
}

/// The rendering of a whole path: segments joined with dots.
pub open spec fn join_spec(segs: Seq<Seq<char>>) -> Seq<char>
    decreases segs.len(),
{
    if segs.len() == 0 {
        Seq::empty()
    } else if segs.len() == 1 {
        join_segment_spec(segs[0])
    } else {
        join_spec(segs.drop_last()) + seq!['.'] + join_segment_spec(segs.last())
    }
}

/// Scanning a string piecewise equals scanning it whole.
proof fn lemma_split_from_concat(
    res: Seq<Seq<char>>,
    cur: Seq<char>,
    q: bool,
    s1: Seq<char>,
    s2: Seq<char>,
)
    ensures
        split_from(res, cur, q, s1 + s2) == {
            let (r1, c1, q1) = split_from(res, cur, q, s1);
            split_from(r1, c1, q1, s2)
        },
    decreases s1.len(),
{
    if s1.len() == 0 {
        assert(s1 + s2 == s2);
    } else {
        assert((s1 + s2).first() == s1.first());
        assert((s1 + s2).drop_first() == s1.drop_first() + s2);
        let c = s1.first();
        if c == '.' && !q {
            lemma_split_from_concat(res.push(cur), Seq::empty(), false, s1.drop_first(), s2);
        } else if c == '"' {
            lemma_split_from_concat(res, cur.push(c), !q, s1.drop_first(), s2);
        } else {
            lemma_split_from_concat(res, cur.push(c), q, s1.drop_first(), s2);
        }
    }
}

/// Scanning one more character advances the state by one step.
proof fn lemma_split_from_snoc(
    res: Seq<Seq<char>>,
    cur: Seq<char>,
    q: bool,
    s: Seq<char>,
    c: char,
)
    ensures
        split_from(res, cur, q, s.push(c)) == {
            let (r1, c1, q1) = split_from(res, cur, q, s);
            if c == '.' && !q1 {
                (r1.push(c1), Seq::<char>::empty(), false)
            } else if c == '"' {
                (r1, c1.push(c), !q1)
            } else {
                (r1, c1.push(c), q1)
            }
        },
{
    let single = seq![c];
    assert(s.push(c) =~= s + single);
    lemma_split_from_concat(res, cur, q, s, single);
    let (r1, c1, q1) = split_from(res, cur, q, s);
    assert(single.len() == 1);
    assert(single.first() == c);
    assert(single.drop_first() =~= Seq::<char>::empty());
    if c == '.' && !q1 {
        assert(split_from(r1, c1, q1, single) == split_from(
            r1.push(c1),
            Seq::<char>::empty(),
            false,
            single.drop_first(),
        ));
    } else if c == '"' {
        assert(split_from(r1, c1, q1, single) == split_from(
            r1,
            c1.push(c),
            !q1,
            single.drop_first(),
        ));
    } else {
        assert(split_from(r1, c1, q1, single) == split_from(
            r1,
            c1.push(c),
            q1,
            single.drop_first(),
        ));
    }
}

/// Parses a dotted, quote-escaped attribute path.
///
/// Splits on dots that stand outside double quotes; a quoted segment may
/// contain dots and is kept verbatim; whitespace at either end of a segment
/// (outside quotes) is stripped.  An empty input yields an empty path.
/// An unterminated quote never fails: the rest of the input is literal
/// text for its segment.
pub fn parse_attribute(s: &str) -> (r: Vec<String>)
    ensures
        r.deep_view() == parse_spec(s@),
{
    let n = s.unicode_len();
    let mut out: Vec<String> = Vec::new();
    if n == 0 {
        assert(out.deep_view() =~= parse_spec(s@));
        return out;
    }
    let mut raws: Vec<String> = Vec::new();
    let mut cur: String = String::new();
    let mut q: bool = false;
    let mut i: usize = 0;
    proof {
        assert(s@.subrange(0, 0) =~= Seq::<char>::empty());
    }
    while i < n
        invariant
            i <= n,
            n == s@.len(),
            (raws.deep_view(), cur@, q) == split_from(
                Seq::empty(),
                Seq::empty(),
                false,
                s@.subrange(0, i as int),
            ),
        decreases n - i,
    {
        let ghost prefix = s@.subrange(0, i as int);
        let c = s.get_char(i);
        proof {
            assert(s@.subrange(0, i + 1) =~= prefix.push(c));
            lemma_split_from_snoc(Seq::empty(), Seq::empty(), false, prefix, c);
        }
        if c == '.' && !q {
            let ghost old_raws = raws.deep_view();
            let ghost old_cur = cur@;
            raws.push(cur);
            cur = String::new();
            q = false;
            proof {
                assert(raws.deep_view() =~= old_raws.push(old_cur));
            }
        } else if c == '"' {
            push_char(&mut cur, c);
            q = !q;
        } else {
            push_char(&mut cur, c);
        }
        i = i + 1;
    }
    proof {
        assert(s@.subrange(0, n as int) =~= s@);
    }
    let ghost final_raws = raws.deep_view().push(cur@);
    raws.push(cur);
    proof {
        assert(raws.deep_view() =~= final_raws);
        assert(raws.deep_view() == raw_segments(s@));
    }
    let mut k: usize = 0;
    while k < raws.len()
        invariant
            k <= raws.len(),
            raws.deep_view() == raw_segments(s@),
            s@.len() > 0,
            out.deep_view() =~= raw_segments(s@).subrange(0, k as int).map_values(
                |seg: Seq<char>| clean_segment_spec(seg),
            ),
        decreases raws.len() - k,
    {
        let ghost old_out = out.deep_view();
        let piece = clean_segment(&raws[k]);
        out.push(piece);
        proof {
            assert(out.deep_view() =~= old_out.push(clean_segment_spec(raws.deep_view()[k as int])));
            assert(raw_segments(s@).subrange(0, k + 1) =~= raw_segments(s@).subrange(
                0,
                k as int,
            ).push(raw_segments(s@)[k as int]));
            assert(out.deep_view() =~= raw_segments(s@).subrange(0, k + 1).map_values(
                |seg: Seq<char>| clean_segment_spec(seg),
            ));
        }
        k = k + 1;
    }
    proof {
        assert(raw_segments(s@).subrange(0, raw_segments(s@).len() as int) =~= raw_segments(s@));
    }
    out
}

/// Trims whitespace from both ends of a segment and removes its quote
/// characters.
fn clean_segment(s: &String) -> (r: String)
    ensures
        r@ == clean_segment_spec(s@),
{
    let trimmed = trim_string(s);
    let m = trimmed.as_str().unicode_len();
    let mut r = String::new();
    let mut i: usize = 0;
    proof {
        assert(trimmed@.subrange(0, 0) =~= Seq::<char>::empty());
    }
    while i < m
        invariant
            i <= m,
            m == trimmed@.len(),
            r@ == unquote(trimmed@.subrange(0, i as int)),
        decreases m - i,
    {
        let c = trimmed.as_str().get_char(i);
        proof {
            let prefix = trimmed@.subrange(0, i as int);
            assert(trimmed@.subrange(0, i + 1) =~= prefix.push(c));
            assert(prefix.push(c).drop_last() =~= prefix);
        }
        if c != '"' {
            push_char(&mut r, c);
        }
        i = i + 1;
    }
    proof {
        assert(trimmed@.subrange(0, m as int) =~= trimmed@);
    }
    r
}

/// Dropping leading whitespace skips exactly the whitespace prefix.
proof fn lemma_drop_leading_ws_subrange(s: Seq<char>, a: int)
    requires
        0 <= a <= s.len(),
        forall|j: int| 0 <= j < a ==> is_ws_char(s[j]),
        a == s.len() || !is_ws_char(s[a]),
    ensures
        drop_leading_ws(s) == s.subrange(a, s.len() as int),
    decreases a,
{
    if a == 0 {
        assert(s.subrange(0, s.len() as int) =~= s);
        if s.len() > 0 {
            assert(!is_ws_char(s.first()));
        }
    } else {
        assert(is_ws_char(s.first()));
        let t = s.drop_first();
        assert(t =~= s.subrange(1, s.len() as int));
        assert(forall|j: int| 0 <= j < a - 1 ==> is_ws_char(#[trigger] t[j]));
        lemma_drop_leading_ws_subrange(t, a - 1);
        assert(t.subrange(a - 1, t.len() as int) =~= s.subrange(a, s.len() as int));
    }
}

/// Dropping trailing whitespace cuts exactly the whitespace suffix.
proof fn lemma_drop_trailing_ws_subrange(s: Seq<char>, b: int)
    requires
        0 <= b <= s.len(),
        forall|j: int| b <= j < s.len() ==> is_ws_char(s[j]),
        b == 0 || !is_ws_char(s[b - 1]),
    ensures
        drop_trailing_ws(s) == s.subrange(0, b),
    decreases s.len() - b,
{
    if b == s.len() {
        assert(s.subrange(0, s.len() as int) =~= s);
        if s.len() > 0 {
            assert(!is_ws_char(s.last()));
        }
    } else {
        assert(is_ws_char(s.last()));
        let t = s.drop_last();
        assert(t =~= s.subrange(0, s.len() - 1));
        lemma_drop_trailing_ws_subrange(t, b);
        assert(t.subrange(0, b) =~= s.subrange(0, b));
    }
}

/// Trims the whitespace at both ends of a string.
pub fn trim_string(s: &String) -> (r: String)
    ensures
        r@ == trim_ws(s@),
{
    let n = s.as_str().unicode_len();
    let mut a: usize = 0;
    while a < n && is_ws(s.as_str().get_char(a))
        invariant
            a <= n,
            n == s@.len(),
            forall|j: int| 0 <= j < a ==> is_ws_char(s@[j]),
        decreases n - a,
    {
        a = a + 1;
    }
    proof {
        lemma_drop_leading_ws_subrange(s@, a as int);
    }
    if a == n {
        let r = String::new();
        proof {
            assert(drop_leading_ws(s@) =~= Seq::<char>::empty());
            assert(trim_ws(s@) =~= Seq::<char>::empty());
        }
        return r;
    }
    let mut b: usize = n;
    while b > a && is_ws(s.as_str().get_char(b - 1))
        invariant
            a <= b <= n,
            n == s@.len(),
            forall|j: int| b <= j < n ==> is_ws_char(s@[j]),
        decreases b,
    {
        b = b - 1;
    }
    // the scan stopped at a non-whitespace character, so the range is not empty
    proof {
        let ghost tail = drop_leading_ws(s@);
        assert(tail == s@.subrange(a as int, n as int));
        assert(forall|j: int| b - a <= j < tail.len() ==> is_ws_char(#[trigger] tail[j]));
        if b == a {
            assert(!is_ws_char(s@[a as int]));
            assert(is_ws_char(tail[0]));
            assert(false);
        }
        assert(!is_ws_char(tail[b - a - 1]));
        lemma_drop_trailing_ws_subrange(tail, b - a);
        assert(tail.subrange(0, b - a) =~= s@.subrange(a as int, b as int));
    }
    let piece = s.as_str().substring_char(a, b);
    String::from_str(piece)
}

/// Whether a character is insignificant whitespace around separators.
fn is_ws(c: char) -> (r: bool)
    ensures
        r == is_ws_char(c),
{
    c == ' ' || c == '\t' || c == '\n' || c == '\r'
}

/// Whether a segment contains a literal dot.
fn contains_dot(s: &String) -> (r: bool)
    ensures
        r == s@.contains('.'),
{
    let n = s.as_str().unicode_len();
    let mut i: usize = 0;
    while i < n
        invariant
            i <= n,
            n == s@.len(),
            forall|j: int| 0 <= j < i ==> s@[j] != '.',
        decreases n - i,
    {
        if s.as_str().get_char(i) == '.' {
            assert(s@.contains('.'));
            return true;
        }
        i = i + 1;
    }
    assert(!s@.contains('.'));
    false
}

/// Renders an attribute path as one string: a segment containing a dot is
/// wrapped in double quotes, every other segment stands bare, and segments
/// are joined with dots.
pub fn join_attribute(segments: &Vec<String>) -> (r: String)
    ensures
        r@ == join_spec(segments.deep_view()),
{
    let ghost all = segments.deep_view();
    let mut r = String::new();
    let mut k: usize = 0;
    while k < segments.len()
        invariant
            k <= segments.len(),
            all == segments.deep_view(),
            r@ == join_spec(all.subrange(0, k as int)),
        decreases segments.len() - k,
    {
        if k > 0 {
            push_char(&mut r, '.');
        }
        let seg = &segments[k];
        if contains_dot(seg) {
            push_char(&mut r, '"');
            r.append(seg.as_str());
            push_char(&mut r, '"');
            proof {
                assert(join_segment_spec(all[k as int]) =~= seq!['"'] + all[k as int]
                    + seq!['"']);
            }
        } else {
            r.append(seg.as_str());
        }
        proof {
            let upto = all.subrange(0, k + 1);
            assert(upto.drop_last() =~= all.subrange(0, k as int));
            assert(upto.last() == all[k as int]);
            if k == 0 {
                assert(join_spec(upto) == join_segment_spec(all[0]));
                assert(r@ =~= join_segment_spec(all[0]));
            } else {
                assert(join_spec(upto) == join_spec(all.subrange(0, k as int)) + seq!['.']
                    + join_segment_spec(all[k as int]));
                assert(r@ =~= join_spec(upto));
            }
        }
        k = k + 1;
    }
    proof {
        assert(all.subrange(0, all.len() as int) =~= all);
    }
    r
}

/// Scanning text that holds no quote and, outside quotes, no dot only
/// extends the current raw segment.
proof fn lemma_split_inert(res: Seq<Seq<char>>, cur: Seq<char>, q: bool, s: Seq<char>)
    requires
        forall|i: int| 0 <= i < s.len() ==> s[i] != '"',
        forall|i: int| 0 <= i < s.len() ==> q || s[i] != '.',
    ensures
        split_from(res, cur, q, s) == (res, cur + s, q),
    decreases s.len(),
{
    if s.len() == 0 {
        assert(cur + s =~= cur);
    } else {
        let c = s.first();
        lemma_split_inert(res, cur.push(c), q, s.drop_first());
        assert(cur.push(c) + s.drop_first() =~= cur + s);
    }
}

/// Scanning one rendered segment yields exactly that rendered text as the
/// current raw segment.
proof fn lemma_split_join_segment(res: Seq<Seq<char>>, seg: Seq<char>)
    requires
        !seg.contains('"'),
    ensures
        split_from(res, Seq::empty(), false, join_segment_spec(seg)) == (
            res,
            join_segment_spec(seg),
            false,
        ),
{
    assert(forall|i: int| 0 <= i < seg.len() ==> seg[i] != '"');
    if seg.contains('.') {
        let quote = seq!['"'];
        let opened = quote + seg;
        assert(join_segment_spec(seg) =~= opened.push('"'));
        lemma_split_from_snoc(res, Seq::empty(), false, opened, '"');
        lemma_split_from_concat(res, Seq::empty(), false, quote, seg);
        assert(quote.first() == '"');
        assert(quote.drop_first() =~= Seq::<char>::empty());
        assert(split_from(res, Seq::empty(), false, quote) == split_from(
            res,
            Seq::<char>::empty().push('"'),
            true,
            quote.drop_first(),
        ));
        assert(split_from(res, Seq::empty(), false, quote) == (
            res,
            Seq::<char>::empty().push('"'),
            true,
        ));
        lemma_split_inert(res, Seq::<char>::empty().push('"'), true, seg);
        assert(Seq::<char>::empty().push('"') + seg =~= opened);
        assert(opened.push('"') =~= join_segment_spec(seg));
    } else {
        lemma_split_inert(res, Seq::empty(), false, seg);
        assert(Seq::<char>::empty() + seg =~= seg);
    }
}

/// Scanning a whole rendered path yields the rendered segments as the raw
/// segments, in order.
proof fn lemma_split_of_join(segs: Seq<Seq<char>>)
    requires
        segs.len() > 0,
        forall|i: int| 0 <= i < segs.len() ==> !(#[trigger] segs[i]).contains('"'),
    ensures
        split_from(Seq::empty(), Seq::empty(), false, join_spec(segs)) == (
            segs.drop_last().map_values(|g: Seq<char>| join_segment_spec(g)),
            join_segment_spec(segs.last()),
            false,
        ),
    decreases segs.len(),
{
    let f = |g: Seq<char>| join_segment_spec(g);
    if segs.len() == 1 {
        lemma_split_join_segment(Seq::empty(), segs[0]);
        assert(segs.drop_last().map_values(f) =~= Seq::<Seq<char>>::empty());
    } else {
        let front = segs.drop_last();
        let dot = seq!['.'];
        let tail = join_segment_spec(segs.last());
        assert(join_spec(segs) == join_spec(front) + dot + tail);
        lemma_split_of_join(front);
        lemma_split_from_concat(Seq::empty(), Seq::empty(), false, join_spec(front), dot + tail);
        assert((join_spec(front) + dot) + tail =~= join_spec(front) + (dot + tail));
        let mid_res = front.drop_last().map_values(f);
        let mid_cur = join_segment_spec(front.last());
        lemma_split_from_concat(mid_res, mid_cur, false, dot, tail);
        assert(dot.first() == '.');
        assert(dot.drop_first() =~= Seq::<char>::empty());
        assert(split_from(mid_res, mid_cur, false, dot) == split_from(
            mid_res.push(mid_cur),
            Seq::<char>::empty(),
            false,
            dot.drop_first(),
        ));
        assert(split_from(mid_res, mid_cur, false, dot) == (
            mid_res.push(mid_cur),
            Seq::<char>::empty(),
            false,
        ));
        lemma_split_join_segment(mid_res.push(mid_cur), segs.last());
        assert(mid_res.push(mid_cur) =~= front.map_values(f));
    }
}

/// Removing quote characters from quote-free text changes nothing.
proof fn lemma_unquote_id(s: Seq<char>)
    requires
        !s.contains('"'),
    ensures
        unquote(s) == s,
    decreases s.len(),
{
    if s.len() == 0 {
        assert(unquote(s) =~= s);
    } else {
        assert(s.last() != '"');
        assert(!s.drop_last().contains('"')) by {
            if s.drop_last().contains('"') {
                let i = choose|i: int| 0 <= i < s.drop_last().len() && s.drop_last()[i] == '"';
                assert(s[i] == '"');
            }
        }
        lemma_unquote_id(s.drop_last());
        assert(s.drop_last().push(s.last()) =~= s);
    }
}

/// A leading quote character vanishes under unquoting.
proof fn lemma_unquote_prepend_quote(s: Seq<char>)
    ensures
        unquote(seq!['"'] + s) == unquote(s),
    decreases s.len(),
{
    let quoted = seq!['"'] + s;
    if s.len() == 0 {
        assert(quoted.last() == '"');
        assert(quoted.drop_last() =~= Seq::<char>::empty());
        assert(unquote(quoted) == unquote(quoted.drop_last()));
        assert(unquote(Seq::<char>::empty()) =~= Seq::<char>::empty());
        assert(unquote(s) =~= Seq::<char>::empty());
    } else {
        assert(quoted.last() == s.last());
        assert(quoted.drop_last() =~= seq!['"'] + s.drop_last());
        lemma_unquote_prepend_quote(s.drop_last());
        if s.last() == '"' {
            assert(unquote(quoted) == unquote(quoted.drop_last()));
            assert(unquote(s) == unquote(s.drop_last()));
        } else {
            assert(unquote(quoted) == unquote(quoted.drop_last()).push(s.last()));
            assert(unquote(s) == unquote(s.drop_last()).push(s.last()));
        }
    }
}

/// Unquoting a quote-wrapped, quote-free segment yields the segment.
proof fn lemma_unquote_wrapped(seg: Seq<char>)
    requires
        !seg.contains('"'),
    ensures
        unquote(seq!['"'] + seg + seq!['"']) == seg,
{
    let wrapped = seq!['"'] + seg + seq!['"'];
    assert(wrapped.last() == '"');
    assert(wrapped.drop_last() =~= seq!['"'] + seg);
    lemma_unquote_prepend_quote(seg);
    lemma_unquote_id(seg);
}

/// Cleaning the rendering of a well-formed segment recovers the segment:
/// the segment holds no quote character and, unless it is rendered quoted
/// because of a dot, no whitespace stands at its ends.
proof fn lemma_clean_of_join_segment(seg: Seq<char>)
    requires
        !seg.contains('"'),
        seg.contains('.') || seg.len() == 0 || (!is_ws_char(seg.first()) && !is_ws_char(
            seg.last(),
        )),
    ensures
        clean_segment_spec(join_segment_spec(seg)) == seg,
{
    if seg.contains('.') {
        let wrapped = seq!['"'] + seg + seq!['"'];
        assert(join_segment_spec(seg) == wrapped);
        assert(wrapped.first() == '"');
        assert(wrapped.last() == '"');
        assert(!is_ws_char('"'));
        assert(trim_ws(wrapped) == wrapped);
        lemma_unquote_wrapped(seg);
    } else {
        assert(join_segment_spec(seg) == seg);
        if seg.len() == 0 {
            assert(trim_ws(seg) =~= seg);
            assert(unquote(seg) =~= seg);
        } else {
            assert(trim_ws(seg) == seg);
            lemma_unquote_id(seg);
        }
    }
}

/// Round-trip law of the codec: rendering an attribute path and parsing the
/// result yields the original segments, for every segment list in which no
/// segment holds a quote character, no segment without a dot carries
/// whitespace at either end, and the list is not a single empty segment
/// (whose rendering is the empty string, which parses as the empty path).
pub proof fn lemma_parse_join_roundtrip(segs: Seq<Seq<char>>)
    requires
        forall|i: int| 0 <= i < segs.len() ==> !(#[trigger] segs[i]).contains('"'),
        forall|i: int|
            0 <= i < segs.len() ==> (#[trigger] segs[i]).contains('.') || segs[i].len() == 0 || (
            !is_ws_char(segs[i].first()) && !is_ws_char(segs[i].last())),
        !(segs.len() == 1 && segs[0].len() == 0),
    ensures
        parse_spec(join_spec(segs)) == segs,
{
    let f = |g: Seq<char>| join_segment_spec(g);
    let clean = |seg: Seq<char>| clean_segment_spec(seg);
    if segs.len() == 0 {
        assert(parse_spec(join_spec(segs)) =~= segs);
    } else {
        let rendered = join_spec(segs);
        assert(rendered.len() > 0) by {
            if segs.len() == 1 {
                assert(segs[0].len() > 0);
                assert(join_segment_spec(segs[0]).len() > 0);
            } else {
                assert(join_spec(segs) == join_spec(segs.drop_last()) + seq!['.']
                    + join_segment_spec(segs.last()));
            }
        }
        lemma_split_of_join(segs);
        assert(raw_segments(rendered) =~= segs.map_values(f).drop_last().push(
            join_segment_spec(segs.last()),
        )) by {
            assert(segs.drop_last().map_values(f) =~= segs.map_values(f).drop_last());
        }
        assert(raw_segments(rendered) =~= segs.map_values(f));
        assert(parse_spec(rendered) =~= segs.map_values(f).map_values(clean));
        assert forall|i: int| 0 <= i < segs.len() implies #[trigger] segs.map_values(
            f,
        ).map_values(clean)[i] == segs[i] by {
            lemma_clean_of_join_segment(segs[i]);
        }
        assert(segs.map_values(f).map_values(clean) =~= segs);
    }
}

/// Where a configuration expression lives and how to address it: a flake
/// reference, a file, an inline expression, a store path, or an already
/// resolved system pointer.  Exactly one variant is populated, and the
/// variant determines the argument shape handed to the external builder.
#[derive(Debug)]
pub enum Installable {
    Flake { reference: String, attribute: Vec<String> },
    File { path: String, attribute: Vec<String> },
    Expression { expression: String, attribute: Vec<String> },
    Store { path: String },
    System { path: String },
}

/// Mathematical content of an [`Installable`].
pub enum InstallableModel {
    Flake { reference: Seq<char>, attribute: Seq<Seq<char>> },
    File { path: Seq<char>, attribute: Seq<Seq<char>> },
    Expression { expression: Seq<char>, attribute: Seq<Seq<char>> },
    Store { path: Seq<char> },
    System { path: Seq<char> },
}

impl View for Installable {
    type V = InstallableModel;

    open spec fn view(&self) -> InstallableModel {
        match self {
            Installable::Flake { reference, attribute } => InstallableModel::Flake {
                reference: reference@,
                attribute: attribute.deep_view(),
            },
            Installable::File { path, attribute } => InstallableModel::File {
                path: path@,
                attribute: attribute.deep_view(),
            },
            Installable::Expression { expression, attribute } => InstallableModel::Expression {
                expression: expression@,
                attribute: attribute.deep_view(),
            },
            Installable::Store { path } => InstallableModel::Store { path: path@ },
            Installable::System { path } => InstallableModel::System { path: path@ },
        }
    }
}

/// The exact argument vector a model renders to; a wire contract with the
/// external builder, so count and order matter.
pub open spec fn args_of(m: InstallableModel) -> Seq<Seq<char>> {
    match m {
        InstallableModel::Flake { reference, attribute } => seq![
            reference + seq!['#'] + join_spec(attribute),
        ],
        InstallableModel::File { path, attribute } => if attribute.len() == 0 {
            seq!["--file"@, path]
        } else {
            seq!["--file"@, path, join_spec(attribute)]
        },
        InstallableModel::Expression { expression, attribute } => if attribute.len() == 0 {
            seq!["--expr"@, expression]
        } else {
            seq!["--expr"@, expression, join_spec(attribute)]
        },
        InstallableModel::Store { path } => seq![path],
        InstallableModel::System { path } => seq![path],
    }
}

impl Installable {
    /// Renders the reference as the arguments handed to the external
    /// builder: a flake becomes the single argument `reference#attribute`
    /// (with a trailing `#` even when the attribute is empty); a file or
    /// expression becomes its flag, its location, and the joined attribute
    /// (omitted entirely when empty); a store path or system pointer is a
    /// single argument.
    pub fn to_args(&self) -> (r: Vec<String>)
        ensures
            r.deep_view() == args_of(self@),
    {
        let mut out: Vec<String> = Vec::new();
        match self {
            Installable::Flake { reference, attribute } => {
                let joined = join_attribute(attribute);
                let mut arg = reference.clone();
                push_char(&mut arg, '#');
                arg.append(joined.as_str());
                out.push(arg);
                proof {
                    assert(arg@ =~= reference@ + seq!['#'] + join_spec(attribute.deep_view()));
                    assert(out.deep_view() =~= args_of(self@));
                }
            },
            Installable::File { path, attribute } => {
                out.push(String::from_str("--file"));
                out.push(path.clone());
                if attribute.len() > 0 {
                    out.push(join_attribute(attribute));
                }
                proof {
                    assert(out.deep_view() =~= args_of(self@));
                }
            },
            Installable::Expression { expression, attribute } => {
                out.push(String::from_str("--expr"));
                out.push(expression.clone());
                if attribute.len() > 0 {
                    out.push(join_attribute(attribute));
                }
                proof {
                    assert(out.deep_view() =~= args_of(self@));
                }
            },
            Installable::Store { path } => {
                out.push(path.clone());
                proof {
                    assert(out.deep_view() =~= args_of(self@));
                }
            },
            Installable::System { path } => {
                out.push(path.clone());
                proof {
                    assert(out.deep_view() =~= args_of(self@));
                }
            },
        }
        out
    }

    /// The attribute path of the reference; a store path or system pointer
    /// carries none.
    pub open spec fn attribute_model(self) -> Seq<Seq<char>> {
        match self@ {
            InstallableModel::Flake { attribute, .. } => attribute,
            InstallableModel::File { attribute, .. } => attribute,
            InstallableModel::Expression { attribute, .. } => attribute,
            InstallableModel::Store { .. } => Seq::empty(),
            InstallableModel::System { .. } => Seq::empty(),
        }
    }
}

impl Clone for Installable {
    /// An installable is duplicated with its exact content.
    fn clone(&self) -> (r: Self)
        ensures
            r@ == self@,
    {
        match self {
            Installable::Flake { reference, attribute } => {
                let r = Installable::Flake {
                    reference: reference.clone(),
                    attribute: clone_strings(attribute),
                };
                r
            },
            Installable::File { path, attribute } => {
                Installable::File { path: path.clone(), attribute: clone_strings(attribute) }
            },
            Installable::Expression { expression, attribute } => {
                Installable::Expression {
                    expression: expression.clone(),
                    attribute: clone_strings(attribute),
                }
            },
            Installable::Store { path } => Installable::Store { path: path.clone() },
            Installable::System { path } => Installable::System { path: path.clone() },
        }
    }
}

/// Copies a list of strings with its exact content.
pub fn clone_strings(v: &Vec<String>) -> (r: Vec<String>)
    ensures
        r.deep_view() == v.deep_view(),
{
    let mut out: Vec<String> = Vec::new();
    let mut i: usize = 0;
    while i < v.len()
        invariant
            i <= v.len(),
            out.deep_view() =~= v.deep_view().subrange(0, i as int),
        decreases v.len() - i,
    {
        let ghost before = out.deep_view();
        out.push(v[i].clone());
        proof {
            assert(out.deep_view() =~= before.push(v.deep_view()[i as int]));
            assert(out.deep_view() =~= v.deep_view().subrange(0, i + 1));
        }
        i = i + 1;
    }
    proof {
        assert(v.deep_view().subrange(0, v.len() as int) =~= v.deep_view());
    }
    out
}

} // verus!
