//! Small shared helpers: string building, output paths, and the queries
//! the library needs from the machine it runs on.

pub mod platform;

use vstd::prelude::*;

use crate::generations::is_digit;

verus! {

/// Relies on `String::push`: appends one character to the string.
#[verifier::external_body]
pub(crate) fn push_char(s: &mut String, c: char)
    ensures
        final(s)@ == old(s)@.push(c),
{
    s.push(c);
}

/// Whether two texts hold the same characters.
pub fn str_eq(a: &str, b: &str) -> (r: bool)
    ensures
        r == (a@ == b@),
{
    let n = a.unicode_len();
    let m = b.unicode_len();
    if n != m {
        return false;
    }
    let mut i: usize = 0;
    while i < n
        invariant
            i <= n,
            n == a@.len() && n == b@.len(),
            forall|j: int| 0 <= j < i ==> a@[j] == b@[j],
        decreases n - i,
    {
        if a.get_char(i) != b.get_char(i) {
            return false;
        }
        i = i + 1;
    }
    proof {
        assert(a@ =~= b@);
    }
    true
}

/// Joins a path and one further component with the path separator.
pub fn path_join(base: &str, component: &str) -> (r: String)
    ensures
        r@ == base@ + seq!['/'] + component@,
{
    let mut r = String::from_str(base);
    push_char(&mut r, '/');
    r.append(component);
    proof {
        assert(r@ =~= base@ + seq!['/'] + component@);
    }
    r
}

/// The on-disk home of a build output: tempfile's temporary directory,
/// declared so the keep-alive handle can be carried through the pipeline.
#[verifier::external_type_specification]
#[verifier::external_body]
pub struct ExTempDir(tempfile::TempDir);

/// A build-output location that may be backed by temporary storage.  The
/// backing storage must stay alive until the last pipeline state that
/// reads the path has completed: the owner keeps the value itself alive
/// until then.
pub trait MaybeTempPath {
    /// The materialised path.
    spec fn path_model(&self) -> Seq<char>;

    /// Returns the materialised path.
    fn get_path(&self) -> (r: &String)
        ensures
            r@ == self.path_model(),
    ;
}

/// A caller-supplied output link: nothing to keep alive.
#[derive(Debug)]
pub struct PlainPath {
    pub path: String,
}

impl MaybeTempPath for PlainPath {
    open spec fn path_model(&self) -> Seq<char> {
        self.path@
    }

    fn get_path(&self) -> (r: &String) {
        &self.path
    }
}

/// An output link inside an owned temporary directory; dropping the value
/// reclaims the storage, so it is dropped only after the last consumer.
#[derive(Debug)]
pub struct EphemeralPath {
    pub path: String,
    pub dir: tempfile::TempDir,
}

impl MaybeTempPath for EphemeralPath {
    open spec fn path_model(&self) -> Seq<char> {
        self.path@
    }

    fn get_path(&self) -> (r: &String) {
        &self.path
    }
}

/// Relies on `hostname::get`: the machine's hostname.  The value depends
/// on the machine, so nothing is promised of it; `None` when the name
/// cannot be read or is not valid text.
#[verifier::external_body]
pub fn get_hostname() -> (r: Option<String>) {
    hostname::get().ok().and_then(|h| h.into_string().ok())
}

/// Relies on `nix::unistd::Uid::effective` and `Uid::is_root`: whether
/// the process runs with the root user id.  The value depends on the
/// process, so nothing is promised of it.
#[verifier::external_body]
pub(crate) fn effective_uid_is_root() -> (r: bool) {
    nix::unistd::Uid::effective().is_root()
}

/// The ASCII lowercase form of a character; everything else unchanged.
pub open spec fn lower_ascii(c: char) -> char {
    if c == 'L' {
        'l'
    } else if c == 'I' {
        'i'
    } else if c == 'X' {
        'x'
    } else {
        c
    }
}

/// Whether the text contains the letters `lix`, in either case,
/// consecutively.
pub open spec fn mentions_lix(s: Seq<char>) -> bool {
    exists|i: int|
        0 <= i && i + 3 <= s.len() && lower_ascii(#[trigger] s[i]) == 'l' && lower_ascii(s[i + 1])
            == 'i' && lower_ascii(s[i + 2]) == 'x'
}

/// Whether the builder's version output identifies the Lix fork: the
/// letters `lix` occur in it, compared without regard to letter case.
pub fn is_lix(version_output: &str) -> (r: bool)
    ensures
        r == mentions_lix(version_output@),
{
    let n = version_output.unicode_len();
    if n < 3 {
        return false;
    }
    let mut i: usize = 0;
    while i < n - 2
        invariant
            n == version_output@.len(),
            3 <= n,
            i <= n - 2,
            forall|j: int|
                0 <= j < i ==> !(lower_ascii(#[trigger] version_output@[j]) == 'l' && lower_ascii(
                    version_output@[j + 1],
                ) == 'i' && lower_ascii(version_output@[j + 2]) == 'x'),
        decreases n - i,
    {
        let a = version_output.get_char(i);
        let b = version_output.get_char(i + 1);
        let c = version_output.get_char(i + 2);
        let la = if a == 'L' {
            'l'
        } else {
            a
        };
        let lb = if b == 'I' {
            'i'
        } else {
            b
        };
        let lc = if c == 'X' {
            'x'
        } else {
            c
        };
        if la == 'l' && lb == 'i' && lc == 'x' {
            assert(lower_ascii(version_output@[i as int]) == 'l');
            assert(mentions_lix(version_output@));
            return true;
        }
        i = i + 1;
    }
    assert(!mentions_lix(version_output@));
    false
}

/// The first line of a command's output: everything before the first
/// newline, or the whole text when none occurs.
pub open spec fn first_line_of(s: Seq<char>) -> Seq<char> {
    if exists|i: int| 0 <= i < s.len() && s[i] == '\n' {
        s.subrange(0, choose|i: int| 0 <= i < s.len() && s[i] == '\n' && (forall|j: int| 0 <= j < i ==> s[j] != '\n'))
    } else {
        s
    }
}

/// A version match at position `i` with digit-run lengths `a`, `b`, `c`:
/// digits, a dot, digits, a dot, digits.
pub open spec fn version_match_at(s: Seq<char>, i: int, a: int, b: int, c: int) -> bool {
    &&& a >= 1 && b >= 1 && c >= 1
    &&& i >= 0
    &&& i + a + b + c + 2 <= s.len()
    &&& forall|k: int| i <= k < i + a ==> is_digit(#[trigger] s[k])
    &&& s[i + a] == '.'
    &&& forall|k: int| i + a + 1 <= k < i + a + 1 + b ==> is_digit(#[trigger] s[k])
    &&& s[i + a + 1 + b] == '.'
    &&& forall|k: int| i + a + b + 2 <= k < i + a + b + 2 + c ==> is_digit(#[trigger] s[k])
}

/// Whether some version match begins at position `i`.
pub open spec fn version_starts_at(s: Seq<char>, i: int) -> bool {
    exists|a: int, b: int, c: int| version_match_at(s, i, a, b, c)
}

/// Extracts the version from the builder's version output: the first
/// `digits.digits.digits` stretch of the output's first line, with the
/// last digit run taken as long as possible.  `None` when the first line
/// holds no such stretch.
pub fn get_nix_version(output: &str) -> (r: Option<String>)
    ensures
        r is None ==> forall|i: int| !version_starts_at(first_line_of(output@), i),
        r is Some ==> exists|i: int, a: int, b: int, c: int|
            {
                &&& version_match_at(first_line_of(output@), i, a, b, c)
                &&& forall|j: int| 0 <= j < i ==> !version_starts_at(first_line_of(output@), j)
                &&& (i + a + b + c + 2 == first_line_of(output@).len() || !is_digit(
                    first_line_of(output@)[i + a + b + c + 2],
                ))
                &&& r->0@ == first_line_of(output@).subrange(i, i + a + b + c + 2)
            },
{
    let n = output.unicode_len();
    let mut line_end: usize = 0;
    while line_end < n && output.get_char(line_end) != '\n'
        invariant
            line_end <= n,
            n == output@.len(),
            forall|j: int| 0 <= j < line_end ==> output@[j] != '\n',
        decreases n - line_end,
    {
        line_end = line_end + 1;
    }
    let line = output.substring_char(0, line_end);
    proof {
        if line_end < n {
            assert(output@[line_end as int] == '\n');
            let w = choose|i: int|
                0 <= i < output@.len() && output@[i] == '\n' && (forall|j: int|
                    0 <= j < i ==> output@[j] != '\n');
            assert(w == line_end as int);
            assert(first_line_of(output@) == output@.subrange(0, line_end as int));
        } else {
            assert(!(exists|i: int| 0 <= i < output@.len() && output@[i] == '\n'));
            assert(output@.subrange(0, n as int) =~= output@);
        }
        assert(line@ == first_line_of(output@));
    }
    let m = line.unicode_len();
    let mut i: usize = 0;
    while i < m
        invariant
            i <= m,
            m == line@.len(),
            line@ == first_line_of(output@),
            forall|j: int| 0 <= j < i ==> !version_starts_at(line@, j),
        decreases m - i,
    {
        match try_version_at(line, i) {
            Some(end) => {
                let piece = line.substring_char(i, end);
                return Some(String::from_str(piece));
            },
            None => {
            },
        }
        i = i + 1;
    }
    None
}

/// Tries to read `digits.digits.digits` starting exactly at `i`, taking
/// the final digit run as long as possible; returns the end position.
fn try_version_at(line: &str, i: usize) -> (r: Option<usize>)
    requires
        i < line@.len(),
    ensures
        r is None ==> !version_starts_at(line@, i as int),
        r is Some ==> exists|a: int, b: int, c: int|
            {
                &&& version_match_at(line@, i as int, a, b, c)
                &&& r->0 == i + a + b + c + 2
                &&& (r->0 == line@.len() || !is_digit(line@[r->0 as int]))
            },
{
    let n = line.unicode_len();
    let mut p: usize = i;
    while p < n && is_digit_char(line.get_char(p))
        invariant
            i <= p <= n,
            n == line@.len(),
            forall|k: int| i <= k < p ==> is_digit(#[trigger] line@[k]),
        decreases n - p,
    {
        p = p + 1;
    }
    let a = p - i;
    if a == 0 || p >= n || line.get_char(p) != '.' {
        proof {
            if version_starts_at(line@, i as int) {
                let (va, vb, vc) = choose|va: int, vb: int, vc: int|
                    version_match_at(line@, i as int, va, vb, vc);
                assert(is_digit(line@[i + va]) == false);
                assert(forall|k: int| i <= k < p ==> is_digit(#[trigger] line@[k]));
                if va < a as int {
                    assert(is_digit(line@[i + va]));
                    assert(false);
                } else if va > a as int {
                    assert(is_digit(line@[i + a]) == false || p == n);
                    assert(i + va + 1 <= line@.len());
                    assert(is_digit(line@[i + a]) || line@[i + a] == '.');
                    assert(false);
                } else {
                    assert(line@[i + va] == '.');
                    assert(false);
                }
            }
        }
        return None;
    }
    let q0 = p + 1;
    let mut q: usize = q0;
    while q < n && is_digit_char(line.get_char(q))
        invariant
            q0 <= q <= n,
            n == line@.len(),
            forall|k: int| q0 <= k < q ==> is_digit(#[trigger] line@[k]),
        decreases n - q,
    {
        q = q + 1;
    }
    let b = q - q0;
    if b == 0 || q >= n || line.get_char(q) != '.' {
        proof {
            if version_starts_at(line@, i as int) {
                let (va, vb, vc) = choose|va: int, vb: int, vc: int|
                    version_match_at(line@, i as int, va, vb, vc);
                assert(va == a as int) by {
                    if va < a as int {
                        assert(is_digit(line@[i + va]));
                    }
                    if va > a as int {
                        assert(line@[i + (a as int)] == '.');
                        assert(is_digit(line@[i + (a as int)]) == false);
                    }
                }
                assert(vb == b as int) by {
                    if vb < b as int {
                        assert(is_digit(line@[i + va + 1 + vb]));
                    }
                    if vb > b as int {
                        assert(q < n ==> is_digit(line@[q as int]) == false);
                        assert(is_digit(line@[q0 + b]) || line@[q0 + b] == '.');
                        assert(false);
                    }
                }
                assert(line@[q as int] == '.' && q < n);
                assert(false);
            }
        }
        return None;
    }
    let r0 = q + 1;
    let mut t: usize = r0;
    while t < n && is_digit_char(line.get_char(t))
        invariant
            r0 <= t <= n,
            n == line@.len(),
            forall|k: int| r0 <= k < t ==> is_digit(#[trigger] line@[k]),
        decreases n - t,
    {
        t = t + 1;
    }
    let c = t - r0;
    if c == 0 {
        proof {
            if version_starts_at(line@, i as int) {
                let (va, vb, vc) = choose|va: int, vb: int, vc: int|
                    version_match_at(line@, i as int, va, vb, vc);
                assert(va == a as int) by {
                    if va < a as int {
                        assert(is_digit(line@[i + va]));
                    }
                    if va > a as int {
                        assert(is_digit(line@[i + (a as int)]) == false);
                    }
                }
                assert(vb == b as int) by {
                    if vb < b as int {
                        assert(is_digit(line@[i + va + 1 + vb]));
                    }
                    if vb > b as int {
                        assert(is_digit(line@[q0 + b]) == false);
                    }
                }
                assert(is_digit(line@[r0 as int]));
                assert(false);
            }
        }
        return None;
    }
    proof {
        assert(version_match_at(line@, i as int, a as int, b as int, c as int));
        assert(t == n || is_digit(line@[t as int]) == false);
    }
    Some(t)
}

/// Whether a character is a decimal digit.
pub fn is_digit_char(c: char) -> (r: bool)
    ensures
        r == is_digit(c),
{
    c >= '0' && c <= '9'
}

/// One step of whitespace tokenisation: finished tokens and the token
/// being read.
pub open spec fn tokens_from(
    res: Seq<Seq<char>>,
    cur: Seq<char>,
    s: Seq<char>,
) -> (Seq<Seq<char>>, Seq<char>)
    decreases s.len(),
{
    if s.len() == 0 {
        (res, cur)
    } else {
        let c = s.first();
        if crate::installable::is_ws_char(c) {
            if cur.len() > 0 {
                tokens_from(res.push(cur), Seq::empty(), s.drop_first())
            } else {
                tokens_from(res, cur, s.drop_first())
            }
        } else {
            tokens_from(res, cur.push(c), s.drop_first())
        }
    }
}

/// The whitespace-separated tokens of a text: maximal stretches free of
/// ASCII whitespace, in order.
pub open spec fn ws_tokens(s: Seq<char>) -> Seq<Seq<char>> {
    let (res, cur) = tokens_from(Seq::empty(), Seq::empty(), s);
    if cur.len() > 0 {
        res.push(cur)
    } else {
        res
    }
}

/// Tokenising piecewise equals tokenising whole.
proof fn lemma_tokens_from_concat(res: Seq<Seq<char>>, cur: Seq<char>, s1: Seq<char>, s2: Seq<char>)
    ensures
        tokens_from(res, cur, s1 + s2) == {
            let (r1, c1) = tokens_from(res, cur, s1);
            tokens_from(r1, c1, s2)
        },
    decreases s1.len(),
{
    if s1.len() == 0 {
        assert(s1 + s2 == s2);
    } else {
        assert((s1 + s2).first() == s1.first());
        assert((s1 + s2).drop_first() == s1.drop_first() + s2);
        let c = s1.first();
        if crate::installable::is_ws_char(c) {
            if cur.len() > 0 {
                lemma_tokens_from_concat(res.push(cur), Seq::empty(), s1.drop_first(), s2);
            } else {
                lemma_tokens_from_concat(res, cur, s1.drop_first(), s2);
            }
        } else {
            lemma_tokens_from_concat(res, cur.push(c), s1.drop_first(), s2);
        }
    }
}

/// Tokenising one more character advances the state by one step.
proof fn lemma_tokens_from_snoc(res: Seq<Seq<char>>, cur: Seq<char>, s: Seq<char>, c: char)
    ensures
        tokens_from(res, cur, s.push(c)) == {
            let (r1, c1) = tokens_from(res, cur, s);
            if crate::installable::is_ws_char(c) {
                if c1.len() > 0 {
                    (r1.push(c1), Seq::<char>::empty())
                } else {
                    (r1, c1)
                }
            } else {
                (r1, c1.push(c))
            }
        },
{
    let single = seq![c];
    assert(s.push(c) =~= s + single);
    lemma_tokens_from_concat(res, cur, s, single);
    let (r1, c1) = tokens_from(res, cur, s);
    assert(single.first() == c);
    assert(single.drop_first() =~= Seq::<char>::empty());
    if crate::installable::is_ws_char(c) {
        if c1.len() > 0 {
            assert(tokens_from(r1, c1, single) == tokens_from(
                r1.push(c1),
                Seq::<char>::empty(),
                single.drop_first(),
            ));
        } else {
            assert(tokens_from(r1, c1, single) == tokens_from(r1, c1, single.drop_first()));
        }
    } else {
        assert(tokens_from(r1, c1, single) == tokens_from(r1, c1.push(c), single.drop_first()));
    }
}

/// Splits a command's output into its whitespace-separated tokens: the
/// enabled experimental features, one per token.
pub fn get_nix_experimental_features(output: &str) -> (r: Vec<String>)
    ensures
        r.deep_view() == ws_tokens(output@),
{
    let n = output.unicode_len();
    let mut res: Vec<String> = Vec::new();
    let mut cur: String = String::new();
    let mut i: usize = 0;
    proof {
        assert(output@.subrange(0, 0) =~= Seq::<char>::empty());
    }
    while i < n
        invariant
            i <= n,
            n == output@.len(),
            (res.deep_view(), cur@) == tokens_from(
                Seq::empty(),
                Seq::empty(),
                output@.subrange(0, i as int),
            ),
        decreases n - i,
    {
        let ghost prefix = output@.subrange(0, i as int);
        let c = output.get_char(i);
        proof {
            assert(output@.subrange(0, i + 1) =~= prefix.push(c));
            lemma_tokens_from_snoc(Seq::empty(), Seq::empty(), prefix, c);
        }
        if c == ' ' || c == '\t' || c == '\n' || c == '\r' {
            if cur.as_str().unicode_len() > 0 {
                let ghost before = res.deep_view();
                let ghost done = cur@;
                res.push(cur);
                cur = String::new();
                proof {
                    assert(res.deep_view() =~= before.push(done));
                }
            }
        } else {
            push_char(&mut cur, c);
        }
        i = i + 1;
    }
    proof {
        assert(output@.subrange(0, n as int) =~= output@);
    }
    if cur.as_str().unicode_len() > 0 {
        let ghost before = res.deep_view();
        let ghost done = cur@;
        res.push(cur);
        proof {
            assert(res.deep_view() =~= before.push(done));
        }
    }
    res
}

/// Whether a list of names contains this name.
pub open spec fn names_contain(names: Seq<Seq<char>>, name: Seq<char>) -> bool {
    exists|i: int| 0 <= i < names.len() && names[i] == name
}

/// Whether every wanted feature occurs among the enabled ones.
pub fn has_all_experimental_features(features: &Vec<String>, enabled: &Vec<String>) -> (r: bool)
    ensures
        r == forall|i: int|
            0 <= i < features.deep_view().len() ==> names_contain(
                enabled.deep_view(),
                #[trigger] features.deep_view()[i],
            ),
{
    let mut i: usize = 0;
    while i < features.len()
        invariant
            i <= features@.len(),
            forall|j: int|
                0 <= j < i ==> names_contain(enabled.deep_view(), #[trigger] features.deep_view()[j]),
        decreases features@.len() - i,
    {
        if !name_listed(&features[i], enabled) {
            assert(!names_contain(enabled.deep_view(), features.deep_view()[i as int]));
            return false;
        }
        i = i + 1;
    }
    true
}

/// The wanted names that do not occur among the enabled ones, in order.
pub open spec fn missing_names(wanted: Seq<Seq<char>>, enabled: Seq<Seq<char>>) -> Seq<Seq<char>>
    decreases wanted.len(),
{
    if wanted.len() == 0 {
        Seq::empty()
    } else if names_contain(enabled, wanted.last()) {
        missing_names(wanted.drop_last(), enabled)
    } else {
        missing_names(wanted.drop_last(), enabled).push(wanted.last())
    }
}

/// Returns the wanted features that are not enabled, in order.
pub fn get_missing_experimental_features(wanted: &Vec<String>, enabled: &Vec<String>) -> (r: Vec<
    String,
>)
    ensures
        r.deep_view() == missing_names(wanted.deep_view(), enabled.deep_view()),
{
    let ghost all = wanted.deep_view();
    let mut out: Vec<String> = Vec::new();
    let mut i: usize = 0;
    while i < wanted.len()
        invariant
            i <= wanted@.len(),
            all == wanted.deep_view(),
            out.deep_view() =~= missing_names(all.subrange(0, i as int), enabled.deep_view()),
        decreases wanted@.len() - i,
    {
        let ghost upto = all.subrange(0, i as int);
        proof {
            assert(all.subrange(0, i + 1).drop_last() =~= upto);
            assert(all.subrange(0, i + 1).last() == all[i as int]);
        }
        if !name_listed(&wanted[i], enabled) {
            let ghost before = out.deep_view();
            out.push(wanted[i].clone());
            proof {
                assert(out.deep_view() =~= before.push(all[i as int]));
            }
        }
        i = i + 1;
    }
    proof {
        assert(all.subrange(0, all.len() as int) =~= all);
    }
    out
}

/// Whether the name occurs in the list.
fn name_listed(name: &String, names: &Vec<String>) -> (r: bool)
    ensures
        r == names_contain(names.deep_view(), name@),
{
    let mut i: usize = 0;
    while i < names.len()
        invariant
            i <= names@.len(),
            forall|j: int| 0 <= j < i ==> names.deep_view()[j] != name@,
        decreases names@.len() - i,
    {
        if crate::commands::string_eq(&names[i], name) {
            assert(names.deep_view()[i as int] == name@);
            return true;
        }
        i = i + 1;
    }
    false
}

} // verus!
