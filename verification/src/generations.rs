//! Generation registry: the immutable, numbered snapshots a profile has
//! recorded.  Generations are discovered by the caller (the directory scan
//! is plain reading), ordered and selected here.

use vstd::prelude::*;

use crate::error::Error;

verus! {

/// One discovered generation: its ordering number (unique within a
/// profile), the path of its immutable snapshot, and whether the profile
/// currently points at it (at most one generation in a listing may).
#[derive(Debug, PartialEq, Eq)]
pub struct GenerationInfo {
    pub number: u64,
    pub path: String,
    pub current: bool,
}

impl Clone for GenerationInfo {
    /// A generation record is duplicated with its exact content.
    fn clone(&self) -> (r: Self)
        ensures
            r == *self,
    {
        GenerationInfo { number: self.number, path: self.path.clone(), current: self.current }
    }
}

/// The listing carries no two generations with one number.
pub open spec fn unique_numbers(s: Seq<GenerationInfo>) -> bool {
    forall|i: int, j: int|
        0 <= i < s.len() && 0 <= j < s.len() && i != j ==> (#[trigger] s[i]).number != (
        #[trigger] s[j]).number
}

/// At most one generation in the listing is flagged current.
pub open spec fn at_most_one_current(s: Seq<GenerationInfo>) -> bool {
    forall|i: int, j: int|
        0 <= i < s.len() && 0 <= j < s.len() && (#[trigger] s[i]).current && (
        #[trigger] s[j]).current ==> i == j
}

/// Some generation in the listing is flagged current.
pub open spec fn has_current(s: Seq<GenerationInfo>) -> bool {
    exists|i: int| 0 <= i < s.len() && (#[trigger] s[i]).current
}

/// The number of the (unique) generation flagged current.
pub open spec fn current_number_of(s: Seq<GenerationInfo>) -> u64 {
    s[choose|i: int| 0 <= i < s.len() && (#[trigger] s[i]).current].number
}

/// Whether some generation is numbered strictly below `n`.
pub open spec fn has_older_than(s: Seq<GenerationInfo>, n: u64) -> bool {
    exists|i: int| 0 <= i < s.len() && (#[trigger] s[i]).number < n
}

/// The snapshot path of the (unique) generation flagged current: the
/// profile's resolved target before any repoint.
pub open spec fn current_path_of(s: Seq<GenerationInfo>) -> Seq<char> {
    s[choose|i: int| 0 <= i < s.len() && (#[trigger] s[i]).current].path@
}

/// Returns the generation immediately preceding the current one in number
/// order: the listed generation with the greatest number strictly below
/// the current generation's number.
///
/// Fails with `NoGenerations` on an empty listing, `NoCurrentGeneration`
/// when none is flagged current, and `NoOlderGeneration` when the current
/// generation is already the oldest.
pub fn find_previous_generation(generations: &Vec<GenerationInfo>) -> (r: Result<
    GenerationInfo,
    Error,
>)
    requires
        unique_numbers(generations@),
        at_most_one_current(generations@),
    ensures
        generations@.len() == 0 ==> r == Err::<GenerationInfo, Error>(Error::NoGenerations),
        generations@.len() > 0 && !has_current(generations@) ==> r == Err::<
            GenerationInfo,
            Error,
        >(Error::NoCurrentGeneration),
        has_current(generations@) && !has_older_than(
            generations@,
            current_number_of(generations@),
        ) ==> r == Err::<GenerationInfo, Error>(Error::NoOlderGeneration),
        has_current(generations@) && has_older_than(
            generations@,
            current_number_of(generations@),
        ) ==> {
            &&& r is Ok
            &&& generations@.contains(r->Ok_0)
            &&& r->Ok_0.number < current_number_of(generations@)
            &&& forall|i: int|
                0 <= i < generations@.len() && (#[trigger] generations@[i]).number
                    < current_number_of(generations@) ==> generations@[i].number <= r->Ok_0.number
        },
{
    if generations.len() == 0 {
        return Err(Error::NoGenerations);
    }
    let mut c: usize = 0;
    let n = generations.len();
    while c < n && !generations[c].current
        invariant
            c <= n,
            n == generations@.len(),
            forall|j: int| 0 <= j < c ==> !(#[trigger] generations@[j]).current,
        decreases n - c,
    {
        c = c + 1;
    }
    if c == n {
        assert(!has_current(generations@));
        return Err(Error::NoCurrentGeneration);
    }
    assert(generations@[c as int].current);
    assert(has_current(generations@));
    proof {
        let w = choose|i: int| 0 <= i < generations@.len() && (#[trigger] generations@[i]).current;
        assert(w == c as int);
    }
    let cur_number = generations[c].number;
    let mut best: usize = 0;
    let mut found: bool = false;
    let mut i: usize = 0;
    while i < n
        invariant
            i <= n,
            n == generations@.len(),
            !found ==> forall|j: int|
                0 <= j < i ==> (#[trigger] generations@[j]).number >= cur_number,
            found ==> best < i && generations@[best as int].number < cur_number,
            found ==> forall|j: int|
                0 <= j < i && (#[trigger] generations@[j]).number < cur_number
                    ==> generations@[j].number <= generations@[best as int].number,
        decreases n - i,
    {
        if generations[i].number < cur_number {
            if !found || generations[i].number > generations[best].number {
                best = i;
            }
            found = true;
        }
        i = i + 1;
    }
    if !found {
        assert(!has_older_than(generations@, cur_number));
        return Err(Error::NoOlderGeneration);
    }
    assert(generations@.contains(generations@[best as int]));
    Ok(generations[best].clone())
}

/// Returns the first listed generation carrying exactly the requested
/// number, or `GenerationNotFound` when no generation carries it.
pub fn find_generation_by_number(generations: &Vec<GenerationInfo>, number: u64) -> (r: Result<
    GenerationInfo,
    Error,
>)
    ensures
        (exists|i: int|
            0 <= i < generations@.len() && (#[trigger] generations@[i]).number == number) ==> {
            &&& r is Ok
            &&& exists|i: int|
                {
                    &&& 0 <= i < generations@.len()
                    &&& r->Ok_0 == generations@[i]
                    &&& (#[trigger] generations@[i]).number == number
                    &&& forall|j: int| 0 <= j < i ==> (#[trigger] generations@[j]).number != number
                }
        },
        !(exists|i: int|
            0 <= i < generations@.len() && (#[trigger] generations@[i]).number == number) ==> r
            == Err::<GenerationInfo, Error>(Error::GenerationNotFound(number)),
{
    let mut i: usize = 0;
    let n = generations.len();
    while i < n
        invariant
            i <= n,
            n == generations@.len(),
            forall|j: int| 0 <= j < i ==> (#[trigger] generations@[j]).number != number,
        decreases n - i,
    {
        if generations[i].number == number {
            let r = generations[i].clone();
            assert(generations@[i as int].number == number);
            return Ok(r);
        }
        i = i + 1;
    }
    Err(Error::GenerationNotFound(number))
}

/// A decimal digit.
pub open spec fn is_digit(c: char) -> bool {
    '0' <= c && c <= '9'
}

/// Every character of the text is a decimal digit.
pub open spec fn all_digits(s: Seq<char>) -> bool {
    forall|i: int| 0 <= i < s.len() ==> is_digit(#[trigger] s[i])
}

/// The value of a decimal digit string.
pub open spec fn digits_value(s: Seq<char>) -> int
    decreases s.len(),
{
    if s.len() == 0 {
        0
    } else {
        digits_value(s.drop_last()) * 10 + (s.last() as int - '0' as int)
    }
}

/// A generation link name has the shape `{prefix}{digits}{suffix}` with at
/// least one digit.
pub open spec fn link_shape_ok(name: Seq<char>, prefix: Seq<char>, suffix: Seq<char>) -> bool {
    &&& name.len() > prefix.len() + suffix.len()
    &&& name.subrange(0, prefix.len() as int) == prefix
    &&& name.subrange(name.len() - suffix.len(), name.len() as int) == suffix
    &&& all_digits(link_digits(name, prefix, suffix))
}

/// The digit stretch between the prefix and the suffix.
pub open spec fn link_digits(name: Seq<char>, prefix: Seq<char>, suffix: Seq<char>) -> Seq<char> {
    name.subrange(prefix.len() as int, name.len() - suffix.len())
}

/// The value of a digit string never shrinks as digits are appended.
proof fn lemma_digits_value_prefix(s: Seq<char>, i: int)
    requires
        0 <= i <= s.len(),
        all_digits(s),
    ensures
        digits_value(s.subrange(0, i)) <= digits_value(s),
        digits_value(s) >= 0,
    decreases s.len(),
{
    if s.len() == 0 {
        assert(s.subrange(0, 0) =~= s);
    } else {
        let front = s.drop_last();
        assert(front =~= s.subrange(0, s.len() - 1));
        assert(all_digits(front));
        lemma_digits_value_prefix(front, if i <= front.len() { i } else { front.len() as int });
        assert(is_digit(s.last()));
        if i <= front.len() {
            assert(s.subrange(0, i) =~= front.subrange(0, i));
        } else {
            assert(s.subrange(0, i) =~= s);
        }
    }
}

/// Parses a generation link name of the shape `{prefix}{number}{suffix}`
/// (for the system profile: `system-{number}-link`).  Returns the number
/// exactly when the name has that shape, the stretch between prefix and
/// suffix is one or more decimal digits, and their value fits a `u64`.
pub fn parse_generation_number(name: &str, prefix: &str, suffix: &str) -> (r: Option<u64>)
    ensures
        r is Some <==> (link_shape_ok(name@, prefix@, suffix@) && digits_value(
            link_digits(name@, prefix@, suffix@),
        ) <= u64::MAX),
        r is Some ==> r->0 as int == digits_value(link_digits(name@, prefix@, suffix@)),
{
    let n = name.unicode_len();
    let p = prefix.unicode_len();
    let s = suffix.unicode_len();
    if n <= p || n - p <= s {
        return None;
    }
    let mut i: usize = 0;
    while i < p
        invariant
            i <= p,
            p == prefix@.len(),
            n == name@.len(),
            p + s < n,
            forall|j: int| 0 <= j < i ==> name@[j] == prefix@[j],
        decreases p - i,
    {
        if name.get_char(i) != prefix.get_char(i) {
            assert(name@.subrange(0, p as int) != prefix@) by {
                assert(name@.subrange(0, p as int)[i as int] != prefix@[i as int]);
            }
            return None;
        }
        i = i + 1;
    }
    assert(name@.subrange(0, p as int) =~= prefix@);
    let mut k: usize = 0;
    while k < s
        invariant
            k <= s,
            s == suffix@.len(),
            n == name@.len(),
            p + s < n,
            forall|j: int| 0 <= j < k ==> name@[n - s + j] == suffix@[j],
        decreases s - k,
    {
        if name.get_char(n - s + k) != suffix.get_char(k) {
            assert(name@.subrange(n - s, n as int) != suffix@) by {
                assert(name@.subrange(n - s, n as int)[k as int] != suffix@[k as int]);
            }
            return None;
        }
        k = k + 1;
    }
    assert(name@.subrange(n - s, n as int) =~= suffix@);
    let ghost digits = link_digits(name@, prefix@, suffix@);
    let mut acc: u64 = 0;
    let mut d: usize = p;
    let stop = n - s;
    proof {
        assert(digits.subrange(0, 0) =~= Seq::<char>::empty());
    }
    while d < stop
        invariant
            p <= d <= stop,
            stop == n - s,
            p == prefix@.len(),
            s == suffix@.len(),
            n == name@.len(),
            p + s < n,
            digits == link_digits(name@, prefix@, suffix@),
            all_digits(digits.subrange(0, d - p)),
            acc as int == digits_value(digits.subrange(0, d - p)),
        decreases stop - d,
    {
        let c = name.get_char(d);
        proof {
            assert(digits[d - p] == name@[d as int]);
            assert(digits.subrange(0, d - p + 1) =~= digits.subrange(0, d - p).push(c));
            assert(digits.subrange(0, d - p + 1).drop_last() =~= digits.subrange(0, d - p));
        }
        if c < '0' || c > '9' {
            assert(!all_digits(digits)) by {
                assert(!is_digit(digits[d - p]));
            }
            return None;
        }
        let v: u64 = (c as u32 as u64) - 48;
        assert(v as int == c as int - '0' as int && v <= 9) by {
            assert('0' as int == 48 && '9' as int == 57);
        }
        if acc > 1844674407370955161 || (acc == 1844674407370955161 && v > 5) {
            // the value overflows a u64, and appending digits only grows it
            proof {
                let partial = digits.subrange(0, d - p + 1);
                assert(digits_value(partial) > u64::MAX);
                if all_digits(digits) {
                    assert(forall|j: int|
                        0 <= j < partial.len() ==> is_digit(#[trigger] partial[j]));
                    lemma_digits_value_prefix(digits, d - p + 1);
                }
            }
            return None;
        }
        acc = acc * 10 + v;
        d = d + 1;
    }
    proof {
        assert(digits.subrange(0, stop - p) =~= digits);
        assert(link_shape_ok(name@, prefix@, suffix@));
    }
    Some(acc)
}

/// Returns the number of the first listed generation flagged current, or
/// `NoCurrentGeneration` when none is flagged.
pub fn get_current_generation_number(generations: &Vec<GenerationInfo>) -> (r: Result<u64, Error>)
    ensures
        has_current(generations@) ==> {
            &&& r is Ok
            &&& exists|i: int|
                {
                    &&& 0 <= i < generations@.len()
                    &&& (#[trigger] generations@[i]).current
                    &&& r->Ok_0 == generations@[i].number
                    &&& forall|j: int| 0 <= j < i ==> !(#[trigger] generations@[j]).current
                }
        },
        !has_current(generations@) ==> r == Err::<u64, Error>(Error::NoCurrentGeneration),
{
    let mut i: usize = 0;
    let n = generations.len();
    while i < n
        invariant
            i <= n,
            n == generations@.len(),
            forall|j: int| 0 <= j < i ==> !(#[trigger] generations@[j]).current,
        decreases n - i,
    {
        if generations[i].current {
            return Ok(generations[i].number);
        }
        i = i + 1;
    }
    Err(Error::NoCurrentGeneration)
}

} // verus!
