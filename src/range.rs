use vstd::prelude::*;

use rand::rngs::StdRng;

use crate::error::ConstraintError;
use crate::parse::{chars_of, count_char, count_of, find_char, parse_uint, parse_uint_spec, position_of};
use crate::random::random_in;

verus! {

/// An inclusive range of values, `start..=end`.
#[derive(Debug, Clone, Copy, PartialEq, Eq)]
pub struct Range<T> {
    pub start: T,
    pub end: T,
}

impl<T> Range<T> {
    pub fn new(start: T, end: T) -> (r: Self)
        ensures
            r.start == start,
            r.end == end,
    {
        Range { start, end }
    }
}

/// `start-end` with exactly one `-`, both ends numbers no greater than `max`,
/// and `start <= end`.
pub open spec fn parse_range_spec(s: Seq<char>, max: nat) -> Result<(nat, nat), ConstraintError> {
    let i = find_char(s, '-') as int;
    let lo = parse_uint_spec(s.subrange(0, i), max);
    let hi = parse_uint_spec(s.subrange(i + 1, s.len() as int), max);
    if count_char(s, '-') != 1 {
        Err(ConstraintError::InvalidRangeFormat)
    } else if lo is None {
        Err(ConstraintError::InvalidStart)
    } else if hi is None {
        Err(ConstraintError::InvalidEnd)
    } else if lo->0 > hi->0 {
        Err(ConstraintError::StartAfterEnd)
    } else {
        Ok((lo->0, hi->0))
    }
}

proof fn lemma_find_within(s: Seq<char>, c: char)
    requires
        count_char(s, c) > 0,
    ensures
        find_char(s, c) < s.len(),
    decreases s.len(),
{
    if s.len() > 0 && s[0] != c {
        lemma_count_first(s, c);
        lemma_find_within(s.drop_first(), c);
    }
}

proof fn lemma_count_first(s: Seq<char>, c: char)
    requires
        s.len() > 0,
    ensures
        count_char(s, c) == count_char(s.drop_first(), c) + if s[0] == c { 1nat } else { 0nat },
    decreases s.len(),
{
    if s.len() > 1 {
        lemma_count_first(s.drop_last(), c);
        assert(s.drop_last().drop_first() =~= s.drop_first().drop_last());
        assert(s.drop_first().last() == s.last());
        assert(s.drop_last()[0] == s[0]);
        assert(count_char(s, c) == count_char(s.drop_last(), c) + if s.last() == c { 1nat } else { 0nat });
        assert(count_char(s.drop_first(), c) == count_char(s.drop_first().drop_last(), c) + if s.drop_first().last() == c { 1nat } else { 0nat });
    } else {
        assert(s.drop_first().len() == 0);
        assert(s.drop_last().len() == 0);
        assert(count_char(s.drop_first(), c) == 0);
        assert(count_char(s.drop_last(), c) == 0);
        assert(s.last() == s[0]);
    }
}

/// Reads `start-end` where both ends are at most `max`.
pub fn parse_range(s: &Vec<char>, max: u32) -> (r: Result<(u32, u32), ConstraintError>)
    ensures
        r matches Ok((a, b)) ==> parse_range_spec(s@, max as nat) == Ok::<(nat, nat), ConstraintError>((a as nat, b as nat)),
        r matches Err(e) ==> parse_range_spec(s@, max as nat) == Err::<(nat, nat), ConstraintError>(e),
{
    let n = count_of(s, '-');
    if n != 1 {
        return Err(ConstraintError::InvalidRangeFormat);
    }
    let i = position_of(s, '-');
    proof {
        lemma_find_within(s@, '-');
    }
    let len = s.len();
    assert(i < len);
    let start = parse_uint(s, 0, i, max);
    if start.is_none() {
        return Err(ConstraintError::InvalidStart);
    }
    let end = parse_uint(s, i + 1, len, max);
    if end.is_none() {
        return Err(ConstraintError::InvalidEnd);
    }
    let a = start.unwrap();
    let b = end.unwrap();
    if a > b {
        return Err(ConstraintError::StartAfterEnd);
    }
    Ok((a, b))
}

/// What `Range::<T>::from_str` gives for a type whose largest value is `max`.
pub open spec fn range_from_str_spec(s: Seq<char>, max: nat) -> Result<(nat, nat), ConstraintError> {
    if count_char(s, '-') > 0 {
        parse_range_spec(s, max)
    } else {
        match parse_uint_spec(s, max) {
            Some(v) => Ok((v, v)),
            None => Err(ConstraintError::InvalidValue),
        }
    }
}

fn range_from_chars(s: &Vec<char>, max: u32) -> (r: Result<(u32, u32), ConstraintError>)
    ensures
        r matches Ok((a, b)) ==> range_from_str_spec(s@, max as nat) == Ok::<(nat, nat), ConstraintError>((a as nat, b as nat)),
        r matches Err(e) ==> range_from_str_spec(s@, max as nat) == Err::<(nat, nat), ConstraintError>(e),
{
    if count_of(s, '-') > 0 {
        parse_range(s, max)
    } else {
        match parse_uint(s, 0, s.len(), max) {
            Some(v) => {
                assert(s@.subrange(0, s@.len() as int) =~= s@);
                Ok((v, v))
            },
            None => {
                assert(s@.subrange(0, s@.len() as int) =~= s@);
                Err(ConstraintError::InvalidValue)
            },
        }
    }
}

impl Range<u16> {
    pub open spec fn wf(&self) -> bool {
        self.start <= self.end
    }

    /// Reads `v` or `start-end`.
    pub fn from_str(s: &str) -> (r: Result<Self, ConstraintError>)
        ensures
            r matches Ok(x) ==> x.wf() && range_from_str_spec(s@, 0xffff) == Ok::<(nat, nat), ConstraintError>((x.start as nat, x.end as nat)),
            r matches Err(e) ==> range_from_str_spec(s@, 0xffff) == Err::<(nat, nat), ConstraintError>(e),
    {
        let cs = chars_of(s);
        match range_from_chars(&cs, 0xffff) {
            Ok((a, b)) => Ok(Range::new(a as u16, b as u16)),
            Err(e) => Err(e),
        }
    }

    /// Draws a value of `start..=end`.
    pub fn get_random_value(&self, rng: &mut StdRng) -> (r: u16)
        requires
            self.wf(),
        ensures
            self.start <= r <= self.end,
    {
        random_in(rng, self.start as u32, self.end as u32) as u16
    }
}

impl Range<u32> {
    pub open spec fn wf(&self) -> bool {
        self.start <= self.end
    }

    /// Reads `v` or `start-end`.
    pub fn from_str(s: &str) -> (r: Result<Self, ConstraintError>)
        ensures
            r matches Ok(x) ==> x.wf() && range_from_str_spec(s@, 0xffff_ffff) == Ok::<(nat, nat), ConstraintError>((x.start as nat, x.end as nat)),
            r matches Err(e) ==> range_from_str_spec(s@, 0xffff_ffff) == Err::<(nat, nat), ConstraintError>(e),
    {
        let cs = chars_of(s);
        match range_from_chars(&cs, 0xffff_ffff) {
            Ok((a, b)) => Ok(Range::new(a, b)),
            Err(e) => Err(e),
        }
    }

    /// Draws a value of `start..=end`.
    pub fn get_random_value(&self, rng: &mut StdRng) -> (r: u32)
        requires
            self.wf(),
        ensures
            self.start <= r <= self.end,
    {
        random_in(rng, self.start, self.end)
    }
}

impl std::str::FromStr for Range<u16> {
    type Err = ConstraintError;

    fn from_str(s: &str) -> Result<Self, ConstraintError> {
        Range::<u16>::from_str(s)
    }
}

impl std::str::FromStr for Range<u32> {
    type Err = ConstraintError;

    fn from_str(s: &str) -> Result<Self, ConstraintError> {
        Range::<u32>::from_str(s)
    }
}

} // verus!
