use vstd::prelude::*;
use vstd::string::StringSliceAdditionalSpecFns;

verus! {

/// A program: the words of its initial memory image, from address zero on.
#[derive(Debug, PartialEq, Eq, Clone)]
pub struct Intcode(pub Vec<i64>);

/// Whether byte `c` is blank: space, tab, carriage return or line feed.
pub open spec fn is_blank(c: u8) -> bool {
    c == 32 || c == 9 || c == 13 || c == 10
}

/// Whether byte `c` is a decimal digit.
pub open spec fn is_digit(c: u8) -> bool {
    48 <= c <= 57
}

/// The text with its blanks taken out.
pub open spec fn strip_blanks(s: Seq<u8>) -> Seq<u8> {
    s.filter(|c: u8| !is_blank(c))
}

/// The pieces of `s` between its commas, in order (one more than there are commas).
pub open spec fn fields(s: Seq<u8>) -> Seq<Seq<u8>>
    decreases s.len(),
{
    if s.len() == 0 {
        seq![Seq::empty()]
    } else {
        let f = fields(s.drop_last());
        if s.last() == 44 {
            f.push(Seq::empty())
        } else {
            f.update(f.len() - 1, f.last().push(s.last()))
        }
    }
}

/// The number that the decimal digits `d` spell.
pub open spec fn digits_value(d: Seq<u8>) -> int
    decreases d.len(),
{
    if d.len() == 0 {
        0
    } else {
        digits_value(d.drop_last()) * 10 + (d.last() - 48)
    }
}

/// Whether `d` is one or more decimal digits.
pub open spec fn all_digits(d: Seq<u8>) -> bool {
    d.len() > 0 && forall|i: int| 0 <= i < d.len() ==> is_digit(#[trigger] d[i])
}

/// The integer that a field spells: digits with an optional sign in front.
pub open spec fn field_value(f: Seq<u8>) -> Option<int> {
    if f.len() > 0 && f[0] == 45 && all_digits(f.drop_first()) {
        Some(-digits_value(f.drop_first()))
    } else if f.len() > 0 && f[0] == 43 && all_digits(f.drop_first()) {
        Some(digits_value(f.drop_first()))
    } else if all_digits(f) {
        Some(digits_value(f))
    } else {
        None
    }
}

/// The word that a field spells, when it spells an integer in the range of `i64`.
pub open spec fn word_of(f: Seq<u8>) -> Option<i64> {
    match field_value(f) {
        Some(v) => if i64::MIN <= v <= i64::MAX {
            Some(v as i64)
        } else {
            None
        },
        None => None,
    }
}

/// The program that text `s` holds: comma-separated integers, blanks anywhere ignored;
/// none when any field is not an integer of the range of `i64`.
pub open spec fn parse_spec(s: Seq<u8>) -> Option<Seq<i64>> {
    let fs = fields(strip_blanks(s));
    if forall|i: int| 0 <= i < fs.len() ==> (#[trigger] word_of(fs[i])) is Some {
        Some(Seq::new(fs.len(), |i: int| word_of(fs[i])->0))
    } else {
        None
    }
}

proof fn lemma_fields_nonempty(s: Seq<u8>)
    ensures
        fields(s).len() >= 1,
    decreases s.len(),
{
    if s.len() > 0 {
        lemma_fields_nonempty(s.drop_last());
    }
}

/// A field that a comma has closed stays as it is however much text follows.
proof fn lemma_fields_stable(t: Seq<u8>, j: int, n: int)
    requires
        0 <= j <= n <= t.len(),
    ensures
        fields(t.subrange(0, n)).len() >= fields(t.subrange(0, j)).len(),
        forall|k: int|
            0 <= k < fields(t.subrange(0, j)).len() - 1 ==> fields(t.subrange(0, n))[k] == fields(
                t.subrange(0, j),
            )[k],
    decreases n - j,
{
    if n > j {
        lemma_fields_stable(t, j, n - 1);
        assert(t.subrange(0, n).drop_last() =~= t.subrange(0, n - 1));
        lemma_fields_nonempty(t.subrange(0, n - 1));
    }
}

/// The bytes of `s` that are not blank.
fn strip(s: &[u8]) -> (r: Vec<u8>)
    ensures
        r@ == strip_blanks(s@),
{
    let mut r: Vec<u8> = Vec::new();
    let mut i: usize = 0;
    while i < s.len()
        invariant
            i <= s.len(),
            r@ == strip_blanks(s@.subrange(0, i as int)),
        decreases s.len() - i,
    {
        let c = s[i];
        proof {
            let p = s@.subrange(0, i as int + 1);
            assert(p.drop_last() =~= s@.subrange(0, i as int));
            reveal(Seq::filter);
        }
        if !(c == 32 || c == 9 || c == 13 || c == 10) {
            r.push(c);
        }
        i = i + 1;
    }
    assert(s@.subrange(0, s.len() as int) =~= s@);
    r
}

/// The word that `t[start..end]` spells.
fn parse_field(t: &Vec<u8>, start: usize, end: usize) -> (r: Option<i64>)
    requires
        start <= end <= t.len(),
    ensures
        r == word_of(t@.subrange(start as int, end as int)),
{
    let ghost f = t@.subrange(start as int, end as int);
    if start == end {
        return None;
    }
    let neg = t[start] == 45;
    let ds: usize = if t[start] == 45 || t[start] == 43 {
        start + 1
    } else {
        start
    };
    let ghost d = t@.subrange(ds as int, end as int);
    assert(ds > start ==> d =~= f.drop_first());
    assert(ds == start ==> d =~= f);
    if ds == end {
        assert(!all_digits(d));
        assert(!all_digits(f)) by {
            assert(!is_digit(f[0]));
        }
        return None;
    }
    let limit: u64 = 0x8000_0000_0000_0000;
    let mut acc: u64 = 0;
    let mut too_big = false;
    let mut i: usize = ds;
    while i < end
        invariant
            ds <= i <= end <= t.len(),
            start <= ds <= start + 1,
            ds == start + 1 <==> (t@[start as int] == 45 || t@[start as int] == 43),
            ds == start + 1 ==> d == f.drop_first(),
            ds == start ==> d == f,
            neg == (t@[start as int] == 45),
            f == t@.subrange(start as int, end as int),
            d == t@.subrange(ds as int, end as int),
            forall|k: int| ds <= k < i ==> is_digit(#[trigger] t@[k]),
            !too_big ==> acc == digits_value(t@.subrange(ds as int, i as int)),
            !too_big ==> acc <= limit,
            too_big ==> digits_value(t@.subrange(ds as int, i as int)) > limit,
        decreases end - i,
    {
        let c = t[i];
        proof {
            let p = t@.subrange(ds as int, i as int + 1);
            assert(p.drop_last() =~= t@.subrange(ds as int, i as int));
        }
        if !(48 <= c && c <= 57) {
            assert(!all_digits(d)) by {
                assert(!is_digit(d[i - ds]));
            }
            assert(!all_digits(f)) by {
                if ds == start {
                    assert(!is_digit(f[i - start]));
                } else {
                    assert(!is_digit(f[0]));
                }
            }
            return None;
        }
        if !too_big {
            let next: u128 = acc as u128 * 10 + (c - 48) as u128;
            if next > limit as u128 {
                too_big = true;
            } else {
                acc = next as u64;
            }
        }
        i = i + 1;
    }
    assert(t@.subrange(ds as int, i as int) =~= d);
    assert(all_digits(d));
    if ds == start {
        assert(f[0] == d[0]);
        assert(is_digit(d[0]));
    }
    if too_big {
        return None;
    }
    if neg {
        Some((0 - acc as i128) as i64)
    } else if acc > 0x7fff_ffff_ffff_ffff {
        None
    } else {
        Some(acc as i64)
    }
}

impl Intcode {
    /// The program that `input` holds, or an error when any field is not an integer.
    pub fn parse(input: &str) -> (r: Result<Intcode, String>)
        ensures
            match r {
                Ok(c) => parse_spec(input.spec_bytes()) == Some(c.0@),
                Err(_) => parse_spec(input.spec_bytes()) is None,
            },
    {
        let t = strip(input.as_bytes());
        let ghost fs = fields(t@);
        let mut words: Vec<i64> = Vec::new();
        let mut start: usize = 0;
        let mut j: usize = 0;
        while j < t.len()
            invariant
                start <= j <= t.len(),
                fs == fields(t@),
                t@ == strip_blanks(input.spec_bytes()),
                fields(t@.subrange(0, j as int)).len() == words.len() + 1,
                fields(t@.subrange(0, j as int)).last() == t@.subrange(start as int, j as int),
                forall|k: int|
                    0 <= k < words.len() ==> word_of(
                        #[trigger] fields(t@.subrange(0, j as int))[k],
                    ) == Some(words@[k]),
            decreases t.len() - j,
        {
            let ghost before = fields(t@.subrange(0, j as int));
            proof {
                assert(t@.subrange(0, j as int + 1).drop_last() =~= t@.subrange(0, j as int));
            }
            if t[j] == 44 {
                match parse_field(&t, start, j) {
                    Some(w) => words.push(w),
                    None => {
                        proof {
                            let p = t@.subrange(0, j as int + 1);
                            assert(fields(p) == before.push(Seq::empty()));
                            assert(fields(p)[words.len() as int] == t@.subrange(
                                start as int,
                                j as int,
                            ));
                            lemma_fields_stable(t@, j as int + 1, t.len() as int);
                            assert(t@.subrange(0, t.len() as int) =~= t@);
                            let k = words.len() as int;
                            assert(fields(t@.subrange(0, t.len() as int))[k] == fields(p)[k]);
                            assert(word_of(fs[k]) is None);
                            assert(k < fs.len());
                        }
                        return Err("Invalid intcode".to_owned());
                    },
                }
                start = j + 1;
                assert(t@.subrange(start as int, j as int + 1) =~= Seq::<u8>::empty());
            } else {
                assert(t@.subrange(start as int, j as int + 1) =~= t@.subrange(
                    start as int,
                    j as int,
                ).push(t@[j as int]));
            }
            j = j + 1;
        }
        assert(t@.subrange(0, t.len() as int) =~= t@);
        match parse_field(&t, start, t.len()) {
            Some(w) => words.push(w),
            None => {
                return Err("Invalid intcode".to_owned());
            },
        }
        assert(parse_spec(input.spec_bytes()) == Some(words@)) by {
            assert(Seq::new(fs.len(), |i: int| word_of(fs[i])->0) =~= words@);
        }
        Ok(Intcode(words))
    }

    /// The program with `noun` at address 1 and `verb` at address 2.
    pub fn replace(&self, noun: i64, verb: i64) -> (r: Intcode)
        requires
            self.0.len() >= 3,
        ensures
            r.0@ == self.0@.update(1, noun).update(2, verb),
    {
        let Intcode(arr) = self;
        let mut newarr = arr.clone();
        newarr.set(1, noun);
        newarr.set(2, verb);
        Intcode(newarr)
    }
}

impl std::str::FromStr for Intcode {
    type Err = String;

    fn from_str(input: &str) -> Result<Intcode, String> {
        Intcode::parse(input)
    }
}

} // verus!
