use vstd::prelude::*;

verus! {

pub open spec fn is_digit(c: char) -> bool {
    '0' <= c && c <= '9'
}

/// The value of the decimal digits `d`, most significant first.
pub open spec fn digits_value(d: Seq<char>) -> int
    decreases d.len(),
{
    if d.len() == 0 {
        0
    } else {
        10 * digits_value(d.drop_last()) + (d.last() as int - '0' as int)
    }
}

/// `s` without its leading `+`, if it has one.
pub open spec fn unsigned_part(s: Seq<char>) -> Seq<char> {
    if s.len() > 0 && s[0] == '+' {
        s.drop_first()
    } else {
        s
    }
}

/// The `u64` that `s` writes, read as Rust reads an unsigned integer: an
/// optional `+`, then one or more decimal digits and nothing else, of a value
/// that fits.
pub open spec fn decimal_u64(s: Seq<char>) -> Option<u64> {
    let d = unsigned_part(s);
    if d.len() > 0 && (forall|k: int| 0 <= k < d.len() ==> is_digit(#[trigger] d[k]))
        && digits_value(d) <= u64::MAX {
        Some(digits_value(d) as u64)
    } else {
        None
    }
}

proof fn lemma_digits_nonneg(d: Seq<char>)
    requires
        forall|k: int| 0 <= k < d.len() ==> is_digit(#[trigger] d[k]),
    ensures
        digits_value(d) >= 0,
    decreases d.len(),
{
    if d.len() > 0 {
        lemma_digits_nonneg(d.drop_last());
    }
}

proof fn lemma_unsigned_part_push(s: Seq<char>, c: char)
    requires
        s.len() > 0,
    ensures
        unsigned_part(s.push(c)) == unsigned_part(s).push(c),
{
    if s[0] == '+' {
        assert(s.push(c).drop_first() =~= s.drop_first().push(c));
    }
}

/// Reads the unsigned number written in `s`, as Rust's `u64` parser does.
pub fn parse_u64(s: &String) -> (r: Option<u64>)
    ensures
        r == decimal_u64(s@),
{
    let mut value: u64 = 0;
    // Every character after an optional leading `+` is a digit so far.
    let mut digits_only = true;
    // The digits so far write a value past `u64::MAX`.
    let mut too_big = false;
    let mut any_digit = false;
    let mut first = true;
    for c in it: s.as_str().chars()
        invariant
            it.seq() == s@,
            first == (it.index() == 0),
            ({
                let d = unsigned_part(s@.subrange(0, it.index() as int));
                &&& any_digit == (d.len() > 0)
                &&& digits_only == (forall|k: int| 0 <= k < d.len() ==> is_digit(#[trigger] d[k]))
                &&& digits_only ==> (too_big == (digits_value(d) > u64::MAX))
                &&& digits_only && !too_big ==> value == digits_value(d)
            }),
    {
        let ghost pre = s@.subrange(0, it.index() as int);
        let ghost i = it.index();
        proof {
            assert(s@.subrange(0, i + 1) =~= pre.push(c));
            if i > 0 {
                lemma_unsigned_part_push(pre, c);
            } else {
                assert(pre.push(c) =~= seq![c]);
                assert(seq![c].drop_first() =~= Seq::<char>::empty());
                assert(unsigned_part(pre) =~= Seq::<char>::empty());
            }
        }
        let ghost d_old = unsigned_part(pre);
        let ghost d_new = unsigned_part(s@.subrange(0, i + 1));
        if first && c == '+' {
            assert(d_new =~= Seq::<char>::empty());
        } else {
            assert(d_new == d_old.push(c));
            assert(d_new.drop_last() =~= d_old);
            any_digit = true;
            if '0' <= c && c <= '9' {
                if digits_only {
                    proof {
                        lemma_digits_nonneg(d_old);
                    }
                    if !too_big {
                        let digit = (c as u32 - '0' as u32) as u64;
                        match value.checked_mul(10) {
                            Some(m) => match m.checked_add(digit) {
                                Some(v) => {
                                    value = v;
                                },
                                None => {
                                    too_big = true;
                                },
                            },
                            None => {
                                too_big = true;
                            },
                        }
                    }
                }
            } else {
                assert(!is_digit(d_new[d_new.len() - 1]));
                digits_only = false;
            }
        }
        first = false;
    }
    assert(s@.subrange(0, s@.len() as int) =~= s@);
    if any_digit && digits_only && !too_big {
        Some(value)
    } else {
        None
    }
}

/// Relies on `String::push`: the character goes at the end.
#[verifier::external_body]
pub(crate) fn push_char(s: &mut String, c: char)
    ensures
        final(s)@ == old(s)@.push(c),
{
    s.push(c)
}

/// Relies on `String::pop`: the last character, if any, is taken off.
#[verifier::external_body]
pub(crate) fn pop_char(s: &mut String)
    ensures
        final(s)@ == (if old(s)@.len() > 0 { old(s)@.drop_last() } else { old(s)@ }),
{
    s.pop();
}

} // verus!
