//! Byte-sequence helpers: ASCII trimming and comparison of version tokens.

use vstd::prelude::*;

verus! {

/// ASCII whitespace: space, horizontal tab, line feed, carriage return.
pub open spec fn is_space(b: u8) -> bool {
    b == 32 || b == 9 || b == 10 || b == 13
}

/// The sequence with all leading and trailing ASCII whitespace removed.
pub open spec fn trimmed(s: Seq<u8>) -> Seq<u8>
    decreases s.len(),
{
    if s.len() == 0 {
        s
    } else if is_space(s[0]) {
        trimmed(s.drop_first())
    } else if is_space(s.last()) {
        trimmed(s.drop_last())
    } else {
        s
    }
}

fn is_space_byte(b: u8) -> (r: bool)
    ensures
        r == is_space(b),
{
    b == 32 || b == 9 || b == 10 || b == 13
}

/// Copy of `v` with leading and trailing ASCII whitespace removed.
pub fn trim_ascii(v: &Vec<u8>) -> (r: Vec<u8>)
    ensures
        r@ == trimmed(v@),
{
    let mut start: usize = 0;
    proof {
        assert(v@.subrange(0, v.len() as int) =~= v@);
    }
    while start < v.len() && is_space_byte(*v.get(start).unwrap())
        invariant
            start <= v.len(),
            trimmed(v@) == trimmed(v@.subrange(start as int, v.len() as int)),
        decreases v.len() - start,
    {
        proof {
            let sub = v@.subrange(start as int, v.len() as int);
            assert(sub[0] == v@[start as int]);
            assert(sub.drop_first() =~= v@.subrange(start as int + 1, v.len() as int));
        }
        start += 1;
    }
    let mut end: usize = v.len();
    while end > start && is_space_byte(*v.get(end - 1).unwrap())
        invariant
            start <= end,
            end <= v.len(),
            trimmed(v@) == trimmed(v@.subrange(start as int, end as int)),
            start < v.len() ==> !is_space(v@[start as int]),
        decreases end,
    {
        proof {
            let sub = v@.subrange(start as int, end as int);
            assert(sub.last() == v@[end - 1]);
            assert(sub.drop_last() =~= v@.subrange(start as int, end as int - 1));
        }
        end -= 1;
    }
    let mut r: Vec<u8> = Vec::new();
    let mut i: usize = start;
    while i < end
        invariant
            start <= i,
            i <= end,
            end <= v.len(),
            r@ =~= v@.subrange(start as int, i as int),
        decreases end - i,
    {
        r.push(*v.get(i).unwrap());
        i += 1;
    }
    proof {
        let sub = v@.subrange(start as int, end as int);
        if start == end {
            assert(sub =~= Seq::<u8>::empty());
            assert(trimmed(sub) =~= sub);
        } else {
            assert(sub[0] == v@[start as int]);
            assert(sub.last() == v@[end - 1]);
            assert(trimmed(sub) == sub);
        }
        assert(r@ =~= sub);
    }
    r
}

/// Byte-for-byte equality of two buffers.
pub fn bytes_eq(a: &Vec<u8>, b: &Vec<u8>) -> (r: bool)
    ensures
        r == (a@ == b@),
{
    if a.len() != b.len() {
        proof {
            assert(a@.len() != b@.len());
        }
        return false;
    }
    let mut i: usize = 0;
    while i < a.len()
        invariant
            i <= a.len(),
            a@.len() == b@.len(),
            forall|j: int| 0 <= j < i ==> a@[j] == b@[j],
        decreases a.len() - i,
    {
        if *a.get(i).unwrap() != *b.get(i).unwrap() {
            proof {
                assert(a@[i as int] != b@[i as int]);
            }
            return false;
        }
        i += 1;
    }
    proof {
        assert(a@ =~= b@);
    }
    true
}

} // verus!
