//! The uninstall confirmation decision: only an affirmative answer lets the
//! removal proceed.

use vstd::prelude::*;
use crate::bytes::{trimmed, trim_ascii};

verus! {

/// ASCII lowercasing of one byte.
pub open spec fn lower(b: u8) -> u8 {
    if 65 <= b <= 90 {
        (b + 32) as u8
    } else {
        b
    }
}

/// The sequence lowercased byte for byte.
pub open spec fn lower_seq(s: Seq<u8>) -> Seq<u8> {
    s.map_values(|b: u8| lower(b))
}

/// An affirmative answer: `y` or `yes` after trimming whitespace, in any
/// letter case.
pub open spec fn affirmative(s: Seq<u8>) -> bool {
    ||| lower_seq(trimmed(s)) == seq![121u8]
    ||| lower_seq(trimmed(s)) == seq![121u8, 101u8, 115u8]
}

/// Whether the typed answer confirms the uninstall.
pub fn confirms_uninstall(answer: &Vec<u8>) -> (r: bool)
    ensures
        r == affirmative(answer@),
{
    let t = trim_ascii(answer);
    let mut low: Vec<u8> = Vec::new();
    let mut i: usize = 0;
    while i < t.len()
        invariant
            i <= t.len(),
            low@ =~= lower_seq(t@).take(i as int),
        decreases t.len() - i,
    {
        let b = *t.get(i).unwrap();
        let lb = if 65 <= b && b <= 90 {
            b + 32
        } else {
            b
        };
        low.push(lb);
        i += 1;
    }
    proof {
        assert(low@ =~= lower_seq(t@));
    }
    if low.len() == 1 && *low.get(0).unwrap() == 121 {
        proof {
            assert(low@ =~= seq![121u8]);
        }
        true
    } else if low.len() == 3 && *low.get(0).unwrap() == 121 && *low.get(1).unwrap() == 101
        && *low.get(2).unwrap() == 115 {
        proof {
            assert(low@ =~= seq![121u8, 101u8, 115u8]);
        }
        true
    } else {
        proof {
            if low@ == seq![121u8] {
                assert(low@.len() == 1 && low@[0] == 121u8);
            }
            if low@ == seq![121u8, 101u8, 115u8] {
                assert(low@.len() == 3 && low@[0] == 121u8 && low@[1] == 101u8 && low@[2]
                    == 115u8);
            }
        }
        false
    }
}

} // verus!
