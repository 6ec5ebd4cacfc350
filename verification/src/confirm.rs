//! Confirmation prompt classifier: a line of user input, trimmed and with
//! letter case folded, approves the update (`yes`/`y`), declines it
//! (`no`/`n`/empty), or asks for the prompt to be repeated.

use vstd::prelude::*;
use vstd::string::*;
use crate::text::{trim_bounds, trim_spec};

verus! {

/// What one line of input means for the confirmation prompt.
#[derive(Clone, Copy, PartialEq, Eq, Structural, Debug)]
pub enum ConfirmAnswer {
    /// The user approved the update.
    Approve,
    /// The user declined the update.
    Decline,
    /// The line was neither; the prompt is shown again.
    Repeat,
}

/// Character `a` matches expected lowercase character `b`, ignoring case for
/// the letters the prompt's answers use.
pub open spec fn answer_char_matches(a: char, b: char) -> bool {
    a == b || (b == 'y' && a == 'Y') || (b == 'e' && a == 'E') || (b == 's' && a == 'S') || (b
        == 'n' && a == 'N') || (b == 'o' && a == 'O')
}

/// `t` spells the lowercase word `w`, ignoring letter case.
pub open spec fn spells(t: Seq<char>, w: Seq<char>) -> bool {
    t.len() == w.len() && forall|k: int| 0 <= k < t.len() ==> answer_char_matches(t[k], w[k])
}

/// The meaning of one raw input line: after trimming, `yes`/`y` in any
/// letter case approves, `no`/`n` in any letter case or an empty line
/// declines, and anything else repeats the prompt.
pub open spec fn confirm_answer_spec(line: Seq<char>) -> ConfirmAnswer {
    let t = trim_spec(line);
    if spells(t, seq!['y', 'e', 's']) || spells(t, seq!['y']) {
        ConfirmAnswer::Approve
    } else if spells(t, seq!['n', 'o']) || spells(t, seq!['n']) || t.len() == 0 {
        ConfirmAnswer::Decline
    } else {
        ConfirmAnswer::Repeat
    }
}

/// Classifies one line fed to the confirmation prompt.
pub fn classify_confirm_line(line: &str) -> (r: ConfirmAnswer)
    ensures
        r == confirm_answer_spec(line@),
{
    let (i, j) = trim_bounds(line);
    let ghost t = trim_spec(line@);
    proof {
        assert(t == line@.subrange(i as int, j as int));
    }
    let len = j - i;
    if len == 0 {
        return ConfirmAnswer::Decline;
    }
    let c0 = line.get_char(i);
    proof {
        assert(t[0] == line@[i as int]);
    }
    if len == 1 {
        if c0 == 'y' || c0 == 'Y' {
            proof {
                assert(spells(t, seq!['y']));
            }
            ConfirmAnswer::Approve
        } else if c0 == 'n' || c0 == 'N' {
            proof {
                assert(spells(t, seq!['n']));
            }
            ConfirmAnswer::Decline
        } else {
            proof {
                assert(!spells(t, seq!['y', 'e', 's']));
                assert(!spells(t, seq!['y']) && !spells(t, seq!['n']) && !spells(
                    t,
                    seq!['n', 'o'],
                ));
            }
            ConfirmAnswer::Repeat
        }
    } else if len == 2 {
        let c1 = line.get_char(i + 1);
        proof {
            assert(t[1] == line@[i + 1]);
        }
        if (c0 == 'n' || c0 == 'N') && (c1 == 'o' || c1 == 'O') {
            proof {
                assert(spells(t, seq!['n', 'o']));
            }
            ConfirmAnswer::Decline
        } else {
            proof {
                assert(!spells(t, seq!['n', 'o']));
            }
            ConfirmAnswer::Repeat
        }
    } else if len == 3 {
        let c1 = line.get_char(i + 1);
        let c2 = line.get_char(i + 2);
        proof {
            assert(t[1] == line@[i + 1]);
            assert(t[2] == line@[i + 2]);
        }
        if (c0 == 'y' || c0 == 'Y') && (c1 == 'e' || c1 == 'E') && (c2 == 's' || c2 == 'S') {
            proof {
                assert(spells(t, seq!['y', 'e', 's']));
            }
            ConfirmAnswer::Approve
        } else {
            proof {
                assert(!spells(t, seq!['y', 'e', 's']));
            }
            ConfirmAnswer::Repeat
        }
    } else {
        ConfirmAnswer::Repeat
    }
}

} // verus!
