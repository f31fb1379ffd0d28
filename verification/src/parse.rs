//! Validation of an external phase name: the strings "work" and "break",
//! compared without regard to ASCII case, are accepted and anything else is
//! rejected before it reaches the timer core.

use vstd::prelude::*;
use vstd::string::StringSliceAdditionalSpecFns;
use crate::timer::Phase;

verus! {

broadcast use {vstd::string::is_ascii_spec_bytes, vstd::utf8::is_ascii_chars_nat_bound};

/// Character `a` reads as the lower-case ASCII letter `b`: either the same
/// code point, or its upper-case ASCII counterpart.
pub open spec fn char_eq_ci(a: char, b: char) -> bool {
    ||| a as int == b as int
    ||| (65 <= a as int <= 90 && a as int + 32 == b as int)
}

/// `s` spells `t` without regard to ASCII case, where `t` is already
/// lower-case.
pub open spec fn name_eq_ci(s: Seq<char>, t: Seq<char>) -> bool {
    s.len() == t.len() && (forall|i: int| 0 <= i < s.len() ==> char_eq_ci(s[i], #[trigger] t[i]))
}

/// The phase a name denotes: "work" or "break", without regard to ASCII
/// case; anything else denotes none.
pub open spec fn parsed_phase(s: Seq<char>) -> Option<Phase> {
    if name_eq_ci(s, "work"@) {
        Some(Phase::Work)
    } else if name_eq_ci(s, "break"@) {
        Some(Phase::Break)
    } else {
        None
    }
}

/// An ASCII upper-case byte folded to its lower-case counterpart.
spec fn fold_ci(b: u8) -> u8 {
    if 65 <= b <= 90 {
        (b + 32) as u8
    } else {
        b
    }
}

fn fold_byte(b: u8) -> (r: u8)
    ensures
        r == fold_ci(b),
{
    if 65 <= b && b <= 90 {
        b + 32
    } else {
        b
    }
}

/// A string with a character outside ASCII spells no phase name: every
/// character of a match reads as an ASCII letter.
proof fn lemma_non_ascii_no_match(s: Seq<char>)
    requires
        !vstd::utf8::is_ascii_chars(s),
    ensures
        parsed_phase(s) is None,
{
    reveal_strlit("work");
    reveal_strlit("break");
    if name_eq_ci(s, "work"@) || name_eq_ci(s, "break"@) {
        assert forall|i: int| 0 <= i < s.len() implies '\0' <= #[trigger] s[i] <= '\u{7f}' by {
            if name_eq_ci(s, "work"@) {
                assert(char_eq_ci(s[i], "work"@[i]));
            } else {
                assert(char_eq_ci(s[i], "break"@[i]));
            }
        }
        assert(vstd::utf8::is_ascii_chars(s));
    }
}

/// Translate an external phase name, compared without regard to ASCII case,
/// into a phase; `None` rejects an invalid name.
pub fn phase_from_name(s: &str) -> (r: Option<Phase>)
    ensures
        r == parsed_phase(s@),
{
    proof {
        reveal_strlit("work");
        reveal_strlit("break");
    }
    if !s.is_ascii() {
        proof {
            lemma_non_ascii_no_match(s@);
        }
        return None;
    }
    let b = s.as_bytes();
    proof {
        assert(b@ =~= Seq::new(s@.len(), |i: int| s@.index(i) as u8));
        assert(vstd::utf8::is_ascii_chars(s@));
        assert(forall|i: int| 0 <= i < s@.len() ==> (#[trigger] s@.index(i) as nat) < 128);
    }
    if b.len() == 4 {
        let hit = fold_byte(b[0]) == 119 && fold_byte(b[1]) == 111 && fold_byte(b[2]) == 114
            && fold_byte(b[3]) == 107;
        if hit {
            proof {
                assert forall|i: int| 0 <= i < s@.len() implies char_eq_ci(
                    s@[i],
                    #[trigger] "work"@[i],
                ) by {
                    assert(b@[i] == s@[i] as u8);
                    assert(fold_ci(b@[i]) == "work"@[i] as int);
                }
                assert(name_eq_ci(s@, "work"@));
            }
            Some(Phase::Work)
        } else {
            proof {
                if name_eq_ci(s@, "work"@) {
                    assert(char_eq_ci(s@[0], "work"@[0]));
                    assert(char_eq_ci(s@[1], "work"@[1]));
                    assert(char_eq_ci(s@[2], "work"@[2]));
                    assert(char_eq_ci(s@[3], "work"@[3]));
                    assert(fold_ci(b@[0]) == 119 && fold_ci(b@[1]) == 111 && fold_ci(b@[2])
                        == 114 && fold_ci(b@[3]) == 107);
                }
                assert(!name_eq_ci(s@, "work"@));
                assert(!name_eq_ci(s@, "break"@));
            }
            None
        }
    } else if b.len() == 5 {
        let hit = fold_byte(b[0]) == 98 && fold_byte(b[1]) == 114 && fold_byte(b[2]) == 101
            && fold_byte(b[3]) == 97 && fold_byte(b[4]) == 107;
        if hit {
            proof {
                assert forall|i: int| 0 <= i < s@.len() implies char_eq_ci(
                    s@[i],
                    #[trigger] "break"@[i],
                ) by {
                    assert(b@[i] == s@[i] as u8);
                    assert(fold_ci(b@[i]) == "break"@[i] as int);
                }
                assert(name_eq_ci(s@, "break"@));
            }
            Some(Phase::Break)
        } else {
            proof {
                if name_eq_ci(s@, "break"@) {
                    assert(char_eq_ci(s@[0], "break"@[0]));
                    assert(char_eq_ci(s@[1], "break"@[1]));
                    assert(char_eq_ci(s@[2], "break"@[2]));
                    assert(char_eq_ci(s@[3], "break"@[3]));
                    assert(char_eq_ci(s@[4], "break"@[4]));
                    assert(fold_ci(b@[0]) == 98 && fold_ci(b@[1]) == 114 && fold_ci(b@[2]) == 101
                        && fold_ci(b@[3]) == 97 && fold_ci(b@[4]) == 107);
                }
                assert(!name_eq_ci(s@, "work"@));
                assert(!name_eq_ci(s@, "break"@));
            }
            None
        }
    } else {
        proof {
            assert(!name_eq_ci(s@, "work"@));
            assert(!name_eq_ci(s@, "break"@));
        }
        None
    }
}

} // verus!
