//! Sizes given on the command line: a number with an optional binary unit.

use vstd::prelude::*;
use crate::error::{InstallError, InstallErrorView};
use crate::text::{chars_of, parse_u64, str_eq, unsigned_value};

verus! {

broadcast use vstd::string::group_string_axioms;

/// True for the letters a unit starts with.
pub open spec fn is_unit_letter(c: char) -> bool {
    c == 'M' || c == 'G' || c == 'T'
}

/// The position of the first unit letter of `s`, or its length when it has
/// none.
pub open spec fn unit_start(s: Seq<char>) -> int
    decreases s.len(),
{
    if s.len() == 0 || is_unit_letter(s[0]) {
        0
    } else {
        1 + unit_start(s.drop_first())
    }
}

/// How many mebibytes one of `unit` is. No unit means mebibytes; `M` and
/// `MiB` are mebibytes, `G` and `GiB` gibibytes, `T` and `TiB` tebibytes.
pub open spec fn unit_mebibytes(unit: Seq<char>) -> Option<nat> {
    if unit == ""@ || unit == "M"@ || unit == "MiB"@ {
        Some(1)
    } else if unit == "G"@ || unit == "GiB"@ {
        Some(1024)
    } else if unit == "T"@ || unit == "TiB"@ {
        Some(1024 * 1024)
    } else {
        None
    }
}

/// The number of mebibytes that `s` denotes: an unsigned integer followed
/// by an optional unit.
pub open spec fn size_mib(s: Seq<char>) -> Option<nat> {
    let at = unit_start(s);
    match (unsigned_value(s.subrange(0, at)), unit_mebibytes(s.subrange(at, s.len() as int))) {
        (Some(n), Some(m)) => Some(n * m),
        _ => None,
    }
}

proof fn lemma_unit_start(s: Seq<char>, at: int)
    requires
        0 <= at <= s.len(),
        at < s.len() ==> is_unit_letter(s[at]),
        forall|k: int| 0 <= k < at ==> !is_unit_letter(#[trigger] s[k]),
    ensures
        unit_start(s) == at,
    decreases s.len(),
{
    if at > 0 {
        let rest = s.drop_first();
        assert(!is_unit_letter(s[0]));
        assert forall|k: int| 0 <= k < at - 1 implies !is_unit_letter(#[trigger] rest[k]) by {
            assert(rest[k] == s[k + 1]);
        }
        lemma_unit_start(rest, at - 1);
    }
}

/// Reads a size and gives it in mebibytes. Text that denotes no size, or
/// one that does not fit in 64 bits, is refused.
pub fn parse_size_mib(s: &str) -> (r: Result<u64, InstallError>)
    ensures
        match r {
            Ok(v) => size_mib(s@) == Some(v as nat),
            Err(e) => e@ == (InstallErrorView::InvalidSize { text: s@ }) && (size_mib(s@) matches Some(
                v,
            ) ==> v > u64::MAX),
        },
{
    let cs = chars_of(s);
    let mut at: usize = 0;
    while at < cs.len() && !(cs[at] == 'M' || cs[at] == 'G' || cs[at] == 'T')
        invariant
            at <= cs.len(),
            forall|k: int| 0 <= k < at ==> !is_unit_letter(#[trigger] cs@[k]),
        decreases cs.len() - at,
    {
        at += 1;
    }
    proof {
        lemma_unit_start(s@, at as int);
        reveal_strlit("");
        reveal_strlit("M");
        reveal_strlit("MiB");
        reveal_strlit("G");
        reveal_strlit("GiB");
        reveal_strlit("T");
        reveal_strlit("TiB");
    }
    let number = s.substring_char(0, at);
    let unit = s.substring_char(at, cs.len());
    let mebibytes: u64 = if str_eq(unit, "") || str_eq(unit, "M") || str_eq(unit, "MiB") {
        1
    } else if str_eq(unit, "G") || str_eq(unit, "GiB") {
        1024
    } else if str_eq(unit, "T") || str_eq(unit, "TiB") {
        1024 * 1024
    } else {
        return Err(InstallError::InvalidSize { text: s.to_owned() });
    };
    match parse_u64(number) {
        None => {
            proof {
                if let Some(v) = unsigned_value(number@) {
                    assert(v * (mebibytes as nat) >= v) by (nonlinear_arith)
                        requires
                            mebibytes >= 1,
                    ;
                }
            }
            Err(InstallError::InvalidSize { text: s.to_owned() })
        },
        Some(n) => {
            if n > u64::MAX / mebibytes {
                assert((n as nat) * (mebibytes as nat) > u64::MAX) by (nonlinear_arith)
                    requires
                        mebibytes > 0,
                        n > u64::MAX / mebibytes,
                ;
                Err(InstallError::InvalidSize { text: s.to_owned() })
            } else {
                assert(n * mebibytes <= u64::MAX) by (nonlinear_arith)
                    requires
                        mebibytes > 0,
                        n <= u64::MAX / mebibytes,
                ;
                let total = n * mebibytes;
                assert(total as nat == (n as nat) * (mebibytes as nat)) by (nonlinear_arith)
                    requires
                        total == n * mebibytes,
                ;
                Ok(total)
            }
        },
    }
}

} // verus!
