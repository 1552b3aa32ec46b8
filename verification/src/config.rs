//! Configuration-value extraction: the named table supplies a sound name
//! and a period duration as strings; a missing or unparsable entry defaults
//! rather than failing.
//!
//! Reading the configuration file and the environment is host glue; the
//! host hands [`extract_table`] each entry as an optional string.

use vstd::prelude::*;

verus! {

/// A decimal digit.
pub open spec fn is_dec_digit(c: char) -> bool {
    '0' <= c && c <= '9'
}

/// Numeric value of a decimal digit.
pub open spec fn digit_val(c: char) -> int {
    c as int - '0' as int
}

/// Every character of `s` is a decimal digit.
pub open spec fn all_dec_digits(s: Seq<char>) -> bool {
    forall|i: int| 0 <= i < s.len() ==> is_dec_digit(#[trigger] s[i])
}

/// The integer a digit string denotes in base ten.
pub open spec fn dec_val(s: Seq<char>) -> int
    decreases s.len(),
{
    if s.len() == 0 {
        0
    } else {
        dec_val(s.drop_last()) * 10 + digit_val(s.last())
    }
}

/// `s` is a decimal numeral that fits in a `u64`: nonempty, digits only,
/// value at most `u64::MAX`.
pub open spec fn is_u64_numeral(s: Seq<char>) -> bool {
    s.len() > 0 && all_dec_digits(s) && dec_val(s) <= u64::MAX
}

proof fn lemma_dec_val_nonneg(s: Seq<char>)
    requires
        all_dec_digits(s),
    ensures
        dec_val(s) >= 0,
    decreases s.len(),
{
    if s.len() > 0 {
        assert(all_dec_digits(s.drop_last())) by {
            assert(forall|i: int|
                0 <= i < s.len() - 1 ==> is_dec_digit(#[trigger] s.drop_last()[i]));
        }
        lemma_dec_val_nonneg(s.drop_last());
    }
}

/// Appending digits never shrinks the value: a prefix of an all-digit
/// string denotes at most what the whole string denotes.
proof fn lemma_dec_val_prefix_le(s: Seq<char>, i: int)
    requires
        all_dec_digits(s),
        0 <= i <= s.len(),
    ensures
        dec_val(s.subrange(0, i)) <= dec_val(s),
    decreases s.len() - i,
{
    if i == s.len() {
        assert(s.subrange(0, i) =~= s);
    } else {
        let p = s.subrange(0, i);
        let q = s.subrange(0, i + 1);
        assert(q.drop_last() =~= p);
        lemma_dec_val_nonneg(p);
        assert(dec_val(q) == dec_val(p) * 10 + digit_val(s[i]));
        assert(dec_val(p) * 10 >= dec_val(p)) by (nonlinear_arith)
            requires
                dec_val(p) >= 0,
        ;
        lemma_dec_val_prefix_le(s, i + 1);
    }
}

/// Parses `s` as a base-ten `u64`. Returns the denoted value exactly when
/// `s` is a nonempty string of decimal digits whose value fits in a `u64`,
/// and nothing otherwise.
pub fn parse_u64(s: &str) -> (r: Option<u64>)
    ensures
        match r {
            Some(v) => is_u64_numeral(s@) && v == dec_val(s@),
            None => !is_u64_numeral(s@),
        },
{
    let len = s.unicode_len();
    if len == 0 {
        return None;
    }
    let mut acc: u64 = 0;
    let mut i: usize = 0;
    while i < len
        invariant
            0 <= i <= len,
            len == s@.len(),
            all_dec_digits(s@.subrange(0, i as int)),
            acc == dec_val(s@.subrange(0, i as int)),
        decreases len - i,
    {
        let c = s.get_char(i);
        if c < '0' || c > '9' {
            assert(!is_dec_digit(s@[i as int]));
            return None;
        }
        let d: u64 = (c as u32 - 48) as u64;
        assert(d == digit_val(s@[i as int]));
        if acc > (u64::MAX - d) / 10 {
            proof {
                let head = s@.subrange(0, i as int);
                let ext = s@.subrange(0, i as int + 1);
                assert(ext.drop_last() =~= head);
                assert(dec_val(ext) == acc * 10 + d);
                let cap = (u64::MAX - d) as int;
                vstd::arithmetic::div_mod::lemma_fundamental_div_mod(cap, 10);
                assert(acc * 10 >= (cap / 10 + 1) * 10) by (nonlinear_arith)
                    requires
                        acc >= cap / 10 + 1,
                ;
                assert(dec_val(ext) > u64::MAX);
                if all_dec_digits(s@) {
                    lemma_dec_val_nonneg(ext);
                    lemma_dec_val_prefix_le(s@, i as int + 1);
                    assert(dec_val(s@) > u64::MAX);
                }
            }
            return None;
        }
        proof {
            let head = s@.subrange(0, i as int);
            let ext = s@.subrange(0, i as int + 1);
            assert(ext.drop_last() =~= head);
            let cap = (u64::MAX - d) as int;
            vstd::arithmetic::div_mod::lemma_fundamental_div_mod(cap, 10);
            assert(acc * 10 <= (cap / 10) * 10) by (nonlinear_arith)
                requires
                    0 <= acc <= cap / 10,
            ;
        }
        acc = acc * 10 + d;
        i = i + 1;
    }
    proof {
        assert(s@.subrange(0, len as int) =~= s@);
    }
    Some(acc)
}

/// The duration a configuration entry denotes: a missing entry and an entry
/// that is not a decimal numeral fitting in a `u64` both default to zero
/// seconds.
pub open spec fn spec_entry_duration(entry: Option<Seq<char>>) -> int {
    match entry {
        Some(s) => if is_u64_numeral(s) {
            dec_val(s)
        } else {
            0
        },
        None => 0,
    }
}

/// The sound name a configuration entry denotes: empty when missing.
pub open spec fn spec_entry_sound(entry: Option<Seq<char>>) -> Seq<char> {
    match entry {
        Some(s) => s,
        None => Seq::empty(),
    }
}

/// The values read out of the configuration's named table.
pub struct ConfigTable {
    /// Name of the sound to play on a period boundary.
    pub sound: String,
    /// Period duration in seconds.
    pub duration_secs: u64,
}

/// Spec view of an optional string entry.
pub open spec fn entry_view(entry: Option<String>) -> Option<Seq<char>> {
    match entry {
        Some(s) => Some(s@),
        None => None,
    }
}

/// Turns the raw entries of the configuration table into a [`ConfigTable`],
/// defaulting a missing sound to the empty string and a missing or
/// unparsable duration to zero seconds.
pub fn extract_table(sound: Option<String>, duration: Option<String>) -> (t: ConfigTable)
    ensures
        t.sound@ == spec_entry_sound(entry_view(sound)),
        t.duration_secs == spec_entry_duration(entry_view(duration)),
{
    let sound_name = match sound {
        Some(s) => s,
        None => String::new(),
    };
    let duration_secs = match duration {
        Some(s) => match parse_u64(s.as_str()) {
            Some(v) => v,
            None => 0,
        },
        None => 0,
    };
    ConfigTable { sound: sound_name, duration_secs }
}

} // verus!
