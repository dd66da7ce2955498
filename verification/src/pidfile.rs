//! Codec for the persisted process-identifier record.
//!
//! The registry is a single file holding the decimal textual representation
//! of one positive process identifier, with no trailing structure. Loading
//! never fails: absent or unparsable content degrades to "no recorded
//! instance", never to an error.

use vstd::prelude::*;

verus! {

/// True of an ASCII decimal digit byte.
pub open spec fn is_ascii_digit(b: u8) -> bool {
    48 <= b && b <= 57
}

/// Numeric value of one digit byte (zero on a non-digit).
pub open spec fn digit_value(b: u8) -> nat {
    if is_ascii_digit(b) {
        (b - 48) as nat
    } else {
        0
    }
}

/// Every byte of the sequence is an ASCII decimal digit.
pub open spec fn all_digits(s: Seq<u8>) -> bool {
    forall|i: int| 0 <= i < s.len() ==> is_ascii_digit(#[trigger] s[i])
}

/// Value of a digit string, most significant digit first.
pub open spec fn dec_value(s: Seq<u8>) -> nat
    decreases s.len(),
{
    if s.len() == 0 {
        0
    } else {
        dec_value(s.drop_last()) * 10 + digit_value(s.last())
    }
}

/// Canonical decimal representation of `n`: no sign, no leading zeros.
pub open spec fn dec_repr(n: nat) -> Seq<u8>
    decreases n,
{
    if n < 10 {
        seq![(n + 48) as u8]
    } else {
        dec_repr(n / 10).push((n % 10 + 48) as u8)
    }
}

/// A byte string the registry accepts as a recorded identifier: nonempty,
/// all digits, positive, and within the machine's identifier range.
pub open spec fn valid_pid_record(s: Seq<u8>) -> bool {
    &&& s.len() > 0
    &&& all_digits(s)
    &&& 1 <= dec_value(s)
    &&& dec_value(s) <= u64::MAX
}

/// What loading the registry yields for given file content (`None` stands
/// for a missing file).
pub open spec fn load_recorded_spec(content: Option<Seq<u8>>) -> Option<u64> {
    match content {
        Option::None => Option::None,
        Option::Some(s) => if valid_pid_record(s) {
            Option::Some(dec_value(s) as u64)
        } else {
            Option::None
        },
    }
}

proof fn lemma_dec_value_take_le(s: Seq<u8>, k: int)
    requires
        0 <= k <= s.len(),
    ensures
        dec_value(s.take(k)) <= dec_value(s),
    decreases s.len() - k,
{
    if k < s.len() {
        assert(s.take(k + 1).drop_last() =~= s.take(k));
        assert(s.take(k + 1).last() == s[k]);
        assert(dec_value(s.take(k + 1)) == dec_value(s.take(k)) * 10 + digit_value(s[k]));
        lemma_dec_value_take_le(s, k + 1);
    } else {
        assert(s.take(k) =~= s);
    }
}

proof fn lemma_dec_repr_digits(n: nat)
    ensures
        dec_repr(n).len() >= 1,
        all_digits(dec_repr(n)),
        dec_value(dec_repr(n)) == n,
    decreases n,
{
    if n < 10 {
        let s = dec_repr(n);
        assert(s == seq![(n + 48) as u8]);
        assert(s.drop_last() =~= Seq::<u8>::empty());
        assert(dec_value(s) == dec_value(s.drop_last()) * 10 + digit_value(s.last()));
    } else {
        lemma_dec_repr_digits(n / 10);
        let front = dec_repr(n / 10);
        let d = (n % 10 + 48) as u8;
        let s = dec_repr(n);
        assert(s == front.push(d));
        assert(s.drop_last() =~= front);
        assert(s.last() == d);
        assert(dec_value(s) == dec_value(front) * 10 + digit_value(d));
        assert(forall|i: int| 0 <= i < s.len() ==> is_ascii_digit(#[trigger] s[i])) by {
            assert(forall|i: int| 0 <= i < front.len() ==> s[i] == #[trigger] front[i]);
        }
    }
}

/// Law: writing then loading the registry yields the exact identifier
/// written, for any valid positive identifier. The written record is a
/// valid one, and its recorded value is the identifier itself.
pub proof fn lemma_registry_round_trip(pid: u64)
    requires
        1 <= pid,
    ensures
        valid_pid_record(dec_repr(pid as nat)),
        dec_value(dec_repr(pid as nat)) == pid,
        load_recorded_spec(Option::Some(dec_repr(pid as nat))) == Option::Some(pid),
{
    lemma_dec_repr_digits(pid as nat);
}

/// Renders an identifier as the registry's file content: its canonical
/// decimal representation.
pub fn format_pid(pid: u64) -> (r: Vec<u8>)
    requires
        1 <= pid,
    ensures
        r@ == dec_repr(pid as nat),
        valid_pid_record(r@),
        dec_value(r@) == pid,
{
    let mut digits: Vec<u8> = Vec::new();
    let mut m: u64 = pid;
    proof {
        assert(dec_repr(pid as nat) =~= dec_repr(m as nat) + digits@);
    }
    while m >= 10
        invariant
            dec_repr(pid as nat) =~= dec_repr(m as nat) + digits@,
        decreases m,
    {
        let d: u8 = (m % 10) as u8 + 48;
        let ghost prev = digits@;
        let ghost m_prev = m as nat;
        digits.insert(0, d);
        m = m / 10;
        proof {
            assert(digits@ =~= seq![d] + prev);
            assert(dec_repr(m_prev) == dec_repr(m_prev / 10).push((m_prev % 10 + 48) as u8));
            assert(dec_repr(m_prev) =~= dec_repr(m as nat) + seq![d]);
            assert(dec_repr(pid as nat) =~= dec_repr(m as nat) + digits@);
        }
    }
    let d: u8 = m as u8 + 48;
    let ghost prev = digits@;
    digits.insert(0, d);
    proof {
        assert(digits@ =~= seq![d] + prev);
        assert(dec_repr(m as nat) == seq![d]);
        assert(dec_repr(pid as nat) =~= digits@);
        lemma_registry_round_trip(pid);
    }
    digits
}

/// Parses registry file content as a recorded identifier. Yields the
/// recorded value exactly on valid records and nothing on anything else:
/// empty content, a non-digit byte, a value of zero, or a value beyond the
/// machine's identifier range.
pub fn parse_pid(bytes: &[u8]) -> (r: Option<u64>)
    ensures
        match r {
            Option::Some(pid) => valid_pid_record(bytes@) && pid == dec_value(bytes@) && 1 <= pid,
            Option::None => !valid_pid_record(bytes@),
        },
{
    let n = bytes.len();
    if n == 0 {
        return Option::None;
    }
    let mut acc: u64 = 0;
    let mut i: usize = 0;
    while i < n
        invariant
            0 <= i <= n,
            n == bytes@.len(),
            all_digits(bytes@.take(i as int)),
            acc == dec_value(bytes@.take(i as int)),
        decreases n - i,
    {
        let b = bytes[i];
        if b < 48 || b > 57 {
            assert(!all_digits(bytes@));
            return Option::None;
        }
        let d: u64 = (b - 48) as u64;
        let ghost prefix = bytes@.take(i as int);
        let ghost next_prefix = bytes@.take(i as int + 1);
        proof {
            assert(next_prefix.drop_last() =~= prefix);
            assert(next_prefix.last() == bytes@[i as int]);
            assert(dec_value(next_prefix) == dec_value(prefix) * 10 + digit_value(bytes@[i as int]));
        }
        let scaled = match acc.checked_mul(10) {
            Option::Some(v) => v,
            Option::None => {
                proof {
                    lemma_dec_value_take_le(bytes@, i as int + 1);
                }
                return Option::None;
            },
        };
        acc = match scaled.checked_add(d) {
            Option::Some(v) => v,
            Option::None => {
                proof {
                    lemma_dec_value_take_le(bytes@, i as int + 1);
                }
                return Option::None;
            },
        };
        i = i + 1;
        proof {
            assert(forall|j: int|
                0 <= j < i ==> is_ascii_digit(#[trigger] bytes@.take(i as int)[j]));
        }
    }
    proof {
        assert(bytes@.take(n as int) =~= bytes@);
    }
    if acc == 0 {
        return Option::None;
    }
    Option::Some(acc)
}

/// Registry load over already-read file content: a missing file or an
/// invalid record both degrade to "no recorded instance"; this never fails.
pub fn load_recorded(content: &Option<Vec<u8>>) -> (r: Option<u64>)
    ensures
        r == load_recorded_spec(match *content {
            Option::None => Option::<Seq<u8>>::None,
            Option::Some(v) => Option::Some(v@),
        }),
{
    match content {
        Option::None => Option::None,
        Option::Some(bytes) => parse_pid(bytes.as_slice()),
    }
}


} // verus!
