//! Reading the parallelism parameter out of PHC hash text.
//!
//! Argon2 accepts a degree of parallelism of at most 2^24 - 1. A stored hash
//! that asks for more can never verify, so such text is recognised here before
//! it is handed to the hashing library.
use vstd::prelude::*;
use vstd::string::StrSliceExecFns;

verus! {

/// The largest degree of parallelism Argon2 accepts.
pub const MAX_PARALLELISM: u64 = 0xFF_FFFF;

/// One more than [`MAX_PARALLELISM`]: every larger value is counted as this.
const PARALLELISM_CAP: u64 = 0x100_0000;

pub open spec fn is_digit(c: char) -> bool {
    '0' <= c && c <= '9'
}

/// The number of ASCII digits in a row starting at `i`.
pub open spec fn digit_run_len(s: Seq<char>, i: int) -> nat
    decreases s.len() - i,
{
    if 0 <= i < s.len() && is_digit(s[i]) {
        1 + digit_run_len(s, i + 1)
    } else {
        0
    }
}

/// The decimal value of the `k` characters starting at `i`.
pub open spec fn digits_value(s: Seq<char>, i: int, k: nat) -> int
    decreases k,
{
    if k == 0 {
        0
    } else {
        digits_value(s, i, (k - 1) as nat) * 10 + (s[i + k - 1] as u32 - '0' as u32)
    }
}

/// Whether a parameter `p` starts at `i` (right after `$` or `,`) and its
/// decimal value is above [`MAX_PARALLELISM`].
pub open spec fn excessive_p_at(s: Seq<char>, i: int) -> bool {
    &&& 1 <= i
    &&& i + 1 < s.len()
    &&& s[i] == 'p'
    &&& s[i + 1] == '='
    &&& (s[i - 1] == '$' || s[i - 1] == ',')
    &&& digits_value(s, i + 2, digit_run_len(s, i + 2)) > MAX_PARALLELISM
}

/// Whether `s` is PHC-shaped text (it begins with `$`) that asks for more
/// parallelism than Argon2 accepts.
pub open spec fn excessive_parallelism(s: Seq<char>) -> bool {
    &&& s.len() > 0
    &&& s[0] == '$'
    &&& exists|i: int| excessive_p_at(s, i)
}

proof fn lemma_digit_run(s: Seq<char>, k: int, j: int)
    requires
        0 <= k <= j <= s.len(),
        forall|m: int| k <= m < j ==> is_digit(#[trigger] s[m]),
        j == s.len() || !is_digit(s[j]),
    ensures
        digit_run_len(s, k) == j - k,
    decreases j - k,
{
    if k < j {
        lemma_digit_run(s, k + 1, j);
    }
}

proof fn lemma_digits_value_nonneg(s: Seq<char>, i: int, k: nat)
    requires
        forall|m: int| i <= m < i + k ==> is_digit(#[trigger] s[m]),
    ensures
        digits_value(s, i, k) >= 0,
    decreases k,
{
    if k > 0 {
        lemma_digits_value_nonneg(s, i, (k - 1) as nat);
    }
}

/// Whether the digits in a row from `start` read as a number above [`MAX_PARALLELISM`].
fn digit_run_exceeds(s: &str, n: usize, start: usize) -> (r: bool)
    requires
        n == s@.len(),
        start <= n,
    ensures
        r == (digits_value(s@, start as int, digit_run_len(s@, start as int)) > MAX_PARALLELISM),
{
    let mut j: usize = start;
    let mut v: u64 = 0;
    loop
        invariant
            start <= j <= n,
            n == s@.len(),
            forall|m: int| start <= m < j ==> is_digit(#[trigger] s@[m]),
            v <= PARALLELISM_CAP,
            v < PARALLELISM_CAP ==> v == digits_value(s@, start as int, (j - start) as nat),
            v == PARALLELISM_CAP ==> digits_value(s@, start as int, (j - start) as nat) >= PARALLELISM_CAP,
        ensures
            start <= j <= n,
            forall|m: int| start <= m < j ==> is_digit(#[trigger] s@[m]),
            j == n || !is_digit(s@[j as int]),
            v <= PARALLELISM_CAP,
            v < PARALLELISM_CAP ==> v == digits_value(s@, start as int, (j - start) as nat),
            v == PARALLELISM_CAP ==> digits_value(s@, start as int, (j - start) as nat) >= PARALLELISM_CAP,
        decreases n - j,
    {
        if j >= n {
            break;
        }
        let c = s.get_char(j);
        if !('0' <= c && c <= '9') {
            break;
        }
        proof {
            lemma_digits_value_nonneg(s@, start as int, (j - start) as nat);
            assert(digits_value(s@, start as int, (j + 1 - start) as nat) == digits_value(
                s@,
                start as int,
                (j - start) as nat,
            ) * 10 + (c as u32 - '0' as u32));
        }
        if v < PARALLELISM_CAP {
            let w: u64 = v * 10 + (c as u32 - '0' as u32) as u64;
            v = if w > PARALLELISM_CAP { PARALLELISM_CAP } else { w };
        }
        j = j + 1;
    }
    proof {
        lemma_digit_run(s@, start as int, j as int);
    }
    v > MAX_PARALLELISM
}

/// Whether `s` is PHC-shaped text whose `p` parameter is above [`MAX_PARALLELISM`].
pub fn has_excessive_parallelism(s: &str) -> (r: bool)
    ensures
        r == excessive_parallelism(s@),
{
    let n = s.unicode_len();
    if n < 2 {
        return false;
    }
    let first = s.get_char(0);
    if first != '$' {
        return false;
    }
    let mut i: usize = 1;
    while i + 1 < n
        invariant
            1 <= i,
            i + 1 <= n,
            n == s@.len(),
            s@[0] == '$',
            forall|k: int| 0 <= k < i ==> !excessive_p_at(s@, k),
        decreases n - i,
    {
        let before = s.get_char(i - 1);
        if s.get_char(i) == 'p' && s.get_char(i + 1) == '=' && (before == '$' || before == ',') {
            if digit_run_exceeds(s, n, i + 2) {
                assert(excessive_p_at(s@, i as int));
                return true;
            }
        }
        i = i + 1;
    }
    assert forall|k: int| !excessive_p_at(s@, k) by {
        if k >= i {
            assert(!(k + 1 < s@.len()));
        }
    }
    false
}

} // verus!
