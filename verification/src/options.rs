//! Execution configuration: spill enablement, memory budget and batch size,
//! with defaults resolved from environment-supplied overrides at read time.

use vstd::prelude::*;

verus! {

/// The hard-coded default memory budget (100 MiB).
pub const DEFAULT_LANCE_MEM_POOL_SIZE: u64 = 100 * 1024 * 1024;

/// Overrides read from the process environment by the host application and
/// handed to this library as plain values: the raw textual value of the
/// memory-budget variable, if present, and whether the spilling kill-switch
/// variable is present at all (its value is ignored).
pub struct EnvOverrides {
    pub mem_pool_size: Option<String>,
    pub bypass_spilling: bool,
}

impl EnvOverrides {
    /// An environment with no overrides set.
    pub fn none() -> (r: EnvOverrides)
        ensures
            r.mem_pool_size is None,
            !r.bypass_spilling,
    {
        EnvOverrides { mem_pool_size: None, bypass_spilling: false }
    }
}

pub open spec fn is_dec_digit(c: char) -> bool {
    48 <= c as int && c as int <= 57
}

pub open spec fn digit_val(c: char) -> int {
    c as int - 48
}

pub open spec fn all_dec_digits(s: Seq<char>) -> bool {
    forall|i: int| 0 <= i < s.len() ==> is_dec_digit(#[trigger] s[i])
}

/// The value of a sequence of decimal digits, most significant first.
pub open spec fn dec_value(s: Seq<char>) -> int
    decreases s.len(),
{
    if s.len() == 0 {
        0
    } else {
        dec_value(s.drop_last()) * 10 + digit_val(s.last())
    }
}

/// The digit portion of a numeral: everything after an optional leading '+'.
pub open spec fn numeral_digits(s: Seq<char>) -> Seq<char> {
    if s.len() > 0 && s[0] == '+' {
        s.skip(1)
    } else {
        s
    }
}

/// The strings accepted as a `u64`: an optional '+', then one or more
/// decimal digits, denoting a value that fits in 64 bits.
pub open spec fn is_u64_numeral(s: Seq<char>) -> bool {
    let d = numeral_digits(s);
    d.len() > 0 && all_dec_digits(d) && dec_value(d) <= u64::MAX
}

proof fn lemma_dec_value_nonneg(s: Seq<char>)
    requires
        all_dec_digits(s),
    ensures
        dec_value(s) >= 0,
    decreases s.len(),
{
    if s.len() > 0 {
        assert(all_dec_digits(s.drop_last()));
        lemma_dec_value_nonneg(s.drop_last());
    }
}

/// The value of a digit string only grows as digits are appended.
proof fn lemma_dec_value_prefix_le(s: Seq<char>, j: int)
    requires
        all_dec_digits(s),
        0 <= j <= s.len(),
    ensures
        dec_value(s.take(j)) <= dec_value(s),
    decreases s.len() - j,
{
    if j == s.len() {
        assert(s.take(j) =~= s);
    } else {
        assert(all_dec_digits(s.take(j)));
        lemma_dec_value_nonneg(s.take(j));
        assert(s.take(j + 1).drop_last() =~= s.take(j));
        assert(dec_value(s.take(j + 1)) == dec_value(s.take(j)) * 10 + digit_val(s[j]));
        lemma_dec_value_prefix_le(s, j + 1);
    }
}

/// Parses a string exactly as the standard decimal `u64` conversion does:
/// an optional leading '+' followed by one or more ASCII digits, rejecting
/// anything else and any value that does not fit in 64 bits.
pub fn parse_u64(s: &str) -> (r: Option<u64>)
    ensures
        r is Some <==> is_u64_numeral(s@),
        r is Some ==> r->0 == dec_value(numeral_digits(s@)),
{
    let n = s.unicode_len();
    let start: usize = if n > 0 && s.get_char(0) == '+' {
        1
    } else {
        0
    };
    if n == start {
        return None;
    }
    let ghost d = numeral_digits(s@);
    proof {
        assert(d =~= s@.skip(start as int));
    }
    let mut i: usize = start;
    let mut val: u64 = 0;
    while i < n
        invariant
            start <= i <= n,
            start < n,
            n == s@.len(),
            d == numeral_digits(s@),
            d =~= s@.skip(start as int),
            all_dec_digits(s@.subrange(start as int, i as int)),
            val == dec_value(s@.subrange(start as int, i as int)),
        decreases n - i,
    {
        let c = s.get_char(i);
        let cv = c as u32;
        if cv < 48 || cv > 57 {
            proof {
                assert(d[i - start] == s@[i as int]);
                assert(!is_dec_digit(d[i - start]));
            }
            return None;
        }
        let digit = (cv - 48) as u64;
        if val > (u64::MAX - digit) / 10 {
            proof {
                let pre = s@.subrange(start as int, i as int);
                let ext = s@.subrange(start as int, i as int + 1);
                assert(ext.drop_last() =~= pre);
                assert(dec_value(ext) == dec_value(pre) * 10 + digit_val(s@[i as int]));
                assert(dec_value(pre) * 10 + digit > u64::MAX) by (nonlinear_arith)
                    requires
                        dec_value(pre) > (u64::MAX - digit) / 10,
                        0 <= digit <= 9,
                ;
                assert(ext =~= d.take(i - start + 1));
                if all_dec_digits(d) {
                    lemma_dec_value_prefix_le(d, i - start + 1);
                    assert(dec_value(d) > u64::MAX);
                }
            }
            return None;
        }
        proof {
            let pre = s@.subrange(start as int, i as int);
            let ext = s@.subrange(start as int, i as int + 1);
            assert(ext.drop_last() =~= pre);
            assert(ext.last() == s@[i as int]);
        }
        val = val * 10 + digit;
        i = i + 1;
    }
    proof {
        assert(s@.subrange(start as int, n as int) =~= d);
    }
    Some(val)
}

/// Caller-supplied execution options. Absent fields fall back to
/// environment-derived or hard-coded defaults when read, not when built.
#[derive(Debug, Clone)]
pub struct LanceExecutionOptions {
    pub use_spilling: bool,
    pub mem_pool_size: Option<u64>,
    pub batch_size: Option<usize>,
}

impl Default for LanceExecutionOptions {
    /// Spilling off, no explicit memory budget, no batch-size override.
    fn default() -> (r: Self)
        ensures
            !r.use_spilling,
            r.mem_pool_size is None,
            r.batch_size is None,
    {
        LanceExecutionOptions { use_spilling: false, mem_pool_size: None, batch_size: None }
    }
}

impl LanceExecutionOptions {
    /// The resolved memory budget: the explicit value when set; otherwise a
    /// well-formed environment override; otherwise the hard-coded default.
    /// A malformed override is absorbed and replaced by the default.
    pub open spec fn spec_mem_pool_size(&self, env: EnvOverrides) -> u64 {
        if self.mem_pool_size is Some {
            self.mem_pool_size->0
        } else if env.mem_pool_size is Some && is_u64_numeral(env.mem_pool_size->0@) {
            dec_value(numeral_digits(env.mem_pool_size->0@)) as u64
        } else {
            DEFAULT_LANCE_MEM_POOL_SIZE
        }
    }

    pub fn mem_pool_size(&self, env: &EnvOverrides) -> (r: u64)
        ensures
            r == self.spec_mem_pool_size(*env),
    {
        match self.mem_pool_size {
            Some(v) => v,
            None => match &env.mem_pool_size {
                Some(s) => match parse_u64(s.as_str()) {
                    Some(v) => v,
                    None => DEFAULT_LANCE_MEM_POOL_SIZE,
                },
                None => DEFAULT_LANCE_MEM_POOL_SIZE,
            },
        }
    }

    /// The resolved spilling flag: off whenever the base flag is off, and
    /// forced off by the environment kill-switch even when it is on.
    pub open spec fn spec_use_spilling(&self, env: EnvOverrides) -> bool {
        self.use_spilling && !env.bypass_spilling
    }

    pub fn use_spilling(&self, env: &EnvOverrides) -> (r: bool)
        ensures
            r == self.spec_use_spilling(*env),
    {
        self.use_spilling && !env.bypass_spilling
    }

    /// The batch-size override is usable only when it is positive: the
    /// engine's session configuration rejects a batch size of zero.
    pub open spec fn valid_batch_size(&self) -> bool {
        self.batch_size is Some ==> self.batch_size->0 > 0
    }
}

} // verus!
