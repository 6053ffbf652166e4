//! CPU affinity of the Chrome ASR worker: opt-in, either an explicit mask or all cores
//! but the lowest few.  Reading the environment and the core count is the caller's part.
use vstd::prelude::*;

use crate::launch_stability::{env_truthy, truthy};
use crate::text::{trim, trim_str};

verus! {

pub const ENV_AFFINITY: &'static str = "VOICESUB_BROWSER_AFFINITY";

pub const ENV_AFFINITY_MASK: &'static str = "VOICESUB_BROWSER_AFFINITY_MASK";

pub const ENV_EXCLUDE_LOW: &'static str = "VOICESUB_BROWSER_AFFINITY_EXCLUDE_LOW";

/// Value of one digit in base `radix` (10 or 16, either letter case).
pub open spec fn digit_value(c: char, radix: u32) -> Option<nat> {
    if '0' <= c && c <= '9' {
        Some((c as u32 - 48) as nat)
    } else if radix == 16 && 'a' <= c && c <= 'f' {
        Some((c as u32 - 87) as nat)
    } else if radix == 16 && 'A' <= c && c <= 'F' {
        Some((c as u32 - 55) as nat)
    } else {
        None
    }
}

pub open spec fn all_radix_digits(s: Seq<char>, radix: u32) -> bool {
    forall|i: int| 0 <= i < s.len() ==> #[trigger] digit_value(s[i], radix) is Some
}

pub open spec fn radix_value(s: Seq<char>, radix: u32) -> nat
    decreases s.len(),
{
    if s.len() == 0 {
        0
    } else {
        radix_value(s.drop_last(), radix) * radix as nat + match digit_value(s.last(), radix) {
            Some(d) => d,
            None => 0,
        }
    }
}

/// `usize::from_str_radix`: an optional `+`, then one or more digits, in range.
pub open spec fn parse_radix(s: Seq<char>, radix: u32) -> Option<usize> {
    let d = if s.len() > 0 && s[0] == '+' { s.drop_first() } else { s };
    if d.len() > 0 && all_radix_digits(d, radix) && radix_value(d, radix) <= usize::MAX {
        Some(radix_value(d, radix) as usize)
    } else {
        None
    }
}

proof fn lemma_radix_value_monotone(s: Seq<char>, radix: u32, i: int)
    requires
        0 <= i <= s.len(),
        radix >= 1,
    ensures
        radix_value(s.take(i), radix) <= radix_value(s, radix),
    decreases s.len() - i,
{
    if i < s.len() {
        lemma_radix_value_monotone(s, radix, i + 1);
        let t = s.take(i + 1);
        assert(t.drop_last() =~= s.take(i));
        let p = radix_value(s.take(i), radix);
        assert(p <= p * radix as nat) by (nonlinear_arith)
            requires
                radix >= 1,
        ;
    } else {
        assert(s.take(i) =~= s);
    }
}

fn digit_value_exec(c: char, radix: u32) -> (r: Option<u64>)
    ensures
        match r {
            Some(v) => digit_value(c, radix) == Some(v as nat) && v < 16,
            None => digit_value(c, radix) is None,
        },
{
    if '0' <= c && c <= '9' {
        Some((c as u32 - 48) as u64)
    } else if radix == 16 && 'a' <= c && c <= 'f' {
        Some((c as u32 - 87) as u64)
    } else if radix == 16 && 'A' <= c && c <= 'F' {
        Some((c as u32 - 55) as u64)
    } else {
        None
    }
}

pub fn parse_radix_usize(s: &str, radix: u32) -> (r: Option<usize>)
    requires
        radix == 10 || radix == 16,
    ensures
        r == parse_radix(s@, radix),
{
    let v = crate::text::chars_of(s);
    let start: usize = if v.len() > 0 && v[0] == '+' { 1 } else { 0 };
    let ghost d = if s@.len() > 0 && s@[0] == '+' { s@.drop_first() } else { s@ };
    assert(d =~= s@.subrange(start as int, s@.len() as int));
    if start >= v.len() {
        return None;
    }
    let mut acc: usize = 0;
    let mut i: usize = start;
    while i < v.len()
        invariant
            v@ == s@,
            radix == 10 || radix == 16,
            start <= i <= v.len(),
            d =~= s@.subrange(start as int, s@.len() as int),
            d == (if s@.len() > 0 && s@[0] == '+' { s@.drop_first() } else { s@ }),
            start == (if s@.len() > 0 && s@[0] == '+' { 1int } else { 0int }),
            start < v.len(),
            all_radix_digits(d.take(i - start), radix),
            acc == radix_value(d.take(i - start), radix),
        decreases v.len() - i,
    {
        let c = v[i];
        let dv = match digit_value_exec(c, radix) {
            Some(x) => x,
            None => {
                assert(d[i - start] == c);
                return None;
            },
        };
        let t = Ghost(d.take(i + 1 - start));
        proof {
            assert(t@.drop_last() =~= d.take(i - start));
            assert(t@.last() == c);
            assert(radix_value(t@, radix) == acc * radix + dv);
        }
        let next: u128 = acc as u128 * radix as u128 + dv as u128;
        if next > usize::MAX as u128 {
            proof {
                if all_radix_digits(d, radix) {
                    lemma_radix_value_monotone(d, radix, i + 1 - start);
                }
            }
            return None;
        }
        proof {
            assert forall|k: int| 0 <= k < t@.len() implies #[trigger] digit_value(t@[k], radix) is Some by {
                if k < t@.len() - 1 {
                    assert(t@[k] == d.take(i - start)[k]);
                }
            }
        }
        acc = next as usize;
        i = i + 1;
    }
    assert(d.take(v.len() - start) =~= d);
    Some(acc)
}

/// A mask value: trimmed; hexadecimal after `0x` / `0X`, else decimal; blank or invalid
/// read as none.
pub open spec fn mask_value(raw: Option<Seq<char>>) -> Option<usize> {
    match raw {
        Some(r) => {
            let t = trim(r);
            if t.len() == 0 {
                None
            } else if t.len() >= 2 && t[0] == '0' && (t[1] == 'x' || t[1] == 'X') {
                parse_radix(t.skip(2), 16)
            } else {
                parse_radix(t, 10)
            }
        },
        None => None,
    }
}

pub open spec fn opt_str(o: Option<&str>) -> Option<Seq<char>> {
    match o {
        Some(s) => Some(s@),
        None => None,
    }
}

pub fn parse_mask(raw: Option<&str>) -> (r: Option<usize>)
    ensures
        r == mask_value(opt_str(raw)),
{
    match raw {
        Some(r) => {
            let t = trim_str(r);
            let v = crate::text::chars_of(t.as_str());
            if v.len() == 0 {
                return None;
            }
            if v.len() >= 2 && v[0] == '0' && (v[1] == 'x' || v[1] == 'X') {
                let rest = crate::text::string_from_range(&v, 2, v.len());
                assert(rest@ =~= t@.skip(2));
                parse_radix_usize(rest.as_str(), 16)
            } else {
                parse_radix_usize(t.as_str(), 10)
            }
        },
        None => None,
    }
}

/// All cores: the low `cores` bits (every bit from the word size on).
pub open spec fn all_core_bits(cores: usize) -> usize {
    if cores >= usize::BITS {
        usize::MAX
    } else {
        ((1usize << cores) - 1) as usize
    }
}

/// The low `n` bits (at most one less than the word size).
pub open spec fn low_bits(n: usize) -> usize {
    let k = if n < usize::BITS - 1 { n } else { (usize::BITS - 1) as usize };
    ((1usize << k) - 1) as usize
}

/// The affinity mask for the worker: off when disabled; an explicit non-zero mask wins;
/// otherwise, only when enabled, every core but the lowest `exclude_low` (2 by default),
/// provided more than `exclude_low + 1` cores exist.
pub open spec fn affinity_mask(
    affinity: Option<Seq<char>>,
    mask: Option<Seq<char>>,
    exclude_low: Option<Seq<char>>,
    cores: usize,
) -> Option<usize> {
    if truthy(affinity) == Some(false) {
        None
    } else if mask_value(mask) is Some {
        if mask_value(mask)->0 > 0 { mask_value(mask) } else { None }
    } else if truthy(affinity) != Some(true) {
        None
    } else {
        let e: usize = match mask_value(exclude_low) {
            Some(v) => v,
            None => 2,
        };
        if e == 0 {
            None
        } else if cores as int <= e as int + 1 {
            None
        } else {
            let m = all_core_bits(cores) & !low_bits(e);
            if m > 0 { Some(m) } else { None }
        }
    }
}

pub fn resolve_browser_worker_affinity_mask(
    affinity: Option<&str>,
    mask: Option<&str>,
    exclude_low: Option<&str>,
    cores: usize,
) -> (r: Option<usize>)
    ensures
        r == affinity_mask(opt_str(affinity), opt_str(mask), opt_str(exclude_low), cores),
{
    let enabled = env_truthy(affinity);
    if enabled == Some(false) {
        return None;
    }
    match parse_mask(mask) {
        Some(m) => {
            return if m > 0 {
                Some(m)
            } else {
                None
            };
        },
        None => {},
    }
    if enabled != Some(true) {
        return None;
    }
    let e: usize = match parse_mask(exclude_low) {
        Some(v) => v,
        None => 2,
    };
    if e == 0 {
        return None;
    }
    if cores as u128 <= e as u128 + 1 {
        return None;
    }
    let all_bits: usize = if cores >= usize::BITS as usize {
        usize::MAX
    } else {
        assert(1usize << cores >= 1) by (bit_vector)
            requires
                cores < usize::BITS,
        ;
        (1usize << cores) - 1
    };
    let k: usize = if e < usize::BITS as usize - 1 { e } else { usize::BITS as usize - 1 };
    assert(1usize << k >= 1) by (bit_vector)
        requires
            k < usize::BITS,
    ;
    let reserved: usize = (1usize << k) - 1;
    let m = all_bits & !reserved;
    if m > 0 {
        Some(m)
    } else {
        None
    }
}

/// Law: with more than three cores and the default exclusion, the two lowest cores are
/// never in the resolved mask.
pub proof fn law_low_cores_reserved(cores: usize, mask: usize)
    requires
        mask == all_core_bits(cores) & !low_bits(2),
        usize::BITS >= 32,
    ensures
        mask & 3 == 0,
{
    let r = low_bits(2);
    assert(r == 3) by (bit_vector)
        requires
            r == ((1usize << 2usize) - 1) as usize,
    ;
    let a = all_core_bits(cores);
    assert((a & !r) & 3 == 0) by (bit_vector)
        requires
            r == 3,
    ;
}

} // verus!
