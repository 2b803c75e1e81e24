//! Process configuration: read once at startup, immutable afterwards.

use vstd::prelude::*;

verus! {

/// Settings for the analytics beacon. All three are required whenever the
/// beacon is active, so a configuration either carries all of them or none.
pub struct TrackingConfig {
    /// Base URL of the analytics endpoint, without a query string.
    pub endpoint: String,
    /// Site identifier reported as `idsite`.
    pub site_id: String,
    /// Authentication token reported as `token_auth`.
    pub auth_token: String,
}

/// Process-wide configuration, populated from the environment at startup and
/// shared read-only by every request handler.
pub struct EnvConfig {
    /// Listening port.
    pub port: u16,
    /// Whether the process runs in production mode; only then does the
    /// redirect guard act.
    pub production: bool,
    /// Root directory of the static asset tree.
    pub static_root: String,
    /// Base origin for the reverse proxy, e.g. `http://origin.example`.
    pub proxy_base: String,
    /// Beacon settings, or `None` when tracking is disabled.
    pub tracking: Option<TrackingConfig>,
}

/// An ASCII decimal digit.
pub open spec fn is_ascii_digit(c: char) -> bool {
    48 <= c as u32 <= 57
}

/// Numeric value of an ASCII digit.
pub open spec fn digit_val(c: char) -> int {
    c as u32 - 48
}

/// Every character of `s` is an ASCII decimal digit.
pub open spec fn all_digits(s: Seq<char>) -> bool {
    forall|i: int| 0 <= i < s.len() ==> is_ascii_digit(#[trigger] s[i])
}

/// Value of a digit string read as a base-10 number.
pub open spec fn dec_value(s: Seq<char>) -> int
    decreases s.len(),
{
    if s.len() == 0 {
        0
    } else {
        dec_value(s.drop_last()) * 10 + digit_val(s.last())
    }
}

/// Extending a digit string never decreases its value: the value of a prefix
/// is a lower bound for the value of the whole string.
proof fn lemma_dec_value_prefix(s: Seq<char>, i: int)
    requires
        0 <= i <= s.len(),
        all_digits(s),
    ensures
        dec_value(s.take(i)) <= dec_value(s),
    decreases s.len() - i,
{
    if i < s.len() {
        let t = s.take(i);
        assert(all_digits(t)) by {
            assert(forall|j: int| 0 <= j < t.len() ==> t[j] == #[trigger] s[j]);
        }
        lemma_dec_value_nonneg(t);
        assert(s.take(i + 1).drop_last() =~= t);
        assert(s.take(i + 1).last() == s[i]);
        assert(dec_value(t) * 10 >= dec_value(t)) by (nonlinear_arith)
            requires
                dec_value(t) >= 0,
        ;
        assert(dec_value(t) <= dec_value(s.take(i + 1)));
        lemma_dec_value_prefix(s, i + 1);
    } else {
        assert(s.take(i) =~= s);
    }
}

/// A digit string never has a negative value.
proof fn lemma_dec_value_nonneg(s: Seq<char>)
    requires
        all_digits(s),
    ensures
        dec_value(s) >= 0,
    decreases s.len(),
{
    if s.len() > 0 {
        assert(all_digits(s.drop_last())) by {
            assert(forall|i: int| 0 <= i < s.len() - 1 ==> s.drop_last()[i] == #[trigger] s[i]);
        }
        lemma_dec_value_nonneg(s.drop_last());
        assert(dec_value(s.drop_last()) * 10 >= 0) by (nonlinear_arith)
            requires dec_value(s.drop_last()) >= 0;
    }
}

/// Parses the listening port from the environment's text. The result is
/// `Some` exactly when the text is a non-empty string of decimal digits whose
/// value fits a port number; startup aborts on `None`.
pub fn parse_port(s: &str) -> (r: Option<u16>)
    ensures
        r is Some <==> (s@.len() > 0 && all_digits(s@) && dec_value(s@) <= u16::MAX),
        r matches Some(p) ==> p as int == dec_value(s@),
{
    let n: usize = s.unicode_len();
    if n == 0 {
        return None;
    }
    let mut acc: u32 = 0;
    let mut i: usize = 0;
    while i < n
        invariant
            0 <= i <= n,
            n == s@.len(),
            acc <= u16::MAX,
            acc as int == dec_value(s@.take(i as int)),
            forall|j: int| 0 <= j < i ==> is_ascii_digit(#[trigger] s@[j]),
        decreases n - i,
    {
        let c: char = s.get_char(i);
        let cp: u32 = c as u32;
        if cp < 48 || cp > 57 {
            return None;
        }
        let d: u32 = cp - 48;
        let next: u32 = acc * 10 + d;
        proof {
            assert(s@.take(i + 1).drop_last() =~= s@.take(i as int));
            assert(s@.take(i + 1).last() == s@[i as int]);
        }
        if next > 65535 {
            proof {
                if all_digits(s@) {
                    lemma_dec_value_prefix(s@, i + 1);
                }
            }
            return None;
        }
        acc = next;
        i = i + 1;
    }
    proof {
        assert(s@.take(n as int) =~= s@);
    }
    Some(acc as u16)
}

/// Whether the environment's mode indicator selects production mode: it
/// must say exactly `production`.
pub fn is_production_word(s: &str) -> (r: bool)
    ensures
        r == (s@ == "production"@),
{
    crate::strutil::str_eq(s, "production")
}

} // verus!
