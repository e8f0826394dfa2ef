//! The configuration document: its parsed form, the text format it is read
//! from, its semantic validation with non-fatal warnings, and the
//! operator-facing load summary.
//!
//! A configuration document is six lines in fixed order, each `key=value`,
//! with an optional trailing newline:
//!
//! ```text
//! network=<name>
//! netuid=<decimal, at most 65535>
//! burn_uid=<decimal, at most 65535>
//! burn_percentage=<decimal, optionally with one or two fraction digits>
//! weight_set_interval_blocks=<decimal, at most 2^64 - 1>
//! database_url=<url>
//! ```

use vstd::prelude::*;
use vstd::string::StrSliceExecFns;
use vstd::string::StringExecFns;

use crate::error::HandlerError;
use crate::text::all_digits;
use crate::text::digit_val;
use crate::text::is_digit;
use crate::text::dec_spec;
use crate::text::digits_val;
use crate::text::index_of_from;
use crate::text::lemma_index_of_from;
use crate::text::parse_u64_spec;
use crate::text::two_digit_spec;
use crate::text::find_char;
use crate::text::parse_digits;
use crate::text::push_decimal;
use crate::text::push_two_digits;

verus! {

/// The mathematical model of a configuration document. The burn percentage
/// is held in hundredths of a percent, so `1250` stands for `12.50%`.
#[verifier::ext_equal]
pub ghost struct ConfigModel {
    pub network: Seq<char>,
    pub netuid: u16,
    pub burn_uid: u16,
    pub burn_percentage_centi: u32,
    pub weight_set_interval_blocks: u64,
    pub database_url: Seq<char>,
}

/// A validated configuration document. Never mutated after load; owned by
/// the invocation that loaded it.
#[derive(Debug)]
pub struct ValidatorConfig {
    /// Network name, such as `finney`.
    pub network: String,
    /// Subnet id on that network.
    pub netuid: u16,
    /// Burn address id for emission control.
    pub burn_uid: u16,
    /// Fraction of rewards redirected to the burn address, in hundredths of
    /// a percent.
    pub burn_percentage_centi: u32,
    /// Interval between weight sets, in blocks.
    pub weight_set_interval_blocks: u64,
    /// Connection string of the persistence layer.
    pub database_url: String,
}

impl View for ValidatorConfig {
    type V = ConfigModel;

    open spec fn view(&self) -> ConfigModel {
        ConfigModel {
            network: self.network@,
            netuid: self.netuid,
            burn_uid: self.burn_uid,
            burn_percentage_centi: self.burn_percentage_centi,
            weight_set_interval_blocks: self.weight_set_interval_blocks,
            database_url: self.database_url@,
        }
    }
}

impl PartialEq for ValidatorConfig {
    fn eq(&self, other: &ValidatorConfig) -> (r: bool) {
        self.network == other.network && self.netuid == other.netuid && self.burn_uid
            == other.burn_uid && self.burn_percentage_centi == other.burn_percentage_centi
            && self.weight_set_interval_blocks == other.weight_set_interval_blocks
            && self.database_url == other.database_url
    }
}

impl vstd::std_specs::cmp::PartialEqSpecImpl for ValidatorConfig {
    open spec fn obeys_eq_spec() -> bool {
        true
    }

    open spec fn eq_spec(&self, other: &ValidatorConfig) -> bool {
        self@ == other@
    }
}

pub open spec fn spec_has_prefix(l: Seq<char>, k: Seq<char>) -> bool {
    l.len() >= k.len() && l.take(k.len() as int) == k
}

/// Whether `line` starts with the characters of `key`.
pub fn has_prefix(line: &str, key: &str) -> (b: bool)
    ensures
        b == spec_has_prefix(line@, key@),
{
    let n = line.unicode_len();
    let k = key.unicode_len();
    if n < k {
        return false;
    }
    let mut i: usize = 0;
    while i < k
        invariant
            0 <= i <= k,
            k == key@.len(),
            n == line@.len(),
            k <= n,
            forall|j: int| 0 <= j < i ==> line@[j] == key@[j],
        decreases k - i,
    {
        if line.get_char(i) != key.get_char(i) {
            assert(line@.take(k as int)[i as int] != key@[i as int]);
            return false;
        }
        i = i + 1;
    }
    assert(line@.take(k as int) =~= key@);
    true
}

/// The rest of `l` after the key, when `l` starts with `k`.
pub open spec fn parse_value_field(l: Seq<char>, k: Seq<char>) -> Option<Seq<char>> {
    if spec_has_prefix(l, k) {
        Some(l.subrange(k.len() as int, l.len() as int))
    } else {
        None
    }
}

/// The rest of `l` read as a decimal `u64`, when `l` starts with `k`.
pub open spec fn parse_u64_field(l: Seq<char>, k: Seq<char>) -> Option<u64> {
    if spec_has_prefix(l, k) {
        parse_u64_spec(l.subrange(k.len() as int, l.len() as int))
    } else {
        None
    }
}

pub open spec fn parse_u16_field(l: Seq<char>, k: Seq<char>) -> Option<u16> {
    match parse_u64_field(l, k) {
        Some(v) => if v <= u16::MAX {
            Some(v as u16)
        } else {
            None
        },
        None => None,
    }
}

/// The rest of `l` read as a percentage in hundredths, when `l` starts with
/// `k`: an integer part, optionally followed by `.` and one or two fraction
/// digits. `12.5`, `12.50` and `12` read as 1250, 1250 and 1200.
pub open spec fn parse_percent_field(l: Seq<char>, k: Seq<char>) -> Option<u32> {
    if !spec_has_prefix(l, k) {
        None
    } else {
        let dot = index_of_from(l, k.len() as int, '.');
        if dot == l.len() {
            match parse_u64_spec(l.subrange(k.len() as int, l.len() as int)) {
                Some(v) => if v * 100 <= u32::MAX {
                    Some((v * 100) as u32)
                } else {
                    None
                },
                None => None,
            }
        } else {
            let ip = parse_u64_spec(l.subrange(k.len() as int, dot));
            let fp = parse_u64_spec(l.subrange(dot + 1, l.len() as int));
            let fplen = l.len() - dot - 1;
            if ip is Some && fp is Some && 1 <= fplen <= 2 {
                let centi = ip->Some_0 * 100 + fp->Some_0 * (if fplen == 1 {
                    10int
                } else {
                    1int
                });
                if centi <= u32::MAX {
                    Some(centi as u32)
                } else {
                    None
                }
            } else {
                None
            }
        }
    }
}

/// Reads the value of a string-valued line, exactly as `parse_value_field`.
pub fn parse_value_line(line: &str, key: &str) -> (r: Option<String>)
    ensures
        match r {
            Some(v) => parse_value_field(line@, key@) == Some(v@),
            None => parse_value_field(line@, key@) is None,
        },
{
    if !has_prefix(line, key) {
        return None;
    }
    Some(line.substring_char(key.unicode_len(), line.unicode_len()).to_owned())
}

/// Reads the value of a `u64`-valued line, exactly as `parse_u64_field`.
pub fn parse_u64_line(line: &str, key: &str) -> (r: Option<u64>)
    ensures
        r == parse_u64_field(line@, key@),
{
    if !has_prefix(line, key) {
        return None;
    }
    parse_digits(line, key.unicode_len(), line.unicode_len())
}

/// Reads the value of a `u16`-valued line, exactly as `parse_u16_field`.
pub fn parse_u16_line(line: &str, key: &str) -> (r: Option<u16>)
    ensures
        r == parse_u16_field(line@, key@),
{
    match parse_u64_line(line, key) {
        Some(v) => if v <= u16::MAX as u64 {
            Some(v as u16)
        } else {
            None
        },
        None => None,
    }
}

proof fn lemma_short_digits_bounded(s: Seq<char>)
    requires
        all_digits(s),
        1 <= s.len() <= 2,
    ensures
        0 <= digits_val(s) <= 99,
{
    if s.len() == 1 {
        assert(is_digit(s[0]));
        assert(s.last() == s[0]);
        assert(digits_val(s.drop_last()) == 0);
    } else {
        let t = s.drop_last();
        assert(is_digit(s[0]));
        assert(is_digit(s[1]));
        assert(t.len() == 1);
        assert(t[0] == s[0]);
        assert(digits_val(t.drop_last()) == 0);
        assert(digits_val(t) == digit_val(s[0]));
        assert(s.last() == s[1]);
    }
}

/// Reads the value of the percentage line, exactly as `parse_percent_field`.
pub fn parse_percent_line(line: &str, key: &str) -> (r: Option<u32>)
    ensures
        r == parse_percent_field(line@, key@),
{
    if !has_prefix(line, key) {
        return None;
    }
    let klen = key.unicode_len();
    let llen = line.unicode_len();
    let dot = find_char(line, klen, '.');
    proof {
        lemma_index_of_from(line@, klen as int, '.');
    }
    if dot == llen {
        match parse_digits(line, klen, llen) {
            Some(v) => {
                if v <= u32::MAX as u64 / 100 {
                    Some((v * 100) as u32)
                } else {
                    None
                }
            },
            None => None,
        }
    } else {
        let ip = parse_digits(line, klen, dot);
        let fp = parse_digits(line, dot + 1, llen);
        let fplen = llen - dot - 1;
        match (ip, fp) {
            (Some(iv), Some(fv)) => {
                if fplen < 1 || fplen > 2 {
                    return None;
                }
                proof {
                    lemma_short_digits_bounded(line@.subrange(dot + 1, llen as int));
                }
                let mult: u64 = if fplen == 1 {
                    10
                } else {
                    1
                };
                if iv > (u32::MAX as u64) / 100 {
                    return None;
                }
                let centi: u64 = iv * 100 + fv * mult;
                if centi <= u32::MAX as u64 {
                    Some(centi as u32)
                } else {
                    None
                }
            },
            _ => None,
        }
    }
}

/// The document with one trailing newline removed, when it has one.
pub open spec fn strip_trailing_newline(s: Seq<char>) -> Seq<char> {
    if s.len() > 0 && s.last() == '\n' {
        s.drop_last()
    } else {
        s
    }
}

/// The meaning of a configuration document: six `key=value` lines in fixed
/// order, an optional trailing newline, every field well formed — or
/// nothing.
pub open spec fn parse_config_spec(s0: Seq<char>) -> Option<ConfigModel> {
    let s = strip_trailing_newline(s0);
    let e0 = index_of_from(s, 0, '\n');
    let e1 = index_of_from(s, e0 + 1, '\n');
    let e2 = index_of_from(s, e1 + 1, '\n');
    let e3 = index_of_from(s, e2 + 1, '\n');
    let e4 = index_of_from(s, e3 + 1, '\n');
    let e5 = index_of_from(s, e4 + 1, '\n');
    if e0 < s.len() && e1 < s.len() && e2 < s.len() && e3 < s.len() && e4 < s.len() && e5
        == s.len() {
        let network = parse_value_field(s.subrange(0, e0), "network="@);
        let netuid = parse_u16_field(s.subrange(e0 + 1, e1), "netuid="@);
        let burn_uid = parse_u16_field(s.subrange(e1 + 1, e2), "burn_uid="@);
        let burn = parse_percent_field(s.subrange(e2 + 1, e3), "burn_percentage="@);
        let weight = parse_u64_field(s.subrange(e3 + 1, e4), "weight_set_interval_blocks="@);
        let db = parse_value_field(s.subrange(e4 + 1, e5), "database_url="@);
        if network is Some && netuid is Some && burn_uid is Some && burn is Some && weight is Some
            && db is Some {
            Some(
                ConfigModel {
                    network: network->Some_0,
                    netuid: netuid->Some_0,
                    burn_uid: burn_uid->Some_0,
                    burn_percentage_centi: burn->Some_0,
                    weight_set_interval_blocks: weight->Some_0,
                    database_url: db->Some_0,
                },
            )
        } else {
            None
        }
    } else {
        None
    }
}

/// Loading the same configuration text twice yields the same configuration:
/// the meaning of a document is a function of its characters alone.
pub proof fn lemma_config_load_deterministic(text: Seq<char>, c1: ConfigModel, c2: ConfigModel)
    requires
        parse_config_spec(text) == Some(c1),
        parse_config_spec(text) == Some(c2),
    ensures
        c1 == c2,
{
}

/// Semantic validity of a loaded configuration.
pub open spec fn config_valid(c: ConfigModel) -> bool {
    c.network.len() > 0 && c.database_url.len() > 0 && c.burn_percentage_centi <= 10000
        && c.weight_set_interval_blocks > 0
}

/// The cause reported for an invalid configuration: the first failing rule,
/// checked in a fixed order.
pub open spec fn invalid_cause(c: ConfigModel) -> Seq<char> {
    if c.network.len() == 0 {
        "network name is empty"@
    } else if c.database_url.len() == 0 {
        "database url is empty"@
    } else if c.burn_percentage_centi > 10000 {
        "burn percentage exceeds 100%"@
    } else {
        "weight set interval is zero"@
    }
}

/// The non-fatal warnings of a configuration, in the order they are
/// reported.
pub open spec fn config_warnings(c: ConfigModel) -> Seq<Seq<char>> {
    let a: Seq<Seq<char>> = if c.burn_percentage_centi == 0 {
        seq!["burn percentage is zero; no emission will be redirected"@]
    } else {
        Seq::empty()
    };
    let b: Seq<Seq<char>> = if c.weight_set_interval_blocks < 100 {
        seq!["weight set interval is shorter than one hundred blocks"@]
    } else {
        Seq::empty()
    };
    a + b
}

/// The operator-facing summary line written after a successful load.
pub open spec fn percent_spec(centi: int) -> Seq<char> {
    dec_spec(centi / 100) + "."@ + two_digit_spec(centi % 100)
}

pub open spec fn summary_spec(c: ConfigModel) -> Seq<char> {
    "Configuration loaded: burn_uid="@ + dec_spec(c.burn_uid as int) + ", burn_percentage="@
        + percent_spec(c.burn_percentage_centi as int) + "%, weight_interval_blocks="@ + dec_spec(
        c.weight_set_interval_blocks as int,
    ) + ", netuid="@ + dec_spec(c.netuid as int) + ", network="@ + c.network
}

/// Appends the percentage `centi` (in hundredths) with exactly two fraction
/// digits, as in `12.50`.
pub fn push_percent(out: &mut String, centi: u32)
    ensures
        final(out)@ == old(out)@ + percent_spec(centi as int),
{
    let ghost before = out@;
    push_decimal(out, (centi / 100) as u64);
    proof {
        reveal_strlit(".");
    }
    out.append(".");
    push_two_digits(out, (centi % 100) as u64);
    proof {
        assert(((before + dec_spec(centi as int / 100)) + "."@) + two_digit_spec(centi as int % 100)
            =~= before + percent_spec(centi as int));
    }
}

impl ValidatorConfig {
    /// Parses a configuration document. Returns exactly the meaning that
    /// `parse_config_spec` gives the text, or `ConfigInvalid` where it gives
    /// none.
    pub fn parse(text: &str) -> (r: Result<ValidatorConfig, HandlerError>)
        ensures
            match r {
                Ok(c) => parse_config_spec(text@) == Some(c@),
                Err(e) => parse_config_spec(text@) is None && (e matches HandlerError::ConfigInvalid {
                    cause,
                } && cause@ == "configuration text is malformed"@),
            },
    {
        let n0 = text.unicode_len();
        let s: &str = if n0 > 0 && text.get_char(n0 - 1) == '\n' {
            text.substring_char(0, n0 - 1)
        } else {
            text
        };
        assert(s@ =~= strip_trailing_newline(text@));
        let n = s.unicode_len();
        let e0 = find_char(s, 0, '\n');
        proof {
            lemma_index_of_from(s@, 0, '\n');
        }
        if e0 == n {
            return Err(Self::malformed());
        }
        let e1 = find_char(s, e0 + 1, '\n');
        proof {
            lemma_index_of_from(s@, e0 + 1 as int, '\n');
        }
        if e1 == n {
            return Err(Self::malformed());
        }
        let e2 = find_char(s, e1 + 1, '\n');
        proof {
            lemma_index_of_from(s@, e1 + 1 as int, '\n');
        }
        if e2 == n {
            return Err(Self::malformed());
        }
        let e3 = find_char(s, e2 + 1, '\n');
        proof {
            lemma_index_of_from(s@, e2 + 1 as int, '\n');
        }
        if e3 == n {
            return Err(Self::malformed());
        }
        let e4 = find_char(s, e3 + 1, '\n');
        proof {
            lemma_index_of_from(s@, e3 + 1 as int, '\n');
        }
        if e4 == n {
            return Err(Self::malformed());
        }
        let e5 = find_char(s, e4 + 1, '\n');
        proof {
            lemma_index_of_from(s@, e4 + 1 as int, '\n');
        }
        if e5 != n {
            return Err(Self::malformed());
        }
        let line0 = s.substring_char(0, e0);
        let line1 = s.substring_char(e0 + 1, e1);
        let line2 = s.substring_char(e1 + 1, e2);
        let line3 = s.substring_char(e2 + 1, e3);
        let line4 = s.substring_char(e3 + 1, e4);
        let line5 = s.substring_char(e4 + 1, e5);
        let network = parse_value_line(line0, "network=");
        let netuid = parse_u16_line(line1, "netuid=");
        let burn_uid = parse_u16_line(line2, "burn_uid=");
        let burn = parse_percent_line(line3, "burn_percentage=");
        let weight = parse_u64_line(line4, "weight_set_interval_blocks=");
        let db = parse_value_line(line5, "database_url=");
        match (network, netuid, burn_uid, burn, weight, db) {
            (Some(network), Some(netuid), Some(burn_uid), Some(burn), Some(weight), Some(db)) => {
                let c = ValidatorConfig {
                    network,
                    netuid,
                    burn_uid,
                    burn_percentage_centi: burn,
                    weight_set_interval_blocks: weight,
                    database_url: db,
                };
                assert(parse_config_spec(text@) == Some(c@));
                Ok(c)
            },
            _ => Err(Self::malformed()),
        }
    }

    fn malformed() -> (e: HandlerError)
        ensures
            e matches HandlerError::ConfigInvalid { cause } && cause@
                == "configuration text is malformed"@,
    {
        HandlerError::ConfigInvalid { cause: String::from_str("configuration text is malformed") }
    }

    /// Runs semantic validation. Succeeds exactly on valid configurations;
    /// otherwise reports the first failing rule.
    pub fn validate(&self) -> (r: Result<(), HandlerError>)
        ensures
            r is Ok <==> config_valid(self@),
            r matches Err(e) ==> (e matches HandlerError::ConfigInvalid { cause } && cause@
                == invalid_cause(self@)),
    {
        if self.network.as_str().is_empty() {
            Err(HandlerError::ConfigInvalid { cause: String::from_str("network name is empty") })
        } else if self.database_url.as_str().is_empty() {
            Err(HandlerError::ConfigInvalid { cause: String::from_str("database url is empty") })
        } else if self.burn_percentage_centi > 10000 {
            Err(
                HandlerError::ConfigInvalid {
                    cause: String::from_str("burn percentage exceeds 100%"),
                },
            )
        } else if self.weight_set_interval_blocks == 0 {
            Err(
                HandlerError::ConfigInvalid {
                    cause: String::from_str("weight set interval is zero"),
                },
            )
        } else {
            Ok(())
        }
    }

    /// Collects the non-fatal warnings of this configuration, in reporting
    /// order.
    pub fn warnings(&self) -> (w: Vec<String>)
        ensures
            w@.len() == config_warnings(self@).len(),
            forall|i: int|
                0 <= i < w@.len() ==> (#[trigger] w@[i])@ == config_warnings(self@)[i],
    {
        let mut w: Vec<String> = Vec::new();
        if self.burn_percentage_centi == 0 {
            w.push(String::from_str("burn percentage is zero; no emission will be redirected"));
        }
        if self.weight_set_interval_blocks < 100 {
            w.push(String::from_str("weight set interval is shorter than one hundred blocks"));
        }
        w
    }

    /// Renders the load summary: burn address id, burn percentage to two
    /// decimal places, weight-set interval, subnet id and network name.
    pub fn summary(&self) -> (s: String)
        ensures
            s@ == summary_spec(self@),
    {
        let mut out = String::from_str("Configuration loaded: burn_uid=");
        push_decimal(&mut out, self.burn_uid as u64);
        out.append(", burn_percentage=");
        push_percent(&mut out, self.burn_percentage_centi);
        out.append("%, weight_interval_blocks=");
        push_decimal(&mut out, self.weight_set_interval_blocks);
        out.append(", netuid=");
        push_decimal(&mut out, self.netuid as u64);
        out.append(", network=");
        out.append(self.network.as_str());
        assert(out@ =~= summary_spec(self@));
        out
    }
}

} // verus!
