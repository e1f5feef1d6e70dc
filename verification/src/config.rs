//! Configuration parsing: byte sizes, ports, booleans and the
//! animation speed factor, each from its raw string value.
//!
//! Values come from a `ConfigSource` — the process environment in the
//! running gateway, a plain map in tests. Every rule that turns a raw
//! string into a configuration value is verified; reading the source
//! itself promises nothing.

use vstd::prelude::*;

use crate::client::PixooClientConfig;
use crate::dispatch::SpeedFactor;
use crate::numbers::all_digits;
use crate::numbers::digit_at;
use crate::numbers::digits_val;
use crate::numbers::is_digit_char;
use crate::numbers::lemma_digits_val_small;
use crate::numbers::parse_i64;
use crate::numbers::parse_u64;
use crate::numbers::valid_int_str;
use crate::numbers::int_str_val;
use crate::remote::url_ok;
use crate::remote::url_scheme_host;
use crate::text::eq_ignore_case;
use crate::text::str_eq_ignore_case;
use crate::text::trim;
use crate::text::trim_spec;

verus! {

/// The default gateway listener port.
pub const DEFAULT_LISTENER_PORT: u16 = 4000;

/// The lowest listener port accepted.
pub const MIN_LISTENER_PORT: u16 = 1024;

/// The default per-attempt device timeout in milliseconds.
pub const DEFAULT_PIXOO_TIMEOUT_MS: u64 = 10000;

/// The default animation speed factor, in thousandths.
pub const DEFAULT_SPEED_PERMILLE: u32 = 1400;

/// The default asset size ceiling: five binary megabytes.
pub const DEFAULT_MAX_IMAGE_SIZE: usize = 5242880;

/// Source for configuration values. The running gateway reads the
/// process environment through it; tests hand in a plain map.
pub trait ConfigSource {
    fn get(&self, key: &str) -> Option<String>;
}

/// Why the configuration could not be loaded.
#[derive(Clone, Debug, PartialEq, Eq)]
pub enum ConfigError {
    MissingPixooBaseUrl,
    InvalidPixooBaseUrl(String),
}

/// Everything the gateway is configured with.
#[derive(Clone, Debug)]
pub struct AppConfig {
    pub pixoo_base_url: String,
    pub pixoo_client: PixooClientConfig,
    pub health_forward: bool,
    pub listener_port: u16,
    pub animation_speed_factor: SpeedFactor,
    pub max_image_size: usize,
}

/// The number of leading decimal digits of `s`.
pub open spec fn digits_prefix_len(s: Seq<char>) -> int
    decreases s.len(),
{
    if s.len() == 0 || !is_digit_char(s[0]) {
        0
    } else {
        1 + digits_prefix_len(s.subrange(1, s.len() as int))
    }
}

proof fn lemma_digits_prefix_len(s: Seq<char>, i: int)
    requires
        0 <= i <= s.len(),
        forall|j: int| 0 <= j < i ==> is_digit_char(s[j]),
        i < s.len() ==> !is_digit_char(s[i]),
    ensures
        digits_prefix_len(s) == i,
    decreases i,
{
    if s.len() > 0 && is_digit_char(s[0]) {
        lemma_digits_prefix_len(s.subrange(1, s.len() as int), i - 1);
    }
}

/// The byte multiplier a size suffix names, in binary units, up to
/// ASCII case; `None` for an unknown suffix.
pub open spec fn spec_size_multiplier(suffix: Seq<char>) -> Option<int> {
    if suffix.len() == 0 || eq_ignore_case(suffix, "b"@) {
        Some(1)
    } else if eq_ignore_case(suffix, "k"@) || eq_ignore_case(suffix, "kb"@) {
        Some(1024)
    } else if eq_ignore_case(suffix, "m"@) || eq_ignore_case(suffix, "mb"@) {
        Some(1048576)
    } else if eq_ignore_case(suffix, "g"@) || eq_ignore_case(suffix, "gb"@) {
        Some(1073741824)
    } else {
        None
    }
}

/// The byte count a human-readable size string denotes: a run of
/// digits, then a unit suffix, whitespace trimmed, case ignored;
/// `None` when the shape is wrong or the count overflows.
pub open spec fn spec_parse_byte_size(s: Seq<char>) -> Option<int> {
    let t = trim_spec(s);
    let d = digits_prefix_len(t);
    if d == 0 {
        None
    } else if digits_val(t.subrange(0, d)) > u64::MAX {
        None
    } else {
        match spec_size_multiplier(t.subrange(d, t.len() as int)) {
            Option::None => None,
            Option::Some(m) => {
                let v = digits_val(t.subrange(0, d)) * m;
                if v <= usize::MAX {
                    Some(v)
                } else {
                    None
                }
            },
        }
    }
}

fn size_multiplier(suffix: &str) -> (r: Option<usize>)
    ensures
        match r {
            Some(m) => spec_size_multiplier(suffix@) == Some(m as int),
            None => spec_size_multiplier(suffix@) is None,
        },
{
    if suffix.unicode_len() == 0 || str_eq_ignore_case(suffix, "b") {
        Some(1)
    } else if str_eq_ignore_case(suffix, "k") || str_eq_ignore_case(suffix, "kb") {
        Some(1024)
    } else if str_eq_ignore_case(suffix, "m") || str_eq_ignore_case(suffix, "mb") {
        Some(1048576)
    } else if str_eq_ignore_case(suffix, "g") || str_eq_ignore_case(suffix, "gb") {
        Some(1073741824)
    } else {
        None
    }
}

/// Parses a human-readable byte size such as `5MB`, `128K` or `2048`,
/// in binary units, case-insensitive.
pub fn parse_byte_size(input: &str) -> (r: Option<usize>)
    ensures
        match r {
            Some(v) => spec_parse_byte_size(input@) == Some(v as int),
            None => spec_parse_byte_size(input@) is None,
        },
{
    let t = trim(input);
    let n = t.unicode_len();
    let mut d: usize = 0;
    while d < n && digit_at(t, d)
        invariant
            0 <= d <= n,
            n == t@.len(),
            forall|j: int| 0 <= j < d ==> is_digit_char(t@[j]),
        decreases n - d,
    {
        d = d + 1;
    }
    proof {
        lemma_digits_prefix_len(t@, d as int);
    }
    if d == 0 {
        return None;
    }
    let num_str = t.substring_char(0, d);
    let suffix = t.substring_char(d, n);
    let number = match parse_u64(num_str) {
        Some(v) => v,
        None => {
            return None;
        },
    };
    let multiplier = match size_multiplier(suffix) {
        Some(m) => m,
        None => {
            return None;
        },
    };
    if number > usize::MAX as u64 {
        proof {
            assert(digits_val(t@.subrange(0, d as int)) * multiplier > usize::MAX)
                by (nonlinear_arith)
                requires
                    digits_val(t@.subrange(0, d as int)) > usize::MAX,
                    multiplier >= 1,
            ;
        }
        return None;
    }
    match (number as usize).checked_mul(multiplier) {
        Some(v) => Some(v),
        None => None,
    }
}

/// The boolean a configuration value denotes: the usual on and off
/// words, case-insensitive and trimmed; anything else falls back to
/// the default.
pub open spec fn spec_parse_bool(s: Seq<char>, default: bool) -> bool {
    let t = trim_spec(s);
    if eq_ignore_case(t, "1"@) || eq_ignore_case(t, "true"@) || eq_ignore_case(t, "yes"@)
        || eq_ignore_case(t, "on"@) {
        true
    } else if eq_ignore_case(t, "0"@) || eq_ignore_case(t, "false"@) || eq_ignore_case(t, "no"@)
        || eq_ignore_case(t, "off"@) {
        false
    } else {
        default
    }
}

/// Parses a boolean configuration value.
pub fn parse_bool_value(raw: &str, default: bool) -> (r: bool)
    ensures
        r == spec_parse_bool(raw@, default),
{
    let t = trim(raw);
    if str_eq_ignore_case(t, "1") || str_eq_ignore_case(t, "true") || str_eq_ignore_case(t, "yes")
        || str_eq_ignore_case(t, "on") {
        true
    } else if str_eq_ignore_case(t, "0") || str_eq_ignore_case(t, "false") || str_eq_ignore_case(
        t,
        "no",
    ) || str_eq_ignore_case(t, "off") {
        false
    } else {
        default
    }
}

/// Reads a boolean from the source, with a default for an absent or
/// unrecognized value.
pub fn read_bool(source: &impl ConfigSource, key: &str, default: bool) -> bool {
    match source.get(key) {
        Some(value) => parse_bool_value(value.as_str(), default),
        None => default,
    }
}

/// The listener port a configuration value denotes: an integer in the
/// non-privileged range; anything else falls back to the default.
pub open spec fn spec_parse_port(s: Seq<char>) -> u16 {
    let t = trim_spec(s);
    if valid_int_str(t) && MIN_LISTENER_PORT <= int_str_val(t) && int_str_val(t) <= 65535 {
        int_str_val(t) as u16
    } else {
        DEFAULT_LISTENER_PORT
    }
}

/// Parses a listener port value.
pub fn parse_port_value(raw: &str) -> (r: u16)
    ensures
        r == spec_parse_port(raw@),
{
    let t = trim(raw);
    match parse_i64(t) {
        Some(v) if v >= MIN_LISTENER_PORT as i64 && v <= 65535 => v as u16,
        _ => DEFAULT_LISTENER_PORT,
    }
}

/// Resolves the gateway's listener port, falling back to the default
/// on an absent or invalid value.
pub fn resolve_listener_port(source: &impl ConfigSource) -> (r: u16)
    ensures
        r >= MIN_LISTENER_PORT,
{
    match source.get("PIXOO_BRIDGE_PORT") {
        Some(raw) => parse_port_value(raw.as_str()),
        None => DEFAULT_LISTENER_PORT,
    }
}

/// Resolves the asset size ceiling, falling back to the default on an
/// absent, malformed or zero value.
pub fn resolve_max_image_size(source: &impl ConfigSource) -> (r: usize)
    ensures
        r >= 1,
{
    match source.get("PIXOO_BRIDGE_MAX_IMAGE_SIZE") {
        Some(raw) => match parse_byte_size(raw.as_str()) {
            Some(size) if size > 0 => size,
            _ => DEFAULT_MAX_IMAGE_SIZE,
        },
        None => DEFAULT_MAX_IMAGE_SIZE,
    }
}

/// The speed factor a decimal string denotes, in thousandths: an
/// integer part, optionally a point and a fraction, of which the
/// first three digits count; `None` when the shape is wrong, the
/// value is zero, or it overflows.
pub open spec fn spec_speed_permille(s: Seq<char>) -> Option<u32> {
    let t = trim_spec(s);
    let d = digits_prefix_len(t);
    if d == 0 {
        None
    } else if d == t.len() {
        checked_permille(digits_val(t) * 1000)
    } else if t[d] == '.' && d + 1 < t.len() && all_digits(t.subrange(d + 1, t.len() as int)) {
        checked_permille(digits_val(t.subrange(0, d)) * 1000 + frac_permille(
            t.subrange(d + 1, t.len() as int),
        ))
    } else {
        None
    }
}

/// A positive value in range, or nothing.
pub open spec fn checked_permille(v: int) -> Option<u32> {
    if 1 <= v <= u32::MAX {
        Some(v as u32)
    } else {
        None
    }
}

/// The thousandths a fraction's digits denote: the first three,
/// right-padded with zeros.
pub open spec fn frac_permille(frac: Seq<char>) -> int {
    let padded = if frac.len() >= 3 {
        frac.subrange(0, 3)
    } else {
        frac
    };
    if padded.len() == 1 {
        digits_val(padded) * 100
    } else if padded.len() == 2 {
        digits_val(padded) * 10
    } else {
        digits_val(padded)
    }
}

/// Parses a speed factor from its decimal string into thousandths.
pub fn parse_speed_permille(raw: &str) -> (r: Option<u32>)
    ensures
        r == spec_speed_permille(raw@),
{
    let t = trim(raw);
    let n = t.unicode_len();
    let mut d: usize = 0;
    while d < n && digit_at(t, d)
        invariant
            0 <= d <= n,
            n == t@.len(),
            forall|j: int| 0 <= j < d ==> is_digit_char(t@[j]),
        decreases n - d,
    {
        d = d + 1;
    }
    proof {
        lemma_digits_prefix_len(t@, d as int);
    }
    if d == 0 {
        return None;
    }
    let whole = match parse_u64(t.substring_char(0, d)) {
        Some(v) => v,
        None => {
            proof {
                let w = digits_val(t@.subrange(0, d as int));
                assert(w * 1000 > u32::MAX) by (nonlinear_arith)
                    requires
                        w > u64::MAX,
                ;
                if d == n {
                    assert(t@.subrange(0, d as int) =~= t@);
                } else if d + 1 < n && all_digits(t@.subrange(d + 1, n as int)) {
                    let frac = t@.subrange(d + 1, n as int);
                    let padded = if frac.len() >= 3 {
                        frac.subrange(0, 3)
                    } else {
                        frac
                    };
                    assert(all_digits(padded));
                    crate::numbers::lemma_digits_val_nonneg(padded);
                }
            }
            return None;
        },
    };
    proof {
        if d == n {
            assert(t@.subrange(0, d as int) =~= t@);
        }
    }
    let frac: u64 = if d == n {
        0
    } else {
        if !(t.get_char(d) == '.') || d + 1 >= n {
            return None;
        }
        let frac_str = t.substring_char(d + 1, n);
        match frac_thousandths(frac_str) {
            Some(f) => f,
            None => {
                return None;
            },
        }
    };
    if whole > u32::MAX as u64 {
        return None;
    }
    let v: u64 = whole * 1000 + frac;
    if v >= 1 && v <= u32::MAX as u64 {
        Some(v as u32)
    } else {
        None
    }
}

/// Reads a fraction's first three digits as thousandths.
fn frac_thousandths(frac_str: &str) -> (r: Option<u64>)
    ensures
        match r {
            Some(f) => all_digits(frac_str@) && frac_str@.len() > 0 && f == frac_permille(
                frac_str@,
            ) && f <= 999,
            None => !(all_digits(frac_str@) && frac_str@.len() > 0),
        },
{
    let n = frac_str.unicode_len();
    if n == 0 {
        return None;
    }
    let head_len: usize = if n >= 3 {
        3
    } else {
        n
    };
    let head = frac_str.substring_char(0, head_len);
    let tail_ok = all_digits_check(frac_str);
    if !tail_ok {
        return None;
    }
    let ghost padded = if frac_str@.len() >= 3 {
        frac_str@.subrange(0, 3)
    } else {
        frac_str@
    };
    proof {
        assert(head@ =~= padded);
        assert(all_digits(padded));
        crate::numbers::lemma_digits_val_nonneg(padded);
        lemma_digits_val_small(padded);
    }
    let v = match parse_u64(head) {
        Some(v) => v,
        None => {
            return None;
        },
    };
    if head_len == 1 {
        Some(v * 100)
    } else if head_len == 2 {
        Some(v * 10)
    } else {
        Some(v)
    }
}

/// Whether every character of `s` is a decimal digit.
fn all_digits_check(s: &str) -> (r: bool)
    ensures
        r == all_digits(s@),
{
    let n = s.unicode_len();
    let mut i: usize = 0;
    while i < n
        invariant
            0 <= i <= n,
            n == s@.len(),
            forall|j: int| 0 <= j < i ==> is_digit_char(s@[j]),
        decreases n - i,
    {
        let c = s.get_char(i);
        if !(c >= '0' && c <= '9') {
            return false;
        }
        i = i + 1;
    }
    true
}

/// Resolves the animation speed factor, falling back to the default
/// on an absent, malformed or non-positive value.
pub fn resolve_animation_speed_factor(source: &impl ConfigSource) -> (r: SpeedFactor)
    ensures
        r.wf(),
{
    let permille = match source.get("PIXOO_ANIMATION_SPEED_FACTOR") {
        Some(raw) => match parse_speed_permille(raw.as_str()) {
            Some(p) => p,
            None => DEFAULT_SPEED_PERMILLE,
        },
        None => DEFAULT_SPEED_PERMILLE,
    };
    match SpeedFactor::new(permille) {
        Some(s) => s,
        None => SpeedFactor::default(),
    }
}

/// Resolves the device client policy: the timeout may be configured,
/// the retry budget and backoff keep their defaults.
pub fn resolve_pixoo_client_config(source: &impl ConfigSource) -> (r: PixooClientConfig)
    ensures
        r.retries == 2,
        r.backoff_ms == 200,
{
    let timeout_ms = match source.get("PIXOO_TIMEOUT_MS") {
        Some(raw) => match parse_u64(raw.as_str()) {
            Some(v) => v,
            None => DEFAULT_PIXOO_TIMEOUT_MS,
        },
        None => DEFAULT_PIXOO_TIMEOUT_MS,
    };
    PixooClientConfig::new(timeout_ms, 2, 200)
}

/// The base-URL rule over one raw value: the value is trimmed, an
/// empty one counts as missing, anything that does not parse as an
/// absolute URL is invalid, and exactly the rest is accepted — as the
/// trimmed text, unchanged.
pub fn parse_base_url_value(raw: &str) -> (r: Result<String, ConfigError>)
    ensures
        ({
            let t = trim_spec(raw@);
            &&& (r matches Ok(v) ==> v@ == t)
            &&& (t.len() == 0 ==> r == Result::<String, ConfigError>::Err(
                ConfigError::MissingPixooBaseUrl,
            ))
            &&& (t.len() > 0 && url_scheme_host(t) is None ==> r matches Err(
                ConfigError::InvalidPixooBaseUrl(_),
            ))
            &&& (r is Ok <==> t.len() > 0 && url_scheme_host(t) is Some)
        }),
{
    let value = trim(raw);
    if value.unicode_len() == 0 {
        return Err(ConfigError::MissingPixooBaseUrl);
    }
    if !url_ok(value) {
        return Err(
            ConfigError::InvalidPixooBaseUrl(String::from_str("not a parseable absolute URL")),
        );
    }
    Ok(String::from_str(value))
}

/// Resolves the device base URL: required, trimmed, and parseable as
/// an absolute URL. An accepted value is nonempty and parses.
pub fn resolve_pixoo_base_url(source: &impl ConfigSource) -> (r: Result<String, ConfigError>)
    ensures
        r matches Ok(v) ==> v@.len() > 0 && url_scheme_host(v@) is Some,
{
    let raw = match source.get("PIXOO_BASE_URL") {
        Some(raw) => raw,
        None => {
            return Err(ConfigError::MissingPixooBaseUrl);
        },
    };
    parse_base_url_value(raw.as_str())
}

impl AppConfig {
    /// Loads the whole configuration from a source. Only the base URL
    /// can fail; every other value falls back to its default.
    pub fn load_from(source: &impl ConfigSource) -> (r: Result<AppConfig, ConfigError>)
        ensures
            r matches Ok(config) ==> {
                &&& config.animation_speed_factor.wf()
                &&& config.listener_port >= MIN_LISTENER_PORT
                &&& config.max_image_size >= 1
                &&& config.pixoo_client.retries == 2
                &&& config.pixoo_client.backoff_ms == 200
            },
    {
        let health_forward = read_bool(source, "PIXOO_BRIDGE_HEALTH_FORWARD", true);
        let pixoo_base_url = match resolve_pixoo_base_url(source) {
            Ok(url) => url,
            Err(e) => {
                return Err(e);
            },
        };
        let pixoo_client = resolve_pixoo_client_config(source);
        let listener_port = resolve_listener_port(source);
        let animation_speed_factor = resolve_animation_speed_factor(source);
        let max_image_size = resolve_max_image_size(source);
        Ok(
            AppConfig {
                pixoo_base_url,
                pixoo_client,
                health_forward,
                listener_port,
                animation_speed_factor,
                max_image_size,
            },
        )
    }
}

} // verus!
