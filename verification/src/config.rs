use vstd::prelude::*;
use vstd::arithmetic::div_mod::lemma_fundamental_div_mod;
use vstd::arithmetic::div_mod::lemma_mod_bound;
use vstd::string::StringExecFns;

verus! {

/// Default full brightness level applied while the user is active.
pub const DEFAULT_BRIGHTNESS: i32 = 2;

/// Default inactivity timeout, in seconds.
pub const DEFAULT_TIMEOUT_SECS: u64 = 15;

/// Immutable run-time configuration, created once at startup.
#[derive(Debug)]
pub struct Config {
    /// Path of the input device to monitor.
    pub device_file: String,
    /// Full brightness level commanded while the user is active.
    pub brightness: i32,
    /// Inactivity timeout in seconds before the light goes fully off.
    pub timeout: u64,
    /// Whether an intermediate dim stage precedes the full-off stage.
    pub dim: bool,
    /// Whether periodic read-back of the true hardware level is skipped.
    pub lazy: bool,
}

impl Config {
    pub fn new(device_file: String, brightness: i32, timeout: u64, dim: bool, lazy: bool) -> (c: Config)
        ensures
            c.device_file == device_file,
            c.brightness == brightness,
            c.timeout == timeout,
            c.dim == dim,
            c.lazy == lazy,
    {
        Config { device_file, brightness, timeout, dim, lazy }
    }
}

/// Why a configuration could not be built from the option values.
#[derive(Clone, Copy, Debug, PartialEq, Eq, Structural)]
pub enum ConfigError {
    /// The brightness option value is not a decimal number in range.
    BadBrightness,
    /// The timeout option value is not a decimal number in range.
    BadTimeout,
}

pub open spec fn is_ascii_digit(b: u8) -> bool {
    48 <= b <= 57
}

pub open spec fn all_digits(s: Seq<u8>) -> bool {
    forall|i: int| 0 <= i < s.len() ==> is_ascii_digit(#[trigger] s[i])
}

/// The number a sequence of decimal digit bytes denotes.
pub open spec fn decimal_value(s: Seq<u8>) -> int
    decreases s.len(),
{
    if s.len() == 0 {
        0
    } else {
        decimal_value(s.drop_last()) * 10 + (s.last() - 48)
    }
}

pub proof fn lemma_decimal_value_nonneg(s: Seq<u8>)
    requires
        all_digits(s),
    ensures
        decimal_value(s) >= 0,
    decreases s.len(),
{
    if s.len() > 0 {
        assert(forall|i: int| 0 <= i < s.drop_last().len() ==> is_ascii_digit(#[trigger] s.drop_last()[i]));
        lemma_decimal_value_nonneg(s.drop_last());
    }
}

/// A digit string denotes at least as much as any of its prefixes: appending
/// digits never shrinks the denoted number.
pub proof fn lemma_decimal_prefix_le(s: Seq<u8>, i: int)
    requires
        all_digits(s),
        0 <= i <= s.len(),
    ensures
        decimal_value(s.take(i)) <= decimal_value(s),
    decreases s.len() - i,
{
    if i == s.len() {
        assert(s.take(i) =~= s);
    } else {
        assert(s.take(i + 1).drop_last() =~= s.take(i));
        assert(s.take(i + 1).last() == s[i]);
        assert(forall|j: int| 0 <= j < i ==> is_ascii_digit(#[trigger] s.take(i)[j]));
        lemma_decimal_value_nonneg(s.take(i));
        lemma_decimal_prefix_le(s, i + 1);
    }
}

/// Reads a non-empty all-decimal byte string as a `u64`. Yields `None`
/// exactly on an empty string, a non-digit byte, or a number too large.
pub fn parse_u64(s: &Vec<u8>) -> (r: Option<u64>)
    ensures
        match r {
            Some(v) => s@.len() > 0 && all_digits(s@) && decimal_value(s@) == v,
            None => s@.len() == 0 || !all_digits(s@) || decimal_value(s@) > u64::MAX,
        },
{
    if s.len() == 0 {
        return None;
    }
    let mut acc: u64 = 0;
    let mut i: usize = 0;
    while i < s.len()
        invariant
            0 <= i <= s@.len(),
            s@.len() > 0,
            all_digits(s@.take(i as int)),
            acc == decimal_value(s@.take(i as int)),
        decreases s@.len() - i,
    {
        let b = s[i];
        if b < 48 || b > 57 {
            assert(!is_ascii_digit(s@[i as int]));
            return None;
        }
        let d = (b - 48) as u64;
        proof {
            let z = (u64::MAX - d) as int;
            lemma_fundamental_div_mod(z, 10);
            lemma_mod_bound(z, 10);
            assert(s@.take(i as int + 1).drop_last() =~= s@.take(i as int));
            assert(s@.take(i as int + 1).last() == s@[i as int]);
        }
        if acc > (u64::MAX - d) / 10 {
            proof {
                if all_digits(s@) {
                    lemma_decimal_prefix_le(s@, i as int + 1);
                }
            }
            return None;
        }
        acc = acc * 10 + d;
        i = i + 1;
        assert(forall|j: int| 0 <= j < i ==> is_ascii_digit(#[trigger] s@.take(i as int)[j]));
    }
    proof {
        assert(s@.take(s@.len() as int) =~= s@);
    }
    Some(acc)
}

/// Reads a non-empty all-decimal byte string as a non-negative `i32`.
pub fn parse_i32(s: &Vec<u8>) -> (r: Option<i32>)
    ensures
        match r {
            Some(v) => s@.len() > 0 && all_digits(s@) && decimal_value(s@) == v,
            None => s@.len() == 0 || !all_digits(s@) || decimal_value(s@) > i32::MAX,
        },
{
    match parse_u64(s) {
        Some(v) => {
            if v <= i32::MAX as u64 {
                Some(v as i32)
            } else {
                None
            }
        }
        None => None,
    }
}

/// Whether a brightness option value, if given, is a decimal number an `i32`
/// can hold.
pub open spec fn brightness_arg_ok(brightness: Option<Vec<u8>>) -> bool {
    match brightness {
        Some(s) => s@.len() > 0 && all_digits(s@) && decimal_value(s@) <= i32::MAX,
        None => true,
    }
}

/// Whether a timeout option value, if given, is a decimal number a `u64`
/// can hold.
pub open spec fn timeout_arg_ok(timeout: Option<Vec<u8>>) -> bool {
    match timeout {
        Some(s) => s@.len() > 0 && all_digits(s@) && decimal_value(s@) <= u64::MAX,
        None => true,
    }
}

/// Builds the configuration from the raw command-line option values: each
/// absent option takes its default, a malformed numeric value is rejected,
/// and the dim stage is on unless explicitly disabled.
pub fn config_from_options(
    device: Option<String>,
    brightness: Option<Vec<u8>>,
    timeout: Option<Vec<u8>>,
    no_dim: bool,
    lazy: bool,
) -> (r: Result<Config, ConfigError>)
    ensures
        r is Ok <==> brightness_arg_ok(brightness) && timeout_arg_ok(timeout),
        r == Err::<Config, ConfigError>(ConfigError::BadBrightness) <==> !brightness_arg_ok(brightness),
        r == Err::<Config, ConfigError>(ConfigError::BadTimeout) <==> brightness_arg_ok(brightness)
            && !timeout_arg_ok(timeout),
        r is Ok ==> ({
            let c = r.unwrap();
            &&& c.brightness == (match brightness {
                Some(s) => decimal_value(s@),
                None => DEFAULT_BRIGHTNESS as int,
            })
            &&& c.timeout == (match timeout {
                Some(s) => decimal_value(s@),
                None => DEFAULT_TIMEOUT_SECS as int,
            })
            &&& c.dim == !no_dim
            &&& c.lazy == lazy
            &&& c.device_file@ == (match device {
                Some(d) => d@,
                None => "/dev/input/event3"@,
            })
        }),
{
    let b: i32 = match brightness {
        Some(s) => match parse_i32(&s) {
            Some(v) => v,
            None => {
                return Err(ConfigError::BadBrightness);
            }
        },
        None => DEFAULT_BRIGHTNESS,
    };
    let t: u64 = match timeout {
        Some(s) => match parse_u64(&s) {
            Some(v) => v,
            None => {
                return Err(ConfigError::BadTimeout);
            }
        },
        None => DEFAULT_TIMEOUT_SECS,
    };
    let dev: String = match device {
        Some(d) => d,
        None => String::from_str("/dev/input/event3"),
    };
    Ok(Config::new(dev, b, t, !no_dim, lazy))
}

} // verus!
