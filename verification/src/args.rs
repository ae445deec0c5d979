//! Command line arguments of the builder: the flashblocks settings and their
//! duration values.

use vstd::prelude::*;
use vstd::string::StringSliceAdditionalSpecFns;

verus! {

/// The nanoseconds of a human-friendly duration such as `250ms`, `2.5s` or
/// `1h 12min`, or `None` when the text is not one.
pub uninterp spec fn humantime_duration(text: Seq<char>) -> Option<u128>;

#[verifier::external_type_specification]
#[verifier::external_body]
pub struct ExDurationError(humantime::DurationError);

/// The number of ASCII digits in a byte string. In UTF-8 the bytes of the
/// digits `0` to `9` stand for those characters only.
pub open spec fn ascii_digit_count(bytes: Seq<u8>) -> nat
    decreases bytes.len(),
{
    if bytes.len() == 0 {
        0
    } else {
        ascii_digit_count(bytes.drop_last()) + if 48 <= bytes.last() <= 57 { 1nat } else { 0nat }
    }
}

/// The most digits a duration text may hold. `humantime::parse_duration`
/// panics (in `Duration::new`) when the seconds it adds up reach `u64::MAX`
/// exactly and the nanoseconds then reach one second exactly, as in
/// `18446744073709551615s 1000000000ns`; other overflows are errors. A span
/// of `d` digits, fraction included, adds less than `10^d` years of
/// 31 557 600 seconds, so a text of at most this many digits stays below
/// 3.2e18 seconds, far from `u64::MAX`.
pub const DURATION_DIGITS_LIMIT: usize = 11;

/// Whether the text holds at most `DURATION_DIGITS_LIMIT` digits.
pub open spec fn duration_text_bounded(text: &str) -> bool {
    ascii_digit_count(text.spec_bytes()) <= DURATION_DIGITS_LIMIT
}

/// Tells whether a duration text is within the digit limit under which it can
/// be parsed.
pub fn within_duration_digits(text: &str) -> (r: bool)
    ensures
        r == duration_text_bounded(text),
{
    let bytes = text.as_bytes();
    let mut count: usize = 0;
    let mut i: usize = 0;
    while i < bytes.len()
        invariant
            bytes@ == text.spec_bytes(),
            i <= bytes@.len(),
            count <= i,
            count as nat == ascii_digit_count(bytes@.subrange(0, i as int)),
        decreases bytes@.len() - i,
    {
        proof {
            assert(bytes@.subrange(0, i as int + 1).drop_last() == bytes@.subrange(0, i as int));
        }
        if 48 <= bytes[i] && bytes[i] <= 57 {
            count = count + 1;
        }
        i = i + 1;
    }
    proof {
        assert(bytes@.subrange(0, bytes@.len() as int) == bytes@);
    }
    count <= DURATION_DIGITS_LIMIT
}

/// `humantime::parse_duration`, read back in nanoseconds. Its texts are kept
/// within the digit limit, under which it does not panic.
#[verifier::external_body]
fn humantime_parse_duration(text: &str) -> (r: Result<u128, humantime::DurationError>)
    requires
        duration_text_bounded(text),
    ensures
        match r {
            Ok(nanos) => humantime_duration(text@) == Some(nanos),
            Err(_) => humantime_duration(text@) is None,
        },
{
    humantime::parse_duration(text).map(|d| d.as_nanos())
}

/// Why an argument was refused.
#[derive(Debug, Clone, Copy, PartialEq, Eq, Structural)]
pub enum ArgsError {
    /// The value is not a duration.
    InvalidDuration,
}

/// Parses the value of a duration argument.
pub fn parse_duration(text: &str) -> (r: Result<u128, ArgsError>)
    requires
        duration_text_bounded(text),
    ensures
        match r {
            Ok(nanos) => humantime_duration(text@) == Some(nanos),
            Err(e) => humantime_duration(text@) is None && e == ArgsError::InvalidDuration,
        },
{
    match humantime_parse_duration(text) {
        Ok(nanos) => Ok(nanos),
        Err(_) => Err(ArgsError::InvalidDuration),
    }
}

/// Nanoseconds of the default flashblock interval (250ms).
pub const DEFAULT_INTERVAL: u128 = 250_000_000;

/// Nanoseconds of the default leeway time (75ms).
pub const DEFAULT_LEEWAY_TIME: u128 = 75_000_000;

/// The flashblocks settings.
#[derive(Debug, Clone)]
pub struct FlashblocksArgs {
    /// Flashblocks block-time target (`--flashblocks.interval`).
    pub interval: u128,
    /// Time by which flashblocks will be delivered earlier to account for
    /// network latency; it is absorbed by the first flashblock
    /// (`--flashblocks.leeway-time`).
    pub leeway_time: u128,
    /// The WebSocket address that flashblocks are published on
    /// (`--flashblocks`).
    pub ws_address: String,
    /// Should we calculate the state root for each flashblock
    /// (`--flashblocks.calculate-state-root`).
    pub calculate_state_root: bool,
}

impl Default for FlashblocksArgs {
    fn default() -> (r: Self)
        ensures
            r.interval == DEFAULT_INTERVAL,
            r.leeway_time == DEFAULT_LEEWAY_TIME,
            r.ws_address@ == "0.0.0.0:10111"@,
            !r.calculate_state_root,
    {
        FlashblocksArgs {
            interval: DEFAULT_INTERVAL,
            leeway_time: DEFAULT_LEEWAY_TIME,
            ws_address: "0.0.0.0:10111".to_owned(),
            calculate_state_root: false,
        }
    }
}

impl FlashblocksArgs {
    /// Sets the leeway time from the text of its argument; on error the
    /// settings are unchanged.
    pub fn set_leeway_time(&mut self, text: &str) -> (r: Result<(), ArgsError>)
        requires
            duration_text_bounded(text),
        ensures
            match r {
                Ok(()) => humantime_duration(text@) == Some(final(self).leeway_time),
                Err(_) => humantime_duration(text@) is None && final(self).leeway_time == old(self).leeway_time,
            },
            final(self).interval == old(self).interval,
            final(self).ws_address == old(self).ws_address,
            final(self).calculate_state_root == old(self).calculate_state_root,
    {
        let nanos = parse_duration(text)?;
        self.leeway_time = nanos;
        Ok(())
    }

    /// Sets the flashblock interval from the text of its argument; on error
    /// the settings are unchanged.
    pub fn set_interval(&mut self, text: &str) -> (r: Result<(), ArgsError>)
        requires
            duration_text_bounded(text),
        ensures
            match r {
                Ok(()) => humantime_duration(text@) == Some(final(self).interval),
                Err(_) => humantime_duration(text@) is None && final(self).interval == old(self).interval,
            },
            final(self).leeway_time == old(self).leeway_time,
            final(self).ws_address == old(self).ws_address,
            final(self).calculate_state_root == old(self).calculate_state_root,
    {
        let nanos = parse_duration(text)?;
        self.interval = nanos;
        Ok(())
    }
}

/// This trait is used to extend the node's command line with functionality
/// that is specific to the builder, such as populating default values for
/// arguments when running in the playground mode.
pub trait CliExt: Sized {
    /// Populates the default values for the arguments when the user specifies
    /// the `--builder.playground` flag.
    fn populate_defaults(self) -> Self;

    /// Returns the command line with the parsed arguments and defaults
    /// populated if applicable.
    fn parsed() -> Self;

    /// Returns the command line with the parsed arguments and replaces
    /// version, name, author, and about.
    fn set_version() -> Self;
}

} // verus!
