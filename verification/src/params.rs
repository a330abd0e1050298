//! The protocol's constants and the timings derived from them, in milliseconds.

use vstd::arithmetic::power2::pow2;
use vstd::prelude::*;

verus! {

pub const VERSION: u8 = 1;

pub const HEADER_SIZE: usize = 4;

pub const PAYLOAD_MARKER: u8 = 0xFF;

/// The least time to wait for the acknowledgement of a confirmable message.
pub const ACK_TIMEOUT: u64 = 2_000;

/// The factor by which the first wait may be stretched at random, as the
/// fraction `ACK_RANDOM_NUMER / ACK_RANDOM_DENOM` (one and a half).
pub const ACK_RANDOM_NUMER: u64 = 3;

pub const ACK_RANDOM_DENOM: u64 = 2;

/// The end of the range from which the first wait is drawn:
/// `ACK_TIMEOUT` times the random factor.
pub const ACK_TIMEOUT_MAX: u64 = 3_000;

/// How often a confirmable message is sent again.
pub const MAX_RETRANSMIT: u32 = 4;

pub const DEFAULT_LEISURE: u64 = 5_000;

/// Bytes per second that may be sent to a peer that does not answer.
pub const PROBING_RATE: u64 = 1;

pub const MAX_LATENCY: u64 = 100_000;

pub const PROCESSING_DELAY: u64 = ACK_TIMEOUT;

pub const MAX_RTT: u64 = (2 * MAX_LATENCY) + PROCESSING_DELAY;

/// From the first transmission of a confirmable message to its last retransmission.
pub const MAX_TRANSMIT_SPAN: u64 = 45_000;

/// From the first transmission of a confirmable message to the time when
/// the sender gives up waiting.
pub const MAX_TRANSMIT_WAIT: u64 = 93_000;

/// From sending a confirmable message to the time when its message id can be used again.
pub const EXCHANGE_LIFETIME: u64 = 247_000;

/// From sending a non-confirmable message to the time when its message id can be used again.
pub const NON_LIFETIME: u64 = 145_000;

/// `ack_timeout * (2^max_retransmit - 1) * numer / denom`, rounded down.
pub open spec fn spec_max_transmit_span(
    ack_timeout: u64,
    max_retransmit: u32,
    numer: u64,
    denom: u64,
) -> int {
    ack_timeout * (pow2(max_retransmit as nat) - 1) * numer / (denom as int)
}

/// `ack_timeout * (2^(max_retransmit + 1) - 1) * numer / denom`, rounded down.
pub open spec fn spec_max_transmit_wait(
    ack_timeout: u64,
    max_retransmit: u32,
    numer: u64,
    denom: u64,
) -> int {
    ack_timeout * (pow2((max_retransmit + 1) as nat) - 1) * numer / (denom as int)
}

/// `2^exponent`, where it fits.
fn power_of_two(exponent: u32) -> (power: Option<u64>)
    ensures
        match power {
            Some(p) => p == pow2(exponent as nat),
            None => pow2(exponent as nat) > u64::MAX,
        },
{
    proof {
        vstd::arithmetic::power2::lemma2_to64();
        vstd::arithmetic::power2::lemma2_to64_rest();
    }
    if exponent >= 64 {
        proof {
            if exponent > 64 {
                vstd::arithmetic::power2::lemma_pow2_strictly_increases(64, exponent as nat);
            }
        }
        return None;
    }
    let mut power: u64 = 1;
    let mut i: u32 = 0;
    while i < exponent
        invariant
            i <= exponent < 64,
            power == pow2(i as nat),
        decreases exponent - i,
    {
        proof {
            vstd::arithmetic::power2::lemma_pow2_unfold((i + 1) as nat);
            vstd::arithmetic::power2::lemma2_to64_rest();
            if i + 1 < 63 {
                vstd::arithmetic::power2::lemma_pow2_strictly_increases((i + 1) as nat, 63);
            }
        }
        power = power * 2;
        i += 1;
    }
    Some(power)
}

/// `ack_timeout * (power - 1) * numer / denom`, where every step fits.
fn span(ack_timeout: u64, power: u64, numer: u64, denom: u64) -> (span: Option<u64>)
    requires
        power >= 1,
    ensures
        match span {
            Some(s) => denom > 0 && ack_timeout * (power - 1) * numer <= u64::MAX && s
                == ack_timeout * (power - 1) * numer / (denom as int),
            None => denom == 0 || ack_timeout * (power - 1) * numer > u64::MAX,
        },
{
    if denom == 0 {
        return None;
    }
    let ghost a = ack_timeout as int;
    let ghost b = (power - 1) as int;
    let ghost c = numer as int;
    let scaled: u64 = match ack_timeout.checked_mul(power - 1) {
        Some(scaled) => scaled,
        None => {
            if numer == 0 {
                assert(a * b * c == 0) by (nonlinear_arith)
                    requires
                        c == 0,
                ;
                return Some(0);
            }
            assert(a * b * c > u64::MAX) by (nonlinear_arith)
                requires
                    a * b > u64::MAX,
                    c >= 1,
            ;
            return None;
        },
    };
    match scaled.checked_mul(numer) {
        Some(product) => Some(product / denom),
        None => None,
    }
}

/// The time from the first transmission of a confirmable message to its
/// last retransmission, with the random factor given as the fraction
/// `numer / denom`. It gives nothing where `denom` is zero or a step of the
/// formula does not fit 64 bits.
pub fn max_transmit_span(ack_timeout: u64, max_retransmit: u32, numer: u64, denom: u64) -> (span:
    Option<u64>)
    ensures
        span matches Some(s) ==> denom > 0 && s == spec_max_transmit_span(
            ack_timeout,
            max_retransmit,
            numer,
            denom,
        ),
        span is None <==> denom == 0 || pow2(max_retransmit as nat) > u64::MAX || ack_timeout * (
        pow2(max_retransmit as nat) - 1) * numer > u64::MAX,
{
    proof {
        vstd::arithmetic::power2::lemma_pow2_pos(max_retransmit as nat);
    }
    match power_of_two(max_retransmit) {
        Some(power) => span(ack_timeout, power, numer, denom),
        None => None,
    }
}

/// The time from the first transmission of a confirmable message to the
/// time when the sender gives up, with the random factor given as the
/// fraction `numer / denom`. It gives nothing where `denom` is zero or a step
/// of the formula does not fit 64 bits.
pub fn max_transmit_wait(ack_timeout: u64, max_retransmit: u32, numer: u64, denom: u64) -> (wait:
    Option<u64>)
    ensures
        wait matches Some(w) ==> denom > 0 && max_retransmit < u32::MAX && w
            == spec_max_transmit_wait(ack_timeout, max_retransmit, numer, denom),
        wait is None <==> denom == 0 || max_retransmit == u32::MAX || pow2(
            (max_retransmit + 1) as nat,
        ) > u64::MAX || ack_timeout * (pow2((max_retransmit + 1) as nat) - 1) * numer > u64::MAX,
{
    if max_retransmit == u32::MAX {
        return None;
    }
    proof {
        vstd::arithmetic::power2::lemma_pow2_pos((max_retransmit + 1) as nat);
    }
    match power_of_two(max_retransmit + 1) {
        Some(power) => span(ack_timeout, power, numer, denom),
        None => None,
    }
}

/// `max_transmit_span + 2 * max_latency + proc_delay`.
pub fn exchange_lifetime(max_transmit_span: u64, max_latency: u64, proc_delay: u64) -> (lifetime:
    u64)
    requires
        max_transmit_span + 2 * max_latency + proc_delay <= u64::MAX,
    ensures
        lifetime == max_transmit_span + 2 * max_latency + proc_delay,
{
    max_transmit_span + (2 * max_latency) + proc_delay
}

/// `max_transmit_span + max_latency`.
pub fn non_lifetime(max_transmit_span: u64, max_latency: u64) -> (lifetime: u64)
    requires
        max_transmit_span + max_latency <= u64::MAX,
    ensures
        lifetime == max_transmit_span + max_latency,
{
    max_transmit_span + max_latency
}

/// The derived constants are what the formulas give for the protocol's constants.
pub proof fn lemma_derived_constants()
    ensures
        ACK_TIMEOUT_MAX == ACK_TIMEOUT * ACK_RANDOM_NUMER / (ACK_RANDOM_DENOM as int),
        MAX_TRANSMIT_SPAN == spec_max_transmit_span(
            ACK_TIMEOUT,
            MAX_RETRANSMIT,
            ACK_RANDOM_NUMER,
            ACK_RANDOM_DENOM,
        ),
        MAX_TRANSMIT_WAIT == spec_max_transmit_wait(
            ACK_TIMEOUT,
            MAX_RETRANSMIT,
            ACK_RANDOM_NUMER,
            ACK_RANDOM_DENOM,
        ),
        EXCHANGE_LIFETIME == MAX_TRANSMIT_SPAN + 2 * MAX_LATENCY + PROCESSING_DELAY,
        NON_LIFETIME == MAX_TRANSMIT_SPAN + MAX_LATENCY,
{
    vstd::arithmetic::power2::lemma2_to64();
}

} // verus!
