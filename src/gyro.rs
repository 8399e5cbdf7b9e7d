//! ITG-3205 gyroscope: register map, sample decoding and calibration.
use vstd::prelude::*;

use crate::fixed::{fdiv, fdiv_spec, fmul, fmul_spec, sat, saturate, within, SCALE};

verus! {

/// Bus address of the gyroscope.
pub const ADDRESS: u8 = 0x68;

/// Raw counts per degree per second (14.375).
pub const LSB_PER_DEG: i64 = 14_375_000;

#[allow(non_camel_case_types)]
#[derive(Clone, Copy, Debug, PartialEq, Eq, Structural)]
pub enum Register {
    PWR_MGM,
    SMPLRT_DIV,
    DLPF_FS,
    INT_CFG,
    TEMP_OUT_H,
    TEMP_OUT_L,
    GYRO_XOUT_H,
    GYRO_XOUT_L,
    GYRO_YOUT_H,
    GYRO_YOUT_L,
    GYRO_ZOUT_H,
    GYRO_ZOUT_L,
}

pub open spec fn addr_spec(r: Register) -> u8 {
    match r {
        Register::PWR_MGM => 0x3E,
        Register::SMPLRT_DIV => 0x15,
        Register::DLPF_FS => 0x16,
        Register::INT_CFG => 0x17,
        Register::TEMP_OUT_H => 0x1B,
        Register::TEMP_OUT_L => 0x1C,
        Register::GYRO_XOUT_H => 0x1D,
        Register::GYRO_XOUT_L => 0x1E,
        Register::GYRO_YOUT_H => 0x1F,
        Register::GYRO_YOUT_L => 0x20,
        Register::GYRO_ZOUT_H => 0x21,
        Register::GYRO_ZOUT_L => 0x22,
    }
}

impl Register {
    /// The register's address.
    pub fn addr(self) -> (r: u8)
        ensures
            r == addr_spec(self),
    {
        match self {
            Register::PWR_MGM => 0x3E,
            Register::SMPLRT_DIV => 0x15,
            Register::DLPF_FS => 0x16,
            Register::INT_CFG => 0x17,
            Register::TEMP_OUT_H => 0x1B,
            Register::TEMP_OUT_L => 0x1C,
            Register::GYRO_XOUT_H => 0x1D,
            Register::GYRO_XOUT_L => 0x1E,
            Register::GYRO_YOUT_H => 0x1F,
            Register::GYRO_YOUT_L => 0x20,
            Register::GYRO_ZOUT_H => 0x21,
            Register::GYRO_ZOUT_L => 0x22,
        }
    }
}

/// A big-endian two's-complement 16-bit value.
pub open spec fn be_i16_spec(hi: u8, lo: u8) -> int {
    let v = hi * 256 + lo;
    if v >= 0x8000 {
        v - 0x10000
    } else {
        v
    }
}

/// Decodes a sample register pair, high byte first.
pub fn sample_from_bytes(bytes: [u8; 2]) -> (r: i16)
    ensures
        r == be_i16_spec(bytes[0], bytes[1]),
{
    let v: i32 = (bytes[0] as i32) * 256 + (bytes[1] as i32);
    if v >= 0x8000 {
        (v - 0x10000) as i16
    } else {
        v as i16
    }
}

pub open spec fn sum_spec(s: Seq<i16>) -> int
    decreases s.len(),
{
    if s.len() == 0 {
        0
    } else {
        sum_spec(s.drop_last()) + s.last()
    }
}

/// Calibration offset of one axis, in counts: the
/// negated mean of samples taken at rest.
pub open spec fn offset_spec(samples: Seq<i16>) -> int {
    -fdiv_spec(sum_spec(samples), samples.len() as int)
}

pub fn calibration_offset(samples: &Vec<i16>) -> (r: i64)
    requires
        0 < samples@.len() <= 0xFFFF,
    ensures
        r == offset_spec(samples@),
        within(r as int),
{
    let n = samples.len();
    let mut sum: i64 = 0;
    let mut i: usize = 0;
    while i < n
        invariant
            n == samples@.len(),
            n <= 0xFFFF,
            i <= n,
            sum == sum_spec(samples@.take(i as int)),
            -32768 * i <= sum <= 32767 * i,
        decreases n - i,
    {
        proof {
            assert(samples@.take(i as int + 1).drop_last() == samples@.take(i as int));
        }
        sum = sum + samples[i] as i64;
        i = i + 1;
    }
    assert(samples@.take(n as int) == samples@);
    let q = fdiv(sum, n as i64);
    -q
}

/// Angular rate in degrees per second of a raw sample,
/// corrected by a calibration offset.
pub open spec fn rate_spec(raw: i16, offset: i64) -> int {
    fdiv_spec(raw * SCALE + offset, LSB_PER_DEG as int)
}

pub fn rate_from_raw(raw: i16, offset: i64) -> (r: i64)
    requires
        within(offset as int),
    ensures
        r == rate_spec(raw, offset),
        within(r as int),
{
    fdiv((raw as i64) * SCALE + offset, LSB_PER_DEG)
}

} // verus!

verus! {

/// Heading after turning at `rate` degrees per second for `dt` seconds.
pub open spec fn integrate_heading_spec(heading: int, rate: int, dt: int) -> int {
    sat(heading + fmul_spec(rate, dt))
}

pub fn integrate_heading(heading: i64, rate: i64, dt: i64) -> (r: i64)
    requires
        within(heading as int),
        within(rate as int),
        within(dt as int),
    ensures
        r == integrate_heading_spec(heading as int, rate as int, dt as int),
        within(r as int),
{
    saturate((heading as i128) + (fmul(rate, dt) as i128))
}

} // verus!
