//! Parsing of raw price-feed account bytes.
//!
//! An oracle price account is a fixed binary layout of little-endian
//! fields. The readers here state each field's value directly over the
//! byte sequence, so the validation logic built on top of them is verified
//! against the bytes themselves.

use vstd::prelude::*;

verus! {

/// Magic number marking a price account.
pub const PYTH_MAGIC: u32 = 0xa1b2c3d4;

/// Size in bytes of a serialized price account.
pub const PYTH_PRICE_ACCOUNT_SIZE: usize = 208;

/// The little-endian value of two bytes starting at `i`.
pub open spec fn le16(s: Seq<u8>, i: int) -> int {
    s[i] + 0x100 * s[i + 1]
}

/// The little-endian value of four bytes starting at `i`.
pub open spec fn le32(s: Seq<u8>, i: int) -> int {
    le16(s, i) + 0x10000 * le16(s, i + 2)
}

/// The little-endian value of eight bytes starting at `i`.
pub open spec fn le64(s: Seq<u8>, i: int) -> int {
    le32(s, i) + 0x1_0000_0000 * le32(s, i + 4)
}

/// The two's-complement signed value of four little-endian bytes.
pub open spec fn le32_signed(s: Seq<u8>, i: int) -> int {
    if le32(s, i) >= 0x8000_0000 {
        le32(s, i) - 0x1_0000_0000
    } else {
        le32(s, i)
    }
}

/// The two's-complement signed value of eight little-endian bytes.
pub open spec fn le64_signed(s: Seq<u8>, i: int) -> int {
    if le64(s, i) >= 0x8000_0000_0000_0000 {
        le64(s, i) - 0x1_0000_0000_0000_0000
    } else {
        le64(s, i)
    }
}

/// Reads two little-endian bytes as a `u16`.
pub fn read_u16_le(data: &Vec<u8>, off: usize) -> (r: u16)
    requires
        off + 2 <= data.len(),
    ensures
        r == le16(data@, off as int),
{
    (data[off] as u16) + (data[off + 1] as u16) * 0x100
}

/// Reads four little-endian bytes as a `u32`.
pub fn read_u32_le(data: &Vec<u8>, off: usize) -> (r: u32)
    requires
        off + 4 <= data.len(),
    ensures
        r == le32(data@, off as int),
{
    (data[off] as u32) + (data[off + 1] as u32) * 0x100 + (data[off + 2] as u32) * 0x10000 + (data[off
        + 3] as u32) * 0x100_0000
}

/// Reads eight little-endian bytes as a `u64`.
pub fn read_u64_le(data: &Vec<u8>, off: usize) -> (r: u64)
    requires
        off + 8 <= data.len(),
    ensures
        r == le64(data@, off as int),
{
    (read_u32_le(data, off) as u64) + (read_u32_le(data, off + 4) as u64) * 0x1_0000_0000
}

/// Reads four little-endian bytes as a two's-complement `i32`.
pub fn read_i32_le(data: &Vec<u8>, off: usize) -> (r: i32)
    requires
        off + 4 <= data.len(),
    ensures
        r == le32_signed(data@, off as int),
{
    let u = read_u32_le(data, off);
    if u >= 0x8000_0000 {
        -((u32::MAX - u) as i32) - 1
    } else {
        u as i32
    }
}

/// Reads eight little-endian bytes as a two's-complement `i64`.
pub fn read_i64_le(data: &Vec<u8>, off: usize) -> (r: i64)
    requires
        off + 8 <= data.len(),
    ensures
        r == le64_signed(data@, off as int),
{
    let u = read_u64_le(data, off);
    if u >= 0x8000_0000_0000_0000 {
        -((u64::MAX - u) as i64) - 1
    } else {
        u as i64
    }
}

/// Copies 32 bytes starting at `off` into a fixed array.
pub fn read_bytes32(data: &Vec<u8>, off: usize) -> (r: [u8; 32])
    requires
        off + 32 <= data.len(),
    ensures
        forall|j: int| 0 <= j < 32 ==> r@[j] == data@[off + j],
{
    [
        data[off],
        data[off + 1],
        data[off + 2],
        data[off + 3],
        data[off + 4],
        data[off + 5],
        data[off + 6],
        data[off + 7],
        data[off + 8],
        data[off + 9],
        data[off + 10],
        data[off + 11],
        data[off + 12],
        data[off + 13],
        data[off + 14],
        data[off + 15],
        data[off + 16],
        data[off + 17],
        data[off + 18],
        data[off + 19],
        data[off + 20],
        data[off + 21],
        data[off + 22],
        data[off + 23],
        data[off + 24],
        data[off + 25],
        data[off + 26],
        data[off + 27],
        data[off + 28],
        data[off + 29],
        data[off + 30],
        data[off + 31],
    ]
}

/// Trading status of a price feed.
#[derive(Clone, Copy, PartialEq, Eq, Structural, Debug)]
pub enum PythPriceStatus {
    Unknown,
    Trading,
    Halted,
    Auction,
}

impl PythPriceStatus {
    /// The numeric code this status is serialized as.
    pub open spec fn spec_code(self) -> u32 {
        match self {
            PythPriceStatus::Unknown => 0,
            PythPriceStatus::Trading => 1,
            PythPriceStatus::Halted => 2,
            PythPriceStatus::Auction => 3,
        }
    }

    /// The status a numeric code denotes, if any.
    pub fn from_code(code: u32) -> (r: Option<PythPriceStatus>)
        ensures
            r matches Some(s) ==> s.spec_code() == code,
            r is Some <==> code < 4,
    {
        match code {
            0 => Some(PythPriceStatus::Unknown),
            1 => Some(PythPriceStatus::Trading),
            2 => Some(PythPriceStatus::Halted),
            3 => Some(PythPriceStatus::Auction),
            _ => None,
        }
    }
}

/// The aggregate price block of a price account.
#[derive(Clone, Copy, PartialEq, Eq, Structural, Debug)]
pub struct PythPriceInfo {
    pub price: i64,
    pub conf: u64,
    pub status: u32,
    pub corp_act: u32,
    pub pub_slot: u64,
}

/// A whole price account, with every field at its fixed offset.
#[derive(Clone, Copy, Debug)]
pub struct PythPriceAccount {
    pub magic: u32,
    pub ver: u32,
    pub atype: u32,
    pub size: u32,
    pub price_type: u32,
    pub expo: i32,
    pub num_components: u32,
    pub num_quoters: u32,
    pub last_slot: u64,
    pub valid_slot: u64,
    pub ema_price: i64,
    pub ema_conf: u64,
    pub timestamp: i64,
    pub min_publishers: u8,
    pub drv2: u8,
    pub drv3: u16,
    pub drv4: u32,
    pub product: [u8; 32],
    pub next: [u8; 32],
    pub prev_slot: u64,
    pub prev_price: i64,
    pub prev_conf: u64,
    pub prev_timestamp: i64,
    pub agg: PythPriceInfo,
}

/// Every field of `a` equals its little-endian encoding in `s`.
pub open spec fn parsed_from(a: PythPriceAccount, s: Seq<u8>) -> bool {
    &&& a.magic == le32(s, 0)
    &&& a.ver == le32(s, 4)
    &&& a.atype == le32(s, 8)
    &&& a.size == le32(s, 12)
    &&& a.price_type == le32(s, 16)
    &&& a.expo == le32_signed(s, 20)
    &&& a.num_components == le32(s, 24)
    &&& a.num_quoters == le32(s, 28)
    &&& a.last_slot == le64(s, 32)
    &&& a.valid_slot == le64(s, 40)
    &&& a.ema_price == le64_signed(s, 48)
    &&& a.ema_conf == le64(s, 56)
    &&& a.timestamp == le64_signed(s, 64)
    &&& a.min_publishers == s[72]
    &&& a.drv2 == s[73]
    &&& a.drv3 == le16(s, 74)
    &&& a.drv4 == le32(s, 76)
    &&& (forall|j: int| 0 <= j < 32 ==> a.product@[j] == s[80 + j])
    &&& (forall|j: int| 0 <= j < 32 ==> a.next@[j] == s[112 + j])
    &&& a.prev_slot == le64(s, 144)
    &&& a.prev_price == le64_signed(s, 152)
    &&& a.prev_conf == le64(s, 160)
    &&& a.prev_timestamp == le64_signed(s, 168)
    &&& a.agg.price == le64_signed(s, 176)
    &&& a.agg.conf == le64(s, 184)
    &&& a.agg.status == le32(s, 192)
    &&& a.agg.corp_act == le32(s, 196)
    &&& a.agg.pub_slot == le64(s, 200)
}

/// Parses a price account from raw bytes. `None` when the buffer is
/// shorter than one serialized account; bytes past the account are
/// ignored.
pub fn parse_price_account(data: &Vec<u8>) -> (r: Option<PythPriceAccount>)
    ensures
        r is Some <==> data@.len() >= PYTH_PRICE_ACCOUNT_SIZE,
        r matches Some(a) ==> parsed_from(a, data@),
{
    if data.len() < PYTH_PRICE_ACCOUNT_SIZE {
        return None;
    }
    Some(
        PythPriceAccount {
            magic: read_u32_le(data, 0),
            ver: read_u32_le(data, 4),
            atype: read_u32_le(data, 8),
            size: read_u32_le(data, 12),
            price_type: read_u32_le(data, 16),
            expo: read_i32_le(data, 20),
            num_components: read_u32_le(data, 24),
            num_quoters: read_u32_le(data, 28),
            last_slot: read_u64_le(data, 32),
            valid_slot: read_u64_le(data, 40),
            ema_price: read_i64_le(data, 48),
            ema_conf: read_u64_le(data, 56),
            timestamp: read_i64_le(data, 64),
            min_publishers: data[72],
            drv2: data[73],
            drv3: read_u16_le(data, 74),
            drv4: read_u32_le(data, 76),
            product: read_bytes32(data, 80),
            next: read_bytes32(data, 112),
            prev_slot: read_u64_le(data, 144),
            prev_price: read_i64_le(data, 152),
            prev_conf: read_u64_le(data, 160),
            prev_timestamp: read_i64_le(data, 168),
            agg: PythPriceInfo {
                price: read_i64_le(data, 176),
                conf: read_u64_le(data, 184),
                status: read_u32_le(data, 192),
                corp_act: read_u32_le(data, 196),
                pub_slot: read_u64_le(data, 200),
            },
        },
    )
}

} // verus!
