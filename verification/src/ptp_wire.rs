//! The picture-transfer wire format the camera driver speaks: request
//! containers, typed property values, and the property-info table.
//!
//! Scalars are little-endian; strings are counted sequences of 16-bit
//! units with a terminating zero unit included in the count.  The
//! property table arrives count-prefixed; entries whose property code
//! this driver does not recognize are dropped during decode, not
//! retained under a placeholder.

use vstd::prelude::*;
use crate::opcodes::PropertyCode;
use crate::opcodes::spec_property_code_of_wire;
use crate::sdio::DecodeError;
use crate::sdio::le16_at;
use crate::sdio::le16_list_at;
use crate::sdio::read_le16;

verus! {

/// Container type of a request.
pub const CONTAINER_COMMAND: u16 = 1;

/// Container type of a data phase.
pub const CONTAINER_DATA: u16 = 2;

/// Container type of a response.
pub const CONTAINER_RESPONSE: u16 = 3;

/// Container type of an event.
pub const CONTAINER_EVENT: u16 = 4;

/// Response code of a completed operation.
pub const RESPONSE_OK: u16 = 0x2001;

/// Vendor response code for a failed authentication, observed when the
/// offered protocol version is below the camera's firmware version.
pub const RESPONSE_AUTH_FAILED: u16 = 0xA101;

/// The two little-endian bytes of a 16-bit value.
pub open spec fn u16_bytes(x: u16) -> Seq<u8> {
    seq![(x & 0xFF) as u8, ((x >> 8) & 0xFF) as u8]
}

/// The four little-endian bytes of a 32-bit value.
pub open spec fn u32_bytes(x: u32) -> Seq<u8> {
    seq![
        (x & 0xFF) as u8,
        ((x >> 8) & 0xFF) as u8,
        ((x >> 16) & 0xFF) as u8,
        ((x >> 24) & 0xFF) as u8,
    ]
}

/// The eight little-endian bytes of a 64-bit value.
pub open spec fn u64_bytes(x: u64) -> Seq<u8> {
    seq![
        (x & 0xFF) as u8,
        ((x >> 8) & 0xFF) as u8,
        ((x >> 16) & 0xFF) as u8,
        ((x >> 24) & 0xFF) as u8,
        ((x >> 32) & 0xFF) as u8,
        ((x >> 40) & 0xFF) as u8,
        ((x >> 48) & 0xFF) as u8,
        ((x >> 56) & 0xFF) as u8,
    ]
}

/// The little-endian bytes of the first `k` 32-bit values.
pub open spec fn u32s_bytes_upto(xs: Seq<u32>, k: int) -> Seq<u8>
    decreases k when 0 <= k <= xs.len()
{
    if k <= 0 {
        Seq::empty()
    } else {
        u32s_bytes_upto(xs, k - 1) + u32_bytes(xs[k - 1])
    }
}

/// The little-endian bytes of a list of 32-bit values.
pub open spec fn u32s_bytes(xs: Seq<u32>) -> Seq<u8> {
    u32s_bytes_upto(xs, xs.len() as int)
}

/// The little-endian bytes of the first `k` 16-bit values.
pub open spec fn u16s_bytes_upto(xs: Seq<u16>, k: int) -> Seq<u8>
    decreases k when 0 <= k <= xs.len()
{
    if k <= 0 {
        Seq::empty()
    } else {
        u16s_bytes_upto(xs, k - 1) + u16_bytes(xs[k - 1])
    }
}

/// The little-endian bytes of a list of 16-bit values.
pub open spec fn u16s_bytes(xs: Seq<u16>) -> Seq<u8> {
    u16s_bytes_upto(xs, xs.len() as int)
}

/// Append the two little-endian bytes of a 16-bit value.
pub fn write_u16(out: &mut Vec<u8>, x: u16)
    requires
        old(out)@.len() + 2 <= usize::MAX,
    ensures
        final(out)@ == old(out)@ + u16_bytes(x),
{
    out.push((x & 0xFF) as u8);
    out.push(((x >> 8) & 0xFF) as u8);
    proof {
        assert(out@ =~= old(out)@ + u16_bytes(x));
    }
}

/// Append the four little-endian bytes of a 32-bit value.
pub fn write_u32(out: &mut Vec<u8>, x: u32)
    requires
        old(out)@.len() + 4 <= usize::MAX,
    ensures
        final(out)@ == old(out)@ + u32_bytes(x),
{
    out.push((x & 0xFF) as u8);
    out.push(((x >> 8) & 0xFF) as u8);
    out.push(((x >> 16) & 0xFF) as u8);
    out.push(((x >> 24) & 0xFF) as u8);
    proof {
        assert(out@ =~= old(out)@ + u32_bytes(x));
    }
}

/// Append the eight little-endian bytes of a 64-bit value.
pub fn write_u64(out: &mut Vec<u8>, x: u64)
    requires
        old(out)@.len() + 8 <= usize::MAX,
    ensures
        final(out)@ == old(out)@ + u64_bytes(x),
{
    out.push((x & 0xFF) as u8);
    out.push(((x >> 8) & 0xFF) as u8);
    out.push(((x >> 16) & 0xFF) as u8);
    out.push(((x >> 24) & 0xFF) as u8);
    out.push(((x >> 32) & 0xFF) as u8);
    out.push(((x >> 40) & 0xFF) as u8);
    out.push(((x >> 48) & 0xFF) as u8);
    out.push(((x >> 56) & 0xFF) as u8);
    proof {
        assert(out@ =~= old(out)@ + u64_bytes(x));
    }
}

/// A request container: total length, the command type, the operation
/// code, the transaction id, and up to five 32-bit parameters.
pub open spec fn spec_command_container(code: u16, tid: u32, params: Seq<u32>) -> Seq<u8> {
    u32_bytes((12 + 4 * params.len()) as u32) + u16_bytes(CONTAINER_COMMAND) + u16_bytes(code)
        + u32_bytes(tid) + u32s_bytes(params)
}

/// Encode one command container.
pub fn encode_command_container(code: u16, tid: u32, params: &Vec<u32>) -> (r: Vec<u8>)
    requires
        params@.len() <= 5,
    ensures
        r@ == spec_command_container(code, tid, params@),
{
    let mut out: Vec<u8> = Vec::new();
    let total: u32 = 12 + 4 * (params.len() as u32);
    write_u32(&mut out, total);
    write_u16(&mut out, CONTAINER_COMMAND);
    write_u16(&mut out, code);
    write_u32(&mut out, tid);
    let mut k: usize = 0;
    while k < params.len()
        invariant
            k <= params@.len() <= 5,
            out@.len() == 12 + 4 * k,
            out@ == u32_bytes((12 + 4 * params@.len()) as u32) + u16_bytes(CONTAINER_COMMAND)
                + u16_bytes(code) + u32_bytes(tid) + u32s_bytes_upto(params@, k as int),
        decreases params@.len() - k,
    {
        write_u32(&mut out, params[k]);
        k = k + 1;
        proof {
            assert(out@ =~= u32_bytes((12 + 4 * params@.len()) as u32) + u16_bytes(
                CONTAINER_COMMAND,
            ) + u16_bytes(code) + u32_bytes(tid) + u32s_bytes_upto(params@, k as int));
        }
    }
    out
}

/// Header of a received container.
#[derive(Debug, Clone, Copy, PartialEq, Eq, Structural)]
pub struct ContainerHeader {
    pub total_len: u32,
    pub container_type: u16,
    pub code: u16,
    pub transaction_id: u32,
}

/// The header fields at the front of a received container, when the
/// twelve header bytes are present.
pub open spec fn spec_container_header(b: Seq<u8>) -> Option<ContainerHeader> {
    if b.len() < 12 {
        None
    } else {
        Some(
            ContainerHeader {
                total_len: crate::sdio::le32_at(b, 0),
                container_type: le16_at(b, 4),
                code: le16_at(b, 6),
                transaction_id: crate::sdio::le32_at(b, 8),
            },
        )
    }
}

/// Decode the header of a received container.
pub fn decode_container_header(b: &[u8]) -> (r: Result<ContainerHeader, DecodeError>)
    ensures
        match r {
            Ok(h) => spec_container_header(b@) == Some(h),
            Err(e) => spec_container_header(b@) is None && e == DecodeError::Truncated,
        },
{
    if b.len() < 12 {
        return Err(DecodeError::Truncated);
    }
    Ok(
        ContainerHeader {
            total_len: crate::sdio::read_le32(b, 0),
            container_type: read_le16(b, 4),
            code: read_le16(b, 6),
            transaction_id: crate::sdio::read_le32(b, 8),
        },
    )
}

/// How the driver reads a response code during the handshake.
#[derive(Debug, Clone, Copy, PartialEq, Eq, Structural)]
pub enum ResponseClass {
    /// The operation completed.
    Completed,
    /// The vendor authentication-failed response: the offered protocol
    /// version is too low.
    AuthFailed,
    /// Any other failure; possibly transient.
    Other,
}

/// The payload of a complete received container: the bytes between the
/// twelve-byte header and the declared total length.
pub fn container_payload(b: &[u8], header: &ContainerHeader) -> (r: Option<Vec<u8>>)
    requires
        spec_container_header(b@) == Some(*header),
    ensures
        match r {
            Some(p) => 12 <= header.total_len <= b@.len() && p@ == b@.subrange(
                12,
                header.total_len as int,
            ),
            None => header.total_len < 12 || header.total_len > b@.len(),
        },
{
    let total: usize = header.total_len as usize;
    if total < 12 || total > b.len() {
        return None;
    }
    let mut out: Vec<u8> = Vec::new();
    let mut i: usize = 12;
    while i < total
        invariant
            12 <= i <= total <= b@.len(),
            out@ == b@.subrange(12, i as int),
        decreases total - i,
    {
        out.push(b[i]);
        i = i + 1;
    }
    Some(out)
}

/// What one received container means to a pending transaction: a data
/// phase hands over its payload and the exchange goes on, a response
/// ends it with the result code, and any other container is not part of
/// the exchange.
pub enum Collected {
    /// The data phase arrived; keep reading.
    DataPhase { payload: Vec<u8> },
    /// The response arrived with this code; the transaction is over.
    Finished { code: u16 },
    /// Not part of this exchange; keep reading.
    Unrelated,
}

/// Sort one received container into the request/response exchange.
pub fn collect_container(header: &ContainerHeader, payload: Vec<u8>) -> (r: Collected)
    ensures
        header.container_type == CONTAINER_DATA ==> (r matches Collected::DataPhase { payload: p }
            && p == payload),
        header.container_type == CONTAINER_RESPONSE ==> r == (Collected::Finished {
            code: header.code,
        }),
        header.container_type != CONTAINER_DATA && header.container_type != CONTAINER_RESPONSE
            ==> r is Unrelated,
{
    if header.container_type == CONTAINER_DATA {
        Collected::DataPhase { payload }
    } else if header.container_type == CONTAINER_RESPONSE {
        Collected::Finished { code: header.code }
    } else {
        Collected::Unrelated
    }
}

/// The asynchronous event a received container carries, if it is an
/// event container at all.
pub fn event_code(header: &ContainerHeader) -> (r: Option<u16>)
    ensures
        header.container_type == CONTAINER_EVENT ==> r == Some(header.code),
        header.container_type != CONTAINER_EVENT ==> r is None,
{
    if header.container_type == CONTAINER_EVENT {
        Some(header.code)
    } else {
        None
    }
}

/// Wire code of the signed 8-bit value type.
pub const DT_INT8: u16 = 0x0001;

/// Wire code of the unsigned 8-bit value type.
pub const DT_UINT8: u16 = 0x0002;

/// Wire code of the signed 16-bit value type.
pub const DT_INT16: u16 = 0x0003;

/// Wire code of the unsigned 16-bit value type.
pub const DT_UINT16: u16 = 0x0004;

/// Wire code of the signed 32-bit value type.
pub const DT_INT32: u16 = 0x0005;

/// Wire code of the unsigned 32-bit value type.
pub const DT_UINT32: u16 = 0x0006;

/// Wire code of the signed 64-bit value type.
pub const DT_INT64: u16 = 0x0007;

/// Wire code of the unsigned 64-bit value type.
pub const DT_UINT64: u16 = 0x0008;

/// Wire code of the counted-string value type.
pub const DT_STR: u16 = 0xFFFF;

/// A typed property value.  Strings are carried as their 16-bit wire
/// units; the runtime converts to and from text at the boundary.
#[derive(Debug, Clone, PartialEq, Eq)]
pub enum PropValue {
    Int8(i8),
    Uint8(u8),
    Int16(i16),
    Uint16(u16),
    Int32(i32),
    Uint32(u32),
    Int64(i64),
    Uint64(u64),
    Text(Vec<u16>),
}

/// The mathematical form of a typed property value.
pub enum PropValueSpec {
    Int8(i8),
    Uint8(u8),
    Int16(i16),
    Uint16(u16),
    Int32(i32),
    Uint32(u32),
    Int64(i64),
    Uint64(u64),
    Text(Seq<u16>),
}

/// The mathematical form a `PropValue` stands for.
pub open spec fn prop_value_view(v: PropValue) -> PropValueSpec {
    match v {
        PropValue::Int8(x) => PropValueSpec::Int8(x),
        PropValue::Uint8(x) => PropValueSpec::Uint8(x),
        PropValue::Int16(x) => PropValueSpec::Int16(x),
        PropValue::Uint16(x) => PropValueSpec::Uint16(x),
        PropValue::Int32(x) => PropValueSpec::Int32(x),
        PropValue::Uint32(x) => PropValueSpec::Uint32(x),
        PropValue::Int64(x) => PropValueSpec::Int64(x),
        PropValue::Uint64(x) => PropValueSpec::Uint64(x),
        PropValue::Text(u) => PropValueSpec::Text(u@),
    }
}

/// The wire bytes of a typed property value: scalars little-endian, a
/// string as its unit count — terminator included — followed by the
/// units and the zero terminator.
pub open spec fn prop_value_bytes(v: PropValueSpec) -> Seq<u8> {
    match v {
        PropValueSpec::Int8(x) => seq![x as u8],
        PropValueSpec::Uint8(x) => seq![x],
        PropValueSpec::Int16(x) => u16_bytes(x as u16),
        PropValueSpec::Uint16(x) => u16_bytes(x),
        PropValueSpec::Int32(x) => u32_bytes(x as u32),
        PropValueSpec::Uint32(x) => u32_bytes(x),
        PropValueSpec::Int64(x) => u64_bytes(x as u64),
        PropValueSpec::Uint64(x) => u64_bytes(x),
        PropValueSpec::Text(units) => seq![(units.len() + 1) as u8] + u16s_bytes(units)
            + u16_bytes(0),
    }
}

/// Encode a typed property value for the data phase of a property write.
pub fn encode_prop_value(v: &PropValue) -> (r: Vec<u8>)
    requires
        v matches PropValue::Text(u) ==> u@.len() <= 254,
    ensures
        r@ == prop_value_bytes(prop_value_view(*v)),
{
    let mut out: Vec<u8> = Vec::new();
    match v {
        PropValue::Int8(x) => {
            out.push(*x as u8);
        },
        PropValue::Uint8(x) => {
            out.push(*x);
        },
        PropValue::Int16(x) => {
            write_u16(&mut out, *x as u16);
        },
        PropValue::Uint16(x) => {
            write_u16(&mut out, *x);
        },
        PropValue::Int32(x) => {
            write_u32(&mut out, *x as u32);
        },
        PropValue::Uint32(x) => {
            write_u32(&mut out, *x);
        },
        PropValue::Int64(x) => {
            write_u64(&mut out, *x as u64);
        },
        PropValue::Uint64(x) => {
            write_u64(&mut out, *x);
        },
        PropValue::Text(units) => {
            out.push((units.len() + 1) as u8);
            let mut k: usize = 0;
            while k < units.len()
                invariant
                    k <= units@.len() <= 254,
                    out@ == seq![(units@.len() + 1) as u8] + u16s_bytes_upto(units@, k as int),
                    out@.len() == 1 + 2 * k,
                decreases units@.len() - k,
            {
                write_u16(&mut out, units[k]);
                k = k + 1;
                proof {
                    assert(out@ =~= seq![(units@.len() + 1) as u8] + u16s_bytes_upto(
                        units@,
                        k as int,
                    ));
                }
            }
            write_u16(&mut out, 0);
        },
    }
    proof {
        assert(out@ =~= prop_value_bytes(prop_value_view(*v)));
    }
    out
}

/// The typed value of kind `dt` at offset `i`, with the bytes it spans.
pub open spec fn spec_prop_value_at(dt: u16, b: Seq<u8>, i: int) -> Option<(PropValueSpec, int)> {
    if dt == DT_INT8 {
        if i + 1 <= b.len() {
            Some((PropValueSpec::Int8(b[i] as i8), 1))
        } else {
            None
        }
    } else if dt == DT_UINT8 {
        if i + 1 <= b.len() {
            Some((PropValueSpec::Uint8(b[i]), 1))
        } else {
            None
        }
    } else if dt == DT_INT16 {
        if i + 2 <= b.len() {
            Some((PropValueSpec::Int16(le16_at(b, i) as i16), 2))
        } else {
            None
        }
    } else if dt == DT_UINT16 {
        if i + 2 <= b.len() {
            Some((PropValueSpec::Uint16(le16_at(b, i)), 2))
        } else {
            None
        }
    } else if dt == DT_INT32 {
        if i + 4 <= b.len() {
            Some((PropValueSpec::Int32(crate::sdio::le32_at(b, i) as i32), 4))
        } else {
            None
        }
    } else if dt == DT_UINT32 {
        if i + 4 <= b.len() {
            Some((PropValueSpec::Uint32(crate::sdio::le32_at(b, i)), 4))
        } else {
            None
        }
    } else if dt == DT_INT64 {
        if i + 8 <= b.len() {
            Some((PropValueSpec::Int64(crate::sdio::le64_at(b, i) as i64), 8))
        } else {
            None
        }
    } else if dt == DT_UINT64 {
        if i + 8 <= b.len() {
            Some((PropValueSpec::Uint64(crate::sdio::le64_at(b, i)), 8))
        } else {
            None
        }
    } else if dt == DT_STR {
        if i + 1 <= b.len() {
            let n = b[i] as int;
            if n == 0 {
                Some((PropValueSpec::Text(Seq::empty()), 1))
            } else if i + 1 + 2 * n <= b.len() {
                Some((PropValueSpec::Text(le16_list_at(b, i + 1, (n - 1) as nat)), 1 + 2 * n))
            } else {
                None
            }
        } else {
            None
        }
    } else {
        None
    }
}

/// Decode the typed value of kind `dt` at offset `i`.
pub fn decode_prop_value(dt: u16, b: &[u8], i: usize) -> (r: Option<(PropValue, usize)>)
    requires
        i <= b@.len(),
    ensures
        match r {
            Some(p) => spec_prop_value_at(dt, b@, i as int) == Some(
                (prop_value_view(p.0), p.1 as int),
            ) && i + p.1 <= b@.len() && 1 <= p.1,
            None => spec_prop_value_at(dt, b@, i as int) is None,
        },
{
    let n: usize = b.len();
    if dt == DT_INT8 {
        if n - i >= 1 {
            Some((PropValue::Int8(b[i] as i8), 1))
        } else {
            None
        }
    } else if dt == DT_UINT8 {
        if n - i >= 1 {
            Some((PropValue::Uint8(b[i]), 1))
        } else {
            None
        }
    } else if dt == DT_INT16 {
        if n - i >= 2 {
            Some((PropValue::Int16(read_le16(b, i) as i16), 2))
        } else {
            None
        }
    } else if dt == DT_UINT16 {
        if n - i >= 2 {
            Some((PropValue::Uint16(read_le16(b, i)), 2))
        } else {
            None
        }
    } else if dt == DT_INT32 {
        if n - i >= 4 {
            Some((PropValue::Int32(crate::sdio::read_le32(b, i) as i32), 4))
        } else {
            None
        }
    } else if dt == DT_UINT32 {
        if n - i >= 4 {
            Some((PropValue::Uint32(crate::sdio::read_le32(b, i)), 4))
        } else {
            None
        }
    } else if dt == DT_INT64 {
        if n - i >= 8 {
            Some((PropValue::Int64(crate::sdio::read_le64(b, i) as i64), 8))
        } else {
            None
        }
    } else if dt == DT_UINT64 {
        if n - i >= 8 {
            Some((PropValue::Uint64(crate::sdio::read_le64(b, i)), 8))
        } else {
            None
        }
    } else if dt == DT_STR {
        if n - i >= 1 {
            let count: usize = b[i] as usize;
            if count == 0 {
                Some((PropValue::Text(Vec::new()), 1))
            } else if 2 * count <= n - (i + 1) {
                let units = crate::sdio::read_le16_list(b, i + 1, count - 1);
                Some((PropValue::Text(units), 1 + 2 * count))
            } else {
                None
            }
        } else {
            None
        }
    } else {
        None
    }
}


/// Value of the form field announcing no constraint on the property.
pub const FORM_NONE: u8 = 0;

/// Value of the form field announcing a range constraint: minimum,
/// maximum and step follow.
pub const FORM_RANGE: u8 = 1;

/// Value of the form field announcing an enumeration constraint: a
/// 16-bit count of permitted values follows, then the values.
pub const FORM_ENUM: u8 = 2;

/// The bytes that `count` consecutive values of kind `dt` span from
/// offset `i`.
pub open spec fn spec_values_extent(dt: u16, b: Seq<u8>, i: int, count: nat) -> Option<int>
    decreases count,
{
    if count == 0 {
        Some(0)
    } else {
        match spec_prop_value_at(dt, b, i) {
            None => None,
            Some((v, used)) => match spec_values_extent(dt, b, i + used, (count - 1) as nat) {
                None => None,
                Some(rest) => Some(used + rest),
            },
        }
    }
}

/// The bytes the form constraint of a property spans from offset `i`.
pub open spec fn spec_form_extent(form: u8, dt: u16, b: Seq<u8>, i: int) -> Option<int> {
    if form == FORM_NONE {
        Some(0)
    } else if form == FORM_RANGE {
        match spec_values_extent(dt, b, i, 3) {
            None => None,
            Some(u) => Some(u),
        }
    } else if form == FORM_ENUM {
        if i + 2 <= b.len() {
            match spec_values_extent(dt, b, i + 2, le16_at(b, i) as nat) {
                None => None,
                Some(u) => Some(2 + u),
            }
        } else {
            None
        }
    } else {
        None
    }
}

/// Measure the bytes `count` consecutive values of kind `dt` span.
fn skip_values(dt: u16, b: &[u8], i: usize, count: usize) -> (r: Option<usize>)
    requires
        i <= b@.len(),
    ensures
        match r {
            Some(u) => spec_values_extent(dt, b@, i as int, count as nat) == Some(u as int) && i + u
                <= b@.len(),
            None => spec_values_extent(dt, b@, i as int, count as nat) is None,
        },
    decreases count,
{
    let n: usize = b.len();
    if count == 0 {
        Some(0)
    } else {
        match decode_prop_value(dt, b, i) {
            None => None,
            Some((_, used)) => match skip_values(dt, b, i + used, count - 1) {
                None => None,
                Some(rest) => Some(used + rest),
            },
        }
    }
}

/// Measure the bytes the form constraint spans.
fn skip_form(form: u8, dt: u16, b: &[u8], i: usize) -> (r: Option<usize>)
    requires
        i <= b@.len(),
    ensures
        match r {
            Some(u) => spec_form_extent(form, dt, b@, i as int) == Some(u as int) && i + u
                <= b@.len(),
            None => spec_form_extent(form, dt, b@, i as int) is None,
        },
{
    let n: usize = b.len();
    if form == FORM_NONE {
        Some(0)
    } else if form == FORM_RANGE {
        skip_values(dt, b, i, 3)
    } else if form == FORM_ENUM {
        if n - i >= 2 {
            let count: usize = read_le16(b, i) as usize;
            match skip_values(dt, b, i + 2, count) {
                None => None,
                Some(u) => Some(2 + u),
            }
        } else {
            None
        }
    } else {
        None
    }
}

/// Metadata of one property: its code, value kind, access, and its
/// factory-default and current values.
#[derive(Debug, Clone, PartialEq, Eq)]
pub struct PropInfo {
    pub property_code: u16,
    pub data_type: u16,
    pub get_set: u8,
    pub is_enabled: u8,
    pub factory_default: PropValue,
    pub current: PropValue,
}

/// The mathematical form of one property's metadata.
pub struct PropInfoSpec {
    pub property_code: u16,
    pub data_type: u16,
    pub get_set: u8,
    pub is_enabled: u8,
    pub factory_default: PropValueSpec,
    pub current: PropValueSpec,
}

/// The mathematical form a `PropInfo` stands for.
pub open spec fn prop_info_view(p: PropInfo) -> PropInfoSpec {
    PropInfoSpec {
        property_code: p.property_code,
        data_type: p.data_type,
        get_set: p.get_set,
        is_enabled: p.is_enabled,
        factory_default: prop_value_view(p.factory_default),
        current: prop_value_view(p.current),
    }
}

/// One property-info record at offset `i`: code, value kind, access
/// flags, the default and current values, and a skipped form constraint.
pub open spec fn spec_prop_info_at(b: Seq<u8>, i: int) -> Option<(PropInfoSpec, int)> {
    if i + 6 <= b.len() {
        let code = le16_at(b, i);
        let dt = le16_at(b, i + 2);
        match spec_prop_value_at(dt, b, i + 6) {
            None => None,
            Some((dv, u1)) => match spec_prop_value_at(dt, b, i + 6 + u1) {
                None => None,
                Some((cv, u2)) => {
                    let j = i + 6 + u1 + u2;
                    if j + 1 <= b.len() {
                        match spec_form_extent(b[j], dt, b, j + 1) {
                            None => None,
                            Some(fe) => Some(
                                (
                                    PropInfoSpec {
                                        property_code: code,
                                        data_type: dt,
                                        get_set: b[i + 4],
                                        is_enabled: b[i + 5],
                                        factory_default: dv,
                                        current: cv,
                                    },
                                    6 + u1 + u2 + 1 + fe,
                                ),
                            ),
                        }
                    } else {
                        None
                    }
                },
            },
        }
    } else {
        None
    }
}

/// Decode one property-info record at offset `i`.
pub fn decode_prop_info(b: &[u8], i: usize) -> (r: Option<(PropInfo, usize)>)
    requires
        i <= b@.len(),
    ensures
        match r {
            Some(p) => spec_prop_info_at(b@, i as int) == Some((prop_info_view(p.0), p.1 as int))
                && i + p.1 <= b@.len() && 1 <= p.1,
            None => spec_prop_info_at(b@, i as int) is None,
        },
{
    let n: usize = b.len();
    if n - i < 6 {
        return None;
    }
    let code = read_le16(b, i);
    let dt = read_le16(b, i + 2);
    let get_set = b[i + 4];
    let is_enabled = b[i + 5];
    let (factory_default, u1) = match decode_prop_value(dt, b, i + 6) {
        None => {
            return None;
        },
        Some(p) => p,
    };
    let (current, u2) = match decode_prop_value(dt, b, i + 6 + u1) {
        None => {
            return None;
        },
        Some(p) => p,
    };
    let j: usize = i + 6 + u1 + u2;
    if n - j < 1 {
        return None;
    }
    let form = b[j];
    let fe = match skip_form(form, dt, b, j + 1) {
        None => {
            return None;
        },
        Some(u) => u,
    };
    Some(
        (
            PropInfo { property_code: code, data_type: dt, get_set, is_enabled, factory_default, current },
            6 + u1 + u2 + 1 + fe,
        ),
    )
}

/// The recognized entries among `count` consecutive records from offset
/// `i`: each record decodes in turn, and those with unrecognized
/// property codes are dropped, not retained under a placeholder.
pub open spec fn spec_known_entries(b: Seq<u8>, i: int, count: nat) -> Option<
    Seq<(PropertyCode, PropInfoSpec)>,
>
    decreases count,
{
    if count == 0 {
        Some(Seq::empty())
    } else {
        match spec_prop_info_at(b, i) {
            None => None,
            Some((info, used)) => match spec_known_entries(b, i + used, (count - 1) as nat) {
                None => None,
                Some(rest) => match spec_property_code_of_wire(info.property_code) {
                    Some(code) => Some(seq![(code, info)] + rest),
                    None => Some(rest),
                },
            },
        }
    }
}

/// The view of a decoded property table.
pub open spec fn entries_view(entries: Seq<(PropertyCode, PropInfo)>) -> Seq<
    (PropertyCode, PropInfoSpec),
> {
    entries.map_values(|e: (PropertyCode, PropInfo)| (e.0, prop_info_view(e.1)))
}

/// Decode `count` consecutive property-info records from offset `i`,
/// keeping the recognized ones.
fn decode_entries(b: &[u8], i: usize, count: usize) -> (r: Option<Vec<(PropertyCode, PropInfo)>>)
    requires
        i <= b@.len(),
    ensures
        match r {
            Some(entries) => spec_known_entries(b@, i as int, count as nat) == Some(
                entries_view(entries@),
            ),
            None => spec_known_entries(b@, i as int, count as nat) is None,
        },
    decreases count,
{
    let n: usize = b.len();
    if count == 0 {
        let entries: Vec<(PropertyCode, PropInfo)> = Vec::new();
        proof {
            assert(entries_view(entries@) =~= Seq::<(PropertyCode, PropInfoSpec)>::empty());
        }
        Some(entries)
    } else {
        match decode_prop_info(b, i) {
            None => None,
            Some((info, used)) => {
                let code_wire = info.property_code;
                match decode_entries(b, i + used, count - 1) {
                    None => None,
                    Some(mut rest) => {
                        match PropertyCode::from_u16(code_wire) {
                            Some(code) => {
                                rest.insert(0, (code, info));
                                proof {
                                    assert(entries_view(rest@) =~= seq![
                                        (code, prop_info_view(rest@[0].1)),
                                    ] + entries_view(rest@.skip(1)));
                                }
                                Some(rest)
                            },
                            None => Some(rest),
                        }
                    },
                }
            },
        }
    }
}

/// The whole property table: a one-byte record count, then the records,
/// with unrecognized codes dropped.
pub open spec fn spec_prop_table(b: Seq<u8>) -> Option<Seq<(PropertyCode, PropInfoSpec)>> {
    if b.len() < 1 {
        None
    } else {
        spec_known_entries(b, 1, b[0] as nat)
    }
}

/// Decode the count-prefixed table of all property metadata, as the
/// bulk property query returns it.
pub fn decode_all_prop_info(b: &[u8]) -> (r: Result<Vec<(PropertyCode, PropInfo)>, DecodeError>)
    ensures
        match r {
            Ok(entries) => spec_prop_table(b@) == Some(entries_view(entries@)),
            Err(e) => spec_prop_table(b@) is None && e == DecodeError::Truncated,
        },
{
    if b.len() < 1 {
        return Err(DecodeError::Truncated);
    }
    let count: usize = b[0] as usize;
    match decode_entries(b, 1, count) {
        None => Err(DecodeError::Truncated),
        Some(entries) => Ok(entries),
    }
}

/// Where the entry for `code` sits in a decoded table, if anywhere: the
/// first occurrence wins.
pub fn find_property(entries: &Vec<(PropertyCode, PropInfo)>, code: PropertyCode) -> (r: Option<
    usize,
>)
    ensures
        match r {
            Some(idx) => idx < entries@.len() && entries@[idx as int].0 == code && (forall|j: int|
                0 <= j < idx ==> entries@[j].0 != code),
            None => forall|j: int| 0 <= j < entries@.len() ==> entries@[j].0 != code,
        },
{
    let mut idx: usize = 0;
    while idx < entries.len()
        invariant
            idx <= entries@.len(),
            forall|j: int| 0 <= j < idx ==> entries@[j].0 != code,
        decreases entries@.len() - idx,
    {
        if entries[idx].0.to_u16() == code.to_u16() {
            proof {
                crate::opcodes::lemma_property_code_wire_lossless(entries@[idx as int].0);
                crate::opcodes::lemma_property_code_wire_lossless(code);
            }
            return Some(idx);
        }
        idx = idx + 1;
    }
    None
}

/// Whether two typed property values are the same value, as the
/// verify-after-write loop asks of a written value and its read-back.
pub fn prop_values_equal(a: &PropValue, b: &PropValue) -> (r: bool)
    ensures
        r == (prop_value_view(*a) == prop_value_view(*b)),
{
    match (a, b) {
        (PropValue::Int8(x), PropValue::Int8(y)) => *x == *y,
        (PropValue::Uint8(x), PropValue::Uint8(y)) => *x == *y,
        (PropValue::Int16(x), PropValue::Int16(y)) => *x == *y,
        (PropValue::Uint16(x), PropValue::Uint16(y)) => *x == *y,
        (PropValue::Int32(x), PropValue::Int32(y)) => *x == *y,
        (PropValue::Uint32(x), PropValue::Uint32(y)) => *x == *y,
        (PropValue::Int64(x), PropValue::Int64(y)) => *x == *y,
        (PropValue::Uint64(x), PropValue::Uint64(y)) => *x == *y,
        (PropValue::Text(x), PropValue::Text(y)) => units_equal(x, y),
        _ => false,
    }
}

/// Whether two strings hold the same units.
fn units_equal(a: &Vec<u16>, b: &Vec<u16>) -> (r: bool)
    ensures
        r == (a@ == b@),
{
    if a.len() != b.len() {
        proof {
            assert(a@.len() != b@.len());
        }
        return false;
    }
    let mut i: usize = 0;
    while i < a.len()
        invariant
            a@.len() == b@.len(),
            i <= a@.len(),
            forall|j: int| 0 <= j < i ==> a@[j] == b@[j],
        decreases a@.len() - i,
    {
        if a[i] != b[i] {
            proof {
                assert(a@[i as int] != b@[i as int]);
            }
            return false;
        }
        i = i + 1;
    }
    proof {
        assert(a@ =~= b@);
    }
    true
}

/// The typed value a raw number stands for under a property's declared
/// value kind; the string kind cannot be filled from a number.
pub fn prop_value_of_type(data_type: u16, value: u64) -> (r: Option<PropValue>)
    ensures
        data_type == DT_INT8 ==> r == Some(PropValue::Int8((value as u8) as i8)),
        data_type == DT_UINT8 ==> r == Some(PropValue::Uint8(value as u8)),
        data_type == DT_INT16 ==> r == Some(PropValue::Int16((value as u16) as i16)),
        data_type == DT_UINT16 ==> r == Some(PropValue::Uint16(value as u16)),
        data_type == DT_INT32 ==> r == Some(PropValue::Int32((value as u32) as i32)),
        data_type == DT_UINT32 ==> r == Some(PropValue::Uint32(value as u32)),
        data_type == DT_INT64 ==> r == Some(PropValue::Int64(value as i64)),
        data_type == DT_UINT64 ==> r == Some(PropValue::Uint64(value)),
        !(DT_INT8 <= data_type <= DT_UINT64) ==> r is None,
{
    if data_type == DT_INT8 {
        Some(PropValue::Int8((value as u8) as i8))
    } else if data_type == DT_UINT8 {
        Some(PropValue::Uint8(value as u8))
    } else if data_type == DT_INT16 {
        Some(PropValue::Int16((value as u16) as i16))
    } else if data_type == DT_UINT16 {
        Some(PropValue::Uint16(value as u16))
    } else if data_type == DT_INT32 {
        Some(PropValue::Int32((value as u32) as i32))
    } else if data_type == DT_UINT32 {
        Some(PropValue::Uint32(value as u32))
    } else if data_type == DT_INT64 {
        Some(PropValue::Int64(value as i64))
    } else if data_type == DT_UINT64 {
        Some(PropValue::Uint64(value))
    } else {
        None
    }
}

/// Classify a response code.
pub fn classify_response(code: u16) -> (r: ResponseClass)
    ensures
        code == RESPONSE_OK ==> r == ResponseClass::Completed,
        code == RESPONSE_AUTH_FAILED ==> r == ResponseClass::AuthFailed,
        code != RESPONSE_OK && code != RESPONSE_AUTH_FAILED ==> r == ResponseClass::Other,
{
    if code == RESPONSE_OK {
        ResponseClass::Completed
    } else if code == RESPONSE_AUTH_FAILED {
        ResponseClass::AuthFailed
    } else {
        ResponseClass::Other
    }
}

} // verus!
