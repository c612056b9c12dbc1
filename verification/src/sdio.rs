//! Byte-level decoding of the camera vendor extension's payloads.
//!
//! The extension carries little-endian scalars and count-prefixed lists.
//! The extended-device-info payload decoded here holds the protocol
//! version and the lists of supported property and control opcodes;
//! opcodes this driver does not recognize are dropped during decode, not
//! retained under a placeholder.

use vstd::prelude::*;
use crate::opcodes::ControlCode;
use crate::opcodes::PropertyCode;
use crate::opcodes::spec_control_code_of_wire;
use crate::opcodes::spec_property_code_of_wire;

verus! {

/// A payload that could not be decoded.
#[derive(Debug, Clone, Copy, PartialEq, Eq, Structural)]
pub enum DecodeError {
    Truncated,
}

/// The little-endian 16-bit value at byte offset `i`.
pub open spec fn le16_at(b: Seq<u8>, i: int) -> u16 {
    (b[i] as u16) | ((b[i + 1] as u16) << 8)
}

/// The little-endian 32-bit value at byte offset `i`.
pub open spec fn le32_at(b: Seq<u8>, i: int) -> u32 {
    (b[i] as u32) | ((b[i + 1] as u32) << 8) | ((b[i + 2] as u32) << 16) | ((b[i + 3] as u32) << 24)
}

/// The list of `count` little-endian 16-bit values starting at offset `i`.
pub open spec fn le16_list_at(b: Seq<u8>, i: int, count: nat) -> Seq<u16> {
    Seq::new(count, |k: int| le16_at(b, i + 2 * k))
}

/// Read the little-endian 16-bit value at offset `i`.
pub fn read_le16(b: &[u8], i: usize) -> (r: u16)
    requires
        i + 2 <= b@.len(),
    ensures
        r == le16_at(b@, i as int),
{
    (b[i] as u16) | ((b[i + 1] as u16) << 8)
}

/// The little-endian 64-bit value at byte offset `i`.
pub open spec fn le64_at(b: Seq<u8>, i: int) -> u64 {
    (b[i] as u64) | ((b[i + 1] as u64) << 8) | ((b[i + 2] as u64) << 16) | ((b[i + 3] as u64) << 24)
        | ((b[i + 4] as u64) << 32) | ((b[i + 5] as u64) << 40) | ((b[i + 6] as u64) << 48) | ((b[i
        + 7] as u64) << 56)
}

/// Read the little-endian 64-bit value at offset `i`.
pub fn read_le64(b: &[u8], i: usize) -> (r: u64)
    requires
        i + 8 <= b@.len(),
    ensures
        r == le64_at(b@, i as int),
{
    (b[i] as u64) | ((b[i + 1] as u64) << 8) | ((b[i + 2] as u64) << 16) | ((b[i + 3] as u64) << 24)
        | ((b[i + 4] as u64) << 32) | ((b[i + 5] as u64) << 40) | ((b[i + 6] as u64) << 48) | ((b[i
        + 7] as u64) << 56)
}

/// Read the little-endian 32-bit value at offset `i`.
pub fn read_le32(b: &[u8], i: usize) -> (r: u32)
    requires
        i + 4 <= b@.len(),
    ensures
        r == le32_at(b@, i as int),
{
    (b[i] as u32) | ((b[i + 1] as u32) << 8) | ((b[i + 2] as u32) << 16) | ((b[i + 3] as u32) << 24)
}

/// Read `count` little-endian 16-bit values starting at offset `i`.
pub fn read_le16_list(b: &[u8], i: usize, count: usize) -> (r: Vec<u16>)
    requires
        i + 2 * count <= b@.len(),
    ensures
        r@ == le16_list_at(b@, i as int, count as nat),
{
    let n: usize = b.len();
    let mut out: Vec<u16> = Vec::new();
    let mut k: usize = 0;
    while k < count
        invariant
            k <= count,
            n == b@.len(),
            i + 2 * count <= n,
            out@ == le16_list_at(b@, i as int, k as nat),
        decreases count - k,
    {
        let w: u16 = read_le16(b, i + 2 * k);
        out.push(w);
        k = k + 1;
        proof {
            assert(out@ =~= le16_list_at(b@, i as int, k as nat));
        }
    }
    out
}

/// The property opcodes this driver recognizes among the raw identifiers
/// from position `i` on, in order, unknown identifiers dropped.
pub open spec fn known_properties_from(raw: Seq<u16>, i: int) -> Seq<PropertyCode>
    decreases raw.len() - i when 0 <= i <= raw.len()
{
    if i >= raw.len() {
        Seq::empty()
    } else {
        match spec_property_code_of_wire(raw[i]) {
            Some(c) => seq![c] + known_properties_from(raw, i + 1),
            None => known_properties_from(raw, i + 1),
        }
    }
}

/// The control opcodes this driver recognizes among the raw identifiers
/// from position `i` on, in order, unknown identifiers dropped.
pub open spec fn known_controls_from(raw: Seq<u16>, i: int) -> Seq<ControlCode>
    decreases raw.len() - i when 0 <= i <= raw.len()
{
    if i >= raw.len() {
        Seq::empty()
    } else {
        match spec_control_code_of_wire(raw[i]) {
            Some(c) => seq![c] + known_controls_from(raw, i + 1),
            None => known_controls_from(raw, i + 1),
        }
    }
}

/// Keep the recognized property opcodes, dropping unknown identifiers.
pub fn filter_known_properties(raw: &Vec<u16>) -> (r: Vec<PropertyCode>)
    ensures
        r@ == known_properties_from(raw@, 0),
{
    let mut out: Vec<PropertyCode> = Vec::new();
    let mut i: usize = 0;
    while i < raw.len()
        invariant
            i <= raw@.len(),
            known_properties_from(raw@, 0) == out@ + known_properties_from(raw@, i as int),
        decreases raw@.len() - i,
    {
        match PropertyCode::from_u16(raw[i]) {
            Some(c) => {
                out.push(c);
            },
            None => {
            },
        }
        i = i + 1;
    }
    proof {
        assert(known_properties_from(raw@, 0) =~= out@);
    }
    out
}

/// Keep the recognized control opcodes, dropping unknown identifiers.
pub fn filter_known_controls(raw: &Vec<u16>) -> (r: Vec<ControlCode>)
    ensures
        r@ == known_controls_from(raw@, 0),
{
    let mut out: Vec<ControlCode> = Vec::new();
    let mut i: usize = 0;
    while i < raw.len()
        invariant
            i <= raw@.len(),
            known_controls_from(raw@, 0) == out@ + known_controls_from(raw@, i as int),
        decreases raw@.len() - i,
    {
        match ControlCode::from_u16(raw[i]) {
            Some(c) => {
                out.push(c);
            },
            None => {
            },
        }
        i = i + 1;
    }
    proof {
        assert(known_controls_from(raw@, 0) =~= out@);
    }
    out
}

/// The shape of a well-formed extended-device-info payload: a 16-bit
/// version, then a 32-bit-count-prefixed list of property identifiers,
/// then a 32-bit-count-prefixed list of control identifiers.
pub open spec fn spec_ext_device_info(b: Seq<u8>) -> Option<(u16, Seq<u16>, Seq<u16>)> {
    if b.len() < 6 {
        None
    } else {
        let ver = le16_at(b, 0);
        let np = le32_at(b, 2) as int;
        if b.len() < 6 + 2 * np + 4 {
            None
        } else {
            let props = le16_list_at(b, 6, np as nat);
            let nc = le32_at(b, 6 + 2 * np) as int;
            if b.len() < 6 + 2 * np + 4 + 2 * nc {
                None
            } else {
                Some((ver, props, le16_list_at(b, 6 + 2 * np + 4, nc as nat)))
            }
        }
    }
}

/// What a successful handshake established: the device's protocol version
/// and the supported opcodes this driver recognizes.
#[derive(Debug, Clone, PartialEq, Eq)]
pub struct ExtDeviceInfo {
    pub version: u16,
    pub properties: Vec<PropertyCode>,
    pub controls: Vec<ControlCode>,
}

impl ExtDeviceInfo {
    /// Whether the device supports the continuous-capture interval
    /// property; a device without it likely runs old firmware, which is a
    /// compatibility warning, not an error.
    pub fn supports_continuous_capture(&self) -> (r: bool)
        ensures
            r == self.properties@.contains(PropertyCode::IntervalTime),
    {
        let mut i: usize = 0;
        while i < self.properties.len()
            invariant
                i <= self.properties@.len(),
                forall|j: int| 0 <= j < i ==> self.properties@[j] != PropertyCode::IntervalTime,
            decreases self.properties@.len() - i,
        {
            if self.properties[i].to_u16() == PropertyCode::IntervalTime.to_u16() {
                proof {
                    crate::opcodes::lemma_property_code_wire_lossless(self.properties@[i as int]);
                    crate::opcodes::lemma_property_code_wire_lossless(PropertyCode::IntervalTime);
                }
                return true;
            }
            i = i + 1;
        }
        false
    }
}

/// Decode an extended-device-info payload, dropping unrecognized opcodes.
pub fn decode_ext_device_info(b: &[u8]) -> (r: Result<ExtDeviceInfo, DecodeError>)
    ensures
        match r {
            Ok(info) => spec_ext_device_info(b@) matches Some((ver, props, controls))
                && info.version == ver && info.properties@ == known_properties_from(props, 0)
                && info.controls@ == known_controls_from(controls, 0),
            Err(e) => spec_ext_device_info(b@) is None && e == DecodeError::Truncated,
        },
{
    let n: usize = b.len();
    if n < 6 {
        return Err(DecodeError::Truncated);
    }
    let version = read_le16(b, 0);
    let np32 = read_le32(b, 2);
    if (np32 as u64) * 2 + 10 > (n as u64) {
        return Err(DecodeError::Truncated);
    }
    let np: usize = np32 as usize;
    let raw_props = read_le16_list(b, 6, np);
    let nc32 = read_le32(b, 6 + 2 * np);
    if (nc32 as u64) * 2 + 10 + (np as u64) * 2 > (n as u64) {
        return Err(DecodeError::Truncated);
    }
    let nc: usize = nc32 as usize;
    let raw_controls = read_le16_list(b, 6 + 2 * np + 4, nc);
    let properties = filter_known_properties(&raw_props);
    let controls = filter_known_controls(&raw_controls);
    Ok(ExtDeviceInfo { version, properties, controls })
}

} // verus!
