//! Fixed-size values as they are stored in a record: a flag in one byte and a
//! 64-bit number in eight little-endian bytes.

use vstd::prelude::*;
use vstd::std_specs::convert::FromSpecImpl;

verus! {

/// A flag stored in one byte. Only two bytes stand for a flag: 0 and 1.
#[derive(Clone, Copy, Debug, PartialEq, Eq, Structural)]
pub enum PodBool {
    False,
    True,
}

impl View for PodBool {
    type V = bool;

    open spec fn view(&self) -> bool {
        *self is True
    }
}

impl PodBool {
    /// The byte that stands for a flag.
    pub open spec fn byte_of(flag: bool) -> u8 {
        if flag {
            1u8
        } else {
            0u8
        }
    }

    pub fn from_bool(flag: bool) -> (pod: PodBool)
        ensures
            pod@ == flag,
    {
        if flag {
            PodBool::True
        } else {
            PodBool::False
        }
    }

    pub fn to_bool(self) -> (flag: bool)
        ensures
            flag == self@,
    {
        match self {
            PodBool::True => true,
            PodBool::False => false,
        }
    }

    /// The flag's byte: 1 for true, 0 for false.
    pub fn to_byte(self) -> (byte: u8)
        ensures
            byte == Self::byte_of(self@),
    {
        match self {
            PodBool::True => 1,
            PodBool::False => 0,
        }
    }

    /// Reads a flag from its byte. Any byte other than 0 and 1 is no flag.
    pub fn from_byte(byte: u8) -> (pod: Option<PodBool>)
        ensures
            byte == 0 ==> pod == Some(PodBool::False),
            byte == 1 ==> pod == Some(PodBool::True),
            byte > 1 ==> pod is None,
    {
        if byte == 0 {
            Some(PodBool::False)
        } else if byte == 1 {
            Some(PodBool::True)
        } else {
            None
        }
    }
}

/// The number that eight bytes stand for, the first byte counting least.
pub open spec fn le_value(bytes: Seq<u8>) -> int
    recommends
        bytes.len() == 8,
{
    bytes[0] + 0x100 * (bytes[1] + 0x100 * (bytes[2] + 0x100 * (bytes[3] + 0x100 * (bytes[4] + 0x100
        * (bytes[5] + 0x100 * (bytes[6] + 0x100 * bytes[7]))))))
}

/// Eight bytes stand for a number below 2^64.
pub proof fn lemma_le_value_bounds(bytes: Seq<u8>)
    requires
        bytes.len() == 8,
    ensures
        0 <= le_value(bytes) <= u64::MAX,
{
}

/// Different bytes stand for different numbers.
pub proof fn lemma_le_value_injective(a: Seq<u8>, b: Seq<u8>)
    requires
        a.len() == 8,
        b.len() == 8,
        le_value(a) == le_value(b),
    ensures
        a == b,
{
    let a7 = a[7] as int;
    let b7 = b[7] as int;
    let a6 = a[6] + 0x100 * a7;
    let b6 = b[6] + 0x100 * b7;
    let a5 = a[5] + 0x100 * a6;
    let b5 = b[5] + 0x100 * b6;
    let a4 = a[4] + 0x100 * a5;
    let b4 = b[4] + 0x100 * b5;
    let a3 = a[3] + 0x100 * a4;
    let b3 = b[3] + 0x100 * b4;
    let a2 = a[2] + 0x100 * a3;
    let b2 = b[2] + 0x100 * b3;
    let a1 = a[1] + 0x100 * a2;
    let b1 = b[1] + 0x100 * b2;
    assert(a[0] + 0x100 * a1 == b[0] + 0x100 * b1);
    assert(a1 == b1 && a[0] == b[0]);
    assert(a2 == b2 && a[1] == b[1]);
    assert(a3 == b3 && a[2] == b[2]);
    assert(a4 == b4 && a[3] == b[3]);
    assert(a5 == b5 && a[4] == b[4]);
    assert(a6 == b6 && a[5] == b[5]);
    assert(a7 == b7 && a[6] == b[6]);
    assert(a =~= b);
}

/// A 64-bit number stored in eight bytes, the least byte first, so that it
/// can stand at any offset of a record.
#[derive(Clone, Copy, Debug, PartialEq, Eq)]
pub struct PodU64(pub [u8; 8]);

impl View for PodU64 {
    type V = u64;

    open spec fn view(&self) -> u64 {
        le_value(self.0@) as u64
    }
}

/// A stored number is the number it stands for: two stored numbers with one
/// value hold the same bytes.
pub proof fn lemma_pod_u64_view_injective(a: PodU64, b: PodU64)
    requires
        a@ == b@,
    ensures
        a == b,
{
    lemma_le_value_bounds(a.0@);
    lemma_le_value_bounds(b.0@);
    lemma_le_value_injective(a.0@, b.0@);
    assert(a.0 =~= b.0);
}

/// The stored number whose value is `value`.
pub open spec fn stored(value: u64) -> PodU64 {
    choose|pod: PodU64| pod@ == value
}

impl From<u64> for PodU64 {
    fn from(value: u64) -> (pod: PodU64) {
        let pod = PodU64::from_u64(value);
        proof {
            lemma_pod_u64_view_injective(pod, stored(value));
        }
        pod
    }
}

impl FromSpecImpl<u64> for PodU64 {
    open spec fn obeys_from_spec() -> bool {
        true
    }

    open spec fn from_spec(value: u64) -> PodU64 {
        stored(value)
    }
}

impl From<PodU64> for u64 {
    fn from(pod: PodU64) -> (value: u64) {
        pod.to_u64()
    }
}

impl FromSpecImpl<PodU64> for u64 {
    open spec fn obeys_from_spec() -> bool {
        true
    }

    open spec fn from_spec(pod: PodU64) -> u64 {
        pod@
    }
}

impl From<bool> for PodBool {
    fn from(flag: bool) -> (pod: PodBool) {
        PodBool::from_bool(flag)
    }
}

impl FromSpecImpl<bool> for PodBool {
    open spec fn obeys_from_spec() -> bool {
        true
    }

    open spec fn from_spec(flag: bool) -> PodBool {
        if flag {
            PodBool::True
        } else {
            PodBool::False
        }
    }
}

impl From<PodBool> for bool {
    fn from(pod: PodBool) -> (flag: bool) {
        pod.to_bool()
    }
}

impl FromSpecImpl<PodBool> for bool {
    open spec fn obeys_from_spec() -> bool {
        true
    }

    open spec fn from_spec(pod: PodBool) -> bool {
        pod@
    }
}

impl PodU64 {
    pub fn from_u64(value: u64) -> (pod: PodU64)
        ensures
            pod@ == value,
    {
        let q1: u64 = value / 0x100;
        let q2: u64 = q1 / 0x100;
        let q3: u64 = q2 / 0x100;
        let q4: u64 = q3 / 0x100;
        let q5: u64 = q4 / 0x100;
        let q6: u64 = q5 / 0x100;
        let q7: u64 = q6 / 0x100;
        let bytes: [u8; 8] = [
            (value % 0x100) as u8,
            (q1 % 0x100) as u8,
            (q2 % 0x100) as u8,
            (q3 % 0x100) as u8,
            (q4 % 0x100) as u8,
            (q5 % 0x100) as u8,
            (q6 % 0x100) as u8,
            (q7 % 0x100) as u8,
        ];
        assert(q7 < 0x100);
        assert(q6 == bytes[6] + 0x100 * bytes[7]);
        assert(q5 == bytes[5] + 0x100 * q6);
        assert(q4 == bytes[4] + 0x100 * q5);
        assert(q3 == bytes[3] + 0x100 * q4);
        assert(q2 == bytes[2] + 0x100 * q3);
        assert(q1 == bytes[1] + 0x100 * q2);
        assert(value == bytes[0] + 0x100 * q1);
        PodU64(bytes)
    }

    pub fn to_u64(self) -> (value: u64)
        ensures
            value == self@,
    {
        let b = &self.0;
        let v6: u64 = b[6] as u64 + 0x100 * (b[7] as u64);
        let v5: u64 = b[5] as u64 + 0x100 * v6;
        let v4: u64 = b[4] as u64 + 0x100 * v5;
        let v3: u64 = b[3] as u64 + 0x100 * v4;
        let v2: u64 = b[2] as u64 + 0x100 * v3;
        let v1: u64 = b[1] as u64 + 0x100 * v2;
        b[0] as u64 + 0x100 * v1
    }
}

} // verus!
