//! Typed, read-only views of the card registers that arrive in responses.

use vstd::prelude::*;
use vstd::std_specs::convert::FromSpecImpl;
use vstd::string::StringSliceAdditionalSpecFns;
use super::reg::any_set;

verus! {

/// The 128-bit value of a long response, whose words arrive least
/// significant first.
pub open spec fn compose(words: (u32, u32, u32, u32)) -> u128 {
    ((words.3 as u128) << 96) | ((words.2 as u128) << 64) | ((words.1 as u128) << 32) | (
    words.0 as u128)
}

/// Puts the four words of a long response together.
pub fn compose_words(words: (u32, u32, u32, u32)) -> (inner: u128)
    ensures
        inner == compose(words),
{
    ((words.3 as u128) << 96) | ((words.2 as u128) << 64) | ((words.1 as u128) << 32) | (
    words.0 as u128)
}

/// The words of a long response do not overlap in its value: the value is
/// their sum, each word weighted by its place, and each word can be read
/// back from its place.
pub proof fn lemma_compose_value(w0: u32, w1: u32, w2: u32, w3: u32)
    by (bit_vector)
    ensures
        compose((w0, w1, w2, w3)) == w0 + w1 * 0x1_0000_0000u128 + w2
            * 0x1_0000_0000_0000_0000u128 + w3 * 0x1_0000_0000_0000_0000_0000_0000u128,
        (compose((w0, w1, w2, w3)) >> 0) & 0xFFFF_FFFF == w0,
        (compose((w0, w1, w2, w3)) >> 32) & 0xFFFF_FFFF == w1,
        (compose((w0, w1, w2, w3)) >> 64) & 0xFFFF_FFFF == w2,
        (compose((w0, w1, w2, w3)) >> 96) & 0xFFFF_FFFF == w3,
{
}

/// The field of a 128-bit register that starts at bit `low` and is as wide
/// as `mask`, which is a run of ones from bit 0.
pub open spec fn field(raw: u128, low: u128, mask: u128) -> u128 {
    (raw >> low) & mask
}

/// The field of a 32-bit register that starts at bit `low` and is as wide as
/// `mask`.
pub open spec fn field32(raw: u32, low: u32, mask: u32) -> u32 {
    (raw >> low) & mask
}

/// The field of a 64-bit register that starts at bit `low` and is as wide as
/// `mask`.
pub open spec fn field64(raw: u64, low: u64, mask: u64) -> u64 {
    (raw >> low) & mask
}

/// Number of zero bits below the lowest one bit; zero for zero.
pub open spec fn trailing_zeros(w: u32) -> nat
    decreases w,
{
    if w == 0 || w % 2 == 1 {
        0
    } else {
        1 + trailing_zeros(w / 2)
    }
}

/// Number of bits up to and including the highest one bit; zero for zero.
pub open spec fn bit_length(w: u32) -> nat
    decreases w,
{
    if w == 0 {
        0
    } else {
        1 + bit_length(w / 2)
    }
}

/// A nonzero word has its lowest one bit below its bit length, and a word
/// below 2^9 is at most nine bits long.
pub proof fn lemma_bit_length(w: u32)
    ensures
        w != 0 ==> trailing_zeros(w) < bit_length(w),
        w <= 0x1FF ==> bit_length(w) <= 9,
    decreases w,
{
    if w != 0 {
        lemma_bit_length(w / 2);
        if w <= 0x1FF {
            reveal_with_fuel(bit_length, 10);
        }
    }
}

/// Operation conditions register.
#[derive(Copy, Clone, Debug)]
pub struct Ocr(pub u32);

impl View for Ocr {
    type V = u32;

    open spec fn view(&self) -> u32 {
        self.0
    }
}

impl Default for Ocr {
    fn default() -> (r: Ocr)
        ensures
            r@ == 0,
    {
        Ocr(0)
    }
}

impl From<u32> for Ocr {
    fn from(value: u32) -> (r: Ocr) {
        Ocr(value)
    }
}

impl FromSpecImpl<u32> for Ocr {
    open spec fn obeys_from_spec() -> bool {
        true
    }

    open spec fn from_spec(value: u32) -> Ocr {
        Ocr(value)
    }
}

impl Ocr {
    /// The voltage window field: bit i stands for the 100 mV step that
    /// starts at 2700 + 100 i mV.
    pub open spec fn window(self) -> u32 {
        field32(self@, 15, 0x1FF)
    }

    /// The supply range that the window field announces, in millivolts:
    /// from the step of its lowest one bit to the end of the step of its
    /// highest one bit; nothing for an empty window.
    pub open spec fn window_mv(self) -> Option<(nat, nat)> {
        if self.window() == 0 {
            None
        } else {
            Some(
                (
                    2700 + 100 * trailing_zeros(self.window()),
                    2700 + 100 * bit_length(self.window()),
                ),
            )
        }
    }

    /// Whether the card is still powering up: bit 31 is clear.
    pub fn is_busy(&self) -> (b: bool)
        ensures
            b == !any_set(self@, 0x8000_0000),
    {
        self.0 & 0x8000_0000 == 0
    }

    /// The supply range that the card accepts, in millivolts.
    pub fn voltage_window_mv(&self) -> (r: Option<(u16, u16)>)
        ensures
            r is Some == self.window_mv() is Some,
            r matches Some((min, max)) ==> self.window_mv() == Some((min as nat, max as nat)),
    {
        let start: u32 = (self.0 >> 15) & 0x1FF;
        let mut window: u32 = start;
        let mut min: u16 = 2_700;
        proof {
            lemma_window_bits(self.0);
            lemma_bit_length(start);
        }
        while window & 1 == 0 && window != 0
            invariant
                window <= 0x1FF,
                start <= 0x1FF,
                bit_length(start) <= 9,
                (window == 0) == (start == 0),
                trailing_zeros(start) == (min - 2700) / 100 + trailing_zeros(window),
                bit_length(start) == (min - 2700) / 100 + bit_length(window),
                2700 <= min,
                (min - 2700) % 100 == 0,
            decreases window,
        {
            proof {
                lemma_halving(window);
            }
            min += 100;
            window >>= 1;
        }
        let mut max: u16 = min;
        proof {
            lemma_halving(window);
        }
        let ghost low: u32 = window;
        while window != 0
            invariant
                window <= 0x1FF,
                bit_length(start) <= 9,
                min <= max,
                2700 <= min,
                (max - 2700) % 100 == 0,
                (min - 2700) % 100 == 0,
                bit_length(start) == (max - 2700) / 100 + bit_length(window),
                start != 0 ==> trailing_zeros(start) == (min - 2700) / 100,
                (low == 0) == (start == 0),
                max == min ==> window == low,
                max != min ==> low != 0,
            decreases window,
        {
            proof {
                lemma_halving(window);
            }
            max += 100;
            window >>= 1;
        }
        proof {
            lemma_bit_length(start);
        }
        if max == min {
            None
        } else {
            Some((min, max))
        }
    }

    /// Whether the card accepts the switch to 1.8 V signalling (S18A).
    pub fn v18_allowed(&self) -> (b: bool)
        ensures
            b == any_set(self@, 0x0100_0000),
    {
        self.0 & 0x0100_0000 != 0
    }

    /// Whether the card holds more than 2 TB.
    pub fn over_2tb(&self) -> (b: bool)
        ensures
            b == any_set(self@, 0x0800_0000),
    {
        self.0 & 0x0800_0000 != 0
    }

    /// Whether the card is a UHS-II card.
    pub fn uhs2_card_status(&self) -> (b: bool)
        ensures
            b == any_set(self@, 0x2000_0000),
    {
        self.0 & 0x2000_0000 != 0
    }

    /// Card capacity status: whether the card is addressed by block.
    pub fn high_capacity(&self) -> (b: bool)
        ensures
            b == any_set(self@, 0x4000_0000),
    {
        self.0 & 0x4000_0000 != 0
    }
}

/// The window field fits nine bits.
pub proof fn lemma_window_bits(raw: u32)
    by (bit_vector)
    ensures
        (raw >> 15) & 0x1FF <= 0x1FF,
{
}

/// Shifting right by one halves, and the lowest bit is the remainder.
pub proof fn lemma_halving(w: u32)
    by (bit_vector)
    ensures
        w >> 1 == w / 2,
        w & 1 == w % 2,
{
}


/// A field is never larger than its mask.
pub proof fn lemma_field_bound(raw: u128, low: u128, mask: u128)
    by (bit_vector)
    ensures
        (raw >> low) & mask <= mask,
{
}

/// Takes a field out of a 128-bit register.
pub fn take(raw: u128, low: u128, mask: u128) -> (f: u128)
    requires
        low < 128,
    ensures
        f == field(raw, low, mask),
        f <= mask,
{
    proof {
        lemma_field_bound(raw, low, mask);
    }
    (raw >> low) & mask
}

/// Byte `i` of the big-endian serialization of a 128-bit value: byte 0 holds
/// the highest eight bits.
pub open spec fn be_byte(value: u128, i: int) -> u8 {
    field(value, ((15 - i) * 8) as u128, 0xFF) as u8
}

/// The big-endian serialization of a 128-bit value.
pub open spec fn be_bytes(value: u128) -> Seq<u8> {
    Seq::new(16, |i: int| be_byte(value, i))
}

/// The value that sixteen bytes spell when the first is the highest.
pub open spec fn be_value(bytes: Seq<u8>) -> u128 {
    ((bytes[0] as u128) << 120)
        | ((bytes[1] as u128) << 112)
        | ((bytes[2] as u128) << 104)
        | ((bytes[3] as u128) << 96)
        | ((bytes[4] as u128) << 88)
        | ((bytes[5] as u128) << 80)
        | ((bytes[6] as u128) << 72)
        | ((bytes[7] as u128) << 64)
        | ((bytes[8] as u128) << 56)
        | ((bytes[9] as u128) << 48)
        | ((bytes[10] as u128) << 40)
        | ((bytes[11] as u128) << 32)
        | ((bytes[12] as u128) << 24)
        | ((bytes[13] as u128) << 16)
        | ((bytes[14] as u128) << 8)
        | (bytes[15] as u128)
}

/// The serialization loses nothing: the sixteen bytes of a value, read
/// with the first as the highest, spell the value.
pub proof fn lemma_be_bytes_spell_the_value(value: u128)
    ensures
        be_bytes(value).len() == 16,
        be_value(be_bytes(value)) == value,
{
    let b0: u8 = be_byte(value, 0);
    let b1: u8 = be_byte(value, 1);
    let b2: u8 = be_byte(value, 2);
    let b3: u8 = be_byte(value, 3);
    let b4: u8 = be_byte(value, 4);
    let b5: u8 = be_byte(value, 5);
    let b6: u8 = be_byte(value, 6);
    let b7: u8 = be_byte(value, 7);
    let b8: u8 = be_byte(value, 8);
    let b9: u8 = be_byte(value, 9);
    let b10: u8 = be_byte(value, 10);
    let b11: u8 = be_byte(value, 11);
    let b12: u8 = be_byte(value, 12);
    let b13: u8 = be_byte(value, 13);
    let b14: u8 = be_byte(value, 14);
    let b15: u8 = be_byte(value, 15);
    assert(value == ((b0 as u128) << 120)
            | ((b1 as u128) << 112)
            | ((b2 as u128) << 104)
            | ((b3 as u128) << 96)
            | ((b4 as u128) << 88)
            | ((b5 as u128) << 80)
            | ((b6 as u128) << 72)
            | ((b7 as u128) << 64)
            | ((b8 as u128) << 56)
            | ((b9 as u128) << 48)
            | ((b10 as u128) << 40)
            | ((b11 as u128) << 32)
            | ((b12 as u128) << 24)
            | ((b13 as u128) << 16)
            | ((b14 as u128) << 8)
            | (b15 as u128)) by (bit_vector)
        requires
            b0 == ((value >> 120) & 0xFF) as u8,
            b1 == ((value >> 112) & 0xFF) as u8,
            b2 == ((value >> 104) & 0xFF) as u8,
            b3 == ((value >> 96) & 0xFF) as u8,
            b4 == ((value >> 88) & 0xFF) as u8,
            b5 == ((value >> 80) & 0xFF) as u8,
            b6 == ((value >> 72) & 0xFF) as u8,
            b7 == ((value >> 64) & 0xFF) as u8,
            b8 == ((value >> 56) & 0xFF) as u8,
            b9 == ((value >> 48) & 0xFF) as u8,
            b10 == ((value >> 40) & 0xFF) as u8,
            b11 == ((value >> 32) & 0xFF) as u8,
            b12 == ((value >> 24) & 0xFF) as u8,
            b13 == ((value >> 16) & 0xFF) as u8,
            b14 == ((value >> 8) & 0xFF) as u8,
            b15 == ((value >> 0) & 0xFF) as u8,
    ;
}

/// Serializes a 128-bit value, highest byte first.
pub fn to_be_bytes(value: u128) -> (bytes: [u8; 16])
    ensures
        bytes@ == be_bytes(value),
{
    let mut bytes: [u8; 16] = [0u8;16];
    let mut i: usize = 0;
    while i < 16
        invariant
            i <= 16,
            forall|k: int| 0 <= k < i ==> bytes@[k] == be_byte(value, k),
        decreases 16 - i,
    {
        let low: u128 = ((15 - i) * 8) as u128;
        bytes[i] = take(value, low, 0xFF) as u8;
        i += 1;
    }
    assert(bytes@ =~= be_bytes(value));
    bytes
}

/// `core::str::from_utf8`: the bytes as text where they are valid UTF-8,
/// and then the text is made of exactly these bytes; nothing where they are
/// not.
#[verifier::external_body]
fn utf8(bytes: &[u8]) -> (r: Option<&str>)
    ensures
        r is Some == vstd::utf8::valid_utf8(bytes@),
        r matches Some(text) ==> text.spec_bytes() == bytes@,
{
    match core::str::from_utf8(bytes) {
        Ok(text) => Some(text),
        Err(_) => None,
    }
}

/// Card identification register.
#[derive(Copy, Clone, Debug)]
pub struct Cid {
    inner: u128,
    bytes: [u8; 16],
}

impl View for Cid {
    type V = u128;

    closed spec fn view(&self) -> u128 {
        self.inner
    }
}

impl Default for Cid {
    fn default() -> (r: Cid)
        ensures
            r@ == 0,
    {
        Cid::build(0)
    }
}

impl From<(u32, u32, u32, u32)> for Cid {
    fn from(value: (u32, u32, u32, u32)) -> (r: Cid)
        ensures
            r@ == compose(value),
    {
        Cid::build(compose_words(value))
    }
}

impl FromSpecImpl<(u32, u32, u32, u32)> for Cid {
    open spec fn obeys_from_spec() -> bool {
        true
    }

    closed spec fn from_spec(value: (u32, u32, u32, u32)) -> Cid {
        Cid::of(compose(value))
    }
}

impl From<u128> for Cid {
    fn from(value: u128) -> (r: Cid)
        ensures
            r@ == value,
    {
        Cid::build(value)
    }
}

impl FromSpecImpl<u128> for Cid {
    open spec fn obeys_from_spec() -> bool {
        true
    }

    closed spec fn from_spec(value: u128) -> Cid {
        Cid::of(value)
    }
}

impl Cid {
    #[verifier::type_invariant]
    spec fn serialized(self) -> bool {
        self.bytes@ == be_bytes(self.inner)
    }

    /// The register with this value.
    pub closed spec fn of(value: u128) -> Cid {
        Cid { inner: value, bytes: choose|bytes: [u8; 16]| bytes@ == be_bytes(value) }
    }

    /// Builds the register with this value.
    fn build(value: u128) -> (r: Cid)
        ensures
            r == Cid::of(value),
            r@ == value,
    {
        let bytes = to_be_bytes(value);
        let ghost chosen = choose|bytes: [u8; 16]| bytes@ == be_bytes(value);
        assert(bytes =~= chosen);
        Cid { inner: value, bytes }
    }

    /// The text that a run of bytes of the register spells: the bytes
    /// themselves where they are valid UTF-8, the marker `<ERR>` where not.
    pub open spec fn text_of(bytes: Seq<u8>, text: &str) -> bool {
        if vstd::utf8::valid_utf8(bytes) {
            text.spec_bytes() == bytes
        } else {
            text == "<ERR>"
        }
    }

    /// The sixteen bytes of the register, highest first.
    pub fn bytes(&self) -> (b: [u8; 16])
        ensures
            b@ == be_bytes(self@),
    {
        proof {
            use_type_invariant(self);
        }
        self.bytes
    }

    /// Manufacturer ID: the highest byte.
    pub fn manufacturer_id(&self) -> (id: u8)
        ensures
            id == be_byte(self@, 0),
    {
        proof {
            use_type_invariant(self);
        }
        self.bytes[0]
    }

    /// The checksum: the seven bits above the lowest.
    pub fn crc7(&self) -> (crc: u8)
        ensures
            crc == (be_byte(self@, 15) >> 1) & 0x7F,
    {
        proof {
            use_type_invariant(self);
        }
        (self.bytes[15] >> 1) & 0x7F
    }

    /// OEM/application ID: bytes 1 and 2, as text.
    pub fn oem_id(&self) -> (text: &str)
        ensures
            Cid::text_of(be_bytes(self@).subrange(1, 3), text),
    {
        proof {
            use_type_invariant(self);
        }
        match utf8(vstd::slice::slice_subrange(self.bytes.as_slice(), 1, 3)) {
            Some(text) => text,
            None => "<ERR>",
        }
    }

    /// Product name: bytes 3 to 7, as text.
    pub fn product_name(&self) -> (text: &str)
        ensures
            Cid::text_of(be_bytes(self@).subrange(3, 8), text),
    {
        proof {
            use_type_invariant(self);
        }
        match utf8(vstd::slice::slice_subrange(self.bytes.as_slice(), 3, 8)) {
            Some(text) => text,
            None => "<ERR>",
        }
    }

    /// Product revision: byte 8.
    pub fn product_revision(&self) -> (rev: u8)
        ensures
            rev == be_byte(self@, 8),
    {
        proof {
            use_type_invariant(self);
        }
        self.bytes[8]
    }

    /// Serial number: the 32 bits from bit 24.
    pub fn serial(&self) -> (n: u32)
        ensures
            n == field(self@, 24, 0xFFFF_FFFF),
    {
        take(self.inner, 24, 0xFFFF_FFFF) as u32
    }

    /// Manufacturing date: the month, the four bits from bit 8, and the
    /// year, 2000 plus the eight bits from bit 12.
    pub fn manufacturing_date(&self) -> (date: (u8, u16))
        ensures
            date.0 == field(self@, 8, 0xF),
            date.1 == field(self@, 12, 0xFF) + 2000,
    {
        (take(self.inner, 8, 0xF) as u8, take(self.inner, 12, 0xFF) as u16 + 2000)
    }
}


/// Version of the SD physical layer specification that a card follows.
#[non_exhaustive]
#[derive(Debug, Copy, Clone, Eq, PartialEq, Structural)]
pub enum SDSpecVersion {
    V1_0,
    V1_10,
    V2,
    V3,
    V4,
    V5,
    V6,
    V7,
    Unknown,
}

/// Width of the data bus.
#[derive(Copy, Clone, Debug, Eq, PartialEq, Structural)]
pub enum BusWidth {
    Unknown,
    One,
    Four,
    Eight,
}

/// Length of a data block, as the CSD encodes it.
#[derive(Debug, Copy, Clone, Eq, PartialEq, Structural)]
pub enum BlockSize {
    B1,
    B2,
    B4,
    B8,
    B16,
    B32,
    B64,
    B128,
    B256,
    B512,
    B1024,
    B2048,
    B4096,
    B8192,
    B16kB,
    Unknown,
}

impl BlockSize {
    /// The code of the block length: the base-two logarithm of the length
    /// in bytes, and 15 for `Unknown`.
    pub open spec fn code(self) -> nat {
        match self {
            BlockSize::B1 => 0,
            BlockSize::B2 => 1,
            BlockSize::B4 => 2,
            BlockSize::B8 => 3,
            BlockSize::B16 => 4,
            BlockSize::B32 => 5,
            BlockSize::B64 => 6,
            BlockSize::B128 => 7,
            BlockSize::B256 => 8,
            BlockSize::B512 => 9,
            BlockSize::B1024 => 10,
            BlockSize::B2048 => 11,
            BlockSize::B4096 => 12,
            BlockSize::B8192 => 13,
            BlockSize::B16kB => 14,
            BlockSize::Unknown => 15,
        }
    }

    /// The block length that a four-bit code stands for.
    pub open spec fn of_code(code: u128) -> BlockSize {
        if code == 0 {
            BlockSize::B1
        } else if code == 1 {
            BlockSize::B2
        } else if code == 2 {
            BlockSize::B4
        } else if code == 3 {
            BlockSize::B8
        } else if code == 4 {
            BlockSize::B16
        } else if code == 5 {
            BlockSize::B32
        } else if code == 6 {
            BlockSize::B64
        } else if code == 7 {
            BlockSize::B128
        } else if code == 8 {
            BlockSize::B256
        } else if code == 9 {
            BlockSize::B512
        } else if code == 10 {
            BlockSize::B1024
        } else if code == 11 {
            BlockSize::B2048
        } else if code == 12 {
            BlockSize::B4096
        } else if code == 13 {
            BlockSize::B8192
        } else if code == 14 {
            BlockSize::B16kB
        } else {
            BlockSize::Unknown
        }
    }

    /// The length in bytes: two to the code.
    pub open spec fn byte_len(self) -> nat {
        vstd::arithmetic::power2::pow2(self.code())
    }

    /// The length in bytes.
    pub fn bytes(&self) -> (len: u64)
        ensures
            len == self.byte_len(),
            len <= 0x8000,
    {
        proof {
            vstd::arithmetic::power2::lemma2_to64();
        }
        match self {
            BlockSize::B1 => 1,
            BlockSize::B2 => 2,
            BlockSize::B4 => 4,
            BlockSize::B8 => 8,
            BlockSize::B16 => 16,
            BlockSize::B32 => 32,
            BlockSize::B64 => 64,
            BlockSize::B128 => 128,
            BlockSize::B256 => 256,
            BlockSize::B512 => 512,
            BlockSize::B1024 => 1024,
            BlockSize::B2048 => 2048,
            BlockSize::B4096 => 4096,
            BlockSize::B8192 => 8192,
            BlockSize::B16kB => 16384,
            BlockSize::Unknown => 32768,
        }
    }
}

/// Supply current, as the CSD encodes it.
#[derive(Copy, Clone, Debug, Eq, PartialEq, Structural)]
#[allow(non_camel_case_types)]
pub enum CurrentConsumption {
    I_0mA,
    I_1mA,
    I_5mA,
    I_10mA,
    I_25mA,
    I_35mA,
    I_45mA,
    I_60mA,
    I_80mA,
    I_100mA,
    I_200mA,
}

impl CurrentConsumption {
    /// The current in milliamperes.
    pub open spec fn milliamps(self) -> u32 {
        match self {
            CurrentConsumption::I_0mA => 0,
            CurrentConsumption::I_1mA => 1,
            CurrentConsumption::I_5mA => 5,
            CurrentConsumption::I_10mA => 10,
            CurrentConsumption::I_25mA => 25,
            CurrentConsumption::I_35mA => 35,
            CurrentConsumption::I_45mA => 45,
            CurrentConsumption::I_60mA => 60,
            CurrentConsumption::I_80mA => 80,
            CurrentConsumption::I_100mA => 100,
            CurrentConsumption::I_200mA => 200,
        }
    }

    /// The current that a code of the minimum-supply fields stands for,
    /// in milliamperes: 0, 1, 5, 10, 25, 35, 60, 100 for the codes 0 to 7.
    pub open spec fn minimum_ma(code: u128) -> u32 {
        if code == 0 {
            0
        } else if code == 1 {
            1
        } else if code == 2 {
            5
        } else if code == 3 {
            10
        } else if code == 4 {
            25
        } else if code == 5 {
            35
        } else if code == 6 {
            60
        } else {
            100
        }
    }

    /// The current that a code of the maximum-supply fields stands for,
    /// in milliamperes: 1, 5, 10, 25, 35, 45, 80, 200 for the codes 0 to 7.
    pub open spec fn maximum_ma(code: u128) -> u32 {
        if code == 0 {
            1
        } else if code == 1 {
            5
        } else if code == 2 {
            10
        } else if code == 3 {
            25
        } else if code == 4 {
            35
        } else if code == 5 {
            45
        } else if code == 6 {
            80
        } else {
            200
        }
    }

    /// Decodes a minimum-supply field; only the low three bits count.
    pub fn from_minimum_reg(reg: u128) -> (i: CurrentConsumption)
        ensures
            i.milliamps() == CurrentConsumption::minimum_ma(reg & 0x7),
    {
        let code: u128 = reg & 0x7;
        if code == 0 {
            CurrentConsumption::I_0mA
        } else if code == 1 {
            CurrentConsumption::I_1mA
        } else if code == 2 {
            CurrentConsumption::I_5mA
        } else if code == 3 {
            CurrentConsumption::I_10mA
        } else if code == 4 {
            CurrentConsumption::I_25mA
        } else if code == 5 {
            CurrentConsumption::I_35mA
        } else if code == 6 {
            CurrentConsumption::I_60mA
        } else {
            CurrentConsumption::I_100mA
        }
    }

    /// Decodes a maximum-supply field; only the low three bits count.
    pub fn from_maximum_reg(reg: u128) -> (i: CurrentConsumption)
        ensures
            i.milliamps() == CurrentConsumption::maximum_ma(reg & 0x7),
    {
        let code: u128 = reg & 0x7;
        if code == 0 {
            CurrentConsumption::I_1mA
        } else if code == 1 {
            CurrentConsumption::I_5mA
        } else if code == 2 {
            CurrentConsumption::I_10mA
        } else if code == 3 {
            CurrentConsumption::I_25mA
        } else if code == 4 {
            CurrentConsumption::I_35mA
        } else if code == 5 {
            CurrentConsumption::I_45mA
        } else if code == 6 {
            CurrentConsumption::I_80mA
        } else {
            CurrentConsumption::I_200mA
        }
    }
}

impl From<&CurrentConsumption> for u32 {
    fn from(i: &CurrentConsumption) -> (ma: u32) {
        match i {
            CurrentConsumption::I_0mA => 0,
            CurrentConsumption::I_1mA => 1,
            CurrentConsumption::I_5mA => 5,
            CurrentConsumption::I_10mA => 10,
            CurrentConsumption::I_25mA => 25,
            CurrentConsumption::I_35mA => 35,
            CurrentConsumption::I_45mA => 45,
            CurrentConsumption::I_60mA => 60,
            CurrentConsumption::I_80mA => 80,
            CurrentConsumption::I_100mA => 100,
            CurrentConsumption::I_200mA => 200,
        }
    }
}

impl FromSpecImpl<&CurrentConsumption> for u32 {
    open spec fn obeys_from_spec() -> bool {
        true
    }

    open spec fn from_spec(i: &CurrentConsumption) -> u32 {
        i.milliamps()
    }
}

/// State of the card's state machine, as the card status reports it.
#[derive(Eq, PartialEq, Copy, Clone, Debug, Structural)]
pub enum CurrentState {
    Ready,
    Identification,
    Standby,
    Transfer,
    Sending,
    Receiving,
    Programming,
    Disconnected,
    BusTest,
    Sleep,
    Error,
}

impl CurrentState {
    /// The state that a code stands for: the ten states for the codes 1 to
    /// 10, `Error` for every other code.
    pub open spec fn of_code(n: u8) -> CurrentState {
        if n == 1 {
            CurrentState::Ready
        } else if n == 2 {
            CurrentState::Identification
        } else if n == 3 {
            CurrentState::Standby
        } else if n == 4 {
            CurrentState::Transfer
        } else if n == 5 {
            CurrentState::Sending
        } else if n == 6 {
            CurrentState::Receiving
        } else if n == 7 {
            CurrentState::Programming
        } else if n == 8 {
            CurrentState::Disconnected
        } else if n == 9 {
            CurrentState::BusTest
        } else if n == 10 {
            CurrentState::Sleep
        } else {
            CurrentState::Error
        }
    }
}

impl From<u8> for CurrentState {
    fn from(n: u8) -> (state: CurrentState) {
        match n {
            1 => CurrentState::Ready,
            2 => CurrentState::Identification,
            3 => CurrentState::Standby,
            4 => CurrentState::Transfer,
            5 => CurrentState::Sending,
            6 => CurrentState::Receiving,
            7 => CurrentState::Programming,
            8 => CurrentState::Disconnected,
            9 => CurrentState::BusTest,
            10 => CurrentState::Sleep,
            _ => CurrentState::Error,
        }
    }
}

impl FromSpecImpl<u8> for CurrentState {
    open spec fn obeys_from_spec() -> bool {
        true
    }

    open spec fn from_spec(n: u8) -> CurrentState {
        CurrentState::of_code(n)
    }
}


/// Card specific data register.
#[derive(Copy, Clone, Debug)]
pub struct Csd(pub u128);

impl View for Csd {
    type V = u128;

    open spec fn view(&self) -> u128 {
        self.0
    }
}

impl Default for Csd {
    fn default() -> (r: Csd)
        ensures
            r@ == 0,
    {
        Csd(0)
    }
}

impl From<(u32, u32, u32, u32)> for Csd {
    fn from(value: (u32, u32, u32, u32)) -> (r: Csd) {
        Csd(compose_words(value))
    }
}

impl FromSpecImpl<(u32, u32, u32, u32)> for Csd {
    open spec fn obeys_from_spec() -> bool {
        true
    }

    open spec fn from_spec(value: (u32, u32, u32, u32)) -> Csd {
        Csd(compose(value))
    }
}

impl Csd {
    /// Version of the CSD structure: the two highest bits.
    pub open spec fn structure(self) -> u128 {
        field(self@, 126, 0x3)
    }

    /// Number of blocks of the card. A version 0 structure counts in units
    /// of two to the multiplier field plus two, the versions 1 and 2 count
    /// in units of 1024 blocks; every count field holds one less than the
    /// count. The unassigned version 3 has no blocks.
    pub open spec fn blocks(self) -> nat {
        if self.structure() == 0 {
            ((field(self@, 62, 0xFFF) + 1) * vstd::arithmetic::power2::pow2(
                (field(self@, 47, 0x7) + 2) as nat,
            )) as nat
        } else if self.structure() == 1 {
            ((field(self@, 48, 0x3F_FFFF) + 1) * 1024) as nat
        } else if self.structure() == 2 {
            ((field(self@, 48, 0xFFF_FFFF) + 1) * 1024) as nat
        } else {
            0
        }
    }

    /// Version of the CSD structure.
    pub fn version(&self) -> (v: u8)
        ensures
            v == self.structure(),
    {
        take(self.0, 126, 0x3) as u8
    }

    /// Maximum transfer rate, encoded: the byte from bit 96.
    pub fn transfer_rate(&self) -> (rate: u8)
        ensures
            rate == field(self@, 96, 0xFF),
    {
        take(self.0, 96, 0xFF) as u8
    }

    /// Maximum read block length: the four bits from bit 80.
    pub fn block_length(&self) -> (len: BlockSize)
        ensures
            len == BlockSize::of_code(field(self@, 80, 0xF)),
    {
        let code: u128 = take(self.0, 80, 0xF);
        match code {
            0 => BlockSize::B1,
            1 => BlockSize::B2,
            2 => BlockSize::B4,
            3 => BlockSize::B8,
            4 => BlockSize::B16,
            5 => BlockSize::B32,
            6 => BlockSize::B64,
            7 => BlockSize::B128,
            8 => BlockSize::B256,
            9 => BlockSize::B512,
            10 => BlockSize::B1024,
            11 => BlockSize::B2048,
            12 => BlockSize::B4096,
            13 => BlockSize::B8192,
            14 => BlockSize::B16kB,
            _ => BlockSize::Unknown,
        }
    }

    /// Read current at the minimum supply voltage: the three bits from
    /// bit 59.
    pub fn read_current_minimum_vdd(&self) -> (i: CurrentConsumption)
        ensures
            i.milliamps() == CurrentConsumption::minimum_ma(field(self@, 59, 0x7)),
    {
        proof {
            lemma_mask_twice(self.0, 59);
        }
        CurrentConsumption::from_minimum_reg(take(self.0, 59, 0x7))
    }

    /// Write current at the minimum supply voltage: the three bits from
    /// bit 56.
    pub fn write_current_minimum_vdd(&self) -> (i: CurrentConsumption)
        ensures
            i.milliamps() == CurrentConsumption::minimum_ma(field(self@, 56, 0x7)),
    {
        proof {
            lemma_mask_twice(self.0, 56);
        }
        CurrentConsumption::from_minimum_reg(take(self.0, 56, 0x7))
    }

    /// Read current at the maximum supply voltage: the three bits from
    /// bit 53.
    pub fn read_current_maximum_vdd(&self) -> (i: CurrentConsumption)
        ensures
            i.milliamps() == CurrentConsumption::maximum_ma(field(self@, 53, 0x7)),
    {
        proof {
            lemma_mask_twice(self.0, 53);
        }
        CurrentConsumption::from_maximum_reg(take(self.0, 53, 0x7))
    }

    /// Write current at the maximum supply voltage: the three bits from
    /// bit 50.
    pub fn write_current_maximum_vdd(&self) -> (i: CurrentConsumption)
        ensures
            i.milliamps() == CurrentConsumption::maximum_ma(field(self@, 50, 0x7)),
    {
        proof {
            lemma_mask_twice(self.0, 50);
        }
        CurrentConsumption::from_maximum_reg(take(self.0, 50, 0x7))
    }

    /// Number of blocks of the card.
    pub fn block_count(&self) -> (n: u64)
        ensures
            n == self.blocks(),
            n <= 0x40_0000_0000,
    {
        let version: u8 = self.version();
        if version == 0 {
            let c_size: u64 = take(self.0, 62, 0xFFF) as u64;
            let c_size_mult: u64 = take(self.0, 47, 0x7) as u64;
            proof {
                vstd::arithmetic::power2::lemma2_to64();
                vstd::bits::lemma_u64_shl_is_mul(1, (c_size_mult + 2) as u64);
            }
            let unit: u64 = 1u64 << (c_size_mult + 2);
            assert((c_size + 1) * unit <= 4096 * 512) by (nonlinear_arith)
                requires
                    c_size + 1 <= 4096,
                    unit <= 512,
            ;
            (c_size + 1) * unit
        } else if version == 1 {
            (take(self.0, 48, 0x3F_FFFF) as u64 + 1) * 1024
        } else if version == 2 {
            (take(self.0, 48, 0xFFF_FFFF) as u64 + 1) * 1024
        } else {
            0
        }
    }

    /// Capacity of the card in bytes: the number of blocks times the block
    /// length.
    pub fn card_size(&self) -> (bytes: u64)
        ensures
            bytes == self.blocks() * BlockSize::of_code(field(self@, 80, 0xF)).byte_len(),
    {
        let block_size_bytes: u64 = self.block_length().bytes();
        let count: u64 = self.block_count();
        assert(count * block_size_bytes <= 0x40_0000_0000 * 0x8000) by (nonlinear_arith)
            requires
                count <= 0x40_0000_0000,
                block_size_bytes <= 0x8000,
        ;
        count * block_size_bytes
    }

    /// Number of blocks that one erase covers: one where single blocks can
    /// be erased (bit 46), otherwise ten times the three bits from bit 43
    /// plus the four bits from bit 39.
    pub fn erase_size_blocks(&self) -> (n: u32)
        ensures
            n == if field(self@, 46, 0x1) == 1 {
                1
            } else {
                field(self@, 43, 0x7) * 10 + field(self@, 39, 0xF)
            },
    {
        if take(self.0, 46, 0x1) == 1 {
            1
        } else {
            let sector_size_tens: u128 = take(self.0, 43, 0x7);
            let sector_size_units: u128 = take(self.0, 39, 0xF);
            (sector_size_tens as u32 * 10) + (sector_size_units as u32)
        }
    }
}

/// Masking a three-bit field once more changes nothing.
pub proof fn lemma_mask_twice(raw: u128, low: u128)
    by (bit_vector)
    ensures
        ((raw >> low) & 0x7) & 0x7 == (raw >> low) & 0x7,
{
}

/// Card status, the payload of an R1 response.
#[derive(Copy, Clone, Debug)]
pub struct CardStatus(pub u32);

impl View for CardStatus {
    type V = u32;

    open spec fn view(&self) -> u32 {
        self.0
    }
}

impl Default for CardStatus {
    fn default() -> (r: CardStatus)
        ensures
            r@ == 0,
    {
        CardStatus(0)
    }
}

impl From<u32> for CardStatus {
    fn from(value: u32) -> (r: CardStatus) {
        CardStatus(value)
    }
}

impl FromSpecImpl<u32> for CardStatus {
    open spec fn obeys_from_spec() -> bool {
        true
    }

    open spec fn from_spec(value: u32) -> CardStatus {
        CardStatus(value)
    }
}

impl CardStatus {
    /// The command was run without the internal ECC.
    pub fn ecc_disabled(&self) -> (b: bool)
        ensures
            b == any_set(self@, 0x4000),
    {
        self.0 & 0x4000 != 0
    }

    /// An extension function raised an event.
    pub fn fx_event(&self) -> (b: bool)
        ensures
            b == any_set(self@, 0x40),
    {
        self.0 & 0x40 != 0
    }

    /// The authentication sequence failed.
    pub fn ake_seq_error(&self) -> (b: bool)
        ensures
            b == any_set(self@, 0x8),
    {
        self.0 & 0x8 != 0
    }

    /// The argument was out of the card's range.
    pub fn out_of_range(&self) -> (b: bool)
        ensures
            b == any_set(self@, 0x8000_0000),
    {
        self.0 & 0x8000_0000 != 0
    }

    /// The address was misaligned.
    pub fn address_error(&self) -> (b: bool)
        ensures
            b == any_set(self@, 0x4000_0000),
    {
        self.0 & 0x4000_0000 != 0
    }

    /// The block length is not allowed.
    pub fn block_len_error(&self) -> (b: bool)
        ensures
            b == any_set(self@, 0x2000_0000),
    {
        self.0 & 0x2000_0000 != 0
    }

    /// The erase commands came out of sequence.
    pub fn erase_seq_error(&self) -> (b: bool)
        ensures
            b == any_set(self@, 0x1000_0000),
    {
        self.0 & 0x1000_0000 != 0
    }

    /// The erase selected invalid blocks.
    pub fn erase_param(&self) -> (b: bool)
        ensures
            b == any_set(self@, 0x800_0000),
    {
        self.0 & 0x800_0000 != 0
    }

    /// A write hit a protected block.
    pub fn wp_violation(&self) -> (b: bool)
        ensures
            b == any_set(self@, 0x400_0000),
    {
        self.0 & 0x400_0000 != 0
    }

    /// The card is locked by the host.
    pub fn card_is_locked(&self) -> (b: bool)
        ensures
            b == any_set(self@, 0x200_0000),
    {
        self.0 & 0x200_0000 != 0
    }

    /// A lock or unlock command failed.
    pub fn lock_unlock_failed(&self) -> (b: bool)
        ensures
            b == any_set(self@, 0x100_0000),
    {
        self.0 & 0x100_0000 != 0
    }

    /// The CRC of the previous command failed.
    pub fn com_crc_error(&self) -> (b: bool)
        ensures
            b == any_set(self@, 0x80_0000),
    {
        self.0 & 0x80_0000 != 0
    }

    /// The command is not legal in the card's state.
    pub fn illegal_command(&self) -> (b: bool)
        ensures
            b == any_set(self@, 0x40_0000),
    {
        self.0 & 0x40_0000 != 0
    }

    /// The card's internal ECC could not correct the data.
    pub fn card_ecc_failed(&self) -> (b: bool)
        ensures
            b == any_set(self@, 0x20_0000),
    {
        self.0 & 0x20_0000 != 0
    }

    /// The card's controller failed.
    pub fn cc_error(&self) -> (b: bool)
        ensures
            b == any_set(self@, 0x10_0000),
    {
        self.0 & 0x10_0000 != 0
    }

    /// A general or unknown error occurred.
    pub fn error(&self) -> (b: bool)
        ensures
            b == any_set(self@, 0x8_0000),
    {
        self.0 & 0x8_0000 != 0
    }

    /// A CSD write hit a read-only section.
    pub fn csd_overwrite(&self) -> (b: bool)
        ensures
            b == any_set(self@, 0x1_0000),
    {
        self.0 & 0x1_0000 != 0
    }

    /// An erase skipped protected blocks.
    pub fn wp_erase_skip(&self) -> (b: bool)
        ensures
            b == any_set(self@, 0x8000),
    {
        self.0 & 0x8000 != 0
    }

    /// An erase sequence was cleared before it ran.
    pub fn erase_reset(&self) -> (b: bool)
        ensures
            b == any_set(self@, 0x2000),
    {
        self.0 & 0x2000 != 0
    }

    /// The card's buffer is empty.
    pub fn ready_for_data(&self) -> (b: bool)
        ensures
            b == any_set(self@, 0x100),
    {
        self.0 & 0x100 != 0
    }

    /// The card expects an application command.
    pub fn app_cmd(&self) -> (b: bool)
        ensures
            b == any_set(self@, 0x20),
    {
        self.0 & 0x20 != 0
    }

    /// State of the card when it received the command: the four bits from
    /// bit 9.
    pub fn state(&self) -> (state: CurrentState)
        ensures
            state == CurrentState::of_code(field32(self@, 9, 0xF) as u8),
    {
        proof {
            lemma_field32_bound(self.0, 9, 0xF);
        }
        CurrentState::from(((self.0 >> 9) & 0xF) as u8)
    }
}

/// A field is never larger than its mask.
pub proof fn lemma_field32_bound(raw: u32, low: u32, mask: u32)
    by (bit_vector)
    ensures
        (raw >> low) & mask <= mask,
{
}

/// Relative card address, as the card published it.
#[derive(Copy, Clone, Debug)]
pub struct Rca(pub u32);

impl View for Rca {
    type V = u32;

    open spec fn view(&self) -> u32 {
        self.0
    }
}

impl Default for Rca {
    fn default() -> (r: Rca)
        ensures
            r@ == 0,
    {
        Rca(0)
    }
}

impl From<u32> for Rca {
    fn from(value: u32) -> (r: Rca) {
        Rca(value)
    }
}

impl FromSpecImpl<u32> for Rca {
    open spec fn obeys_from_spec() -> bool {
        true
    }

    open spec fn from_spec(value: u32) -> Rca {
        Rca(value)
    }
}

impl Rca {
    /// The address: the upper sixteen bits.
    pub fn address(&self) -> (a: u16)
        ensures
            a == field32(self@, 16, 0xFFFF),
            a == self@ / 0x1_0000,
    {
        proof {
            lemma_field32_bound(self.0, 16, 0xFFFF);
            lemma_halves(self.0);
        }
        ((self.0 >> 16) & 0xFFFF) as u16
    }

    /// The status bits: the lower sixteen bits.
    pub fn status(&self) -> (s: u16)
        ensures
            s == field32(self@, 0, 0xFFFF),
            s == self@ % 0x1_0000,
    {
        proof {
            lemma_field32_bound(self.0, 0, 0xFFFF);
            lemma_halves(self.0);
        }
        ((self.0 >> 0) & 0xFFFF) as u16
    }
}

/// The two halves of a word, in arithmetic.
pub proof fn lemma_halves(raw: u32)
    by (bit_vector)
    ensures
        (raw >> 16) & 0xFFFF == raw / 0x1_0000,
        (raw >> 0) & 0xFFFF == raw % 0x1_0000,
{
}

/// Card interface condition, the payload of an R7 response.
#[derive(Copy, Clone, Debug)]
pub struct Cic(pub u32);

impl View for Cic {
    type V = u32;

    open spec fn view(&self) -> u32 {
        self.0
    }
}

impl Default for Cic {
    fn default() -> (r: Cic)
        ensures
            r@ == 0,
    {
        Cic(0)
    }
}

impl From<u32> for Cic {
    fn from(value: u32) -> (r: Cic) {
        Cic(value)
    }
}

impl FromSpecImpl<u32> for Cic {
    open spec fn obeys_from_spec() -> bool {
        true
    }

    open spec fn from_spec(value: u32) -> Cic {
        Cic(value)
    }
}

impl Cic {
    /// The supply voltage that the card accepted: the four bits from bit 8.
    pub fn voltage_accepted(&self) -> (v: u8)
        ensures
            v == field32(self@, 8, 0xF),
    {
        proof {
            lemma_field32_bound(self.0, 8, 0xF);
        }
        ((self.0 >> 8) & 0xF) as u8
    }

    /// The check pattern that the card echoed: the low byte.
    pub fn pattern(&self) -> (p: u8)
        ensures
            p == field32(self@, 0, 0xFF),
    {
        proof {
            lemma_field32_bound(self.0, 0, 0xFF);
        }
        ((self.0 >> 0) & 0xFF) as u8
    }
}

/// SD configuration register.
#[derive(Copy, Clone, Debug)]
pub struct Scr(pub u64);

impl View for Scr {
    type V = u64;

    open spec fn view(&self) -> u64 {
        self.0
    }
}

impl Default for Scr {
    fn default() -> (r: Scr)
        ensures
            r@ == 0,
    {
        Scr(0)
    }
}

impl From<(u32, u32)> for Scr {
    fn from(value: (u32, u32)) -> (r: Scr) {
        Scr(((value.1 as u64) << 32) | (value.0 as u64))
    }
}

impl FromSpecImpl<(u32, u32)> for Scr {
    open spec fn obeys_from_spec() -> bool {
        true
    }

    open spec fn from_spec(value: (u32, u32)) -> Scr {
        Scr(((value.1 as u64) << 32) | (value.0 as u64))
    }
}

impl Scr {
    /// The version that the four version fields of the register spell.
    pub open spec fn version_of(spec: u64, spec3: u64, spec4: u64, specx: u64) -> SDSpecVersion {
        if spec == 0 && spec3 == 0 && spec4 == 0 && specx == 0 {
            SDSpecVersion::V1_0
        } else if spec == 1 && spec3 == 0 && spec4 == 0 && specx == 0 {
            SDSpecVersion::V1_10
        } else if spec == 2 && spec3 == 0 && spec4 == 0 && specx == 0 {
            SDSpecVersion::V2
        } else if spec == 2 && spec3 == 1 && spec4 == 0 && specx == 0 {
            SDSpecVersion::V3
        } else if spec == 2 && spec3 == 1 && spec4 == 1 && specx == 0 {
            SDSpecVersion::V4
        } else if spec == 2 && spec3 == 1 && specx == 1 {
            SDSpecVersion::V5
        } else if spec == 2 && spec3 == 1 && specx == 2 {
            SDSpecVersion::V6
        } else if spec == 2 && spec3 == 1 && specx == 3 {
            SDSpecVersion::V7
        } else {
            SDSpecVersion::Unknown
        }
    }

    /// Version of the physical layer specification: spelled by the four
    /// bits from bit 56, bit 47, bit 42 and the four bits from bit 38.
    pub fn version(&self) -> (v: SDSpecVersion)
        ensures
            v == Scr::version_of(
                field64(self@, 56, 0xF),
                field64(self@, 47, 0x1),
                field64(self@, 42, 0x1),
                field64(self@, 38, 0xF),
            ),
    {
        let spec: u64 = (self.0 >> 56) & 0xF;
        let spec3: u64 = (self.0 >> 47) & 1;
        let spec4: u64 = (self.0 >> 42) & 1;
        let specx: u64 = (self.0 >> 38) & 0xF;
        match (spec, spec3, spec4, specx) {
            (0, 0, 0, 0) => SDSpecVersion::V1_0,
            (1, 0, 0, 0) => SDSpecVersion::V1_10,
            (2, 0, 0, 0) => SDSpecVersion::V2,
            (2, 1, 0, 0) => SDSpecVersion::V3,
            (2, 1, 1, 0) => SDSpecVersion::V4,
            (2, 1, _, 1) => SDSpecVersion::V5,
            (2, 1, _, 2) => SDSpecVersion::V6,
            (2, 1, _, 3) => SDSpecVersion::V7,
            _ => SDSpecVersion::Unknown,
        }
    }

    /// The supported bus widths: the four bits from bit 48.
    pub fn bus_widths(&self) -> (w: u8)
        ensures
            w == field64(self@, 48, 0xF),
    {
        proof {
            lemma_field64_bound(self.0, 48, 0xF);
        }
        ((self.0 >> 48) & 0xF) as u8
    }

    /// Whether the one-bit bus is supported: bit 48.
    pub fn bus_width_one(&self) -> (b: bool)
        ensures
            b == (field64(self@, 48, 0x1) != 0),
    {
        (self.0 >> 48) & 1 != 0
    }

    /// Whether the four-bit bus is supported: bit 50.
    pub fn bus_width_four(&self) -> (b: bool)
        ensures
            b == (field64(self@, 50, 0x1) != 0),
    {
        (self.0 >> 50) & 1 != 0
    }
}

/// A field is never larger than its mask.
pub proof fn lemma_field64_bound(raw: u64, low: u64, mask: u64)
    by (bit_vector)
    ensures
        (raw >> low) & mask <= mask,
{
}

/// SD status, the sixteen words that ACMD13 returns.
#[derive(Clone, Copy, Debug)]
pub struct SdStatus {
    pub inner: [u32; 16],
}

impl View for SdStatus {
    type V = Seq<u32>;

    open spec fn view(&self) -> Seq<u32> {
        self.inner@
    }
}

impl Default for SdStatus {
    fn default() -> (r: SdStatus)
        ensures
            forall|i: int| 0 <= i < 16 ==> r@[i] == 0,
    {
        SdStatus { inner: [0u32;16] }
    }
}

impl From<[u32; 16]> for SdStatus {
    fn from(value: [u32; 16]) -> (r: SdStatus) {
        SdStatus { inner: value }
    }
}

impl FromSpecImpl<[u32; 16]> for SdStatus {
    open spec fn obeys_from_spec() -> bool {
        true
    }

    open spec fn from_spec(value: [u32; 16]) -> SdStatus {
        SdStatus { inner: value }
    }
}

impl SdStatus {
    /// The bus width in use: the two highest bits of word 15, zero for
    /// one bit and two for four bits.
    pub fn bus_width(&self) -> (w: BusWidth)
        ensures
            w == if field32(self@[15], 30, 0x3) == 0 {
                BusWidth::One
            } else if field32(self@[15], 30, 0x3) == 2 {
                BusWidth::Four
            } else {
                BusWidth::Unknown
            },
    {
        let code: u32 = (self.inner[15] >> 30) & 3;
        if code == 0 {
            BusWidth::One
        } else if code == 2 {
            BusWidth::Four
        } else {
            BusWidth::Unknown
        }
    }

    /// Whether the card is in secured mode: bit 29 of word 15.
    pub fn secure_mode(&self) -> (b: bool)
        ensures
            b == any_set(self@[15], 0x2000_0000),
    {
        self.inner[15] & 0x2000_0000 != 0
    }

    /// The card type: the low half of word 15.
    pub fn sd_memory_card_type(&self) -> (t: u16)
        ensures
            t == field32(self@[15], 0, 0xFFFF),
    {
        proof {
            lemma_field32_bound(self.inner[15], 0, 0xFFFF);
        }
        ((self.inner[15] >> 0) & 0xFFFF) as u16
    }

    /// Size of the protected area: word 14.
    pub fn protected_area_size(&self) -> (size: u32)
        ensures
            size == self@[14],
    {
        self.inner[14]
    }

    /// Speed class: the highest byte of word 13.
    pub fn speed_class(&self) -> (class: u8)
        ensures
            class == field32(self@[13], 24, 0xFF),
    {
        proof {
            lemma_field32_bound(self.inner[13], 24, 0xFF);
        }
        ((self.inner[13] >> 24) & 0xFF) as u8
    }

    /// Move performance: the byte from bit 16 of word 13.
    pub fn move_performance(&self) -> (mbps: u8)
        ensures
            mbps == field32(self@[13], 16, 0xFF),
    {
        proof {
            lemma_field32_bound(self.inner[13], 16, 0xFF);
        }
        ((self.inner[13] >> 16) & 0xFF) as u8
    }

    /// Size of an allocation unit, encoded: the four bits from bit 12 of
    /// word 13.
    pub fn allocation_unit_size(&self) -> (au: u8)
        ensures
            au == field32(self@[13], 12, 0xF),
    {
        proof {
            lemma_field32_bound(self.inner[13], 12, 0xF);
        }
        ((self.inner[13] >> 12) & 0xF) as u8
    }

    /// Erase size: the low byte of word 13 joined, bit by bit, with the
    /// highest byte of word 12.
    pub fn erase_size(&self) -> (size: u16)
        ensures
            size == field32(self@[13], 0, 0xFF) | field32(self@[12], 24, 0xFF),
    {
        proof {
            lemma_field32_bound(self.inner[13], 0, 0xFF);
            lemma_field32_bound(self.inner[12], 24, 0xFF);
            lemma_join_bytes((self.inner[13] >> 0) & 0xFF, (self.inner[12] >> 24) & 0xFF);
        }
        let joined: u32 = ((self.inner[13] >> 0) & 0xFF) | ((self.inner[12] >> 24) & 0xFF);
        joined as u16
    }

    /// Erase timeout: the six bits from bit 18 of word 12.
    pub fn erase_timeout(&self) -> (seconds: u8)
        ensures
            seconds == field32(self@[12], 18, 0x3F),
    {
        proof {
            lemma_field32_bound(self.inner[12], 18, 0x3F);
        }
        ((self.inner[12] >> 18) & 0x3F) as u8
    }

    /// Video speed class: the low byte of word 11.
    pub fn video_speed_class(&self) -> (class: u8)
        ensures
            class == field32(self@[11], 0, 0xFF),
    {
        proof {
            lemma_field32_bound(self.inner[11], 0, 0xFF);
        }
        ((self.inner[11] >> 0) & 0xFF) as u8
    }

    /// Application performance class: the four bits from bit 16 of word 9.
    pub fn app_perf_class(&self) -> (class: u8)
        ensures
            class == field32(self@[9], 16, 0xF),
    {
        proof {
            lemma_field32_bound(self.inner[9], 16, 0xF);
        }
        ((self.inner[9] >> 16) & 0xF) as u8
    }

    /// Whether the card supports discard: bit 25 of word 8.
    pub fn discard_support(&self) -> (b: bool)
        ensures
            b == any_set(self@[8], 0x0200_0000),
    {
        self.inner[8] & 0x0200_0000 != 0
    }
}

/// Two bytes joined bit by bit make a byte.
pub proof fn lemma_join_bytes(a: u32, b: u32)
    by (bit_vector)
    requires
        a <= 0xFF,
        b <= 0xFF,
    ensures
        a | b <= 0xFF,
{
}

} // verus!
