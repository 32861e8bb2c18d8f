//! The fixed-capacity advertisement encoder: typed measurement fields are
//! serialized into a vendor-tagged binary payload, appended to a
//! fixed-size byte buffer seeded with the protocol header.

use vstd::prelude::*;

verus! {

/// The 16-bit service UUID that tags the payload's vendor format.
pub const BTHOME_UUID16: u16 = 0xFCD2;

/// Little-endian bytes of a 16-bit value, low byte first.
pub open spec fn le16_bytes(v: u16) -> Seq<u8> {
    seq![(v % 256) as u8, (v / 256) as u8]
}

/// The value spelled by two little-endian bytes.
pub open spec fn le16_val(b: Seq<u8>) -> int
    recommends
        b.len() == 2,
{
    b[0] + b[1] * 256
}

/// Little-endian bytes of the low 24 bits of a 32-bit value.
pub open spec fn le24_bytes(v: u32) -> Seq<u8> {
    seq![(v % 256) as u8, ((v / 256) % 256) as u8, ((v / 65536) % 256) as u8]
}

/// The value spelled by three little-endian bytes.
pub open spec fn le24_val(b: Seq<u8>) -> int
    recommends
        b.len() == 3,
{
    b[0] + b[1] * 256 + b[2] * 65536
}

/// The signed value spelled by two little-endian bytes in two's
/// complement.
pub open spec fn i16_le_val(b: Seq<u8>) -> int
    recommends
        b.len() == 2,
{
    if le16_val(b) < 32768 {
        le16_val(b)
    } else {
        le16_val(b) - 65536
    }
}

/// Law: re-decoding the little-endian bytes of a 16-bit value recovers it.
pub proof fn lemma_le16_round_trip(v: u16)
    ensures
        le16_val(le16_bytes(v)) == v,
{
}

/// Law: re-decoding the little-endian bytes of a value below 2^24
/// recovers it.
pub proof fn lemma_le24_round_trip(v: u32)
    requires
        v < 0x1000000,
    ensures
        le24_val(le24_bytes(v)) == v,
{
}

/// The two's-complement 16-bit representation of a signed 16-bit value.
pub open spec fn u16_rep(v: i16) -> u16 {
    if v >= 0 {
        v as u16
    } else {
        (v + 65536) as u16
    }
}

/// Law: re-decoding two's-complement little-endian bytes of a signed
/// 16-bit value recovers it.
pub proof fn lemma_i16_round_trip(v: i16)
    ensures
        i16_le_val(le16_bytes(u16_rep(v))) == v,
{
}

/// Law: a one-byte field encoding `[id, v]` decodes back to `v` from its
/// payload byte.
pub proof fn lemma_field_round_trip_u8(id: u8, v: u8)
    ensures
        seq![id, v][1] == v,
{
}

/// Law: a two-byte unsigned field encoding `[id] + le16_bytes(v)` decodes
/// back to `v` from its payload bytes.
pub proof fn lemma_field_round_trip_u16(id: u8, v: u16)
    ensures
        le16_val((seq![id] + le16_bytes(v)).subrange(1, 3)) == v,
{
    assert((seq![id] + le16_bytes(v)).subrange(1, 3) =~= le16_bytes(v));
}

/// Law: a two-byte signed field encoding `[id] + le16_bytes(u16_rep(v))`
/// decodes back to `v` from its payload bytes.
pub proof fn lemma_field_round_trip_i16(id: u8, v: i16)
    ensures
        i16_le_val((seq![id] + le16_bytes(u16_rep(v))).subrange(1, 3)) == v,
{
    assert((seq![id] + le16_bytes(u16_rep(v))).subrange(1, 3) =~= le16_bytes(u16_rep(v)));
}

/// Law: a three-byte field encoding `[id] + le24_bytes(v)` of a value
/// below 2^24 decodes back to `v` from its payload bytes.
pub proof fn lemma_field_round_trip_u24(id: u8, v: u32)
    requires
        v < 0x1000000,
    ensures
        le24_val((seq![id] + le24_bytes(v)).subrange(1, 4)) == v,
{
    assert((seq![id] + le24_bytes(v)).subrange(1, 4) =~= le24_bytes(v));
}

/// Battery charge in whole percent: object id 0x01, one unsigned byte.
#[derive(Debug, Copy, Clone)]
pub struct Battery1Per(pub [u8; 2]);

/// Temperature in 0.01 degree steps: object id 0x02, two signed
/// little-endian bytes.
#[derive(Debug, Copy, Clone)]
pub struct Temperature10mK(pub [u8; 3]);

/// Relative humidity in 0.01 percent steps: object id 0x03, two unsigned
/// little-endian bytes.
#[derive(Debug, Copy, Clone)]
pub struct Humidity10mPer(pub [u8; 3]);

/// Illuminance in 0.01 lux steps: object id 0x05, three unsigned
/// little-endian bytes.
#[derive(Debug, Copy, Clone)]
pub struct Illuminance10mLux(pub [u8; 4]);

/// Voltage in millivolt steps: object id 0x0C, two unsigned little-endian
/// bytes.
#[derive(Debug, Copy, Clone)]
pub struct Voltage1mV(pub [u8; 3]);

/// Soil moisture in 0.01 percent steps: object id 0x14, two unsigned
/// little-endian bytes.
#[derive(Debug, Copy, Clone)]
pub struct Moisture10mPer(pub [u8; 3]);

/// Relative humidity in whole percent: object id 0x2E, one unsigned byte.
#[derive(Debug, Copy, Clone)]
pub struct Humidity1Per(pub [u8; 2]);

/// Soil moisture in whole percent: object id 0x2F, one unsigned byte.
#[derive(Debug, Copy, Clone)]
pub struct Moisture1Per(pub [u8; 2]);

impl View for Battery1Per {
    type V = Seq<u8>;

    open spec fn view(&self) -> Seq<u8> {
        self.0@
    }
}

impl View for Temperature10mK {
    type V = Seq<u8>;

    open spec fn view(&self) -> Seq<u8> {
        self.0@
    }
}

impl View for Humidity10mPer {
    type V = Seq<u8>;

    open spec fn view(&self) -> Seq<u8> {
        self.0@
    }
}

impl View for Illuminance10mLux {
    type V = Seq<u8>;

    open spec fn view(&self) -> Seq<u8> {
        self.0@
    }
}

impl View for Voltage1mV {
    type V = Seq<u8>;

    open spec fn view(&self) -> Seq<u8> {
        self.0@
    }
}

impl View for Moisture10mPer {
    type V = Seq<u8>;

    open spec fn view(&self) -> Seq<u8> {
        self.0@
    }
}

impl View for Humidity1Per {
    type V = Seq<u8>;

    open spec fn view(&self) -> Seq<u8> {
        self.0@
    }
}

impl View for Moisture1Per {
    type V = Seq<u8>;

    open spec fn view(&self) -> Seq<u8> {
        self.0@
    }
}

impl Battery1Per {
    /// Encode a whole-percent battery value as its field bytes.
    pub fn from(value: u8) -> (r: Self)
        ensures
            r@ == seq![0x01u8, value],
    {
        let r = Battery1Per([0x01, value]);
        proof {
            assert(r@ =~= seq![0x01u8, value]);
        }
        r
    }

    /// The value carried in the field's payload byte.
    pub fn get(&self) -> (r: u8)
        ensures
            r == self@[1],
    {
        self.0[1]
    }
}

impl Humidity1Per {
    /// Encode a whole-percent humidity value as its field bytes.
    pub fn from(value: u8) -> (r: Self)
        ensures
            r@ == seq![0x2Eu8, value],
    {
        let r = Humidity1Per([0x2E, value]);
        proof {
            assert(r@ =~= seq![0x2Eu8, value]);
        }
        r
    }

    /// The value carried in the field's payload byte.
    pub fn get(&self) -> (r: u8)
        ensures
            r == self@[1],
    {
        self.0[1]
    }
}

impl Moisture1Per {
    /// Encode a whole-percent moisture value as its field bytes.
    pub fn from(value: u8) -> (r: Self)
        ensures
            r@ == seq![0x2Fu8, value],
    {
        let r = Moisture1Per([0x2F, value]);
        proof {
            assert(r@ =~= seq![0x2Fu8, value]);
        }
        r
    }

    /// The value carried in the field's payload byte.
    pub fn get(&self) -> (r: u8)
        ensures
            r == self@[1],
    {
        self.0[1]
    }
}

impl Humidity10mPer {
    /// Encode a 0.01-percent humidity value as its field bytes.
    pub fn from(value: u16) -> (r: Self)
        ensures
            r@ == seq![0x03u8] + le16_bytes(value),
    {
        let r = Humidity10mPer([0x03, (value % 256) as u8, (value / 256) as u8]);
        proof {
            assert(r@ =~= seq![0x03u8] + le16_bytes(value));
        }
        r
    }

    /// The value carried in the field's payload bytes.
    pub fn get(&self) -> (r: u16)
        ensures
            r as int == le16_val(self@.subrange(1, 3)),
    {
        self.0[1] as u16 + (self.0[2] as u16) * 256
    }
}

impl Voltage1mV {
    /// Encode a millivolt voltage value as its field bytes.
    pub fn from(value: u16) -> (r: Self)
        ensures
            r@ == seq![0x0Cu8] + le16_bytes(value),
    {
        let r = Voltage1mV([0x0C, (value % 256) as u8, (value / 256) as u8]);
        proof {
            assert(r@ =~= seq![0x0Cu8] + le16_bytes(value));
        }
        r
    }

    /// The value carried in the field's payload bytes.
    pub fn get(&self) -> (r: u16)
        ensures
            r as int == le16_val(self@.subrange(1, 3)),
    {
        self.0[1] as u16 + (self.0[2] as u16) * 256
    }
}

impl Moisture10mPer {
    /// Encode a 0.01-percent moisture value as its field bytes.
    pub fn from(value: u16) -> (r: Self)
        ensures
            r@ == seq![0x14u8] + le16_bytes(value),
    {
        let r = Moisture10mPer([0x14, (value % 256) as u8, (value / 256) as u8]);
        proof {
            assert(r@ =~= seq![0x14u8] + le16_bytes(value));
        }
        r
    }

    /// The value carried in the field's payload bytes.
    pub fn get(&self) -> (r: u16)
        ensures
            r as int == le16_val(self@.subrange(1, 3)),
    {
        self.0[1] as u16 + (self.0[2] as u16) * 256
    }
}

impl Temperature10mK {
    /// Encode a signed 0.01-degree temperature value as its field bytes,
    /// two's complement, low byte first.
    pub fn from(value: i16) -> (r: Self)
        ensures
            r@ == seq![0x02u8] + le16_bytes(u16_rep(value)),
    {
        let rep: u16 = if value >= 0 {
            value as u16
        } else {
            ((value as i32) + 65536) as u16
        };
        let r = Temperature10mK([0x02, (rep % 256) as u8, (rep / 256) as u8]);
        proof {
            assert(r@ =~= seq![0x02u8] + le16_bytes(u16_rep(value)));
        }
        r
    }

    /// The signed value carried in the field's payload bytes.
    pub fn get(&self) -> (r: i16)
        ensures
            r as int == i16_le_val(self@.subrange(1, 3)),
    {
        let x: u16 = self.0[1] as u16 + (self.0[2] as u16) * 256;
        if x < 32768 {
            x as i16
        } else {
            ((x as i32) - 65536) as i16
        }
    }
}

impl Illuminance10mLux {
    /// Encode a 0.01-lux illuminance value as its field bytes: the low 24
    /// bits, low byte first.
    pub fn from(value: u32) -> (r: Self)
        ensures
            r@ == seq![0x05u8] + le24_bytes(value),
    {
        let r = Illuminance10mLux(
            [0x05, (value % 256) as u8, ((value / 256) % 256) as u8, ((value / 65536) % 256) as u8],
        );
        proof {
            assert(r@ =~= seq![0x05u8] + le24_bytes(value));
        }
        r
    }

    /// The value carried in the field's payload bytes.
    pub fn get(&self) -> (r: u32)
        ensures
            r as int == le24_val(self@.subrange(1, 4)),
    {
        self.0[1] as u32 + (self.0[2] as u32) * 256 + (self.0[3] as u32) * 65536
    }
}

/// One advertisement field of any of the supported types.
#[derive(Debug, Copy, Clone)]
pub enum BtHomeEnum {
    /// Battery charge, whole percent.
    Battery1Per(Battery1Per),
    /// Temperature, 0.01 degree steps, signed.
    Temperature10mK(Temperature10mK),
    /// Relative humidity, 0.01 percent steps.
    Humidity10mPer(Humidity10mPer),
    /// Illuminance, 0.01 lux steps.
    Illuminance10mLux(Illuminance10mLux),
    /// Voltage, millivolt steps.
    Voltage1mV(Voltage1mV),
    /// Soil moisture, 0.01 percent steps.
    Moisture10mPer(Moisture10mPer),
    /// Relative humidity, whole percent.
    Humidity1Per(Humidity1Per),
    /// Soil moisture, whole percent.
    Moisture1Per(Moisture1Per),
}

/// The encoded bytes of a field: its object id followed by its
/// little-endian payload.
pub open spec fn spec_encode(p: BtHomeEnum) -> Seq<u8> {
    match p {
        BtHomeEnum::Battery1Per(f) => f@,
        BtHomeEnum::Temperature10mK(f) => f@,
        BtHomeEnum::Humidity10mPer(f) => f@,
        BtHomeEnum::Illuminance10mLux(f) => f@,
        BtHomeEnum::Voltage1mV(f) => f@,
        BtHomeEnum::Moisture10mPer(f) => f@,
        BtHomeEnum::Humidity1Per(f) => f@,
        BtHomeEnum::Moisture1Per(f) => f@,
    }
}

/// The object id of a field variant.
pub open spec fn spec_field_id(p: BtHomeEnum) -> u8 {
    match p {
        BtHomeEnum::Battery1Per(_) => 0x01,
        BtHomeEnum::Temperature10mK(_) => 0x02,
        BtHomeEnum::Humidity10mPer(_) => 0x03,
        BtHomeEnum::Illuminance10mLux(_) => 0x05,
        BtHomeEnum::Voltage1mV(_) => 0x0C,
        BtHomeEnum::Moisture10mPer(_) => 0x14,
        BtHomeEnum::Humidity1Per(_) => 0x2E,
        BtHomeEnum::Moisture1Per(_) => 0x2F,
    }
}

impl BtHomeEnum {
    /// The object id of this field.
    pub fn id(&self) -> (r: u8)
        ensures
            r == spec_field_id(*self),
    {
        match self {
            BtHomeEnum::Battery1Per(_) => 0x01,
            BtHomeEnum::Temperature10mK(_) => 0x02,
            BtHomeEnum::Humidity10mPer(_) => 0x03,
            BtHomeEnum::Illuminance10mLux(_) => 0x05,
            BtHomeEnum::Voltage1mV(_) => 0x0C,
            BtHomeEnum::Moisture10mPer(_) => 0x14,
            BtHomeEnum::Humidity1Per(_) => 0x2E,
            BtHomeEnum::Moisture1Per(_) => 0x2F,
        }
    }

    /// The encoded bytes of this field.
    pub fn encode(&self) -> (r: &[u8])
        ensures
            r@ == spec_encode(*self),
            2 <= r@.len() <= 4,
    {
        match self {
            BtHomeEnum::Battery1Per(f) => f.0.as_slice(),
            BtHomeEnum::Temperature10mK(f) => f.0.as_slice(),
            BtHomeEnum::Humidity10mPer(f) => f.0.as_slice(),
            BtHomeEnum::Illuminance10mLux(f) => f.0.as_slice(),
            BtHomeEnum::Voltage1mV(f) => f.0.as_slice(),
            BtHomeEnum::Moisture10mPer(f) => f.0.as_slice(),
            BtHomeEnum::Humidity1Per(f) => f.0.as_slice(),
            BtHomeEnum::Moisture1Per(f) => f.0.as_slice(),
        }
    }
}

impl From<Battery1Per> for BtHomeEnum {
    fn from(value: Battery1Per) -> (r: Self) {
        BtHomeEnum::Battery1Per(value)
    }
}

impl vstd::std_specs::convert::FromSpecImpl<Battery1Per> for BtHomeEnum {
    open spec fn obeys_from_spec() -> bool {
        true
    }

    open spec fn from_spec(value: Battery1Per) -> Self {
        BtHomeEnum::Battery1Per(value)
    }
}

impl From<Temperature10mK> for BtHomeEnum {
    fn from(value: Temperature10mK) -> (r: Self) {
        BtHomeEnum::Temperature10mK(value)
    }
}

impl vstd::std_specs::convert::FromSpecImpl<Temperature10mK> for BtHomeEnum {
    open spec fn obeys_from_spec() -> bool {
        true
    }

    open spec fn from_spec(value: Temperature10mK) -> Self {
        BtHomeEnum::Temperature10mK(value)
    }
}

impl From<Humidity10mPer> for BtHomeEnum {
    fn from(value: Humidity10mPer) -> (r: Self) {
        BtHomeEnum::Humidity10mPer(value)
    }
}

impl vstd::std_specs::convert::FromSpecImpl<Humidity10mPer> for BtHomeEnum {
    open spec fn obeys_from_spec() -> bool {
        true
    }

    open spec fn from_spec(value: Humidity10mPer) -> Self {
        BtHomeEnum::Humidity10mPer(value)
    }
}

impl From<Illuminance10mLux> for BtHomeEnum {
    fn from(value: Illuminance10mLux) -> (r: Self) {
        BtHomeEnum::Illuminance10mLux(value)
    }
}

impl vstd::std_specs::convert::FromSpecImpl<Illuminance10mLux> for BtHomeEnum {
    open spec fn obeys_from_spec() -> bool {
        true
    }

    open spec fn from_spec(value: Illuminance10mLux) -> Self {
        BtHomeEnum::Illuminance10mLux(value)
    }
}

impl From<Voltage1mV> for BtHomeEnum {
    fn from(value: Voltage1mV) -> (r: Self) {
        BtHomeEnum::Voltage1mV(value)
    }
}

impl vstd::std_specs::convert::FromSpecImpl<Voltage1mV> for BtHomeEnum {
    open spec fn obeys_from_spec() -> bool {
        true
    }

    open spec fn from_spec(value: Voltage1mV) -> Self {
        BtHomeEnum::Voltage1mV(value)
    }
}

impl From<Moisture10mPer> for BtHomeEnum {
    fn from(value: Moisture10mPer) -> (r: Self) {
        BtHomeEnum::Moisture10mPer(value)
    }
}

impl vstd::std_specs::convert::FromSpecImpl<Moisture10mPer> for BtHomeEnum {
    open spec fn obeys_from_spec() -> bool {
        true
    }

    open spec fn from_spec(value: Moisture10mPer) -> Self {
        BtHomeEnum::Moisture10mPer(value)
    }
}

impl From<Humidity1Per> for BtHomeEnum {
    fn from(value: Humidity1Per) -> (r: Self) {
        BtHomeEnum::Humidity1Per(value)
    }
}

impl vstd::std_specs::convert::FromSpecImpl<Humidity1Per> for BtHomeEnum {
    open spec fn obeys_from_spec() -> bool {
        true
    }

    open spec fn from_spec(value: Humidity1Per) -> Self {
        BtHomeEnum::Humidity1Per(value)
    }
}

impl From<Moisture1Per> for BtHomeEnum {
    fn from(value: Moisture1Per) -> (r: Self) {
        BtHomeEnum::Moisture1Per(value)
    }
}

impl vstd::std_specs::convert::FromSpecImpl<Moisture1Per> for BtHomeEnum {
    open spec fn obeys_from_spec() -> bool {
        true
    }

    open spec fn from_spec(value: Moisture1Per) -> Self {
        BtHomeEnum::Moisture1Per(value)
    }
}

/// A value that can appear in the advertisement payload as encoded bytes.
pub trait BtHomeData {
    /// The encoded bytes of this value.
    fn encode(&self) -> &[u8];
}

#[verifier::external_type_specification]
#[verifier::external_body]
#[verifier::reject_recursive_types(T)]
pub struct ExHeaplessVec<T, const N: usize>(heapless::Vec<T, N>);

/// What the advertisement byte buffer holds, oldest byte first.
pub uninterp spec fn ad_buf_bytes(v: &heapless::Vec<u8, 31>) -> Seq<u8>;

/// Relies on heapless::Vec::new: a freshly constructed vector is empty.
#[verifier::external_body]
fn ad_buf_new() -> (r: heapless::Vec<u8, 31>)
    ensures
        ad_buf_bytes(&r) == Seq::<u8>::empty(),
{
    heapless::Vec::new()
}

/// Relies on heapless::Vec::as_slice: the slice of everything the vector
/// holds, in order.
#[verifier::external_body]
fn ad_buf_as_slice(v: &heapless::Vec<u8, 31>) -> (r: &[u8])
    ensures
        r@ == ad_buf_bytes(v),
{
    v.as_slice()
}

/// Relies on heapless::Vec::extend_from_slice: appends the whole slice
/// when it fits within the capacity of 31, and otherwise errors without
/// modifying anything.
#[verifier::external_body]
fn ad_buf_extend(v: &mut heapless::Vec<u8, 31>, s: &[u8]) -> (r: bool)
    ensures
        ad_buf_bytes(old(v)).len() + s@.len() <= 31 ==> r && ad_buf_bytes(final(v))
            == ad_buf_bytes(old(v)) + s@,
        ad_buf_bytes(old(v)).len() + s@.len() > 31 ==> !r && ad_buf_bytes(final(v)) == ad_buf_bytes(
            old(v),
        ),
{
    v.extend_from_slice(s).is_ok()
}

/// Relies on the slice index operator reached through heapless::Vec's
/// Deref: reads one held byte.
#[verifier::external_body]
fn ad_buf_get(v: &heapless::Vec<u8, 31>, i: usize) -> (r: u8)
    requires
        i < ad_buf_bytes(v).len(),
    ensures
        r == ad_buf_bytes(v)[i as int],
{
    v[i]
}

/// Relies on the slice index operator reached through heapless::Vec's
/// DerefMut: overwrites one held byte in place.
#[verifier::external_body]
fn ad_buf_set(v: &mut heapless::Vec<u8, 31>, i: usize, b: u8)
    requires
        i < ad_buf_bytes(old(v)).len(),
    ensures
        ad_buf_bytes(final(v)) == ad_buf_bytes(old(v)).update(i as int, b),
{
    v[i] = b;
}

/// The fixed 8-byte protocol header the buffer is seeded with: the flags
/// structure, then the service-data structure header carrying the vendor
/// UUID and the device-information byte. Byte 3 is the running length of
/// the service-data structure.
pub open spec fn spec_header() -> Seq<u8> {
    seq![0x02u8, 0x01u8, 0x06u8, 0x04u8, 0x16u8, 0xD2u8, 0xFCu8, 0x40u8]
}

/// The advertisement payload builder: a byte buffer of fixed capacity 31
/// (the legacy-mode advertisement ceiling), seeded with the protocol
/// header, to which encoded fields and a trailing local-name structure
/// are appended.
#[derive(Debug)]
pub struct BtHomeAd {
    buffer: heapless::Vec<u8, 31>,
}

impl View for BtHomeAd {
    type V = Seq<u8>;

    closed spec fn view(&self) -> Seq<u8> {
        ad_buf_bytes(&self.buffer)
    }
}

impl BtHomeAd {
    /// Well-formedness: the buffer holds at least the header, never more
    /// than the capacity, and its service-data length byte never exceeds
    /// the total length.
    pub open spec fn wf(&self) -> bool {
        &&& 8 <= self@.len() <= 31
        &&& self@[3] <= self@.len()
    }

    /// A new advertisement holding exactly the protocol header.
    pub fn new() -> (r: Self)
        ensures
            r@ == spec_header(),
            r.wf(),
    {
        let mut buffer = ad_buf_new();
        let header: [u8; 8] = [0x02, 0x01, 0x06, 0x04, 0x16, 0xD2, 0xFC, 0x40];
        let _ok = ad_buf_extend(&mut buffer, header.as_slice());
        let r = BtHomeAd { buffer };
        proof {
            assert(Seq::<u8>::empty() + header@ =~= header@);
            assert(header@ =~= spec_header());
        }
        r
    }

    /// Append an encoded field: its bytes go to the end of the buffer and
    /// the service-data length byte grows by the encoded length. The
    /// caller must have sized the buffer for it; appending a field that
    /// does not leave spare capacity is a configuration error.
    pub fn add_data(&mut self, payload: BtHomeEnum)
        requires
            old(self).wf(),
            old(self)@.len() + spec_encode(payload).len() < 31,
        ensures
            final(self).wf(),
            final(self)@ == old(self)@.update(
                3,
                (old(self)@[3] + spec_encode(payload).len()) as u8,
            ) + spec_encode(payload),
    {
        let enc = payload.encode();
        let b3 = ad_buf_get(&self.buffer, 3);
        ad_buf_set(&mut self.buffer, 3, b3 + enc.len() as u8);
        let _ok = ad_buf_extend(&mut self.buffer, enc);
    }

    /// Try to append an encoded field: appends as [`Self::add_data`] and
    /// reports true when it fits with spare capacity, and otherwise
    /// reports false and leaves the buffer unchanged.
    pub fn try_add_data(&mut self, payload: BtHomeEnum) -> (r: bool)
        requires
            old(self).wf(),
        ensures
            final(self).wf(),
            r == (old(self)@.len() + spec_encode(payload).len() < 31),
            r ==> final(self)@ == old(self)@.update(
                3,
                (old(self)@[3] + spec_encode(payload).len()) as u8,
            ) + spec_encode(payload),
            !r ==> final(self)@ == old(self)@,
    {
        let enc_len = payload.encode().len();
        let len = ad_buf_as_slice(&self.buffer).len();
        if len + enc_len < 31 {
            self.add_data(payload);
            true
        } else {
            false
        }
    }

    /// Append the local-name structure: a length byte covering the type
    /// byte and the name, the type byte 0x09, then the name bytes. The
    /// service-data length byte is not touched. The caller must have
    /// sized the buffer for it.
    pub fn add_local_name(&mut self, name: &[u8])
        requires
            old(self).wf(),
            old(self)@.len() + name@.len() + 1 < 31,
        ensures
            final(self).wf(),
            final(self)@ == old(self)@ + seq![(name@.len() + 1) as u8, 0x09u8] + name@,
    {
        let len_byte = (name.len() + 1) as u8;
        let prefix: [u8; 2] = [len_byte, 0x09];
        let _ok = ad_buf_extend(&mut self.buffer, prefix.as_slice());
        let _ok2 = ad_buf_extend(&mut self.buffer, name);
        proof {
            assert(prefix@ =~= seq![(name@.len() + 1) as u8, 0x09u8]);
        }
    }

    /// Try to append the local-name structure: appends as
    /// [`Self::add_local_name`] and reports true when it fits with spare
    /// capacity, and otherwise reports false and leaves the buffer
    /// unchanged.
    pub fn try_add_local_name(&mut self, name: &[u8]) -> (r: bool)
        requires
            old(self).wf(),
        ensures
            final(self).wf(),
            r == (old(self)@.len() + name@.len() + 1 < 31),
            r ==> final(self)@ == old(self)@ + seq![(name@.len() + 1) as u8, 0x09u8] + name@,
            !r ==> final(self)@ == old(self)@,
    {
        let len = ad_buf_as_slice(&self.buffer).len();
        if name.len() <= 31 && len + name.len() + 1 < 31 {
            self.add_local_name(name);
            true
        } else {
            false
        }
    }

    /// The payload as built so far. Calling this repeatedly without
    /// further mutation returns byte-identical output, since the result
    /// is a function of the buffer contents alone.
    pub fn encode(&self) -> (r: &[u8])
        ensures
            r@ == self@,
    {
        ad_buf_as_slice(&self.buffer)
    }

    /// Append the local-name structure, then return the payload.
    pub fn encode_with_local_name(&mut self, name: &[u8]) -> (r: &[u8])
        requires
            old(self).wf(),
            old(self)@.len() + name@.len() + 1 < 31,
        ensures
            final(self).wf(),
            r@ == old(self)@ + seq![(name@.len() + 1) as u8, 0x09u8] + name@,
            final(self)@ == r@,
    {
        self.add_local_name(name);
        ad_buf_as_slice(&self.buffer)
    }
}

impl Default for BtHomeAd {
    /// A new advertisement holding exactly the protocol header.
    fn default() -> (r: Self)
        ensures
            r@ == spec_header(),
            r.wf(),
    {
        BtHomeAd::new()
    }
}

} // verus!
