//! Request frames and response validation for the half-duplex register
//! protocol, checked with the bit-serial CRC-16 (feedback 0xA001, start 0xFFFF).
use vstd::prelude::*;

verus! {

/// Function code of a "read input register" request.
pub const FN_READ_INPUT: u8 = 0x04;

/// One bit-serial step of the checksum register.
pub open spec fn crc_shift(c: u16) -> u16 {
    if c & 1 != 0 {
        (c >> 1u16) ^ 0xA001u16
    } else {
        c >> 1u16
    }
}

/// `n` bit-serial steps of the checksum register.
pub open spec fn crc_shifts(c: u16, n: nat) -> u16
    decreases n,
{
    if n == 0 {
        c
    } else {
        crc_shift(crc_shifts(c, (n - 1) as nat))
    }
}

/// The register after one input byte has been folded in.
pub open spec fn crc_byte(c: u16, b: u8) -> u16 {
    crc_shifts(c ^ (b as u16), 8)
}

/// The checksum of a byte sequence.
pub open spec fn crc_of(s: Seq<u8>) -> u16
    decreases s.len(),
{
    if s.len() == 0 {
        0xFFFFu16
    } else {
        crc_byte(crc_of(s.drop_last()), s.last())
    }
}

/// Low byte of a 16-bit value.
pub open spec fn lo_byte(x: u16) -> u8 {
    (x & 0xFFu16) as u8
}

/// High byte of a 16-bit value.
pub open spec fn hi_byte(x: u16) -> u8 {
    (x >> 8u16) as u8
}

/// The checksum of `d` as it travels on the wire: low byte first.
pub open spec fn checksum_le(d: Seq<u8>) -> Seq<u8> {
    seq![lo_byte(crc_of(d)), hi_byte(crc_of(d))]
}

/// A frame whose trailing two bytes are the little-endian checksum of the rest.
pub open spec fn valid_frame(f: Seq<u8>) -> bool {
    &&& f.len() >= 3
    &&& f[f.len() - 2] == lo_byte(crc_of(f.subrange(0, f.len() - 2)))
    &&& f[f.len() - 1] == hi_byte(crc_of(f.subrange(0, f.len() - 2)))
}

/// The first six bytes of a read request: station, function code, register
/// address and register count (one), both big-endian.
pub open spec fn request_head(station_id: u8, register_address: u16) -> Seq<u8> {
    seq![
        station_id,
        FN_READ_INPUT,
        hi_byte(register_address),
        lo_byte(register_address),
        0u8,
        1u8,
    ]
}

/// The whole eight-byte read request.
pub open spec fn request_frame(station_id: u8, register_address: u16) -> Seq<u8> {
    request_head(station_id, register_address) + checksum_le(
        request_head(station_id, register_address),
    )
}

/// Checksum of the first `n` bytes of `data`.
fn crc16_prefix(data: &[u8], n: usize) -> (r: u16)
    requires
        n <= data@.len(),
    ensures
        r == crc_of(data@.subrange(0, n as int)),
{
    let mut crc: u16 = 0xFFFF;
    let mut i: usize = 0;
    while i < n
        invariant
            i <= n,
            n <= data@.len(),
            crc == crc_of(data@.subrange(0, i as int)),
        decreases n - i,
    {
        let ghost before = crc;
        crc = crc ^ (data[i] as u16);
        let ghost mixed = crc;
        let mut k: usize = 0;
        while k < 8
            invariant
                k <= 8,
                crc == crc_shifts(mixed, k as nat),
            decreases 8 - k,
        {
            crc = if (crc & 1) != 0 {
                (crc >> 1) ^ 0xA001
            } else {
                crc >> 1
            };
            k = k + 1;
        }
        proof {
            let s = data@.subrange(0, i + 1);
            assert(s.drop_last() =~= data@.subrange(0, i as int));
            assert(s.last() == data@[i as int]);
        }
        i = i + 1;
    }
    crc
}

/// CRC-16 of `data`, as used by the serial register protocol.
pub fn crc16(data: &[u8]) -> (r: u16)
    ensures
        r == crc_of(data@),
{
    let r = crc16_prefix(data, data.len());
    assert(data@.subrange(0, data@.len() as int) =~= data@);
    r
}

/// Whether the trailing two bytes of `frame` are the little-endian checksum
/// of the bytes before them; a frame shorter than three bytes never is.
pub fn check_crc(frame: &[u8]) -> (r: bool)
    ensures
        r == valid_frame(frame@),
{
    if frame.len() < 3 {
        return false;
    }
    let n = frame.len() - 2;
    let calc = crc16_prefix(frame, n);
    frame[n] == (calc & 0xFF) as u8 && frame[n + 1] == (calc >> 8) as u8
}

/// The read request for one input register of `station_id`.
pub fn build_read_request(station_id: u8, register_address: u16) -> (r: Vec<u8>)
    ensures
        r@ == request_frame(station_id, register_address),
        r@.len() == 8,
{
    let mut req: Vec<u8> = Vec::new();
    req.push(station_id);
    req.push(FN_READ_INPUT);
    req.push((register_address >> 8) as u8);
    req.push((register_address & 0xFF) as u8);
    req.push(0u8);
    req.push(1u8);
    assert(req@ =~= request_head(station_id, register_address));
    let crc = crc16(req.as_slice());
    req.push((crc & 0xFF) as u8);
    req.push((crc >> 8) as u8);
    assert(req@ =~= request_frame(station_id, register_address));
    req
}

/// The one-step register update never maps two registers to the same value.
proof fn lemma_shift_injective(x: u16, y: u16)
    ensures
        crc_shift(x) == crc_shift(y) ==> x == y,
{
    assert((if x & 1 != 0 { (x >> 1u16) ^ 0xA001u16 } else { x >> 1u16 }) == (if y & 1 != 0 {
        (y >> 1u16) ^ 0xA001u16
    } else {
        y >> 1u16
    }) ==> x == y) by (bit_vector);
}

proof fn lemma_shifts_injective(x: u16, y: u16, n: nat)
    ensures
        crc_shifts(x, n) == crc_shifts(y, n) ==> x == y,
    decreases n,
{
    if n > 0 {
        lemma_shifts_injective(x, y, (n - 1) as nat);
        lemma_shift_injective(crc_shifts(x, (n - 1) as nat), crc_shifts(y, (n - 1) as nat));
    }
}

/// Folding a byte in is injective in the register and in the byte.
proof fn lemma_byte_injective(c1: u16, c2: u16, a: u8, b: u8)
    ensures
        crc_byte(c1, a) == crc_byte(c2, b) ==> (c1 ^ (a as u16)) == (c2 ^ (b as u16)),
        crc_byte(c1, a) == crc_byte(c1, b) ==> a == b,
        crc_byte(c1, a) == crc_byte(c2, a) ==> c1 == c2,
{
    lemma_shifts_injective(c1 ^ (a as u16), c2 ^ (b as u16), 8);
    lemma_shifts_injective(c1 ^ (a as u16), c1 ^ (b as u16), 8);
    lemma_shifts_injective(c1 ^ (a as u16), c2 ^ (a as u16), 8);
    assert((c1 ^ (a as u16)) == (c1 ^ (b as u16)) ==> a == b) by (bit_vector);
    assert((c1 ^ (a as u16)) == (c2 ^ (a as u16)) ==> c1 == c2) by (bit_vector);
}

/// Two equally long sequences that differ in exactly one byte have different
/// checksums.
pub proof fn lemma_one_byte_changes_crc(s: Seq<u8>, i: int, b: u8)
    requires
        0 <= i < s.len(),
        s[i] != b,
    ensures
        crc_of(s) != crc_of(s.update(i, b)),
    decreases s.len(),
{
    let t = s.update(i, b);
    lemma_byte_injective(crc_of(s.drop_last()), crc_of(t.drop_last()), s.last(), t.last());
    if i == s.len() - 1 {
        assert(s.drop_last() =~= t.drop_last());
    } else {
        assert(t.drop_last() =~= s.drop_last().update(i, b));
        lemma_one_byte_changes_crc(s.drop_last(), i, b);
    }
}

/// A 16-bit value is determined by its two bytes.
proof fn lemma_bytes_determine(x: u16, y: u16)
    ensures
        lo_byte(x) == lo_byte(y) && hi_byte(x) == hi_byte(y) ==> x == y,
{
    assert(((x & 0xFFu16) as u8) == ((y & 0xFFu16) as u8) && ((x >> 8u16) as u8) == ((y
        >> 8u16) as u8) ==> x == y) by (bit_vector);
}

/// Any byte sequence of at least one byte, followed by its little-endian
/// checksum, is a frame that validates.
pub proof fn lemma_checksum_self_consistent(d: Seq<u8>)
    requires
        d.len() >= 1,
    ensures
        valid_frame(d + checksum_le(d)),
{
    let f = d + checksum_le(d);
    assert(f.subrange(0, f.len() - 2) =~= d);
}

/// Flipping any single bit of a valid frame, in its body or in its checksum
/// field, gives a frame that does not validate.
pub proof fn lemma_single_bit_flip_detected(f: Seq<u8>, i: int, k: u8)
    requires
        valid_frame(f),
        0 <= i < f.len(),
        k < 8,
    ensures
        !valid_frame(f.update(i, f[i] ^ (1u8 << k))),
{
    let b = f[i];
    let nb = (b ^ (1u8 << k)) as u8;
    assert(k < 8 ==> (b ^ (1u8 << k)) != b) by (bit_vector);
    let g = f.update(i, nb);
    let n = f.len() - 2;
    if i < n {
        assert(g.subrange(0, n) =~= f.subrange(0, n).update(i, nb));
        lemma_one_byte_changes_crc(f.subrange(0, n), i, nb);
        lemma_bytes_determine(crc_of(f.subrange(0, n)), crc_of(g.subrange(0, n)));
    } else {
        assert(g.subrange(0, n) =~= f.subrange(0, n));
    }
}

} // verus!
