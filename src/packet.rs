use vstd::prelude::*;

use crate::error::CommandError;
use crate::settings::{fields_in_range, Settings};

verus! {

/// Length of a framed control packet.
pub const PACKET_LEN: usize = 17;

/// Length of the payload between the start marker and the checksum.
pub const PAYLOAD_LEN: usize = 14;

/// Marker byte that opens every packet.
pub const START_MARKER: u8 = 62;

/// Marker byte that closes every packet.
pub const END_MARKER: u8 = 60;

/// Sum of a byte sequence, as an unbounded integer.
pub open spec fn sum_bytes(s: Seq<u8>) -> int
    decreases s.len(),
{
    if s.len() == 0 {
        0
    } else {
        sum_bytes(s.drop_last()) + s.last() as int
    }
}

/// The one-byte checksum of a payload: its sum modulo 256.
pub open spec fn checksum_of(s: Seq<u8>) -> u8 {
    (sum_bytes(s) % 256) as u8
}

/// Wire byte of the power flag.
pub open spec fn enabled_byte_of(enabled: bool) -> u8 {
    if enabled {
        16
    } else {
        0
    }
}

/// The fourteen payload bytes: the device's fixed header and field markers,
/// with the four settings in their places.
pub open spec fn payload_of(enabled: bool, noise_cancelling: u8, volume: u8, voice: u8) -> Seq<
    u8,
> {
    seq![12, 0, 0, 0, 0, 8, 104, 2, enabled_byte_of(enabled), 2, noise_cancelling, 1, voice, volume]
}

/// A payload framed by the start marker, its checksum and the end marker.
pub open spec fn frame_of(payload: Seq<u8>) -> Seq<u8> {
    seq![START_MARKER] + payload + seq![checksum_of(payload), END_MARKER]
}

/// The packet for four raw field values.
pub open spec fn packet_of(enabled: bool, noise_cancelling: u8, volume: u8, voice: u8) -> Seq<u8> {
    frame_of(payload_of(enabled, noise_cancelling, volume, voice))
}

/// The packet for a settings value.
pub open spec fn encoded(s: Settings) -> Seq<u8> {
    packet_of(s.enabled, s.noise_cancelling_level, s.volume, s.voice_passthrough)
}

/// Wire byte of the power flag: 16 when on, 0 when off.
pub fn enabled_byte(enabled: bool) -> (r: u8)
    ensures
        r == enabled_byte_of(enabled),
{
    if enabled {
        16
    } else {
        0
    }
}

/// Sum of the bytes modulo 256, computed with wrapping 8-bit addition.
pub fn checksum(data: &[u8]) -> (r: u8)
    ensures
        r == checksum_of(data@),
{
    let mut acc: u8 = 0;
    let mut i: usize = 0;
    while i < data.len()
        invariant
            i <= data@.len(),
            acc as int == sum_bytes(data@.take(i as int)) % 256,
        decreases data@.len() - i,
    {
        proof {
            let t = data@.take(i as int + 1);
            assert(t.drop_last() =~= data@.take(i as int));
            assert(t.last() == data@[i as int]);
            vstd::arithmetic::div_mod::lemma_add_mod_noop(
                sum_bytes(data@.take(i as int)),
                data@[i as int] as int,
                256,
            );
        }
        acc = acc.wrapping_add(data[i]);
        i = i + 1;
    }
    assert(data@.take(data@.len() as int) =~= data@);
    acc
}

/// The control packet for four raw field values, which must lie in range:
/// 62, the fourteen payload bytes, their checksum, 60.
pub fn get_packet(enabled: bool, noise_cancelling: u8, volume: u8, voice: u8) -> (r: [u8; 17])
    requires
        fields_in_range(noise_cancelling, volume, voice),
    ensures
        r@ == packet_of(enabled, noise_cancelling, volume, voice),
{
    let enabled_value = enabled_byte(enabled);
    let data: [u8; 14] = [
        12,
        0,
        0,
        0,
        0,
        8,
        104,
        2,
        enabled_value,
        2,
        noise_cancelling,
        1,
        voice,
        volume,
    ];
    assert(data@ =~= payload_of(enabled, noise_cancelling, volume, voice));
    let control_sum = checksum(&data);
    let output: [u8; 17] = [
        START_MARKER,
        data[0],
        data[1],
        data[2],
        data[3],
        data[4],
        data[5],
        data[6],
        data[7],
        data[8],
        data[9],
        data[10],
        data[11],
        data[12],
        data[13],
        control_sum,
        END_MARKER,
    ];
    assert(output@ =~= packet_of(enabled, noise_cancelling, volume, voice));
    output
}

/// The control packet for a settings value.
pub fn encode(settings: &Settings) -> (r: [u8; 17])
    requires
        settings.wf(),
    ensures
        r@ == encoded(*settings),
{
    get_packet(
        settings.enabled,
        settings.noise_cancelling_level,
        settings.volume,
        settings.voice_passthrough,
    )
}

/// Validates four raw field values, then encodes them; out-of-range values are
/// rejected and no packet is built.
pub fn try_get_packet(enabled: bool, noise_cancelling: u8, volume: u8, voice: u8) -> (r: Result<
    [u8; 17],
    CommandError,
>)
    ensures
        fields_in_range(noise_cancelling, volume, voice) <==> r is Ok,
        r is Ok ==> r->Ok_0@ == packet_of(enabled, noise_cancelling, volume, voice),
        r is Err ==> r->Err_0 == CommandError::InvalidSettings,
{
    match Settings::new(enabled, noise_cancelling, volume, voice) {
        Ok(settings) => Ok(encode(&settings)),
        Err(e) => Err(e),
    }
}

/// The checksum byte of every packet is the sum of its fourteen payload
/// bytes modulo 256.
pub proof fn lemma_checksum_is_payload_sum(s: Settings)
    requires
        s.wf(),
    ensures
        encoded(s)[15] as int == sum_bytes(
            payload_of(s.enabled, s.noise_cancelling_level, s.volume, s.voice_passthrough),
        ) % 256,
        encoded(s).subrange(1, 15) == payload_of(
            s.enabled,
            s.noise_cancelling_level,
            s.volume,
            s.voice_passthrough,
        ),
{
    let p = payload_of(s.enabled, s.noise_cancelling_level, s.volume, s.voice_passthrough);
    assert(encoded(s).subrange(1, 15) =~= p);
}

/// Every packet, whatever its field values, is seventeen bytes long, opens
/// with 62 and closes with 60.
pub proof fn lemma_frame_shape(enabled: bool, noise_cancelling: u8, volume: u8, voice: u8)
    ensures
        packet_of(enabled, noise_cancelling, volume, voice).len() == PACKET_LEN,
        packet_of(enabled, noise_cancelling, volume, voice)[0] == START_MARKER,
        packet_of(enabled, noise_cancelling, volume, voice)[16] == END_MARKER,
{
}

/// Encoding is a pure function of the settings: two packets that `encode`
/// returns for the same settings are identical, byte for byte.
pub proof fn lemma_encode_deterministic(s: Settings, a: [u8; 17], b: [u8; 17])
    requires
        s.wf(),
        a@ == encoded(s),
        b@ == encoded(s),
    ensures
        a == b,
{
    assert(a@ =~= b@);
}

} // verus!
