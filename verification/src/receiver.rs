use vstd::prelude::*;

use rairplay::config::Features;

verus! {

/// The pairing protocol the receiver offers.
#[derive(Debug, Clone, Copy, PartialEq, Eq, Structural)]
pub enum Pairing {
    Legacy,
    HomeKit,
}

/// Feature bit: legacy pairing.
pub const FEATURE_LEGACY_PAIRING: u64 = 0x800_0000u64;

/// Feature bit: screen mirroring with more than one codec.
pub const FEATURE_SCREEN_MULTI_CODEC: u64 = 0x400_0000_0000u64;

/// Feature bit: HomeKit pairing.
pub const FEATURE_HOMEKIT_PAIRING: u64 = 0x4000_0000_0000u64;

/// The feature bits that the receiver sets or clears itself.
pub open spec fn managed_features() -> u64 {
    FEATURE_LEGACY_PAIRING | FEATURE_SCREEN_MULTI_CODEC | FEATURE_HOMEKIT_PAIRING
}

/// The features the receiver advertises, from the crate's default features:
/// multi-codec mirroring is added, and exactly the pairing bit of the chosen
/// protocol is set.
pub fn receiver_features(defaults: u64, pairing: Pairing) -> (features: u64)
    ensures
        features & FEATURE_SCREEN_MULTI_CODEC == FEATURE_SCREEN_MULTI_CODEC,
        pairing == Pairing::HomeKit ==> features & FEATURE_HOMEKIT_PAIRING == FEATURE_HOMEKIT_PAIRING
            && features & FEATURE_LEGACY_PAIRING == 0,
        pairing == Pairing::Legacy ==> features & FEATURE_LEGACY_PAIRING == FEATURE_LEGACY_PAIRING
            && features & FEATURE_HOMEKIT_PAIRING == 0,
        features & !managed_features() == defaults & !managed_features(),
        features == receiver_features_spec(defaults, pairing),
{
    let with_codecs = defaults | FEATURE_SCREEN_MULTI_CODEC;
    match pairing {
        Pairing::Legacy => {
            let f = (with_codecs | FEATURE_LEGACY_PAIRING) & !FEATURE_HOMEKIT_PAIRING;
            assert(f == ((defaults | 0x400_0000_0000u64) | 0x800_0000u64) & !0x4000_0000_0000u64);
            assert(
                ((defaults | 0x400_0000_0000u64) | 0x800_0000u64) & !0x4000_0000_0000u64 & 0x400_0000_0000u64 == 0x400_0000_0000u64
                && ((defaults | 0x400_0000_0000u64) | 0x800_0000u64) & !0x4000_0000_0000u64 & 0x800_0000u64 == 0x800_0000u64
                && ((defaults | 0x400_0000_0000u64) | 0x800_0000u64) & !0x4000_0000_0000u64 & 0x4000_0000_0000u64 == 0
                && ((defaults | 0x400_0000_0000u64) | 0x800_0000u64) & !0x4000_0000_0000u64 & !(0x800_0000u64 | 0x400_0000_0000u64 | 0x4000_0000_0000u64)
                    == defaults & !(0x800_0000u64 | 0x400_0000_0000u64 | 0x4000_0000_0000u64)
            ) by (bit_vector);
            f
        },
        Pairing::HomeKit => {
            let f = (with_codecs | FEATURE_HOMEKIT_PAIRING) & !FEATURE_LEGACY_PAIRING;
            assert(f == ((defaults | 0x400_0000_0000u64) | 0x4000_0000_0000u64) & !0x800_0000u64);
            assert(
                ((defaults | 0x400_0000_0000u64) | 0x4000_0000_0000u64) & !0x800_0000u64 & 0x400_0000_0000u64 == 0x400_0000_0000u64
                && ((defaults | 0x400_0000_0000u64) | 0x4000_0000_0000u64) & !0x800_0000u64 & 0x4000_0000_0000u64 == 0x4000_0000_0000u64
                && ((defaults | 0x400_0000_0000u64) | 0x4000_0000_0000u64) & !0x800_0000u64 & 0x800_0000u64 == 0
                && ((defaults | 0x400_0000_0000u64) | 0x4000_0000_0000u64) & !0x800_0000u64 & !(0x800_0000u64 | 0x400_0000_0000u64 | 0x4000_0000_0000u64)
                    == defaults & !(0x800_0000u64 | 0x400_0000_0000u64 | 0x4000_0000_0000u64)
            ) by (bit_vector);
            f
        },
    }
}

/// The feature bits that the AirPlay crate sets by default: video, photo,
/// HTTP live streaming, screen mirroring, AirPlay audio, legacy pairing,
/// audio metadata, PCM/ALAC/AAC-LC audio, FairPlay, unified advertising,
/// buffered audio and the PTP/NTP clocks (bits 0, 1, 4, 6, 7, 9, 14 to 20,
/// 27, 30, 40, 41 and 45).
pub const RAIRPLAY_DEFAULT_FEATURES: u64 = 0x2300_481f_c2d3u64;

/// `rairplay::config::Features::default()`, as bits. Trusted: the crate's
/// source builds this value as the union of the flags listed for
/// `RAIRPLAY_DEFAULT_FEATURES`; nothing here proves it.
#[verifier::external_body]
fn default_feature_bits() -> (bits: u64)
    ensures
        bits == RAIRPLAY_DEFAULT_FEATURES,
{
    Features::default().bits()
}

/// The features the receiver advertises for `pairing`, starting from the
/// AirPlay crate's default features.
pub fn advertised_features(pairing: Pairing) -> (features: u64)
    ensures
        features == receiver_features_spec(RAIRPLAY_DEFAULT_FEATURES, pairing),
{
    receiver_features(default_feature_bits(), pairing)
}

/// The features advertised from `defaults` for `pairing`.
pub open spec fn receiver_features_spec(defaults: u64, pairing: Pairing) -> u64 {
    match pairing {
        Pairing::Legacy => ((defaults | FEATURE_SCREEN_MULTI_CODEC) | FEATURE_LEGACY_PAIRING) & !FEATURE_HOMEKIT_PAIRING,
        Pairing::HomeKit => ((defaults | FEATURE_SCREEN_MULTI_CODEC) | FEATURE_HOMEKIT_PAIRING) & !FEATURE_LEGACY_PAIRING,
    }
}

/// The video format the receiver advertises, and the buffer it keeps per
/// stream.
#[derive(Debug, Clone, Copy, PartialEq, Eq, Structural)]
pub struct ReceiverVideo {
    pub width: u32,
    pub height: u32,
    pub fps: u32,
    pub buf_size: u32,
}

/// The receiver's video format: 3840x2160 at 60 frames a second, with a
/// 1 MiB buffer per stream.
pub fn receiver_video() -> (v: ReceiverVideo)
    ensures
        v == (ReceiverVideo { width: 3840, height: 2160, fps: 60, buf_size: 1048576 }),
{
    ReceiverVideo { width: 3840, height: 2160, fps: 60, buf_size: 1024 * 1024 }
}

/// The port the receiver listens on and advertises.
pub const AIRPLAY_PORT: u16 = 7000u16;

} // verus!
