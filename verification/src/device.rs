//! Device enumeration results, capture format negotiation and the output
//! media type that a negotiated format asks for.

use crate::camera::{CameraConfig, CameraError, DeviceInfo, PixelFormat};
use crate::guid::{mf_media_type_video, mf_media_type_video_bits, Guid};
use crate::pixel_map::{from_mf_guid, spec_from_mf_guid, spec_to_mf_guid, to_mf_guid};
use vstd::prelude::*;

verus! {

/// The frame rate that a negotiated format reports.
pub const NEGOTIATED_FPS: u32 = 30;

/// A video format that has been negotiated with the device.
#[derive(Debug, Clone, Copy, PartialEq, Eq, Structural)]
pub struct NegotiatedFormat {
    pub width: u32,
    pub height: u32,
    pub format: PixelFormat,
    pub fps: u32,
}

/// What the device reports of one of its native media types: the major
/// type, the subtype and the packed frame size, each absent where the
/// attribute could not be read.
#[derive(Debug, Clone, Copy, PartialEq, Eq, Structural)]
pub struct NativeMediaType {
    pub major_type: Option<Guid>,
    pub subtype: Option<Guid>,
    pub frame_size: Option<u64>,
}

/// What the output media type of the source reader is set to.
#[derive(Debug, Clone, Copy, PartialEq, Eq, Structural)]
pub struct OutputMediaType {
    pub subtype: Guid,
    pub frame_size: u64,
}

// ---------------------------------------------------------------------
// Frame sizes

/// The frame size attribute packs the width in the low 32 bits and the
/// height in the high 32 bits.
pub open spec fn spec_pack_frame_size(width: u32, height: u32) -> int {
    height * 0x1_0000_0000 + width
}

pub open spec fn spec_frame_width(frame_size: u64) -> u32 {
    (frame_size % 0x1_0000_0000) as u32
}

pub open spec fn spec_frame_height(frame_size: u64) -> u32 {
    (frame_size / 0x1_0000_0000) as u32
}

/// Packs a width and a height into a frame size attribute.
pub fn pack_frame_size(width: u32, height: u32) -> (frame_size: u64)
    ensures
        frame_size == spec_pack_frame_size(width, height),
{
    let packed: u64 = ((height as u64) << 32) | (width as u64);
    assert(packed == (height as u64) * 0x1_0000_0000u64 + (width as u64)) by (bit_vector)
        requires
            packed == ((height as u64) << 32) | (width as u64),
    ;
    packed
}

/// Unpacks a frame size attribute into `(width, height)`.
pub fn unpack_frame_size(frame_size: u64) -> (size: (u32, u32))
    ensures
        size.0 == spec_frame_width(frame_size),
        size.1 == spec_frame_height(frame_size),
{
    let width: u32 = (frame_size & 0xFFFF_FFFF) as u32;
    let height: u32 = ((frame_size >> 32) & 0xFFFF_FFFF) as u32;
    assert(width == (frame_size % 0x1_0000_0000) as u32) by (bit_vector)
        requires
            width == (frame_size & 0xFFFF_FFFF) as u32,
    ;
    assert(height == (frame_size / 0x1_0000_0000) as u32) by (bit_vector)
        requires
            height == ((frame_size >> 32) & 0xFFFF_FFFF) as u32,
    ;
    (width, height)
}

/// Unpacking a packed frame size gives back the width and the height.
pub proof fn lemma_frame_size_unpack_pack(width: u32, height: u32)
    ensures
        0 <= spec_pack_frame_size(width, height) <= u64::MAX,
        spec_frame_width(spec_pack_frame_size(width, height) as u64) == width,
        spec_frame_height(spec_pack_frame_size(width, height) as u64) == height,
{
    let p = spec_pack_frame_size(width, height);
    assert(0 <= p <= u64::MAX) by (nonlinear_arith)
        requires
            p == height * 0x1_0000_0000 + width,
            0 <= width < 0x1_0000_0000,
            0 <= height < 0x1_0000_0000,
    ;
    assert(p % 0x1_0000_0000 == width && p / 0x1_0000_0000 == height) by (nonlinear_arith)
        requires
            p == height * 0x1_0000_0000 + width,
            0 <= width < 0x1_0000_0000,
            0 <= height < 0x1_0000_0000,
    ;
}

/// Packing the unpacked width and height of a frame size gives it back.
pub proof fn lemma_frame_size_pack_unpack(frame_size: u64)
    ensures
        spec_pack_frame_size(spec_frame_width(frame_size), spec_frame_height(frame_size))
            == frame_size,
{
    let w = frame_size % 0x1_0000_0000;
    let h = frame_size / 0x1_0000_0000;
    assert(h < 0x1_0000_0000 && h * 0x1_0000_0000 + w == frame_size) by (nonlinear_arith)
        requires
            w == frame_size % 0x1_0000_0000,
            h == frame_size / 0x1_0000_0000,
            0 <= frame_size <= u64::MAX,
    ;
}

// ---------------------------------------------------------------------
// Scoring

/// Ten times the priority of the first requested resolution that is
/// `w` x `h`, or 0 where none is.
pub open spec fn resolution_score(reqs: Seq<(u32, u32, u8)>, w: u32, h: u32) -> int
    decreases reqs.len(),
{
    if reqs.len() == 0 {
        0
    } else if reqs[0].0 == w && reqs[0].1 == h {
        reqs[0].2 * 10
    } else {
        resolution_score(reqs.drop_first(), w, h)
    }
}

/// Ten times the priority of the first requested pixel format that is
/// `fmt`, or 0 where none is.
pub open spec fn format_score(reqs: Seq<(PixelFormat, u8)>, fmt: PixelFormat) -> int
    decreases reqs.len(),
{
    if reqs.len() == 0 {
        0
    } else if reqs[0].0 == fmt {
        reqs[0].1 * 10
    } else {
        format_score(reqs.drop_first(), fmt)
    }
}

/// The preference score of a `w` x `h` format in `fmt`: the resolution
/// score plus the format score, with the width in hundreds of pixels as
/// the tie-breaker that prefers larger frames.
pub open spec fn spec_calculate_score(config: CameraConfig, w: u32, h: u32, fmt: PixelFormat) -> int {
    resolution_score(config.resolution_req@, w, h) + format_score(config.format_req@, fmt) + w / 100
}

proof fn lemma_resolution_score_bounds(reqs: Seq<(u32, u32, u8)>, w: u32, h: u32)
    ensures
        0 <= resolution_score(reqs, w, h) <= 2550,
    decreases reqs.len(),
{
    if reqs.len() > 0 {
        lemma_resolution_score_bounds(reqs.drop_first(), w, h);
    }
}

proof fn lemma_format_score_bounds(reqs: Seq<(PixelFormat, u8)>, fmt: PixelFormat)
    ensures
        0 <= format_score(reqs, fmt) <= 2550,
    decreases reqs.len(),
{
    if reqs.len() > 0 {
        lemma_format_score_bounds(reqs.drop_first(), fmt);
    }
}

/// The resolution part of the score is ten times the priority of the first
/// request for exactly `w` x `h`, wherever in the list it stands.
pub proof fn lemma_resolution_score_first_match(reqs: Seq<(u32, u32, u8)>, w: u32, h: u32, k: int)
    requires
        0 <= k < reqs.len(),
        reqs[k].0 == w && reqs[k].1 == h,
        forall|j: int| 0 <= j < k ==> !(reqs[j].0 == w && reqs[j].1 == h),
    ensures
        resolution_score(reqs, w, h) == reqs[k].2 * 10,
    decreases k,
{
    if k > 0 {
        let rest = reqs.drop_first();
        assert forall|j: int| 0 <= j < k - 1 implies !(rest[j].0 == w && rest[j].1 == h) by {
            assert(rest[j] == reqs[j + 1]);
        }
        assert(!(reqs[0].0 == w && reqs[0].1 == h));
        lemma_resolution_score_first_match(rest, w, h, k - 1);
    }
}

/// Without a request for exactly `w` x `h`, the resolution part is 0.
pub proof fn lemma_resolution_score_no_match(reqs: Seq<(u32, u32, u8)>, w: u32, h: u32)
    requires
        forall|j: int| 0 <= j < reqs.len() ==> !(reqs[j].0 == w && reqs[j].1 == h),
    ensures
        resolution_score(reqs, w, h) == 0,
    decreases reqs.len(),
{
    if reqs.len() > 0 {
        let rest = reqs.drop_first();
        assert forall|j: int| 0 <= j < rest.len() implies !(rest[j].0 == w && rest[j].1 == h) by {
            assert(rest[j] == reqs[j + 1]);
        }
        assert(!(reqs[0].0 == w && reqs[0].1 == h));
        lemma_resolution_score_no_match(rest, w, h);
    }
}

/// The format part of the score is ten times the priority of the first
/// request for `fmt`, wherever in the list it stands.
pub proof fn lemma_format_score_first_match(reqs: Seq<(PixelFormat, u8)>, fmt: PixelFormat, k: int)
    requires
        0 <= k < reqs.len(),
        reqs[k].0 == fmt,
        forall|j: int| 0 <= j < k ==> reqs[j].0 != fmt,
    ensures
        format_score(reqs, fmt) == reqs[k].1 * 10,
    decreases k,
{
    if k > 0 {
        let rest = reqs.drop_first();
        assert forall|j: int| 0 <= j < k - 1 implies rest[j].0 != fmt by {
            assert(rest[j] == reqs[j + 1]);
        }
        assert(reqs[0].0 != fmt);
        lemma_format_score_first_match(rest, fmt, k - 1);
    }
}

/// Without a request for `fmt`, the format part is 0.
pub proof fn lemma_format_score_no_match(reqs: Seq<(PixelFormat, u8)>, fmt: PixelFormat)
    requires
        forall|j: int| 0 <= j < reqs.len() ==> reqs[j].0 != fmt,
    ensures
        format_score(reqs, fmt) == 0,
    decreases reqs.len(),
{
    if reqs.len() > 0 {
        let rest = reqs.drop_first();
        assert forall|j: int| 0 <= j < rest.len() implies rest[j].0 != fmt by {
            assert(rest[j] == reqs[j + 1]);
        }
        assert(reqs[0].0 != fmt);
        lemma_format_score_no_match(rest, fmt);
    }
}

/// The score of a format that the caller asked for: the first requests that
/// match its size and its pixel format, at indices `ri` and `fi`, give ten
/// times their priorities, and the width in hundreds is added.
pub proof fn lemma_score_of_requested_format(config: CameraConfig, w: u32, h: u32, fmt: PixelFormat, ri: int, fi: int)
    requires
        0 <= ri < config.resolution_req@.len(),
        config.resolution_req@[ri].0 == w && config.resolution_req@[ri].1 == h,
        forall|j: int| 0 <= j < ri ==> !(config.resolution_req@[j].0 == w && config.resolution_req@[j].1 == h),
        0 <= fi < config.format_req@.len(),
        config.format_req@[fi].0 == fmt,
        forall|j: int| 0 <= j < fi ==> config.format_req@[j].0 != fmt,
    ensures
        spec_calculate_score(config, w, h, fmt)
            == config.resolution_req@[ri].2 * 10 + config.format_req@[fi].1 * 10 + w / 100,
{
    lemma_resolution_score_first_match(config.resolution_req@, w, h, ri);
    lemma_format_score_first_match(config.format_req@, fmt, fi);
}

/// The score of a format that no request matches is the width in hundreds.
pub proof fn lemma_score_of_unrequested_format(config: CameraConfig, w: u32, h: u32, fmt: PixelFormat)
    requires
        forall|j: int| 0 <= j < config.resolution_req@.len()
            ==> !(config.resolution_req@[j].0 == w && config.resolution_req@[j].1 == h),
        forall|j: int| 0 <= j < config.format_req@.len() ==> config.format_req@[j].0 != fmt,
    ensures
        spec_calculate_score(config, w, h, fmt) == w / 100,
{
    lemma_resolution_score_no_match(config.resolution_req@, w, h);
    lemma_format_score_no_match(config.format_req@, fmt);
}

fn resolution_score_of(reqs: &Vec<(u32, u32, u8)>, w: u32, h: u32) -> (score: i32)
    ensures
        score == resolution_score(reqs@, w, h),
{
    let n = reqs.len();
    let mut i: usize = 0;
    assert(reqs@.skip(0) =~= reqs@);
    while i < n
        invariant
            n == reqs@.len(),
            i <= n,
            resolution_score(reqs@, w, h) == resolution_score(reqs@.skip(i as int), w, h),
        decreases n - i,
    {
        let (rw, rh, prio) = reqs[i];
        assert(reqs@.skip(i as int).drop_first() =~= reqs@.skip(i + 1));
        if rw == w && rh == h {
            return (prio as i32) * 10;
        }
        i = i + 1;
    }
    assert(reqs@.skip(n as int).len() == 0);
    0
}

fn format_score_of(reqs: &Vec<(PixelFormat, u8)>, fmt: PixelFormat) -> (score: i32)
    ensures
        score == format_score(reqs@, fmt),
{
    let n = reqs.len();
    let mut i: usize = 0;
    assert(reqs@.skip(0) =~= reqs@);
    while i < n
        invariant
            n == reqs@.len(),
            i <= n,
            format_score(reqs@, fmt) == format_score(reqs@.skip(i as int), fmt),
        decreases n - i,
    {
        let (rf, prio) = reqs[i];
        assert(reqs@.skip(i as int).drop_first() =~= reqs@.skip(i + 1));
        if rf == fmt {
            return (prio as i32) * 10;
        }
        i = i + 1;
    }
    assert(reqs@.skip(n as int).len() == 0);
    0
}

/// Scores a format against the caller's preferences; higher is better.
pub fn calculate_score(config: &CameraConfig, w: u32, h: u32, fmt: PixelFormat) -> (score: i32)
    ensures
        score == spec_calculate_score(*config, w, h, fmt),
{
    proof {
        lemma_resolution_score_bounds(config.resolution_req@, w, h);
        lemma_format_score_bounds(config.format_req@, fmt);
    }
    let resolution = resolution_score_of(&config.resolution_req, w, h);
    let format = format_score_of(&config.format_req, fmt);
    resolution + format + (w / 100) as i32
}

// ---------------------------------------------------------------------
// Negotiation

/// What a native media type offers: `None` unless it is video and its
/// subtype and frame size could be read; else its score and the format.
pub open spec fn spec_parse_media_type(media: NativeMediaType, config: CameraConfig) -> Option<(int, NegotiatedFormat)> {
    match (media.major_type, media.subtype, media.frame_size) {
        (Some(major), Some(subtype), Some(frame_size)) => {
            if major.bits != mf_media_type_video_bits() {
                None
            } else {
                let fmt = NegotiatedFormat {
                    width: spec_frame_width(frame_size),
                    height: spec_frame_height(frame_size),
                    format: spec_from_mf_guid(subtype),
                    fps: NEGOTIATED_FPS,
                };
                Some((spec_calculate_score(config, fmt.width, fmt.height, fmt.format), fmt))
            }
        },
        _ => None,
    }
}

/// Reads the format that a native media type offers, with its score.
pub fn parse_media_type(media: &NativeMediaType, config: &CameraConfig) -> (parsed: Option<(i32, NegotiatedFormat)>)
    ensures
        match spec_parse_media_type(*media, *config) {
            Some((s, f)) => parsed == Some((s as i32, f)) && s == parsed.unwrap().0,
            None => parsed is None,
        },
        parsed matches Some((s, f)) ==> s == spec_calculate_score(*config, f.width, f.height, f.format),
{
    let major = match media.major_type {
        Some(g) => g,
        None => return None,
    };
    if major != mf_media_type_video() {
        return None;
    }
    let subtype = match media.subtype {
        Some(g) => g,
        None => return None,
    };
    let core_fmt = from_mf_guid(&subtype);
    let frame_size = match media.frame_size {
        Some(v) => v,
        None => return None,
    };
    let (width, height) = unpack_frame_size(frame_size);
    let score = calculate_score(config, width, height, core_fmt);
    Some((score, NegotiatedFormat { width, height, format: core_fmt, fps: NEGOTIATED_FPS }))
}

/// What a native media type offers is the format its attributes describe
/// (width in the low half of the frame size, height in the high half, the
/// pixel format of its subtype, 30 frames a second), scored as
/// `calculate_score` scores that very format.
pub proof fn lemma_parsed_format_is_scored_as_itself(media: NativeMediaType, config: CameraConfig)
    ensures
        spec_parse_media_type(media, config) matches Some((s, f)) ==> {
            &&& s == spec_calculate_score(config, f.width, f.height, f.format)
            &&& f.width == spec_frame_width(media.frame_size.unwrap())
            &&& f.height == spec_frame_height(media.frame_size.unwrap())
            &&& f.format == spec_from_mf_guid(media.subtype.unwrap())
            &&& f.fps == NEGOTIATED_FPS
        },
        spec_parse_media_type(media, config) is Some <==> {
            &&& media.major_type matches Some(m) && m.bits == mf_media_type_video_bits()
            &&& media.subtype is Some
            &&& media.frame_size is Some
        },
{
}

/// A native type whose frame size is `w` x `h` and which a request names
/// as the first for that size gets that request's bonus, not that of a
/// request for `h` x `w`.
pub proof fn lemma_parsed_score_matches_requested_size(media: NativeMediaType, config: CameraConfig, w: u32, h: u32, k: int)
    requires
        media.major_type matches Some(m) && m.bits == mf_media_type_video_bits(),
        media.subtype is Some,
        media.frame_size == Some(spec_pack_frame_size(w, h) as u64),
        0 <= k < config.resolution_req@.len(),
        config.resolution_req@[k].0 == w && config.resolution_req@[k].1 == h,
        forall|j: int| 0 <= j < k ==> !(config.resolution_req@[j].0 == w && config.resolution_req@[j].1 == h),
    ensures
        spec_parse_media_type(media, config) matches Some((s, f)) && f.width == w && f.height == h
            && s == config.resolution_req@[k].2 * 10
                + format_score(config.format_req@, spec_from_mf_guid(media.subtype.unwrap())) + w / 100,
{
    lemma_frame_size_unpack_pack(w, h);
    lemma_resolution_score_first_match(config.resolution_req@, w, h, k);
}

/// The native media type offers a format that the reader can be set to:
/// one that parses and whose pixel format has a subtype GUID.
pub open spec fn offers_settable_format(media: NativeMediaType, config: CameraConfig) -> bool {
    match spec_parse_media_type(media, config) {
        Some((_, f)) => spec_to_mf_guid(f.format) is Some,
        None => false,
    }
}

/// The score of what a native media type offers.
pub open spec fn offered_score(media: NativeMediaType, config: CameraConfig) -> int {
    spec_parse_media_type(media, config).unwrap().0
}

/// The native media type at `i` offers a settable format, no other one
/// offers a settable format with a higher score and no later one one with
/// as high a score: the one that negotiation picks.
pub open spec fn is_chosen_media_type(media: Seq<NativeMediaType>, config: CameraConfig, i: int) -> bool {
    &&& 0 <= i < media.len()
    &&& offers_settable_format(media[i], config)
    &&& forall|j: int| 0 <= j < media.len() && #[trigger] offers_settable_format(media[j], config)
        ==> offered_score(media[j], config) <= offered_score(media[i], config)
    &&& forall|j: int| i < j < media.len() && #[trigger] offers_settable_format(media[j], config)
        ==> offered_score(media[j], config) < offered_score(media[i], config)
}

/// Picks, among the native media types of a device in their enumeration
/// order, the settable format (one whose pixel format has a subtype GUID)
/// with the highest score; of equal scores the last wins. Fails with
/// `FormatNotSupported` exactly where no type offers a settable format.
pub fn negotiate_format(media: &Vec<NativeMediaType>, config: &CameraConfig) -> (res: Result<NegotiatedFormat, CameraError>)
    ensures
        match res {
            Ok(fmt) => exists|i: int| is_chosen_media_type(media@, *config, i)
                && #[trigger] spec_parse_media_type(media@[i], *config).unwrap().1 == fmt,
            Err(e) => e is FormatNotSupported
                && forall|i: int| 0 <= i < media@.len() ==> !#[trigger] offers_settable_format(media@[i], *config),
        },
        res matches Ok(fmt) ==> spec_to_mf_guid(fmt.format) is Some,
{
    let n = media.len();
    let mut best: Option<(i32, NegotiatedFormat)> = None;
    let ghost mut best_idx: int = 0;
    let mut i: usize = 0;
    while i < n
        invariant
            n == media@.len(),
            i <= n,
            match best {
                None => forall|j: int| 0 <= j < i ==> !#[trigger] offers_settable_format(media@[j], *config),
                Some((s, f)) => {
                    &&& 0 <= best_idx < i
                    &&& spec_parse_media_type(media@[best_idx], *config) == Some((s as int, f))
                    &&& offers_settable_format(media@[best_idx], *config)
                    &&& forall|j: int| 0 <= j < i && #[trigger] offers_settable_format(media@[j], *config)
                        ==> offered_score(media@[j], *config) <= s
                    &&& forall|j: int| best_idx < j < i && #[trigger] offers_settable_format(media@[j], *config)
                        ==> offered_score(media@[j], *config) < s
                },
            },
        decreases n - i,
    {
        let parsed = parse_media_type(&media[i], config);
        match parsed {
            Some((score, fmt)) => {
                if to_mf_guid(fmt.format).is_some() {
                    let replace = match best {
                        None => true,
                        Some((best_score, _)) => score >= best_score,
                    };
                    if replace {
                        best = Some((score, fmt));
                        proof {
                            best_idx = i as int;
                        }
                    }
                }
            },
            None => {},
        }
        i = i + 1;
    }
    match best {
        Some((_, fmt)) => {
            assert(is_chosen_media_type(media@, *config, best_idx));
            Ok(fmt)
        },
        None => Err(CameraError::FormatNotSupported),
    }
}

/// The format that negotiation picks can be set on the reader: it has a
/// subtype GUID, so `output_media_type` succeeds on it.
pub proof fn lemma_chosen_format_is_settable(media: Seq<NativeMediaType>, config: CameraConfig, i: int)
    requires
        is_chosen_media_type(media, config, i),
    ensures
        spec_parse_media_type(media[i], config) is Some,
        spec_to_mf_guid(spec_parse_media_type(media[i], config).unwrap().1.format) is Some,
{
}

/// The output media type that a negotiated format asks for: its subtype
/// GUID and its packed frame size. Fails with `FormatNotSupported` where
/// the format has no subtype GUID.
pub fn output_media_type(fmt: &NegotiatedFormat) -> (res: Result<OutputMediaType, CameraError>)
    ensures
        match res {
            Ok(out) => spec_to_mf_guid(fmt.format) == Some(out.subtype)
                && out.frame_size == spec_pack_frame_size(fmt.width, fmt.height),
            Err(e) => e is FormatNotSupported && spec_to_mf_guid(fmt.format) is None,
        },
{
    match to_mf_guid(fmt.format) {
        Some(subtype) => Ok(OutputMediaType { subtype, frame_size: pack_frame_size(fmt.width, fmt.height) }),
        None => Err(CameraError::FormatNotSupported),
    }
}

// ---------------------------------------------------------------------
// Enumeration

/// The devices that enumeration keeps, as `(name, id)` pairs: those whose
/// friendly name is not empty, in their order.
pub open spec fn named_devices(entries: Seq<(Seq<char>, Seq<char>)>) -> Seq<(Seq<char>, Seq<char>)>
    decreases entries.len(),
{
    if entries.len() == 0 {
        Seq::empty()
    } else {
        let kept = named_devices(entries.drop_last());
        if entries.last().0.len() == 0 {
            kept
        } else {
            kept.push(entries.last())
        }
    }
}

/// The views of `(name, id)` pairs.
pub open spec fn entry_views(entries: Seq<(String, String)>) -> Seq<(Seq<char>, Seq<char>)> {
    entries.map_values(|e: (String, String)| (e.0@, e.1@))
}

/// The records that enumeration keeps are exactly the entries with a
/// non-empty name, in their order, each of them, repeated names included.
pub proof fn lemma_named_devices_keeps_every_named_entry(entries: Seq<(Seq<char>, Seq<char>)>)
    ensures
        named_devices(entries) == entries.filter(|e: (Seq<char>, Seq<char>)| e.0.len() != 0),
    decreases entries.len(),
{
    reveal_with_fuel(Seq::<_>::filter, 1);
    if entries.len() > 0 {
        lemma_named_devices_keeps_every_named_entry(entries.drop_last());
    }
}

/// Enumeration keeps one record per named entry: appending a named entry
/// appends its record, whatever came before, and appending an unnamed one
/// changes nothing.
pub proof fn lemma_named_devices_append(entries: Seq<(Seq<char>, Seq<char>)>, e: (Seq<char>, Seq<char>))
    ensures
        e.0.len() != 0 ==> named_devices(entries.push(e)) == named_devices(entries).push(e),
        e.0.len() != 0 ==> named_devices(entries.push(e)).len() == named_devices(entries).len() + 1,
        e.0.len() == 0 ==> named_devices(entries.push(e)) == named_devices(entries),
{
    assert(entries.push(e).drop_last() =~= entries);
}

/// The device record of a device with the given friendly name and
/// symbolic link; none for a device without a name.
pub fn device_info(name: &String, id: &String) -> (info: Option<DeviceInfo>)
    ensures
        match info {
            Some(d) => name@.len() != 0 && d.name@ == name@ && d.id@ == id@
                && d.backend@ == "MSMF"@ && d.bus_info is None,
            None => name@.len() == 0,
        },
{
    if name.as_str().is_empty() {
        None
    } else {
        Some(DeviceInfo {
            name: name.clone(),
            id: id.clone(),
            backend: "MSMF".to_owned(),
            bus_info: None,
        })
    }
}

/// The device records of the enumerated devices, given as `(name, id)`
/// pairs in enumeration order: one for each device with a name.
pub fn collect_devices(entries: &Vec<(String, String)>) -> (devices: Vec<DeviceInfo>)
    ensures
        devices@.len() == named_devices(entry_views(entries@)).len(),
        forall|k: int| 0 <= k < devices@.len() ==> {
            &&& #[trigger] devices@[k].name@ == named_devices(entry_views(entries@))[k].0
            &&& devices@[k].id@ == named_devices(entry_views(entries@))[k].1
            &&& devices@[k].backend@ == "MSMF"@
            &&& devices@[k].bus_info is None
        },
{
    let n = entries.len();
    let mut devices: Vec<DeviceInfo> = Vec::new();
    let mut i: usize = 0;
    while i < n
        invariant
            n == entries@.len(),
            i <= n,
            devices@.len() == named_devices(entry_views(entries@).take(i as int)).len(),
            forall|k: int| 0 <= k < devices@.len() ==> {
                &&& #[trigger] devices@[k].name@ == named_devices(entry_views(entries@).take(i as int))[k].0
                &&& devices@[k].id@ == named_devices(entry_views(entries@).take(i as int))[k].1
                &&& devices@[k].backend@ == "MSMF"@
                &&& devices@[k].bus_info is None
            },
        decreases n - i,
    {
        let ghost views = entry_views(entries@);
        assert(views.take(i + 1).drop_last() =~= views.take(i as int));
        assert(views.take(i + 1).last() == (entries@[i as int].0@, entries@[i as int].1@));
        match device_info(&entries[i].0, &entries[i].1) {
            Some(d) => {
                devices.push(d);
            },
            None => {},
        }
        i = i + 1;
    }
    assert(entry_views(entries@).take(n as int) =~= entry_views(entries@));
    devices
}

} // verus!
