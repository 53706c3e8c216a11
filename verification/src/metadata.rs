//! Normalizing decoded metadata documents into `VatAnimationData`.
//!
//! Two source formats are accepted: the canonical format and a subset of
//! OpenVAT remap metadata with the layout fields the runtime needs. The
//! JSON decoding itself happens before these functions run; they receive
//! the decoded fields as plain values and apply the format's rules.
use vstd::prelude::*;

use crate::asset::{
    VatAnimationData, VatAnimationMode, VatAuxTextureDescriptor, VatAuxTextureSemantic, VatClip,
    VatClipEvent, VatCoordinateSystem, VatNormalEncoding, VatNormalTexture, VatPlaybackSpace,
    VatPositionEncoding, VatSourceFormat, VatTextureDescriptor, VatTexturePrecision,
    VatVertexIdAttribute,
};
use crate::components::VatLoopMode;
use crate::float_bits::{f32_lt, F32Bits, Vec3Bits, POSITIVE_ZERO_BITS};
use crate::text::{concat3, text_eq, text_lt};
use crate::validation::{
    validate_animation_data, validation_outcome, VatValidationError,
};

verus! {

/// The pattern of `24.0`, the frame rate OpenVAT bakes are played at.
pub const OPENVAT_FRAMES_PER_SECOND_BITS: u32 = 0x41C0_0000;

/// Why a metadata document could not be turned into `VatAnimationData`.
#[derive(Clone, Debug, PartialEq)]
pub enum VatMetadataLoadError {
    /// The document breaks a metadata rule.
    Validation(VatValidationError),
    /// The document is not in a supported format; the text says what is unsupported.
    UnsupportedFormat(String),
}

/// Which source format a document is in.
#[derive(Clone, Copy, Debug, PartialEq, Eq, Structural)]
pub enum VatMetadataKind {
    OpenVat,
    Canonical,
}

/// Minimum and maximum corners of a box.
#[derive(Clone, Copy, Debug, PartialEq)]
pub struct RawBounds {
    pub min: Vec3Bits,
    pub max: Vec3Bits,
}

/// A clip event as decoded.
#[derive(Clone, Debug, PartialEq)]
pub struct RawClipEvent {
    pub name: String,
    pub frame: u32,
}

/// A canonical clip as decoded.
#[derive(Clone, Debug, PartialEq)]
pub struct RawClip {
    pub name: String,
    pub start_frame: u32,
    pub end_frame: u32,
    pub default_loop_mode: Option<String>,
    pub events: Vec<RawClipEvent>,
}

/// A texture descriptor as decoded.
#[derive(Clone, Debug, PartialEq)]
pub struct RawTexture {
    pub relative_path: Option<String>,
    pub width: u32,
    pub height: u32,
    pub rows_per_frame: Option<u32>,
    pub precision: Option<String>,
}

/// A normal texture description as decoded.
#[derive(Clone, Debug, PartialEq)]
pub struct RawNormalTexture {
    pub mode: String,
    pub row_offset: Option<u32>,
    pub texture: Option<RawTexture>,
    pub encoding: Option<String>,
}

/// An auxiliary texture as decoded.
#[derive(Clone, Debug, PartialEq)]
pub struct RawAuxTexture {
    pub semantic: Option<String>,
    pub texture: RawTexture,
}

/// A canonical metadata document as decoded.
#[derive(Clone, Debug, PartialEq)]
pub struct RawCanonicalVatMetadata {
    pub format: Option<String>,
    pub animation_mode: Option<String>,
    pub vertex_count: u32,
    pub frame_count: u32,
    pub frames_per_second: Option<F32Bits>,
    pub seconds_per_frame: Option<F32Bits>,
    pub decode_bounds: RawBounds,
    pub animation_bounds: Option<RawBounds>,
    pub clips: Vec<RawClip>,
    pub position_texture: RawTexture,
    pub normal_texture: Option<RawNormalTexture>,
    pub rotation_texture: Option<RawTexture>,
    pub auxiliary_textures: Vec<RawAuxTexture>,
    pub coordinate_system: Option<String>,
    pub playback_space: Option<String>,
    pub vertex_id_attribute: Option<String>,
    pub position_encoding: Option<String>,
}

/// The `os-remap` block of an OpenVAT document.
#[derive(Clone, Copy, Debug, PartialEq)]
pub struct RawOpenVatRemap {
    pub min: Vec3Bits,
    pub max: Vec3Bits,
    pub frames: u32,
}

/// One entry of an OpenVAT `animations` map.
#[derive(Clone, Copy, Debug, PartialEq)]
pub struct RawOpenVatClip {
    pub start_frame: u32,
    pub end_frame: u32,
    pub frame_rate: Option<F32Bits>,
    pub looping: bool,
}

/// An OpenVAT-compatible document as decoded. `animations` holds the
/// entries of the document's `animations` map in ascending key order,
/// each key once (see `animation_keys_ascend`).
#[derive(Clone, Debug, PartialEq)]
pub struct RawOpenVatMetadata {
    pub os_remap: RawOpenVatRemap,
    pub animations: Vec<(String, RawOpenVatClip)>,
    pub vertex_count: Option<u32>,
    pub texture_width: Option<u32>,
    pub texture_height: Option<u32>,
    pub rows_per_frame: Option<u32>,
    pub packed_normals: bool,
    pub normal_row_offset: Option<u32>,
    pub coordinate_system: Option<String>,
    pub playback_space: Option<String>,
}

/// What a load error says, with its texts as characters: an
/// unsupported-format message, an unsupported coordinate system name, or
/// another broken metadata rule.
pub enum MetadataFault {
    Unsupported(Seq<char>),
    UnsupportedCoordinateSystem(Seq<char>),
    Invalid(VatValidationError),
}

/// The fault that `e` reports.
pub open spec fn fault_of(e: VatMetadataLoadError) -> MetadataFault {
    match e {
        VatMetadataLoadError::UnsupportedFormat(text) => MetadataFault::Unsupported(text@),
        VatMetadataLoadError::Validation(VatValidationError::UnsupportedCoordinateSystem(name)) => {
            MetadataFault::UnsupportedCoordinateSystem(name@)
        },
        VatMetadataLoadError::Validation(v) => MetadataFault::Invalid(v),
    }
}

/// `r` is `Ok(value)` when `expected` is `Some(value)`, else an error reporting `fault`.
pub open spec fn ok_or_fault<T>(
    r: Result<T, VatMetadataLoadError>,
    expected: Option<T>,
    fault: MetadataFault,
) -> bool {
    match expected {
        Some(value) => r == Ok::<T, VatMetadataLoadError>(value),
        None => r matches Err(e) && fault_of(e) == fault,
    }
}

/// The unsupported-format fault `prefix`, the offending value, and a closing quote.
pub open spec fn unsupported_value(prefix: Seq<char>, value: Seq<char>) -> MetadataFault {
    MetadataFault::Unsupported(prefix + value + "'"@)
}

/// The characters of an optional string.
pub open spec fn text_of(value: Option<String>) -> Option<Seq<char>> {
    match value {
        Some(s) => Some(s@),
        None => None,
    }
}

/// The offending value of a failed optional field (empty when absent).
pub open spec fn given(value: Option<Seq<char>>) -> Seq<char> {
    match value {
        Some(v) => v,
        None => Seq::empty(),
    }
}

pub open spec fn loop_mode_named(value: Seq<char>) -> Option<VatLoopMode> {
    if value == "loop"@ {
        Some(VatLoopMode::Loop)
    } else if value == "once"@ {
        Some(VatLoopMode::Once)
    } else if value == "ping_pong"@ || value == "pingpong"@ {
        Some(VatLoopMode::PingPong)
    } else if value == "clamp_forever"@ || value == "clamp"@ {
        Some(VatLoopMode::ClampForever)
    } else {
        None
    }
}

pub open spec fn coordinate_system_named(value: Option<Seq<char>>) -> Option<VatCoordinateSystem> {
    match value {
        None => Some(VatCoordinateSystem::YUpRightHanded),
        Some(v) => if v == "y_up_right_handed"@ || v == "bevy"@ {
            Some(VatCoordinateSystem::YUpRightHanded)
        } else if v == "z_up_right_handed"@ || v == "openvat_blender"@ || v == "blender"@ {
            Some(VatCoordinateSystem::ZUpRightHanded)
        } else {
            None
        },
    }
}

pub open spec fn playback_space_named(value: Option<Seq<char>>) -> Option<VatPlaybackSpace> {
    match value {
        None => Some(VatPlaybackSpace::Local),
        Some(v) => if v == "local"@ {
            Some(VatPlaybackSpace::Local)
        } else if v == "world"@ {
            Some(VatPlaybackSpace::World)
        } else {
            None
        },
    }
}

pub open spec fn position_encoding_named(value: Option<Seq<char>>) -> Option<VatPositionEncoding> {
    match value {
        None => Some(VatPositionEncoding::AbsoluteNormalizedBounds),
        Some(v) => if v == "absolute_normalized_bounds"@ || v == "absolute"@ {
            Some(VatPositionEncoding::AbsoluteNormalizedBounds)
        } else if v == "offset_normalized_bounds"@ || v == "offset"@ {
            Some(VatPositionEncoding::OffsetNormalizedBounds)
        } else {
            None
        },
    }
}

pub open spec fn vertex_id_attribute_named(value: Option<Seq<char>>) -> Option<VatVertexIdAttribute> {
    match value {
        None => Some(VatVertexIdAttribute::Uv1),
        Some(v) => if v == "uv1"@ || v == "uv2"@ {
            Some(VatVertexIdAttribute::Uv1)
        } else {
            None
        },
    }
}

pub open spec fn normal_encoding_named(value: Option<Seq<char>>) -> Option<VatNormalEncoding> {
    match value {
        None => Some(VatNormalEncoding::SignedNormalized),
        Some(v) => if v == "signed_normalized"@ || v == "snorm"@ {
            Some(VatNormalEncoding::SignedNormalized)
        } else {
            None
        },
    }
}

pub open spec fn precision_named(value: Option<Seq<char>>) -> Option<VatTexturePrecision> {
    match value {
        None => Some(VatTexturePrecision::ExrHalf),
        Some(v) => if v == "exr_half"@ {
            Some(VatTexturePrecision::ExrHalf)
        } else if v == "png16"@ {
            Some(VatTexturePrecision::Png16)
        } else if v == "png8"@ {
            Some(VatTexturePrecision::Png8)
        } else {
            None
        },
    }
}

pub open spec fn animation_mode_named(value: Option<Seq<char>>) -> Option<VatAnimationMode> {
    match value {
        None => Some(VatAnimationMode::SoftBodyFixedTopology),
        Some(v) => if v == "soft_body_fixed_topology"@ || v == "soft_body"@ {
            Some(VatAnimationMode::SoftBodyFixedTopology)
        } else if v == "rigid_body"@ {
            Some(VatAnimationMode::RigidBody)
        } else {
            None
        },
    }
}

pub open spec fn aux_semantic_named(value: Option<Seq<char>>) -> Option<VatAuxTextureSemantic> {
    match value {
        None => Some(VatAuxTextureSemantic::Scalar),
        Some(v) => if v == "emission"@ {
            Some(VatAuxTextureSemantic::Emission)
        } else if v == "opacity"@ {
            Some(VatAuxTextureSemantic::Opacity)
        } else if v == "scalar"@ {
            Some(VatAuxTextureSemantic::Scalar)
        } else {
            None
        },
    }
}

/// The characters of an optional string, borrowed.
fn text_ref(value: &Option<String>) -> (r: Option<&str>)
    ensures
        match r {
            Some(s) => text_of(*value) == Some(s@),
            None => text_of(*value) is None,
        },
{
    match value {
        Some(s) => Some(s.as_str()),
        None => None,
    }
}

/// A copy of an optional string.
fn copy_text(value: &Option<String>) -> (r: Option<String>)
    ensures
        r == *value,
{
    match value {
        Some(s) => Some(s.clone()),
        None => None,
    }
}

/// Reads a clip's `default_loop_mode`.
pub fn parse_loop_mode(value: &str) -> (r: Result<VatLoopMode, VatMetadataLoadError>)
    ensures
        ok_or_fault(
            r,
            loop_mode_named(value@),
            unsupported_value("unsupported clip default_loop_mode '"@, value@),
        ),
{
    if text_eq(value, "loop") {
        Ok(VatLoopMode::Loop)
    } else if text_eq(value, "once") {
        Ok(VatLoopMode::Once)
    } else if text_eq(value, "ping_pong") || text_eq(value, "pingpong") {
        Ok(VatLoopMode::PingPong)
    } else if text_eq(value, "clamp_forever") || text_eq(value, "clamp") {
        Ok(VatLoopMode::ClampForever)
    } else {
        Err(
            VatMetadataLoadError::UnsupportedFormat(
                concat3("unsupported clip default_loop_mode '", value, "'"),
            ),
        )
    }
}

/// Reads `coordinate_system` (`y_up_right_handed` when absent).
pub fn parse_coordinate_system(value: Option<&str>) -> (r: Result<
    VatCoordinateSystem,
    VatMetadataLoadError,
>)
    ensures
        ok_or_fault(
            r,
            coordinate_system_named(text_of_str(value)),
            MetadataFault::UnsupportedCoordinateSystem(given(text_of_str(value))),
        ),
{
    match value {
        None => Ok(VatCoordinateSystem::YUpRightHanded),
        Some(v) => {
            if text_eq(v, "y_up_right_handed") || text_eq(v, "bevy") {
                Ok(VatCoordinateSystem::YUpRightHanded)
            } else if text_eq(v, "z_up_right_handed") || text_eq(v, "openvat_blender") || text_eq(
                v,
                "blender",
            ) {
                Ok(VatCoordinateSystem::ZUpRightHanded)
            } else {
                Err(
                    VatMetadataLoadError::Validation(
                        VatValidationError::UnsupportedCoordinateSystem(v.to_owned()),
                    ),
                )
            }
        },
    }
}

/// The characters of an optional borrowed string.
pub open spec fn text_of_str(value: Option<&str>) -> Option<Seq<char>> {
    match value {
        Some(s) => Some(s@),
        None => None,
    }
}

/// Reads `playback_space` (`local` when absent).
pub fn parse_playback_space(value: Option<&str>) -> (r: Result<
    VatPlaybackSpace,
    VatMetadataLoadError,
>)
    ensures
        ok_or_fault(
            r,
            playback_space_named(text_of_str(value)),
            unsupported_value("unsupported playback_space '"@, given(text_of_str(value))),
        ),
{
    match value {
        None => Ok(VatPlaybackSpace::Local),
        Some(v) => {
            if text_eq(v, "local") {
                Ok(VatPlaybackSpace::Local)
            } else if text_eq(v, "world") {
                Ok(VatPlaybackSpace::World)
            } else {
                Err(
                    VatMetadataLoadError::UnsupportedFormat(
                        concat3("unsupported playback_space '", v, "'"),
                    ),
                )
            }
        },
    }
}

/// Reads `position_encoding` (`absolute_normalized_bounds` when absent).
pub fn parse_position_encoding(value: Option<&str>) -> (r: Result<
    VatPositionEncoding,
    VatMetadataLoadError,
>)
    ensures
        ok_or_fault(
            r,
            position_encoding_named(text_of_str(value)),
            unsupported_value("unsupported position_encoding '"@, given(text_of_str(value))),
        ),
{
    match value {
        None => Ok(VatPositionEncoding::AbsoluteNormalizedBounds),
        Some(v) => {
            if text_eq(v, "absolute_normalized_bounds") || text_eq(v, "absolute") {
                Ok(VatPositionEncoding::AbsoluteNormalizedBounds)
            } else if text_eq(v, "offset_normalized_bounds") || text_eq(v, "offset") {
                Ok(VatPositionEncoding::OffsetNormalizedBounds)
            } else {
                Err(
                    VatMetadataLoadError::UnsupportedFormat(
                        concat3("unsupported position_encoding '", v, "'"),
                    ),
                )
            }
        },
    }
}

/// Reads `vertex_id_attribute` (`uv1` when absent).
pub fn parse_vertex_id_attribute(value: Option<&str>) -> (r: Result<
    VatVertexIdAttribute,
    VatMetadataLoadError,
>)
    ensures
        ok_or_fault(
            r,
            vertex_id_attribute_named(text_of_str(value)),
            unsupported_value("unsupported vertex_id_attribute '"@, given(text_of_str(value))),
        ),
{
    match value {
        None => Ok(VatVertexIdAttribute::Uv1),
        Some(v) => {
            if text_eq(v, "uv1") || text_eq(v, "uv2") {
                Ok(VatVertexIdAttribute::Uv1)
            } else {
                Err(
                    VatMetadataLoadError::UnsupportedFormat(
                        concat3("unsupported vertex_id_attribute '", v, "'"),
                    ),
                )
            }
        },
    }
}

/// Reads `normal_texture.encoding` (`signed_normalized` when absent).
pub fn parse_normal_encoding(value: Option<&str>) -> (r: Result<
    VatNormalEncoding,
    VatMetadataLoadError,
>)
    ensures
        ok_or_fault(
            r,
            normal_encoding_named(text_of_str(value)),
            unsupported_value("unsupported normal_texture.encoding '"@, given(text_of_str(value))),
        ),
{
    match value {
        None => Ok(VatNormalEncoding::SignedNormalized),
        Some(v) => {
            if text_eq(v, "signed_normalized") || text_eq(v, "snorm") {
                Ok(VatNormalEncoding::SignedNormalized)
            } else {
                Err(
                    VatMetadataLoadError::UnsupportedFormat(
                        concat3("unsupported normal_texture.encoding '", v, "'"),
                    ),
                )
            }
        },
    }
}

/// Reads a texture `precision` (`exr_half` when absent).
pub fn parse_precision(value: Option<&str>) -> (r: Result<
    VatTexturePrecision,
    VatMetadataLoadError,
>)
    ensures
        ok_or_fault(
            r,
            precision_named(text_of_str(value)),
            unsupported_value("unsupported texture precision '"@, given(text_of_str(value))),
        ),
{
    match value {
        None => Ok(VatTexturePrecision::ExrHalf),
        Some(v) => {
            if text_eq(v, "exr_half") {
                Ok(VatTexturePrecision::ExrHalf)
            } else if text_eq(v, "png16") {
                Ok(VatTexturePrecision::Png16)
            } else if text_eq(v, "png8") {
                Ok(VatTexturePrecision::Png8)
            } else {
                Err(
                    VatMetadataLoadError::UnsupportedFormat(
                        concat3("unsupported texture precision '", v, "'"),
                    ),
                )
            }
        },
    }
}

/// The fault a decoded texture raises, if any.
pub open spec fn texture_fault(raw: RawTexture) -> Option<MetadataFault> {
    if precision_named(text_of(raw.precision)) is None {
        Some(unsupported_value("unsupported texture precision '"@, given(text_of(raw.precision))))
    } else {
        None
    }
}

/// `t` is what a decoded texture normalizes to: one row per frame unless
/// given, `exr_half` precision unless given.
pub open spec fn texture_matches(raw: RawTexture, t: VatTextureDescriptor) -> bool {
    &&& t.relative_path == raw.relative_path
    &&& t.width == raw.width
    &&& t.height == raw.height
    &&& t.rows_per_frame == (match raw.rows_per_frame {
        Some(rows) => rows,
        None => 1,
    })
    &&& precision_named(text_of(raw.precision)) == Some(t.precision)
}

/// Normalizes a decoded texture descriptor.
pub fn texture_from_raw(raw: &RawTexture) -> (r: Result<VatTextureDescriptor, VatMetadataLoadError>)
    ensures
        match texture_fault(*raw) {
            Some(f) => r matches Err(e) && fault_of(e) == f,
            None => r matches Ok(t) && texture_matches(*raw, t),
        },
{
    let precision = match parse_precision(text_ref(&raw.precision)) {
        Ok(p) => p,
        Err(e) => {
            return Err(e);
        },
    };
    Ok(
        VatTextureDescriptor {
            relative_path: copy_text(&raw.relative_path),
            width: raw.width,
            height: raw.height,
            rows_per_frame: match raw.rows_per_frame {
                Some(rows) => rows,
                None => 1,
            },
            precision,
        },
    )
}

/// The fault a decoded clip raises, if any.
pub open spec fn clip_fault(raw: RawClip) -> Option<MetadataFault> {
    match raw.default_loop_mode {
        Some(mode) => if loop_mode_named(mode@) is None {
            Some(unsupported_value("unsupported clip default_loop_mode '"@, mode@))
        } else {
            None
        },
        None => None,
    }
}

/// `c` is what a decoded clip normalizes to.
pub open spec fn clip_matches(raw: RawClip, c: VatClip) -> bool {
    &&& c.name == raw.name
    &&& c.start_frame == raw.start_frame
    &&& c.end_frame == raw.end_frame
    &&& c.default_loop_mode == (match raw.default_loop_mode {
        Some(mode) => loop_mode_named(mode@),
        None => None,
    })
    &&& c.events@.len() == raw.events@.len()
    &&& forall|k: int|
        0 <= k < c.events@.len() ==> #[trigger] c.events@[k].name == raw.events@[k].name
            && c.events@[k].frame == raw.events@[k].frame
}

/// Normalizes a decoded clip.
pub fn clip_from_raw(raw: &RawClip) -> (r: Result<VatClip, VatMetadataLoadError>)
    ensures
        match clip_fault(*raw) {
            Some(f) => r matches Err(e) && fault_of(e) == f,
            None => r matches Ok(c) && clip_matches(*raw, c),
        },
{
    let default_loop_mode = match &raw.default_loop_mode {
        Some(mode) => match parse_loop_mode(mode.as_str()) {
            Ok(m) => Some(m),
            Err(e) => {
                return Err(e);
            },
        },
        None => None,
    };
    let mut events: Vec<VatClipEvent> = Vec::new();
    let mut k: usize = 0;
    while k < raw.events.len()
        invariant
            k <= raw.events@.len(),
            events@.len() == k,
            forall|j: int|
                0 <= j < k ==> #[trigger] events@[j].name == raw.events@[j].name
                    && events@[j].frame == raw.events@[j].frame,
        decreases raw.events@.len() - k,
    {
        events.push(
            VatClipEvent { name: raw.events[k].name.clone(), frame: raw.events[k].frame },
        );
        k = k + 1;
    }
    Ok(
        VatClip {
            name: raw.name.clone(),
            start_frame: raw.start_frame,
            end_frame: raw.end_frame,
            default_loop_mode,
            events,
        },
    )
}

/// The fault a decoded normal texture description raises, if any: the
/// encoding is read first, then the mode.
pub open spec fn normal_texture_fault(raw: RawNormalTexture) -> Option<MetadataFault> {
    let mode = raw.mode@;
    if normal_encoding_named(text_of(raw.encoding)) is None {
        Some(
            unsupported_value(
                "unsupported normal_texture.encoding '"@,
                given(text_of(raw.encoding)),
            ),
        )
    } else if mode == "none"@ || mode == "packed_in_position_texture"@ || mode == "packed"@ {
        None
    } else if mode == "separate"@ || mode == "separate_texture"@ {
        match raw.texture {
            None => Some(
                MetadataFault::Unsupported(
                    "normal_texture.mode='separate' requires a texture descriptor"@,
                ),
            ),
            Some(t) => texture_fault(t),
        }
    } else {
        Some(unsupported_value("unsupported normal_texture.mode '"@, mode))
    }
}

/// `n` is what a decoded normal texture description normalizes to.
pub open spec fn normal_texture_matches(raw: RawNormalTexture, n: VatNormalTexture) -> bool {
    let mode = raw.mode@;
    let encoding = normal_encoding_named(text_of(raw.encoding));
    if mode == "none"@ {
        n == VatNormalTexture::Absent
    } else if mode == "packed_in_position_texture"@ || mode == "packed"@ {
        encoding matches Some(e) && n == VatNormalTexture::PackedInPositionTexture {
            row_offset: match raw.row_offset {
                Some(offset) => offset,
                None => 0,
            },
            encoding: e,
        }
    } else {
        match (n, raw.texture) {
            (VatNormalTexture::Separate { texture, encoding: e }, Some(t)) => encoding == Some(e)
                && texture_matches(t, texture),
            _ => false,
        }
    }
}

/// Normalizes a decoded normal texture description.
pub fn normal_texture_from_raw(raw: &RawNormalTexture) -> (r: Result<
    VatNormalTexture,
    VatMetadataLoadError,
>)
    ensures
        match normal_texture_fault(*raw) {
            Some(f) => r matches Err(e) && fault_of(e) == f,
            None => r matches Ok(n) && normal_texture_matches(*raw, n),
        },
{
    let encoding = match parse_normal_encoding(text_ref(&raw.encoding)) {
        Ok(e) => e,
        Err(e) => {
            return Err(e);
        },
    };
    let mode = raw.mode.as_str();
    if text_eq(mode, "none") {
        Ok(VatNormalTexture::Absent)
    } else if text_eq(mode, "packed_in_position_texture") || text_eq(mode, "packed") {
        Ok(
            VatNormalTexture::PackedInPositionTexture {
                row_offset: match raw.row_offset {
                    Some(offset) => offset,
                    None => 0,
                },
                encoding,
            },
        )
    } else if text_eq(mode, "separate") || text_eq(mode, "separate_texture") {
        match &raw.texture {
            None => Err(
                VatMetadataLoadError::UnsupportedFormat(
                    String::from_str("normal_texture.mode='separate' requires a texture descriptor"),
                ),
            ),
            Some(t) => match texture_from_raw(t) {
                Ok(texture) => Ok(VatNormalTexture::Separate { texture, encoding }),
                Err(e) => Err(e),
            },
        }
    } else {
        Err(
            VatMetadataLoadError::UnsupportedFormat(
                concat3("unsupported normal_texture.mode '", mode, "'"),
            ),
        )
    }
}

/// The fault a decoded auxiliary texture raises, if any.
pub open spec fn aux_texture_fault(raw: RawAuxTexture) -> Option<MetadataFault> {
    if aux_semantic_named(text_of(raw.semantic)) is None {
        Some(
            unsupported_value(
                "unsupported auxiliary_textures.semantic '"@,
                given(text_of(raw.semantic)),
            ),
        )
    } else {
        texture_fault(raw.texture)
    }
}

/// `a` is what a decoded auxiliary texture normalizes to.
pub open spec fn aux_texture_matches(raw: RawAuxTexture, a: VatAuxTextureDescriptor) -> bool {
    aux_semantic_named(text_of(raw.semantic)) == Some(a.semantic) && texture_matches(
        raw.texture,
        a.texture,
    )
}

/// Normalizes a decoded auxiliary texture.
pub fn aux_texture_from_raw(raw: &RawAuxTexture) -> (r: Result<
    VatAuxTextureDescriptor,
    VatMetadataLoadError,
>)
    ensures
        match aux_texture_fault(*raw) {
            Some(f) => r matches Err(e) && fault_of(e) == f,
            None => r matches Ok(a) && aux_texture_matches(*raw, a),
        },
{
    let semantic = match text_ref(&raw.semantic) {
        Some(v) => {
            if text_eq(v, "emission") {
                VatAuxTextureSemantic::Emission
            } else if text_eq(v, "opacity") {
                VatAuxTextureSemantic::Opacity
            } else if text_eq(v, "scalar") {
                VatAuxTextureSemantic::Scalar
            } else {
                return Err(
                    VatMetadataLoadError::UnsupportedFormat(
                        concat3("unsupported auxiliary_textures.semantic '", v, "'"),
                    ),
                );
            }
        },
        None => VatAuxTextureSemantic::Scalar,
    };
    match texture_from_raw(&raw.texture) {
        Ok(texture) => Ok(VatAuxTextureDescriptor { semantic, texture }),
        Err(e) => Err(e),
    }
}

/// The fault of the first decoded clip at or after `from` that raises one.
pub open spec fn first_clip_fault_from(clips: Seq<RawClip>, from: int) -> Option<MetadataFault>
    decreases clips.len() - from,
{
    if 0 <= from < clips.len() {
        match clip_fault(clips[from]) {
            Some(f) => Some(f),
            None => first_clip_fault_from(clips, from + 1),
        }
    } else {
        None
    }
}

/// The fault of the first decoded auxiliary texture at or after `from` that raises one.
pub open spec fn first_aux_texture_fault_from(textures: Seq<RawAuxTexture>, from: int) -> Option<
    MetadataFault,
>
    decreases textures.len() - from,
{
    if 0 <= from < textures.len() {
        match aux_texture_fault(textures[from]) {
            Some(f) => Some(f),
            None => first_aux_texture_fault_from(textures, from + 1),
        }
    } else {
        None
    }
}

/// `frames_per_second` is given and positive.
pub open spec fn frames_per_second_given(raw: RawCanonicalVatMetadata) -> bool {
    raw.frames_per_second matches Some(fps) && f32_lt(POSITIVE_ZERO_BITS, fps.bits)
}

/// `seconds_per_frame` is given and positive.
pub open spec fn seconds_per_frame_given(raw: RawCanonicalVatMetadata) -> bool {
    raw.seconds_per_frame matches Some(spf) && f32_lt(POSITIVE_ZERO_BITS, spf.bits)
}

/// The frame rate of a canonical document: `frames_per_second` when it is
/// positive, else the reciprocal of `seconds_per_frame` when that is positive.
pub open spec fn canonical_frame_rate(raw: RawCanonicalVatMetadata, reciprocal: F32Bits) -> Option<
    F32Bits,
> {
    if frames_per_second_given(raw) {
        raw.frames_per_second
    } else if seconds_per_frame_given(raw) {
        Some(reciprocal)
    } else {
        None
    }
}

/// A canonical `format` value that is absent or names the canonical format.
pub open spec fn canonical_format_accepted(format: Option<Seq<char>>) -> bool {
    match format {
        None => true,
        Some(f) => f == "vertex_animation_texture@1"@ || f == "vertex_animation_texture"@,
    }
}

/// The first of the canonical format's required text fields that a
/// document leaves out, in the order the format lists them.
pub open spec fn canonical_missing_field(raw: RawCanonicalVatMetadata) -> Option<Seq<char>> {
    if raw.format is None {
        Some("format"@)
    } else if raw.animation_mode is None {
        Some("animation_mode"@)
    } else if raw.coordinate_system is None {
        Some("coordinate_system"@)
    } else if raw.playback_space is None {
        Some("playback_space"@)
    } else if raw.vertex_id_attribute is None {
        Some("vertex_id_attribute"@)
    } else if raw.position_encoding is None {
        Some("position_encoding"@)
    } else {
        None
    }
}

/// The first fault a canonical document raises, in the order the fields are read.
pub open spec fn canonical_fault(raw: RawCanonicalVatMetadata) -> Option<MetadataFault> {
    if canonical_missing_field(raw) is Some {
        Some(unsupported_value("canonical VAT metadata requires '"@, canonical_missing_field(raw)->0))
    } else if !canonical_format_accepted(text_of(raw.format)) {
        Some(
            unsupported_value(
                "unsupported canonical metadata format '"@,
                given(text_of(raw.format)),
            ),
        )
    } else if !frames_per_second_given(raw) && !seconds_per_frame_given(raw) {
        Some(MetadataFault::Invalid(VatValidationError::InvalidFramesPerSecond))
    } else if animation_mode_named(text_of(raw.animation_mode)) is None {
        Some(unsupported_value("unsupported animation_mode '"@, given(text_of(raw.animation_mode))))
    } else if coordinate_system_named(text_of(raw.coordinate_system)) is None {
        Some(MetadataFault::UnsupportedCoordinateSystem(given(text_of(raw.coordinate_system))))
    } else if playback_space_named(text_of(raw.playback_space)) is None {
        Some(unsupported_value("unsupported playback_space '"@, given(text_of(raw.playback_space))))
    } else if position_encoding_named(text_of(raw.position_encoding)) is None {
        Some(
            unsupported_value(
                "unsupported position_encoding '"@,
                given(text_of(raw.position_encoding)),
            ),
        )
    } else if vertex_id_attribute_named(text_of(raw.vertex_id_attribute)) is None {
        Some(
            unsupported_value(
                "unsupported vertex_id_attribute '"@,
                given(text_of(raw.vertex_id_attribute)),
            ),
        )
    } else if first_clip_fault_from(raw.clips@, 0) is Some {
        first_clip_fault_from(raw.clips@, 0)
    } else if texture_fault(raw.position_texture) is Some {
        texture_fault(raw.position_texture)
    } else if raw.normal_texture matches Some(n) && normal_texture_fault(n) is Some {
        normal_texture_fault(raw.normal_texture->0)
    } else if raw.rotation_texture matches Some(t) && texture_fault(t) is Some {
        texture_fault(raw.rotation_texture->0)
    } else {
        first_aux_texture_fault_from(raw.auxiliary_textures@, 0)
    }
}

/// `a` is what a canonical document normalizes to, given the caller's
/// `1.0 / seconds_per_frame`.
pub open spec fn canonical_matches(
    raw: RawCanonicalVatMetadata,
    reciprocal: F32Bits,
    a: VatAnimationData,
) -> bool {
    let animation_bounds = match raw.animation_bounds {
        Some(b) => b,
        None => raw.decode_bounds,
    };
    &&& a.source_format == VatSourceFormat::Canonical
    &&& animation_mode_named(text_of(raw.animation_mode)) == Some(a.animation_mode)
    &&& a.vertex_count == raw.vertex_count
    &&& a.frame_count == raw.frame_count
    &&& canonical_frame_rate(raw, reciprocal) == Some(a.frames_per_second)
    &&& a.decode_bounds_min == raw.decode_bounds.min
    &&& a.decode_bounds_max == raw.decode_bounds.max
    &&& a.animation_bounds_min == animation_bounds.min
    &&& a.animation_bounds_max == animation_bounds.max
    &&& a.clips@.len() == raw.clips@.len()
    &&& forall|i: int| 0 <= i < a.clips@.len() ==> #[trigger] clip_matches(raw.clips@[i], a.clips@[i])
    &&& texture_matches(raw.position_texture, a.position_texture)
    &&& match raw.normal_texture {
        None => a.normal_texture == VatNormalTexture::Absent,
        Some(n) => normal_texture_matches(n, a.normal_texture),
    }
    &&& match raw.rotation_texture {
        None => a.rotation_texture is None,
        Some(t) => a.rotation_texture matches Some(rt) && texture_matches(t, rt),
    }
    &&& a.auxiliary_textures@.len() == raw.auxiliary_textures@.len()
    &&& forall|i: int|
        0 <= i < a.auxiliary_textures@.len() ==> #[trigger] aux_texture_matches(
            raw.auxiliary_textures@[i],
            a.auxiliary_textures@[i],
        )
    &&& coordinate_system_named(text_of(raw.coordinate_system)) == Some(a.coordinate_system)
    &&& playback_space_named(text_of(raw.playback_space)) == Some(a.playback_space)
    &&& vertex_id_attribute_named(text_of(raw.vertex_id_attribute)) == Some(a.vertex_id_attribute)
    &&& position_encoding_named(text_of(raw.position_encoding)) == Some(a.position_encoding)
}

/// Normalizes the clips of a canonical document, stopping at the first faulty one.
#[verifier::loop_isolation(false)]
fn clips_from_raw(raw: &Vec<RawClip>) -> (r: Result<Vec<VatClip>, VatMetadataLoadError>)
    ensures
        match first_clip_fault_from(raw@, 0) {
            Some(f) => r matches Err(e) && fault_of(e) == f,
            None => r matches Ok(clips) && clips@.len() == raw@.len() && forall|i: int|
                0 <= i < clips@.len() ==> #[trigger] clip_matches(raw@[i], clips@[i]),
        },
{
    let mut clips: Vec<VatClip> = Vec::new();
    let mut i: usize = 0;
    while i < raw.len()
        invariant
            i <= raw@.len(),
            clips@.len() == i,
            first_clip_fault_from(raw@, 0) == first_clip_fault_from(raw@, i as int),
            forall|j: int| 0 <= j < i ==> #[trigger] clip_matches(raw@[j], clips@[j]),
        decreases raw@.len() - i,
    {
        match clip_from_raw(&raw[i]) {
            Ok(clip) => {
                clips.push(clip);
            },
            Err(e) => {
                return Err(e);
            },
        }
        i = i + 1;
    }
    Ok(clips)
}

/// Normalizes the auxiliary textures of a canonical document, stopping at the first faulty one.
#[verifier::loop_isolation(false)]
fn aux_textures_from_raw(raw: &Vec<RawAuxTexture>) -> (r: Result<
    Vec<VatAuxTextureDescriptor>,
    VatMetadataLoadError,
>)
    ensures
        match first_aux_texture_fault_from(raw@, 0) {
            Some(f) => r matches Err(e) && fault_of(e) == f,
            None => r matches Ok(textures) && textures@.len() == raw@.len() && forall|i: int|
                0 <= i < textures@.len() ==> #[trigger] aux_texture_matches(raw@[i], textures@[i]),
        },
{
    let mut textures: Vec<VatAuxTextureDescriptor> = Vec::new();
    let mut i: usize = 0;
    while i < raw.len()
        invariant
            i <= raw@.len(),
            textures@.len() == i,
            first_aux_texture_fault_from(raw@, 0) == first_aux_texture_fault_from(raw@, i as int),
            forall|j: int| 0 <= j < i ==> #[trigger] aux_texture_matches(raw@[j], textures@[j]),
        decreases raw@.len() - i,
    {
        match aux_texture_from_raw(&raw[i]) {
            Ok(texture) => {
                textures.push(texture);
            },
            Err(e) => {
                return Err(e);
            },
        }
        i = i + 1;
    }
    Ok(textures)
}

/// The name of the first required text field that `raw` leaves out.
fn missing_canonical_field(raw: &RawCanonicalVatMetadata) -> (r: Option<&'static str>)
    ensures
        match r {
            Some(field) => canonical_missing_field(*raw) == Some(field@),
            None => canonical_missing_field(*raw) is None,
        },
{
    if raw.format.is_none() {
        Some("format")
    } else if raw.animation_mode.is_none() {
        Some("animation_mode")
    } else if raw.coordinate_system.is_none() {
        Some("coordinate_system")
    } else if raw.playback_space.is_none() {
        Some("playback_space")
    } else if raw.vertex_id_attribute.is_none() {
        Some("vertex_id_attribute")
    } else if raw.position_encoding.is_none() {
        Some("position_encoding")
    } else {
        None
    }
}

/// Normalizes a canonical document. `reciprocal_seconds_per_frame` is the
/// caller's value of `1.0 / seconds_per_frame`; it becomes the frame rate
/// when `frames_per_second` is absent or not positive and
/// `seconds_per_frame` is positive, and is not read otherwise.
pub fn canonical_into_asset(
    raw: &RawCanonicalVatMetadata,
    reciprocal_seconds_per_frame: F32Bits,
) -> (r: Result<VatAnimationData, VatMetadataLoadError>)
    ensures
        match canonical_fault(*raw) {
            Some(f) => r matches Err(e) && fault_of(e) == f,
            None => r matches Ok(a) && canonical_matches(*raw, reciprocal_seconds_per_frame, a),
        },
{
    match missing_canonical_field(raw) {
        Some(field) => {
            return Err(
                VatMetadataLoadError::UnsupportedFormat(
                    concat3("canonical VAT metadata requires '", field, "'"),
                ),
            );
        },
        None => {},
    }
    match text_ref(&raw.format) {
        Some(format) => {
            if !(text_eq(format, "vertex_animation_texture@1") || text_eq(
                format,
                "vertex_animation_texture",
            )) {
                return Err(
                    VatMetadataLoadError::UnsupportedFormat(
                        concat3("unsupported canonical metadata format '", format, "'"),
                    ),
                );
            }
        },
        None => {},
    }
    let frames_per_second = match raw.frames_per_second {
        Some(fps) if fps.is_positive() => fps,
        _ => match raw.seconds_per_frame {
            Some(spf) if spf.is_positive() => reciprocal_seconds_per_frame,
            _ => {
                return Err(
                    VatMetadataLoadError::Validation(VatValidationError::InvalidFramesPerSecond),
                );
            },
        },
    };
    let animation_mode = match text_ref(&raw.animation_mode) {
        None => VatAnimationMode::SoftBodyFixedTopology,
        Some(mode) => {
            if text_eq(mode, "soft_body_fixed_topology") || text_eq(mode, "soft_body") {
                VatAnimationMode::SoftBodyFixedTopology
            } else if text_eq(mode, "rigid_body") {
                VatAnimationMode::RigidBody
            } else {
                return Err(
                    VatMetadataLoadError::UnsupportedFormat(
                        concat3("unsupported animation_mode '", mode, "'"),
                    ),
                );
            }
        },
    };
    let coordinate_system = match parse_coordinate_system(text_ref(&raw.coordinate_system)) {
        Ok(v) => v,
        Err(e) => {
            return Err(e);
        },
    };
    let playback_space = match parse_playback_space(text_ref(&raw.playback_space)) {
        Ok(v) => v,
        Err(e) => {
            return Err(e);
        },
    };
    let position_encoding = match parse_position_encoding(text_ref(&raw.position_encoding)) {
        Ok(v) => v,
        Err(e) => {
            return Err(e);
        },
    };
    let vertex_id_attribute = match parse_vertex_id_attribute(
        text_ref(&raw.vertex_id_attribute),
    ) {
        Ok(v) => v,
        Err(e) => {
            return Err(e);
        },
    };
    let animation_bounds = match raw.animation_bounds {
        Some(bounds) => bounds,
        None => raw.decode_bounds,
    };
    let clips = match clips_from_raw(&raw.clips) {
        Ok(v) => v,
        Err(e) => {
            return Err(e);
        },
    };
    let position_texture = match texture_from_raw(&raw.position_texture) {
        Ok(v) => v,
        Err(e) => {
            return Err(e);
        },
    };
    let normal_texture = match &raw.normal_texture {
        Some(n) => match normal_texture_from_raw(n) {
            Ok(v) => v,
            Err(e) => {
                return Err(e);
            },
        },
        None => VatNormalTexture::Absent,
    };
    let rotation_texture = match &raw.rotation_texture {
        Some(t) => match texture_from_raw(t) {
            Ok(v) => Some(v),
            Err(e) => {
                return Err(e);
            },
        },
        None => None,
    };
    let auxiliary_textures = match aux_textures_from_raw(&raw.auxiliary_textures) {
        Ok(v) => v,
        Err(e) => {
            return Err(e);
        },
    };
    Ok(
        VatAnimationData {
            source_format: VatSourceFormat::Canonical,
            animation_mode,
            vertex_count: raw.vertex_count,
            frame_count: raw.frame_count,
            frames_per_second,
            decode_bounds_min: raw.decode_bounds.min,
            decode_bounds_max: raw.decode_bounds.max,
            animation_bounds_min: animation_bounds.min,
            animation_bounds_max: animation_bounds.max,
            clips,
            position_texture,
            normal_texture,
            rotation_texture,
            auxiliary_textures,
            coordinate_system,
            playback_space,
            vertex_id_attribute,
            position_encoding,
        },
    )
}

/// The first fault an OpenVAT-compatible document raises.
pub open spec fn openvat_fault(raw: RawOpenVatMetadata) -> Option<MetadataFault> {
    if raw.vertex_count is None {
        Some(MetadataFault::Unsupported("OpenVAT-compatible metadata requires 'vertex_count'"@))
    } else if raw.texture_width is None {
        Some(MetadataFault::Unsupported("OpenVAT-compatible metadata requires 'texture_width'"@))
    } else if raw.texture_height is None {
        Some(MetadataFault::Unsupported("OpenVAT-compatible metadata requires 'texture_height'"@))
    } else if coordinate_system_named(text_of(raw.coordinate_system)) is None {
        Some(MetadataFault::UnsupportedCoordinateSystem(given(text_of(raw.coordinate_system))))
    } else if playback_space_named(text_of(raw.playback_space)) is None {
        Some(unsupported_value("unsupported playback_space '"@, given(text_of(raw.playback_space))))
    } else {
        None
    }
}

/// `c` is the clip an OpenVAT `animations` entry becomes: looping clips
/// loop, the others play once; no events.
pub open spec fn openvat_clip_matches(entry: (String, RawOpenVatClip), c: VatClip) -> bool {
    &&& c.name == entry.0
    &&& c.start_frame == entry.1.start_frame
    &&& c.end_frame == entry.1.end_frame
    &&& c.default_loop_mode == Some(
        if entry.1.looping {
            VatLoopMode::Loop
        } else {
            VatLoopMode::Once
        },
    )
    &&& c.events@.len() == 0
}

/// `a` is what an OpenVAT-compatible document normalizes to: a soft-body
/// bake at 24 frames per second whose decode and animation bounds are the
/// remap bounds, positions in a `png16` texture, one looping clip named
/// `default` over all frames when the document lists no animations.
pub open spec fn openvat_matches(raw: RawOpenVatMetadata, a: VatAnimationData) -> bool {
    let height = raw.texture_height->0;
    &&& a.source_format == VatSourceFormat::OpenVat
    &&& a.animation_mode == VatAnimationMode::SoftBodyFixedTopology
    &&& Some(a.vertex_count) == raw.vertex_count
    &&& a.frame_count == raw.os_remap.frames
    &&& a.frames_per_second.bits == OPENVAT_FRAMES_PER_SECOND_BITS
    &&& a.decode_bounds_min == raw.os_remap.min
    &&& a.decode_bounds_max == raw.os_remap.max
    &&& a.animation_bounds_min == raw.os_remap.min
    &&& a.animation_bounds_max == raw.os_remap.max
    &&& if raw.animations@.len() == 0 {
        &&& a.clips@.len() == 1
        &&& a.clips@[0].name@ == "default"@
        &&& a.clips@[0].start_frame == 0
        &&& a.clips@[0].end_frame == (if raw.os_remap.frames == 0 {
            0
        } else {
            raw.os_remap.frames - 1
        })
        &&& a.clips@[0].default_loop_mode == Some(VatLoopMode::Loop)
        &&& a.clips@[0].events@.len() == 0
    } else {
        &&& a.clips@.len() == raw.animations@.len()
        &&& forall|i: int|
            0 <= i < a.clips@.len() ==> #[trigger] openvat_clip_matches(
                raw.animations@[i],
                a.clips@[i],
            )
    }
    &&& a.position_texture == VatTextureDescriptor {
        relative_path: None,
        width: raw.texture_width->0,
        height,
        rows_per_frame: match raw.rows_per_frame {
            Some(rows) => rows,
            None => 1,
        },
        precision: VatTexturePrecision::Png16,
    }
    &&& a.normal_texture == (if raw.packed_normals {
        VatNormalTexture::PackedInPositionTexture {
            row_offset: match raw.normal_row_offset {
                Some(offset) => offset,
                None => (height / 2) as u32,
            },
            encoding: VatNormalEncoding::SignedNormalized,
        }
    } else {
        VatNormalTexture::Absent
    })
    &&& a.rotation_texture is None
    &&& a.auxiliary_textures@.len() == 0
    &&& coordinate_system_named(text_of(raw.coordinate_system)) == Some(a.coordinate_system)
    &&& playback_space_named(text_of(raw.playback_space)) == Some(a.playback_space)
    &&& a.vertex_id_attribute == VatVertexIdAttribute::Uv1
    &&& a.position_encoding == VatPositionEncoding::AbsoluteNormalizedBounds
}

/// The entries of a decoded `animations` map are in strictly ascending key
/// order, as a map keyed by strings holds them: each key once, sorted.
pub open spec fn animation_keys_ascend(entries: Seq<(String, RawOpenVatClip)>) -> bool {
    forall|i: int, j: int|
        #![trigger entries[i], entries[j]]
        0 <= i < j < entries.len() ==> text_lt(entries[i].0@, entries[j].0@)
}

/// The clip names strictly ascend.
pub open spec fn clip_names_ascend(clips: Seq<VatClip>) -> bool {
    forall|i: int, j: int|
        #![trigger clips[i], clips[j]]
        0 <= i < j < clips.len() ==> text_lt(clips[i].name@, clips[j].name@)
}

/// Normalizes an OpenVAT-compatible document. Its clips come in the
/// animation map's key order, so their names strictly ascend.
pub fn openvat_into_asset(raw: &RawOpenVatMetadata) -> (r: Result<
    VatAnimationData,
    VatMetadataLoadError,
>)
    requires
        animation_keys_ascend(raw.animations@),
    ensures
        match openvat_fault(*raw) {
            Some(f) => r matches Err(e) && fault_of(e) == f,
            None => r matches Ok(a) && openvat_matches(*raw, a) && (raw.animations@.len() > 0
                ==> clip_names_ascend(a.clips@)),
        },
{
    let vertex_count = match raw.vertex_count {
        Some(v) => v,
        None => {
            return Err(
                VatMetadataLoadError::UnsupportedFormat(
                    String::from_str("OpenVAT-compatible metadata requires 'vertex_count'"),
                ),
            );
        },
    };
    let texture_width = match raw.texture_width {
        Some(v) => v,
        None => {
            return Err(
                VatMetadataLoadError::UnsupportedFormat(
                    String::from_str("OpenVAT-compatible metadata requires 'texture_width'"),
                ),
            );
        },
    };
    let texture_height = match raw.texture_height {
        Some(v) => v,
        None => {
            return Err(
                VatMetadataLoadError::UnsupportedFormat(
                    String::from_str("OpenVAT-compatible metadata requires 'texture_height'"),
                ),
            );
        },
    };
    let rows_per_frame = match raw.rows_per_frame {
        Some(rows) => rows,
        None => 1,
    };
    let mut clips: Vec<VatClip> = Vec::new();
    if raw.animations.len() == 0 {
        clips.push(
            VatClip {
                name: String::from_str("default"),
                start_frame: 0,
                end_frame: raw.os_remap.frames.saturating_sub(1),
                default_loop_mode: Some(VatLoopMode::Loop),
                events: Vec::new(),
            },
        );
    } else {
        let mut i: usize = 0;
        while i < raw.animations.len()
            invariant
                i <= raw.animations@.len(),
                clips@.len() == i,
                forall|j: int|
                    0 <= j < i ==> #[trigger] openvat_clip_matches(raw.animations@[j], clips@[j]),
            decreases raw.animations@.len() - i,
        {
            let entry = &raw.animations[i];
            clips.push(
                VatClip {
                    name: entry.0.clone(),
                    start_frame: entry.1.start_frame,
                    end_frame: entry.1.end_frame,
                    default_loop_mode: Some(
                        if entry.1.looping {
                            VatLoopMode::Loop
                        } else {
                            VatLoopMode::Once
                        },
                    ),
                    events: Vec::new(),
                },
            );
            i = i + 1;
        }
        assert(clip_names_ascend(clips@)) by {
            assert forall|a: int, b: int|
                #![trigger clips@[a], clips@[b]]
                0 <= a < b < clips@.len() implies text_lt(clips@[a].name@, clips@[b].name@) by {
                assert(openvat_clip_matches(raw.animations@[a], clips@[a]));
                assert(openvat_clip_matches(raw.animations@[b], clips@[b]));
            }
        }
    }
    let normal_texture = if raw.packed_normals {
        VatNormalTexture::PackedInPositionTexture {
            row_offset: match raw.normal_row_offset {
                Some(offset) => offset,
                None => texture_height / 2,
            },
            encoding: VatNormalEncoding::SignedNormalized,
        }
    } else {
        VatNormalTexture::Absent
    };
    let coordinate_system = match parse_coordinate_system(text_ref(&raw.coordinate_system)) {
        Ok(v) => v,
        Err(e) => {
            return Err(e);
        },
    };
    let playback_space = match parse_playback_space(text_ref(&raw.playback_space)) {
        Ok(v) => v,
        Err(e) => {
            return Err(e);
        },
    };
    Ok(
        VatAnimationData {
            source_format: VatSourceFormat::OpenVat,
            animation_mode: VatAnimationMode::SoftBodyFixedTopology,
            vertex_count,
            frame_count: raw.os_remap.frames,
            frames_per_second: F32Bits::from_bits(OPENVAT_FRAMES_PER_SECOND_BITS),
            decode_bounds_min: raw.os_remap.min,
            decode_bounds_max: raw.os_remap.max,
            animation_bounds_min: raw.os_remap.min,
            animation_bounds_max: raw.os_remap.max,
            clips,
            position_texture: VatTextureDescriptor {
                relative_path: None,
                width: texture_width,
                height: texture_height,
                rows_per_frame,
                precision: VatTexturePrecision::Png16,
            },
            normal_texture,
            rotation_texture: None,
            auxiliary_textures: Vec::new(),
            coordinate_system,
            playback_space,
            vertex_id_attribute: VatVertexIdAttribute::Uv1,
            position_encoding: VatPositionEncoding::AbsoluteNormalizedBounds,
        },
    )
}

/// The format a document's top-level keys name: an `os-remap` key marks
/// OpenVAT, else a `vertex_count` or `format` key marks the canonical
/// format; with none of them the document names no supported format.
pub open spec fn kind_of_keys(has_os_remap: bool, has_vertex_count: bool, has_format: bool) -> Option<
    VatMetadataKind,
> {
    if has_os_remap {
        Some(VatMetadataKind::OpenVat)
    } else if has_vertex_count || has_format {
        Some(VatMetadataKind::Canonical)
    } else {
        None
    }
}

/// The fault of a document that names no supported format.
pub open spec fn no_format_fault() -> MetadataFault {
    MetadataFault::Unsupported(
        "expected canonical VAT metadata or OpenVAT-compatible remap metadata"@,
    )
}

/// Which format a document is in, from which top-level keys it has: an
/// `os-remap` key marks OpenVAT, else a `vertex_count` or `format` key marks
/// the canonical format.
pub fn classify_metadata(has_os_remap: bool, has_vertex_count: bool, has_format: bool) -> (r:
    Result<VatMetadataKind, VatMetadataLoadError>)
    ensures
        has_os_remap ==> r == Ok::<VatMetadataKind, VatMetadataLoadError>(VatMetadataKind::OpenVat),
        !has_os_remap && (has_vertex_count || has_format) ==> r == Ok::<
            VatMetadataKind,
            VatMetadataLoadError,
        >(VatMetadataKind::Canonical),
        !has_os_remap && !has_vertex_count && !has_format ==> (r matches Err(e) && fault_of(e)
            == no_format_fault()),
        match kind_of_keys(has_os_remap, has_vertex_count, has_format) {
            Some(kind) => r == Ok::<VatMetadataKind, VatMetadataLoadError>(kind),
            None => r matches Err(e) && fault_of(e) == no_format_fault(),
        },
{
    if has_os_remap {
        Ok(VatMetadataKind::OpenVat)
    } else if has_vertex_count || has_format {
        Ok(VatMetadataKind::Canonical)
    } else {
        Err(
            VatMetadataLoadError::UnsupportedFormat(
                String::from_str(
                    "expected canonical VAT metadata or OpenVAT-compatible remap metadata",
                ),
            ),
        )
    }
}

/// Accepts normalized metadata that passes validation.
pub fn accept_metadata(animation: VatAnimationData) -> (r: Result<
    VatAnimationData,
    VatMetadataLoadError,
>)
    ensures
        match validation_outcome(animation) {
            Ok(_) => r == Ok::<VatAnimationData, VatMetadataLoadError>(animation),
            Err(e) => r == Err::<VatAnimationData, VatMetadataLoadError>(
                VatMetadataLoadError::Validation(e),
            ),
        },
{
    match validate_animation_data(&animation) {
        Ok(()) => Ok(animation),
        Err(e) => Err(VatMetadataLoadError::Validation(e)),
    }
}

/// A metadata document decoded in the format its top-level keys name.
#[derive(Clone, Debug, PartialEq)]
pub enum VatMetadataDocument {
    OpenVat(RawOpenVatMetadata),
    /// A canonical document, with the caller's `1.0 / seconds_per_frame`
    /// (see `canonical_into_asset`).
    Canonical(RawCanonicalVatMetadata, F32Bits),
}

/// The format a decoded document is in.
pub open spec fn document_kind(document: VatMetadataDocument) -> VatMetadataKind {
    match document {
        VatMetadataDocument::OpenVat(_) => VatMetadataKind::OpenVat,
        VatMetadataDocument::Canonical(..) => VatMetadataKind::Canonical,
    }
}

/// The source format that metadata of `kind` normalizes to.
pub open spec fn kind_format(kind: VatMetadataKind) -> VatSourceFormat {
    match kind {
        VatMetadataKind::OpenVat => VatSourceFormat::OpenVat,
        VatMetadataKind::Canonical => VatSourceFormat::Canonical,
    }
}

/// `r` is what accepting the normalized metadata `a` gives.
pub open spec fn accepted(a: VatAnimationData, r: Result<VatAnimationData, VatMetadataLoadError>) -> bool {
    match validation_outcome(a) {
        Ok(_) => r == Ok::<VatAnimationData, VatMetadataLoadError>(a),
        Err(e) => r == Err::<VatAnimationData, VatMetadataLoadError>(
            VatMetadataLoadError::Validation(e),
        ),
    }
}

/// `r` is what loading a decoded document gives: the fault its format
/// finds first, else its normalization, accepted when it passes validation.
pub open spec fn document_load_outcome(
    document: VatMetadataDocument,
    r: Result<VatAnimationData, VatMetadataLoadError>,
) -> bool {
    match document {
        VatMetadataDocument::OpenVat(raw) => match openvat_fault(raw) {
            Some(f) => r matches Err(e) && fault_of(e) == f,
            None => exists|a: VatAnimationData| #[trigger]
                openvat_matches(raw, a) && accepted(a, r),
        },
        VatMetadataDocument::Canonical(raw, reciprocal) => match canonical_fault(raw) {
            Some(f) => r matches Err(e) && fault_of(e) == f,
            None => exists|a: VatAnimationData| #[trigger]
                canonical_matches(raw, reciprocal, a) && accepted(a, r),
        },
    }
}

/// Normalizes a decoded document in its format and accepts it when it
/// passes validation; what loads is in the document's source format.
pub fn load_metadata_document(document: &VatMetadataDocument) -> (r: Result<
    VatAnimationData,
    VatMetadataLoadError,
>)
    requires
        document matches VatMetadataDocument::OpenVat(raw) ==> animation_keys_ascend(
            raw.animations@,
        ),
    ensures
        document_load_outcome(*document, r),
        r matches Ok(a) ==> a.source_format == kind_format(document_kind(*document)),
{
    match document {
        VatMetadataDocument::OpenVat(raw) => match openvat_into_asset(raw) {
            Ok(a) => {
                let r = accept_metadata(a);
                assert(openvat_matches(*raw, a) && accepted(a, r));
                r
            },
            Err(e) => Err(e),
        },
        VatMetadataDocument::Canonical(raw, reciprocal) => match canonical_into_asset(
            raw,
            *reciprocal,
        ) {
            Ok(a) => {
                let r = accept_metadata(a);
                assert(canonical_matches(*raw, *reciprocal, a) && accepted(a, r));
                r
            },
            Err(e) => Err(e),
        },
    }
}

/// Loads a metadata document from the top-level keys it has and, when
/// those keys name a format, its decoding in that format. With none of the
/// keys `os-remap`, `vertex_count` and `format` the document is
/// unsupported. Otherwise the decoded document is normalized and accepted
/// when it passes validation, and what loads is OpenVAT metadata exactly
/// when the document has an `os-remap` key.
pub fn load_metadata(
    has_os_remap: bool,
    has_vertex_count: bool,
    has_format: bool,
    document: Option<VatMetadataDocument>,
) -> (r: Result<VatAnimationData, VatMetadataLoadError>)
    requires
        kind_of_keys(has_os_remap, has_vertex_count, has_format) matches Some(kind) ==> (
        document matches Some(d) && document_kind(d) == kind),
        document matches Some(VatMetadataDocument::OpenVat(raw)) ==> animation_keys_ascend(
            raw.animations@,
        ),
    ensures
        match kind_of_keys(has_os_remap, has_vertex_count, has_format) {
            None => r matches Err(e) && fault_of(e) == no_format_fault(),
            Some(_) => document_load_outcome(document->0, r),
        },
        r matches Ok(a) ==> a.source_format == (if has_os_remap {
            VatSourceFormat::OpenVat
        } else {
            VatSourceFormat::Canonical
        }),
{
    match classify_metadata(has_os_remap, has_vertex_count, has_format) {
        Ok(_) => {},
        Err(e) => {
            return Err(e);
        },
    }
    match document {
        Some(d) => load_metadata_document(&d),
        None => Err(
            VatMetadataLoadError::UnsupportedFormat(
                String::from_str(
                    "expected canonical VAT metadata or OpenVAT-compatible remap metadata",
                ),
            ),
        ),
    }
}

} // verus!
