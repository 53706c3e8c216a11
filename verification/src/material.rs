//! The integer layout that the material hands to the vertex shader.
use vstd::prelude::*;

use crate::asset::{
    VatAnimationData, VatCoordinateSystem, VatNormalTexture, VatPlaybackSpace, VatPositionEncoding,
};

verus! {

/// Which image the material binds as its normal texture.
#[derive(Clone, Copy, Debug, PartialEq, Eq, Structural)]
pub enum VatNormalTextureBinding {
    /// The flat one-texel default normal image.
    FlatDefault,
    /// The separate normal texture the caller supplied.
    Provided,
}

/// Why a material cannot be built for a bake.
#[derive(Clone, Copy, Debug, PartialEq, Eq, Structural)]
pub enum VatMaterialBuildError {
    /// The metadata asks for a separate normal texture and none was supplied.
    MissingSeparateNormalTexture,
}

/// The integer part of the material uniform and the normal texture to bind.
#[derive(Clone, Copy, Debug, PartialEq, Eq)]
pub struct VatMaterialLayout {
    /// Position texture width, height, rows per frame, and the frame count.
    pub texture_layout: [u32; 4],
    /// Normal texture width, height, rows per frame, and the packed-normal row offset.
    pub normal_layout: [u32; 4],
    /// Position encoding, coordinate system, playback space and normal mode, as numbers.
    pub modes: [u32; 4],
    pub normal_texture: VatNormalTextureBinding,
}

/// The number the shader uses for a position encoding.
pub open spec fn position_encoding_code(e: VatPositionEncoding) -> u32 {
    match e {
        VatPositionEncoding::AbsoluteNormalizedBounds => 0,
        VatPositionEncoding::OffsetNormalizedBounds => 1,
    }
}

/// The number the shader uses for a coordinate system.
pub open spec fn coordinate_system_code(c: VatCoordinateSystem) -> u32 {
    match c {
        VatCoordinateSystem::YUpRightHanded => 0,
        VatCoordinateSystem::ZUpRightHanded => 1,
    }
}

/// The number the shader uses for a playback space.
pub open spec fn playback_space_code(p: VatPlaybackSpace) -> u32 {
    match p {
        VatPlaybackSpace::Local => 0,
        VatPlaybackSpace::World => 1,
    }
}

/// The number the shader uses for where normals come from.
pub open spec fn normal_mode_code(n: VatNormalTexture) -> u32 {
    match n {
        VatNormalTexture::Absent => 0,
        VatNormalTexture::PackedInPositionTexture { .. } => 1,
        VatNormalTexture::Separate { .. } => 2,
    }
}

/// The normal layout: the separate texture's width, height and rows per
/// frame, or a one-texel layout with the packed row offset.
pub open spec fn normal_layout_of(n: VatNormalTexture) -> Seq<u32> {
    match n {
        VatNormalTexture::Absent => seq![1, 1, 0, 0],
        VatNormalTexture::PackedInPositionTexture { row_offset, .. } => seq![1, 1, 0, row_offset],
        VatNormalTexture::Separate { texture, .. } => seq![
            texture.width,
            texture.height,
            texture.rows_per_frame,
            0,
        ],
    }
}

/// The layout a material for `animation` uses; fails only when the
/// metadata asks for a separate normal texture and none is supplied.
pub fn material_layout(animation: &VatAnimationData, has_normal_texture: bool) -> (r: Result<
    VatMaterialLayout,
    VatMaterialBuildError,
>)
    ensures
        (animation.normal_texture is Separate && !has_normal_texture) ==> r == Err::<
            VatMaterialLayout,
            VatMaterialBuildError,
        >(VatMaterialBuildError::MissingSeparateNormalTexture),
        !(animation.normal_texture is Separate && !has_normal_texture) ==> (r matches Ok(layout) && {
            &&& layout.texture_layout@ == seq![
                animation.position_texture.width,
                animation.position_texture.height,
                animation.position_texture.rows_per_frame,
                animation.frame_count,
            ]
            &&& layout.normal_layout@ == normal_layout_of(animation.normal_texture)
            &&& layout.modes@ == seq![
                position_encoding_code(animation.position_encoding),
                coordinate_system_code(animation.coordinate_system),
                playback_space_code(animation.playback_space),
                normal_mode_code(animation.normal_texture),
            ]
            &&& (layout.modes[0] == 0 <==> animation.position_encoding
                == VatPositionEncoding::AbsoluteNormalizedBounds)
            &&& (layout.modes[0] == 1 <==> animation.position_encoding
                == VatPositionEncoding::OffsetNormalizedBounds)
            &&& (layout.modes[1] == 0 <==> animation.coordinate_system
                == VatCoordinateSystem::YUpRightHanded)
            &&& (layout.modes[2] == 0 <==> animation.playback_space == VatPlaybackSpace::Local)
            &&& layout.normal_texture == (if animation.normal_texture is Separate {
                VatNormalTextureBinding::Provided
            } else {
                VatNormalTextureBinding::FlatDefault
            })
        }),
{
    let (normal_texture, normal_layout) = match &animation.normal_texture {
        VatNormalTexture::Absent => (VatNormalTextureBinding::FlatDefault, [1u32, 1, 0, 0]),
        VatNormalTexture::PackedInPositionTexture { row_offset, .. } => (
            VatNormalTextureBinding::FlatDefault,
            [1u32, 1, 0, *row_offset],
        ),
        VatNormalTexture::Separate { texture, .. } => {
            if !has_normal_texture {
                return Err(VatMaterialBuildError::MissingSeparateNormalTexture);
            }
            (
                VatNormalTextureBinding::Provided,
                [texture.width, texture.height, texture.rows_per_frame, 0],
            )
        },
    };
    let position_encoding: u32 = match animation.position_encoding {
        VatPositionEncoding::AbsoluteNormalizedBounds => 0,
        VatPositionEncoding::OffsetNormalizedBounds => 1,
    };
    let coordinate_system: u32 = match animation.coordinate_system {
        VatCoordinateSystem::YUpRightHanded => 0,
        VatCoordinateSystem::ZUpRightHanded => 1,
    };
    let playback_space: u32 = match animation.playback_space {
        VatPlaybackSpace::Local => 0,
        VatPlaybackSpace::World => 1,
    };
    let normal_mode: u32 = match animation.normal_texture {
        VatNormalTexture::Absent => 0,
        VatNormalTexture::PackedInPositionTexture { .. } => 1,
        VatNormalTexture::Separate { .. } => 2,
    };
    let layout = VatMaterialLayout {
        texture_layout: [
            animation.position_texture.width,
            animation.position_texture.height,
            animation.position_texture.rows_per_frame,
            animation.frame_count,
        ],
        normal_layout,
        modes: [position_encoding, coordinate_system, playback_space, normal_mode],
        normal_texture,
    };
    proof {
        assert(layout.texture_layout@ =~= seq![
            animation.position_texture.width,
            animation.position_texture.height,
            animation.position_texture.rows_per_frame,
            animation.frame_count,
        ]);
        assert(layout.normal_layout@ =~= normal_layout_of(animation.normal_texture));
        assert(layout.modes@ =~= seq![
            position_encoding_code(animation.position_encoding),
            coordinate_system_code(animation.coordinate_system),
            playback_space_code(animation.playback_space),
            normal_mode_code(animation.normal_texture),
        ]);
    }
    Ok(layout)
}

} // verus!
