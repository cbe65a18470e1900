//! The texture resource: decoded RGBA8 pixels staged for upload, and the
//! not-ready-to-ready lifecycle of the texture's bind group.
//!
//! A texture starts constructed (pixels staged, no bind group). Creating the
//! bind group — once, at setup, after the pipeline's layout is known — makes
//! it paintable; until then its paint step records nothing and must not fail.
//! The prepare phase re-stages the pixels every frame; re-uploading unchanged
//! pixels is harmless, and `uploaded` records that it happened at least once.

use vstd::prelude::*;

use crate::renderer::BindGroupKind;
use crate::renderer::PaintCmd;

verus! {

/// Whether `image::load_from_memory` decodes these bytes, and the conversion
/// of the decoded image to an RGBA8 buffer returns.
pub uninterp spec fn decode_ok(bytes: Seq<u8>) -> bool;

/// The (width, height) in pixels of the image decoded from these bytes.
pub uninterp spec fn decoded_dims(bytes: Seq<u8>) -> (u32, u32);

/// The RGBA8 samples of the image decoded from these bytes, row by row,
/// four bytes per pixel.
pub uninterp spec fn decoded_rgba(bytes: Seq<u8>) -> Seq<u8>;

/// Relies on `image::load_from_memory` and `image::DynamicImage::to_rgba8`:
/// decoding is a function of the encoded bytes alone, and the raw buffer of
/// the RGBA8 conversion holds exactly four bytes per pixel of the decoded
/// width and height (`ImageBuffer` allocates width * height * 4 samples).
#[verifier::external_body]
fn decode_rgba(bytes: &[u8]) -> (r: Option<(u32, u32, Vec<u8>)>)
    ensures
        r is Some <==> decode_ok(bytes@),
        r matches Some(t) ==> {
            &&& (t.0, t.1) == decoded_dims(bytes@)
            &&& t.2@ == decoded_rgba(bytes@)
            &&& t.2@.len() == 4 * (t.0 as int) * (t.1 as int)
        },
{
    match image::load_from_memory(bytes) {
        Ok(img) => {
            let rgba = img.to_rgba8();
            let (w, h) = rgba.dimensions();
            Some((w, h, rgba.into_raw()))
        }
        Err(_) => None,
    }
}

/// Why constructing a texture resource failed. Either way the session's
/// setup cannot continue: the demo texture is a startup asset.
#[derive(Clone, Copy, Debug, PartialEq, Eq)]
pub enum TextureError {
    /// the bytes do not decode as an image
    Decode,
    /// a pixel row of the decoded image does not fit the 32-bit row pitch
    /// of the upload layout
    RowPitchTooLarge,
}

/// The layout of one whole-texture pixel upload: where the staged bytes go
/// and how they are strided. Mirrors what the copy command on the GPU queue
/// takes, so a host can replay it verbatim.
#[derive(Clone, Copy, Debug, PartialEq, Eq)]
pub struct TextureWriteLayout {
    /// byte offset into the staged buffer
    pub offset: u64,
    /// bytes per pixel row: four per pixel, tightly packed
    pub bytes_per_row: u32,
    /// rows per image: the full height
    pub rows_per_image: u32,
    /// extent of the copy, in pixels
    pub width: u32,
    /// extent of the copy, in pixels
    pub height: u32,
    /// a 2D texture is a 3D copy of depth one
    pub depth_or_array_layers: u32,
    /// the base mip level is the only one
    pub mip_level: u32,
}

/// The binding numbers of the texture's bind group, a wire contract with
/// the fragment shader.
#[derive(Clone, Copy, Debug, PartialEq, Eq)]
pub struct TextureBindLayout {
    /// binding of the texture view
    pub texture_binding: u32,
    /// binding of the sampler
    pub sampler_binding: u32,
}

/// Where a texture stands in its lifecycle. The stages advance one way:
/// construction stages the pixels, the bind group makes the texture
/// paintable, and the first prepare records an upload.
#[derive(Clone, Copy, Debug, PartialEq, Eq)]
pub enum TextureState {
    /// allocated and staged; no bind group, so paint records nothing
    Constructed,
    /// bind group created against the known layout; pixels not yet uploaded
    BindGroupReady,
    /// staged pixels handed to the queue at least once
    Uploaded,
}

/// A 2D RGBA8 texture: staged pixels, explicit dimensions, and whether the
/// lazily created bind group exists yet.
pub struct TextureResource {
    /// width in pixels
    pub width: u32,
    /// height in pixels
    pub height: u32,
    /// staged RGBA8 samples, four bytes per pixel, row by row
    pub rgba: Vec<u8>,
    /// whether the texture + sampler bind group has been created
    pub bind_group_ready: bool,
    /// whether the staged pixels have been handed to the queue at least once
    pub uploaded: bool,
}

impl TextureResource {
    /// The staged buffer holds exactly the texture's pixels, and a pixel row
    /// fits the 32-bit row pitch of the upload layout.
    pub open spec fn wf(self) -> bool {
        &&& self.rgba@.len() == 4 * self.width * self.height
        &&& 4 * self.width <= u32::MAX
    }

    /// The lifecycle stage, read off the resource: paintability is what the
    /// stages track, so pixels staged for upload count only once the bind
    /// group exists.
    pub open spec fn spec_state(self) -> TextureState {
        if !self.bind_group_ready {
            TextureState::Constructed
        } else if !self.uploaded {
            TextureState::BindGroupReady
        } else {
            TextureState::Uploaded
        }
    }

    /// Where this texture stands in its lifecycle.
    pub fn state(&self) -> (s: TextureState)
        ensures
            s == self.spec_state(),
    {
        if !self.bind_group_ready {
            TextureState::Constructed
        } else if !self.uploaded {
            TextureState::BindGroupReady
        } else {
            TextureState::Uploaded
        }
    }

    /// What the prepare phase leaves behind: the pixels, dimensions and
    /// bind-group state of `t0`, with the upload recorded.
    pub open spec fn is_prepared_from(self, t0: TextureResource) -> bool {
        &&& self.width == t0.width
        &&& self.height == t0.height
        &&& self.rgba@ == t0.rgba@
        &&& self.bind_group_ready == t0.bind_group_ready
        &&& self.uploaded
    }

    /// The upload layout that copies this texture's staged buffer whole:
    /// from its start, four bytes per pixel and tightly packed rows, to the
    /// base mip level of a depth-one 2D extent.
    pub open spec fn spec_write_layout(self, l: TextureWriteLayout) -> bool {
        &&& l.offset == 0
        &&& l.mip_level == 0
        &&& l.bytes_per_row == 4 * self.width
        &&& l.rows_per_image == self.height
        &&& l.width == self.width
        &&& l.height == self.height
        &&& l.depth_or_array_layers == 1
    }

    /// Decode an encoded image into a fresh texture resource: pixels staged,
    /// nothing uploaded, no bind group yet.
    pub fn new(image_bytes: &[u8]) -> (r: Result<TextureResource, TextureError>)
        ensures
            r is Ok <==> decode_ok(image_bytes@) && 4 * decoded_dims(image_bytes@).0 <= u32::MAX,
            r matches Ok(t) ==> {
                &&& t.wf()
                &&& (t.width, t.height) == decoded_dims(image_bytes@)
                &&& t.rgba@ == decoded_rgba(image_bytes@)
                &&& !t.bind_group_ready
                &&& !t.uploaded
            },
            r matches Err(e) ==> (e == TextureError::Decode <==> !decode_ok(image_bytes@)),
    {
        match decode_rgba(image_bytes) {
            Some((w, h, rgba)) => {
                if w <= u32::MAX / 4 {
                    Ok(TextureResource {
                        width: w,
                        height: h,
                        rgba,
                        bind_group_ready: false,
                        uploaded: false,
                    })
                } else {
                    Err(TextureError::RowPitchTooLarge)
                }
            },
            None => Err(TextureError::Decode),
        }
    }

    /// The prepare phase of this resource: stage the pixels for upload and
    /// hand back the layout of the copy. The staged bytes themselves do not
    /// change; uploading them again is harmless.
    pub fn prepare(&mut self) -> (layout: TextureWriteLayout)
        requires
            old(self).wf(),
        ensures
            final(self).wf(),
            final(self).is_prepared_from(*old(self)),
            old(self).spec_write_layout(layout),
    {
        self.uploaded = true;
        TextureWriteLayout {
            offset: 0,
            bytes_per_row: 4 * self.width,
            rows_per_image: self.height,
            width: self.width,
            height: self.height,
            depth_or_array_layers: 1,
            mip_level: 0,
        }
    }

    /// Create the texture's bind group against the now-known pipeline layout
    /// and report the binding numbers the fragment shader expects. From here
    /// on the paint phase binds the texture.
    pub fn get_bind_group(&mut self) -> (layout: TextureBindLayout)
        ensures
            final(self).bind_group_ready,
            final(self).width == old(self).width,
            final(self).height == old(self).height,
            final(self).rgba@ == old(self).rgba@,
            final(self).uploaded == old(self).uploaded,
            layout.texture_binding == 0,
            layout.sampler_binding == 1,
    {
        self.bind_group_ready = true;
        TextureBindLayout { texture_binding: 0, sampler_binding: 1 }
    }

    /// Record this resource's part of the paint phase: bind the texture's
    /// bind group to slot 1, or — before the bind group exists — record
    /// nothing at all.
    pub fn paint(&self) -> (cmds: Vec<PaintCmd>)
        ensures
            self.bind_group_ready ==> cmds@ == seq![
                (PaintCmd::SetBindGroup { slot: 1u32, group: BindGroupKind::Texture }),
            ],
            !self.bind_group_ready ==> cmds@ == Seq::<PaintCmd>::empty(),
    {
        let mut cmds: Vec<PaintCmd> = Vec::new();
        if self.bind_group_ready {
            cmds.push(PaintCmd::SetBindGroup { slot: 1, group: BindGroupKind::Texture });
            proof {
                assert(cmds@ =~= seq![
                    (PaintCmd::SetBindGroup { slot: 1u32, group: BindGroupKind::Texture }),
                ]);
            }
        } else {
            proof {
                assert(cmds@ =~= Seq::<PaintCmd>::empty());
            }
        }
        cmds
    }
}

} // verus!
