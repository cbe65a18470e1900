//! The camera's controller flags, the GPU-layout uniform the camera drives,
//! and the camera's per-frame resource steps.
//!
//! The floating-point camera state itself (eye, target, up, projection) and
//! the view-projection algebra over it live with the unverified host; the
//! library receives the finished matrix as 64 bytes in shader layout and
//! pins down everything around it: what the controller flags become after an
//! input poll, what the uniform buffer holds, and what the paint phase binds.

use vstd::prelude::*;

use crate::renderer::BindGroupKind;
use crate::renderer::PaintCmd;

verus! {

/// One frame's input poll: whether each of the four direction keys was
/// pressed this tick.
#[derive(Clone, Copy, Debug, PartialEq, Eq)]
pub struct InputSnapshot {
    pub forward_pressed: bool,
    pub backward_pressed: bool,
    pub left_pressed: bool,
    pub right_pressed: bool,
}

/// The controller's key-state flags, sampled once per UI tick and consumed
/// once per frame by the host's camera update.
///
/// The flags record key-pressed-this-tick events, not keys currently held:
/// a single tap yields exactly one discrete camera step, and continuous
/// motion takes repeated taps. That is the intended input wiring; do not
/// silently turn it into held-key semantics.
pub struct CameraController {
    pub is_forward_pressed: bool,
    pub is_backward_pressed: bool,
    pub is_left_pressed: bool,
    pub is_right_pressed: bool,
}

impl CameraController {
    /// A controller with no key pressed yet.
    pub fn new() -> (c: Self)
        ensures
            !c.is_forward_pressed,
            !c.is_backward_pressed,
            !c.is_left_pressed,
            !c.is_right_pressed,
    {
        CameraController {
            is_forward_pressed: false,
            is_backward_pressed: false,
            is_left_pressed: false,
            is_right_pressed: false,
        }
    }

    /// Sample this tick's input: every flag is overwritten from the
    /// snapshot — polls do not accumulate across ticks.
    pub fn process_events(&mut self, input: &InputSnapshot)
        ensures
            final(self).is_forward_pressed == input.forward_pressed,
            final(self).is_backward_pressed == input.backward_pressed,
            final(self).is_left_pressed == input.left_pressed,
            final(self).is_right_pressed == input.right_pressed,
    {
        self.is_forward_pressed = input.forward_pressed;
        self.is_backward_pressed = input.backward_pressed;
        self.is_left_pressed = input.left_pressed;
        self.is_right_pressed = input.right_pressed;
    }
}

/// The 64 bytes of the identity matrix in the uniform's layout: sixteen
/// little-endian 32-bit float words, column-major, ones on the diagonal.
pub open spec fn spec_identity_matrix_bytes() -> Seq<u8> {
    seq![
        0u8, 0u8, 0x80u8, 0x3fu8, 0u8, 0u8, 0u8, 0u8, 0u8, 0u8, 0u8, 0u8, 0u8, 0u8, 0u8, 0u8,
        0u8, 0u8, 0u8, 0u8, 0u8, 0u8, 0x80u8, 0x3fu8, 0u8, 0u8, 0u8, 0u8, 0u8, 0u8, 0u8, 0u8,
        0u8, 0u8, 0u8, 0u8, 0u8, 0u8, 0u8, 0u8, 0u8, 0u8, 0x80u8, 0x3fu8, 0u8, 0u8, 0u8, 0u8,
        0u8, 0u8, 0u8, 0u8, 0u8, 0u8, 0u8, 0u8, 0u8, 0u8, 0u8, 0u8, 0u8, 0u8, 0x80u8, 0x3fu8,
    ]
}

/// The camera uniform in the exact form the shader reads: one 4x4 matrix as
/// 64 bytes — sixteen column-major little-endian 32-bit float words, no
/// padding. Derived from the camera every frame; stale until the first
/// update runs.
pub struct CameraUniform {
    /// the view-projection matrix bytes
    pub view_proj: Vec<u8>,
}

impl CameraUniform {
    /// The uniform buffer holds a whole matrix.
    pub open spec fn wf(self) -> bool {
        self.view_proj@.len() == 64
    }

    /// A fresh uniform holding the identity matrix.
    pub fn new() -> (u: Self)
        ensures
            u.wf(),
            u.view_proj@ == spec_identity_matrix_bytes(),
    {
        let mut v: Vec<u8> = Vec::new();
        let mut e: usize = 0;
        while e < 16
            invariant
                e <= 16,
                v@.len() == 4 * e,
                forall|i: int| 0 <= i < v@.len() ==> v@[i] == spec_identity_matrix_bytes()[i],
            decreases 16 - e,
        {
            if e % 5 == 0 {
                v.push(0);
                v.push(0);
                v.push(0x80);
                v.push(0x3f);
            } else {
                v.push(0);
                v.push(0);
                v.push(0);
                v.push(0);
            }
            e = e + 1;
        }
        proof {
            assert(v@ =~= spec_identity_matrix_bytes());
        }
        CameraUniform { view_proj: v }
    }

    /// Overwrite the buffer with this frame's matrix, already in shader
    /// layout. No dirty tracking: the caller runs this every frame whether
    /// or not the camera changed.
    pub fn update_view_proj(&mut self, view_proj: Vec<u8>)
        requires
            view_proj@.len() == 64,
        ensures
            final(self).wf(),
            final(self).view_proj@ == view_proj@,
    {
        self.view_proj = view_proj;
    }
}

/// The update step pins the buffer down as a function of the handed matrix
/// alone, so running it twice with an unchanged matrix leaves bit-identical
/// buffer contents: the uniform upload is idempotent.
pub proof fn lemma_uniform_update_idempotent(once: CameraUniform, twice: CameraUniform, m: Seq<u8>)
    requires
        once.view_proj@ == m,
        twice.view_proj@ == m,
    ensures
        once.view_proj@ == twice.view_proj@,
{
}

/// The binding number of the uniform buffer within the camera's bind group,
/// a wire contract with the vertex shader.
#[derive(Clone, Copy, Debug, PartialEq, Eq)]
pub struct CameraBindLayout {
    pub uniform_binding: u32,
}

/// The camera's entry in the resource table: the uniform its prepare step
/// refreshes. Its bind group and buffer are created at setup and stay valid
/// for the whole session, so paint may always bind slot 0.
pub struct CameraResources {
    pub camera_uniform: CameraUniform,
}

impl CameraResources {
    /// A camera resource whose uniform still holds the identity matrix.
    pub fn new() -> (c: Self)
        ensures
            c.camera_uniform.wf(),
            c.camera_uniform.view_proj@ == spec_identity_matrix_bytes(),
    {
        CameraResources { camera_uniform: CameraUniform::new() }
    }

    /// Set up the camera's GPU-side state: a uniform buffer seeded with the
    /// identity matrix, and a bind group whose single binding, number 0, is
    /// that buffer. The host creates the real buffer and bind group from
    /// what this returns.
    pub fn create_camera_bind_group() -> (r: (CameraResources, CameraBindLayout))
        ensures
            r.0.camera_uniform.wf(),
            r.0.camera_uniform.view_proj@ == spec_identity_matrix_bytes(),
            r.1.uniform_binding == 0,
    {
        (CameraResources::new(), CameraBindLayout { uniform_binding: 0 })
    }

    /// The prepare phase of this resource: take this frame's finished matrix
    /// and refresh the uniform the host then writes to the GPU buffer at
    /// offset 0.
    pub fn prepare(&mut self, view_proj: Vec<u8>)
        requires
            view_proj@.len() == 64,
        ensures
            final(self).camera_uniform.wf(),
            final(self).camera_uniform.view_proj@ == view_proj@,
    {
        self.camera_uniform.update_view_proj(view_proj);
    }

    /// Record this resource's part of the paint phase: bind the camera's
    /// bind group to slot 0.
    pub fn paint(&self) -> (cmds: Vec<PaintCmd>)
        ensures
            cmds@ == seq![(PaintCmd::SetBindGroup { slot: 0u32, group: BindGroupKind::Camera })],
    {
        let mut cmds: Vec<PaintCmd> = Vec::new();
        cmds.push(PaintCmd::SetBindGroup { slot: 0, group: BindGroupKind::Camera });
        proof {
            assert(cmds@ =~= seq![
                (PaintCmd::SetBindGroup { slot: 0u32, group: BindGroupKind::Camera }),
            ]);
        }
        cmds
    }
}

} // verus!
