//! Geometry data, the typed resource table, and the per-frame callback that
//! records the fixed command order of a painted frame.
//!
//! A frame is painted in two phases. `prepare` performs the CPU-to-GPU
//! uploads against the table's mutable resources; `paint` records binding and
//! draw commands in a fixed order. Here the commands recorded into a render
//! pass are plain data ([`PaintCmd`]), so the order and the bind-group slot
//! numbers — the wire contract with the shader — are stated and checked; an
//! unverified host replays the recorded commands against the real pass.

use vstd::prelude::*;

use crate::camera::CameraResources;
use crate::texture::TextureResource;
use crate::texture::TextureWriteLayout;

verus! {

/// Number of vertices in the pentagon fan.
pub const NUM_VERTICES: usize = 5;

/// The index list of the pentagon fan: three triangles sharing vertex 4.
pub open spec fn spec_indices() -> Seq<u16> {
    seq![0u16, 1u16, 4u16, 1u16, 2u16, 4u16, 2u16, 3u16, 4u16]
}

/// The indices uploaded to the index buffer, as executable data.
pub fn indices() -> (r: Vec<u16>)
    ensures
        r@ == spec_indices(),
{
    let mut v: Vec<u16> = Vec::new();
    v.push(0);
    v.push(1);
    v.push(4);
    v.push(1);
    v.push(2);
    v.push(4);
    v.push(2);
    v.push(3);
    v.push(4);
    proof {
        assert(v@ =~= spec_indices());
    }
    v
}

/// The index list describes exactly three triangles over the five vertices:
/// nine indices, each one in bounds for the vertex buffer, and the fan apex
/// (the highest index, 4) is used.
pub proof fn lemma_geometry_fan()
    ensures
        spec_indices().len() == 9,
        forall|i: int| 0 <= i < spec_indices().len() ==> (spec_indices()[i] as int) < NUM_VERTICES as int,
        spec_indices().contains(4u16),
{
    assert(spec_indices()[2] == 4u16);
}

/// Which of the two shader-visible bind groups a command binds.
#[derive(Clone, Copy, Debug, PartialEq, Eq)]
pub enum BindGroupKind {
    /// slot 0: one uniform buffer holding the view-projection matrix
    Camera,
    /// slot 1: the diffuse texture view and its sampler
    Texture,
}

/// The layout of the values in the index buffer.
#[derive(Clone, Copy, Debug, PartialEq, Eq)]
pub enum IndexFormat {
    Uint16,
    Uint32,
}

/// One command recorded into an already-open render pass.
#[derive(Clone, Copy, Debug, PartialEq, Eq)]
pub enum PaintCmd {
    /// bind the session's single render pipeline
    SetPipeline,
    /// bind a bind group to a numbered slot
    SetBindGroup { slot: u32, group: BindGroupKind },
    /// bind the vertex buffer to a numbered slot
    SetVertexBuffer { slot: u32 },
    /// bind the index buffer
    SetIndexBuffer { format: IndexFormat },
    /// one indexed draw over `index_start..index_end`,
    /// instances `instance_start..instance_end`
    DrawIndexed {
        index_start: u32,
        index_end: u32,
        base_vertex: i32,
        instance_start: u32,
        instance_end: u32,
    },
}

/// Stands for a recorded GPU command buffer submitted outside the main
/// render pass. The prepare phase of this design never produces one.
pub struct CommandBuffer {}

/// Stands for the session's compiled render pipeline, shared by every
/// resource that binds it; painting binds the pipeline first.
pub struct PipelineResources {}

impl PipelineResources {
    /// Record this resource's part of the paint phase: bind the pipeline.
    pub fn paint(&self) -> (cmds: Vec<PaintCmd>)
        ensures
            cmds@ == seq![PaintCmd::SetPipeline],
    {
        let mut cmds: Vec<PaintCmd> = Vec::new();
        cmds.push(PaintCmd::SetPipeline);
        proof {
            assert(cmds@ =~= seq![PaintCmd::SetPipeline]);
        }
        cmds
    }
}

/// The geometry resource: stages the fixed index list of the pentagon fan,
/// whose buffers the host uploads once and never mutates.
pub struct RenderResources {
    /// the staged contents of the index buffer
    pub indices: Vec<u16>,
}

impl RenderResources {
    /// A geometry resource staging the fan's fixed index list. The host
    /// uploads [`Self::indices`] (and the matching five vertices) once.
    pub fn new() -> (r: Self)
        ensures
            r.indices@ == spec_indices(),
    {
        RenderResources { indices: indices() }
    }

    /// How many vertices the fixed vertex buffer holds.
    pub fn num_vertices(&self) -> (n: usize)
        ensures
            n == NUM_VERTICES,
    {
        NUM_VERTICES
    }

    /// How many indices one indexed draw covers.
    pub fn num_indices(&self) -> (n: u32)
        ensures
            n == spec_indices().len(),
    {
        9
    }

    /// Record this resource's part of the paint phase: bind the vertex
    /// buffer to slot 0, then the index buffer as 16-bit indices.
    pub fn paint(&self) -> (cmds: Vec<PaintCmd>)
        ensures
            cmds@ == seq![
                (PaintCmd::SetVertexBuffer { slot: 0u32 }),
                (PaintCmd::SetIndexBuffer { format: IndexFormat::Uint16 }),
            ],
    {
        let mut cmds: Vec<PaintCmd> = Vec::new();
        cmds.push(PaintCmd::SetVertexBuffer { slot: 0 });
        cmds.push(PaintCmd::SetIndexBuffer { format: IndexFormat::Uint16 });
        proof {
            assert(cmds@ =~= seq![
                (PaintCmd::SetVertexBuffer { slot: 0u32 }),
                (PaintCmd::SetIndexBuffer { format: IndexFormat::Uint16 }),
            ]);
        }
        cmds
    }
}

/// The format of one vertex attribute. Only the two used by the fan's
/// vertex layout are modelled.
#[derive(Clone, Copy, Debug, PartialEq, Eq)]
pub enum VertexFormat {
    /// two 32-bit floats
    Float32x2,
    /// three 32-bit floats
    Float32x3,
}

/// One attribute of the vertex buffer layout: where it starts within a
/// vertex and which shader location reads it.
#[derive(Clone, Copy, Debug, PartialEq, Eq)]
pub struct VertexAttribute {
    pub offset: u64,
    pub shader_location: u32,
    pub format: VertexFormat,
}

/// The layout of the vertex buffer: the per-vertex stride and the
/// attributes, advanced once per vertex.
pub struct VertexBufferLayout {
    /// bytes from one vertex to the next
    pub array_stride: u64,
    pub attributes: Vec<VertexAttribute>,
}

/// The vertex layout the shader expects, a wire contract: three position
/// floats then two texture-coordinate floats, tightly packed — twenty bytes
/// per vertex, position at offset 0 in location 0, texture coordinates at
/// offset 12 in location 1.
pub fn vertex_layout() -> (l: VertexBufferLayout)
    ensures
        l.array_stride == 20,
        l.attributes@ == seq![
            (VertexAttribute { offset: 0u64, shader_location: 0u32, format: VertexFormat::Float32x3 }),
            (VertexAttribute { offset: 12u64, shader_location: 1u32, format: VertexFormat::Float32x2 }),
        ],
{
    let mut attributes: Vec<VertexAttribute> = Vec::new();
    attributes.push(VertexAttribute { offset: 0, shader_location: 0, format: VertexFormat::Float32x3 });
    attributes.push(
        VertexAttribute { offset: 12, shader_location: 1, format: VertexFormat::Float32x2 },
    );
    proof {
        assert(attributes@ =~= seq![
            (VertexAttribute { offset: 0u64, shader_location: 0u32, format: VertexFormat::Float32x3 }),
            (VertexAttribute { offset: 12u64, shader_location: 1u32, format: VertexFormat::Float32x2 }),
        ]);
    }
    VertexBufferLayout { array_stride: 20, attributes }
}

/// What the compiled pipeline is built from, as far as the library's wire
/// contracts reach: the order of the bind-group layouts — which fixes the
/// slot numbering, camera 0 then texture 1 — and the vertex buffer layout.
pub struct PipelineDesc {
    /// bind-group layouts in slot order
    pub bind_group_order: Vec<BindGroupKind>,
    pub vertex_layout: VertexBufferLayout,
}

/// The descriptor of the session's single render pipeline. The host
/// compiles the shader and fixed-function state from it; the slot order and
/// vertex layout stated here are what the paint phase and the shader rely
/// on.
pub fn create_render_pipeline() -> (d: PipelineDesc)
    ensures
        d.bind_group_order@ == seq![BindGroupKind::Camera, BindGroupKind::Texture],
        d.vertex_layout.array_stride == 20,
        d.vertex_layout.attributes@ == seq![
            (VertexAttribute { offset: 0u64, shader_location: 0u32, format: VertexFormat::Float32x3 }),
            (VertexAttribute { offset: 12u64, shader_location: 1u32, format: VertexFormat::Float32x2 }),
        ],
{
    let mut bind_group_order: Vec<BindGroupKind> = Vec::new();
    bind_group_order.push(BindGroupKind::Camera);
    bind_group_order.push(BindGroupKind::Texture);
    proof {
        assert(bind_group_order@ =~= seq![BindGroupKind::Camera, BindGroupKind::Texture]);
    }
    PipelineDesc { bind_group_order, vertex_layout: vertex_layout() }
}

/// Marker for the types a frame's callback may look up in the resource
/// table: exactly the variants of [`ResourceEntry`].
pub trait Resource {}

impl Resource for PipelineResources {}

impl Resource for RenderResources {}

impl Resource for CameraResources {}

impl Resource for TextureResource {}

/// The identity a resource is keyed by in the table: its kind. At most one
/// resource of each kind exists per render session.
#[derive(Clone, Copy, Debug, PartialEq, Eq)]
pub enum ResourceKind {
    Pipeline,
    Geometry,
    Camera,
    Texture,
}

/// One owned resource, tagged with its kind.
pub enum ResourceEntry {
    Pipeline(PipelineResources),
    Geometry(RenderResources),
    Camera(CameraResources),
    Texture(TextureResource),
}

impl ResourceEntry {
    /// The kind this entry is keyed by.
    pub open spec fn kind(self) -> ResourceKind {
        match self {
            ResourceEntry::Pipeline(_) => ResourceKind::Pipeline,
            ResourceEntry::Geometry(_) => ResourceKind::Geometry,
            ResourceEntry::Camera(_) => ResourceKind::Camera,
            ResourceEntry::Texture(_) => ResourceKind::Texture,
        }
    }
}

/// The kind-indexed registry of the render session's resources: at most one
/// owned resource per kind. Seeded once at setup; it outlives every frame's
/// callback, and nothing is ever removed from it.
pub struct ResourceTable {
    pub pipeline: Option<PipelineResources>,
    pub geometry: Option<RenderResources>,
    pub camera: Option<CameraResources>,
    pub texture: Option<TextureResource>,
}

impl ResourceTable {
    /// The table with nothing inserted.
    pub open spec fn spec_empty() -> ResourceTable {
        ResourceTable { pipeline: None, geometry: None, camera: None, texture: None }
    }

    /// The entry a kind resolves to, if one was inserted.
    pub open spec fn entry(self, k: ResourceKind) -> Option<ResourceEntry> {
        match k {
            ResourceKind::Pipeline => match self.pipeline {
                Some(p) => Some(ResourceEntry::Pipeline(p)),
                None => None,
            },
            ResourceKind::Geometry => match self.geometry {
                Some(g) => Some(ResourceEntry::Geometry(g)),
                None => None,
            },
            ResourceKind::Camera => match self.camera {
                Some(c) => Some(ResourceEntry::Camera(c)),
                None => None,
            },
            ResourceKind::Texture => match self.texture {
                Some(t) => Some(ResourceEntry::Texture(t)),
                None => None,
            },
        }
    }

    /// Whether a resource of this kind was inserted.
    pub open spec fn contains_kind(self, k: ResourceKind) -> bool {
        self.entry(k) is Some
    }

    /// The table after an insertion: the entry of the new resource's kind is
    /// replaced — insertion never accumulates — and every other kind keeps
    /// its entry.
    pub open spec fn spec_insert(self, e: ResourceEntry) -> ResourceTable {
        match e {
            ResourceEntry::Pipeline(p) => ResourceTable { pipeline: Some(p), ..self },
            ResourceEntry::Geometry(g) => ResourceTable { geometry: Some(g), ..self },
            ResourceEntry::Camera(c) => ResourceTable { camera: Some(c), ..self },
            ResourceEntry::Texture(t) => ResourceTable { texture: Some(t), ..self },
        }
    }

    /// Whether the texture resource is present and its bind group exists,
    /// so that the paint phase binds it.
    pub open spec fn texture_ready(self) -> bool {
        match self.texture {
            Some(t) => t.bind_group_ready,
            None => false,
        }
    }

    /// Every staged texture is internally consistent.
    pub open spec fn wf(self) -> bool {
        match self.texture {
            Some(t) => t.wf(),
            None => true,
        }
    }

    /// An empty table.
    pub fn new() -> (t: Self)
        ensures
            t == Self::spec_empty(),
    {
        ResourceTable { pipeline: None, geometry: None, camera: None, texture: None }
    }

    /// Store a resource keyed by its kind, replacing any prior instance of
    /// that kind.
    pub fn insert(&mut self, resource: ResourceEntry)
        ensures
            *final(self) == old(self).spec_insert(resource),
    {
        match resource {
            ResourceEntry::Pipeline(p) => {
                self.pipeline = Some(p);
            },
            ResourceEntry::Geometry(g) => {
                self.geometry = Some(g);
            },
            ResourceEntry::Camera(c) => {
                self.camera = Some(c);
            },
            ResourceEntry::Texture(t) => {
                self.texture = Some(t);
            },
        }
    }

    /// The pipeline resource, if seeded.
    pub fn get_pipeline(&self) -> (r: Option<&PipelineResources>)
        ensures
            r is Some <==> self.pipeline is Some,
            r matches Some(p) ==> self.pipeline == Some(*p),
    {
        self.pipeline.as_ref()
    }

    /// The geometry resource, if seeded.
    pub fn get_geometry(&self) -> (r: Option<&RenderResources>)
        ensures
            r is Some <==> self.geometry is Some,
            r matches Some(g) ==> self.geometry == Some(*g),
    {
        self.geometry.as_ref()
    }

    /// The camera resource, if seeded.
    pub fn get_camera(&self) -> (r: Option<&CameraResources>)
        ensures
            r is Some <==> self.camera is Some,
            r matches Some(c) ==> self.camera == Some(*c),
    {
        self.camera.as_ref()
    }

    /// The texture resource, if seeded.
    pub fn get_texture(&self) -> (r: Option<&TextureResource>)
        ensures
            r is Some <==> self.texture is Some,
            r matches Some(t) ==> self.texture == Some(*t),
    {
        self.texture.as_ref()
    }

    /// Exclusive access to the camera resource, if seeded; the write side
    /// of a frame goes through it. No other entry is touched.
    pub fn get_camera_mut(&mut self) -> (r: Option<&mut CameraResources>)
        ensures
            r is Some <==> old(self).camera is Some,
            r is Some ==> *r.unwrap() == old(self).camera.unwrap()
                && final(self).camera == Some(*final(r.unwrap())),
            r is None ==> final(self).camera == old(self).camera,
            final(self).pipeline == old(self).pipeline,
            final(self).geometry == old(self).geometry,
            final(self).texture == old(self).texture,
    {
        self.camera.as_mut()
    }

    /// Exclusive access to the texture resource, if seeded; the write side
    /// of a frame goes through it. No other entry is touched.
    pub fn get_texture_mut(&mut self) -> (r: Option<&mut TextureResource>)
        ensures
            r is Some <==> old(self).texture is Some,
            r is Some ==> *r.unwrap() == old(self).texture.unwrap()
                && final(self).texture == Some(*final(r.unwrap())),
            r is None ==> final(self).texture == old(self).texture,
            final(self).pipeline == old(self).pipeline,
            final(self).geometry == old(self).geometry,
            final(self).camera == old(self).camera,
    {
        self.texture.as_mut()
    }
}

/// Inserting a resource and then looking its kind up yields exactly the
/// inserted resource, and the entry of every other kind is untouched.
pub proof fn lemma_insert_then_get(t: ResourceTable, e: ResourceEntry)
    ensures
        t.spec_insert(e).entry(e.kind()) == Some(e),
        forall|k: ResourceKind| k != e.kind() ==> t.spec_insert(e).entry(k) == t.entry(k),
{
}

/// Looking up a kind that was never inserted fails, deterministically: on a
/// fresh table every kind resolves to no resource.
pub proof fn lemma_fresh_table_empty(k: ResourceKind)
    ensures
        ResourceTable::spec_empty().entry(k) is None,
{
}

/// Owns the resource table for the whole render session: it seeds the
/// pipeline at construction and hands every further resource to the table.
pub struct Renderer {
    pub resources: ResourceTable,
}

impl Renderer {
    /// A renderer whose table holds the compiled pipeline and nothing else.
    pub fn new() -> (r: Renderer)
        ensures
            r.resources.pipeline is Some,
            r.resources.geometry is None,
            r.resources.camera is None,
            r.resources.texture is None,
    {
        let mut resources = ResourceTable::new();
        resources.insert(ResourceEntry::Pipeline(PipelineResources {}));
        Renderer { resources }
    }

    /// Store a fully constructed resource, keyed by its kind.
    pub fn add_resource(&mut self, resource: ResourceEntry)
        ensures
            final(self).resources == old(self).resources.spec_insert(resource),
    {
        self.resources.insert(resource);
    }
}

/// What one frame's prepare phase asks the host to do on the GPU queue: one
/// whole-texture pixel copy, and no command buffers beyond the main pass.
pub struct FramePrepare {
    /// layout of the staged-pixel upload
    pub texture_write: TextureWriteLayout,
    /// command buffers submitted outside the main pass: always none
    pub extra: Vec<CommandBuffer>,
}

/// The full fixed command order of one painted frame: pipeline first, then
/// the camera bind group in slot 0, the texture bind group in slot 1 only
/// once it is ready, the vertex and index buffers, and one indexed draw over
/// all nine indices, one instance.
pub open spec fn spec_frame_cmds(texture_ready: bool) -> Seq<PaintCmd> {
    seq![
        PaintCmd::SetPipeline,
        (PaintCmd::SetBindGroup { slot: 0u32, group: BindGroupKind::Camera }),
    ] + (if texture_ready {
        seq![(PaintCmd::SetBindGroup { slot: 1u32, group: BindGroupKind::Texture })]
    } else {
        Seq::<PaintCmd>::empty()
    }) + seq![
        (PaintCmd::SetVertexBuffer { slot: 0u32 }),
        (PaintCmd::SetIndexBuffer { format: IndexFormat::Uint16 }),
        (PaintCmd::DrawIndexed {
            index_start: 0u32,
            index_end: spec_indices().len() as u32,
            base_vertex: 0i32,
            instance_start: 0u32,
            instance_end: 1u32,
        }),
    ]
}

/// The recorded frame honours the pass's wire contract whatever the texture
/// state: the pipeline is bound before everything else, every camera bind
/// goes to slot 0 and every texture bind to slot 1, and the frame ends with
/// the one indexed draw covering all nine indices in a single instance.
pub proof fn lemma_frame_paint_order(texture_ready: bool)
    ensures
        spec_frame_cmds(texture_ready).len() == if texture_ready { 6int } else { 5int },
        spec_frame_cmds(texture_ready)[0] == PaintCmd::SetPipeline,
        spec_frame_cmds(texture_ready).last() == (PaintCmd::DrawIndexed {
            index_start: 0u32,
            index_end: spec_indices().len() as u32,
            base_vertex: 0i32,
            instance_start: 0u32,
            instance_end: 1u32,
        }),
        forall|i: int|
            0 <= i < spec_frame_cmds(texture_ready).len()
                ==> match #[trigger] spec_frame_cmds(texture_ready)[i] {
                    PaintCmd::SetBindGroup { slot, group } => (slot == 0 <==> group
                        == BindGroupKind::Camera) && (slot == 1 <==> group
                        == BindGroupKind::Texture),
                    _ => true,
                },
{
    if texture_ready {
        assert(spec_frame_cmds(true) =~= seq![
            PaintCmd::SetPipeline,
            (PaintCmd::SetBindGroup { slot: 0u32, group: BindGroupKind::Camera }),
            (PaintCmd::SetBindGroup { slot: 1u32, group: BindGroupKind::Texture }),
            (PaintCmd::SetVertexBuffer { slot: 0u32 }),
            (PaintCmd::SetIndexBuffer { format: IndexFormat::Uint16 }),
            (PaintCmd::DrawIndexed {
                index_start: 0u32,
                index_end: 9u32,
                base_vertex: 0i32,
                instance_start: 0u32,
                instance_end: 1u32,
            }),
        ]);
    } else {
        assert(spec_frame_cmds(false) =~= seq![
            PaintCmd::SetPipeline,
            (PaintCmd::SetBindGroup { slot: 0u32, group: BindGroupKind::Camera }),
            (PaintCmd::SetVertexBuffer { slot: 0u32 }),
            (PaintCmd::SetIndexBuffer { format: IndexFormat::Uint16 }),
            (PaintCmd::DrawIndexed {
                index_start: 0u32,
                index_end: 9u32,
                base_vertex: 0i32,
                instance_start: 0u32,
                instance_end: 1u32,
            }),
        ]);
    }
}

/// The per-frame unit of work the host enqueues for the panel's rectangle:
/// prepare uploads against the table's mutable resources, paint records the
/// fixed command order into the open render pass.
pub struct CustomTriangleCallback {}

impl CustomTriangleCallback {
    /// The write side of the frame: refresh the camera uniform from this
    /// frame's finished matrix and stage the texture pixels. The two updates
    /// are independent — neither reads what the other wrote — and the
    /// pipeline and geometry entries are untouched.
    pub fn prepare(&self, resources: &mut ResourceTable, view_proj: Vec<u8>) -> (out: FramePrepare)
        requires
            old(resources).contains_kind(ResourceKind::Camera),
            old(resources).contains_kind(ResourceKind::Texture),
            old(resources).wf(),
            view_proj@.len() == 64,
        ensures
            final(resources).wf(),
            final(resources).camera is Some,
            final(resources).camera matches Some(c) ==> c.camera_uniform.wf()
                && c.camera_uniform.view_proj@ == view_proj@,
            match (old(resources).texture, final(resources).texture) {
                (Some(t0), Some(t1)) => t1.is_prepared_from(t0)
                    && t0.spec_write_layout(out.texture_write),
                _ => false,
            },
            final(resources).pipeline == old(resources).pipeline,
            final(resources).geometry == old(resources).geometry,
            out.extra@.len() == 0,
    {
        match resources.get_camera_mut() {
            Some(c) => {
                c.prepare(view_proj);
            },
            None => {
                proof {
                    assert(false);
                }
            },
        }
        let texture_write: TextureWriteLayout;
        match resources.get_texture_mut() {
            Some(t) => {
                texture_write = t.prepare();
            },
            None => {
                proof {
                    assert(false);
                }
                texture_write = TextureWriteLayout {
                    offset: 0,
                    bytes_per_row: 0,
                    rows_per_image: 0,
                    width: 0,
                    height: 0,
                    depth_or_array_layers: 0,
                    mip_level: 0,
                };
            },
        }
        FramePrepare { texture_write, extra: Vec::new() }
    }

    /// The read side of the frame: record the paint commands in their fixed
    /// order. Every resource must have been seeded at setup; only the
    /// texture may still be waiting for its bind group, and then its bind is
    /// skipped.
    pub fn paint(&self, resources: &ResourceTable) -> (cmds: Vec<PaintCmd>)
        requires
            resources.contains_kind(ResourceKind::Pipeline),
            resources.contains_kind(ResourceKind::Geometry),
            resources.contains_kind(ResourceKind::Camera),
            resources.contains_kind(ResourceKind::Texture),
        ensures
            cmds@ == spec_frame_cmds(resources.texture_ready()),
    {
        let mut cmds: Vec<PaintCmd>;
        match resources.get_pipeline() {
            Some(p) => {
                cmds = p.paint();
            },
            None => {
                proof {
                    assert(false);
                }
                cmds = Vec::new();
            },
        }
        match resources.get_camera() {
            Some(c) => {
                let mut more = c.paint();
                cmds.append(&mut more);
            },
            None => {
                proof {
                    assert(false);
                }
            },
        }
        match resources.get_texture() {
            Some(t) => {
                let mut more = t.paint();
                cmds.append(&mut more);
            },
            None => {
                proof {
                    assert(false);
                }
            },
        }
        match resources.get_geometry() {
            Some(g) => {
                let mut more = g.paint();
                cmds.append(&mut more);
            },
            None => {
                proof {
                    assert(false);
                }
            },
        }
        cmds.push(PaintCmd::DrawIndexed {
            index_start: 0,
            index_end: 9,
            base_vertex: 0,
            instance_start: 0,
            instance_end: 1,
        });
        proof {
            assert(cmds@ =~= spec_frame_cmds(resources.texture_ready()));
        }
        cmds
    }
}

/// A frame callback that runs the camera's steps alone: its prepare
/// refreshes the uniform, its paint binds the camera bind group to slot 0.
pub struct CustomCameraCallback {}

impl CustomCameraCallback {
    /// Refresh the camera uniform from this frame's finished matrix; no
    /// other entry changes, and no extra command buffers are produced.
    pub fn prepare(&self, resources: &mut ResourceTable, view_proj: Vec<u8>) -> (extra: Vec<
        CommandBuffer,
    >)
        requires
            old(resources).contains_kind(ResourceKind::Camera),
            view_proj@.len() == 64,
        ensures
            final(resources).camera is Some,
            final(resources).camera matches Some(c) ==> c.camera_uniform.wf()
                && c.camera_uniform.view_proj@ == view_proj@,
            final(resources).pipeline == old(resources).pipeline,
            final(resources).geometry == old(resources).geometry,
            final(resources).texture == old(resources).texture,
            extra@.len() == 0,
    {
        match resources.get_camera_mut() {
            Some(c) => {
                c.prepare(view_proj);
            },
            None => {
                proof {
                    assert(false);
                }
            },
        }
        Vec::new()
    }

    /// Record the camera's paint command: bind slot 0.
    pub fn paint(&self, resources: &ResourceTable) -> (cmds: Vec<PaintCmd>)
        requires
            resources.contains_kind(ResourceKind::Camera),
        ensures
            cmds@ == seq![(PaintCmd::SetBindGroup { slot: 0u32, group: BindGroupKind::Camera })],
    {
        let cmds: Vec<PaintCmd>;
        match resources.get_camera() {
            Some(c) => {
                cmds = c.paint();
            },
            None => {
                proof {
                    assert(false);
                }
                cmds = Vec::new();
            },
        }
        cmds
    }
}

} // verus!
