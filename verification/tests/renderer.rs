use custom3d::camera::CameraResources;
use custom3d::renderer::create_render_pipeline;
use custom3d::renderer::indices;
use custom3d::renderer::BindGroupKind;
use custom3d::renderer::CustomCameraCallback;
use custom3d::renderer::CustomTriangleCallback;
use custom3d::renderer::IndexFormat;
use custom3d::renderer::PaintCmd;
use custom3d::renderer::RenderResources;
use custom3d::renderer::Renderer;
use custom3d::renderer::ResourceEntry;
use custom3d::renderer::ResourceTable;
use custom3d::renderer::VertexFormat;
use custom3d::texture::TextureResource;

fn one_pixel_texture() -> TextureResource {
    TextureResource {
        width: 1,
        height: 1,
        rgba: vec![9u8, 8, 7, 6],
        bind_group_ready: false,
        uploaded: false,
    }
}

fn matrix_bytes() -> Vec<u8> {
    (100u8..164).collect()
}

fn seeded_renderer() -> Renderer {
    let mut r = Renderer::new();
    r.add_resource(ResourceEntry::Geometry(RenderResources::new()));
    r.add_resource(ResourceEntry::Camera(CameraResources::new()));
    r.add_resource(ResourceEntry::Texture(one_pixel_texture()));
    r
}

#[test]
fn geometry_is_a_fan_of_three_triangles() {
    let g = RenderResources::new();
    assert_eq!(g.num_vertices(), 5);
    assert_eq!(g.num_indices(), 9);
    assert_eq!(g.indices, vec![0u16, 1, 4, 1, 2, 4, 2, 3, 4]);
    assert_eq!(g.indices, indices());
    assert_eq!(g.indices.iter().max(), Some(&4u16));
    assert!(g.indices.iter().all(|&i| (i as usize) < g.num_vertices()));
}

#[test]
fn geometry_paint_binds_buffers() {
    let g = RenderResources::new();
    assert_eq!(
        g.paint(),
        vec![
            PaintCmd::SetVertexBuffer { slot: 0 },
            PaintCmd::SetIndexBuffer { format: IndexFormat::Uint16 },
        ]
    );
}

#[test]
fn insert_then_get_returns_the_same_instance() {
    let mut table = ResourceTable::new();
    table.insert(ResourceEntry::Texture(one_pixel_texture()));
    let got = table.get_texture().expect("the inserted texture is there");
    assert_eq!(got.width, 1);
    assert_eq!(got.height, 1);
    assert_eq!(got.rgba, vec![9u8, 8, 7, 6]);
    assert!(!got.bind_group_ready);
}

#[test]
fn get_of_a_kind_never_inserted_fails_deterministically() {
    let table = ResourceTable::new();
    assert!(table.get_pipeline().is_none());
    assert!(table.get_geometry().is_none());
    assert!(table.get_camera().is_none());
    assert!(table.get_texture().is_none());
    // asking again fails the same way
    assert!(table.get_texture().is_none());
}

#[test]
fn insert_replaces_the_prior_instance_of_that_kind() {
    let mut table = ResourceTable::new();
    table.insert(ResourceEntry::Texture(one_pixel_texture()));
    let replacement = TextureResource {
        width: 1,
        height: 1,
        rgba: vec![1u8, 2, 3, 4],
        bind_group_ready: true,
        uploaded: false,
    };
    table.insert(ResourceEntry::Texture(replacement));
    let got = table.get_texture().expect("the replacement is there");
    assert_eq!(got.rgba, vec![1u8, 2, 3, 4]);
    assert!(got.bind_group_ready);
    // the other kinds are untouched
    assert!(table.get_camera().is_none());
}

#[test]
fn renderer_seeds_the_pipeline_only() {
    let r = Renderer::new();
    assert!(r.resources.get_pipeline().is_some());
    assert!(r.resources.get_geometry().is_none());
    assert!(r.resources.get_camera().is_none());
    assert!(r.resources.get_texture().is_none());
}

#[test]
fn frame_paint_skips_a_texture_without_bind_group() {
    let r = seeded_renderer();
    let cmds = CustomTriangleCallback {}.paint(&r.resources);
    assert_eq!(
        cmds,
        vec![
            PaintCmd::SetPipeline,
            PaintCmd::SetBindGroup { slot: 0, group: BindGroupKind::Camera },
            PaintCmd::SetVertexBuffer { slot: 0 },
            PaintCmd::SetIndexBuffer { format: IndexFormat::Uint16 },
            PaintCmd::DrawIndexed {
                index_start: 0,
                index_end: 9,
                base_vertex: 0,
                instance_start: 0,
                instance_end: 1,
            },
        ]
    );
}

#[test]
fn frame_paint_binds_a_ready_texture_in_slot_1() {
    let mut r = seeded_renderer();
    let mut ready = one_pixel_texture();
    ready.get_bind_group();
    r.add_resource(ResourceEntry::Texture(ready));
    let cmds = CustomTriangleCallback {}.paint(&r.resources);
    assert_eq!(
        cmds,
        vec![
            PaintCmd::SetPipeline,
            PaintCmd::SetBindGroup { slot: 0, group: BindGroupKind::Camera },
            PaintCmd::SetBindGroup { slot: 1, group: BindGroupKind::Texture },
            PaintCmd::SetVertexBuffer { slot: 0 },
            PaintCmd::SetIndexBuffer { format: IndexFormat::Uint16 },
            PaintCmd::DrawIndexed {
                index_start: 0,
                index_end: 9,
                base_vertex: 0,
                instance_start: 0,
                instance_end: 1,
            },
        ]
    );
}

#[test]
fn frame_prepare_updates_camera_and_stages_texture() {
    let mut r = seeded_renderer();
    let out = CustomTriangleCallback {}.prepare(&mut r.resources, matrix_bytes());
    assert!(out.extra.is_empty());
    assert_eq!(out.texture_write.bytes_per_row, 4);
    assert_eq!(out.texture_write.rows_per_image, 1);
    assert_eq!(out.texture_write.offset, 0);
    let cam = r.resources.get_camera().expect("camera stays seeded");
    assert_eq!(cam.camera_uniform.view_proj, matrix_bytes());
    let tex = r.resources.get_texture().expect("texture stays seeded");
    assert!(tex.uploaded);
    assert_eq!(tex.rgba, vec![9u8, 8, 7, 6]);
}

#[test]
fn camera_callback_prepares_and_paints_slot_0() {
    let mut r = seeded_renderer();
    let cb = CustomCameraCallback {};
    let extra = cb.prepare(&mut r.resources, matrix_bytes());
    assert!(extra.is_empty());
    let cam = r.resources.get_camera().expect("camera stays seeded");
    assert_eq!(cam.camera_uniform.view_proj, matrix_bytes());
    assert_eq!(
        cb.paint(&r.resources),
        vec![PaintCmd::SetBindGroup { slot: 0, group: BindGroupKind::Camera }]
    );
}

#[test]
fn get_mut_gives_exclusive_access_to_one_entry() {
    let mut r = seeded_renderer();
    let cam = r.resources.get_camera_mut().expect("camera is seeded");
    cam.prepare(matrix_bytes());
    assert_eq!(
        r.resources.get_camera().unwrap().camera_uniform.view_proj,
        matrix_bytes()
    );
    let tex = r.resources.get_texture_mut().expect("texture is seeded");
    let layout = tex.prepare();
    assert_eq!(layout.bytes_per_row, 4);
    assert!(r.resources.get_texture().unwrap().uploaded);
    // the other entries were not disturbed
    assert!(r.resources.get_pipeline().is_some());
    assert!(r.resources.get_geometry().is_some());
}

#[test]
fn pipeline_descriptor_fixes_slot_order_and_vertex_layout() {
    let d = create_render_pipeline();
    assert_eq!(
        d.bind_group_order,
        vec![BindGroupKind::Camera, BindGroupKind::Texture]
    );
    assert_eq!(d.vertex_layout.array_stride, 20);
    assert_eq!(d.vertex_layout.attributes.len(), 2);
    assert_eq!(d.vertex_layout.attributes[0].offset, 0);
    assert_eq!(d.vertex_layout.attributes[0].shader_location, 0);
    assert_eq!(d.vertex_layout.attributes[0].format, VertexFormat::Float32x3);
    assert_eq!(d.vertex_layout.attributes[1].offset, 12);
    assert_eq!(d.vertex_layout.attributes[1].shader_location, 1);
    assert_eq!(d.vertex_layout.attributes[1].format, VertexFormat::Float32x2);
}
