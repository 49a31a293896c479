//! The triangle primitive, the frame executor and the loop decisions.

use renderer::MemoryLayoutable;
use renderer::{
    handle_event, render_frame, BufferUsages, Face, FrontFace, GenericVertex, ImplVertex,
    LoopAction, LoopEvent, MVPBuff, Matrix, PolygonMode, PrimitiveTopology, RenderPassExecutor,
    RenderableObject, RenderingContext, Scene, SceneObject, SurfaceCapabilities, Transfomation,
    TrianglePrimitive, VertexFormat, VertexStepMode, WindowDimensions, F32_ZERO, F32_ONE,
    TRIANGLE_INDEX_COUNT,
};

fn surfaced_context() -> RenderingContext {
    RenderingContext::new(Some(SurfaceCapabilities {
        formats: vec![42, 43],
        alpha_modes: vec![5],
    }))
}

#[test]
fn triangle_uploads_its_geometry() {
    let ctx = surfaced_context();
    let triangle = TrianglePrimitive::new(&ctx);

    assert_eq!(triangle.vertex_buffer.usage, BufferUsages::Vertex);
    let positions = [
        [0.0f32, 0.0, 0.0, 1.0],
        [-1.0, -1.0, 0.0, 1.0],
        [1.0, -1.0, 0.0, 1.0],
    ];
    let mut expected: Vec<u8> = Vec::new();
    for position in &positions {
        for x in position {
            expected.extend_from_slice(&x.to_le_bytes());
        }
        for x in [0.0f32; 2] {
            expected.extend_from_slice(&x.to_le_bytes());
        }
        for x in [0.0f32; 4] {
            expected.extend_from_slice(&x.to_le_bytes());
        }
    }
    assert_eq!(triangle.vertex_buffer.contents, expected);

    assert_eq!(triangle.index_buffer.usage, BufferUsages::Index);
    assert_eq!(triangle.index_buffer.contents, vec![0u8, 0, 1, 0, 2, 0]);
}

#[test]
fn triangle_pipeline_description_is_pinned() {
    let ctx = surfaced_context();
    let triangle = TrianglePrimitive::new(&ctx);
    let pipeline = &triangle.pipeline;

    assert_eq!(pipeline.vertex_entry, "vs_main");
    assert_eq!(pipeline.fragment_entry, "fs_main");
    assert_eq!(pipeline.target_format, 42);
    assert_eq!(pipeline.primitive.topology, PrimitiveTopology::TriangleList);
    assert_eq!(pipeline.primitive.front_face, FrontFace::Ccw);
    assert_eq!(pipeline.primitive.cull_mode, Some(Face::Back));
    assert_eq!(pipeline.primitive.polygon_mode, PolygonMode::Fill);

    let layout = &pipeline.vertex_layout;
    assert_eq!(layout.array_stride, 40);
    assert_eq!(layout.step_mode, VertexStepMode::Vertex);
    let offsets: Vec<u64> = layout.attributes.iter().map(|a| a.offset).collect();
    assert_eq!(offsets, vec![0, 16, 24]);
    let locations: Vec<u32> = layout.attributes.iter().map(|a| a.shader_location).collect();
    assert_eq!(locations, vec![0, 1, 2]);
    let formats: Vec<VertexFormat> = layout.attributes.iter().map(|a| a.format).collect();
    assert_eq!(
        formats,
        vec![VertexFormat::Float32x4, VertexFormat::Float32x2, VertexFormat::Float32x4]
    );

    let entries = &triangle.bind_group_layout.entries;
    assert_eq!(entries.len(), 1);
    assert_eq!(entries[0].binding, 0);
    assert_eq!(entries[0].has_dynamic_offset, false);
    assert_eq!(entries[0].min_binding_size, Some(64));
}

#[test]
fn triangle_draw_records_one_indexed_draw() {
    let ctx = surfaced_context();
    let triangle = TrianglePrimitive::new(&ctx);
    let uuid = triangle.get_uuid();
    triangle.transform();

    let mut executor = RenderPassExecutor::headless();
    triangle.draw(&mut executor, None);
    let submission = executor.submit();
    assert_eq!(submission.commands.len(), 1);
    assert_eq!(submission.commands[0].drawable, uuid);
    assert_eq!(submission.commands[0].index_count, TRIANGLE_INDEX_COUNT);
    assert_eq!(submission.commands[0].mvp, Matrix::Identity);
}

#[test]
fn executor_acquires_the_configured_frame() {
    let ctx = surfaced_context();
    let executor = RenderPassExecutor::new(&ctx);
    let submission = executor.submit();
    assert!(submission.commands.is_empty());
    let frame = submission.frame.expect("a surfaced context yields a frame");
    assert_eq!((frame.width, frame.height), (800, 600));
}

#[test]
fn render_frame_is_one_atomic_recording() {
    let ctx = surfaced_context();
    let scene_ctx = ctx.clone();
    let mut scene = Scene::new(scene_ctx, WindowDimensions::new(800, 600));
    scene.add_object(SceneObject::new(
        RenderableObject::Probe { uuid: 11 },
        Transfomation::new(
            [F32_ZERO, F32_ZERO, F32_ZERO],
            [F32_ZERO, F32_ZERO, F32_ZERO],
            F32_ONE,
        ),
        "one",
    ));
    scene.add_object(SceneObject::new(
        RenderableObject::Probe { uuid: 12 },
        Transfomation::new(
            [F32_ONE, F32_ZERO, F32_ZERO],
            [F32_ZERO, F32_ZERO, F32_ZERO],
            F32_ONE,
        ),
        "two",
    ));

    let submission = render_frame(&ctx, &scene);
    let frame = submission.frame.expect("a frame was acquired");
    assert_eq!((frame.width, frame.height), (800, 600));
    let drawn: Vec<u128> = submission.commands.iter().map(|c| c.drawable).collect();
    assert_eq!(drawn, vec![11, 12]);
}

#[test]
fn events_map_to_their_actions() {
    assert_eq!(
        handle_event(&LoopEvent::RedrawRequested),
        vec![LoopAction::RenderFrame]
    );
    assert_eq!(
        handle_event(&LoopEvent::Resized(WindowDimensions::new(1024, 768))),
        vec![
            LoopAction::RecreateSwapchain(WindowDimensions::new(1024, 768)),
            LoopAction::RequestRedraw,
        ]
    );
    assert_eq!(handle_event(&LoopEvent::CloseRequested), vec![LoopAction::Exit]);
    assert_eq!(handle_event(&LoopEvent::Other), vec![]);
}

#[test]
fn vertex_descriptions_and_packing_agree() {
    let v = GenericVertex {
        position: [1.0f32, 2.0, 3.0, 4.0].map(f32::to_bits),
        texture: [5.0f32, 6.0].map(f32::to_bits),
        normal: [7.0f32, 8.0, 9.0, 10.0].map(f32::to_bits),
    };
    let raw = v.raw();
    assert_eq!(raw.len(), v.size());
    assert_eq!(v.size(), 40);
    let description = v.description();
    assert_eq!(description.array_stride as usize, raw.len());

    // The bytes under each declared attribute are the bytes of that field.
    assert_eq!(&raw[0..16], &[1.0f32, 2.0, 3.0, 4.0].map(f32::to_bits).iter().flat_map(|x| x.to_le_bytes()).collect::<Vec<u8>>()[..]);
    assert_eq!(&raw[16..24], &[5.0f32, 6.0].map(f32::to_bits).iter().flat_map(|x| x.to_le_bytes()).collect::<Vec<u8>>()[..]);
    assert_eq!(&raw[24..40], &[7.0f32, 8.0, 9.0, 10.0].map(f32::to_bits).iter().flat_map(|x| x.to_le_bytes()).collect::<Vec<u8>>()[..]);
}

#[test]
fn layout_memory_concatenates_vertex_images() {
    let a = GenericVertex {
        position: [1.0f32, 2.0, 3.0, 4.0].map(f32::to_bits),
        texture: [5.0f32, 6.0].map(f32::to_bits),
        normal: [7.0f32, 8.0, 9.0, 10.0].map(f32::to_bits),
    };
    let b = GenericVertex::default();
    let v = vec![a, b];
    assert_eq!(v.layout_memory(), [a.raw(), b.raw()].concat());
    assert_eq!(v.layout_memory().len(), 80);
}

#[test]
fn mvp_buff_packs_sixteen_components() {
    let mut bits = [0u32; 16];
    for (i, b) in bits.iter_mut().enumerate() {
        *b = ((i + 1) as f32).to_bits();
    }
    let buff = MVPBuff::from_mat4(bits);
    assert_eq!(buff.size(), 64);
    let raw = buff.raw();
    let expected: Vec<u8> = bits.iter().flat_map(|b| b.to_le_bytes()).collect();
    assert_eq!(raw, expected);

    let description = buff.description();
    assert_eq!(description.array_stride, 64);
    let offsets: Vec<u64> = description.attributes.iter().map(|a| a.offset).collect();
    assert_eq!(offsets, vec![0, 4, 8, 12]);
}
