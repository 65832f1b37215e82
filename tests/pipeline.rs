use rfw_backend_wgpu::gpu::{
    BindGroup, BindGroupEntry, BindGroupLayout, BindingResource, BindingType, Buffer,
    BufferUsage, Command, CommandEncoder, Device, LoadOp, SamplerKind, Shader, ShaderStage,
    TextureAspect, TextureFormat,
};
use rfw_backend_wgpu::lights::{LightArrayBindings, WgpuLights};
use rfw_backend_wgpu::pass::tile_count;
use rfw_backend_wgpu::{
    BlitPass, LoadResult, ObjLoader, QuadPass, RadiancePass, SsaoPass, WgpuOutput, WgpuView,
};

const ROLES: [WgpuView; 9] = [
    WgpuView::Output,
    WgpuView::Albedo,
    WgpuView::Normal,
    WgpuView::GBuffer,
    WgpuView::Radiance,
    WgpuView::ScreenSpace,
    WgpuView::Ssao,
    WgpuView::FilteredSsao,
    WgpuView::MatParams,
];

fn lights() -> WgpuLights {
    WgpuLights {
        area_lights: LightArrayBindings { uniform_buffer: 900, shadow_maps: 901, infos_buffer: 902 },
        spot_lights: LightArrayBindings { uniform_buffer: 910, shadow_maps: 911, infos_buffer: 912 },
        directional_lights: LightArrayBindings {
            uniform_buffer: 920,
            shadow_maps: 921,
            infos_buffer: 922,
        },
    }
}

fn uniform_buffer(id: u64, size: u64) -> Buffer {
    Buffer {
        id: id,
        size: size,
        usage: BufferUsage { uniform: true, storage: false, copy_src: false, copy_dst: true },
    }
}

fn storage_buffer(id: u64) -> Buffer {
    Buffer {
        id: id,
        size: 4096,
        usage: BufferUsage { uniform: false, storage: true, copy_src: false, copy_dst: true },
    }
}

fn camera_layout() -> BindGroupLayout {
    BindGroupLayout { id: 5000, entries: Vec::new() }
}

fn camera_group() -> BindGroup {
    BindGroup { id: 5001, layout: 5000, entries: Vec::new() }
}

fn all_ids(out: &WgpuOutput) -> Vec<u64> {
    let mut ids: Vec<u64> = ROLES.iter().map(|v| out.view_for(*v).id).collect();
    ids.push(out.depth_texture.id);
    ids.push(out.intermediate_texture.id);
    ids
}

fn check_shapes(out: &WgpuOutput, width: u32, height: u32) {
    assert_eq!(out.width, width);
    assert_eq!(out.height, height);
    for v in ROLES.iter() {
        let t = out.view_for(*v);
        assert_eq!(t.desc.width, width);
        assert_eq!(t.desc.height, height);
        assert_eq!(t.desc.mip_level_count, 1);
        assert_eq!(t.desc.sample_count, 1);
        assert_eq!(t.view_format, t.desc.format);
    }
    assert_eq!(out.depth_texture.desc.width, width);
    assert_eq!(out.depth_texture.desc.height, height);
    assert_eq!(out.intermediate_texture.desc.width, width);
    assert_eq!(out.intermediate_texture.desc.height, height);
}

fn check_debug_groups(out: &WgpuOutput) {
    assert_eq!(out.debug_bind_groups.len(), WgpuView::COUNT);
    for (i, g) in out.debug_bind_groups.iter().enumerate() {
        let expected_layout = if i == 0 { out.blit_output_layout.id } else { out.blit_debug_layout.id };
        assert_eq!(g.layout, expected_layout);
        assert_eq!(g.entries.len(), 2);
        assert_eq!(g.entries[0], out.as_binding(0, WgpuView::from(i)));
        assert_eq!(
            g.entries[1],
            BindGroupEntry { binding: 1, resource: BindingResource::Sampler(out.output_sampler.id) }
        );
    }
}

#[test]
fn view_selector_out_of_range_is_output() {
    assert_eq!(WgpuView::from(9isize), WgpuView::Output);
    assert_eq!(WgpuView::from(-1isize), WgpuView::Output);
    assert_eq!(WgpuView::from(9usize), WgpuView::Output);
    assert_eq!(WgpuView::from(isize::MAX), WgpuView::Output);
    assert_eq!(WgpuView::from(isize::MIN), WgpuView::Output);
    assert_eq!(WgpuView::from(usize::MAX), WgpuView::Output);
}

#[test]
fn view_selector_round_trips_in_range() {
    for (i, v) in ROLES.iter().enumerate() {
        assert_eq!(WgpuView::from(i as isize), *v);
        assert_eq!(WgpuView::from(i), *v);
        assert_eq!(v.index(), i);
    }
    assert_eq!(WgpuView::from(3isize), WgpuView::GBuffer);
    assert_eq!(WgpuView::from(8usize), WgpuView::MatParams);
}

#[test]
fn device_hands_out_increasing_ids() {
    let mut device = Device::new();
    assert_eq!(device.remaining(), u64::MAX);
    assert_eq!(device.allocate(), 0);
    assert_eq!(device.allocate(), 1);
    assert_eq!(device.remaining(), u64::MAX - 2);
}

#[test]
fn create_sizes_every_buffer_to_the_resolution() {
    for &(w, h) in [(1u32, 1u32), (800, 600), (1920, 1080), (7, 3000)].iter() {
        let mut device = Device::new();
        let out = WgpuOutput::new(&mut device, w, h);
        check_shapes(&out, w, h);
        check_debug_groups(&out);
    }
}

#[test]
fn create_uses_the_fixed_formats() {
    let mut device = Device::new();
    let out = WgpuOutput::new(&mut device, 640, 480);
    assert_eq!(out.view_for(WgpuView::Output).desc.format, TextureFormat::Bgra8UnormSrgb);
    for v in [WgpuView::Albedo, WgpuView::Normal, WgpuView::GBuffer, WgpuView::Radiance, WgpuView::ScreenSpace]
        .iter()
    {
        assert_eq!(out.view_for(*v).desc.format, TextureFormat::Rgba16Float);
        assert!(out.view_for(*v).desc.usage.storage);
    }
    assert_eq!(out.view_for(WgpuView::Ssao).desc.format, TextureFormat::R16Float);
    assert_eq!(out.view_for(WgpuView::FilteredSsao).desc.format, TextureFormat::R16Float);
    assert_eq!(out.view_for(WgpuView::MatParams).desc.format, TextureFormat::Rgba16Float);
    assert_eq!(out.depth_texture.desc.format, TextureFormat::Depth32Float);
    assert_eq!(out.depth_texture.aspect, TextureAspect::DepthOnly);
    assert!(!out.depth_texture.desc.usage.sampled);
    assert_eq!(out.intermediate_texture.desc.format, TextureFormat::Bgra8UnormSrgb);
    assert!(!out.view_for(WgpuView::Output).desc.usage.storage);
    assert!(out.view_for(WgpuView::Output).desc.usage.sampled);
    assert_eq!(out.output_sampler.kind, SamplerKind::NearestClamp);
    assert_eq!(out.blit_pipeline.layouts, vec![out.blit_output_layout.id]);
    assert_eq!(out.blit_debug_pipeline.layouts, vec![out.blit_debug_layout.id]);
    assert_ne!(out.blit_pipeline.id, out.blit_debug_pipeline.id);
    assert_ne!(out.blit_output_layout.id, out.blit_debug_layout.id);
}

#[test]
fn every_buffer_has_its_own_identity() {
    let mut device = Device::new();
    let out = WgpuOutput::new(&mut device, 320, 200);
    let mut ids = all_ids(&out);
    assert_ne!(out.depth_texture.id, out.intermediate_texture.id);
    assert!(!ids[..9].contains(&out.depth_texture.id));
    assert!(!ids[..9].contains(&out.intermediate_texture.id));
    ids.sort();
    ids.dedup();
    assert_eq!(ids.len(), 11);
}

#[test]
fn resize_to_the_same_size_reallocates_everything() {
    let mut device = Device::new();
    let mut out = WgpuOutput::new(&mut device, 800, 600);
    let old_ids = all_ids(&out);
    let old_groups: Vec<u64> = out.debug_bind_groups.iter().map(|g| g.id).collect();
    let pipeline = out.blit_pipeline.id;
    out.resize(&mut device, 800, 600);
    check_shapes(&out, 800, 600);
    check_debug_groups(&out);
    for id in all_ids(&out).iter() {
        assert!(!old_ids.contains(id));
    }
    for g in out.debug_bind_groups.iter() {
        assert!(!old_groups.contains(&g.id));
    }
    assert_eq!(out.blit_pipeline.id, pipeline);
}

#[test]
fn resize_changes_the_resolution() {
    let mut device = Device::new();
    let mut out = WgpuOutput::new(&mut device, 800, 600);
    out.resize(&mut device, 1024, 768);
    check_shapes(&out, 1024, 768);
    check_debug_groups(&out);
}

#[test]
fn layout_entries_follow_the_role() {
    let mut device = Device::new();
    let out = WgpuOutput::new(&mut device, 16, 16);
    let e = out.as_storage_entry(3, ShaderStage::Compute, WgpuView::Ssao, true);
    assert_eq!(e.binding, 3);
    assert_eq!(e.visibility, ShaderStage::Compute);
    assert_eq!(e.ty, BindingType::StorageTexture { format: TextureFormat::R16Float, read_only: true });
    let e = out.as_storage_entry(0, ShaderStage::Fragment, WgpuView::Output, false);
    assert_eq!(e.ty, BindingType::StorageTexture { format: TextureFormat::Bgra8UnormSrgb, read_only: false });
    let e = out.as_storage_entry(1, ShaderStage::Fragment, WgpuView::MatParams, false);
    assert_eq!(e.ty, BindingType::StorageTexture { format: TextureFormat::Rgba16Float, read_only: false });
    let e = out.as_sampled_entry(2, ShaderStage::Fragment);
    assert_eq!(e.binding, 2);
    assert_eq!(e.ty, BindingType::Texture { filterable: true, array: false });
    let b = out.as_binding(5, WgpuView::Normal);
    assert_eq!(b.binding, 5);
    assert_eq!(b.resource, BindingResource::TextureView(out.normal_texture.id));
}

#[test]
fn attachments_clear_and_store() {
    let mut device = Device::new();
    let out = WgpuOutput::new(&mut device, 16, 16);
    let c = out.as_descriptor(WgpuView::Radiance);
    assert_eq!(c.view, out.radiance_texture.id);
    assert_eq!(c.load, LoadOp::Clear);
    assert!(c.store);
    let d = out.as_depth_descriptor();
    assert_eq!(d.view, out.depth_texture.id);
    assert_eq!(d.depth_load, LoadOp::Clear);
    assert!(d.depth_store);
}

#[test]
fn debug_blit_picks_the_pipeline_by_role() {
    let mut device = Device::new();
    let out = WgpuOutput::new(&mut device, 64, 64);
    let mut encoder = CommandEncoder::new();
    out.blit_debug(77, &mut encoder, WgpuView::Output);
    out.blit_debug(77, &mut encoder, WgpuView::FilteredSsao);
    let cmds = encoder.finish();
    assert_eq!(
        cmds[0],
        Command::Draw {
            target: 77,
            pipeline: out.blit_pipeline.id,
            bind_group: out.debug_bind_groups[0].id,
            vertices: 6,
            instances: 1,
        }
    );
    assert_eq!(
        cmds[1],
        Command::Draw {
            target: 77,
            pipeline: out.blit_debug_pipeline.id,
            bind_group: out.debug_bind_groups[7].id,
            vertices: 6,
            instances: 1,
        }
    );
}

#[test]
fn dispatch_grid_for_full_hd() {
    let mut device = Device::new();
    let out = WgpuOutput::new(&mut device, 1920, 1080);
    let camera = uniform_buffer(800, 256);
    let material = storage_buffer(801);
    let radiance = RadiancePass::new(&mut device, &camera, &material, &out, &lights());
    let ssao = SsaoPass::new(&mut device, &camera_layout(), &out);
    let mut encoder = CommandEncoder::new();
    radiance.launch(&mut encoder, 1920, 1080, &out, &lights(), &camera, &material);
    ssao.launch(&mut encoder, 1920, 1080, &camera_group(), &out);
    let cmds = encoder.finish();
    assert_eq!(cmds.len(), 6);
    match cmds[0] {
        Command::Dispatch { x, y, z, .. } => assert_eq!((x, y, z), (240, 135, 1)),
        _ => panic!("lighting must dispatch"),
    }
    match cmds[2] {
        Command::Dispatch { x, y, z, .. } => assert_eq!((x, y, z), (32400, 1, 1)),
        _ => panic!("estimate must dispatch"),
    }
    for i in [3usize, 5].iter() {
        match cmds[*i] {
            Command::Dispatch { x, y, z, .. } => assert_eq!((x, y, z), (240, 135, 1)),
            _ => panic!("blur must dispatch"),
        }
    }
}

#[test]
fn dispatch_grid_rounds_up() {
    assert_eq!(tile_count(0), 0);
    assert_eq!(tile_count(1), 1);
    assert_eq!(tile_count(8), 1);
    assert_eq!(tile_count(9), 2);
    assert_eq!(tile_count(1081), 136);
    assert_eq!(tile_count(u32::MAX), 536870912);
    let mut device = Device::new();
    let out = WgpuOutput::new(&mut device, 100, 100);
    let ssao = SsaoPass::new(&mut device, &camera_layout(), &out);
    let mut encoder = CommandEncoder::new();
    ssao.launch(&mut encoder, 100, 100, &camera_group(), &out);
    match encoder.command(1) {
        Command::Dispatch { x, y, z, .. } => assert_eq!((x, y, z), (157, 1, 1)),
        _ => panic!("estimate must dispatch"),
    }
    match encoder.command(2) {
        Command::Dispatch { x, y, .. } => assert_eq!((x, y), (13, 13)),
        _ => panic!("blur must dispatch"),
    }
}

#[test]
fn ssao_launch_resets_direction_and_ends_in_ssao() {
    let mut device = Device::new();
    let out = WgpuOutput::new(&mut device, 640, 360);
    let ssao = SsaoPass::new(&mut device, &camera_layout(), &out);
    assert_eq!(ssao.filter_direction_x.direction.x, 1);
    assert_eq!(ssao.filter_direction_x.direction.y, 0);
    assert_eq!(ssao.filter_direction_y.direction.x, 0);
    assert_eq!(ssao.filter_direction_y.direction.y, 1);
    assert_eq!(ssao.filter_uniform_direction_buffer.size, 8);
    let mut encoder = CommandEncoder::new();
    for _ in 0..3 {
        ssao.launch(&mut encoder, 640, 360, &camera_group(), &out);
    }
    let cmds = encoder.finish();
    assert_eq!(cmds.len(), 15);
    let uniform = ssao.filter_uniform_direction_buffer.id;
    for call in 0..3 {
        let block = &cmds[call * 5..call * 5 + 5];
        assert_eq!(
            block[0],
            Command::CopyBufferToBuffer {
                source: ssao.filter_direction_x.buffer.id,
                destination: uniform,
                size: 8,
            }
        );
        assert_eq!(
            block[3],
            Command::CopyBufferToBuffer {
                source: ssao.filter_direction_y.buffer.id,
                destination: uniform,
                size: 8,
            }
        );
        match block[2] {
            Command::Dispatch { pipeline, group0, .. } => {
                assert_eq!(pipeline, ssao.filter_pipeline.id);
                assert_eq!(group0, ssao.filter_bind_group1.id);
            }
            _ => panic!("horizontal blur must dispatch"),
        }
        match block[4] {
            Command::Dispatch { pipeline, group0, .. } => {
                assert_eq!(pipeline, ssao.filter_pipeline.id);
                assert_eq!(group0, ssao.filter_bind_group2.id);
            }
            _ => panic!("vertical blur must dispatch"),
        }
    }
    assert_eq!(ssao.filter_bind_group2.entries[0], out.as_binding(0, WgpuView::Ssao));
    assert_eq!(ssao.filter_bind_group2.entries[1], out.as_binding(1, WgpuView::FilteredSsao));
    assert_eq!(ssao.filter_bind_group1.entries[0], out.as_binding(0, WgpuView::FilteredSsao));
    assert_eq!(ssao.filter_bind_group1.entries[1], out.as_binding(1, WgpuView::Ssao));
    assert_eq!(ssao.bind_group.entries[0], out.as_binding(0, WgpuView::Ssao));
}

#[test]
fn resize_leaves_lighting_bindings_stale_until_rebuilt() {
    let mut device = Device::new();
    let mut out = WgpuOutput::new(&mut device, 800, 600);
    let camera = uniform_buffer(800, 256);
    let material = storage_buffer(801);
    let l = lights();
    let mut pass = RadiancePass::new(&mut device, &camera, &material, &out, &l);
    assert!(pass.is_bound_to(&out, &l, &camera, &material));
    out.resize(&mut device, 1024, 768);
    assert!(!pass.is_bound_to(&out, &l, &camera, &material));
    pass.update_bind_groups(&mut device, &out, &l, &camera, &material);
    assert!(pass.is_bound_to(&out, &l, &camera, &material));
}

#[test]
fn resize_leaves_every_pass_stale_until_rebuilt() {
    let mut device = Device::new();
    let mut out = WgpuOutput::new(&mut device, 320, 240);
    let mut quad = QuadPass::new(&mut device, &out);
    let mut blit = BlitPass::new(&mut device, &out);
    let mut ssao = SsaoPass::new(&mut device, &camera_layout(), &out);
    assert!(quad.is_bound_to(&out) && blit.is_bound_to(&out) && ssao.is_bound_to(&out));
    out.resize(&mut device, 320, 240);
    assert!(!quad.is_bound_to(&out));
    assert!(!blit.is_bound_to(&out));
    assert!(!ssao.is_bound_to(&out));
    quad.update_bind_groups(&mut device, &out);
    blit.update_bind_groups(&mut device, &out);
    let direction = ssao.filter_uniform_direction_buffer;
    ssao.update_bind_groups(&mut device, &out);
    assert!(quad.is_bound_to(&out) && blit.is_bound_to(&out) && ssao.is_bound_to(&out));
    assert_eq!(ssao.filter_uniform_direction_buffer, direction);
}

#[test]
fn lighting_pass_wiring() {
    let mut device = Device::new();
    let out = WgpuOutput::new(&mut device, 256, 128);
    let camera = uniform_buffer(800, 384);
    let material = storage_buffer(801);
    let l = lights();
    let pass = RadiancePass::new(&mut device, &camera, &material, &out, &l);
    assert_eq!(
        pass.uniform_bind_group_layout.entries[0].ty,
        BindingType::UniformBuffer { min_binding_size: 384 }
    );
    assert_eq!(pass.uniform_bind_group.entries[2], out.as_binding(2, WgpuView::Radiance));
    assert_eq!(pass.bind_group.entries.len(), 4);
    assert_eq!(pass.bind_group.entries[3], out.as_binding(3, WgpuView::MatParams));
    assert_eq!(pass.lights_bind_group.entries.len(), 10);
    assert_eq!(pass.lights_bind_group.entries[3].resource, BindingResource::Sampler(pass.shadow_sampler.id));
    assert_eq!(pass.lights_bind_group.entries[9], l.directional_lights.infos_binding(12));
    assert_eq!(pass.shadow_sampler.kind, SamplerKind::Shadow);
    assert_eq!(pass.pipeline.shader, Shader::Lighting);
    assert_eq!(
        pass.pipeline.layouts,
        vec![pass.uniform_bind_group_layout.id, pass.bind_group_layout.id, pass.lights_bind_group_layout.id]
    );
    let output_view = out.output_texture.id;
    for g in [&pass.uniform_bind_group, &pass.bind_group, &pass.lights_bind_group].iter() {
        for e in g.entries.iter() {
            assert_ne!(e.resource, BindingResource::TextureView(output_view));
        }
    }
    let mut encoder = CommandEncoder::new();
    pass.launch(&mut encoder, 17, 9, &out, &l, &camera, &material);
    assert_eq!(
        encoder.command(0),
        Command::Dispatch {
            pipeline: pass.pipeline.id,
            group0: pass.uniform_bind_group.id,
            group1: Some(pass.bind_group.id),
            group2: Some(pass.lights_bind_group.id),
            x: 3,
            y: 2,
            z: 1,
        }
    );
}

#[test]
fn composite_and_quad_passes_draw_one_quad() {
    let mut device = Device::new();
    let out = WgpuOutput::new(&mut device, 64, 32);
    let quad = QuadPass::new(&mut device, &out);
    let blit = BlitPass::new(&mut device, &out);
    assert_eq!(blit.pipeline.fragment, Shader::DeferredBlitFragment);
    assert_eq!(quad.pipeline.fragment, Shader::QuadFragment);
    assert_eq!(blit.bind_group.entries[2], out.as_binding(2, WgpuView::Ssao));
    assert_eq!(quad.bind_group.entries[0], out.as_binding(0, WgpuView::Output));
    let mut encoder = CommandEncoder::new();
    blit.render(&mut encoder, 3, &out);
    quad.render(&mut encoder, 4, &out);
    assert_eq!(encoder.len(), 2);
    assert_eq!(
        encoder.command(0),
        Command::Draw { target: 3, pipeline: blit.pipeline.id, bind_group: blit.bind_group.id, vertices: 6, instances: 1 }
    );
    assert_eq!(
        encoder.command(1),
        Command::Draw { target: 4, pipeline: quad.pipeline.id, bind_group: quad.bind_group.id, vertices: 6, instances: 1 }
    );
}

#[test]
fn load_result_accessors() {
    let o: LoadResult<u32, Vec<u32>> = LoadResult::Object(7);
    assert_eq!(o.clone().object(), Ok(7));
    assert_eq!(o.scene(), Err(()));
    let s: LoadResult<u32, Vec<u32>> = LoadResult::Scene(vec![1, 2]);
    assert_eq!(s.clone().scene(), Ok(vec![1, 2]));
    assert_eq!(s.object(), Err(()));
}

#[test]
fn obj_loader_name() {
    let loader = ObjLoader::default();
    assert_eq!(loader.name(), "obj-loader");
}

#[test]
fn estimate_grid_limit() {
    assert!(SsaoPass::estimate_fits(1920, 1080));
    assert!(SsaoPass::estimate_fits(u32::MAX, 64));
    assert!(!SsaoPass::estimate_fits(u32::MAX, 65));
    assert!(!SsaoPass::estimate_fits(u32::MAX, u32::MAX));
    assert!(SsaoPass::estimate_fits(0, u32::MAX));
}

#[test]
fn buffer_set_knows_its_device() {
    let mut device = Device::new();
    let mut other = Device::new();
    let out = WgpuOutput::new(&mut device, 32, 32);
    assert!(out.allocated_by(&device));
    assert!(!out.allocated_by(&other));
    other.allocate();
    assert!(!out.allocated_by(&other));
    assert_eq!(device.next_id(), u64::MAX - device.remaining());
}
