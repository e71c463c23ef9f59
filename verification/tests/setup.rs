use kast::descriptors::{
    DESCRIPTOR_TYPE_COMBINED_IMAGE_SAMPLER, DESCRIPTOR_TYPE_STORAGE_BUFFER,
    DESCRIPTOR_TYPE_UNIFORM_BUFFER, SHADER_STAGE_FRAGMENT, SHADER_STAGE_VERTEX,
    TEXTURE_ARRAY_SIZE,
};
use kast::frame::{CAMERA_DATA_SIZE, MAX_OBJECT, OBJECT_DATA_SIZE};
use kast::image::get_textures;
use kast::instance::QueueFamily;
use kast::renderer::{
    render_pass_config, Renderer, ATTACHMENT_LOAD_OP_CLEAR, ATTACHMENT_LOAD_OP_DONT_CARE,
    ATTACHMENT_STORE_OP_DONT_CARE, ATTACHMENT_STORE_OP_STORE,
    IMAGE_LAYOUT_COLOR_ATTACHMENT_OPTIMAL, IMAGE_LAYOUT_PRESENT_SRC,
    IMAGE_LAYOUT_SHADER_READ_ONLY_OPTIMAL, IMAGE_LAYOUT_TRANSFER_DST_OPTIMAL,
    IMAGE_LAYOUT_UNDEFINED, MAX_FRAMES_IN_FLIGHT, SAMPLE_COUNT_1,
};
use kast::swapchain::{Extent2d, FormatSupport, SurfaceCapabilities, SurfaceInfo};

fn surface() -> SurfaceInfo {
    SurfaceInfo {
        capabilities: SurfaceCapabilities {
            min_image_count: 2,
            max_image_count: 3,
            current_extent: Extent2d { width: 640, height: 480 },
            min_image_extent: Extent2d { width: 1, height: 1 },
            max_image_extent: Extent2d { width: 4096, height: 4096 },
        },
        formats: vec![FormatSupport { format: 37, color_space: 0, attachment_capable: true }],
        present_modes: vec![2],
        window_extent: Extent2d { width: 640, height: 480 },
    }
}

fn textured_renderer() -> Renderer {
    Renderer::new(
        &surface(),
        QueueFamily::new(0, 0),
        QueueFamily::new(0, 0),
        &get_textures(),
    )
}

#[test]
fn render_pass_configuration_is_fixed() {
    let config = render_pass_config(37);
    assert_eq!(config.format, 37);
    assert_eq!(config.samples, SAMPLE_COUNT_1);
    assert_eq!(config.load_op, ATTACHMENT_LOAD_OP_CLEAR);
    assert_eq!(config.store_op, ATTACHMENT_STORE_OP_STORE);
    assert_eq!(config.stencil_load_op, ATTACHMENT_LOAD_OP_DONT_CARE);
    assert_eq!(config.stencil_store_op, ATTACHMENT_STORE_OP_DONT_CARE);
    assert_eq!(config.initial_layout, IMAGE_LAYOUT_UNDEFINED);
    assert_eq!(config.final_layout, IMAGE_LAYOUT_PRESENT_SRC);
    assert_eq!(config.subpass_color_layout, IMAGE_LAYOUT_COLOR_ATTACHMENT_OPTIMAL);
}

#[test]
fn texture_upload_plan_packs_offsets_in_order() {
    let textures = get_textures();
    let r = textured_renderer();
    let plan = r.texture_upload_plan(&textures);
    // The two demo textures take 64 and 256 bytes, packed contiguously.
    assert_eq!(plan.staging_size, 320);
    assert_eq!(plan.uploads.len(), 2);
    assert_eq!(plan.uploads[0].staging_offset, 0);
    assert_eq!(plan.uploads[1].staging_offset, 64);
    for (i, upload) in plan.uploads.iter().enumerate() {
        assert_eq!(upload.image, r.images[i].handle);
        assert_eq!(upload.width, r.images[i].width);
        assert_eq!(upload.height, r.images[i].height);
        assert_eq!(upload.initial_layout, IMAGE_LAYOUT_UNDEFINED);
        assert_eq!(upload.transfer_layout, IMAGE_LAYOUT_TRANSFER_DST_OPTIMAL);
        assert_eq!(upload.final_layout, IMAGE_LAYOUT_SHADER_READ_ONLY_OPTIMAL);
    }
}

#[test]
fn descriptor_layout_and_pool_follow_the_fixed_tables() {
    let r = textured_renderer();
    let bindings = &r.descriptor_set_layout.bindings;
    assert_eq!(bindings.len(), 3);
    assert_eq!(bindings[0].binding, 0);
    assert_eq!(bindings[0].descriptor_type, DESCRIPTOR_TYPE_UNIFORM_BUFFER);
    assert_eq!(bindings[0].descriptor_count, 1);
    assert_eq!(bindings[0].stage_flags, SHADER_STAGE_VERTEX);
    assert_eq!(bindings[1].binding, 1);
    assert_eq!(bindings[1].descriptor_type, DESCRIPTOR_TYPE_STORAGE_BUFFER);
    assert_eq!(bindings[1].descriptor_count, 1);
    assert_eq!(bindings[1].stage_flags, SHADER_STAGE_VERTEX);
    assert_eq!(bindings[2].binding, 2);
    assert_eq!(bindings[2].descriptor_type, DESCRIPTOR_TYPE_COMBINED_IMAGE_SAMPLER);
    assert_eq!(bindings[2].descriptor_count, TEXTURE_ARRAY_SIZE);
    assert_eq!(bindings[2].stage_flags, SHADER_STAGE_FRAGMENT);

    let pool = &r.descriptor_pool;
    assert_eq!(pool.max_sets, MAX_FRAMES_IN_FLIGHT as u32);
    assert_eq!(pool.allocated_sets, MAX_FRAMES_IN_FLIGHT as u32);
    assert_eq!(pool.pool_sizes.len(), 3);
    assert_eq!(pool.pool_sizes[0].descriptor_type, DESCRIPTOR_TYPE_UNIFORM_BUFFER);
    assert_eq!(pool.pool_sizes[0].descriptor_count, 3);
    assert_eq!(pool.pool_sizes[1].descriptor_type, DESCRIPTOR_TYPE_STORAGE_BUFFER);
    assert_eq!(pool.pool_sizes[1].descriptor_count, 3);
    assert_eq!(pool.pool_sizes[2].descriptor_type, DESCRIPTOR_TYPE_COMBINED_IMAGE_SAMPLER);
    assert_eq!(pool.pool_sizes[2].descriptor_count, 48);
}

#[test]
fn descriptor_writes_wire_the_slots_own_buffers() {
    let r = textured_renderer();
    let views: Vec<u64> = r.images.iter().map(|img| img.image_view).collect();
    let sampler: u64 = 7777;
    for frame in r.frames.iter() {
        let (buffer_writes, image_writes) = frame.descriptor_writes(&views, sampler);
        assert_eq!(buffer_writes.len(), 2);
        assert_eq!(buffer_writes[0].dst_set, frame.descriptor_set);
        assert_eq!(buffer_writes[0].dst_binding, 0);
        assert_eq!(buffer_writes[0].descriptor_type, DESCRIPTOR_TYPE_UNIFORM_BUFFER);
        assert_eq!(buffer_writes[0].buffer, frame.global_buffer.handle);
        assert_eq!(buffer_writes[0].offset, 0);
        assert_eq!(buffer_writes[0].range, CAMERA_DATA_SIZE);
        assert_eq!(buffer_writes[1].dst_set, frame.descriptor_set);
        assert_eq!(buffer_writes[1].dst_binding, 1);
        assert_eq!(buffer_writes[1].descriptor_type, DESCRIPTOR_TYPE_STORAGE_BUFFER);
        assert_eq!(buffer_writes[1].buffer, frame.object_buffer.handle);
        assert_eq!(buffer_writes[1].range, MAX_OBJECT as u64 * OBJECT_DATA_SIZE);

        assert_eq!(image_writes.len(), 2);
        for (t, write) in image_writes.iter().enumerate() {
            assert_eq!(write.dst_set, frame.descriptor_set);
            assert_eq!(write.dst_binding, 2);
            assert_eq!(write.array_element, t as u32);
            assert_eq!(write.image_view, views[t]);
            assert_eq!(write.sampler, sampler);
        }
    }
}

#[test]
fn descriptor_image_writes_cap_at_the_array_size() {
    let r = textured_renderer();
    let views: Vec<u64> = (100..125u64).collect();
    let (_, image_writes) = r.frames[0].descriptor_writes(&views, 1);
    assert_eq!(image_writes.len(), TEXTURE_ARRAY_SIZE as usize);
    assert_eq!(image_writes[15].image_view, 115);
}

#[test]
fn frame_slots_own_distinct_resources() {
    let r = textured_renderer();
    for a in 0..MAX_FRAMES_IN_FLIGHT {
        for b in 0..MAX_FRAMES_IN_FLIGHT {
            if a == b {
                continue;
            }
            let fa = &r.frames[a];
            let fb = &r.frames[b];
            assert_ne!(fa.command_pool, fb.command_pool);
            assert_ne!(fa.command_buffer, fb.command_buffer);
            assert_ne!(fa.global_buffer.handle, fb.global_buffer.handle);
            assert_ne!(fa.global_buffer.memory, fb.global_buffer.memory);
            assert_ne!(fa.object_buffer.handle, fb.object_buffer.handle);
            assert_ne!(fa.object_buffer.memory, fb.object_buffer.memory);
            assert_ne!(fa.descriptor_set, fb.descriptor_set);
            assert_ne!(fa.image_available_semaphore, fb.image_available_semaphore);
            assert_ne!(fa.render_finished_semaphore, fb.render_finished_semaphore);
            assert_ne!(fa.in_flight_fence.id, fb.in_flight_fence.id);
            assert_ne!(fa.present_fence.id, fb.present_fence.id);
        }
    }
}
