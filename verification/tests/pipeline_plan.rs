use planar_video::frame::Plane;
use planar_video::pipeline::{
    bind_group_fits, video_blend_config, video_group_slots, video_layout_slots,
    video_primitive_config, video_vertex_config, BlendFactorPlan, BlendOpPlan, BoundResource,
    CullPlan, FrontFacePlan, GroupSlot, LayoutSlot, SlotKind, TopologyPlan, FLOAT_BYTES,
    VERTEX_STRIDE,
};

#[test]
fn layout_declares_three_textures_and_a_sampler() {
    let layout = video_layout_slots();
    assert_eq!(layout.len(), 4);
    for (i, slot) in layout.iter().enumerate().take(3) {
        assert_eq!(slot.binding, i as u32);
        assert_eq!(slot.kind, SlotKind::PlaneTexture);
    }
    assert_eq!(layout[3].binding, 3);
    assert_eq!(layout[3].kind, SlotKind::FilteringSampler);
}

#[test]
fn group_binds_planes_in_yuv_order() {
    let group = video_group_slots();
    assert_eq!(group.len(), 4);
    assert_eq!(group[0].resource, BoundResource::PlaneView(Plane::Y));
    assert_eq!(group[1].resource, BoundResource::PlaneView(Plane::U));
    assert_eq!(group[2].resource, BoundResource::PlaneView(Plane::V));
    assert_eq!(group[3].resource, BoundResource::SamplerBinding);
}

#[test]
fn video_bind_group_fits_video_layout() {
    // Bind group validity: the instantiated group binds against the
    // declared four-slot layout with no mismatch.
    let layout = video_layout_slots();
    let group = video_group_slots();
    assert!(bind_group_fits(&group, &layout));
}

#[test]
fn bind_group_mismatches_are_caught() {
    let layout = video_layout_slots();

    // A group with too few slots does not fit.
    let mut short_group = video_group_slots();
    short_group.pop();
    assert!(!bind_group_fits(&short_group, &layout));

    // A sampler where a texture is declared does not fit.
    let mut wrong_kind = video_group_slots();
    wrong_kind[1] = GroupSlot { binding: 1, resource: BoundResource::SamplerBinding };
    assert!(!bind_group_fits(&wrong_kind, &layout));

    // A slot at the wrong binding index does not fit.
    let mut wrong_binding = video_group_slots();
    wrong_binding[0] = GroupSlot { binding: 7, resource: BoundResource::PlaneView(Plane::Y) };
    assert!(!bind_group_fits(&wrong_binding, &layout));

    // A texture where the sampler is declared does not fit.
    let mut sampler_slot = video_group_slots();
    sampler_slot[3] = GroupSlot { binding: 3, resource: BoundResource::PlaneView(Plane::Y) };
    assert!(!bind_group_fits(&sampler_slot, &layout));
}

#[test]
fn empty_group_fits_empty_layout() {
    let layout: Vec<LayoutSlot> = Vec::new();
    let group: Vec<GroupSlot> = Vec::new();
    assert!(bind_group_fits(&group, &layout));
}

#[test]
fn blend_state_is_over_compositing() {
    // Blending: the color target composites "over" — source weighed by
    // source alpha, destination by one minus source alpha, added.
    let blend = video_blend_config();
    assert_eq!(blend.color.src_factor, BlendFactorPlan::SrcAlpha);
    assert_eq!(blend.color.dst_factor, BlendFactorPlan::OneMinusSrcAlpha);
    assert_eq!(blend.color.operation, BlendOpPlan::Add);
    assert_eq!(blend.alpha.src_factor, BlendFactorPlan::One);
    assert_eq!(blend.alpha.dst_factor, BlendFactorPlan::OneMinusSrcAlpha);
    assert_eq!(blend.alpha.operation, BlendOpPlan::Add);
}

#[test]
fn primitive_state_is_culled_triangle_list() {
    let prim = video_primitive_config();
    assert_eq!(prim.topology, TopologyPlan::TriangleList);
    assert_eq!(prim.front_face, FrontFacePlan::Ccw);
    assert_eq!(prim.cull, CullPlan::Back);
    assert_eq!(prim.sample_count, 1);
}

#[test]
fn vertex_layout_is_packed_position_then_texcoords() {
    let attrs = video_vertex_config();
    assert_eq!(attrs.len(), 2);
    assert_eq!(attrs[0].shader_location, 0);
    assert_eq!(attrs[0].components, 3);
    assert_eq!(attrs[0].offset, 0);
    assert_eq!(attrs[1].shader_location, 1);
    assert_eq!(attrs[1].components, 2);
    assert_eq!(attrs[1].offset, attrs[0].components * FLOAT_BYTES);
    assert_eq!(VERTEX_STRIDE, (attrs[0].components + attrs[1].components) * FLOAT_BYTES);
}
