use vstd::prelude::*;
use crate::frame::Plane;
use crate::texture::VideoYUV444Texture;

verus! {

/// A pipeline layout object on the device.
#[verifier::external_type_specification]
#[verifier::external_body]
pub struct ExPipelineLayout(wgpu::PipelineLayout);

/// A bind-group layout object on the device.
#[verifier::external_type_specification]
#[verifier::external_body]
pub struct ExBindGroupLayout(wgpu::BindGroupLayout);

/// One declared slot of a bind-group layout, as wgpu takes it.
#[verifier::external_type_specification]
#[verifier::external_body]
pub struct ExBindGroupLayoutEntry(wgpu::BindGroupLayoutEntry);

/// A concrete bind group pointing at resources on the device.
#[verifier::external_type_specification]
#[verifier::external_body]
pub struct ExBindGroup(wgpu::BindGroup);

/// A compiled shader program.
#[verifier::external_type_specification]
#[verifier::external_body]
pub struct ExShaderModule(wgpu::ShaderModule);

/// A compiled render pipeline object.
#[verifier::external_type_specification]
#[verifier::external_body]
pub struct ExRenderPipeline(wgpu::RenderPipeline);

/// The pixel format of a render target.
#[verifier::external_type_specification]
#[verifier::external_body]
pub struct ExTextureFormat(wgpu::TextureFormat);

/// One vertex attribute of a vertex buffer layout, as wgpu takes it.
#[verifier::external_type_specification]
#[verifier::external_body]
pub struct ExVertexAttribute(wgpu::VertexAttribute);

/// A color/alpha blend configuration, as wgpu takes it.
#[verifier::external_type_specification]
#[verifier::external_body]
pub struct ExBlendState(wgpu::BlendState);

/// Primitive assembly and rasterization configuration, as wgpu takes it.
#[verifier::external_type_specification]
#[verifier::external_body]
pub struct ExPrimitiveState(wgpu::PrimitiveState);

/// Multisampling configuration, as wgpu takes it.
#[verifier::external_type_specification]
#[verifier::external_body]
pub struct ExMultisampleState(wgpu::MultisampleState);

/// What kind of resource a bind-group layout slot declares. Every slot of
/// the video layout is visible to the fragment stage only.
#[derive(Debug, Clone, Copy, PartialEq, Eq, Structural)]
pub enum SlotKind {
    /// A non-multisampled, filterable, 2D, single-channel texture.
    PlaneTexture,
    /// A filtering sampler.
    FilteringSampler,
}

/// One slot of the declared bind-group layout.
#[derive(Debug, Clone, Copy, PartialEq, Eq, Structural)]
pub struct LayoutSlot {
    pub binding: u32,
    pub kind: SlotKind,
}

/// What a concrete bind group attaches at one slot.
#[derive(Debug, Clone, Copy, PartialEq, Eq, Structural)]
pub enum BoundResource {
    /// The sampling view of one plane texture.
    PlaneView(Plane),
    /// The shared sampler.
    SamplerBinding,
}

/// One slot of a concrete bind group.
#[derive(Debug, Clone, Copy, PartialEq, Eq, Structural)]
pub struct GroupSlot {
    pub binding: u32,
    pub resource: BoundResource,
}

/// Whether a resource is of the kind a layout slot declares.
pub open spec fn slot_accepts(kind: SlotKind, resource: BoundResource) -> bool {
    match (kind, resource) {
        (SlotKind::PlaneTexture, BoundResource::PlaneView(_)) => true,
        (SlotKind::FilteringSampler, BoundResource::SamplerBinding) => true,
        _ => false,
    }
}

/// Slot `j` of a bind group fills slot `j` of a layout: same binding
/// index, resource of the declared kind.
pub open spec fn slot_filled(group: Seq<GroupSlot>, layout: Seq<LayoutSlot>, j: int) -> bool {
    &&& group[j].binding == layout[j].binding
    &&& slot_accepts(layout[j].kind, group[j].resource)
}

/// A bind group matches a layout when it fills every declared slot, at the
/// same binding index and with a resource of the declared kind.
pub open spec fn group_matches_layout(group: Seq<GroupSlot>, layout: Seq<LayoutSlot>) -> bool {
    &&& group.len() == layout.len()
    &&& forall|j: int| 0 <= j < group.len() ==> #[trigger] slot_filled(group, layout, j)
}

/// The video bind-group layout: the Y, U and V plane textures at bindings
/// 0, 1 and 2, and the shared sampler at binding 3.
pub open spec fn video_layout_plan() -> Seq<LayoutSlot> {
    seq![
        LayoutSlot { binding: 0, kind: SlotKind::PlaneTexture },
        LayoutSlot { binding: 1, kind: SlotKind::PlaneTexture },
        LayoutSlot { binding: 2, kind: SlotKind::PlaneTexture },
        LayoutSlot { binding: 3, kind: SlotKind::FilteringSampler },
    ]
}

/// The video bind group: the three plane views in Y, U, V order at
/// bindings 0..2, the sampler at binding 3.
pub open spec fn video_group_plan() -> Seq<GroupSlot> {
    seq![
        GroupSlot { binding: 0, resource: BoundResource::PlaneView(Plane::Y) },
        GroupSlot { binding: 1, resource: BoundResource::PlaneView(Plane::U) },
        GroupSlot { binding: 2, resource: BoundResource::PlaneView(Plane::V) },
        GroupSlot { binding: 3, resource: BoundResource::SamplerBinding },
    ]
}

/// The declared layout slots, as a value the pipeline construction walks.
pub fn video_layout_slots() -> (r: Vec<LayoutSlot>)
    ensures
        r@ == video_layout_plan(),
{
    let mut r: Vec<LayoutSlot> = Vec::new();
    r.push(LayoutSlot { binding: 0, kind: SlotKind::PlaneTexture });
    r.push(LayoutSlot { binding: 1, kind: SlotKind::PlaneTexture });
    r.push(LayoutSlot { binding: 2, kind: SlotKind::PlaneTexture });
    r.push(LayoutSlot { binding: 3, kind: SlotKind::FilteringSampler });
    proof {
        assert(r@ =~= video_layout_plan());
    }
    r
}

/// The concrete group slots, as a value tests and callers can inspect.
pub fn video_group_slots() -> (r: Vec<GroupSlot>)
    ensures
        r@ == video_group_plan(),
{
    let mut r: Vec<GroupSlot> = Vec::new();
    r.push(GroupSlot { binding: 0, resource: BoundResource::PlaneView(Plane::Y) });
    r.push(GroupSlot { binding: 1, resource: BoundResource::PlaneView(Plane::U) });
    r.push(GroupSlot { binding: 2, resource: BoundResource::PlaneView(Plane::V) });
    r.push(GroupSlot { binding: 3, resource: BoundResource::SamplerBinding });
    proof {
        assert(r@ =~= video_group_plan());
    }
    r
}

/// Decides whether a bind group fills a layout: same slot count, same
/// binding at each position, resource kind as declared.
pub fn bind_group_fits(group: &Vec<GroupSlot>, layout: &Vec<LayoutSlot>) -> (r: bool)
    ensures
        r == group_matches_layout(group@, layout@),
{
    if group.len() != layout.len() {
        return false;
    }
    let mut i: usize = 0;
    while i < group.len()
        invariant
            0 <= i <= group@.len(),
            group@.len() == layout@.len(),
            forall|j: int| 0 <= j < i ==> #[trigger] slot_filled(group@, layout@, j),
        decreases group@.len() - i,
    {
        let g = group[i];
        let l = layout[i];
        if g.binding != l.binding {
            proof {
                assert(!slot_filled(group@, layout@, i as int));
            }
            return false;
        }
        let ok = match (l.kind, g.resource) {
            (SlotKind::PlaneTexture, BoundResource::PlaneView(_)) => true,
            (SlotKind::FilteringSampler, BoundResource::SamplerBinding) => true,
            _ => false,
        };
        if !ok {
            proof {
                assert(!slot_filled(group@, layout@, i as int));
            }
            return false;
        }
        proof {
            assert(slot_filled(group@, layout@, i as int));
        }
        i += 1;
    }
    true
}

/// Law: bind group validity. The bind group the video pipeline instantiates
/// fills the bind-group layout it declares, slot for slot: three filterable
/// single-channel textures at bindings 0..2 and one filtering sampler at
/// binding 3.
pub proof fn lemma_video_bind_group_valid()
    ensures
        group_matches_layout(video_group_plan(), video_layout_plan()),
{
    let g = video_group_plan();
    let l = video_layout_plan();
    assert forall|j: int| 0 <= j < g.len() implies #[trigger] slot_filled(g, l, j) by {
        if j == 0 {
        } else if j == 1 {
        } else if j == 2 {
        } else {
            assert(j == 3);
        }
    }
}

/// A blend factor, as the fixed-function blender weighs a source or
/// destination color.
#[derive(Debug, Clone, Copy, PartialEq, Eq, Structural)]
pub enum BlendFactorPlan {
    Zero,
    One,
    SrcAlpha,
    OneMinusSrcAlpha,
}

/// A blend operation combining the weighted source and destination.
#[derive(Debug, Clone, Copy, PartialEq, Eq, Structural)]
pub enum BlendOpPlan {
    Add,
    Subtract,
}

/// One blend equation: `operation(src * src_factor, dst * dst_factor)`.
#[derive(Debug, Clone, Copy, PartialEq, Eq, Structural)]
pub struct BlendComponentPlan {
    pub src_factor: BlendFactorPlan,
    pub dst_factor: BlendFactorPlan,
    pub operation: BlendOpPlan,
}

/// The blend state of one color target: one equation for color, one for
/// alpha.
#[derive(Debug, Clone, Copy, PartialEq, Eq, Structural)]
pub struct BlendPlan {
    pub color: BlendComponentPlan,
    pub alpha: BlendComponentPlan,
}

/// A blend plan performs standard "over" compositing: color is
/// `src*srcAlpha + dst*(1-srcAlpha)`, alpha is `src + dst*(1-srcAlpha)`.
pub open spec fn is_over_compositing(p: BlendPlan) -> bool {
    &&& p.color.src_factor == BlendFactorPlan::SrcAlpha
    &&& p.color.dst_factor == BlendFactorPlan::OneMinusSrcAlpha
    &&& p.color.operation == BlendOpPlan::Add
    &&& p.alpha.src_factor == BlendFactorPlan::One
    &&& p.alpha.dst_factor == BlendFactorPlan::OneMinusSrcAlpha
    &&& p.alpha.operation == BlendOpPlan::Add
}

/// The blend state the video pipeline is built with.
pub open spec fn video_blend_plan() -> BlendPlan {
    BlendPlan {
        color: BlendComponentPlan {
            src_factor: BlendFactorPlan::SrcAlpha,
            dst_factor: BlendFactorPlan::OneMinusSrcAlpha,
            operation: BlendOpPlan::Add,
        },
        alpha: BlendComponentPlan {
            src_factor: BlendFactorPlan::One,
            dst_factor: BlendFactorPlan::OneMinusSrcAlpha,
            operation: BlendOpPlan::Add,
        },
    }
}

/// The video blend state, as a value tests and callers can inspect.
pub fn video_blend_config() -> (r: BlendPlan)
    ensures
        r == video_blend_plan(),
        is_over_compositing(r),
{
    BlendPlan {
        color: BlendComponentPlan {
            src_factor: BlendFactorPlan::SrcAlpha,
            dst_factor: BlendFactorPlan::OneMinusSrcAlpha,
            operation: BlendOpPlan::Add,
        },
        alpha: BlendComponentPlan {
            src_factor: BlendFactorPlan::One,
            dst_factor: BlendFactorPlan::OneMinusSrcAlpha,
            operation: BlendOpPlan::Add,
        },
    }
}

/// Law: the video pipeline's blend state composites "over": the blend plan
/// it is created with weighs source color by source alpha and destination
/// color by one minus source alpha, adding the two.
pub proof fn lemma_video_blend_is_over()
    ensures
        is_over_compositing(video_blend_plan()),
{
}

/// How primitives are assembled and rasterized.
#[derive(Debug, Clone, Copy, PartialEq, Eq, Structural)]
pub enum TopologyPlan {
    PointList,
    LineList,
    TriangleList,
}

/// Which winding a front-facing triangle has.
#[derive(Debug, Clone, Copy, PartialEq, Eq, Structural)]
pub enum FrontFacePlan {
    Ccw,
    Cw,
}

/// Which faces are culled before rasterization.
#[derive(Debug, Clone, Copy, PartialEq, Eq, Structural)]
pub enum CullPlan {
    NoCull,
    Front,
    Back,
}

/// The fixed-function primitive configuration of the video pipeline.
#[derive(Debug, Clone, Copy, PartialEq, Eq, Structural)]
pub struct PrimitivePlan {
    pub topology: TopologyPlan,
    pub front_face: FrontFacePlan,
    pub cull: CullPlan,
    pub sample_count: u32,
}

/// The video pipeline rasterizes filled triangle lists with
/// counter-clockwise front faces, culls back faces and takes one sample
/// per pixel.
pub open spec fn video_primitive_plan() -> PrimitivePlan {
    PrimitivePlan {
        topology: TopologyPlan::TriangleList,
        front_face: FrontFacePlan::Ccw,
        cull: CullPlan::Back,
        sample_count: 1,
    }
}

/// The video primitive configuration, as a value tests can inspect.
pub fn video_primitive_config() -> (r: PrimitivePlan)
    ensures
        r == video_primitive_plan(),
{
    PrimitivePlan {
        topology: TopologyPlan::TriangleList,
        front_face: FrontFacePlan::Ccw,
        cull: CullPlan::Back,
        sample_count: 1,
    }
}

/// One vertex attribute: `components` 32-bit floats at byte `offset`,
/// bound to `shader_location`.
#[derive(Debug, Clone, Copy, PartialEq, Eq, Structural)]
pub struct VertexAttrPlan {
    pub shader_location: u32,
    pub components: u32,
    pub offset: u32,
}

/// Bytes of one 32-bit float vertex component.
pub const FLOAT_BYTES: u32 = 4;

/// Bytes of one vertex: three position floats and two texture-coordinate
/// floats, packed.
pub const VERTEX_STRIDE: u32 = 20;

/// The vertex layout the video pipeline consumes: position (3 floats) at
/// offset 0, shader location 0; texture coordinates (2 floats) right after
/// it, shader location 1.
pub open spec fn video_vertex_plan() -> Seq<VertexAttrPlan> {
    seq![
        VertexAttrPlan { shader_location: 0, components: 3, offset: 0 },
        VertexAttrPlan { shader_location: 1, components: 2, offset: 12 },
    ]
}

/// The vertex layout, as a value callers building vertex buffers can
/// inspect.
pub fn video_vertex_config() -> (r: Vec<VertexAttrPlan>)
    ensures
        r@ == video_vertex_plan(),
{
    let mut r: Vec<VertexAttrPlan> = Vec::new();
    r.push(VertexAttrPlan { shader_location: 0, components: 3, offset: 0 });
    r.push(VertexAttrPlan { shader_location: 1, components: 2, offset: 12 });
    proof {
        assert(r@ =~= video_vertex_plan());
    }
    r
}

/// Attributes are packed: the first starts at offset 0, each next one
/// starts where the previous ends, and the stride is where the last ends.
pub open spec fn attrs_packed(attrs: Seq<VertexAttrPlan>, stride: nat) -> bool {
    &&& attrs.len() > 0
    &&& attrs[0].offset == 0
    &&& forall|i: int| 0 <= i < attrs.len() - 1 ==> #[trigger] attrs[i + 1].offset
        == attrs[i].offset + attrs[i].components * FLOAT_BYTES
    &&& stride == attrs.last().offset + attrs.last().components * FLOAT_BYTES
}

/// Law: the video vertex layout is packed — the texture coordinates begin
/// exactly where the position ends, and the stride covers both exactly.
pub proof fn lemma_video_vertex_packed()
    ensures
        attrs_packed(video_vertex_plan(), VERTEX_STRIDE as nat),
{
    let a = video_vertex_plan();
    assert forall|i: int| 0 <= i < a.len() - 1 implies #[trigger] a[i + 1].offset
        == a[i].offset + a[i].components * FLOAT_BYTES by {
        assert(i == 0);
    }
}

/// The WGSL program of the video pipeline: a vertex stage that forwards
/// position and texture coordinates, and a fragment stage that samples the
/// three planes at the interpolated coordinate and combines them into RGB
/// by the BT.601 conversion, with full alpha.
pub const VIDEO_SHADER_WGSL: &'static str = "\
struct VertexInput {\n\
    [[location(0)]] position: vec3<f32>;\n\
    [[location(1)]] tex_coords: vec2<f32>;\n\
};\n\
struct VertexOutput {\n\
    [[builtin(position)]] clip_position: vec4<f32>;\n\
    [[location(0)]] tex_coords: vec2<f32>;\n\
};\n\
[[stage(vertex)]]\n\
fn vs_main(model: VertexInput) -> VertexOutput {\n\
    var out: VertexOutput;\n\
    out.tex_coords = model.tex_coords;\n\
    out.clip_position = vec4<f32>(model.position, 1.0);\n\
    return out;\n\
}\n\
[[group(0), binding(0)]] var t_y: texture_2d<f32>;\n\
[[group(0), binding(1)]] var t_u: texture_2d<f32>;\n\
[[group(0), binding(2)]] var t_v: texture_2d<f32>;\n\
[[group(0), binding(3)]] var s_planes: sampler;\n\
[[stage(fragment)]]\n\
fn fs_main(in: VertexOutput) -> [[location(0)]] vec4<f32> {\n\
    let y = textureSample(t_y, s_planes, in.tex_coords).r;\n\
    let u = textureSample(t_u, s_planes, in.tex_coords).r - 0.5;\n\
    let v = textureSample(t_v, s_planes, in.tex_coords).r - 0.5;\n\
    let r = y + 1.402 * v;\n\
    let g = y - 0.344 * u - 0.714 * v;\n\
    let b = y + 1.772 * u;\n\
    return vec4<f32>(r, g, b, 1.0);\n\
}\n";

/// Relies on wgpu's `BindGroupLayoutEntry`: declares at `binding` a
/// fragment-stage-visible, non-multisampled, filterable, float-sampled 2D
/// texture slot.
#[verifier::external_body]
fn plane_texture_layout_entry(binding: u32) -> (e: wgpu::BindGroupLayoutEntry) {
    wgpu::BindGroupLayoutEntry {
        binding,
        visibility: wgpu::ShaderStages::FRAGMENT,
        ty: wgpu::BindingType::Texture {
            multisampled: false,
            view_dimension: wgpu::TextureViewDimension::D2,
            sample_type: wgpu::TextureSampleType::Float { filterable: true },
        },
        count: None,
    }
}

/// Relies on wgpu's `BindGroupLayoutEntry`: declares at `binding` a
/// fragment-stage-visible filtering sampler slot.
#[verifier::external_body]
fn filtering_sampler_layout_entry(binding: u32) -> (e: wgpu::BindGroupLayoutEntry) {
    wgpu::BindGroupLayoutEntry {
        binding,
        visibility: wgpu::ShaderStages::FRAGMENT,
        ty: wgpu::BindingType::Sampler(wgpu::SamplerBindingType::Filtering),
        count: None,
    }
}

/// Relies on wgpu's `Device::create_bind_group_layout`: declares a layout
/// with exactly the given entries. A malformed declaration fails wgpu's
/// validation at creation.
#[verifier::external_body]
fn create_bind_group_layout(
    device: &wgpu::Device,
    label: Option<&str>,
    entries: &Vec<wgpu::BindGroupLayoutEntry>,
) -> (l: wgpu::BindGroupLayout) {
    device.create_bind_group_layout(&wgpu::BindGroupLayoutDescriptor {
        label,
        entries: entries.as_slice(),
    })
}

/// Relies on wgpu's `Device::create_bind_group`: instantiates the layout
/// with the three plane views at bindings 0, 1, 2 (Y, U, V order) and the
/// sampler at binding 3. A group that does not fill the layout fails
/// wgpu's validation at creation.
#[verifier::external_body]
fn create_video_bind_group(
    device: &wgpu::Device,
    label: Option<&str>,
    layout: &wgpu::BindGroupLayout,
    y: &wgpu::TextureView,
    u: &wgpu::TextureView,
    v: &wgpu::TextureView,
    sampler: &wgpu::Sampler,
) -> (g: wgpu::BindGroup) {
    device.create_bind_group(&wgpu::BindGroupDescriptor {
        label,
        layout,
        entries: &[
            wgpu::BindGroupEntry { binding: 0, resource: wgpu::BindingResource::TextureView(y) },
            wgpu::BindGroupEntry { binding: 1, resource: wgpu::BindingResource::TextureView(u) },
            wgpu::BindGroupEntry { binding: 2, resource: wgpu::BindingResource::TextureView(v) },
            wgpu::BindGroupEntry { binding: 3, resource: wgpu::BindingResource::Sampler(sampler) },
        ],
    })
}

/// Relies on wgpu's `Device::create_pipeline_layout`: a layout of one bind
/// group and no push constants.
#[verifier::external_body]
fn create_pipeline_layout(
    device: &wgpu::Device,
    label: Option<&str>,
    bind_group_layout: &wgpu::BindGroupLayout,
) -> (l: wgpu::PipelineLayout) {
    device.create_pipeline_layout(&wgpu::PipelineLayoutDescriptor {
        label,
        bind_group_layouts: &[bind_group_layout],
        push_constant_ranges: &[],
    })
}

/// Relies on wgpu's `Device::create_shader_module`: parses and compiles
/// the given WGSL source. A source that does not compile is fatal at
/// creation, as pipeline construction must not go on without a program.
#[verifier::external_body]
fn create_shader_module(device: &wgpu::Device, source: &str) -> (m: wgpu::ShaderModule) {
    device.create_shader_module(&wgpu::ShaderModuleDescriptor {
        label: None,
        source: wgpu::ShaderSource::Wgsl(source.into()),
    })
}

/// Relies on wgpu's `VertexAttribute`: three 32-bit floats at the given
/// byte offset, bound to the given shader location.
#[verifier::external_body]
fn vertex_attr_f32x3(offset: u64, shader_location: u32) -> (a: wgpu::VertexAttribute) {
    wgpu::VertexAttribute { format: wgpu::VertexFormat::Float32x3, offset, shader_location }
}

/// Relies on wgpu's `VertexAttribute`: two 32-bit floats at the given byte
/// offset, bound to the given shader location.
#[verifier::external_body]
fn vertex_attr_f32x2(offset: u64, shader_location: u32) -> (a: wgpu::VertexAttribute) {
    wgpu::VertexAttribute { format: wgpu::VertexFormat::Float32x2, offset, shader_location }
}

/// Relies on wgpu's `BlendState`: the "over" compositing configuration.
/// Color: source weighed by source alpha plus destination weighed by one
/// minus source alpha. Alpha: `BlendComponent::OVER`, which wgpu defines
/// as source (factor one) plus destination weighed by one minus source
/// alpha. Both add.
#[verifier::external_body]
fn over_blend_state() -> (b: wgpu::BlendState) {
    wgpu::BlendState {
        color: wgpu::BlendComponent {
            src_factor: wgpu::BlendFactor::SrcAlpha,
            dst_factor: wgpu::BlendFactor::OneMinusSrcAlpha,
            operation: wgpu::BlendOperation::Add,
        },
        alpha: wgpu::BlendComponent::OVER,
    }
}

/// Relies on wgpu's `PrimitiveState`: filled triangle lists,
/// counter-clockwise front faces, back faces culled, no strip index, no
/// unclipped depth, no conservative rasterization.
#[verifier::external_body]
fn video_primitive_state() -> (p: wgpu::PrimitiveState) {
    wgpu::PrimitiveState {
        topology: wgpu::PrimitiveTopology::TriangleList,
        strip_index_format: None,
        front_face: wgpu::FrontFace::Ccw,
        cull_mode: Some(wgpu::Face::Back),
        polygon_mode: wgpu::PolygonMode::Fill,
        unclipped_depth: false,
        conservative: false,
    }
}

/// Relies on wgpu's `MultisampleState`: one sample per pixel, all mask
/// bits set, no alpha-to-coverage.
#[verifier::external_body]
fn single_sample_state() -> (m: wgpu::MultisampleState) {
    wgpu::MultisampleState { count: 1, mask: !0, alpha_to_coverage_enabled: false }
}

/// Relies on wgpu's `Device::create_render_pipeline`: compiles the two
/// shader stages (`vs_main`, `fs_main`) with one vertex buffer of the
/// given stride and attributes, one color target of the given format with
/// the given blend state, the given primitive and multisample
/// configuration, and no depth/stencil. Failure there is fatal at
/// creation.
#[verifier::external_body]
fn create_video_render_pipeline(
    device: &wgpu::Device,
    label: Option<&str>,
    layout: &wgpu::PipelineLayout,
    shader: &wgpu::ShaderModule,
    format: wgpu::TextureFormat,
    blend: wgpu::BlendState,
    primitive: wgpu::PrimitiveState,
    multisample: wgpu::MultisampleState,
    attributes: &Vec<wgpu::VertexAttribute>,
    stride: u64,
) -> (p: wgpu::RenderPipeline) {
    let targets = [wgpu::ColorTargetState { format, blend: Some(blend), write_mask: wgpu::ColorWrites::ALL }];
    let buffers = [wgpu::VertexBufferLayout { array_stride: stride, step_mode: wgpu::VertexStepMode::Vertex, attributes: attributes.as_slice() }];
    device.create_render_pipeline(&wgpu::RenderPipelineDescriptor {
        label,
        layout: Some(layout),
        vertex: wgpu::VertexState { module: shader, entry_point: "vs_main", buffers: &buffers },
        fragment: Some(wgpu::FragmentState { module: shader, entry_point: "fs_main", targets: &targets }),
        primitive,
        depth_stencil: None,
        multisample,
        multiview: None,
    })
}

/// The compiled video pipeline: the pipeline object, the bind group that
/// attaches the three plane views and the sampler to it, and the owned
/// planar texture the frame driver updates each frame. The ghost plans
/// record the configuration the pipeline was declared with.
pub struct VideoRenderPipeline {
    pub render_pipeline: wgpu::RenderPipeline,
    pub bind_group: wgpu::BindGroup,
    pub texture: VideoYUV444Texture,
    /// The declared bind-group layout.
    pub layout_plan: Ghost<Seq<LayoutSlot>>,
    /// What the bind group attaches at each slot.
    pub group_plan: Ghost<Seq<GroupSlot>>,
    /// The blend state of the color target.
    pub blend_plan: Ghost<BlendPlan>,
    /// The fixed-function primitive configuration.
    pub primitive_plan: Ghost<PrimitivePlan>,
    /// The vertex attributes the vertex stage consumes.
    pub vertex_plan: Ghost<Seq<VertexAttrPlan>>,
}

impl VideoRenderPipeline {
    /// The owned texture is well formed and the bind group fills the
    /// declared layout.
    pub open spec fn wf(&self) -> bool {
        &&& self.texture.wf()
        &&& group_matches_layout(self.group_plan@, self.layout_plan@)
    }

    /// Builds the whole drawable unit at `dimensions`: the planar texture,
    /// the four-slot bind-group layout and its bind group, the two-stage
    /// shader program, and the fixed-function pipeline state — triangle
    /// lists, counter-clockwise front faces, back-face culling, one
    /// single-sampled color target at `target_format` with "over"
    /// blending, no depth/stencil.
    pub fn new(
        device: &wgpu::Device,
        label: Option<&str>,
        target_format: wgpu::TextureFormat,
        dimensions: (u32, u32),
    ) -> (r: Self)
        requires
            0 < dimensions.0 <= crate::texture::MAX_TEXTURE_DIM,
            0 < dimensions.1 <= crate::texture::MAX_TEXTURE_DIM,
        ensures
            r.wf(),
            r.texture.width == dimensions.0,
            r.texture.height == dimensions.1,
            r.texture.component_y.width == dimensions.0,
            r.texture.component_y.height == dimensions.1,
            r.texture.component_u.width == dimensions.0,
            r.texture.component_u.height == dimensions.1,
            r.texture.component_v.width == dimensions.0,
            r.texture.component_v.height == dimensions.1,
            r.layout_plan@ == video_layout_plan(),
            r.group_plan@ == video_group_plan(),
            group_matches_layout(r.group_plan@, r.layout_plan@),
            r.blend_plan@ == video_blend_plan(),
            is_over_compositing(r.blend_plan@),
            r.primitive_plan@ == video_primitive_plan(),
            r.vertex_plan@ == video_vertex_plan(),
    {
        let texture = VideoYUV444Texture::new(device, label, dimensions);
        let slots = video_layout_slots();
        let mut entries: Vec<wgpu::BindGroupLayoutEntry> = Vec::new();
        let mut i: usize = 0;
        while i < slots.len()
            invariant
                0 <= i <= slots@.len(),
            decreases slots@.len() - i,
        {
            let s = slots[i];
            match s.kind {
                SlotKind::PlaneTexture => entries.push(plane_texture_layout_entry(s.binding)),
                SlotKind::FilteringSampler => entries.push(
                    filtering_sampler_layout_entry(s.binding),
                ),
            }
            i += 1;
        }
        let bind_group_layout = create_bind_group_layout(
            device,
            Some("Video Render Pipeline Bind Group Layout"),
            &entries,
        );
        let bind_group = create_video_bind_group(
            device,
            Some("Video Render Pipeline Bind Group"),
            &bind_group_layout,
            &texture.component_y.view,
            &texture.component_u.view,
            &texture.component_v.view,
            &texture.sampler,
        );
        let pipeline_layout = create_pipeline_layout(
            device,
            Some("Video Render Pipeline Layout"),
            &bind_group_layout,
        );
        let shader = create_shader_module(device, VIDEO_SHADER_WGSL);
        let mut attributes: Vec<wgpu::VertexAttribute> = Vec::new();
        attributes.push(vertex_attr_f32x3(0, 0));
        attributes.push(vertex_attr_f32x2(12, 1));
        let blend = over_blend_state();
        let primitive = video_primitive_state();
        let multisample = single_sample_state();
        let render_pipeline = create_video_render_pipeline(
            device,
            Some("Video Render Pipeline"),
            &pipeline_layout,
            &shader,
            target_format,
            blend,
            primitive,
            multisample,
            &attributes,
            VERTEX_STRIDE as u64,
        );
        proof {
            lemma_video_bind_group_valid();
        }
        VideoRenderPipeline {
            render_pipeline,
            bind_group,
            texture,
            layout_plan: Ghost(video_layout_plan()),
            group_plan: Ghost(video_group_plan()),
            blend_plan: Ghost(video_blend_plan()),
            primitive_plan: Ghost(video_primitive_plan()),
            vertex_plan: Ghost(video_vertex_plan()),
        }
    }
}

} // verus!
