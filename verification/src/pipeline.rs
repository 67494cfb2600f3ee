//! The fixed description of the device, the render pipeline and one draw,
//! as plain values that the host turns into objects of its graphics
//! interface.

use vstd::prelude::*;
use crate::constants::{le_word, ConfigError, ShaderConstants, SIZE_BYTES};
use crate::scalar::{Scalar, Vec4};

verus! {

/// The in-band capacity, in bytes, that is asked of the device.
pub const REQUIRED_PUSH_CONSTANT_SIZE: u32 = 256;

/// Number of vertices of the one draw of a frame.
pub const VERTEX_COUNT: u32 = 3;

/// Number of instances of the one draw of a frame.
pub const INSTANCE_COUNT: u32 = 1;

/// The word that every program package starts with.
pub const PROGRAM_MAGIC: u32 = 0x0723_0203;

/// The format of the single colour target.
#[derive(Clone, Copy, Debug, PartialEq, Eq, Structural)]
pub enum ColorFormat {
    Rgba8Unorm,
    Rgba8UnormSrgb,
    Bgra8Unorm,
    Bgra8UnormSrgb,
}

/// How primitives are assembled from vertices.
#[derive(Clone, Copy, Debug, PartialEq, Eq, Structural)]
pub enum Topology {
    PointList,
    LineList,
    LineStrip,
    TriangleList,
    TriangleStrip,
}

/// Which faces are discarded.
#[derive(Clone, Copy, Debug, PartialEq, Eq, Structural)]
pub enum CullMode {
    Disabled,
    Front,
    Back,
}

/// How finished images are handed to the display.
#[derive(Clone, Copy, Debug, PartialEq, Eq, Structural)]
pub enum PresentMode {
    Immediate,
    Mailbox,
    Fifo,
}

/// One of the two programmable stages.
#[derive(Clone, Copy, Debug, PartialEq, Eq, Structural)]
pub enum Stage {
    Vertex,
    Fragment,
}

/// What is asked of a device, or what a device grants.
#[derive(Clone, Copy, Debug, PartialEq, Eq, Structural)]
pub struct DeviceFeatures {
    /// In-band constant transfer.
    pub push_constants: bool,
    /// Bytes that can be transferred in band.
    pub max_push_constant_size: u32,
}

/// The render pipeline, built once and never changed.
#[derive(Clone, Copy, Debug, PartialEq, Eq, Structural)]
pub struct PipelineConfig {
    /// First byte of the in-band range.
    pub push_constant_start: u32,
    /// One past the last byte of the in-band range.
    pub push_constant_end: u32,
    /// Whether the vertex stage sees the in-band range.
    pub push_constants_in_vertex: bool,
    /// Whether the fragment stage sees the in-band range.
    pub push_constants_in_fragment: bool,
    pub topology: Topology,
    pub cull_mode: CullMode,
    /// Format of the one colour target.
    pub color_format: ColorFormat,
    pub blending: bool,
    pub depth_stencil: bool,
    pub vertex_buffers: u32,
    pub sample_count: u32,
    pub sample_mask: u32,
    pub alpha_to_coverage: bool,
}

/// The presentable image chain bound to the window.
#[derive(Clone, Copy, Debug, PartialEq, Eq, Structural)]
pub struct ChainConfig {
    pub format: ColorFormat,
    pub width: u32,
    pub height: u32,
    pub present_mode: PresentMode,
}

/// Everything the host needs to record one frame.
#[derive(Clone, Copy, Debug, PartialEq, Eq, Structural)]
pub struct DrawCommand {
    /// The colour the target is cleared to before the draw.
    pub clear_color: Vec4,
    /// The block uploaded in band, to both stages, at offset 0.
    pub constants: ShaderConstants,
    pub vertex_count: u32,
    pub instance_count: u32,
}

/// What is asked of the device: in-band transfer of at least
/// `REQUIRED_PUSH_CONSTANT_SIZE` bytes.
pub open spec fn device_request_spec() -> DeviceFeatures {
    DeviceFeatures { push_constants: true, max_push_constant_size: REQUIRED_PUSH_CONSTANT_SIZE }
}

/// Whether what a device grants covers what is asked of it.
pub open spec fn device_suffices_spec(granted: DeviceFeatures) -> bool {
    granted.push_constants && granted.max_push_constant_size >= REQUIRED_PUSH_CONSTANT_SIZE
}

/// The pipeline for a colour target of the given format: the whole block in
/// band from offset 0 for both stages, one triangle list without culling,
/// blending, depth or stencil, no vertex buffers, one sample.
pub open spec fn pipeline_spec(format: ColorFormat) -> PipelineConfig {
    PipelineConfig {
        push_constant_start: 0,
        push_constant_end: SIZE_BYTES,
        push_constants_in_vertex: true,
        push_constants_in_fragment: true,
        topology: Topology::TriangleList,
        cull_mode: CullMode::Disabled,
        color_format: format,
        blending: false,
        depth_stencil: false,
        vertex_buffers: 0,
        sample_count: 1,
        sample_mask: 0xffff_ffff,
        alpha_to_coverage: false,
    }
}

/// The image chain of the given format and size.
pub open spec fn chain_spec(format: ColorFormat, width: u32, height: u32) -> ChainConfig {
    ChainConfig { format, width, height, present_mode: PresentMode::Mailbox }
}

/// The background: opaque green.
pub open spec fn clear_color_spec() -> Vec4 {
    Vec4 { x: Scalar::zero(), y: Scalar::one(), z: Scalar::zero(), w: Scalar::one() }
}

/// The one draw of a frame that carries `constants`.
pub open spec fn draw_spec(constants: ShaderConstants) -> DrawCommand {
    DrawCommand {
        clear_color: clear_color_spec(),
        constants,
        vertex_count: VERTEX_COUNT,
        instance_count: INSTANCE_COUNT,
    }
}

/// Whether the bytes can be a program package: a whole number of 32-bit
/// words, at least one, the first of them `PROGRAM_MAGIC` with its least
/// significant byte first.
pub open spec fn is_program_package_spec(package: Seq<u8>) -> bool {
    &&& package.len() >= 4
    &&& package.len() % 4 == 0
    &&& le_word(package[0], package[1], package[2], package[3]) == PROGRAM_MAGIC
}

/// Tells a program package from other bytes by its length and first word,
/// before it is handed on to be loaded.
pub fn is_program_package(package: &[u8]) -> (r: bool)
    ensures
        r == is_program_package_spec(package@),
{
    if package.len() < 4 || package.len() % 4 != 0 {
        return false;
    }
    let b0: u32 = package[0] as u32;
    let b1: u32 = package[1] as u32;
    let b2: u32 = package[2] as u32;
    let b3: u32 = package[3] as u32;
    b0 + b1 * 0x100 + b2 * 0x1_0000 + b3 * 0x100_0000 == PROGRAM_MAGIC
}

#[verifier::when_used_as_spec(device_request_spec)]
pub fn device_request() -> (r: DeviceFeatures)
    ensures
        r == device_request_spec(),
{
    DeviceFeatures { push_constants: true, max_push_constant_size: REQUIRED_PUSH_CONSTANT_SIZE }
}

#[verifier::when_used_as_spec(device_suffices_spec)]
pub fn device_suffices(granted: DeviceFeatures) -> (r: bool)
    ensures
        r == device_suffices_spec(granted),
{
    granted.push_constants && granted.max_push_constant_size >= REQUIRED_PUSH_CONSTANT_SIZE
}

#[verifier::when_used_as_spec(chain_spec)]
pub fn chain(format: ColorFormat, width: u32, height: u32) -> (r: ChainConfig)
    ensures
        r == chain_spec(format, width, height),
{
    ChainConfig { format, width, height, present_mode: PresentMode::Mailbox }
}

#[verifier::when_used_as_spec(draw_spec)]
pub fn draw(constants: ShaderConstants) -> (r: DrawCommand)
    ensures
        r == draw_spec(constants),
{
    DrawCommand {
        clear_color: Vec4 {
            x: Scalar::zero(),
            y: Scalar::one(),
            z: Scalar::zero(),
            w: Scalar::one(),
        },
        constants,
        vertex_count: VERTEX_COUNT,
        instance_count: INSTANCE_COUNT,
    }
}

impl Stage {
    /// The name of the stage's entry point in the program package.
    pub fn entry_point(self) -> (name: &'static str)
        ensures
            self == Stage::Vertex ==> name@ == "main_vs"@,
            self == Stage::Fragment ==> name@ == "main_fs"@,
    {
        match self {
            Stage::Vertex => "main_vs",
            Stage::Fragment => "main_fs",
        }
    }
}

impl PipelineConfig {
    /// Describes the pipeline for a device that accepts
    /// `max_push_constant_size` bytes in band. Fails, before anything is
    /// built, exactly when the block does not fit.
    pub fn new(format: ColorFormat, max_push_constant_size: u32) -> (r: Result<
        PipelineConfig,
        ConfigError,
    >)
        ensures
            SIZE_BYTES <= max_push_constant_size ==> r == Ok::<PipelineConfig, ConfigError>(
                pipeline_spec(format),
            ),
            SIZE_BYTES > max_push_constant_size ==> r == Err::<PipelineConfig, ConfigError>(
                ConfigError::PushConstantsExceedLimit {
                    required: SIZE_BYTES,
                    limit: max_push_constant_size,
                },
            ),
    {
        match ShaderConstants::check_push_constant_limit(max_push_constant_size) {
            Ok(()) => Ok(
                PipelineConfig {
                    push_constant_start: 0,
                    push_constant_end: SIZE_BYTES,
                    push_constants_in_vertex: true,
                    push_constants_in_fragment: true,
                    topology: Topology::TriangleList,
                    cull_mode: CullMode::Disabled,
                    color_format: format,
                    blending: false,
                    depth_stencil: false,
                    vertex_buffers: 0,
                    sample_count: 1,
                    sample_mask: 0xffff_ffff,
                    alpha_to_coverage: false,
                },
            ),
            Err(e) => Err(e),
        }
    }
}

/// A device that grants what is asked of it can take the block: the
/// pipeline is always described for it.
pub proof fn lemma_sufficient_device_takes_block(granted: DeviceFeatures)
    requires
        device_suffices(granted),
    ensures
        SIZE_BYTES <= granted.max_push_constant_size,
{
}

} // verus!
