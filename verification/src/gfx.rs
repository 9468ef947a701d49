//! A model of the GPU abstraction layer the uploader records its work
//! against.
//!
//! The real device library (buffers, images, samplers, acceleration
//! structures, staged uploads) is an external collaborator that is not
//! available to this crate, so its interface is mirrored here as plain
//! records: a buffer remembers its size, usage, debug name, device address
//! and the bytes staged into it; an acceleration structure remembers the
//! geometry and build ranges it was built from. Contracts over these records
//! capture exactly what the uploader asks of the device.

use vstd::prelude::*;
use crate::bytes::{spec_u32_le, spec_u64_le, push_u32_le, push_u64_le};

verus! {

/// Buffer usage: the buffer is a source of transfer commands.
pub const BUFFER_USAGE_TRANSFER_SRC: u32 = 0x1;
/// Buffer usage: the buffer is a destination of transfer commands.
pub const BUFFER_USAGE_TRANSFER_DST: u32 = 0x2;
/// Buffer usage: the buffer backs a uniform block.
pub const BUFFER_USAGE_UNIFORM_BUFFER: u32 = 0x4;
/// Buffer usage: the buffer backs a storage block.
pub const BUFFER_USAGE_STORAGE_BUFFER: u32 = 0x8;
/// Buffer usage: the buffer backs an index stream.
pub const BUFFER_USAGE_INDEX_BUFFER: u32 = 0x10;
/// Buffer usage: the buffer backs a vertex stream.
pub const BUFFER_USAGE_VERTEX_BUFFER: u32 = 0x20;
/// Buffer usage: shaders may address the buffer by device address.
pub const BUFFER_USAGE_SHADER_DEVICE_ADDRESS: u32 = 0x40;
/// Buffer usage: the buffer is read as acceleration-structure build input.
pub const BUFFER_USAGE_ACCELERATION_STRUCTURE_BUILD_INPUT_READ_ONLY: u32 = 0x80;
/// Buffer usage: no capability.
pub const BUFFER_USAGE_NONE: u32 = 0x0;

/// Pipeline stage: no stage.
pub const PIPELINE_STAGE_NONE: u64 = 0x0;
/// Pipeline stage: task shader.
pub const PIPELINE_STAGE_TASK_SHADER: u64 = 0x1;
/// Pipeline stage: mesh shader.
pub const PIPELINE_STAGE_MESH_SHADER: u64 = 0x2;
/// Pipeline stage: ray-tracing shader.
pub const PIPELINE_STAGE_RAY_TRACING_SHADER: u64 = 0x4;
/// Pipeline stage: vertex shader.
pub const PIPELINE_STAGE_VERTEX_SHADER: u64 = 0x8;
/// Pipeline stage: fragment shader.
pub const PIPELINE_STAGE_FRAGMENT_SHADER: u64 = 0x10;
/// Pipeline stage: compute shader.
pub const PIPELINE_STAGE_COMPUTE_SHADER: u64 = 0x20;
/// Pipeline stage: transfer.
pub const PIPELINE_STAGE_TRANSFER: u64 = 0x40;

/// Geometry flag: the geometry is opaque to ray queries.
pub const GEOMETRY_FLAG_OPAQUE: u32 = 0x1;
/// Instance flag: triangle facing culling is disabled for the instance.
pub const GEOMETRY_INSTANCE_TRIANGLE_FACING_CULL_DISABLE: u32 = 0x1;

/// Where a resource's memory lives.
#[derive(Debug, Clone, Copy, PartialEq, Eq, Structural)]
pub enum HalaMemoryLocation {
    /// Host-visible, device-readable memory for staging.
    CpuToGpu,
    /// Device-local memory.
    GpuOnly,
}

/// The pixel or vertex-attribute formats this layer distinguishes.
#[derive(Debug, Clone, Copy, PartialEq, Eq, Structural)]
pub enum HalaFormat {
    R8G8B8Unorm,
    B8G8R8A8Unorm,
    R32G32B32Sfloat,
    R32G32B32A32Sfloat,
}

/// Texel filtering.
#[derive(Debug, Clone, Copy, PartialEq, Eq, Structural)]
pub enum HalaFilter {
    Nearest,
    Linear,
}

/// Mipmap interpolation.
#[derive(Debug, Clone, Copy, PartialEq, Eq, Structural)]
pub enum HalaSamplerMipmapMode {
    Nearest,
    Linear,
}

/// Texture addressing outside [0, 1].
#[derive(Debug, Clone, Copy, PartialEq, Eq, Structural)]
pub enum HalaSamplerAddressMode {
    Repeat,
    ClampToEdge,
}

/// The queue family a command buffer set records for.
#[derive(Debug, Clone, Copy, PartialEq, Eq, Structural)]
pub enum HalaCommandBufferType {
    Graphics,
    Compute,
    Transfer,
}

/// Index element width.
#[derive(Debug, Clone, Copy, PartialEq, Eq, Structural)]
pub enum HalaIndexType {
    Uint16,
    Uint32,
}

/// The kind of geometry an acceleration structure is built over.
#[derive(Debug, Clone, Copy, PartialEq, Eq, Structural)]
pub enum HalaGeometryType {
    Triangles,
    Aabbs,
    Instances,
}

/// Bottom or top level of the two-level acceleration-structure hierarchy.
#[derive(Debug, Clone, Copy, PartialEq, Eq, Structural)]
pub enum HalaAccelerationStructureLevel {
    BottomLevel,
    TopLevel,
}

/// The device context: the allocator of device addresses in this model.
pub struct HalaContext {
    pub next_device_address: u64,
}

/// The device address the context hands out after one more allocation.
pub open spec fn spec_bumped_address(a: u64) -> u64 {
    if a < u64::MAX {
        (a + 1) as u64
    } else {
        a
    }
}

impl HalaContext {
    /// A fresh context; address 0 is kept as the null address.
    pub fn new() -> (r: Self)
        ensures
            r.next_device_address == 1,
    {
        Self { next_device_address: 1 }
    }

    /// Hand out the next device address.
    fn allocate_address(&mut self) -> (r: u64)
        ensures
            r == old(self).next_device_address,
            final(self).next_device_address == spec_bumped_address(old(self).next_device_address),
    {
        let r = self.next_device_address;
        if self.next_device_address < u64::MAX {
            self.next_device_address = self.next_device_address + 1;
        }
        r
    }
}

/// A set of command buffers recording for one queue family.
pub struct HalaCommandBufferSet {
    pub command_buffer_type: HalaCommandBufferType,
}

impl HalaCommandBufferSet {
    /// Create a command buffer set for the given queue family.
    pub fn new(command_buffer_type: HalaCommandBufferType) -> (r: Self)
        ensures
            r.command_buffer_type == command_buffer_type,
    {
        Self { command_buffer_type }
    }
}

/// A device buffer: its creation parameters, its device address, and the
/// bytes most recently staged into it.
pub struct HalaBuffer {
    pub size: u64,
    pub usage: u32,
    pub memory_location: HalaMemoryLocation,
    pub name: String,
    pub address: u64,
    pub data: Vec<u8>,
}

impl HalaBuffer {
    /// Create a buffer of `size` bytes with the given usage and location.
    pub fn new(
        context: &mut HalaContext,
        size: u64,
        usage: u32,
        memory_location: HalaMemoryLocation,
        name: &str,
    ) -> (r: Self)
        ensures
            r.size == size,
            r.usage == usage,
            r.memory_location == memory_location,
            r.name@ == name@,
            r.address == old(context).next_device_address,
            r.data@ == Seq::<u8>::empty(),
            final(context).next_device_address == spec_bumped_address(
                old(context).next_device_address,
            ),
    {
        let address = context.allocate_address();
        Self {
            size,
            usage,
            memory_location,
            name: name.to_string(),
            address,
            data: Vec::new(),
        }
    }

    /// The buffer's device address.
    pub fn get_device_address(&self) -> (r: u64)
        ensures
            r == self.address,
    {
        self.address
    }

    /// Stage `data` into the buffer in one copy through `staging_buffer`,
    /// recorded on the given command stream. The payload must fit both the
    /// staging buffer and this buffer.
    pub fn update_gpu_memory_with_buffer(
        &mut self,
        data: &Vec<u8>,
        staging_buffer: &HalaBuffer,
        _command_buffers: &HalaCommandBufferSet,
    )
        requires
            data@.len() <= staging_buffer.size,
            data@.len() <= old(self).size,
        ensures
            final(self).data@ == data@,
            final(self).size == old(self).size,
            final(self).usage == old(self).usage,
            final(self).memory_location == old(self).memory_location,
            final(self).name@ == old(self).name@,
            final(self).address == old(self).address,
    {
        self.data = data.clone();
    }
}

/// A sampler: the fixed filtering and addressing policy it was created with.
pub struct HalaSampler {
    pub filters: (HalaFilter, HalaFilter),
    pub mipmap_mode: HalaSamplerMipmapMode,
    pub address_modes: (HalaSamplerAddressMode, HalaSamplerAddressMode, HalaSamplerAddressMode),
    pub mip_lod_bias: u32,
    pub anisotropy_enable: bool,
    pub max_anisotropy: u32,
    pub lod: (u32, u32),
    pub name: String,
}

impl HalaSampler {
    /// Create a sampler with the given policy.
    pub fn new(
        filters: (HalaFilter, HalaFilter),
        mipmap_mode: HalaSamplerMipmapMode,
        address_modes: (HalaSamplerAddressMode, HalaSamplerAddressMode, HalaSamplerAddressMode),
        mip_lod_bias: u32,
        anisotropy_enable: bool,
        max_anisotropy: u32,
        lod: (u32, u32),
        name: &str,
    ) -> (r: Self)
        ensures
            r.filters == filters,
            r.mipmap_mode == mipmap_mode,
            r.address_modes == address_modes,
            r.mip_lod_bias == mip_lod_bias,
            r.anisotropy_enable == anisotropy_enable,
            r.max_anisotropy == max_anisotropy,
            r.lod == lod,
            r.name@ == name@,
    {
        Self {
            filters,
            mipmap_mode,
            address_modes,
            mip_lod_bias,
            anisotropy_enable,
            max_anisotropy,
            lod,
            name: name.to_string(),
        }
    }
}

/// A device image: its creation parameters and the bytes staged into it.
pub struct HalaImage {
    pub usage: u32,
    pub format: HalaFormat,
    pub width: u32,
    pub height: u32,
    pub mip_levels: u32,
    pub array_layers: u32,
    pub memory_location: HalaMemoryLocation,
    pub name: String,
    pub data: Vec<u8>,
}

/// Image usage: the image can be sampled by shaders.
pub const IMAGE_USAGE_SAMPLED: u32 = 0x1;
/// Image usage: the image is a destination of transfer commands.
pub const IMAGE_USAGE_TRANSFER_DST: u32 = 0x2;

impl HalaImage {
    /// Create a 2D image.
    pub fn new_2d(
        usage: u32,
        format: HalaFormat,
        width: u32,
        height: u32,
        mip_levels: u32,
        array_layers: u32,
        memory_location: HalaMemoryLocation,
        name: &str,
    ) -> (r: Self)
        ensures
            r.usage == usage,
            r.format == format,
            r.width == width,
            r.height == height,
            r.mip_levels == mip_levels,
            r.array_layers == array_layers,
            r.memory_location == memory_location,
            r.name@ == name@,
            r.data@ == Seq::<u8>::empty(),
    {
        Self {
            usage,
            format,
            width,
            height,
            mip_levels,
            array_layers,
            memory_location,
            name: name.to_string(),
            data: Vec::new(),
        }
    }

    /// Stage `data` into the image in one copy through `staging_buffer`,
    /// recorded on the given command stream; `_dst_stages` names the
    /// pipeline stages that will read the image afterwards.
    pub fn update_gpu_memory_with_buffer(
        &mut self,
        data: &Vec<u8>,
        _dst_stages: u64,
        staging_buffer: &HalaBuffer,
        _command_buffers: &HalaCommandBufferSet,
    )
        requires
            data@.len() <= staging_buffer.size,
        ensures
            final(self).data@ == data@,
            final(self).usage == old(self).usage,
            final(self).format == old(self).format,
            final(self).width == old(self).width,
            final(self).height == old(self).height,
            final(self).mip_levels == old(self).mip_levels,
            final(self).array_layers == old(self).array_layers,
            final(self).memory_location == old(self).memory_location,
            final(self).name@ == old(self).name@,
    {
        self.data = data.clone();
    }
}

/// Triangle geometry for a bottom-level build: vertex and index streams by
/// device address.
#[derive(Debug, Clone, Copy, PartialEq, Eq, Structural)]
pub struct HalaAccelerationStructureGeometryTrianglesData {
    pub vertex_format: HalaFormat,
    pub vertex_data_address: u64,
    pub vertex_stride: u64,
    pub vertex_count: u32,
    pub index_type: HalaIndexType,
    pub index_data_address: u64,
    pub transform_data_address: u64,
}

/// Axis-aligned-box geometry for a bottom-level build.
#[derive(Debug, Clone, Copy, PartialEq, Eq, Structural)]
pub struct HalaAccelerationStructureGeometryAabbsData {
    pub data_address: u64,
    pub stride: u64,
}

/// Instance geometry for a top-level build.
#[derive(Debug, Clone, Copy, PartialEq, Eq, Structural)]
pub struct HalaAccelerationStructureGeometryInstancesData {
    pub array_of_pointers: bool,
    pub data_address: u64,
}

/// One geometry of an acceleration-structure build: exactly one of the three
/// payloads is expected to be present, matching `ty`.
#[derive(Debug, Clone, Copy, PartialEq, Eq, Structural)]
pub struct HalaAccelerationStructureGeometry {
    pub ty: HalaGeometryType,
    pub flags: u32,
    pub triangles_data: Option<HalaAccelerationStructureGeometryTrianglesData>,
    pub aabbs_data: Option<HalaAccelerationStructureGeometryAabbsData>,
    pub instances_data: Option<HalaAccelerationStructureGeometryInstancesData>,
}

/// The primitive range of one geometry in a build.
#[derive(Debug, Clone, Copy, PartialEq, Eq, Structural)]
pub struct HalaAccelerationStructureBuildRangeInfo {
    pub primitive_count: u32,
    pub primitive_offset: u32,
    pub first_vertex: u32,
    pub transform_offset: u32,
}

/// An acceleration structure: the level, geometry and ranges it was built
/// from, and its device address.
pub struct HalaAccelerationStructure {
    pub level: HalaAccelerationStructureLevel,
    pub geometries: Vec<HalaAccelerationStructureGeometry>,
    pub build_ranges: Vec<Vec<HalaAccelerationStructureBuildRangeInfo>>,
    pub max_primitive_counts: Vec<u32>,
    pub name: String,
    pub address: u64,
}

impl HalaAccelerationStructure {
    /// Record an acceleration-structure build on the given command stream.
    pub fn new(
        context: &mut HalaContext,
        _command_buffers: &HalaCommandBufferSet,
        level: HalaAccelerationStructureLevel,
        geometries: Vec<HalaAccelerationStructureGeometry>,
        build_ranges: Vec<Vec<HalaAccelerationStructureBuildRangeInfo>>,
        max_primitive_counts: Vec<u32>,
        name: &str,
    ) -> (r: Self)
        ensures
            r.level == level,
            r.geometries@ == geometries@,
            r.build_ranges@ == build_ranges@,
            r.max_primitive_counts@ == max_primitive_counts@,
            r.name@ == name@,
            r.address == old(context).next_device_address,
            final(context).next_device_address == spec_bumped_address(
                old(context).next_device_address,
            ),
    {
        let address = context.allocate_address();
        Self {
            level,
            geometries,
            build_ranges,
            max_primitive_counts,
            name: name.to_string(),
            address,
        }
    }
}

/// One instance of a bottom-level structure inside a top-level build: a
/// row-major 3x4 transform, routing indices and the referenced structure's
/// device address.
#[derive(Debug, Clone, Copy)]
pub struct HalaAccelerationStructureInstance {
    pub transform: [u32; 12],
    pub custom_index: u32,
    pub mask: u32,
    pub shader_binding_table_record_offset: u32,
    pub shader_binding_table_flags: u32,
    pub acceleration_structure_device_address: u64,
}

/// The packed 64-byte device layout of an instance: the twelve transform
/// words, then `custom_index` in 24 bits with `mask` above it, then the
/// shader-binding-table record offset in 24 bits with the flags above it,
/// then the referenced device address.
pub open spec fn spec_instance_bytes(inst: HalaAccelerationStructureInstance) -> Seq<u8> {
    spec_u32_le(inst.transform[0]) + spec_u32_le(inst.transform[1]) + spec_u32_le(
        inst.transform[2],
    ) + spec_u32_le(inst.transform[3]) + spec_u32_le(inst.transform[4]) + spec_u32_le(
        inst.transform[5],
    ) + spec_u32_le(inst.transform[6]) + spec_u32_le(inst.transform[7]) + spec_u32_le(
        inst.transform[8],
    ) + spec_u32_le(inst.transform[9]) + spec_u32_le(inst.transform[10]) + spec_u32_le(
        inst.transform[11],
    ) + spec_u32_le((inst.custom_index & 0xffffff) | ((inst.mask & 0xff) << 24)) + spec_u32_le(
        (inst.shader_binding_table_record_offset & 0xffffff) | ((inst.shader_binding_table_flags
            & 0xff) << 24),
    ) + spec_u64_le(inst.acceleration_structure_device_address)
}

impl HalaAccelerationStructureInstance {
    /// Pack the instance into its 64-byte device layout.
    pub fn as_data(&self) -> (r: Vec<u8>)
        ensures
            r@ == spec_instance_bytes(*self),
            r@.len() == 64,
    {
        let mut out: Vec<u8> = Vec::new();
        push_u32_le(&mut out, self.transform[0]);
        push_u32_le(&mut out, self.transform[1]);
        push_u32_le(&mut out, self.transform[2]);
        push_u32_le(&mut out, self.transform[3]);
        push_u32_le(&mut out, self.transform[4]);
        push_u32_le(&mut out, self.transform[5]);
        push_u32_le(&mut out, self.transform[6]);
        push_u32_le(&mut out, self.transform[7]);
        push_u32_le(&mut out, self.transform[8]);
        push_u32_le(&mut out, self.transform[9]);
        push_u32_le(&mut out, self.transform[10]);
        push_u32_le(&mut out, self.transform[11]);
        push_u32_le(&mut out, (self.custom_index & 0xffffff) | ((self.mask & 0xff) << 24));
        push_u32_le(
            &mut out,
            (self.shader_binding_table_record_offset & 0xffffff)
                | ((self.shader_binding_table_flags & 0xff) << 24),
        );
        push_u64_le(&mut out, self.acceleration_structure_device_address);
        proof {
            assert(out@ =~= spec_instance_bytes(*self));
        }
        out
    }
}

/// Append the packed 64-byte layout of `inst`.
pub fn append_instance_bytes(out: &mut Vec<u8>, inst: &HalaAccelerationStructureInstance)
    ensures
        final(out)@ == old(out)@ + spec_instance_bytes(*inst),
        final(out)@.len() == old(out)@.len() + 64,
{
    let mut data = inst.as_data();
    out.append(&mut data);
}

/// The concatenated packed layouts of an instance array, in order.
pub open spec fn spec_instance_seq_bytes(s: Seq<HalaAccelerationStructureInstance>) -> Seq<u8>
    decreases s.len(),
{
    if s.len() == 0 {
        Seq::empty()
    } else {
        spec_instance_seq_bytes(s.drop_last()) + spec_instance_bytes(s.last())
    }
}

/// Each record packs to 64 bytes.
pub proof fn lemma_instance_seq_bytes_len(s: Seq<HalaAccelerationStructureInstance>)
    ensures
        spec_instance_seq_bytes(s).len() == 64usize * s.len(),
    decreases s.len(),
{
    if s.len() > 0 {
        lemma_instance_seq_bytes_len(s.drop_last());
    }
}

/// Pack an array of records into one contiguous payload.
pub fn instance_seq_bytes(v: &Vec<HalaAccelerationStructureInstance>) -> (r: Vec<u8>)
    ensures
        r@ == spec_instance_seq_bytes(v@),
        r@.len() == 64usize * v@.len(),
{
    let n = v.len();
    let mut out: Vec<u8> = Vec::new();
    let mut i: usize = 0;
    proof {
        assert(v@.take(0int) =~= Seq::<HalaAccelerationStructureInstance>::empty());
    }
    while i < n
        invariant
            i <= n,
            n == v@.len(),
            out@ == spec_instance_seq_bytes(v@.take(i as int)),
        decreases n - i,
    {
        append_instance_bytes(&mut out, &v[i]);
        i = i + 1;
        proof {
            assert(v@.take(i as int).drop_last() =~= v@.take(i - 1));
            assert(v@.take(i as int).last() == v@[i - 1]);
        }
    }
    proof {
        assert(v@.take(n as int) =~= v@);
        lemma_instance_seq_bytes_len(v@);
    }
    out
}

} // verus!
