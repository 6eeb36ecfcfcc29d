//! Flag words and format values shared with the graphics API.
//!
//! Flags and formats travel through the library as the raw words of the
//! graphics API. Their values and the subset test are taken from `ash`; the
//! contracts of the functions below are believed, not proved.

use vstd::prelude::*;

verus! {

/// Buffer usage: source of a transfer.
pub const TRANSFER_SRC: u32 = 0x1;

/// Buffer usage: destination of a transfer.
pub const TRANSFER_DST: u32 = 0x2;

/// Buffer usage: index buffer.
pub const INDEX_BUFFER: u32 = 0x40;

/// Buffer usage: vertex buffer.
pub const VERTEX_BUFFER: u32 = 0x80;

/// Memory property: memory that lives on the device.
pub const DEVICE_LOCAL: u32 = 0x1;

/// Memory property: memory the host can map.
pub const HOST_VISIBLE: u32 = 0x2;

/// Memory property: host writes are visible without an explicit flush.
pub const HOST_COHERENT: u32 = 0x4;

/// Raw value of the four-channel, eight-bit normalized format in blue,
/// green, red, alpha order.
pub const FORMAT_B8G8R8A8_UNORM: i32 = 44;

/// `ash::vk::MemoryPropertyFlags::contains`: `true` exactly when every bit of
/// `want` is also set in `have`.
#[verifier::external_body]
pub(crate) fn memory_flags_contain(have: u32, want: u32) -> (r: bool)
    ensures
        r == (have & want == want),
{
    ash::vk::MemoryPropertyFlags::from_raw(have).contains(
        ash::vk::MemoryPropertyFlags::from_raw(want),
    )
}

/// `ash::vk::BufferUsageFlags::TRANSFER_SRC`, as its raw word.
#[verifier::external_body]
pub(crate) fn usage_transfer_src() -> (r: u32)
    ensures
        r == TRANSFER_SRC,
{
    ash::vk::BufferUsageFlags::TRANSFER_SRC.as_raw()
}

/// `ash::vk::BufferUsageFlags::TRANSFER_DST`, as its raw word.
#[verifier::external_body]
pub(crate) fn usage_transfer_dst() -> (r: u32)
    ensures
        r == TRANSFER_DST,
{
    ash::vk::BufferUsageFlags::TRANSFER_DST.as_raw()
}

/// `ash::vk::BufferUsageFlags::INDEX_BUFFER`, as its raw word.
#[verifier::external_body]
pub(crate) fn usage_index_buffer() -> (r: u32)
    ensures
        r == INDEX_BUFFER,
{
    ash::vk::BufferUsageFlags::INDEX_BUFFER.as_raw()
}

/// `ash::vk::BufferUsageFlags::VERTEX_BUFFER`, as its raw word.
#[verifier::external_body]
pub(crate) fn usage_vertex_buffer() -> (r: u32)
    ensures
        r == VERTEX_BUFFER,
{
    ash::vk::BufferUsageFlags::VERTEX_BUFFER.as_raw()
}

/// `ash::vk::MemoryPropertyFlags::DEVICE_LOCAL`, as its raw word.
#[verifier::external_body]
pub(crate) fn memory_device_local() -> (r: u32)
    ensures
        r == DEVICE_LOCAL,
{
    ash::vk::MemoryPropertyFlags::DEVICE_LOCAL.as_raw()
}

/// `ash::vk::MemoryPropertyFlags::HOST_VISIBLE`, as its raw word.
#[verifier::external_body]
pub(crate) fn memory_host_visible() -> (r: u32)
    ensures
        r == HOST_VISIBLE,
{
    ash::vk::MemoryPropertyFlags::HOST_VISIBLE.as_raw()
}

/// `ash::vk::MemoryPropertyFlags::HOST_COHERENT`, as its raw word.
#[verifier::external_body]
pub(crate) fn memory_host_coherent() -> (r: u32)
    ensures
        r == HOST_COHERENT,
{
    ash::vk::MemoryPropertyFlags::HOST_COHERENT.as_raw()
}

/// `ash::vk::Format::B8G8R8A8_UNORM`, as its raw value.
#[verifier::external_body]
pub(crate) fn format_b8g8r8a8_unorm() -> (r: i32)
    ensures
        r == FORMAT_B8G8R8A8_UNORM,
{
    ash::vk::Format::B8G8R8A8_UNORM.as_raw()
}

} // verus!
