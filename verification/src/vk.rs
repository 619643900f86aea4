//! Raw Vulkan values that the engine's decisions compare against, taken
//! from the `ash` bindings.
//!
//! Each executable function here reads one constant of `ash` and is trusted
//! to return the value that the `ash` source gives it; the spec functions
//! name those same values for use in contracts.

use vstd::prelude::*;

use ash::vk;

verus! {

/// Raw value of `VK_FORMAT_B8G8R8A8_SRGB`.
pub open spec fn format_b8g8r8a8_srgb_raw() -> i32 {
    50
}

/// Raw value of `VK_COLOR_SPACE_SRGB_NONLINEAR_KHR`.
pub open spec fn color_space_srgb_nonlinear_raw() -> i32 {
    0
}

/// Raw value of `VK_PRESENT_MODE_MAILBOX_KHR`.
pub open spec fn present_mode_mailbox_raw() -> i32 {
    1
}

/// Raw value of `VK_PRESENT_MODE_FIFO_KHR`.
pub open spec fn present_mode_fifo_raw() -> i32 {
    2
}

/// Raw value of `VK_PHYSICAL_DEVICE_TYPE_INTEGRATED_GPU`.
pub open spec fn device_type_integrated_gpu_raw() -> i32 {
    1
}

/// Raw value of `VK_PHYSICAL_DEVICE_TYPE_DISCRETE_GPU`.
pub open spec fn device_type_discrete_gpu_raw() -> i32 {
    2
}

/// Bit of `VK_QUEUE_GRAPHICS_BIT`.
pub open spec fn queue_graphics_bit() -> u32 {
    1
}

/// Bits of the four debug message severities, from verbose to error.
pub open spec fn severity_verbose_bit() -> u32 {
    0x1
}

pub open spec fn severity_info_bit() -> u32 {
    0x10
}

pub open spec fn severity_warning_bit() -> u32 {
    0x100
}

pub open spec fn severity_error_bit() -> u32 {
    0x1000
}

/// The bytes of the name of the `VK_KHR_swapchain` extension, without the
/// terminating nul.
pub open spec fn swapchain_extension_name_bytes() -> Seq<u8> {
    seq![
        86u8, 75u8, 95u8, 75u8, 72u8, 82u8, 95u8, 115u8,
        119u8, 97u8, 112u8, 99u8, 104u8, 97u8, 105u8, 110u8,
    ]
}

/// Whether the bit mask `flags` holds every bit of `other`, as `contains`
/// of `ash`'s flag types decides it.
pub open spec fn flags_contain(flags: u32, other: u32) -> bool {
    flags & other == other
}

/// `ash::vk::Format::B8G8R8A8_SRGB`, as its raw value.
#[verifier::external_body]
pub fn format_b8g8r8a8_srgb() -> (raw: i32)
    ensures
        raw == format_b8g8r8a8_srgb_raw(),
{
    vk::Format::B8G8R8A8_SRGB.as_raw()
}

/// `ash::vk::ColorSpaceKHR::SRGB_NONLINEAR`, as its raw value.
#[verifier::external_body]
pub fn color_space_srgb_nonlinear() -> (raw: i32)
    ensures
        raw == color_space_srgb_nonlinear_raw(),
{
    vk::ColorSpaceKHR::SRGB_NONLINEAR.as_raw()
}

/// `ash::vk::PresentModeKHR::MAILBOX`, as its raw value.
#[verifier::external_body]
pub fn present_mode_mailbox() -> (raw: i32)
    ensures
        raw == present_mode_mailbox_raw(),
{
    vk::PresentModeKHR::MAILBOX.as_raw()
}

/// `ash::vk::PresentModeKHR::FIFO`, as its raw value.
#[verifier::external_body]
pub fn present_mode_fifo() -> (raw: i32)
    ensures
        raw == present_mode_fifo_raw(),
{
    vk::PresentModeKHR::FIFO.as_raw()
}

/// `ash::vk::PhysicalDeviceType::INTEGRATED_GPU`, as its raw value.
#[verifier::external_body]
pub fn device_type_integrated_gpu() -> (raw: i32)
    ensures
        raw == device_type_integrated_gpu_raw(),
{
    vk::PhysicalDeviceType::INTEGRATED_GPU.as_raw()
}

/// `ash::vk::PhysicalDeviceType::DISCRETE_GPU`, as its raw value.
#[verifier::external_body]
pub fn device_type_discrete_gpu() -> (raw: i32)
    ensures
        raw == device_type_discrete_gpu_raw(),
{
    vk::PhysicalDeviceType::DISCRETE_GPU.as_raw()
}

/// `ash::vk::QueueFlags::GRAPHICS`, as its raw bits.
#[verifier::external_body]
pub fn queue_graphics() -> (bits: u32)
    ensures
        bits == queue_graphics_bit(),
{
    vk::QueueFlags::GRAPHICS.as_raw()
}

/// `ash::vk::DebugUtilsMessageSeverityFlagsEXT::VERBOSE`, as its raw bits.
#[verifier::external_body]
pub fn severity_verbose() -> (bits: u32)
    ensures
        bits == severity_verbose_bit(),
{
    vk::DebugUtilsMessageSeverityFlagsEXT::VERBOSE.as_raw()
}

/// `ash::vk::DebugUtilsMessageSeverityFlagsEXT::INFO`, as its raw bits.
#[verifier::external_body]
pub fn severity_info() -> (bits: u32)
    ensures
        bits == severity_info_bit(),
{
    vk::DebugUtilsMessageSeverityFlagsEXT::INFO.as_raw()
}

/// `ash::vk::DebugUtilsMessageSeverityFlagsEXT::WARNING`, as its raw bits.
#[verifier::external_body]
pub fn severity_warning() -> (bits: u32)
    ensures
        bits == severity_warning_bit(),
{
    vk::DebugUtilsMessageSeverityFlagsEXT::WARNING.as_raw()
}

/// `ash::vk::DebugUtilsMessageSeverityFlagsEXT::ERROR`, as its raw bits.
#[verifier::external_body]
pub fn severity_error() -> (bits: u32)
    ensures
        bits == severity_error_bit(),
{
    vk::DebugUtilsMessageSeverityFlagsEXT::ERROR.as_raw()
}

/// `ash::extensions::khr::Swapchain::name`: the extension's name as bytes,
/// without the terminating nul.
#[verifier::external_body]
pub fn swapchain_extension_name() -> (name: Vec<u8>)
    ensures
        name@ == swapchain_extension_name_bytes(),
{
    ash::extensions::khr::Swapchain::name().to_bytes().to_vec()
}

} // verus!
