//! What the engine tells Vulkan and the windowing system about the
//! application: versions, layers and the window's title.

use vstd::prelude::*;

verus! {

/// A semantic version's numeric part.
#[derive(Debug, Clone, Copy, PartialEq, Eq, Structural)]
pub struct SemVer {
    pub major: u64,
    pub minor: u64,
    pub patch: u64,
}

/// A version as Vulkan takes it, with 32-bit parts.
#[derive(Debug, Clone, Copy, PartialEq, Eq, Structural)]
pub struct VulkanVersion {
    pub major: u32,
    pub minor: u32,
    pub patch: u32,
}

/// Converts a semantic version into a Vulkan version, truncating each part
/// to its low 32 bits.
pub fn to_vk_version(version: &SemVer) -> (vk: VulkanVersion)
    ensures
        vk.major == version.major as u32,
        vk.minor == version.minor as u32,
        vk.patch == version.patch as u32,
{
    VulkanVersion {
        major: version.major as u32,
        minor: version.minor as u32,
        patch: version.patch as u32,
    }
}

/// A version whose parts fit in 32 bits keeps them when converted.
pub proof fn lemma_to_vk_version_keeps_small_parts(version: SemVer)
    requires
        version.major <= u32::MAX,
        version.minor <= u32::MAX,
        version.patch <= u32::MAX,
    ensures
        version.major as u32 == version.major,
        version.minor as u32 == version.minor,
        version.patch as u32 == version.patch,
{
}

/// Name of the Khronos validation layer.
pub open spec fn validation_layer_name() -> Seq<char> {
    "VK_LAYER_KHRONOS_validation"@
}

/// The layer to enable on the instance: the Khronos validation layer when
/// validation is enabled, none otherwise.
pub fn validation_layer(enable_validation: bool) -> (layer: Option<&'static str>)
    ensures
        enable_validation ==> (layer matches Some(name) && name@ == validation_layer_name()),
        !enable_validation ==> layer is None,
{
    proof {
        reveal_strlit("VK_LAYER_KHRONOS_validation");
    }
    if enable_validation {
        Some("VK_LAYER_KHRONOS_validation")
    } else {
        None
    }
}

/// The title of the game's window: its name, then ` version `, then its
/// version.
pub fn window_title(name: &str, version: &str) -> (title: String)
    ensures
        title@ == name@ + " version "@ + version@,
{
    proof {
        reveal_strlit(" version ");
    }
    let mut title = String::from_str(name);
    title.append(" version ");
    title.append(version);
    title
}

} // verus!
