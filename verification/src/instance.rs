//! Instance construction decisions: which API version to request and
//! which layers and extensions to enable.
//!
//! The native enumeration of available properties and the instance
//! creation call itself are performed by the surrounding application,
//! which hands the reported values in as plain strings and numbers.

use vstd::prelude::*;

use crate::version::Version;

verus! {

/// The validation layer requested when validation is enabled.
pub fn validation_layer_name() -> (r: String)
    ensures
        r@ == "VK_LAYER_KHRONOS_validation"@,
{
    "VK_LAYER_KHRONOS_validation".to_owned()
}

/// The diagnostic extension that accompanies the validation layer.
pub fn debug_utils_extension_name() -> (r: String)
    ensures
        r@ == "VK_EXT_debug_utils"@,
{
    "VK_EXT_debug_utils".to_owned()
}

/// The highest API version the driver reports, or the documented floor
/// when the driver reports none.
pub fn resolve_api_version(reported: Option<u32>) -> (v: Version)
    ensures
        match reported {
            Some(raw) => {
                &&& v.major == raw >> 22u32
                &&& v.minor == (raw >> 12u32) & 0x3ffu32
                &&& v.patch == raw & 0xfffu32
            },
            None => v == (Version { major: 1u32, minor: 0u32, patch: 0u32 }),
        },
{
    match reported {
        Some(raw) => crate::version::from_vk_version(raw),
        None => Version::new(1, 0, 0),
    }
}

/// Some name in the list reads `name`.
pub open spec fn spec_contains_name(names: Seq<String>, name: Seq<char>) -> bool {
    exists|i: int| 0 <= i < names.len() && names[i]@ == name
}

/// Whether the list holds the name.
pub fn contains_name(names: &Vec<String>, name: &String) -> (r: bool)
    ensures
        r == spec_contains_name(names@, name@),
{
    let n = names.len();
    let mut i: usize = 0;
    while i < n
        invariant
            n == names@.len(),
            i <= n,
            forall|t: int| 0 <= t < i ==> names@[t]@ != name@,
        decreases n - i,
    {
        if names[i].eq(name) {
            return true;
        }
        i = i + 1;
    }
    false
}

/// The layer and extension names to enable on the new instance.
pub struct InstancePlan {
    pub enabled_layers: Vec<String>,
    pub enabled_extensions: Vec<String>,
}

/// Decides what the instance is created with: the validation layer
/// exactly when validation is enabled; its diagnostic extension exactly
/// when validation is enabled and the driver offers it; and exactly the
/// presentation extensions the windowing surface requires, in their
/// given order.
pub fn plan_instance(
    enable_validation: bool,
    available_extensions: &Vec<String>,
    surface_extensions: &Vec<String>,
) -> (plan: InstancePlan)
    ensures
        enable_validation ==> plan.enabled_layers@.len() == 1 && plan.enabled_layers@[0]@
            == "VK_LAYER_KHRONOS_validation"@,
        !enable_validation ==> plan.enabled_layers@.len() == 0,
        ({
            let debug = enable_validation && spec_contains_name(
                available_extensions@,
                "VK_EXT_debug_utils"@,
            );
            if debug {
                &&& plan.enabled_extensions@.len() == 1 + surface_extensions@.len()
                &&& plan.enabled_extensions@[0]@ == "VK_EXT_debug_utils"@
                &&& forall|t: int|
                    0 <= t < surface_extensions@.len() ==> plan.enabled_extensions@[1 + t]@
                        == surface_extensions@[t]@
            } else {
                &&& plan.enabled_extensions@.len() == surface_extensions@.len()
                &&& forall|t: int|
                    0 <= t < surface_extensions@.len() ==> plan.enabled_extensions@[t]@
                        == surface_extensions@[t]@
            }
        }),
{
    let mut enabled_layers: Vec<String> = Vec::new();
    let mut enabled_extensions: Vec<String> = Vec::new();
    if enable_validation {
        enabled_layers.push(validation_layer_name());
        let debug_name = debug_utils_extension_name();
        if contains_name(available_extensions, &debug_name) {
            enabled_extensions.push(debug_name);
        }
    }
    let ghost prefix = enabled_extensions@.len();
    let n = surface_extensions.len();
    let mut i: usize = 0;
    while i < n
        invariant
            n == surface_extensions@.len(),
            i <= n,
            enabled_extensions@.len() == prefix + i,
            forall|t: int|
                0 <= t < i ==> enabled_extensions@[prefix + t]@ == surface_extensions@[t]@,
            forall|t: int|
                0 <= t < prefix ==> enabled_extensions@[t]@ == "VK_EXT_debug_utils"@,
        decreases n - i,
    {
        let name = surface_extensions[i].clone();
        enabled_extensions.push(name);
        i = i + 1;
    }
    InstancePlan { enabled_layers, enabled_extensions }
}

} // verus!
