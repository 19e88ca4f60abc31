//! The resource entry types: each a thin owner of exactly one native
//! handle plus non-owning keys of its parent resources.
//!
//! A native handle is carried as a plain 64-bit value; the surrounding
//! application creates and destroys the native objects and hands the
//! handles in. A constructor validates its declared parents by key —
//! surfacing the lookup error when a parent is gone — and stores the new
//! entry in that type's registry, returning the fresh key.

use vstd::prelude::*;

use crate::error::Error;
use crate::registry::{Key, Registry};
use crate::selection::PhysicalDeviceInfo;
use crate::version::Version;

verus! {

/// Validates one parent key and stores the entry. Succeeds exactly when
/// the parent is live in its registry.
pub fn insert_with_parent<P, T>(
    parents: &Registry<P>,
    parent: Key,
    own: &mut Registry<T>,
    value: T,
) -> (r: Result<Key, Error>)
    requires
        old(own).wf(),
    ensures
        final(own).wf(),
        r is Ok <==> parents@.dom().contains(parent),
        match r {
            Ok(k) => {
                &&& !old(own)@.dom().contains(k)
                &&& !old(own).spec_retired(k)
                &&& final(own)@ == old(own)@.insert(k, value)
                &&& forall|k2: Key| final(own).spec_retired(k2) == old(own).spec_retired(k2)
            },
            Err(e) => {
                &&& e == Error::KeyNotFound
                &&& final(own)@ == old(own)@
                &&& forall|k2: Key| final(own).spec_retired(k2) == old(own).spec_retired(k2)
            },
        },
{
    if parents.contains(parent) {
        Ok(own.insert(value))
    } else {
        Err(Error::KeyNotFound)
    }
}

/// Validates two parent keys and stores the entry. Succeeds exactly when
/// both parents are live in their registries.
pub fn insert_with_parents<P1, P2, T>(
    first_parents: &Registry<P1>,
    first: Key,
    second_parents: &Registry<P2>,
    second: Key,
    own: &mut Registry<T>,
    value: T,
) -> (r: Result<Key, Error>)
    requires
        old(own).wf(),
    ensures
        final(own).wf(),
        r is Ok <==> first_parents@.dom().contains(first) && second_parents@.dom().contains(
            second,
        ),
        match r {
            Ok(k) => {
                &&& !old(own)@.dom().contains(k)
                &&& !old(own).spec_retired(k)
                &&& final(own)@ == old(own)@.insert(k, value)
                &&& forall|k2: Key| final(own).spec_retired(k2) == old(own).spec_retired(k2)
            },
            Err(e) => {
                &&& e == Error::KeyNotFound
                &&& final(own)@ == old(own)@
                &&& forall|k2: Key| final(own).spec_retired(k2) == old(own).spec_retired(k2)
            },
        },
{
    if first_parents.contains(first) && second_parents.contains(second) {
        Ok(own.insert(value))
    } else {
        Err(Error::KeyNotFound)
    }
}

/// The root of the chain: the native instance, the driver's reported API
/// version and the layer and extension names enabled on it.
pub struct Instance {
    pub handle: u64,
    pub version: Version,
    pub layers: Vec<String>,
    pub extensions: Vec<String>,
}

impl Instance {
    /// Registers the instance; the root has no parents to validate.
    pub fn new(registry: &mut Registry<Instance>, value: Instance) -> (k: Key)
        requires
            old(registry).wf(),
        ensures
            final(registry).wf(),
            !old(registry)@.dom().contains(k),
            final(registry)@ == old(registry)@.insert(k, value),
    {
        registry.insert(value)
    }

    pub fn version(&self) -> (r: &Version)
        ensures
            r == self.version,
    {
        &self.version
    }

    /// The layer names enabled on the instance.
    pub fn layer_properties(&self) -> (r: &Vec<String>)
        ensures
            r == self.layers,
    {
        &self.layers
    }

    /// The extension names enabled on the instance.
    pub fn extension_properties(&self) -> (r: &Vec<String>)
        ensures
            r == self.extensions,
    {
        &self.extensions
    }
}

/// The debug-utils messenger attached to the instance in builds with
/// validation enabled.
pub struct DebugUtils {
    pub handle: u64,
    pub parent_instance: Key,
}

impl DebugUtils {
    pub fn new(
        instances: &Registry<Instance>,
        instance: Key,
        registry: &mut Registry<DebugUtils>,
        handle: u64,
    ) -> (r: Result<Key, Error>)
        requires
            old(registry).wf(),
        ensures
            final(registry).wf(),
            r is Ok <==> instances@.dom().contains(instance),
            match r {
                Ok(k) => final(registry)@ == old(registry)@.insert(
                    k,
                    DebugUtils { handle, parent_instance: instance },
                ) && !old(registry)@.dom().contains(k),
                Err(e) => e == Error::KeyNotFound && final(registry)@ == old(registry)@,
            },
    {
        insert_with_parent(instances, instance, registry, DebugUtils {
            handle,
            parent_instance: instance,
        })
    }
}

/// The presentation surface of the window.
pub struct Surface {
    pub handle: u64,
    pub parent_instance: Key,
}

impl Surface {
    pub fn new(
        instances: &Registry<Instance>,
        instance: Key,
        registry: &mut Registry<Surface>,
        handle: u64,
    ) -> (r: Result<Key, Error>)
        requires
            old(registry).wf(),
        ensures
            final(registry).wf(),
            r is Ok <==> instances@.dom().contains(instance),
            match r {
                Ok(k) => final(registry)@ == old(registry)@.insert(
                    k,
                    Surface { handle, parent_instance: instance },
                ) && !old(registry)@.dom().contains(k),
                Err(e) => e == Error::KeyNotFound && final(registry)@ == old(registry)@,
            },
    {
        insert_with_parent(instances, instance, registry, Surface {
            handle,
            parent_instance: instance,
        })
    }
}

/// The logical device created on the selected physical device, bound to
/// the surface it will present to.
pub struct Device {
    pub handle: u64,
    pub parent_physical_device: Key,
    pub parent_surface: Key,
}

impl Device {
    pub fn new(
        physical_devices: &Registry<PhysicalDeviceInfo>,
        physical_device: Key,
        surfaces: &Registry<Surface>,
        surface: Key,
        registry: &mut Registry<Device>,
        handle: u64,
    ) -> (r: Result<Key, Error>)
        requires
            old(registry).wf(),
        ensures
            final(registry).wf(),
            r is Ok <==> physical_devices@.dom().contains(physical_device)
                && surfaces@.dom().contains(surface),
            match r {
                Ok(k) => final(registry)@ == old(registry)@.insert(
                    k,
                    Device {
                        handle,
                        parent_physical_device: physical_device,
                        parent_surface: surface,
                    },
                ) && !old(registry)@.dom().contains(k),
                Err(e) => e == Error::KeyNotFound && final(registry)@ == old(registry)@,
            },
    {
        insert_with_parents(physical_devices, physical_device, surfaces, surface, registry, Device {
            handle,
            parent_physical_device: physical_device,
            parent_surface: surface,
        })
    }
}

/// One queue of the logical device.
pub struct Queue {
    pub handle: u64,
    pub family_index: usize,
    pub parent_device: Key,
}

impl Queue {
    pub fn new(
        devices: &Registry<Device>,
        device: Key,
        registry: &mut Registry<Queue>,
        handle: u64,
        family_index: usize,
    ) -> (r: Result<Key, Error>)
        requires
            old(registry).wf(),
        ensures
            final(registry).wf(),
            r is Ok <==> devices@.dom().contains(device),
            match r {
                Ok(k) => final(registry)@ == old(registry)@.insert(
                    k,
                    Queue { handle, family_index, parent_device: device },
                ) && !old(registry)@.dom().contains(k),
                Err(e) => e == Error::KeyNotFound && final(registry)@ == old(registry)@,
            },
    {
        insert_with_parent(devices, device, registry, Queue {
            handle,
            family_index,
            parent_device: device,
        })
    }
}

/// The swapchain: the set of presentable images cycled between rendering
/// and display, with the surface format and extent it was created with.
pub struct Swapchain {
    pub handle: u64,
    pub format: u32,
    pub extent_width: u32,
    pub extent_height: u32,
    pub parent_device: Key,
    pub parent_surface: Key,
}

impl Swapchain {
    pub fn new(
        devices: &Registry<Device>,
        device: Key,
        surfaces: &Registry<Surface>,
        surface: Key,
        registry: &mut Registry<Swapchain>,
        value: Swapchain,
    ) -> (r: Result<Key, Error>)
        requires
            old(registry).wf(),
            value.parent_device == device,
            value.parent_surface == surface,
        ensures
            final(registry).wf(),
            r is Ok <==> devices@.dom().contains(device) && surfaces@.dom().contains(surface),
            match r {
                Ok(k) => final(registry)@ == old(registry)@.insert(k, value) && !old(
                    registry,
                )@.dom().contains(k),
                Err(e) => e == Error::KeyNotFound && final(registry)@ == old(registry)@,
            },
    {
        insert_with_parents(devices, device, surfaces, surface, registry, value)
    }
}

/// One presentable image of the swapchain.
pub struct Image {
    pub handle: u64,
    pub parent_swapchain: Key,
}

impl Image {
    pub fn new(
        swapchains: &Registry<Swapchain>,
        swapchain: Key,
        registry: &mut Registry<Image>,
        handle: u64,
    ) -> (r: Result<Key, Error>)
        requires
            old(registry).wf(),
        ensures
            final(registry).wf(),
            r is Ok <==> swapchains@.dom().contains(swapchain),
            match r {
                Ok(k) => final(registry)@ == old(registry)@.insert(
                    k,
                    Image { handle, parent_swapchain: swapchain },
                ) && !old(registry)@.dom().contains(k),
                Err(e) => e == Error::KeyNotFound && final(registry)@ == old(registry)@,
            },
    {
        insert_with_parent(swapchains, swapchain, registry, Image {
            handle,
            parent_swapchain: swapchain,
        })
    }
}

/// The color view of one swapchain image.
pub struct ImageView {
    pub handle: u64,
    pub parent_image: Key,
}

impl ImageView {
    pub fn new(
        images: &Registry<Image>,
        image: Key,
        registry: &mut Registry<ImageView>,
        handle: u64,
    ) -> (r: Result<Key, Error>)
        requires
            old(registry).wf(),
        ensures
            final(registry).wf(),
            r is Ok <==> images@.dom().contains(image),
            match r {
                Ok(k) => final(registry)@ == old(registry)@.insert(
                    k,
                    ImageView { handle, parent_image: image },
                ) && !old(registry)@.dom().contains(k),
                Err(e) => e == Error::KeyNotFound && final(registry)@ == old(registry)@,
            },
    {
        insert_with_parent(images, image, registry, ImageView { handle, parent_image: image })
    }
}

/// The render pass drawing into the swapchain's color attachment.
pub struct RenderPass {
    pub handle: u64,
    pub parent_swapchain: Key,
}

impl RenderPass {
    pub fn new(
        swapchains: &Registry<Swapchain>,
        swapchain: Key,
        registry: &mut Registry<RenderPass>,
        handle: u64,
    ) -> (r: Result<Key, Error>)
        requires
            old(registry).wf(),
        ensures
            final(registry).wf(),
            r is Ok <==> swapchains@.dom().contains(swapchain),
            match r {
                Ok(k) => final(registry)@ == old(registry)@.insert(
                    k,
                    RenderPass { handle, parent_swapchain: swapchain },
                ) && !old(registry)@.dom().contains(k),
                Err(e) => e == Error::KeyNotFound && final(registry)@ == old(registry)@,
            },
    {
        insert_with_parent(swapchains, swapchain, registry, RenderPass {
            handle,
            parent_swapchain: swapchain,
        })
    }
}

/// The pipeline layout (empty descriptor set and push constant ranges).
pub struct PipelineLayout {
    pub handle: u64,
    pub parent_device: Key,
}

impl PipelineLayout {
    pub fn new(
        devices: &Registry<Device>,
        device: Key,
        registry: &mut Registry<PipelineLayout>,
        handle: u64,
    ) -> (r: Result<Key, Error>)
        requires
            old(registry).wf(),
        ensures
            final(registry).wf(),
            r is Ok <==> devices@.dom().contains(device),
            match r {
                Ok(k) => final(registry)@ == old(registry)@.insert(
                    k,
                    PipelineLayout { handle, parent_device: device },
                ) && !old(registry)@.dom().contains(k),
                Err(e) => e == Error::KeyNotFound && final(registry)@ == old(registry)@,
            },
    {
        insert_with_parent(devices, device, registry, PipelineLayout {
            handle,
            parent_device: device,
        })
    }

    pub fn handle(&self) -> (r: u64)
        ensures
            r == self.handle,
    {
        self.handle
    }

    pub fn parent_device(&self) -> (r: Key)
        ensures
            r == self.parent_device,
    {
        self.parent_device
    }
}

/// The graphics pipeline with the statically configured fixed-function
/// state.
pub struct GraphicsPipeline {
    pub handle: u64,
    pub parent_render_pass: Key,
    pub parent_pipeline_layout: Key,
}

impl GraphicsPipeline {
    pub fn new(
        render_passes: &Registry<RenderPass>,
        render_pass: Key,
        pipeline_layouts: &Registry<PipelineLayout>,
        pipeline_layout: Key,
        registry: &mut Registry<GraphicsPipeline>,
        handle: u64,
    ) -> (r: Result<Key, Error>)
        requires
            old(registry).wf(),
        ensures
            final(registry).wf(),
            r is Ok <==> render_passes@.dom().contains(render_pass)
                && pipeline_layouts@.dom().contains(pipeline_layout),
            match r {
                Ok(k) => final(registry)@ == old(registry)@.insert(
                    k,
                    GraphicsPipeline {
                        handle,
                        parent_render_pass: render_pass,
                        parent_pipeline_layout: pipeline_layout,
                    },
                ) && !old(registry)@.dom().contains(k),
                Err(e) => e == Error::KeyNotFound && final(registry)@ == old(registry)@,
            },
    {
        insert_with_parents(
            render_passes,
            render_pass,
            pipeline_layouts,
            pipeline_layout,
            registry,
            GraphicsPipeline {
                handle,
                parent_render_pass: render_pass,
                parent_pipeline_layout: pipeline_layout,
            },
        )
    }
}

/// One framebuffer per swapchain image, binding its view as the color
/// attachment of the render pass.
pub struct Framebuffer {
    pub handle: u64,
    pub parent_device: Key,
}

impl Framebuffer {
    pub fn new(
        devices: &Registry<Device>,
        device: Key,
        registry: &mut Registry<Framebuffer>,
        handle: u64,
    ) -> (r: Result<Key, Error>)
        requires
            old(registry).wf(),
        ensures
            final(registry).wf(),
            r is Ok <==> devices@.dom().contains(device),
            match r {
                Ok(k) => final(registry)@ == old(registry)@.insert(
                    k,
                    Framebuffer { handle, parent_device: device },
                ) && !old(registry)@.dom().contains(k),
                Err(e) => e == Error::KeyNotFound && final(registry)@ == old(registry)@,
            },
    {
        insert_with_parent(devices, device, registry, Framebuffer {
            handle,
            parent_device: device,
        })
    }
}

/// The command pool on the graphics queue family.
pub struct CommandPool {
    pub queue_family_index: usize,
    pub handle: u64,
    pub parent_device: Key,
}

impl CommandPool {
    pub fn new(
        devices: &Registry<Device>,
        device: Key,
        registry: &mut Registry<CommandPool>,
        handle: u64,
        queue_family_index: usize,
    ) -> (r: Result<Key, Error>)
        requires
            old(registry).wf(),
        ensures
            final(registry).wf(),
            r is Ok <==> devices@.dom().contains(device),
            match r {
                Ok(k) => final(registry)@ == old(registry)@.insert(
                    k,
                    CommandPool { queue_family_index, handle, parent_device: device },
                ) && !old(registry)@.dom().contains(k),
                Err(e) => e == Error::KeyNotFound && final(registry)@ == old(registry)@,
            },
    {
        insert_with_parent(devices, device, registry, CommandPool {
            queue_family_index,
            handle,
            parent_device: device,
        })
    }
}

/// One pre-recorded command buffer per swapchain image.
pub struct CommandBuffer {
    pub handle: u64,
    pub parent_command_pool: Key,
}

impl CommandBuffer {
    pub fn new(
        command_pools: &Registry<CommandPool>,
        command_pool: Key,
        registry: &mut Registry<CommandBuffer>,
        handle: u64,
    ) -> (r: Result<Key, Error>)
        requires
            old(registry).wf(),
        ensures
            final(registry).wf(),
            r is Ok <==> command_pools@.dom().contains(command_pool),
            match r {
                Ok(k) => final(registry)@ == old(registry)@.insert(
                    k,
                    CommandBuffer { handle, parent_command_pool: command_pool },
                ) && !old(registry)@.dom().contains(k),
                Err(e) => e == Error::KeyNotFound && final(registry)@ == old(registry)@,
            },
    {
        insert_with_parent(command_pools, command_pool, registry, CommandBuffer {
            handle,
            parent_command_pool: command_pool,
        })
    }
}

/// A queue-ordering semaphore of one frame slot.
pub struct Semaphore {
    pub handle: u64,
    pub parent_device: Key,
}

impl Semaphore {
    pub fn new(
        devices: &Registry<Device>,
        device: Key,
        registry: &mut Registry<Semaphore>,
        handle: u64,
    ) -> (r: Result<Key, Error>)
        requires
            old(registry).wf(),
        ensures
            final(registry).wf(),
            r is Ok <==> devices@.dom().contains(device),
            match r {
                Ok(k) => final(registry)@ == old(registry)@.insert(
                    k,
                    Semaphore { handle, parent_device: device },
                ) && !old(registry)@.dom().contains(k),
                Err(e) => e == Error::KeyNotFound && final(registry)@ == old(registry)@,
            },
    {
        insert_with_parent(devices, device, registry, Semaphore { handle, parent_device: device })
    }
}

/// The frame fence of one frame slot, created signaled.
pub struct Fence {
    pub handle: u64,
    pub parent_device: Key,
}

impl Fence {
    pub fn new(
        devices: &Registry<Device>,
        device: Key,
        registry: &mut Registry<Fence>,
        handle: u64,
    ) -> (r: Result<Key, Error>)
        requires
            old(registry).wf(),
        ensures
            final(registry).wf(),
            r is Ok <==> devices@.dom().contains(device),
            match r {
                Ok(k) => final(registry)@ == old(registry)@.insert(
                    k,
                    Fence { handle, parent_device: device },
                ) && !old(registry)@.dom().contains(k),
                Err(e) => e == Error::KeyNotFound && final(registry)@ == old(registry)@,
            },
    {
        insert_with_parent(devices, device, registry, Fence { handle, parent_device: device })
    }
}

} // verus!
