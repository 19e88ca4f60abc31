//! The renderer: owner of the per-type registries, the ordered resource
//! chain and the frame synchronization engine.
//!
//! Construction is staged: the surrounding application performs one
//! native creation call at a time and hands the resulting handle in; the
//! renderer validates the declared parents, registers the object and
//! records it on the chain. Device selection, the teardown order and the
//! steady-state frame protocol are decided — and proved — here; the
//! application only executes the returned plans natively.

use vstd::prelude::*;

use crate::chain::{ResourceChain, ResourceKind, TeardownStep};
use crate::error::Error;
use crate::frame::{spec_render_events, FrameEngine, FramePlan};
use crate::registry::{Key, Registry};
use crate::resource;
use crate::selection;
use crate::selection::PhysicalDeviceInfo;

verus! {

/// A registered resource: its key in its type's registry and its
/// position on the chain.
#[derive(Clone, Copy, Debug, PartialEq, Eq, Structural)]
pub struct Registered {
    pub key: Key,
    pub pos: usize,
}

/// One command of the static per-image recording.
#[derive(Clone, Copy, Debug, PartialEq, Eq, Structural)]
pub enum DrawCommand {
    /// Begin the command buffer.
    Begin,
    /// Begin the render pass, clearing the color attachment to the fixed
    /// color (channels in 0..=255).
    BeginRenderPass { clear_red: u8, clear_green: u8, clear_blue: u8, clear_alpha: u8 },
    /// Bind the graphics pipeline.
    BindPipeline,
    /// The single fixed non-indexed draw call.
    Draw { vertex_count: u32, instance_count: u32, first_vertex: u32, first_instance: u32 },
    /// End the render pass.
    EndRenderPass,
    /// End the command buffer.
    End,
}

/// The fixed command sequence recorded once, at build time, into every
/// per-image command buffer: clear to opaque black, bind the pipeline,
/// draw three vertices once.
pub open spec fn spec_static_commands() -> Seq<DrawCommand> {
    seq![
        DrawCommand::Begin,
        DrawCommand::BeginRenderPass {
            clear_red: 0u8,
            clear_green: 0u8,
            clear_blue: 0u8,
            clear_alpha: 255u8,
        },
        DrawCommand::BindPipeline,
        DrawCommand::Draw {
            vertex_count: 3u32,
            instance_count: 1u32,
            first_vertex: 0u32,
            first_instance: 0u32,
        },
        DrawCommand::EndRenderPass,
        DrawCommand::End,
    ]
}

/// The command sequence to record into each command buffer.
pub fn recorded_commands() -> (v: Vec<DrawCommand>)
    ensures
        v@ == spec_static_commands(),
{
    let mut v: Vec<DrawCommand> = Vec::new();
    v.push(DrawCommand::Begin);
    v.push(
        DrawCommand::BeginRenderPass {
            clear_red: 0,
            clear_green: 0,
            clear_blue: 0,
            clear_alpha: 255,
        },
    );
    v.push(DrawCommand::BindPipeline);
    v.push(
        DrawCommand::Draw {
            vertex_count: 3,
            instance_count: 1,
            first_vertex: 0,
            first_instance: 0,
        },
    );
    v.push(DrawCommand::EndRenderPass);
    v.push(DrawCommand::End);
    proof {
        assert(v@ =~= spec_static_commands());
    }
    v
}

/// Pushed sequences contain the new element and everything they did.
proof fn lemma_push_contains(s: Seq<Key>, x: Key, y: Key)
    ensures
        s.push(x).contains(y) == (s.contains(y) || y == x),
{
    if s.contains(y) {
        let j = choose|j: int| 0 <= j < s.len() && s[j] == y;
        assert(s.push(x)[j] == y);
        assert(s.push(x).contains(y));
    }
    if y == x {
        assert(s.push(x)[s.len() as int] == y);
        assert(s.push(x).contains(y));
    }
    if s.push(x).contains(y) {
        let j = choose|j: int| 0 <= j < s.push(x).len() && #[trigger] s.push(x)[j] == y;
        if j < s.len() {
            assert(s[j] == y);
            assert(s.contains(y));
        }
    }
}

/// The renderer: registries, chain, frame engine and the ordered keys of
/// everything it owns.
pub struct Renderer {
    pub instances: Registry<resource::Instance>,
    pub debug_messengers: Registry<resource::DebugUtils>,
    pub surfaces: Registry<resource::Surface>,
    pub physical_devices: Registry<PhysicalDeviceInfo>,
    pub devices: Registry<resource::Device>,
    pub queues: Registry<resource::Queue>,
    pub swapchains: Registry<resource::Swapchain>,
    pub images: Registry<resource::Image>,
    pub image_views: Registry<resource::ImageView>,
    pub render_passes: Registry<resource::RenderPass>,
    pub pipeline_layouts: Registry<resource::PipelineLayout>,
    pub graphics_pipelines: Registry<resource::GraphicsPipeline>,
    pub framebuffer_registry: Registry<resource::Framebuffer>,
    pub command_pools: Registry<resource::CommandPool>,
    pub command_buffer_registry: Registry<resource::CommandBuffer>,
    pub semaphores: Registry<resource::Semaphore>,
    pub fences: Registry<resource::Fence>,
    pub chain: ResourceChain,
    pub engine: Option<FrameEngine>,
    pub instance: Option<Registered>,
    pub debug_utils: Option<Registered>,
    pub surface: Option<Registered>,
    pub candidates: Vec<Key>,
    pub physical_device: Option<Registered>,
    pub graphics_family: Option<usize>,
    pub device: Option<Registered>,
    pub device_queues: Vec<Registered>,
    pub swapchain: Option<Registered>,
    pub swapchain_images: Vec<Registered>,
    pub swapchain_image_views: Vec<Registered>,
    pub render_pass: Option<Registered>,
    pub pipeline_layout: Option<Registered>,
    pub graphics_pipeline: Option<Registered>,
    pub framebuffers: Vec<Registered>,
    pub command_pool: Option<Registered>,
    pub command_buffers: Vec<Registered>,
    pub image_available_semaphores: Vec<Registered>,
    pub render_finished_semaphores: Vec<Registered>,
    pub in_flight_fences: Vec<Registered>,
}

impl Renderer {
    /// The registered slot, if set, points at a chain entry of its kind
    /// carrying its key.
    pub open spec fn slot_wf(&self, r: Option<Registered>, kind: ResourceKind) -> bool {
        match r {
            Some(reg) => {
                &&& reg.pos < self.chain.spec_entries().len()
                &&& self.chain.spec_entries()[reg.pos as int].kind == kind
                &&& self.chain.spec_entries()[reg.pos as int].key == reg.key
            },
            None => true,
        }
    }

    /// Every registered slot of the list points at a chain entry of its
    /// kind carrying its key.
    pub open spec fn list_wf(&self, rs: Seq<Registered>, kind: ResourceKind) -> bool {
        forall|j: int|
            0 <= j < rs.len() ==> {
                &&& (#[trigger] rs[j]).pos < self.chain.spec_entries().len()
                &&& self.chain.spec_entries()[rs[j].pos as int].kind == kind
                &&& self.chain.spec_entries()[rs[j].pos as int].key == rs[j].key
            }
    }

    /// The renderer invariant: chain and registries well-formed, every
    /// stage slot consistent with the chain, declared parents still live
    /// in their registries, and the physical-device registry holding
    /// exactly the current candidates.
    pub open spec fn wf(&self) -> bool {
        &&& self.chain.wf()
        &&& self.instances.wf()
        &&& self.debug_messengers.wf()
        &&& self.surfaces.wf()
        &&& self.physical_devices.wf()
        &&& self.devices.wf()
        &&& self.queues.wf()
        &&& self.swapchains.wf()
        &&& self.images.wf()
        &&& self.image_views.wf()
        &&& self.render_passes.wf()
        &&& self.pipeline_layouts.wf()
        &&& self.graphics_pipelines.wf()
        &&& self.framebuffer_registry.wf()
        &&& self.command_pools.wf()
        &&& self.command_buffer_registry.wf()
        &&& self.semaphores.wf()
        &&& self.fences.wf()
        &&& self.slot_wf(self.instance, ResourceKind::Instance)
        &&& self.slot_wf(self.debug_utils, ResourceKind::DebugUtils)
        &&& self.slot_wf(self.surface, ResourceKind::Surface)
        &&& self.slot_wf(self.physical_device, ResourceKind::PhysicalDevice)
        &&& self.slot_wf(self.device, ResourceKind::Device)
        &&& self.list_wf(self.device_queues@, ResourceKind::Queue)
        &&& self.slot_wf(self.swapchain, ResourceKind::Swapchain)
        &&& self.list_wf(self.swapchain_images@, ResourceKind::Image)
        &&& self.list_wf(self.swapchain_image_views@, ResourceKind::ImageView)
        &&& self.slot_wf(self.render_pass, ResourceKind::RenderPass)
        &&& self.slot_wf(self.pipeline_layout, ResourceKind::PipelineLayout)
        &&& self.slot_wf(self.graphics_pipeline, ResourceKind::GraphicsPipeline)
        &&& self.list_wf(self.framebuffers@, ResourceKind::Framebuffer)
        &&& self.slot_wf(self.command_pool, ResourceKind::CommandPool)
        &&& self.list_wf(self.command_buffers@, ResourceKind::CommandBuffer)
        &&& self.list_wf(self.image_available_semaphores@, ResourceKind::Semaphore)
        &&& self.list_wf(self.render_finished_semaphores@, ResourceKind::Semaphore)
        &&& self.list_wf(self.in_flight_fences@, ResourceKind::Fence)
        &&& match self.instance {
            Some(r) => self.instances@.dom().contains(r.key),
            None => true,
        }
        &&& match self.surface {
            Some(r) => self.surfaces@.dom().contains(r.key),
            None => true,
        }
        &&& match self.physical_device {
            Some(r) => self.physical_devices@.dom().contains(r.key),
            None => true,
        }
        &&& match self.device {
            Some(r) => self.devices@.dom().contains(r.key),
            None => true,
        }
        &&& match self.swapchain {
            Some(r) => self.swapchains@.dom().contains(r.key),
            None => true,
        }
        &&& forall|j: int|
            0 <= j < self.swapchain_images@.len() ==> self.images@.dom().contains(
                (#[trigger] self.swapchain_images@[j]).key,
            )
        &&& match self.render_pass {
            Some(r) => self.render_passes@.dom().contains(r.key),
            None => true,
        }
        &&& match self.pipeline_layout {
            Some(r) => self.pipeline_layouts@.dom().contains(r.key),
            None => true,
        }
        &&& match self.command_pool {
            Some(r) => self.command_pools@.dom().contains(r.key),
            None => true,
        }
        &&& forall|j: int|
            0 <= j < self.candidates@.len() ==> self.physical_devices@.dom().contains(
                #[trigger] self.candidates@[j],
            )
        &&& forall|a: int, b: int|
            0 <= a < b < self.candidates@.len() ==> self.candidates@[a] != self.candidates@[b]
        &&& forall|k: Key|
            #[trigger] self.physical_devices@.dom().contains(k) ==> self.candidates@.contains(k)
        &&& match self.engine {
            Some(e) => e.wf(),
            None => true,
        }
    }

    /// A renderer with nothing built yet.
    pub fn new() -> (r: Renderer)
        ensures
            r.wf(),
            r.instance is None,
            r.debug_utils is None,
            r.surface is None,
            r.physical_device is None,
            r.device is None,
            r.swapchain is None,
            r.render_pass is None,
            r.pipeline_layout is None,
            r.graphics_pipeline is None,
            r.command_pool is None,
            r.engine is None,
            r.candidates@.len() == 0,
            r.chain.spec_entries().len() == 0,
            r.in_flight_fences@.len() == 0,
            r.image_available_semaphores@.len() == 0,
            r.render_finished_semaphores@.len() == 0,
            r.swapchain_images@.len() == 0,
            r.swapchain_image_views@.len() == 0,
            r.framebuffers@.len() == 0,
            r.command_buffers@.len() == 0,
            r.device_queues@.len() == 0,
    {
        Renderer {
            instances: Registry::new(),
            debug_messengers: Registry::new(),
            surfaces: Registry::new(),
            physical_devices: Registry::new(),
            devices: Registry::new(),
            queues: Registry::new(),
            swapchains: Registry::new(),
            images: Registry::new(),
            image_views: Registry::new(),
            render_passes: Registry::new(),
            pipeline_layouts: Registry::new(),
            graphics_pipelines: Registry::new(),
            framebuffer_registry: Registry::new(),
            command_pools: Registry::new(),
            command_buffer_registry: Registry::new(),
            semaphores: Registry::new(),
            fences: Registry::new(),
            chain: ResourceChain::new(),
            engine: None,
            instance: None,
            debug_utils: None,
            surface: None,
            candidates: Vec::new(),
            physical_device: None,
            graphics_family: None,
            device: None,
            device_queues: Vec::new(),
            swapchain: None,
            swapchain_images: Vec::new(),
            swapchain_image_views: Vec::new(),
            render_pass: None,
            pipeline_layout: None,
            graphics_pipeline: None,
            framebuffers: Vec::new(),
            command_pool: None,
            command_buffers: Vec::new(),
            image_available_semaphores: Vec::new(),
            render_finished_semaphores: Vec::new(),
            in_flight_fences: Vec::new(),
        }
    }

    /// Registers the created native instance as the root of the chain.
    pub fn attach_instance(&mut self, value: resource::Instance) -> (r: Result<Key, Error>)
        requires
            old(self).wf(),
            old(self).instance is None,
        ensures
            final(self).wf(),
            r is Ok,
            match r {
                Ok(k) => {
                    &&& final(self).instance matches Some(reg) && reg.key == k
                    &&& final(self).instances@ == old(self).instances@.insert(k, value)
                    &&& !old(self).instances@.dom().contains(k)
                    &&& final(self).chain.spec_entries().len() == old(
                        self,
                    ).chain.spec_entries().len() + 1
                    &&& final(self).chain.spec_entries().last().kind == ResourceKind::Instance
                },
                Err(_) => false,
            },
    {
        let handle = value.handle;
        let k = resource::Instance::new(&mut self.instances, value);
        let parents: Vec<usize> = Vec::new();
        match self.chain.push(ResourceKind::Instance, k, handle, parents) {
            Ok(pos) => {
                self.instance = Some(Registered { key: k, pos });
                Ok(k)
            },
            Err(e) => Err(e),
        }
    }

    /// Registers the debug-utils messenger attached to the instance.
    pub fn attach_debug_utils(&mut self, handle: u64) -> (r: Result<Key, Error>)
        requires
            old(self).wf(),
            old(self).debug_utils is None,
        ensures
            final(self).wf(),
            r is Ok <==> old(self).instance is Some,
            match r {
                Ok(k) => {
                    &&& final(self).debug_utils matches Some(reg) && reg.key == k
                    &&& final(self).debug_messengers@ == old(self).debug_messengers@.insert(
                        k,
                        resource::DebugUtils {
                            handle,
                            parent_instance: old(self).instance.unwrap().key,
                        },
                    )
                    &&& final(self).chain.spec_entries().len() == old(
                        self,
                    ).chain.spec_entries().len() + 1
                    &&& final(self).chain.spec_entries().last().kind == ResourceKind::DebugUtils
                    &&& final(self).chain.spec_entries().last().handle == handle
                },
                Err(e) => e == Error::KeyNotFound && *final(self) == *old(self),
            },
    {
        let instance_reg = match self.instance {
            Some(reg) => reg,
            None => {
                return Err(Error::KeyNotFound);
            },
        };
        let res = resource::DebugUtils::new(
            &self.instances,
            instance_reg.key,
            &mut self.debug_messengers,
            handle,
        );
        let k = match res {
            Ok(k) => k,
            Err(e) => {
                return Err(e);
            },
        };
        let mut parents: Vec<usize> = Vec::new();
        parents.push(instance_reg.pos);
        match self.chain.push(ResourceKind::DebugUtils, k, handle, parents) {
            Ok(pos) => {
                self.debug_utils = Some(Registered { key: k, pos });
                Ok(k)
            },
            Err(e) => Err(e),
        }
    }

    /// Registers the presentation surface created for the window.
    pub fn attach_surface(&mut self, handle: u64) -> (r: Result<Key, Error>)
        requires
            old(self).wf(),
            old(self).surface is None,
        ensures
            final(self).wf(),
            r is Ok <==> old(self).instance is Some,
            match r {
                Ok(k) => {
                    &&& final(self).surface matches Some(reg) && reg.key == k
                    &&& final(self).surfaces@ == old(self).surfaces@.insert(
                        k,
                        resource::Surface {
                            handle,
                            parent_instance: old(self).instance.unwrap().key,
                        },
                    )
                    &&& final(self).chain.spec_entries().len() == old(
                        self,
                    ).chain.spec_entries().len() + 1
                    &&& final(self).chain.spec_entries().last().kind == ResourceKind::Surface
                    &&& final(self).chain.spec_entries().last().handle == handle
                },
                Err(e) => e == Error::KeyNotFound && *final(self) == *old(self),
            },
    {
        let instance_reg = match self.instance {
            Some(reg) => reg,
            None => {
                return Err(Error::KeyNotFound);
            },
        };
        let res = resource::Surface::new(
            &self.instances,
            instance_reg.key,
            &mut self.surfaces,
            handle,
        );
        let k = match res {
            Ok(k) => k,
            Err(e) => {
                return Err(e);
            },
        };
        let mut parents: Vec<usize> = Vec::new();
        parents.push(instance_reg.pos);
        match self.chain.push(ResourceKind::Surface, k, handle, parents) {
            Ok(pos) => {
                self.surface = Some(Registered { key: k, pos });
                Ok(k)
            },
            Err(e) => Err(e),
        }
    }

    /// Registers one enumerated physical device as a selection candidate.
    pub fn add_physical_device(&mut self, info: PhysicalDeviceInfo) -> (r: Result<Key, Error>)
        requires
            old(self).wf(),
            old(self).physical_device is None,
        ensures
            final(self).wf(),
            r is Ok <==> old(self).instance is Some,
            match r {
                Ok(k) => {
                    &&& final(self).candidates@ == old(self).candidates@.push(k)
                    &&& final(self).physical_devices@ == old(self).physical_devices@.insert(
                        k,
                        info,
                    )
                    &&& !old(self).physical_devices@.dom().contains(k)
                },
                Err(e) => e == Error::KeyNotFound && *final(self) == *old(self),
            },
    {
        if self.instance.is_none() {
            return Err(Error::KeyNotFound);
        }
        let ghost m0 = self.physical_devices@;
        let ghost c0 = self.candidates@;
        let k = self.physical_devices.insert(info);
        self.candidates.push(k);
        proof {
            assert forall|j: int|
                0 <= j < self.candidates@.len() implies self.physical_devices@.dom().contains(
                #[trigger] self.candidates@[j],
            ) by {
                if j < c0.len() {
                    assert(self.candidates@[j] == c0[j]);
                }
            }
            assert forall|a: int, b: int|
                0 <= a < b < self.candidates@.len() implies self.candidates@[a]
                != self.candidates@[b] by {
                if b == c0.len() as int {
                    assert(m0.dom().contains(c0[a]));
                }
            }
            assert forall|k2: Key| #[trigger]
                self.physical_devices@.dom().contains(k2) implies self.candidates@.contains(
                k2,
            ) by {
                lemma_push_contains(c0, k, k2);
                if k2 != k {
                    assert(c0.contains(k2));
                }
            }
        }
        Ok(k)
    }

    /// Selects the one physical device usable for graphics and
    /// presentation, removes every other candidate from the registry,
    /// records the survivor on the chain and remembers its first
    /// graphics-capable queue family.
    pub fn select_device(&mut self) -> (r: Result<Key, Error>)
        requires
            old(self).wf(),
            old(self).physical_device is None,
        ensures
            final(self).wf(),
            r is Ok <==> (old(self).instance is Some && exists|j: int|
                0 <= j < old(self).candidates@.len() && selection::spec_passes(
                    old(self).physical_devices@,
                    #[trigger] old(self).candidates@[j],
                )),
            match r {
                Ok(k) => {
                    &&& old(self).instance is Some
                    &&& exists|i: int|
                        selection::spec_first_best(
                            old(self).candidates@,
                            old(self).physical_devices@,
                            i,
                        ) && old(self).candidates@[i] == k
                    &&& final(self).physical_devices@.dom() == set![k]
                    &&& final(self).physical_device matches Some(reg) && reg.key == k
                    &&& final(self).graphics_family is Some
                    &&& final(self).chain.spec_entries().len() == old(
                        self,
                    ).chain.spec_entries().len() + 1
                    &&& final(self).chain.spec_entries().last().kind == ResourceKind::PhysicalDevice
                },
                Err(e) => {
                    &&& (e == Error::KeyNotFound ==> old(self).instance is None && *final(self)
                        == *old(self))
                    &&& (e == Error::NoSuitableDevice ==> (forall|j: int|
                        0 <= j < old(self).candidates@.len() ==> !selection::spec_passes(
                            old(self).physical_devices@,
                            #[trigger] old(self).candidates@[j],
                        )) && final(self).physical_devices@.dom() == Set::<Key>::empty())
                    &&& (e == Error::KeyNotFound || e == Error::NoSuitableDevice)
                },
            },
    {
        let instance_reg = match self.instance {
            Some(reg) => reg,
            None => {
                return Err(Error::KeyNotFound);
            },
        };
        let ghost m0 = self.physical_devices@;
        let ghost c0 = self.candidates@;
        let selected = selection::select_physical_device(&mut self.physical_devices, &self.candidates);
        match selected {
            Ok(k) => {
                proof {
                    selection::lemma_selection_leaves_exactly_one(
                        m0,
                        self.physical_devices@,
                        c0,
                        k,
                    );
                }
                let (handle, family) = match self.physical_devices.get(k) {
                    Some(info) => {
                        let family = match info.graphics_family_index() {
                            Some(f) => f,
                            None => {
                                return Err(Error::NoSuitableDevice);
                            },
                        };
                        (info.handle, family)
                    },
                    None => {
                        return Err(Error::NoSuitableDevice);
                    },
                };
                let mut parents: Vec<usize> = Vec::new();
                parents.push(instance_reg.pos);
                match self.chain.push(ResourceKind::PhysicalDevice, k, handle, parents) {
                    Ok(pos) => {
                        self.physical_device = Some(Registered { key: k, pos });
                        self.graphics_family = Some(family);
                        let mut survivors: Vec<Key> = Vec::new();
                        survivors.push(k);
                        self.candidates = survivors;
                        proof {
                            assert(self.candidates@[0] == k);
                            assert forall|k2: Key| #[trigger]
                                self.physical_devices@.dom().contains(
                                k2,
                            ) implies self.candidates@.contains(k2) by {
                                assert(k2 == k);
                                assert(self.candidates@[0] == k2);
                            }
                        }
                        Ok(k)
                    },
                    Err(e) => Err(e),
                }
            },
            Err(e) => {
                self.candidates = Vec::new();
                proof {
                    assert forall|k2: Key| !(#[trigger] self.physical_devices@.dom().contains(
                        k2,
                    )) by {
                        if m0.dom().contains(k2) {
                            assert(c0.contains(k2));
                        }
                    }
                    assert(self.physical_devices@.dom() =~= Set::<Key>::empty());
                }
                Err(e)
            },
        }
    }

    /// Registers the logical device created on the selected physical
    /// device.
    pub fn attach_device(&mut self, handle: u64) -> (r: Result<Key, Error>)
        requires
            old(self).wf(),
            old(self).device is None,
        ensures
            final(self).wf(),
            r is Ok <==> old(self).physical_device is Some && old(self).surface is Some,
            match r {
                Ok(k) => {
                    &&& final(self).device matches Some(reg) && reg.key == k
                    &&& final(self).devices@ == old(self).devices@.insert(
                        k,
                        resource::Device {
                            handle,
                            parent_physical_device: old(self).physical_device.unwrap().key,
                            parent_surface: old(self).surface.unwrap().key,
                        },
                    )
                    &&& final(self).chain.spec_entries().len() == old(
                        self,
                    ).chain.spec_entries().len() + 1
                    &&& final(self).chain.spec_entries().last().kind == ResourceKind::Device
                    &&& final(self).chain.spec_entries().last().handle == handle
                },
                Err(e) => e == Error::KeyNotFound && *final(self) == *old(self),
            },
    {
        let physical_reg = match self.physical_device {
            Some(reg) => reg,
            None => {
                return Err(Error::KeyNotFound);
            },
        };
        let surface_reg = match self.surface {
            Some(reg) => reg,
            None => {
                return Err(Error::KeyNotFound);
            },
        };
        let res = resource::Device::new(
            &self.physical_devices,
            physical_reg.key,
            &self.surfaces,
            surface_reg.key,
            &mut self.devices,
            handle,
        );
        let k = match res {
            Ok(k) => k,
            Err(e) => {
                return Err(e);
            },
        };
        let mut parents: Vec<usize> = Vec::new();
        parents.push(physical_reg.pos);
        parents.push(surface_reg.pos);
        match self.chain.push(ResourceKind::Device, k, handle, parents) {
            Ok(pos) => {
                self.device = Some(Registered { key: k, pos });
                Ok(k)
            },
            Err(e) => Err(e),
        }
    }

    /// Registers one queue of the logical device, on the selected
    /// graphics family.
    pub fn attach_queue(&mut self, handle: u64) -> (r: Result<Key, Error>)
        requires
            old(self).wf(),
        ensures
            final(self).wf(),
            r is Ok <==> old(self).device is Some && old(self).graphics_family is Some,
            match r {
                Ok(k) => {
                    &&& final(self).device_queues@.len() == old(self).device_queues@.len() + 1
                    &&& final(self).device_queues@.last().key == k
                    &&& final(self).queues@ == old(self).queues@.insert(
                        k,
                        resource::Queue {
                            handle,
                            family_index: old(self).graphics_family.unwrap(),
                            parent_device: old(self).device.unwrap().key,
                        },
                    )
                    &&& final(self).chain.spec_entries().len() == old(
                        self,
                    ).chain.spec_entries().len() + 1
                    &&& final(self).chain.spec_entries().last().kind == ResourceKind::Queue
                    &&& final(self).chain.spec_entries().last().handle == handle
                },
                Err(e) => e == Error::KeyNotFound && *final(self) == *old(self),
            },
    {
        let device_reg = match self.device {
            Some(reg) => reg,
            None => {
                return Err(Error::KeyNotFound);
            },
        };
        let family = match self.graphics_family {
            Some(f) => f,
            None => {
                return Err(Error::KeyNotFound);
            },
        };
        let res = resource::Queue::new(&self.devices, device_reg.key, &mut self.queues, handle, family);
        let k = match res {
            Ok(k) => k,
            Err(e) => {
                return Err(e);
            },
        };
        let mut parents: Vec<usize> = Vec::new();
        parents.push(device_reg.pos);
        match self.chain.push(ResourceKind::Queue, k, handle, parents) {
            Ok(pos) => {
                self.device_queues.push(Registered { key: k, pos });
                Ok(k)
            },
            Err(e) => Err(e),
        }
    }

    /// Registers the created swapchain with the format and extent it was
    /// created with.
    pub fn attach_swapchain(&mut self, handle: u64, format: u32, width: u32, height: u32) -> (r:
        Result<Key, Error>)
        requires
            old(self).wf(),
            old(self).swapchain is None,
        ensures
            final(self).wf(),
            r is Ok <==> old(self).device is Some && old(self).surface is Some,
            match r {
                Ok(k) => {
                    &&& final(self).swapchain matches Some(reg) && reg.key == k
                    &&& final(self).swapchains@ == old(self).swapchains@.insert(
                        k,
                        resource::Swapchain {
                            handle,
                            format,
                            extent_width: width,
                            extent_height: height,
                            parent_device: old(self).device.unwrap().key,
                            parent_surface: old(self).surface.unwrap().key,
                        },
                    )
                    &&& final(self).chain.spec_entries().len() == old(
                        self,
                    ).chain.spec_entries().len() + 1
                    &&& final(self).chain.spec_entries().last().kind == ResourceKind::Swapchain
                    &&& final(self).chain.spec_entries().last().handle == handle
                },
                Err(e) => e == Error::KeyNotFound && *final(self) == *old(self),
            },
    {
        let device_reg = match self.device {
            Some(reg) => reg,
            None => {
                return Err(Error::KeyNotFound);
            },
        };
        let surface_reg = match self.surface {
            Some(reg) => reg,
            None => {
                return Err(Error::KeyNotFound);
            },
        };
        let value = resource::Swapchain {
            handle,
            format,
            extent_width: width,
            extent_height: height,
            parent_device: device_reg.key,
            parent_surface: surface_reg.key,
        };
        let res = resource::Swapchain::new(
            &self.devices,
            device_reg.key,
            &self.surfaces,
            surface_reg.key,
            &mut self.swapchains,
            value,
        );
        let k = match res {
            Ok(k) => k,
            Err(e) => {
                return Err(e);
            },
        };
        let mut parents: Vec<usize> = Vec::new();
        parents.push(device_reg.pos);
        parents.push(surface_reg.pos);
        match self.chain.push(ResourceKind::Swapchain, k, handle, parents) {
            Ok(pos) => {
                self.swapchain = Some(Registered { key: k, pos });
                Ok(k)
            },
            Err(e) => Err(e),
        }
    }

    /// Registers one presentable image of the swapchain.
    pub fn attach_image(&mut self, handle: u64) -> (r: Result<Key, Error>)
        requires
            old(self).wf(),
        ensures
            final(self).wf(),
            r is Ok <==> old(self).swapchain is Some,
            match r {
                Ok(k) => {
                    &&& final(self).swapchain_images@.len() == old(self).swapchain_images@.len()
                        + 1
                    &&& final(self).swapchain_images@.last().key == k
                    &&& final(self).images@ == old(self).images@.insert(
                        k,
                        resource::Image {
                            handle,
                            parent_swapchain: old(self).swapchain.unwrap().key,
                        },
                    )
                    &&& final(self).chain.spec_entries().len() == old(
                        self,
                    ).chain.spec_entries().len() + 1
                    &&& final(self).chain.spec_entries().last().kind == ResourceKind::Image
                },
                Err(e) => e == Error::KeyNotFound && *final(self) == *old(self),
            },
    {
        let swapchain_reg = match self.swapchain {
            Some(reg) => reg,
            None => {
                return Err(Error::KeyNotFound);
            },
        };
        let res = resource::Image::new(&self.swapchains, swapchain_reg.key, &mut self.images, handle);
        let k = match res {
            Ok(k) => k,
            Err(e) => {
                return Err(e);
            },
        };
        let mut parents: Vec<usize> = Vec::new();
        parents.push(swapchain_reg.pos);
        match self.chain.push(ResourceKind::Image, k, handle, parents) {
            Ok(pos) => {
                self.swapchain_images.push(Registered { key: k, pos });
                Ok(k)
            },
            Err(e) => Err(e),
        }
    }

    /// Registers the view of the next swapchain image without one: view
    /// `j` belongs to image `j`.
    pub fn attach_image_view(&mut self, handle: u64) -> (r: Result<Key, Error>)
        requires
            old(self).wf(),
        ensures
            final(self).wf(),
            r is Ok <==> old(self).swapchain_image_views@.len() < old(
                self,
            ).swapchain_images@.len(),
            match r {
                Ok(k) => {
                    &&& final(self).swapchain_image_views@.len() == old(
                        self,
                    ).swapchain_image_views@.len() + 1
                    &&& final(self).swapchain_image_views@.last().key == k
                    &&& final(self).image_views@ == old(self).image_views@.insert(
                        k,
                        resource::ImageView {
                            handle,
                            parent_image: old(self).swapchain_images@[old(
                                self,
                            ).swapchain_image_views@.len() as int].key,
                        },
                    )
                    &&& final(self).chain.spec_entries().len() == old(
                        self,
                    ).chain.spec_entries().len() + 1
                    &&& final(self).chain.spec_entries().last().kind == ResourceKind::ImageView
                },
                Err(e) => e == Error::KeyNotFound && *final(self) == *old(self),
            },
    {
        let j = self.swapchain_image_views.len();
        if j >= self.swapchain_images.len() {
            return Err(Error::KeyNotFound);
        }
        let image_reg = self.swapchain_images[j];
        let res = resource::ImageView::new(&self.images, image_reg.key, &mut self.image_views, handle);
        let k = match res {
            Ok(k) => k,
            Err(e) => {
                return Err(e);
            },
        };
        let mut parents: Vec<usize> = Vec::new();
        parents.push(image_reg.pos);
        match self.chain.push(ResourceKind::ImageView, k, handle, parents) {
            Ok(pos) => {
                self.swapchain_image_views.push(Registered { key: k, pos });
                Ok(k)
            },
            Err(e) => Err(e),
        }
    }

    /// Registers the render pass drawing into the swapchain.
    pub fn attach_render_pass(&mut self, handle: u64) -> (r: Result<Key, Error>)
        requires
            old(self).wf(),
            old(self).render_pass is None,
        ensures
            final(self).wf(),
            r is Ok <==> old(self).swapchain is Some,
            match r {
                Ok(k) => {
                    &&& final(self).render_pass matches Some(reg) && reg.key == k
                    &&& final(self).render_passes@ == old(self).render_passes@.insert(
                        k,
                        resource::RenderPass {
                            handle,
                            parent_swapchain: old(self).swapchain.unwrap().key,
                        },
                    )
                    &&& final(self).chain.spec_entries().len() == old(
                        self,
                    ).chain.spec_entries().len() + 1
                    &&& final(self).chain.spec_entries().last().kind == ResourceKind::RenderPass
                },
                Err(e) => e == Error::KeyNotFound && *final(self) == *old(self),
            },
    {
        let swapchain_reg = match self.swapchain {
            Some(reg) => reg,
            None => {
                return Err(Error::KeyNotFound);
            },
        };
        let res = resource::RenderPass::new(
            &self.swapchains,
            swapchain_reg.key,
            &mut self.render_passes,
            handle,
        );
        let k = match res {
            Ok(k) => k,
            Err(e) => {
                return Err(e);
            },
        };
        let mut parents: Vec<usize> = Vec::new();
        parents.push(swapchain_reg.pos);
        match self.chain.push(ResourceKind::RenderPass, k, handle, parents) {
            Ok(pos) => {
                self.render_pass = Some(Registered { key: k, pos });
                Ok(k)
            },
            Err(e) => Err(e),
        }
    }

    /// Registers the pipeline layout.
    pub fn attach_pipeline_layout(&mut self, handle: u64) -> (r: Result<Key, Error>)
        requires
            old(self).wf(),
            old(self).pipeline_layout is None,
        ensures
            final(self).wf(),
            r is Ok <==> old(self).device is Some,
            match r {
                Ok(k) => {
                    &&& final(self).pipeline_layout matches Some(reg) && reg.key == k
                    &&& final(self).pipeline_layouts@ == old(self).pipeline_layouts@.insert(
                        k,
                        resource::PipelineLayout {
                            handle,
                            parent_device: old(self).device.unwrap().key,
                        },
                    )
                    &&& final(self).chain.spec_entries().len() == old(
                        self,
                    ).chain.spec_entries().len() + 1
                    &&& final(self).chain.spec_entries().last().kind == ResourceKind::PipelineLayout
                },
                Err(e) => e == Error::KeyNotFound && *final(self) == *old(self),
            },
    {
        let device_reg = match self.device {
            Some(reg) => reg,
            None => {
                return Err(Error::KeyNotFound);
            },
        };
        let res = resource::PipelineLayout::new(
            &self.devices,
            device_reg.key,
            &mut self.pipeline_layouts,
            handle,
        );
        let k = match res {
            Ok(k) => k,
            Err(e) => {
                return Err(e);
            },
        };
        let mut parents: Vec<usize> = Vec::new();
        parents.push(device_reg.pos);
        match self.chain.push(ResourceKind::PipelineLayout, k, handle, parents) {
            Ok(pos) => {
                self.pipeline_layout = Some(Registered { key: k, pos });
                Ok(k)
            },
            Err(e) => Err(e),
        }
    }

    /// Registers the graphics pipeline built on the render pass and the
    /// pipeline layout.
    pub fn attach_graphics_pipeline(&mut self, handle: u64) -> (r: Result<Key, Error>)
        requires
            old(self).wf(),
            old(self).graphics_pipeline is None,
        ensures
            final(self).wf(),
            r is Ok <==> old(self).render_pass is Some && old(self).pipeline_layout is Some,
            match r {
                Ok(k) => {
                    &&& final(self).graphics_pipeline matches Some(reg) && reg.key == k
                    &&& final(self).graphics_pipelines@ == old(self).graphics_pipelines@.insert(
                        k,
                        resource::GraphicsPipeline {
                            handle,
                            parent_render_pass: old(self).render_pass.unwrap().key,
                            parent_pipeline_layout: old(self).pipeline_layout.unwrap().key,
                        },
                    )
                    &&& final(self).chain.spec_entries().len() == old(
                        self,
                    ).chain.spec_entries().len() + 1
                    &&& final(self).chain.spec_entries().last().kind
                        == ResourceKind::GraphicsPipeline
                },
                Err(e) => e == Error::KeyNotFound && *final(self) == *old(self),
            },
    {
        let render_pass_reg = match self.render_pass {
            Some(reg) => reg,
            None => {
                return Err(Error::KeyNotFound);
            },
        };
        let layout_reg = match self.pipeline_layout {
            Some(reg) => reg,
            None => {
                return Err(Error::KeyNotFound);
            },
        };
        let res = resource::GraphicsPipeline::new(
            &self.render_passes,
            render_pass_reg.key,
            &self.pipeline_layouts,
            layout_reg.key,
            &mut self.graphics_pipelines,
            handle,
        );
        let k = match res {
            Ok(k) => k,
            Err(e) => {
                return Err(e);
            },
        };
        let mut parents: Vec<usize> = Vec::new();
        parents.push(render_pass_reg.pos);
        parents.push(layout_reg.pos);
        match self.chain.push(ResourceKind::GraphicsPipeline, k, handle, parents) {
            Ok(pos) => {
                self.graphics_pipeline = Some(Registered { key: k, pos });
                Ok(k)
            },
            Err(e) => Err(e),
        }
    }

    /// Registers the framebuffer of the next swapchain image without
    /// one, binding its view to the render pass.
    pub fn attach_framebuffer(&mut self, handle: u64) -> (r: Result<Key, Error>)
        requires
            old(self).wf(),
        ensures
            final(self).wf(),
            r is Ok <==> (old(self).device is Some && old(self).render_pass is Some && old(
                self,
            ).framebuffers@.len() < old(self).swapchain_image_views@.len()),
            match r {
                Ok(k) => {
                    &&& final(self).framebuffers@.len() == old(self).framebuffers@.len() + 1
                    &&& final(self).framebuffers@.last().key == k
                    &&& final(self).framebuffer_registry@ == old(self).framebuffer_registry@.insert(
                        k,
                        resource::Framebuffer {
                            handle,
                            parent_device: old(self).device.unwrap().key,
                        },
                    )
                    &&& final(self).chain.spec_entries().len() == old(
                        self,
                    ).chain.spec_entries().len() + 1
                    &&& final(self).chain.spec_entries().last().kind == ResourceKind::Framebuffer
                },
                Err(e) => e == Error::KeyNotFound && *final(self) == *old(self),
            },
    {
        let device_reg = match self.device {
            Some(reg) => reg,
            None => {
                return Err(Error::KeyNotFound);
            },
        };
        let render_pass_reg = match self.render_pass {
            Some(reg) => reg,
            None => {
                return Err(Error::KeyNotFound);
            },
        };
        let j = self.framebuffers.len();
        if j >= self.swapchain_image_views.len() {
            return Err(Error::KeyNotFound);
        }
        let view_reg = self.swapchain_image_views[j];
        let res = resource::Framebuffer::new(
            &self.devices,
            device_reg.key,
            &mut self.framebuffer_registry,
            handle,
        );
        let k = match res {
            Ok(k) => k,
            Err(e) => {
                return Err(e);
            },
        };
        let mut parents: Vec<usize> = Vec::new();
        parents.push(device_reg.pos);
        parents.push(render_pass_reg.pos);
        parents.push(view_reg.pos);
        match self.chain.push(ResourceKind::Framebuffer, k, handle, parents) {
            Ok(pos) => {
                self.framebuffers.push(Registered { key: k, pos });
                Ok(k)
            },
            Err(e) => Err(e),
        }
    }

    /// Registers the command pool, created on the selected graphics
    /// queue family.
    pub fn attach_command_pool(&mut self, handle: u64) -> (r: Result<Key, Error>)
        requires
            old(self).wf(),
            old(self).command_pool is None,
        ensures
            final(self).wf(),
            r is Ok <==> old(self).device is Some && old(self).graphics_family is Some,
            match r {
                Ok(k) => {
                    &&& final(self).command_pool matches Some(reg) && reg.key == k
                    &&& final(self).command_pools@ == old(self).command_pools@.insert(
                        k,
                        resource::CommandPool {
                            queue_family_index: old(self).graphics_family.unwrap(),
                            handle,
                            parent_device: old(self).device.unwrap().key,
                        },
                    )
                    &&& final(self).chain.spec_entries().len() == old(
                        self,
                    ).chain.spec_entries().len() + 1
                    &&& final(self).chain.spec_entries().last().kind == ResourceKind::CommandPool
                },
                Err(e) => e == Error::KeyNotFound && *final(self) == *old(self),
            },
    {
        let device_reg = match self.device {
            Some(reg) => reg,
            None => {
                return Err(Error::KeyNotFound);
            },
        };
        let family = match self.graphics_family {
            Some(f) => f,
            None => {
                return Err(Error::KeyNotFound);
            },
        };
        let res = resource::CommandPool::new(
            &self.devices,
            device_reg.key,
            &mut self.command_pools,
            handle,
            family,
        );
        let k = match res {
            Ok(k) => k,
            Err(e) => {
                return Err(e);
            },
        };
        let mut parents: Vec<usize> = Vec::new();
        parents.push(device_reg.pos);
        match self.chain.push(ResourceKind::CommandPool, k, handle, parents) {
            Ok(pos) => {
                self.command_pool = Some(Registered { key: k, pos });
                Ok(k)
            },
            Err(e) => Err(e),
        }
    }

    /// Registers the pre-recorded command buffer of the next swapchain
    /// image without one.
    pub fn attach_command_buffer(&mut self, handle: u64) -> (r: Result<Key, Error>)
        requires
            old(self).wf(),
        ensures
            final(self).wf(),
            r is Ok <==> (old(self).command_pool is Some && old(self).command_buffers@.len()
                < old(self).swapchain_images@.len()),
            match r {
                Ok(k) => {
                    &&& final(self).command_buffers@.len() == old(self).command_buffers@.len() + 1
                    &&& final(self).command_buffers@.last().key == k
                    &&& final(self).command_buffer_registry@ == old(
                        self,
                    ).command_buffer_registry@.insert(
                        k,
                        resource::CommandBuffer {
                            handle,
                            parent_command_pool: old(self).command_pool.unwrap().key,
                        },
                    )
                    &&& final(self).chain.spec_entries().len() == old(
                        self,
                    ).chain.spec_entries().len() + 1
                    &&& final(self).chain.spec_entries().last().kind == ResourceKind::CommandBuffer
                },
                Err(e) => e == Error::KeyNotFound && *final(self) == *old(self),
            },
    {
        let pool_reg = match self.command_pool {
            Some(reg) => reg,
            None => {
                return Err(Error::KeyNotFound);
            },
        };
        if self.command_buffers.len() >= self.swapchain_images.len() {
            return Err(Error::KeyNotFound);
        }
        let res = resource::CommandBuffer::new(
            &self.command_pools,
            pool_reg.key,
            &mut self.command_buffer_registry,
            handle,
        );
        let k = match res {
            Ok(k) => k,
            Err(e) => {
                return Err(e);
            },
        };
        let mut parents: Vec<usize> = Vec::new();
        parents.push(pool_reg.pos);
        match self.chain.push(ResourceKind::CommandBuffer, k, handle, parents) {
            Ok(pos) => {
                self.command_buffers.push(Registered { key: k, pos });
                Ok(k)
            },
            Err(e) => Err(e),
        }
    }

    /// Registers the synchronization primitives of one frame slot: its
    /// "image available" semaphore, its "render finished" semaphore and
    /// its frame fence (created signaled).
    pub fn attach_frame_slot(
        &mut self,
        image_available_handle: u64,
        render_finished_handle: u64,
        fence_handle: u64,
    ) -> (r: Result<(), Error>)
        requires
            old(self).wf(),
        ensures
            final(self).wf(),
            r is Ok <==> old(self).device is Some,
            match r {
                Ok(_) => {
                    &&& final(self).image_available_semaphores@.len() == old(
                        self,
                    ).image_available_semaphores@.len() + 1
                    &&& final(self).render_finished_semaphores@.len() == old(
                        self,
                    ).render_finished_semaphores@.len() + 1
                    &&& final(self).in_flight_fences@.len() == old(self).in_flight_fences@.len()
                        + 1
                    &&& ({
                        let available = final(self).image_available_semaphores@.last().key;
                        let finished = final(self).render_finished_semaphores@.last().key;
                        let fence = final(self).in_flight_fences@.last().key;
                        &&& final(self).semaphores@.dom().contains(available)
                        &&& final(self).semaphores@[available].handle == image_available_handle
                        &&& final(self).semaphores@.dom().contains(finished)
                        &&& final(self).semaphores@[finished].handle == render_finished_handle
                        &&& final(self).fences@ == old(self).fences@.insert(
                            fence,
                            resource::Fence {
                                handle: fence_handle,
                                parent_device: old(self).device.unwrap().key,
                            },
                        )
                    })
                    &&& final(self).chain.spec_entries().len() == old(
                        self,
                    ).chain.spec_entries().len() + 3
                },
                Err(e) => e == Error::KeyNotFound && *final(self) == *old(self),
            },
    {
        let device_reg = match self.device {
            Some(reg) => reg,
            None => {
                return Err(Error::KeyNotFound);
            },
        };
        let available = match resource::Semaphore::new(
            &self.devices,
            device_reg.key,
            &mut self.semaphores,
            image_available_handle,
        ) {
            Ok(k) => k,
            Err(e) => {
                return Err(e);
            },
        };
        let mut parents: Vec<usize> = Vec::new();
        parents.push(device_reg.pos);
        let available_pos = match self.chain.push(
            ResourceKind::Semaphore,
            available,
            image_available_handle,
            parents,
        ) {
            Ok(pos) => pos,
            Err(e) => {
                return Err(e);
            },
        };
        let finished = match resource::Semaphore::new(
            &self.devices,
            device_reg.key,
            &mut self.semaphores,
            render_finished_handle,
        ) {
            Ok(k) => k,
            Err(e) => {
                return Err(e);
            },
        };
        let mut parents2: Vec<usize> = Vec::new();
        parents2.push(device_reg.pos);
        let finished_pos = match self.chain.push(
            ResourceKind::Semaphore,
            finished,
            render_finished_handle,
            parents2,
        ) {
            Ok(pos) => pos,
            Err(e) => {
                return Err(e);
            },
        };
        let fence = match resource::Fence::new(
            &self.devices,
            device_reg.key,
            &mut self.fences,
            fence_handle,
        ) {
            Ok(k) => k,
            Err(e) => {
                return Err(e);
            },
        };
        let mut parents3: Vec<usize> = Vec::new();
        parents3.push(device_reg.pos);
        let fence_pos = match self.chain.push(ResourceKind::Fence, fence, fence_handle, parents3) {
            Ok(pos) => pos,
            Err(e) => {
                return Err(e);
            },
        };
        self.image_available_semaphores.push(Registered { key: available, pos: available_pos });
        self.render_finished_semaphores.push(Registered { key: finished, pos: finished_pos });
        self.in_flight_fences.push(Registered { key: fence, pos: fence_pos });
        Ok(())
    }

    /// Starts the frame engine once the chain is complete: one frame
    /// slot per registered fence triple, one ownership entry per
    /// swapchain image, all fences signaled, the ring at slot zero.
    pub fn finish(&mut self) -> (r: Result<(), Error>)
        requires
            old(self).wf(),
            old(self).engine is None,
        ensures
            final(self).wf(),
            r is Ok <==> (old(self).in_flight_fences@.len() >= 1 && old(
                self,
            ).image_available_semaphores@.len() == old(self).in_flight_fences@.len() && old(
                self,
            ).render_finished_semaphores@.len() == old(self).in_flight_fences@.len() && old(
                self,
            ).command_buffers@.len() == old(self).swapchain_images@.len()),
            match r {
                Ok(_) => {
                    &&& final(self).engine matches Some(e) && {
                        &&& e.wf()
                        &&& e.spec_frame_count() == old(self).in_flight_fences@.len()
                        &&& e.spec_image_count() == old(self).swapchain_images@.len()
                        &&& e.spec_frame_index() == 0
                        &&& e.spec_history() == Seq::<crate::frame::FrameEvent>::empty()
                        &&& forall|f: int|
                            0 <= f < e.spec_frame_count() ==> e.spec_fence_signaled(f)
                        &&& forall|i: int|
                            0 <= i < e.spec_image_count() ==> e.spec_image_owner(i) is None
                    }
                },
                Err(e) => e == Error::CreationFailed && *final(self) == *old(self),
            },
    {
        let frames = self.in_flight_fences.len();
        if frames == 0 {
            return Err(Error::CreationFailed);
        }
        if self.image_available_semaphores.len() != frames
            || self.render_finished_semaphores.len() != frames {
            return Err(Error::CreationFailed);
        }
        let images = self.swapchain_images.len();
        if self.command_buffers.len() != images {
            return Err(Error::CreationFailed);
        }
        self.engine = Some(FrameEngine::new(frames, images));
        Ok(())
    }

    /// One steady-state frame after the application has acquired
    /// `image_index`: the engine blocks on the slot's fence, blocks on
    /// the fence owning the acquired image if any, records ownership,
    /// models the submit and present, and advances the ring. An image
    /// index outside the swapchain is a steady-state failure.
    pub fn render(&mut self, image_index: usize) -> (r: Result<FramePlan, Error>)
        requires
            old(self).wf(),
            old(self).engine is Some,
        ensures
            final(self).wf(),
            final(self).engine is Some,
            r is Ok <==> image_index < old(self).engine.unwrap().spec_image_count(),
            match r {
                Ok(plan) => {
                    let e0 = old(self).engine.unwrap();
                    let e1 = final(self).engine.unwrap();
                    &&& plan.frame_slot == e0.spec_frame_index()
                    &&& plan.first_wait_fence == plan.frame_slot
                    &&& plan.extra_wait_fence == e0.spec_image_owner(image_index as int)
                    &&& plan.image_index == image_index
                    &&& plan.command_buffer_index == image_index
                    &&& plan.wait_semaphore == plan.frame_slot
                    &&& plan.signal_semaphore == plan.frame_slot
                    &&& plan.reset_and_signal_fence == plan.frame_slot
                    &&& e1.spec_frame_index() as int == (e0.spec_frame_index() + 1) % (
                    e0.spec_frame_count() as int)
                    &&& e1.spec_image_owner(image_index as int) == Some(plan.frame_slot)
                    &&& forall|i: int|
                        0 <= i < e0.spec_image_count() && i != image_index ==> e1.spec_image_owner(
                            i,
                        ) == e0.spec_image_owner(i)
                    &&& !e1.spec_fence_signaled(plan.frame_slot as int)
                    &&& e1.spec_history() == e0.spec_history() + spec_render_events(
                        plan.frame_slot,
                        plan.extra_wait_fence,
                        image_index,
                    )
                },
                Err(e) => e == Error::RenderFailed && *final(self) == *old(self),
            },
    {
        match &mut self.engine {
            Some(engine) => {
                if image_index >= engine.image_count() {
                    return Err(Error::RenderFailed);
                }
                let plan = engine.render(image_index);
                Ok(plan)
            },
            None => Err(Error::RenderFailed),
        }
    }

    /// Full device idle barrier used during teardown: blocks until every
    /// outstanding submission has completed, so every frame fence
    /// reports signaled. Fails with the lookup error when the device is
    /// gone or the engine was never started.
    pub fn wait(&mut self) -> (r: Result<(), Error>)
        requires
            old(self).wf(),
        ensures
            final(self).wf(),
            r is Ok <==> (old(self).engine is Some && (old(self).device matches Some(reg) && old(
                self,
            ).devices@.dom().contains(reg.key))),
            match r {
                Ok(_) => final(self).engine matches Some(e) && forall|f: int|
                    0 <= f < e.spec_frame_count() ==> e.spec_fence_signaled(f),
                Err(e) => e == Error::KeyNotFound && *final(self) == *old(self),
            },
    {
        let device_reg = match self.device {
            Some(reg) => reg,
            None => {
                return Err(Error::KeyNotFound);
            },
        };
        if !self.devices.contains(device_reg.key) {
            return Err(Error::KeyNotFound);
        }
        match &mut self.engine {
            Some(engine) => {
                engine.wait_idle();
                Ok(())
            },
            None => Err(Error::KeyNotFound),
        }
    }

    /// A resize event: decides whether the swapchain-dependent chain
    /// must be rebuilt. Dimensions of zero signal a minimized window and
    /// are a no-op — no rebuild, nothing changed.
    pub fn resize(&mut self, width: u32, height: u32) -> (rebuild: bool)
        requires
            old(self).wf(),
        ensures
            final(self).wf(),
            *final(self) == *old(self),
            rebuild == (width != 0 && height != 0),
    {
        width != 0 && height != 0
    }

    /// Tears the whole chain down: emits one destruction step per
    /// constructed object, in strict reverse creation order — children
    /// before parents, each exactly once — and drops every registry
    /// entry. The application runs the native destruction calls in the
    /// order given.
    pub fn teardown(self) -> (steps: Vec<TeardownStep>)
        requires
            self.wf(),
        ensures
            steps@.len() == self.chain.spec_entries().len(),
            forall|t: int|
                0 <= t < steps@.len() ==> {
                    let e = self.chain.spec_entries()[self.chain.spec_entries().len() - 1 - t];
                    (#[trigger] steps@[t]) == (TeardownStep {
                        kind: e.kind,
                        key: e.key,
                        handle: e.handle,
                    })
                },
    {
        let mut me = self;
        let steps = me.chain.teardown_steps();
        let n = steps.len();
        let mut t: usize = 0;
        while t < n
            invariant
                n == steps@.len(),
                t <= n,
                me.instances.wf(),
                me.debug_messengers.wf(),
                me.surfaces.wf(),
                me.physical_devices.wf(),
                me.devices.wf(),
                me.queues.wf(),
                me.swapchains.wf(),
                me.images.wf(),
                me.image_views.wf(),
                me.render_passes.wf(),
                me.pipeline_layouts.wf(),
                me.graphics_pipelines.wf(),
                me.framebuffer_registry.wf(),
                me.command_pools.wf(),
                me.command_buffer_registry.wf(),
                me.semaphores.wf(),
                me.fences.wf(),
            decreases n - t,
        {
            let step = steps[t];
            match step.kind {
                ResourceKind::Instance => {
                    let _ = me.instances.remove(step.key);
                },
                ResourceKind::DebugUtils => {
                    let _ = me.debug_messengers.remove(step.key);
                },
                ResourceKind::Surface => {
                    let _ = me.surfaces.remove(step.key);
                },
                ResourceKind::PhysicalDevice => {
                    let _ = me.physical_devices.remove(step.key);
                },
                ResourceKind::Device => {
                    let _ = me.devices.remove(step.key);
                },
                ResourceKind::Queue => {
                    let _ = me.queues.remove(step.key);
                },
                ResourceKind::Swapchain => {
                    let _ = me.swapchains.remove(step.key);
                },
                ResourceKind::Image => {
                    let _ = me.images.remove(step.key);
                },
                ResourceKind::ImageView => {
                    let _ = me.image_views.remove(step.key);
                },
                ResourceKind::RenderPass => {
                    let _ = me.render_passes.remove(step.key);
                },
                ResourceKind::PipelineLayout => {
                    let _ = me.pipeline_layouts.remove(step.key);
                },
                ResourceKind::GraphicsPipeline => {
                    let _ = me.graphics_pipelines.remove(step.key);
                },
                ResourceKind::Framebuffer => {
                    let _ = me.framebuffer_registry.remove(step.key);
                },
                ResourceKind::CommandPool => {
                    let _ = me.command_pools.remove(step.key);
                },
                ResourceKind::CommandBuffer => {
                    let _ = me.command_buffer_registry.remove(step.key);
                },
                ResourceKind::Semaphore => {
                    let _ = me.semaphores.remove(step.key);
                },
                ResourceKind::Fence => {
                    let _ = me.fences.remove(step.key);
                },
            }
            t = t + 1;
        }
        steps
    }

    /// The native handle of the frame fence of one slot; the lookup
    /// error when the slot or its fence is gone.
    pub fn fence_handle(&self, slot: usize) -> (r: Result<u64, Error>)
        ensures
            r is Ok <==> (slot < self.in_flight_fences@.len() && self.fences@.dom().contains(
                self.in_flight_fences@[slot as int].key,
            )),
            match r {
                Ok(h) => h == self.fences@[self.in_flight_fences@[slot as int].key].handle,
                Err(e) => e == Error::KeyNotFound,
            },
    {
        if slot >= self.in_flight_fences.len() {
            return Err(Error::KeyNotFound);
        }
        let reg = self.in_flight_fences[slot];
        match self.fences.get(reg.key) {
            Some(f) => Ok(f.handle),
            None => Err(Error::KeyNotFound),
        }
    }

    /// The native handle of the "image available" semaphore of one slot.
    pub fn image_available_semaphore_handle(&self, slot: usize) -> (r: Result<u64, Error>)
        ensures
            r is Ok <==> (slot < self.image_available_semaphores@.len()
                && self.semaphores@.dom().contains(
                self.image_available_semaphores@[slot as int].key,
            )),
            match r {
                Ok(h) => h == self.semaphores@[self.image_available_semaphores@[slot as int].key].handle,
                Err(e) => e == Error::KeyNotFound,
            },
    {
        if slot >= self.image_available_semaphores.len() {
            return Err(Error::KeyNotFound);
        }
        let reg = self.image_available_semaphores[slot];
        match self.semaphores.get(reg.key) {
            Some(s) => Ok(s.handle),
            None => Err(Error::KeyNotFound),
        }
    }

    /// The native handle of the "render finished" semaphore of one slot.
    pub fn render_finished_semaphore_handle(&self, slot: usize) -> (r: Result<u64, Error>)
        ensures
            r is Ok <==> (slot < self.render_finished_semaphores@.len()
                && self.semaphores@.dom().contains(
                self.render_finished_semaphores@[slot as int].key,
            )),
            match r {
                Ok(h) => h == self.semaphores@[self.render_finished_semaphores@[slot as int].key].handle,
                Err(e) => e == Error::KeyNotFound,
            },
    {
        if slot >= self.render_finished_semaphores.len() {
            return Err(Error::KeyNotFound);
        }
        let reg = self.render_finished_semaphores[slot];
        match self.semaphores.get(reg.key) {
            Some(s) => Ok(s.handle),
            None => Err(Error::KeyNotFound),
        }
    }

    /// The native handle of the pre-recorded command buffer of one
    /// swapchain image.
    pub fn command_buffer_handle(&self, image_index: usize) -> (r: Result<u64, Error>)
        ensures
            r is Ok <==> (image_index < self.command_buffers@.len()
                && self.command_buffer_registry@.dom().contains(
                self.command_buffers@[image_index as int].key,
            )),
            match r {
                Ok(h) => h == self.command_buffer_registry@[self.command_buffers@[image_index as int].key].handle,
                Err(e) => e == Error::KeyNotFound,
            },
    {
        if image_index >= self.command_buffers.len() {
            return Err(Error::KeyNotFound);
        }
        let reg = self.command_buffers[image_index];
        match self.command_buffer_registry.get(reg.key) {
            Some(b) => Ok(b.handle),
            None => Err(Error::KeyNotFound),
        }
    }

    /// The native handle of the logical device.
    pub fn device_handle(&self) -> (r: Result<u64, Error>)
        ensures
            r is Ok <==> (self.device matches Some(reg) && self.devices@.dom().contains(reg.key)),
            match r {
                Ok(h) => h == self.devices@[self.device.unwrap().key].handle,
                Err(e) => e == Error::KeyNotFound,
            },
    {
        let reg = match self.device {
            Some(reg) => reg,
            None => {
                return Err(Error::KeyNotFound);
            },
        };
        match self.devices.get(reg.key) {
            Some(d) => Ok(d.handle),
            None => Err(Error::KeyNotFound),
        }
    }

    /// The native handle of the swapchain.
    pub fn swapchain_handle(&self) -> (r: Result<u64, Error>)
        ensures
            r is Ok <==> (self.swapchain matches Some(reg) && self.swapchains@.dom().contains(
                reg.key,
            )),
            match r {
                Ok(h) => h == self.swapchains@[self.swapchain.unwrap().key].handle,
                Err(e) => e == Error::KeyNotFound,
            },
    {
        let reg = match self.swapchain {
            Some(reg) => reg,
            None => {
                return Err(Error::KeyNotFound);
            },
        };
        match self.swapchains.get(reg.key) {
            Some(s) => Ok(s.handle),
            None => Err(Error::KeyNotFound),
        }
    }

    /// The native handle of one device queue.
    pub fn queue_handle(&self, index: usize) -> (r: Result<u64, Error>)
        ensures
            r is Ok <==> (index < self.device_queues@.len() && self.queues@.dom().contains(
                self.device_queues@[index as int].key,
            )),
            match r {
                Ok(h) => h == self.queues@[self.device_queues@[index as int].key].handle,
                Err(e) => e == Error::KeyNotFound,
            },
    {
        if index >= self.device_queues.len() {
            return Err(Error::KeyNotFound);
        }
        let reg = self.device_queues[index];
        match self.queues.get(reg.key) {
            Some(q) => Ok(q.handle),
            None => Err(Error::KeyNotFound),
        }
    }
}

} // verus!
