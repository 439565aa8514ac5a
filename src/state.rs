//! The renderer's state: what is configured, what is drawn, and how it reacts
//! to resizes, input, updates and frame ticks.
use vstd::prelude::*;
use crate::frame::{build_frame, frame_commands, recovery, recovery_of, FrameAction, SurfaceFailure};
use crate::geometry::quad_indices;
use crate::instances::{instance_bytes, InstanceStore, InstanceUpload};
use crate::surface::{chosen_config, config_error, ConfigError, SurfaceConfig};

verus! {

/// A size in physical pixels.
#[derive(Clone, Copy, Debug, PartialEq, Eq, Structural)]
pub struct Size {
    pub width: u32,
    pub height: u32,
}

/// The renderer. `size`, the surface configuration and the viewport's aspect
/// ratio (`aspect.width / aspect.height`) always agree; `uniform_stale` says
/// the view-projection uniform must be recomputed and uploaded before the
/// next frame.
pub struct State<B> {
    pub size: Size,
    pub config: SurfaceConfig,
    pub aspect: Size,
    pub num_indices: u32,
    pub instances: InstanceStore<B>,
    pub uniform_stale: bool,
}

impl<B> State<B> {
    pub open spec fn wf(&self) -> bool {
        &&& self.config.width == self.size.width
        &&& self.config.height == self.size.height
        &&& self.aspect == self.size
        &&& self.num_indices == 6
        &&& self.instances.wf()
    }

    /// Sets up the renderer for a surface with these capabilities, at `size`,
    /// drawing `boxes`. The view-projection uniform is computed along with it.
    pub fn new(
        formats: &Vec<wgpu::TextureFormat>,
        present_modes: &Vec<wgpu::PresentMode>,
        alpha_modes: &Vec<wgpu::CompositeAlphaMode>,
        size: Size,
        boxes: Vec<B>,
    ) -> (r: Result<State<B>, ConfigError>)
        requires
            boxes@.len() <= u32::MAX,
        ensures
            match config_error(formats@, present_modes@, alpha_modes@) {
                Some(e) => r matches Err(x) && x == e,
                None => r matches Ok(s) && {
                    &&& s.wf()
                    &&& s.size == size
                    &&& chosen_config(
                        s.config,
                        formats@,
                        present_modes@,
                        alpha_modes@,
                        size.width,
                        size.height,
                    )
                    &&& s.instances.spec_boxes() == boxes@
                    &&& !s.uniform_stale
                },
            },
    {
        let config = match SurfaceConfig::from_capabilities(
            formats,
            present_modes,
            alpha_modes,
            size.width,
            size.height,
        ) {
            Ok(c) => c,
            Err(e) => {
                return Err(e);
            },
        };
        let indices = quad_indices();
        Ok(
            State {
                size,
                config,
                aspect: size,
                num_indices: indices.len() as u32,
                instances: InstanceStore::new(boxes),
                uniform_stale: false,
            },
        )
    }

    /// Whether the configured surface has a positive area, so that it may be
    /// configured on the GPU. Only a window created with a zero side lacks one.
    pub fn has_area(&self) -> (r: bool)
        ensures
            r == (self.config.width > 0 && self.config.height > 0),
    {
        self.config.width > 0 && self.config.height > 0
    }

    /// Follows a new window size. When both sides are positive the size, the
    /// surface configuration and the aspect ratio take it on, the uniform goes
    /// stale, and `true` says the surface must be configured again. A zero side
    /// changes nothing and gives `false`.
    pub fn resize(&mut self, new_size: Size) -> (r: bool)
        requires
            old(self).wf(),
        ensures
            final(self).wf(),
            r == (new_size.width > 0 && new_size.height > 0),
            r ==> {
                &&& final(self).size == new_size
                &&& final(self).config.width == new_size.width
                &&& final(self).config.height == new_size.height
                &&& final(self).config.format == old(self).config.format
                &&& final(self).config.present_mode == old(self).config.present_mode
                &&& final(self).config.alpha_mode == old(self).config.alpha_mode
                &&& final(self).aspect == new_size
                &&& final(self).num_indices == old(self).num_indices
                &&& final(self).instances == old(self).instances
                &&& final(self).uniform_stale
            },
            !r ==> *final(self) == *old(self),
    {
        if new_size.width > 0 && new_size.height > 0 {
            self.size = new_size;
            self.config.width = new_size.width;
            self.config.height = new_size.height;
            self.aspect = new_size;
            self.uniform_stale = true;
            true
        } else {
            false
        }
    }

    /// Offers a window event. No event is consumed: the result is always
    /// `false` and the state is unchanged.
    pub fn input<E>(&mut self, _event: &E) -> (r: bool)
        ensures
            !r,
            *final(self) == *old(self),
    {
        false
    }

    /// Settles the uniform before a frame: `true` when it must be recomputed
    /// from the viewport and uploaded. Afterwards it is current.
    pub fn update(&mut self) -> (r: bool)
        ensures
            r == old(self).uniform_stale,
            !final(self).uniform_stale,
            final(self).size == old(self).size,
            final(self).config == old(self).config,
            final(self).aspect == old(self).aspect,
            final(self).num_indices == old(self).num_indices,
            final(self).instances == old(self).instances,
    {
        let stale = self.uniform_stale;
        self.uniform_stale = false;
        stale
    }

    /// Replaces the boxes to draw; see `InstanceStore::upload`.
    pub fn upload(&mut self, boxes: Vec<B>) -> (r: InstanceUpload)
        requires
            old(self).wf(),
            boxes@.len() <= u32::MAX,
        ensures
            final(self).wf(),
            final(self).instances.spec_boxes() == boxes@,
            final(self).size == old(self).size,
            final(self).config == old(self).config,
            final(self).aspect == old(self).aspect,
            final(self).num_indices == old(self).num_indices,
            final(self).uniform_stale == old(self).uniform_stale,
            r == (if boxes@.len() == old(self).instances.spec_count() {
                InstanceUpload::Overwrite { size: instance_bytes(boxes@.len()) as u64 }
            } else {
                InstanceUpload::Rebuild { size: instance_bytes(boxes@.len()) as u64 }
            }),
    {
        self.instances.upload(boxes)
    }

    /// One frame tick, given how acquiring the surface's image went: on
    /// success the frame's commands, drawing every index of the quad for every
    /// box; on failure the recovery it calls for.
    pub fn render(&self, acquired: Result<(), SurfaceFailure>) -> (r: FrameAction)
        requires
            self.wf(),
        ensures
            match acquired {
                Ok(()) => r matches FrameAction::Draw(cmds) && cmds@ == frame_commands(
                    self.num_indices,
                    self.instances.spec_count() as u32,
                ),
                Err(e) => r == recovery_of(e),
            },
    {
        match acquired {
            Ok(()) => FrameAction::Draw(build_frame(self.num_indices, self.instances.instance_count())),
            Err(e) => recovery(e),
        }
    }
}

} // verus!
