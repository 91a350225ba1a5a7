//! Per-output state: what the compositor told about each monitor, its surface
//! lifecycle, and the registry of attached outputs.
use vstd::prelude::*;

pub mod surface;
pub mod tree;

use surface::config::surface_size_for;
use surface::{after_apply_config, config_requests, placeholder_requests, Request, Surface, SurfaceModel, SurfaceState};
use tree::TreeModel;
use crate::rectangle::default_model;
use surface::config::default_config;

verus! {

/// What the compositor announced about one output. Name and logical size come
/// in later events and are unset until then.
pub struct OutputInfo {
    pub name: Option<String>,
    pub width: i32,
    pub height: i32,
    pub scale: i32,
    pub id: u32,
}

impl OutputInfo {
    pub fn new(id: u32) -> (r: Self)
        ensures
            r.name is None,
            r.width == 0,
            r.height == 0,
            r.scale == 1,
            r.id == id,
    {
        OutputInfo { name: None, width: 0, height: 0, scale: 1, id }
    }
}

/// The surface model of an output that was just attached.
pub open spec fn fresh_surface() -> SurfaceModel {
    after_apply_config(
        SurfaceModel {
            config: default_config(),
            background: TreeModel { root: default_model(), children: Seq::empty() },
            state: SurfaceState::Created,
            projection: None,
        },
    )
}

/// One attached output: its announced metadata, its surface lifecycle, and
/// `handle`, what the embedding program keeps for it (protocol objects, GPU
/// surface).
pub struct Output<H> {
    pub surface: Surface,
    pub handle: H,
    pub info: OutputInfo,
}

impl<H> Output<H> {
    /// A new output with id `id`, and the requests that set up its surface.
    pub fn new(id: u32, handle: H) -> (r: (Output<H>, Vec<Request>))
        ensures
            r.0.info.id == id,
            r.0.info.name is None,
            r.0.info.width == 0 && r.0.info.height == 0 && r.0.info.scale == 1,
            r.0.handle == handle,
            r.0.surface@ == fresh_surface(),
            r.1@ == placeholder_requests() + config_requests(default_config()),
    {
        let (surface, requests) = Surface::new();
        (Output { surface, handle, info: OutputInfo::new(id) }, requests)
    }

    pub fn set_name(&mut self, name: String)
        ensures
            final(self).info.name == Some(name),
            final(self).info.width == old(self).info.width,
            final(self).info.height == old(self).info.height,
            final(self).info.scale == old(self).info.scale,
            final(self).info.id == old(self).info.id,
            final(self).surface@ == old(self).surface@,
            final(self).handle == old(self).handle,
    {
        self.info.name = Some(name);
    }

    pub fn set_scale(&mut self, factor: i32)
        ensures
            final(self).info.scale == factor,
            final(self).info.name == old(self).info.name,
            final(self).info.width == old(self).info.width,
            final(self).info.height == old(self).info.height,
            final(self).info.id == old(self).info.id,
            final(self).surface@ == old(self).surface@,
            final(self).handle == old(self).handle,
    {
        self.info.scale = factor;
    }

    /// Records the output's logical size and returns the requests that size the
    /// surface to it. The surface itself only changes when the compositor then
    /// sends a configure event.
    pub fn set_logical_size(&mut self, width: i32, height: i32) -> (r: Vec<Request>)
        ensures
            final(self).info.width == width,
            final(self).info.height == height,
            final(self).info.name == old(self).info.name,
            final(self).info.scale == old(self).info.scale,
            final(self).info.id == old(self).info.id,
            final(self).surface@ == old(self).surface@,
            final(self).handle == old(self).handle,
            r@ == seq![
                Request::SetSize(
                    surface_size_for(old(self).surface.config, width, height).0,
                    surface_size_for(old(self).surface.config, width, height).1,
                ),
                Request::Commit,
            ],
    {
        self.info.width = width;
        self.info.height = height;
        self.surface.logical_size_requests(width, height)
    }
}

/// The ids of a sequence of outputs, in order.
pub open spec fn ids<H>(outputs: Seq<Output<H>>) -> Seq<u32> {
    outputs.map_values(|o: Output<H>| o.info.id)
}

/// The attached outputs. Removal may reorder the others.
pub struct OutputRegistry<H> {
    pub outputs: Vec<Output<H>>,
}

impl<H> OutputRegistry<H> {
    pub fn new() -> (r: Self)
        ensures
            r.outputs@.len() == 0,
    {
        OutputRegistry { outputs: Vec::new() }
    }

    /// The index of the first output with id `id`, if any.
    pub fn position(&self, id: u32) -> (r: Option<usize>)
        ensures
            r is None <==> (forall|j: int| 0 <= j < self.outputs@.len() ==> self.outputs@[j].info.id != id),
            r matches Some(i) ==> i < self.outputs@.len() && self.outputs@[i as int].info.id == id
                && forall|j: int| 0 <= j < i ==> self.outputs@[j].info.id != id,
    {
        let mut i: usize = 0;
        while i < self.outputs.len()
            invariant
                i <= self.outputs@.len(),
                forall|j: int| 0 <= j < i ==> self.outputs@[j].info.id != id,
            decreases self.outputs@.len() - i,
        {
            if self.outputs[i].info.id == id {
                return Some(i);
            }
            i += 1;
        }
        None
    }

    /// Attaches a new output with id `id` at the end of the registry, and returns
    /// the requests that set up its surface.
    pub fn attach(&mut self, id: u32, handle: H) -> (r: Vec<Request>)
        ensures
            final(self).outputs@.len() == old(self).outputs@.len() + 1,
            final(self).outputs@.drop_last() == old(self).outputs@,
            final(self).outputs@.last().info.id == id,
            final(self).outputs@.last().info.name is None,
            final(self).outputs@.last().info.width == 0,
            final(self).outputs@.last().info.height == 0,
            final(self).outputs@.last().info.scale == 1,
            final(self).outputs@.last().handle == handle,
            final(self).outputs@.last().surface@ == fresh_surface(),
            ids(final(self).outputs@) == ids(old(self).outputs@).push(id),
            r@ == placeholder_requests() + config_requests(default_config()),
    {
        let (output, requests) = Output::new(id, handle);
        self.outputs.push(output);
        assert(self.outputs@.drop_last() =~= old(self).outputs@);
        assert(ids(self.outputs@) =~= ids(old(self).outputs@).push(id));
        requests
    }

    /// Detaches the first output with id `id` and returns it; the last output
    /// takes its place. Without such an output nothing changes and the result is
    /// `None`.
    pub fn detach(&mut self, id: u32) -> (r: Option<Output<H>>)
        ensures
            r is None <==> (forall|j: int| 0 <= j < old(self).outputs@.len() ==> old(self).outputs@[j].info.id != id),
            r is None ==> final(self).outputs@ == old(self).outputs@,
            r is Some ==> exists|i: int|
                0 <= i < old(self).outputs@.len()
                && old(self).outputs@[i].info.id == id
                && (forall|j: int| 0 <= j < i ==> old(self).outputs@[j].info.id != id)
                && r->0 == old(self).outputs@[i]
                && final(self).outputs@ == old(self).outputs@.update(i, old(self).outputs@.last()).drop_last(),
    {
        match self.position(id) {
            Some(i) => Some(self.outputs.swap_remove(i)),
            None => None,
        }
    }
}

} // verus!
