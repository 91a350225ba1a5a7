//! The surface lifecycle of one output. Each call takes what the compositor
//! sent and returns, in order, the requests that the caller must pass on to the
//! compositor and to the GPU backend.
use vstd::prelude::*;

pub mod config;

use crate::buffers::Instance;
use crate::math::{ortho, projection_fits, Mat4};
use crate::rectangle::{default_model, premultiplied, Rectangle, RectangleModel};
use config::{anchor_for, default_config, surface_size_for, Anchor, Config, Layer};
use super::tree::{records, Tree, TreeModel};

verus! {

/// Where a surface stands in the configure handshake.
#[derive(Clone, Copy, Debug, PartialEq, Eq, Structural)]
pub enum SurfaceState {
    /// No size has come from the compositor yet.
    Created,
    /// The last size the compositor proposed could not be used.
    Configuring,
    /// The GPU surface is configured; frames can be drawn.
    Ready,
}

/// A request for the compositor's layer surface or for the GPU backend.
#[derive(Clone, Copy, Debug, PartialEq, Eq, Structural)]
pub enum Request {
    AckConfigure(u32),
    SetAnchor(Anchor),
    SetExclusiveZone(u32),
    SetLayer(Layer),
    SetMargin { top: u32, right: u32, bottom: u32, left: u32 },
    SetSize(u32, u32),
    Commit,
    /// Reconfigure the GPU swapchain to this size and upload the surface's
    /// new projection.
    ConfigureGpu(u32, u32),
}

pub struct Surface {
    pub config: Config,
    pub background: Tree,
    pub state: SurfaceState,
    /// The projection of the last size the GPU surface was configured to.
    pub projection: Option<Mat4>,
}

pub struct SurfaceModel {
    pub config: Config,
    pub background: TreeModel,
    pub state: SurfaceState,
    pub projection: Option<Mat4>,
}

impl View for Surface {
    type V = SurfaceModel;

    open spec fn view(&self) -> SurfaceModel {
        SurfaceModel {
            config: self.config,
            background: self.background@,
            state: self.state,
            projection: self.projection,
        }
    }
}

/// The requests that put a configuration into effect: anchor edges, exclusive
/// zone, stacking layer and margins.
pub open spec fn config_requests(c: Config) -> Seq<Request> {
    seq![
        Request::SetAnchor(anchor_for(c.position)),
        Request::SetExclusiveZone(c.size),
        Request::SetLayer(c.layer),
        Request::SetMargin {
            top: c.margin.top,
            right: c.margin.right,
            bottom: c.margin.bottom,
            left: c.margin.left,
        },
    ]
}

/// The box `m` with the background colour `c`, stored premultiplied.
pub open spec fn with_background(m: RectangleModel, c: [u8; 4]) -> RectangleModel {
    RectangleModel { color: c, background_color: premultiplied(c), ..m }
}

/// The surface once its configuration's background colour is on the root box.
pub open spec fn after_apply_config(s: SurfaceModel) -> SurfaceModel {
    SurfaceModel {
        background: TreeModel {
            root: with_background(s.background.root, s.config.background_color),
            ..s.background
        },
        ..s
    }
}

/// The requests that hold a new surface at a 1×1 size on the top edge until the
/// compositor sends a real size.
pub open spec fn placeholder_requests() -> Seq<Request> {
    seq![
        Request::SetSize(1, 1),
        Request::SetAnchor(Anchor { top: true, bottom: false, left: false, right: false }),
        Request::Commit,
    ]
}

/// A size that box lengths can hold.
pub open spec fn representable(width: u32, height: u32) -> bool {
    width <= i32::MAX && height <= i32::MAX
}

/// A size the GPU surface can be configured to: representable, and neither
/// side zero.
pub open spec fn configurable(width: u32, height: u32) -> bool {
    representable(width, height) && 0 < width && 0 < height
}

/// The surface after the compositor's size `width × height` was applied. The
/// root box takes the size whenever it can hold it; the GPU surface follows,
/// with a new projection, only for a configurable size, and otherwise the
/// surface waits in `Configuring`.
pub open spec fn after_resize(s: SurfaceModel, width: u32, height: u32) -> SurfaceModel {
    let sized = if representable(width, height) {
        SurfaceModel {
            background: TreeModel {
                root: RectangleModel { width: width as i32, height: height as i32, ..s.background.root },
                ..s.background
            },
            ..s
        }
    } else {
        s
    };
    if configurable(width, height) {
        SurfaceModel {
            state: SurfaceState::Ready,
            projection: Some(ortho(0, width as int, 0, height as int)),
            ..sized
        }
    } else {
        SurfaceModel { state: SurfaceState::Configuring, ..sized }
    }
}

/// Applying a configuration twice in a row changes nothing the second time and
/// sends the same requests both times.
pub proof fn apply_config_is_idempotent(s: SurfaceModel)
    ensures
        after_apply_config(after_apply_config(s)) == after_apply_config(s),
        config_requests(after_apply_config(s).config) == config_requests(s.config),
{
}

impl Surface {
    /// A surface with the default configuration and a default root box, and the
    /// requests that set it up: the placeholder size and anchor, then the
    /// configuration's own requests.
    pub fn new() -> (r: (Surface, Vec<Request>))
        ensures
            r.0@ == after_apply_config(
                SurfaceModel {
                    config: default_config(),
                    background: TreeModel { root: default_model(), children: Seq::empty() },
                    state: SurfaceState::Created,
                    projection: None,
                },
            ),
            r.1@ == placeholder_requests() + config_requests(default_config()),
    {
        let mut requests: Vec<Request> = Vec::new();
        requests.push(Request::SetSize(1, 1));
        requests.push(Request::SetAnchor(Anchor { top: true, bottom: false, left: false, right: false }));
        requests.push(Request::Commit);
        let mut surface = Surface {
            config: Config::default(),
            background: Tree::new(Rectangle::default()),
            state: SurfaceState::Created,
            projection: None,
        };
        assert(surface@.background.children =~= Seq::<RectangleModel>::empty());
        let mut applied = surface.apply_config();
        requests.append(&mut applied);
        assert(requests@ =~= placeholder_requests() + config_requests(default_config()));
        (surface, requests)
    }

    /// Puts the configuration into effect: returns its anchor, exclusive zone,
    /// layer and margin requests, and sets its background colour on the root box.
    /// The GPU surface is left as it is until the compositor sends a size.
    pub fn apply_config(&mut self) -> (r: Vec<Request>)
        ensures
            final(self)@ == after_apply_config(old(self)@),
            final(self).background.children@ == old(self).background.children@,
            r@ == config_requests(old(self).config),
    {
        let mut requests: Vec<Request> = Vec::new();
        requests.push(Request::SetAnchor(self.config.anchor()));
        requests.push(Request::SetExclusiveZone(self.config.size));
        requests.push(Request::SetLayer(self.config.layer));
        requests.push(
            Request::SetMargin {
                top: self.config.margin.top,
                right: self.config.margin.right,
                bottom: self.config.margin.bottom,
                left: self.config.margin.left,
            },
        );
        let color = self.config.background_color;
        let root = self.background.data;
        self.background.data = root.set_background_color(color[0], color[1], color[2], color[3]);
        assert(color == [color[0], color[1], color[2], color[3]]);
        assert(self@.background.children =~= old(self)@.background.children);
        assert(requests@ =~= config_requests(old(self).config));
        requests
    }

    /// Applies a size the compositor acknowledged. The root box takes that size
    /// whenever its lengths can hold it. When the GPU surface can take the size
    /// too, the projection becomes that of `[0, width] × [0, height]`, the
    /// surface is ready, and the result is `true`: the caller reconfigures the
    /// GPU surface. Otherwise the surface waits in `Configuring`, its projection
    /// unchanged, and the result is `false`.
    pub fn resize(&mut self, width: u32, height: u32) -> (r: bool)
        ensures
            r == configurable(width, height),
            final(self)@ == after_resize(old(self)@, width, height),
            final(self).background.children@ == old(self).background.children@,
            final(self).config == old(self).config,
    {
        if width <= i32::MAX as u32 && height <= i32::MAX as u32 {
            let root = self.background.data;
            self.background.data = root.set_size(width as i32, height as i32);
        }
        if width == 0 || height == 0 || width > i32::MAX as u32 || height > i32::MAX as u32 {
            self.state = SurfaceState::Configuring;
            assert(self@.background.children =~= old(self)@.background.children);
            return false;
        }
        assert(projection_fits(0, width as int, 0, height as int)) by (nonlinear_arith)
            requires
                0 < width <= i32::MAX,
                0 < height <= i32::MAX,
        ;
        self.projection = Some(Mat4::projection(0, width as i64, 0, height as i64));
        self.state = SurfaceState::Ready;
        assert(self@.background.children =~= old(self)@.background.children);
        true
    }

    /// Handles the compositor's configure event: acknowledges it by its serial,
    /// then applies the size, asking the GPU backend to follow when the size
    /// could be used.
    pub fn configure(&mut self, serial: u32, width: u32, height: u32) -> (r: Vec<Request>)
        ensures
            final(self)@ == after_resize(old(self)@, width, height),
            final(self).background.children@ == old(self).background.children@,
            final(self).config == old(self).config,
            r@ == if configurable(width, height) {
                seq![Request::AckConfigure(serial), Request::ConfigureGpu(width, height)]
            } else {
                seq![Request::AckConfigure(serial)]
            },
    {
        let mut requests: Vec<Request> = Vec::new();
        requests.push(Request::AckConfigure(serial));
        if self.resize(width, height) {
            requests.push(Request::ConfigureGpu(width, height));
        }
        assert(requests@ =~= if configurable(width, height) {
            seq![Request::AckConfigure(serial), Request::ConfigureGpu(width, height)]
        } else {
            seq![Request::AckConfigure(serial)]
        });
        requests
    }

    /// The requests that follow a new logical size of the output: the surface
    /// size for the bar's edge, then a commit.
    pub fn logical_size_requests(&self, width: i32, height: i32) -> (r: Vec<Request>)
        ensures
            r@ == seq![
                Request::SetSize(surface_size_for(self.config, width, height).0, surface_size_for(self.config, width, height).1),
                Request::Commit,
            ],
    {
        let (w, h) = self.config.surface_size(width, height);
        let mut requests: Vec<Request> = Vec::new();
        requests.push(Request::SetSize(w, h));
        requests.push(Request::Commit);
        assert(requests@ =~= seq![
            Request::SetSize(surface_size_for(self.config, width, height).0, surface_size_for(self.config, width, height).1),
            Request::Commit,
        ]);
        requests
    }

    pub fn can_render(&self) -> (r: bool)
        ensures
            r == (self.state == SurfaceState::Ready),
    {
        self.state == SurfaceState::Ready
    }

    /// The records to draw this frame, or `None` while the GPU surface has no
    /// usable size.
    pub fn frame(&self) -> (r: Option<Vec<Instance>>)
        ensures
            self.state == SurfaceState::Ready ==> r is Some && r->0@ == records(self.background@),
            self.state != SurfaceState::Ready ==> r is None,
    {
        if self.can_render() {
            Some(self.background.flatten())
        } else {
            None
        }
    }
}

} // verus!
