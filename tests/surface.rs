use statusbar::output::surface::config::{Anchor, Config, Layer, Margin, Position};
use statusbar::output::surface::{Request, Surface, SurfaceState};
use statusbar::math::Mat4;

const TOP_LEFT_RIGHT: Anchor = Anchor { top: true, bottom: false, left: true, right: true };

#[test]
fn top_bar_scenario() {
    let (mut surface, _) = Surface::new();
    surface.config.position = Position::Top;
    surface.config.size = 50;
    surface.config.margin = Margin { left: 0, right: 0, top: 0, bottom: 0 };
    let requests = surface.apply_config();
    assert_eq!(requests[0], Request::SetAnchor(TOP_LEFT_RIGHT));
    assert_eq!(requests[1], Request::SetExclusiveZone(50));
    let sizing = surface.logical_size_requests(1920, 1080);
    assert_eq!(sizing, vec![Request::SetSize(1920, 50), Request::Commit]);
}

#[test]
fn apply_config_twice_sends_same_requests() {
    let (mut surface, _) = Surface::new();
    surface.config.position = Position::Bottom;
    surface.config.margin = Margin { left: 1, right: 2, top: 3, bottom: 4 };
    surface.config.background_color = [255, 0, 0, 128];
    let first = surface.apply_config();
    let color_first = surface.background.data.background_color();
    let second = surface.apply_config();
    assert_eq!(first, second);
    assert_eq!(color_first, surface.background.data.background_color());
    assert_eq!(color_first, [128, 0, 0, 128]);
}

#[test]
fn apply_config_requests_in_order() {
    let (mut surface, _) = Surface::new();
    surface.config = Config {
        size: 30,
        margin: Margin { left: 4, right: 3, top: 2, bottom: 1 },
        position: Position::Right,
        layer: Layer::Overlay,
        background_color: [0, 0, 0, 255],
    };
    let requests = surface.apply_config();
    assert_eq!(
        requests,
        vec![
            Request::SetAnchor(Anchor { top: true, bottom: true, left: false, right: true }),
            Request::SetExclusiveZone(30),
            Request::SetLayer(Layer::Overlay),
            Request::SetMargin { top: 2, right: 3, bottom: 1, left: 4 },
        ]
    );
}

#[test]
fn anchors_for_each_position() {
    let mut config = Config::default();
    config.position = Position::Bottom;
    assert_eq!(config.anchor(), Anchor { top: false, bottom: true, left: true, right: true });
    config.position = Position::Left;
    assert_eq!(config.anchor(), Anchor { top: true, bottom: true, left: true, right: false });
    config.position = Position::Top;
    assert_eq!(config.anchor(), TOP_LEFT_RIGHT);
}

#[test]
fn default_config_values() {
    let config = Config::default();
    assert_eq!(config.size, 500);
    assert_eq!(config.position, Position::Left);
    assert_eq!(config.layer, Layer::Top);
    assert_eq!(config.background_color, [0, 0, 0, 0]);
    assert_eq!(config.margin, Margin::default());
}

#[test]
fn new_surface_sends_placeholder_then_config() {
    let (surface, requests) = Surface::new();
    assert_eq!(surface.state, SurfaceState::Created);
    assert!(surface.projection.is_none());
    assert_eq!(
        requests,
        vec![
            Request::SetSize(1, 1),
            Request::SetAnchor(Anchor { top: true, bottom: false, left: false, right: false }),
            Request::Commit,
            Request::SetAnchor(Anchor { top: true, bottom: true, left: true, right: false }),
            Request::SetExclusiveZone(500),
            Request::SetLayer(Layer::Top),
            Request::SetMargin { top: 0, right: 0, bottom: 0, left: 0 },
        ]
    );
}

#[test]
fn configure_acknowledges_then_reconfigures_gpu() {
    let (mut surface, _) = Surface::new();
    let requests = surface.configure(42, 500, 1080);
    assert_eq!(requests, vec![Request::AckConfigure(42), Request::ConfigureGpu(500, 1080)]);
    assert_eq!(surface.state, SurfaceState::Ready);
    assert_eq!(surface.projection, Some(Mat4::projection(0, 500, 0, 1080)));
    assert_eq!(surface.background.data.get_extents().width, 500);
    assert_eq!(surface.background.data.get_extents().height, 1080);
}

#[test]
fn zero_size_leaves_surface_configuring() {
    let (mut surface, _) = Surface::new();
    let requests = surface.configure(7, 0, 1080);
    assert_eq!(requests, vec![Request::AckConfigure(7)]);
    assert_eq!(surface.state, SurfaceState::Configuring);
    assert!(surface.projection.is_none());
    assert!(surface.frame().is_none());
    assert!(!surface.can_render());
}

#[test]
fn oversized_configure_is_refused() {
    let (mut surface, _) = Surface::new();
    assert!(surface.resize(100, 100));
    assert!(!surface.resize(u32::MAX, 100));
    assert_eq!(surface.state, SurfaceState::Configuring);
    assert_eq!(surface.background.data.get_extents().width, 100);
    assert_eq!(surface.projection, Some(Mat4::projection(0, 100, 0, 100)));
}

#[test]
fn frame_only_when_ready() {
    let (mut surface, _) = Surface::new();
    assert!(surface.frame().is_none());
    surface.configure(1, 300, 200);
    let records = surface.frame().unwrap();
    assert_eq!(records.len(), 1);
    assert_eq!(records[0].dimensions, [0, 0, 300, 200]);
}

#[test]
fn logical_size_for_side_bars_and_negative_sizes() {
    let (surface, _) = Surface::new();
    assert_eq!(surface.logical_size_requests(1920, 1080)[0], Request::SetSize(500, 1080));
    assert_eq!(surface.logical_size_requests(1920, -4)[0], Request::SetSize(500, 0));
    let mut config = Config::default();
    config.position = Position::Bottom;
    config.size = 20;
    assert_eq!(config.surface_size(-1, 900), (0, 20));
}

#[test]
fn zero_size_still_sizes_root_box() {
    let (mut surface, _) = Surface::new();
    assert!(surface.resize(300, 200));
    assert!(!surface.resize(0, 150));
    assert_eq!(surface.state, SurfaceState::Configuring);
    assert_eq!(surface.background.data.get_extents().width, 0);
    assert_eq!(surface.background.data.get_extents().height, 150);
    assert_eq!(surface.projection, Some(Mat4::projection(0, 300, 0, 200)));
}
