use statusbar::output::surface::{Request, SurfaceState};
use statusbar::output::{OutputInfo, OutputRegistry};

#[test]
fn attach_and_detach_scenario() {
    let mut registry: OutputRegistry<()> = OutputRegistry::new();
    registry.attach(7, ());
    assert_eq!(registry.outputs.len(), 1);
    assert_eq!(registry.outputs[0].info.id, 7);
    let removed = registry.detach(7);
    assert_eq!(removed.map(|o| o.info.id), Some(7));
    assert!(registry.outputs.is_empty());
    assert!(registry.detach(7).is_none());
    assert!(registry.outputs.is_empty());
}

#[test]
fn detach_moves_last_into_place() {
    let mut registry: OutputRegistry<&str> = OutputRegistry::new();
    registry.attach(1, "a");
    registry.attach(2, "b");
    registry.attach(3, "c");
    let removed = registry.detach(1).unwrap();
    assert_eq!(removed.handle, "a");
    let ids: Vec<u32> = registry.outputs.iter().map(|o| o.info.id).collect();
    assert_eq!(ids, vec![3, 2]);
    assert_eq!(registry.position(2), Some(1));
    assert_eq!(registry.position(1), None);
}

#[test]
fn detach_unknown_id_changes_nothing() {
    let mut registry: OutputRegistry<u8> = OutputRegistry::new();
    registry.attach(4, 40);
    assert!(registry.detach(5).is_none());
    assert_eq!(registry.outputs.len(), 1);
    assert_eq!(registry.outputs[0].handle, 40);
}

#[test]
fn attach_returns_setup_requests() {
    let mut registry: OutputRegistry<()> = OutputRegistry::new();
    let requests = registry.attach(9, ());
    assert_eq!(requests[0], Request::SetSize(1, 1));
    assert_eq!(requests.len(), 7);
    assert_eq!(registry.outputs[0].surface.state, SurfaceState::Created);
}

#[test]
fn metadata_updates_info_only() {
    let mut registry: OutputRegistry<()> = OutputRegistry::new();
    registry.attach(3, ());
    let output = &mut registry.outputs[0];
    output.set_name("DP-1".to_string());
    output.set_scale(2);
    let requests = output.set_logical_size(2560, 1440);
    assert_eq!(requests, vec![Request::SetSize(500, 1440), Request::Commit]);
    assert_eq!(output.info.name.as_deref(), Some("DP-1"));
    assert_eq!(output.info.scale, 2);
    assert_eq!((output.info.width, output.info.height), (2560, 1440));
    assert_eq!(output.surface.state, SurfaceState::Created);
}

#[test]
fn new_output_info_is_unset() {
    let info = OutputInfo::new(11);
    assert_eq!(info.id, 11);
    assert!(info.name.is_none());
    assert_eq!((info.width, info.height, info.scale), (0, 0, 1));
}
