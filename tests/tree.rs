use statusbar::output::surface::Surface;
use statusbar::output::tree::{add_demo_boxes, Node, Tree};
use statusbar::rectangle::{BoxSizing, Extents, Rectangle};

#[test]
fn resize_and_flatten_scenario() {
    let (mut surface, _) = Surface::new();
    surface.background = Tree::new(Rectangle::default().set_size(0, 0));
    surface.background.add_child(
        Rectangle::default()
            .set_coordinates(10, 10)
            .set_size(20, 20)
            .set_box_sizing(BoxSizing::ContentBox),
    );
    assert!(surface.resize(400, 300));
    assert_eq!(surface.background.data.get_extents(), Extents { x: 0, y: 0, width: 400, height: 300 });
    let records = surface.background.flatten();
    assert_eq!(records.len(), 2);
    assert_eq!(records[0].dimensions, [10, 10, 20, 20]);
    assert_eq!(records[1].dimensions, [0, 0, 400, 300]);
}

#[test]
fn flatten_lists_children_in_insertion_order_then_root() {
    let mut tree = Tree::new(Rectangle::default().set_size(800, 600));
    for k in 0..3 {
        tree.add_child(Rectangle::default().set_coordinates(k * 100, 5).set_size(10, 10));
    }
    let records = tree.flatten();
    assert_eq!(records.len(), 4);
    for k in 0..3 {
        assert_eq!(records[k].dimensions, [k as i64 * 100, 5, 10, 10]);
    }
    assert_eq!(records[3], tree.data.get_instance());
}

#[test]
fn flatten_of_childless_tree_is_root_only() {
    let tree = Tree::new(Rectangle::default().set_background_color(0, 0, 255, 255));
    let records = tree.flatten();
    assert_eq!(records.len(), 1);
    assert_eq!(records[0].color, [0, 0, 255, 255]);
}

#[test]
fn flatten_reflects_current_root() {
    let mut tree = Tree::new(Rectangle::default());
    tree.add_child(Rectangle::default());
    tree.data = tree.data.set_size(50, 60);
    let records = tree.flatten();
    assert_eq!(records[1].dimensions, [0, 0, 50, 60]);
}

#[test]
fn new_node_has_no_children() {
    let node = Node::new(Rectangle::default().set_size(3, 4));
    assert!(node.children.is_empty());
    assert_eq!(node.data.get_extents().width, 3);
}

#[test]
fn demo_scene_boxes() {
    let mut tree = Tree::new(Rectangle::default());
    tree.add_child(Rectangle::default().set_coordinates(1, 1));
    add_demo_boxes(&mut tree);
    let records = tree.flatten();
    assert_eq!(records.len(), 7);
    assert_eq!(records[0].dimensions, [1, 1, 1, 1]);
    // blue, 100 + 2 + 2 wide with its border
    assert_eq!(records[1].dimensions, [100, 700, 104, 104]);
    assert_eq!(records[1].color, [0, 0, 255, 255]);
    assert_eq!(records[1].border_radius, [0, 10, 50, 30]);
    assert_eq!(records[2].dimensions, [200, 100, 300, 300]);
    assert_eq!(records[3].border_radius, [55, 55, 55, 55]);
    // border 15 + 5 across, 0 + 10 down, then grown by 5 + 50 on each side
    assert_eq!(records[4].dimensions, [45, 445, 230, 220]);
    assert_eq!(records[4].outline_color, [255, 0, 0, 255]);
    assert_eq!(records[4], records[5]);
}
