//! The composition tree: one root box, the background, and its children in the
//! order they were added. It flattens into one instance record per box.
use vstd::prelude::*;

use crate::buffers::Instance;
use crate::rectangle::border::{default_border, BorderRadius, BorderSize};
use crate::rectangle::outline::default_outline;
use crate::rectangle::{
    default_model, instance_of, premultiplied, Border, BoxShadow, Outline, Rectangle, RectangleModel,
};

verus! {

pub struct Node {
    pub children: Vec<Node>,
    pub data: Rectangle,
}

impl Node {
    pub fn new(rectangle: Rectangle) -> (r: Self)
        ensures
            r.data == rectangle,
            r.children@.len() == 0,
    {
        Node { data: rectangle, children: Vec::new() }
    }
}

/// The root box and its children. The children's own children are not drawn.
pub struct Tree {
    pub data: Rectangle,
    pub children: Vec<Node>,
}

/// What a tree draws: its root and, in order, the boxes of its children.
pub struct TreeModel {
    pub root: RectangleModel,
    pub children: Seq<RectangleModel>,
}

impl View for Tree {
    type V = TreeModel;

    open spec fn view(&self) -> TreeModel {
        TreeModel { root: self.data@, children: self.children@.map_values(|n: Node| n.data@) }
    }
}

/// The tree `t` with the box `r` appended to its children.
pub open spec fn with_child(t: TreeModel, r: RectangleModel) -> TreeModel {
    TreeModel { root: t.root, children: t.children.push(r) }
}

/// The records of a tree: one per child in order, then one for the root.
pub open spec fn records(t: TreeModel) -> Seq<Instance> {
    t.children.map_values(|c: RectangleModel| instance_of(c)).push(instance_of(t.root))
}

/// The tree made by `Tree::new(root)` followed by `add_child` of each box of
/// `added`, in order.
pub open spec fn built(root: RectangleModel, added: Seq<RectangleModel>) -> TreeModel
    decreases added.len(),
{
    if added.len() == 0 {
        TreeModel { root, children: Seq::empty() }
    } else {
        with_child(built(root, added.drop_last()), added.last())
    }
}

/// A tree built from a root and `n` boxes added one after the other flattens to
/// `n + 1` records: those of the added boxes in the order they were added, then
/// that of the root.
pub proof fn flatten_follows_insertion_order(root: RectangleModel, added: Seq<RectangleModel>)
    ensures
        records(built(root, added)).len() == added.len() + 1,
        forall|i: int|
            0 <= i < added.len() ==> #[trigger] records(built(root, added))[i] == instance_of(
                added[i],
            ),
        records(built(root, added)).last() == instance_of(root),
    decreases added.len(),
{
    let t = built(root, added);
    if added.len() == 0 {
        assert(t.children =~= Seq::<RectangleModel>::empty());
    } else {
        flatten_follows_insertion_order(root, added.drop_last());
        let prev = built(root, added.drop_last());
        assert(t.children =~= prev.children.push(added.last()));
        assert(prev.children =~= added.drop_last()) by {
            built_children(root, added.drop_last());
        }
    }
    built_children(root, added);
}

/// The children of a built tree are the added boxes, and its root is the root.
pub proof fn built_children(root: RectangleModel, added: Seq<RectangleModel>)
    ensures
        built(root, added).children =~= added,
        built(root, added).root == root,
    decreases added.len(),
{
    if added.len() > 0 {
        built_children(root, added.drop_last());
        assert(added.drop_last().push(added.last()) =~= added);
    }
}

/// A box of the demo scene: `size × size` at `(x, y)`, filled with `color`,
/// with the same radius `radius` on every corner.
pub open spec fn demo_square(x: i32, y: i32, size: i32, color: [u8; 4], radius: i32) -> RectangleModel {
    RectangleModel {
        x,
        y,
        width: size,
        height: size,
        color,
        background_color: premultiplied(color),
        border: Border {
            radius: BorderRadius { top_left: radius, top_right: radius, bottom_left: radius, bottom_right: radius },
            ..default_border()
        },
        ..default_model()
    }
}

/// A yellow shadow 10 pixels below the box, 30 pixels soft.
pub open spec fn demo_shadow() -> BoxShadow {
    BoxShadow { x_offset: 0, y_offset: 10, softness: 30, color: [255u8, 255u8, 0u8, 255u8], inset: false }
}

/// The green box with a yellow border of uneven width and a red outline set
/// 50 pixels off it.
pub open spec fn demo_outlined() -> RectangleModel {
    let base = demo_square(100, 500, 100, [0u8, 255u8, 0u8, 255u8], 10);
    RectangleModel {
        border: Border {
            size: BorderSize { top: 0, right: 5, bottom: 10, left: 15 },
            color: [255u8, 255u8, 0u8, 255u8],
            ..base.border
        },
        outline: Outline { width: 5, offset: 50, color: [255u8, 0u8, 0u8, 255u8], ..default_outline() },
        box_shadow: demo_shadow(),
        ..base
    }
}

/// The boxes of the demo scene, in drawing order.
pub open spec fn demo_models() -> Seq<RectangleModel> {
    let blue = demo_square(100, 700, 100, [0u8, 0u8, 255u8, 255u8], 0);
    let red = demo_square(200, 100, 300, [255u8, 0u8, 0u8, 255u8], 10);
    let green = demo_square(10, 100, 100, [0u8, 255u8, 0u8, 255u8], 55);
    seq![
        RectangleModel {
            border: Border {
                radius: BorderRadius { top_left: 0, top_right: 10, bottom_left: 50, bottom_right: 30 },
                size: BorderSize { top: 2, right: 2, bottom: 2, left: 2 },
                color: [255u8, 255u8, 255u8, 255u8],
                ..blue.border
            },
            ..blue
        },
        red,
        RectangleModel { box_shadow: demo_shadow(), ..green },
        demo_outlined(),
        demo_outlined(),
    ]
}

fn demo_outlined_box() -> (r: Rectangle)
    ensures
        r@ == demo_outlined(),
{
    Rectangle::default()
        .set_background_color(0, 255, 0, 255)
        .set_size(100, 100)
        .set_coordinates(100, 500)
        .set_border_radius(10, 10, 10, 10)
        .set_border_size(0, 5, 10, 15)
        .set_border_color(255, 255, 0, 255)
        .set_outline_width(5)
        .set_outline_color(255, 0, 0, 255)
        .set_outline_offset(50)
        .set_boxshadow_offset(0, 10)
        .set_boxshadow_color(255, 255, 0, 255)
        .set_boxshadow_softness(30)
}

/// Adds the demo scene's boxes to the children of `tree`, after those it has.
pub fn add_demo_boxes(tree: &mut Tree)
    ensures
        final(tree)@ == (TreeModel { children: old(tree)@.children + demo_models(), ..old(tree)@ }),
        final(tree).data == old(tree).data,
{
    tree.add_child(
        Rectangle::default()
            .set_background_color(0, 0, 255, 255)
            .set_size(100, 100)
            .set_coordinates(100, 700)
            .set_border_radius(0, 10, 30, 50)
            .set_border_color(255, 255, 255, 255)
            .set_border_size(2, 2, 2, 2),
    );
    tree.add_child(
        Rectangle::default()
            .set_background_color(255, 0, 0, 255)
            .set_size(300, 300)
            .set_coordinates(200, 100)
            .set_border_radius(10, 10, 10, 10),
    );
    tree.add_child(
        Rectangle::default()
            .set_background_color(0, 255, 0, 255)
            .set_size(100, 100)
            .set_coordinates(10, 100)
            .set_border_radius(55, 55, 55, 55)
            .set_boxshadow_offset(0, 10)
            .set_boxshadow_color(255, 255, 0, 255)
            .set_boxshadow_softness(30),
    );
    tree.add_child(demo_outlined_box());
    tree.add_child(demo_outlined_box());
    assert(tree@.children =~= old(tree)@.children + demo_models());
}

impl Tree {
    pub fn new(rectangle: Rectangle) -> (r: Self)
        ensures
            r@ == built(rectangle@, Seq::empty()),
            r.data == rectangle,
            r.children@.len() == 0,
    {
        let r = Tree { data: rectangle, children: Vec::new() };
        assert(r@.children =~= Seq::<RectangleModel>::empty());
        r
    }

    /// Appends a box to the children.
    pub fn add_child(&mut self, rectangle: Rectangle)
        ensures
            final(self)@ == with_child(old(self)@, rectangle@),
            final(self).data == old(self).data,
            final(self).children@.len() == old(self).children@.len() + 1,
            final(self).children@.drop_last() == old(self).children@,
            final(self).children@.last().data == rectangle,
            final(self).children@.last().children@.len() == 0,
    {
        let node = Node { data: rectangle, children: Vec::new() };
        self.children.push(node);
        assert(self@.children =~= old(self)@.children.push(rectangle@));
        assert(self.children@.drop_last() =~= old(self).children@);
    }

    /// One instance record per child, in the order the children were added,
    /// followed by the record of the root.
    pub fn flatten(&self) -> (r: Vec<Instance>)
        ensures
            r@ == records(self@),
            r@.len() == self.children@.len() + 1,
            r@.last() == instance_of(self.data@),
    {
        let mut out: Vec<Instance> = Vec::new();
        let mut i: usize = 0;
        while i < self.children.len()
            invariant
                i <= self.children@.len(),
                out@ =~= self.children@.take(i as int).map_values(|n: Node| instance_of(n.data@)),
            decreases self.children@.len() - i,
        {
            let record = self.children[i].data.get_instance();
            out.push(record);
            i += 1;
            assert(self.children@.take(i as int) =~= self.children@.take(i - 1).push(self.children@[i - 1]));
        }
        out.push(self.data.get_instance());
        assert(self.children@.take(i as int) =~= self.children@);
        assert(out@ =~= records(self@));
        out
    }
}

} // verus!
