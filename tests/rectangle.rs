use statusbar::buffers::Instance;
use statusbar::rectangle::{premultiply, BorderStyle, BoxSizing, Extents, OutlineStyle, Rectangle};

fn styled_box(sizing: BoxSizing) -> Rectangle {
    Rectangle::default()
        .set_coordinates(10, 20)
        .set_size(30, 40)
        .set_box_sizing(sizing)
        .set_padding(1, 2, 3, 4)
        .set_border_size(5, 6, 7, 8)
}

#[test]
fn content_box_extents_add_padding_and_border() {
    let e = styled_box(BoxSizing::ContentBox).get_extents();
    // width: 30 + left 4 + right 2 + border left 8 + border right 6
    // height: 40 + top 1 + bottom 3 + border top 5 + border bottom 7
    assert_eq!(e, Extents { x: 10, y: 20, width: 50, height: 56 });
}

#[test]
fn border_box_extents_keep_size() {
    let e = styled_box(BoxSizing::BorderBox).get_extents();
    assert_eq!(e, Extents { x: 10, y: 20, width: 30, height: 40 });
}

#[test]
fn default_box_is_one_pixel_content_box() {
    let e = Rectangle::default().get_extents();
    assert_eq!(e, Extents { x: 0, y: 0, width: 1, height: 1 });
}

#[test]
fn extents_ignore_outline_and_decoration() {
    let plain = styled_box(BoxSizing::ContentBox).get_extents();
    let decorated = styled_box(BoxSizing::ContentBox)
        .set_outline_width(9)
        .set_outline_offset(3)
        .set_boxshadow_offset(4, 4)
        .set_boxshadow_softness(12)
        .set_blur(5)
        .set_rotate(45)
        .get_extents();
    assert_eq!(plain, decorated);
}

#[test]
fn negative_size_gives_degenerate_rectangle() {
    let e = Rectangle::default().set_size(-5, 0).set_box_sizing(BoxSizing::BorderBox).get_extents();
    assert_eq!(e.width, -5);
    assert_eq!(e.height, 0);
}

#[test]
fn background_color_is_premultiplied() {
    let r = Rectangle::default().set_background_color(200, 100, 50, 128);
    // 200·128/255 = 100.4, 100·128/255 = 50.2, 50·128/255 = 25.1
    assert_eq!(r.background_color(), [100, 50, 25, 128]);
    assert_eq!(r.get_instance().color, [100, 50, 25, 128]);
}

#[test]
fn premultiply_rounds_to_nearest() {
    // 255·128/255 = 128 exactly; 3·128/255 = 1.506 rounds up to 2
    assert_eq!(premultiply([255, 3, 1, 128]), [128, 2, 1, 128]);
}

#[test]
fn opaque_premultiply_keeps_channels() {
    let r = Rectangle::default().set_background_color(10, 20, 30, 255);
    assert_eq!(r.background_color(), [10, 20, 30, 255]);
    let again = premultiply(r.background_color());
    assert_eq!(again, [10, 20, 30, 255]);
}

#[test]
fn zero_alpha_premultiplies_to_black() {
    let r = Rectangle::default().set_background_color(255, 255, 255, 0);
    assert_eq!(r.background_color(), [0, 0, 0, 0]);
}

#[test]
fn opacity_replaces_alpha_of_authored_color() {
    let r = Rectangle::default().set_background_color(200, 100, 50, 255).set_opacity(128);
    assert_eq!(r.background_color(), [100, 50, 25, 128]);
    let back = r.set_opacity(255);
    assert_eq!(back.background_color(), [200, 100, 50, 255]);
}

#[test]
fn instance_rect_grows_by_outline() {
    let r = styled_box(BoxSizing::ContentBox).set_outline_width(5).set_outline_offset(2);
    let i = r.get_instance();
    // extents (10, 20, 50, 56) grown by 7 on every side
    assert_eq!(i.dimensions, [3, 13, 64, 70]);
    assert_eq!(i.outline, [5, 2]);
}

#[test]
fn instance_without_outline_matches_extents() {
    let r = styled_box(BoxSizing::BorderBox);
    assert_eq!(r.get_instance().dimensions, [10, 20, 30, 40]);
}

#[test]
fn instance_packs_fields_in_order() {
    let r = Rectangle::default()
        .set_border_radius(1, 2, 3, 4)
        .set_border_size(5, 6, 7, 8)
        .set_border_color(9, 10, 11, 12)
        .set_border_style(BorderStyle::Dashed)
        .set_outline_color(13, 14, 15, 16)
        .set_outline_style(OutlineStyle::Dotted)
        .set_brightness(20)
        .set_saturate(30)
        .set_contrast(40)
        .set_invert(50)
        .set_grayscale(60)
        .set_sepia(70)
        .set_hue_rotate(80)
        .set_scale(150, 50)
        .set_rotate(90)
        .set_translate([7, -7])
        .set_skew(3, 4);
    let i = r.get_instance();
    let expected = Instance {
        dimensions: [0, 0, 1 + 6 + 8, 1 + 5 + 7],
        color: [0, 0, 0, 0],
        // top-left, top-right, bottom-left, bottom-right; set clockwise
        border_radius: [1, 2, 4, 3],
        border_size: [5, 6, 7, 8],
        border_color: [9, 10, 11, 12],
        outline: [0, 0],
        outline_color: [13, 14, 15, 16],
        filter: [20, 30, 40, 50],
        grayscale: 60,
        scale: [150, 50],
        rotation: 90,
        translate: [7, -7],
        skew: [3, 4],
    };
    assert_eq!(i, expected);
}

#[test]
fn default_instance_has_identity_filters() {
    let i = Rectangle::default().get_instance();
    assert_eq!(i.filter, [0, 100, 100, 0]);
    assert_eq!(i.scale, [100, 100]);
    assert_eq!(i.dimensions, [0, 0, 1, 1]);
}
