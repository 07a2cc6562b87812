use egui_plot_core::aesthetics::{MarkerShape, Orientation};
use egui_plot_core::axis::Axis;
use egui_plot_core::color::Color32;
use egui_plot_core::colormap::uniform_keypoint_colors;
use egui_plot_core::grid::{log_marks, LogGridMark};
use egui_plot_core::heatmap::{heatmap_shape, tile_cell, HeatmapShape};
use egui_plot_core::legend::{
    handle_focus_on_legend_item, handle_interaction_on_legend_item, ColorConflictHandling, Legend,
    LegendEntry, LegendItem, LegendWidget,
};
use egui_plot_core::hit::{closest_index, closest_item, HoverCandidate};
use egui_plot_core::items::PlotItemBase;
use egui_plot_core::link::LinkGroups;
use egui_plot_core::pins::apply_pin_keys;
use egui_plot_core::placement::{Corner, HPlacement, Placement, VPlacement};
use egui_plot_core::sanitize::{axis_repair, AxisRepair, RESET_HALF_EXTENT};
use egui_plot_core::truncate::find_name_candidate;

fn item(id: u64, name: &str, color: Color32) -> LegendItem {
    LegendItem {
        id,
        name: name.to_string(),
        color,
    }
}

fn red() -> Color32 {
    Color32::from_rgb(255, 0, 0)
}

fn green() -> Color32 {
    Color32::from_rgb(0, 255, 0)
}

fn blue() -> Color32 {
    Color32::from_rgb(0, 0, 255)
}

fn names(w: &LegendWidget) -> Vec<String> {
    w.entries.iter().map(|e| e.name.clone()).collect()
}

#[test]
fn placement_conversions() {
    assert_eq!(Placement::from(HPlacement::Left), Placement::LeftBottom);
    assert_eq!(Placement::from(HPlacement::Right), Placement::RightTop);
    assert_eq!(Placement::from(VPlacement::Top), Placement::RightTop);
    assert_eq!(Placement::from(VPlacement::Bottom), Placement::LeftBottom);
    assert_eq!(HPlacement::from(Placement::LeftBottom), HPlacement::Left);
    assert_eq!(HPlacement::from(Placement::RightTop), HPlacement::Right);
    assert_eq!(VPlacement::from(Placement::LeftBottom), VPlacement::Bottom);
    assert_eq!(VPlacement::from(Placement::RightTop), VPlacement::Top);
}

#[test]
fn corner_all_lists_four_corners() {
    assert_eq!(
        Corner::all(),
        vec![Corner::LeftTop, Corner::RightTop, Corner::LeftBottom, Corner::RightBottom]
    );
}

#[test]
fn marker_shapes_all() {
    let all = MarkerShape::all();
    assert_eq!(all.len(), 10);
    assert_eq!(all[0], MarkerShape::Circle);
    assert_eq!(all[9], MarkerShape::Asterisk);
    for (i, a) in all.iter().enumerate() {
        for b in &all[i + 1..] {
            assert_ne!(a, b);
        }
    }
}

#[test]
fn orientation_defaults_to_vertical() {
    assert_eq!(Orientation::default(), Orientation::Vertical);
}

#[test]
fn axis_index() {
    assert_eq!(usize::from(Axis::X), 0);
    assert_eq!(usize::from(Axis::Y), 1);
}

#[test]
fn legend_sorted_by_name_by_default() {
    let items = vec![
        item(1, "sin", red()),
        item(2, "", green()),
        item(3, "cos", blue()),
        item(4, "Zeta", red()),
    ];
    let w = LegendWidget::try_new(Legend::default(), &items, &vec![]).unwrap();
    assert_eq!(names(&w), vec!["Zeta", "cos", "sin"]);
    assert!(w.entries.iter().all(|e| e.checked && !e.hovered));
}

#[test]
fn legend_follows_insertion_order() {
    let items = vec![item(1, "sin", red()), item(3, "cos", blue()), item(5, "sin", red())];
    let config = Legend::default().follow_insertion_order(true);
    let w = LegendWidget::try_new(config, &items, &vec![]).unwrap();
    assert_eq!(names(&w), vec!["sin", "cos"]);
    assert_eq!(w.entries[0].id, 1);
    assert_eq!(w.entries[0].color, red());
}

#[test]
fn legend_without_named_items_is_none() {
    let items = vec![item(1, "", red())];
    assert!(LegendWidget::try_new(Legend::default(), &items, &vec![]).is_none());
    assert!(LegendWidget::try_new(Legend::default(), &vec![], &vec![]).is_none());
}

#[test]
fn legend_color_conflicts() {
    let items = vec![item(1, "a", red()), item(2, "a", green()), item(3, "a", blue())];
    let pick = |h: ColorConflictHandling| {
        let config = Legend::default().color_conflict_handling(h);
        LegendWidget::try_new(config, &items, &vec![]).unwrap().entries[0].color
    };
    assert_eq!(pick(ColorConflictHandling::PickFirst), red());
    assert_eq!(pick(ColorConflictHandling::PickLast), blue());
    assert_eq!(pick(ColorConflictHandling::RemoveColor), Color32::transparent());

    let same = vec![item(1, "a", red()), item(2, "a", red())];
    let w = LegendWidget::try_new(Legend::default(), &same, &vec![]).unwrap();
    assert_eq!(w.entries.len(), 1);
    assert_eq!(w.entries[0].color, red());
}

#[test]
fn legend_hidden_items() {
    let items = vec![item(1, "a", red()), item(2, "b", green()), item(3, "c", blue())];
    let w = LegendWidget::try_new(Legend::default(), &items, &vec![2, 9]).unwrap();
    assert_eq!(w.hidden_items(), vec![2]);

    // The legend's own override wins over what the plot remembers.
    let config = Legend::default().hidden_items(vec![1, 3]);
    let w = LegendWidget::try_new(config, &items, &vec![2]).unwrap();
    assert_eq!(w.hidden_items(), vec![1, 3]);
    assert_eq!(w.hovered_item(), None);
}

#[test]
fn legend_interaction_and_hover() {
    let items = vec![item(1, "a", red()), item(2, "b", green())];
    let mut w = LegendWidget::try_new(Legend::default(), &items, &vec![]).unwrap();
    handle_interaction_on_legend_item(true, true, &mut w.entries[1]);
    assert!(!w.entries[1].checked);
    assert_eq!(w.hovered_item(), Some(2));
    handle_interaction_on_legend_item(true, false, &mut w.entries[1]);
    assert!(w.entries[1].checked);
    handle_interaction_on_legend_item(false, false, &mut w.entries[1]);
    assert!(w.entries[1].checked);
    assert_eq!(w.hovered_item(), None);
}

fn entry(id: u64, checked: bool) -> LegendEntry {
    LegendEntry {
        id,
        name: format!("item{id}"),
        color: red(),
        checked,
        hovered: false,
    }
}

#[test]
fn legend_focus_shows_only_clicked_then_all() {
    let mut es = vec![entry(1, true), entry(2, true), entry(3, false)];
    handle_focus_on_legend_item(2, &mut es);
    assert_eq!(es.iter().map(|e| e.checked).collect::<Vec<_>>(), vec![false, true, false]);
    handle_focus_on_legend_item(2, &mut es);
    assert_eq!(es.iter().map(|e| e.checked).collect::<Vec<_>>(), vec![true, true, true]);
}

#[test]
fn heatmap_shapes() {
    assert_eq!(heatmap_shape(6, 3), HeatmapShape { cols: 3, rows: 2 });
    assert_eq!(heatmap_shape(6, 0), HeatmapShape { cols: 0, rows: 0 });
    assert_eq!(heatmap_shape(0, 3), HeatmapShape { cols: 0, rows: 0 });
    assert_eq!(heatmap_shape(7, 3), HeatmapShape { cols: 0, rows: 0 });
    assert_eq!(tile_cell(7, 3), (1, 2));
    assert_eq!(tile_cell(0, 3), (0, 0));
}

#[test]
fn uniform_colormap_keypoints() {
    assert_eq!(
        uniform_keypoint_colors(vec![]),
        vec![Color32::transparent(), Color32::transparent()]
    );
    assert_eq!(uniform_keypoint_colors(vec![red()]), vec![red(), red()]);
    assert_eq!(uniform_keypoint_colors(vec![red(), green(), blue()]), vec![red(), green(), blue()]);
}

#[test]
fn link_groups_last_writer_wins() {
    let mut groups: LinkGroups<i32> = LinkGroups::new();
    assert_eq!(groups.read(7), None);
    groups.write(7, 1);
    groups.write(8, 5);
    groups.write(7, 2);
    assert_eq!(groups.read(7), Some(&2));
    assert_eq!(groups.read(8), Some(&5));
    assert_eq!(groups.remove(8), Some(5));
    assert_eq!(groups.read(8), None);
}

#[test]
fn name_candidates() {
    let fits = |s: &str| s.chars().count() <= 6;
    assert_eq!(find_name_candidate("short", &fits), "short");
    assert_eq!(find_name_candidate("", &fits), "");
    assert_eq!(find_name_candidate("a longer name", &fits), "a l...");
    let narrow = |s: &str| s.chars().count() <= 3;
    assert_eq!(find_name_candidate("abcdef", &narrow), "");
    let seven = |s: &str| s.chars().count() <= 7;
    assert_eq!(find_name_candidate("abcdefgh", &seven), "abcd...");
    assert_eq!(find_name_candidate("ab", &|_: &str| false), "");
}

#[test]
fn color_constructors() {
    let c = Color32::from_rgba_premultiplied(1, 2, 3, 4);
    assert_eq!(c.to_array(), [1, 2, 3, 4]);
    assert_eq!(Color32::from_rgb(9, 8, 7).to_array(), [9, 8, 7, 255]);
    assert_eq!(Color32::transparent().to_array(), [0, 0, 0, 0]);
}

#[test]
fn pin_hotkeys() {
    let mut pins = vec![1, 2];
    assert!(apply_pin_keys(&mut pins, Some(3), false, false));
    assert_eq!(pins, vec![1, 2, 3]);
    // Pin and unpin in one frame: the new pin is dropped again.
    assert!(apply_pin_keys(&mut pins, Some(4), true, false));
    assert_eq!(pins, vec![1, 2, 3]);
    assert!(apply_pin_keys(&mut pins, None, true, false));
    assert_eq!(pins, vec![1, 2]);
    assert!(!apply_pin_keys(&mut pins, None, false, false));
    assert_eq!(pins, vec![1, 2]);
    assert!(apply_pin_keys(&mut pins, Some(5), false, true));
    assert!(pins.is_empty());
    assert!(apply_pin_keys(&mut pins, None, true, false));
    assert!(pins.is_empty());
}

#[test]
fn axis_repair_policy() {
    assert_eq!(axis_repair(false, false, false), AxisRepair::ResetSymmetric);
    assert_eq!(RESET_HALF_EXTENT, 1);
    assert_eq!(axis_repair(false, true, true), AxisRepair::ResetSymmetric);
    assert_eq!(axis_repair(true, true, false), AxisRepair::Keep);
    assert_eq!(axis_repair(true, false, true), AxisRepair::CenterWithOtherExtent);
    assert_eq!(axis_repair(true, false, false), AxisRepair::CenterWithUnitExtent);
}

#[test]
fn legend_names_sort_by_bytes() {
    let items = vec![item(1, "b", red()), item(2, "ä", red()), item(3, "B", red()), item(4, "a", red())];
    let w = LegendWidget::try_new(Legend::default(), &items, &vec![]).unwrap();
    assert_eq!(names(&w), vec!["B", "a", "b", "ä"]);
}

#[test]
fn legend_builders() {
    let l = Legend::default();
    assert_eq!(l.position, Corner::RightTop);
    assert!(!l.follow_insertion_order);
    assert_eq!(l.color_conflict_handling, ColorConflictHandling::RemoveColor);
    assert!(l.hidden_items.is_none());
    let l = l.position(Corner::LeftBottom).hidden_items(vec![4]);
    assert_eq!(l.position, Corner::LeftBottom);
    assert_eq!(l.hidden_items, Some(vec![4]));
}

#[test]
fn item_base_identified_by_name() {
    let mut a = PlotItemBase::new("sine".to_string());
    let b = PlotItemBase::new("sine".to_string());
    let c = PlotItemBase::new("cosine".to_string());
    assert_eq!(a.name(), "sine");
    assert_eq!(a.id(), b.id());
    assert_ne!(a.id(), c.id());
    assert_eq!(a.id(), egui::Id::new("sine").value());
    assert!(a.allow_hover());
    assert!(!a.highlighted());
    a.highlight();
    a.set_allow_hover(false);
    assert!(a.highlighted());
    assert!(!a.allow_hover());
}

#[test]
fn log_marks_example_range() {
    // Steps 0.01, 0.1 and 1.0 over (2.855, 3.015), counted in hundredths.
    let unit = 0.01f64;
    let first = (2.855f64 / unit).ceil() as i64;
    let last = (3.015f64 / unit).ceil() as i64;
    assert_eq!((first, last), (286, 302));
    let marks = log_marks(first, last, 10);
    assert_eq!(marks.len(), 16);
    let steps = [0.01, 0.1, 1.0];
    let expected = [
        (2.86, 0.01), (2.87, 0.01), (2.88, 0.01), (2.89, 0.01), (2.90, 0.1), (2.91, 0.01),
        (2.92, 0.01), (2.93, 0.01), (2.94, 0.01), (2.95, 0.01), (2.96, 0.01), (2.97, 0.01),
        (2.98, 0.01), (2.99, 0.01), (3.00, 1.0), (3.01, 0.01),
    ];
    for (m, (value, step)) in marks.iter().zip(expected) {
        assert!((m.units as f64 * unit - value).abs() < 1e-10);
        assert_eq!(steps[m.class as usize], step);
    }
    assert_eq!(marks.iter().filter(|m| m.units == 300).count(), 1);
    assert_eq!(marks[14], LogGridMark { units: 300, class: 2 });
}

#[test]
fn log_marks_coincident_marks_take_coarsest_class() {
    let marks = log_marks(-200, 201, 10);
    assert_eq!(marks.len(), 401);
    assert_eq!(marks[0], LogGridMark { units: -200, class: 2 });
    assert_eq!(marks[90], LogGridMark { units: -110, class: 1 });
    assert_eq!(marks[199], LogGridMark { units: -1, class: 0 });
    assert_eq!(marks[200], LogGridMark { units: 0, class: 2 });
    assert_eq!(marks[400], LogGridMark { units: 200, class: 2 });
    assert_eq!(log_marks(0, 9, 2).iter().map(|m| m.class).collect::<Vec<_>>(), vec![2, 0, 1, 0, 2, 0, 1, 0, 2]);
    assert!(log_marks(5, 5, 10).is_empty());
}

#[test]
fn hit_test_nearest() {
    assert_eq!(closest_index(&vec![]), None);
    assert_eq!(closest_index(&vec![7, 3, 9, 3]), Some(1));
    let key = |d: f32| d.to_bits();
    assert_eq!(closest_index(&vec![key(4.0), key(0.25), key(1.0)]), Some(1));

    assert_eq!(closest_item(&vec![]), None);
    let c = |allow_hover: bool, nearest: Option<u32>| HoverCandidate { allow_hover, nearest };
    assert_eq!(closest_item(&vec![c(false, Some(1)), c(true, None)]), None);
    assert_eq!(closest_item(&vec![c(false, Some(1)), c(true, Some(5)), c(true, Some(2)), c(true, Some(2))]), Some(2));
}
