use rpg_engine::editor::{click_select, cycle_next, cycle_prev, delete_selected, next_tool, undo, EditorTool};

#[test]
fn tab_cycles_the_tools() {
    assert_eq!(next_tool(EditorTool::Objects), EditorTool::Biomes);
    assert_eq!(next_tool(EditorTool::Biomes), EditorTool::Select);
    assert_eq!(next_tool(EditorTool::Select), EditorTool::Objects);
}

#[test]
fn model_catalog_wraps_both_ways() {
    assert_eq!(cycle_next(0, 3), 1);
    assert_eq!(cycle_next(2, 3), 0);
    assert_eq!(cycle_prev(0, 3), 2);
    assert_eq!(cycle_prev(2, 3), 1);
    assert_eq!(cycle_next(0, 0), 0);
    assert_eq!(cycle_prev(0, 0), 0);
    for i in 0..5 {
        assert_eq!(cycle_prev(cycle_next(i, 5), 5), i);
        assert_eq!(cycle_next(cycle_prev(i, 5), 5), i);
    }
}

#[test]
fn clicks_select_toggle_and_clear() {
    let mut sel = Vec::new();
    click_select(&mut sel, Some((0, 1)), false);
    assert_eq!(sel, vec![(0, 1)]);
    click_select(&mut sel, Some((0, 2)), true);
    assert_eq!(sel, vec![(0, 1), (0, 2)]);
    click_select(&mut sel, Some((0, 1)), false);
    assert_eq!(sel, vec![(0, 1), (0, 2)]);
    click_select(&mut sel, Some((0, 1)), true);
    assert_eq!(sel, vec![(0, 2)]);
    click_select(&mut sel, Some((1, 0)), false);
    assert_eq!(sel, vec![(1, 0)]);
    click_select(&mut sel, None, true);
    assert!(sel.is_empty());
}

#[test]
fn deleting_keeps_unselected_placements_in_order() {
    let mut clusters = vec![vec!["a", "b", "c", "d"], vec!["e", "f"], vec![]];
    let mut sel = vec![(0, 1), (1, 0), (0, 3), (5, 0), (0, 9)];
    delete_selected(&mut clusters, &mut sel);
    assert_eq!(clusters, vec![vec!["a", "c"], vec!["f"], vec![]]);
    assert!(sel.is_empty());
}

#[test]
fn undo_acts_on_the_current_tool() {
    let mut placements = vec![1, 2, 3];
    let mut regions = vec!["r1", "r2"];
    let mut sel = vec![(0, 0)];
    undo(EditorTool::Objects, &mut placements, &mut regions, &mut sel);
    assert_eq!((placements.clone(), regions.clone(), sel.clone()), (vec![1, 2], vec!["r1", "r2"], vec![(0, 0)]));
    undo(EditorTool::Biomes, &mut placements, &mut regions, &mut sel);
    assert_eq!((placements.clone(), regions.clone(), sel.clone()), (vec![1, 2], vec!["r1"], vec![(0, 0)]));
    undo(EditorTool::Select, &mut placements, &mut regions, &mut sel);
    assert!(sel.is_empty());
    let mut empty: Vec<i32> = Vec::new();
    undo(EditorTool::Objects, &mut empty, &mut regions, &mut sel);
    assert!(empty.is_empty());
}

#[test]
fn an_index_named_twice_is_removed_twice() {
    let mut clusters = vec![vec!["a", "b", "c", "d"]];
    let mut sel = vec![(0, 1), (0, 1)];
    delete_selected(&mut clusters, &mut sel);
    assert_eq!(clusters, vec![vec!["a", "d"]]);
    let mut tail = vec![vec!["a", "b"]];
    let mut sel = vec![(0, 1), (0, 1), (0, 1)];
    delete_selected(&mut tail, &mut sel);
    assert_eq!(tail, vec![vec!["a"]]);
}
