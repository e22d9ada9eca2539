use rpg_engine::pathfinding::{
    find_path, find_path_detailed, search_bounds, GridPos, PathfindDiagnostics, SearchGrid,
};

/// World positions on the x/z plane, as the game passes them.
type Pos = (f32, f32);

fn to_grid(p: Pos, grid_size: f32) -> GridPos {
    GridPos { x: (p.0 / grid_size).floor() as i32, z: (p.1 / grid_size).floor() as i32 }
}

fn cell_center(c: i32, grid_size: f32) -> f32 {
    c as f32 * grid_size + grid_size * 0.5
}

/// The world-space front end of the detailed search: cells from positions,
/// walkability sampled at cell centers, waypoints at cell centers with the
/// exact goal as the last one when the library says so.
fn detailed(
    start: Pos,
    goal: Pos,
    grid_size: f32,
    walk: impl Fn(Pos) -> bool,
) -> (Option<Vec<Pos>>, PathfindDiagnostics) {
    let s = to_grid(start, grid_size);
    let g = to_grid(goal, grid_size);
    let (lo, hi) = search_bounds(s, g);
    let cells: Vec<Vec<bool>> = (lo.x..=hi.x)
        .map(|x| {
            (lo.z..=hi.z)
                .map(|z| walk((cell_center(x, grid_size), cell_center(z, grid_size))))
                .collect()
        })
        .collect();
    let grid = SearchGrid { min_x: lo.x, min_z: lo.z, cells, check_corners: true };
    let result = find_path_detailed(s, g, walk(start), walk(goal), &grid);
    let exact = result.ends_at_exact_goal();
    let path = result.path.map(|cells| {
        let mut waypoints: Vec<Pos> = cells
            .iter()
            .map(|c| (cell_center(c.x, grid_size), cell_center(c.z, grid_size)))
            .collect();
        if exact {
            if let Some(last) = waypoints.last_mut() {
                *last = goal;
            }
        }
        waypoints
    });
    (path, result.diagnostics)
}

fn open_world(_: Pos) -> bool {
    true
}

#[test]
fn detailed_pathfinding_reports_blocked_goal() {
    let (path, diagnostics) = detailed((0.5, 0.5), (2.5, 0.5), 1.0, |p| {
        !(p.0 >= 2.0 && p.0 < 3.0 && p.1 >= 0.0 && p.1 < 1.0)
    });

    assert!(path.is_none());
    assert!(diagnostics.start_walkable);
    assert!(!diagnostics.goal_walkable);
    assert_eq!(diagnostics.start_grid, GridPos { x: 0, z: 0 });
    assert_eq!(diagnostics.goal_grid, GridPos { x: 2, z: 0 });
    assert_eq!(diagnostics.expanded_nodes, 0);
}

#[test]
fn pathfinding_supports_long_paths_beyond_old_search_cap() {
    let path = detailed((0.5, 0.5), (60.5, 0.5), 1.0, open_world)
        .0
        .expect("expected an open-world path");

    assert!(path.len() > 50, "expected many waypoints for a long path");
    let last = *path.last().expect("path should contain a goal waypoint");
    assert!((last.0 - 60.5).abs() < 0.01);
    assert!((last.1 - 0.5).abs() < 0.01);
}

#[test]
fn pathfinding_returns_goal_in_open_space() {
    let path = detailed((0.5, 0.5), (5.5, 5.5), 1.0, open_world)
        .0
        .expect("expected a path through open space");

    assert!(path.len() >= 2);
    let last = *path.last().expect("path should contain a goal waypoint");
    assert!((last.0 - 5.5).abs() < 0.01);
    assert!((last.1 - 5.5).abs() < 0.01);
}

#[test]
fn pathfinding_rejects_diagonal_corner_cutting() {
    let (path, _) = detailed((0.5, 0.5), (1.5, 1.5), 1.0, |p| {
        let blocked_x = p.0 >= 1.0 && p.0 < 2.0 && p.1 >= 0.0 && p.1 < 1.0;
        let blocked_z = p.0 >= 0.0 && p.0 < 1.0 && p.1 >= 1.0 && p.1 < 2.0;
        !(blocked_x || blocked_z)
    });

    assert!(path.is_none(), "diagonal corner cut should be rejected");
}

#[test]
fn detailed_search_reports_unwalkable_start_without_searching() {
    let (path, diagnostics) = detailed((0.5, 0.5), (3.5, 0.5), 1.0, |p| p.0 > 1.0);
    assert!(path.is_none());
    assert!(!diagnostics.start_walkable);
    assert_eq!(diagnostics.expanded_nodes, 0);
    assert_eq!(diagnostics.min_search_grid, GridPos { x: 0, z: 0 });
    assert_eq!(diagnostics.max_search_grid, GridPos { x: 3, z: 0 });
}

#[test]
fn detailed_search_path_starts_at_start_and_steps_to_neighbours() {
    let (path, diagnostics) = detailed((0.5, 0.5), (4.5, 2.5), 1.0, |p| {
        !(p.0 >= 2.0 && p.0 < 3.0 && p.1 < 2.0)
    });
    let path = path.expect("a way around the wall exists inside the box");
    assert_eq!(path[0], (0.5, 0.5));
    assert_eq!(*path.last().unwrap(), (4.5, 2.5));
    for w in path.windows(2) {
        assert!((w[1].0 - w[0].0).abs() <= 1.0 && (w[1].1 - w[0].1).abs() <= 1.0);
        assert!(!(w[1].0 >= 2.0 && w[1].0 < 3.0 && w[1].1 < 2.0));
    }
    assert!(diagnostics.expanded_nodes > 0);
}

#[test]
fn detailed_search_falls_back_to_closest_cell_when_goal_is_walled_off() {
    // The goal's cell is open but the column before it is blocked across
    // the whole search box, so the search heads for the closest cell met.
    let (path, _) = detailed((0.5, 0.5), (3.5, 0.5), 1.0, |p| !(p.0 >= 2.0 && p.0 < 3.0));
    let path = path.expect("falls back to the closest reachable cell");
    assert_eq!(*path.last().unwrap(), (1.5, 0.5));
}

#[test]
fn grid_path_clamps_endpoints_and_may_cut_corners() {
    let mut walk = vec![vec![true; 3]; 3];
    walk[1][0] = false;
    walk[0][1] = false;
    let path = find_path(walk, GridPos { x: -5, z: -5 }, GridPos { x: 1, z: 1 })
        .expect("without the corner rule the diagonal step is allowed");
    assert_eq!(path, vec![GridPos { x: 0, z: 0 }, GridPos { x: 1, z: 1 }]);
}

#[test]
fn grid_path_none_when_goal_is_enclosed() {
    let mut walk = vec![vec![true; 4]; 4];
    for (x, z) in [(2, 2), (2, 3), (3, 2)] {
        walk[x][z] = false;
    }
    walk[3][3] = true;
    assert!(find_path(walk, GridPos { x: 0, z: 0 }, GridPos { x: 3, z: 3 }).is_none());
}

#[test]
fn grid_clamp_keeps_cells_inside() {
    assert_eq!(GridPos { x: -1, z: 9 }.clamp(4, 5), GridPos { x: 0, z: 4 });
    assert_eq!(GridPos { x: 2, z: 3 }.clamp(4, 5), GridPos { x: 2, z: 3 });
}

#[test]
fn detailed_search_goes_around_a_blocked_corner_without_revisiting() {
    let (path, diagnostics) = detailed((0.5, 0.5), (1.5, 1.5), 1.0, |p| {
        !(p.0 >= 1.0 && p.0 < 2.0 && p.1 >= 0.0 && p.1 < 1.0)
    });
    assert!(diagnostics.start_walkable && diagnostics.goal_walkable);
    assert_eq!(path, Some(vec![(0.5, 0.5), (0.5, 1.5), (1.5, 1.5)]));
}
