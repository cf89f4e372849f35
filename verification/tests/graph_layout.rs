use judo::domain::graph_layout::calculate_graph_layout;
use judo::domain::models::{CommitId, GraphRow};

#[test]
fn test_simple_linear_layout() {
    let mut rows = vec![
        GraphRow {
            commit_id: CommitId("c2".to_string()),
            parents: vec![CommitId("c1".to_string())],
            ..Default::default()
        },
        GraphRow {
            commit_id: CommitId("c1".to_string()),
            parents: vec![CommitId("c0".to_string())],
            ..Default::default()
        },
        GraphRow {
            commit_id: CommitId("c0".to_string()),
            parents: vec![],
            ..Default::default()
        },
    ];

    calculate_graph_layout(&mut rows);

    assert_eq!(rows[0].visual.column, 0);
    assert_eq!(rows[0].visual.active_lanes, vec![true]);
    assert_eq!(rows[0].visual.connector_lanes, vec![true]);
    assert_eq!(rows[0].visual.parent_columns, vec![0]);

    assert_eq!(rows[1].visual.column, 0);
    assert_eq!(rows[1].visual.active_lanes, vec![true]);
    assert_eq!(rows[1].visual.connector_lanes, vec![true]);
    assert_eq!(rows[1].visual.parent_columns, vec![0]);

    assert_eq!(rows[2].visual.column, 0);
    assert_eq!(rows[2].visual.active_lanes, vec![true]);
    assert_eq!(rows[2].visual.connector_lanes, vec![false]);
    assert_eq!(rows[2].visual.parent_columns, Vec::<usize>::new());
}

#[test]
fn test_branch_layout() {
    // c3 (parent c1)
    // c2 (parent c1)
    // c1 (parent c0)
    let mut rows = vec![
        GraphRow {
            commit_id: CommitId("c3".to_string()),
            parents: vec![CommitId("c1".to_string())],
            ..Default::default()
        },
        GraphRow {
            commit_id: CommitId("c2".to_string()),
            parents: vec![CommitId("c1".to_string())],
            ..Default::default()
        },
        GraphRow {
            commit_id: CommitId("c1".to_string()),
            parents: vec![CommitId("c0".to_string())],
            ..Default::default()
        },
    ];

    calculate_graph_layout(&mut rows);

    // c3 starts at lane 0
    assert_eq!(rows[0].visual.column, 0);
    assert_eq!(rows[0].visual.parent_columns, vec![0]);
    // c2 starts at lane 1
    assert_eq!(rows[1].visual.column, 1);
    // c2's parent c1 is already in lane 0 (from c3), so parent_columns should be [0]
    assert_eq!(rows[1].visual.parent_columns, vec![0]);

    // c1 is at lane 0
    assert_eq!(rows[2].visual.column, 0);
}

#[test]
fn merge_row_reaches_both_parent_lanes() {
    let mut rows = vec![
        GraphRow {
            commit_id: CommitId("m".to_string()),
            parents: vec![CommitId("a".to_string()), CommitId("b".to_string())],
            ..Default::default()
        },
        GraphRow {
            commit_id: CommitId("a".to_string()),
            parents: vec![],
            ..Default::default()
        },
        GraphRow {
            commit_id: CommitId("b".to_string()),
            parents: vec![],
            ..Default::default()
        },
    ];
    calculate_graph_layout(&mut rows);
    assert_eq!(rows[0].visual.column, 0);
    assert_eq!(rows[0].visual.parent_columns, vec![0, 1]);
    assert_eq!(rows[0].visual.parent_min, 0);
    assert_eq!(rows[0].visual.parent_max, 1);
    assert_eq!(rows[1].visual.column, 0);
    assert_eq!(rows[2].visual.column, 1);
}

#[test]
fn empty_graph_stays_empty() {
    let mut rows: Vec<GraphRow> = Vec::new();
    calculate_graph_layout(&mut rows);
    assert!(rows.is_empty());
}

fn commit(id: &str, parents: &[&str]) -> GraphRow {
    GraphRow {
        commit_id: CommitId(id.to_string()),
        parents: parents.iter().map(|p| CommitId(p.to_string())).collect(),
        ..Default::default()
    }
}

fn visuals(rows: &[GraphRow]) -> Vec<(usize, Vec<bool>, Vec<bool>, Vec<usize>, usize, usize)> {
    rows.iter()
        .map(|r| {
            let v = &r.visual;
            (
                v.column,
                v.active_lanes.clone(),
                v.connector_lanes.clone(),
                v.parent_columns.clone(),
                v.parent_min,
                v.parent_max,
            )
        })
        .collect()
}

#[test]
fn layout_twice_changes_nothing() {
    let mut rows = vec![
        commit("m", &["a", "b"]),
        commit("x", &["b"]),
        commit("a", &["r"]),
        commit("b", &["r"]),
        commit("r", &[]),
    ];
    calculate_graph_layout(&mut rows);
    let first = visuals(&rows);
    calculate_graph_layout(&mut rows);
    assert_eq!(visuals(&rows), first);
}

#[test]
fn far_parent_keeps_its_lane_and_heads_take_the_lowest_free_lane() {
    let mut rows = vec![
        commit("m", &["a", "b"]),
        commit("h", &["a"]),
        commit("a", &["r"]),
        commit("b", &["r"]),
        commit("r", &[]),
    ];
    calculate_graph_layout(&mut rows);
    // m reserves lane 0 for a and lane 1 for b; the head h takes lane 2.
    assert_eq!(rows[0].visual.parent_columns, vec![0, 1]);
    assert_eq!((rows[0].visual.parent_min, rows[0].visual.parent_max), (0, 1));
    assert_eq!(rows[1].visual.column, 2);
    assert_eq!(rows[1].visual.active_lanes, vec![true, true, true]);
    // b, two rows below m, is drawn in the lane m reserved for it.
    assert_eq!(rows[3].visual.column, 1);
    // a merge's node lane continues because its first parent takes it.
    assert!(rows[0].visual.connector_lanes[0]);
}

#[test]
fn a_new_parent_stays_in_its_child_lane_when_free() {
    let mut rows = vec![
        commit("A", &["Z"]),
        commit("B", &["Y"]),
        commit("Z", &[]),
        commit("Y", &["W"]),
    ];
    calculate_graph_layout(&mut rows);
    assert_eq!(rows[3].visual.column, 1);
    assert_eq!(rows[3].visual.parent_columns, vec![1]);
    assert_eq!(rows[3].visual.connector_lanes, vec![false, true]);
}

#[test]
fn edges_end_in_their_parent_lanes() {
    let mut rows = vec![
        commit("A", &["C", "B"]),
        commit("B", &["D"]),
        commit("C", &["D"]),
        commit("E", &[]),
        commit("D", &[]),
    ];
    calculate_graph_layout(&mut rows);
    // every edge ends where its parent is drawn
    for j in 0..rows.len() {
        for (k, p) in rows[j].parents.iter().enumerate() {
            if let Some(i) = rows.iter().position(|r| r.commit_id == *p) {
                assert_eq!(rows[j].visual.parent_columns[k], rows[i].visual.column);
            }
        }
    }
    // each row's lanes follow from the lanes below the row before it
    assert_eq!(rows[0].visual.active_lanes, vec![true]);
    assert_eq!(rows[1].visual.active_lanes, rows[0].visual.connector_lanes);
    assert_eq!(rows[2].visual.active_lanes, rows[1].visual.connector_lanes);
    // the new head E takes the lowest free lane
    let above = rows[2].visual.connector_lanes.clone();
    let free = above.iter().position(|b| !*b).unwrap_or(above.len());
    assert_eq!(rows[3].visual.column, free);
    for row in &rows {
        let v = &row.visual;
        assert!(v.active_lanes.len() <= v.connector_lanes.len());
        for p in &v.parent_columns {
            assert!(v.connector_lanes[*p]);
        }
        assert_eq!(v.connector_lanes[v.column], v.parent_columns.contains(&v.column));
    }
}
