use geomath::polygon::{CreatePolygonError, Polygon};

#[test]
fn polygon_rejects_empty_list() {
    let r: Result<Polygon<i32>, _> = Polygon::new(vec![]);

    assert!(matches!(r, Err(CreatePolygonError::ListOfPointsTooShort { length: 0 })));
}

#[test]
fn polygon_rejects_two_points() {
    let r = Polygon::new(vec![1, 2]);

    assert!(matches!(r, Err(CreatePolygonError::ListOfPointsTooShort { length: 2 })));
}

#[test]
fn polygon_accepts_three_points() {
    let r = Polygon::new(vec![1, 2, 3]);

    assert!(r.is_ok());
}

#[test]
fn polygon_decomposes_into_consecutive_lines() {
    let p = Polygon::new(vec![10, 20, 30, 40]).unwrap();

    let lines = p.lines();
    assert_eq!(lines.len(), 3);
    let mut starts: Vec<i32> = Vec::new();
    for line in &lines {
        starts.push(*line.x0());
    }
    assert_eq!(starts, vec![10, 20, 30]);
}
