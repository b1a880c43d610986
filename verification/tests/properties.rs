use rshapes::{
    BoundingBox, Centroid, Circle, Ellipse, Line, Point, PointsInside, Rectangle, Shape,
    ShapeCollection, Triangle, Within, distance_squared,
};

#[test]
fn rectangle_new_normalizes() {
    let corner_pairs = [
        ((0u8, 10u8), (10u8, 0u8)),
        ((10, 0), (0, 10)),
        ((0, 0), (10, 10)),
        ((10, 10), (0, 0)),
    ];
    for ((ax, ay), (bx, by)) in corner_pairs {
        let a = Point::new(ax, ay);
        let b = Point::new(bx, by);
        let rectangle = Rectangle::new(a, b);
        assert_eq!(*rectangle.min(), Point::new(0, 0));
        assert_eq!(*rectangle.max(), Point::new(10, 10));
        assert!(rectangle.min().x <= rectangle.max().x);
        assert!(rectangle.min().y <= rectangle.max().y);
        assert_eq!(rectangle, Rectangle::new(b, a));
    }
}

#[test]
fn line_new_normalizes() {
    let a = Point::new(10, 10);
    let b = Point::new(0, 0);
    let line = Line::new(a, b);
    assert_eq!(line.start, Point::new(0, 0));
    assert_eq!(line.end, Point::new(10, 10));
    assert_eq!(line, Line::new(b, a));

    // equal x: ordered by y
    let line = Line::new(Point::new(5, 9), Point::new(5, 3));
    assert_eq!(line.start, Point::new(5, 3));
    assert_eq!(line.end, Point::new(5, 9));
}

#[test]
fn distance_squared_symmetry_and_values() {
    let a = Point::new(0, 0);
    let b = Point::new(3, 4);
    assert_eq!(distance_squared(&a, &b), 25);
    assert_eq!(distance_squared(&a, &b), distance_squared(&b, &a));
    assert_eq!((distance_squared(&a, &b) as f64).sqrt(), 5.0);

    assert_eq!(distance_squared(&a, &a), 0);
    assert_eq!(distance_squared(&a, &Point::new(1, 1)), 2);
    assert_eq!(distance_squared(&a, &Point::new(1, 0)), 1);
    assert_eq!(distance_squared(&a, &Point::new(0, 1)), 1);
    assert_eq!(distance_squared(&a, &Point::new(255, 255)), 130050);

    let c = Point::new(200, 17);
    let d = Point::new(31, 250);
    assert_eq!(distance_squared(&c, &d), distance_squared(&d, &c));
}

#[test]
fn points_inside_all_within() {
    // every enumerated point satisfies the membership predicate
    let circle = Circle::new(Point::new(5, 5), 3);
    for p in circle.points_inside() {
        assert!(circle.within(&p));
    }
    let ellipse = Ellipse::new(Point::new(7, 3), (4, 2));
    for p in ellipse.points_inside() {
        assert!(ellipse.within(&p));
    }
    let triangle = Triangle::new(Point::new(1, 1), Point::new(9, 2), Point::new(4, 8));
    for p in triangle.points_inside() {
        assert!(triangle.within(&p));
    }
    let collection = ShapeCollection::new(vec![
        Shape::Circle(Circle::new(Point::new(5, 5), 3)),
        Shape::Triangle(Triangle::new(Point::new(1, 1), Point::new(9, 2), Point::new(4, 8))),
    ]);
    for p in collection.points_inside() {
        assert!(collection.within(&p));
    }
}

#[test]
fn within_implies_in_bbox() {
    // scan the whole grid around a few shapes: every point within lies
    // in the bounding box
    let circle = Circle::new(Point::new(3, 3), 5);
    let ellipse = Ellipse::new(Point::new(250, 4), (9, 6));
    let triangle = Triangle::new(Point::new(20, 1), Point::new(3, 17), Point::new(9, 9));
    for x in 0..=255u8 {
        for y in 0..=255u8 {
            let p = Point::new(x, y);
            if circle.within(&p) {
                assert!(circle.bbox().within(&p));
            }
            if ellipse.within(&p) {
                assert!(ellipse.bbox().within(&p));
            }
            if triangle.within(&p) {
                assert!(triangle.bbox().within(&p));
            }
        }
    }
}

#[test]
fn circle_bbox_clamps_to_grid() {
    let cases = [
        ((12u8, 12u8), 10u8, (2u8, 2u8), (22u8, 22u8)),
        ((0, 0), 10, (0, 0), (10, 10)),
        ((255, 0), 10, (245, 0), (255, 10)),
        ((0, 255), 10, (0, 245), (10, 255)),
        ((255, 255), 10, (245, 245), (255, 255)),
    ];
    for ((cx, cy), r, (min_x, min_y), (max_x, max_y)) in cases {
        let bbox = Circle::new(Point::new(cx, cy), r).bbox();
        assert_eq!(*bbox.min(), Point::new(min_x, min_y));
        assert_eq!(*bbox.max(), Point::new(max_x, max_y));
    }
}

#[test]
fn circle_within_cases() {
    let circle = Circle::new(Point::new(0, 0), 10);
    assert!(circle.within(&Point::new(0, 0)));
    assert!(circle.within(&Point::new(1, 0)));
    assert!(circle.within(&Point::new(0, 1)));
    assert!(circle.within(&Point::new(10, 0)));
    assert!(circle.within(&Point::new(0, 10)));
    assert!(!circle.within(&Point::new(10, 10)));
    assert!(!circle.within(&Point::new(11, 0)));
    assert!(!circle.within(&Point::new(0, 11)));
    assert!(!circle.within(&Point::new(11, 11)));
    assert!(!circle.within(&Point::new(255, 255)));
}

#[test]
fn circle_zero_radius() {
    let circle = Circle::new(Point::new(9, 9), 0);
    assert!(circle.within(&Point::new(9, 9)));
    assert!(!circle.within(&Point::new(9, 10)));
    assert_eq!(circle.points_inside(), vec![Point::new(9, 9)]);
}

#[test]
fn ellipse_within_cases() {
    let ellipse = Ellipse::new(Point::new(0, 0), (4, 5));
    assert!(ellipse.within(&Point::new(0, 0)));
    assert!(ellipse.within(&Point::new(2, 2)));
    assert!(!ellipse.within(&Point::new(10, 11)));
    assert!(!ellipse.within(&Point::new(255, 255)));

    let round = Ellipse::new(Point::new(0, 0), (5, 5));
    assert!(round.within(&Point::new(0, 5)));

    let shifted = Ellipse::new(Point::new(5, 5), (4, 3));
    assert!(shifted.within(&Point::new(6, 6)));
    assert!(!shifted.within(&Point::new(10, 10)));
}

#[test]
fn ellipse_boundary_is_inclusive() {
    // (5/13)^2 + (12/13)^2 == 1 exactly: the boundary point counts as
    // within
    let ellipse = Ellipse::new(Point::new(100, 100), (13, 13));
    assert!(ellipse.within(&Point::new(105, 112)));
    assert!(!ellipse.within(&Point::new(105, 113)));
}

#[test]
fn ellipse_degenerate_axis() {
    let flat = Ellipse::new(Point::new(5, 5), (3, 0));
    assert!(flat.within(&Point::new(5, 5)));
    assert!(!flat.within(&Point::new(6, 5)));
    assert_eq!(flat.points_inside(), vec![Point::new(5, 5)]);
}

#[test]
fn ellipse_getters() {
    let ellipse = Ellipse::new(Point::new(1, 2), (7, 9));
    assert_eq!(*ellipse.width(), 7);
    assert_eq!(*ellipse.height(), 9);
}

#[test]
fn rectangle_within_cases() {
    let rectangle = Rectangle::new(Point::new(0, 0), Point::new(10, 10));
    assert!(rectangle.within(&Point::new(0, 0)));
    assert!(rectangle.within(&Point::new(10, 10)));
    assert!(rectangle.within(&Point::new(5, 5)));
    assert!(rectangle.within(&Point::new(0, 5)));
    assert!(rectangle.within(&Point::new(10, 5)));
    assert!(!rectangle.within(&Point::new(11, 5)));
    assert!(!rectangle.within(&Point::new(5, 11)));
    assert!(!rectangle.within(&Point::new(255, 255)));
}

#[test]
fn rectangle_accessors_and_centroid() {
    let rectangle = Rectangle::new(Point::new(0, 0), Point::new(10, 10));
    assert_eq!(rectangle.width(), 10);
    assert_eq!(rectangle.height(), 10);
    assert_eq!(rectangle.centroid(), Point::new(5, 5));
    assert_eq!(rectangle.bbox(), rectangle);

    let unchecked = Rectangle::new_unchecked(Point::new(1, 2), Point::new(3, 4));
    assert_eq!(*unchecked.min(), Point::new(1, 2));
    assert_eq!(*unchecked.max(), Point::new(3, 4));
}

#[test]
fn rectangle_at_grid_edge_enumerates_all() {
    let rectangle = Rectangle::new(Point::new(254, 254), Point::new(255, 255));
    let expected = vec![
        Point::new(254, 254),
        Point::new(254, 255),
        Point::new(255, 254),
        Point::new(255, 255),
    ];
    assert_eq!(rectangle.points_inside(), expected);
}

#[test]
fn triangle_within_cases() {
    let triangle = Triangle::new(Point::new(0, 0), Point::new(10, 0), Point::new(0, 10));
    assert!(triangle.within(&Point::new(0, 0)));
    assert!(!triangle.within(&Point::new(20, 20)));
    assert!(!triangle.within(&Point::new(9, 9)));
    // on the hypotenuse
    assert!(triangle.within(&Point::new(5, 5)));
}

#[test]
fn triangle_centroid_rounds_to_nearest() {
    let triangle = Triangle::new(Point::new(0, 0), Point::new(10, 0), Point::new(0, 10));
    // mean 10/3 = 3.33 rounds to 3
    assert_eq!(triangle.centroid(), Point::new(3, 3));

    // mean 11/3 = 3.67 rounds to 4
    let triangle = Triangle::new(Point::new(0, 0), Point::new(11, 0), Point::new(0, 11));
    assert_eq!(triangle.centroid(), Point::new(4, 4));
}

#[test]
fn triangle_bbox_bumps_high_corner() {
    let triangle = Triangle::new(Point::new(2, 3), Point::new(9, 4), Point::new(5, 8));
    let bbox = triangle.bbox();
    assert_eq!(*bbox.min(), Point::new(2, 3));
    assert_eq!(*bbox.max(), Point::new(10, 9));

    // saturating at the grid edge
    let triangle = Triangle::new(Point::new(250, 250), Point::new(255, 250), Point::new(250, 255));
    assert_eq!(*triangle.bbox().max(), Point::new(255, 255));
}

#[test]
fn degenerate_triangle_membership_stays_on_segment() {
    // all three vertices collinear: only points of the segment are
    // within, not the rest of the carrier line
    let triangle = Triangle::new(Point::new(1, 1), Point::new(3, 3), Point::new(5, 5));
    assert!(triangle.within(&Point::new(2, 2)));
    assert!(!triangle.within(&Point::new(100, 100)));
}

#[test]
fn collection_deduplicates_overlap() {
    let collection = ShapeCollection::new(vec![
        Shape::Rectangle(Rectangle::new(Point::new(0, 0), Point::new(1, 1))),
        Shape::Rectangle(Rectangle::new(Point::new(0, 0), Point::new(1, 1))),
    ]);
    let mut got = collection.points_inside();
    got.sort();
    assert_eq!(
        got,
        vec![Point::new(0, 0), Point::new(0, 1), Point::new(1, 0), Point::new(1, 1)]
    );
}

#[test]
fn empty_collection_aggregates() {
    let collection = ShapeCollection::new(vec![]);
    assert!(collection.points_inside().is_empty());
    assert!(!collection.within(&Point::new(0, 0)));
    // the inverted sentinel corners normalize to the whole grid
    let bbox = collection.bbox();
    assert_eq!(*bbox.min(), Point::new(0, 0));
    assert_eq!(*bbox.max(), Point::new(255, 255));
}

#[test]
fn collection_centroid_truncates() {
    // member centroids (0, 0) and (5, 5): mean 2.5 truncates to 2
    let collection = ShapeCollection::new(vec![
        Shape::Circle(Circle::new(Point::new(0, 0), 1)),
        Shape::Circle(Circle::new(Point::new(5, 5), 1)),
    ]);
    assert_eq!(collection.centroid(), Point::new(2, 2));
}

#[test]
fn collection_accessor() {
    let shapes = vec![Shape::Circle(Circle::new(Point::new(1, 1), 1))];
    let collection = ShapeCollection::new(shapes.clone());
    assert_eq!(collection.shapes(), &shapes);
}

#[test]
fn nested_collection_aggregates() {
    let inner = ShapeCollection::new(vec![
        Shape::Circle(Circle::new(Point::new(40, 40), 2)),
        Shape::Rectangle(Rectangle::new(Point::new(0, 0), Point::new(4, 4))),
    ]);
    let outer = ShapeCollection::new(vec![
        Shape::Collection(inner),
        Shape::Circle(Circle::new(Point::new(10, 10), 1)),
    ]);

    assert!(outer.within(&Point::new(40, 40)));
    assert!(outer.within(&Point::new(2, 2)));
    assert!(outer.within(&Point::new(10, 11)));
    assert!(!outer.within(&Point::new(100, 100)));

    let bbox = outer.bbox();
    assert_eq!(*bbox.min(), Point::new(0, 0));
    assert_eq!(*bbox.max(), Point::new(42, 42));

    // inner centroid: mean of (40, 40) and (2, 2) is (21, 21);
    // outer centroid: mean of (21, 21) and (10, 10) truncates to (15, 15)
    assert_eq!(outer.centroid(), Point::new(15, 15));

    for p in outer.points_inside() {
        assert!(outer.within(&p));
    }
}

#[test]
fn circle_and_ellipse_centroid_is_center() {
    let circle = Circle::new(Point::new(77, 12), 30);
    assert_eq!(circle.centroid(), Point::new(77, 12));
    assert_eq!(*circle.center(), Point::new(77, 12));
    assert_eq!(*circle.radius(), 30);

    let ellipse = Ellipse::new(Point::new(13, 200), (4, 90));
    assert_eq!(ellipse.centroid(), Point::new(13, 200));
}
