use rshapes::{
    BoundingBox, Centroid, Circle, Ellipse, Point, PointsInside, Rectangle, Shape,
    ShapeCollection, Triangle, Within,
};

fn points(coords: &[(u8, u8)]) -> Vec<Point> {
    coords.iter().map(|&(x, y)| Point::new(x, y)).collect()
}

#[test]
fn test_points_inside() {
    let circle = Circle::new(Point::new(5, 5), 2);
    let expected = points(&[
        (3, 5),
        (4, 4),
        (4, 5),
        (4, 6),
        (5, 3),
        (5, 4),
        (5, 5),
        (5, 6),
        (5, 7),
        (6, 4),
        (6, 5),
        (6, 6),
        (7, 5),
    ]);
    assert_eq!(circle.points_inside(), expected);
}

#[test]
fn test_points_inside_edge() {
    let circle = Circle::new(Point::new(0, 0), 5);
    let expected = points(&[
        (0, 0),
        (0, 1),
        (0, 2),
        (0, 3),
        (0, 4),
        (0, 5),
        (1, 0),
        (1, 1),
        (1, 2),
        (1, 3),
        (1, 4),
        (2, 0),
        (2, 1),
        (2, 2),
        (2, 3),
        (2, 4),
        (3, 0),
        (3, 1),
        (3, 2),
        (3, 3),
        (3, 4),
        (4, 0),
        (4, 1),
        (4, 2),
        (4, 3),
        (5, 0),
    ]);
    assert_eq!(circle.points_inside(), expected);
}

#[test]
fn test_from() {
    let rectangle = Rectangle::new(Point::new(0, 0), Point::new(10, 10));
    assert!(matches!(Shape::from(rectangle), Shape::Rectangle(_)));

    let circle = Circle::new(Point::new(10, 10), 5);
    assert!(matches!(Shape::from(circle), Shape::Circle(_)));

    let ellipse = Ellipse::new(Point::new(10, 10), (5, 5));
    assert!(matches!(Shape::from(ellipse), Shape::Ellipse(_)));

    let triangle = Triangle::new(Point::new(0, 0), Point::new(10, 0), Point::new(0, 10));
    assert!(matches!(Shape::from(triangle), Shape::Triangle(_)));

    let collection = ShapeCollection::new(vec![
        Shape::Rectangle(Rectangle::new(Point::new(0, 0), Point::new(10, 10))),
        Shape::Circle(Circle::new(Point::new(10, 10), 5)),
    ]);
    assert!(matches!(Shape::from(collection.clone()), Shape::Collection(_)));
}

#[test]
fn circle_points_u8_inside() {
    let circle = Circle::new(Point::new(5, 5), 2);
    let expected = points(&[
        (3, 5),
        (4, 4),
        (4, 5),
        (4, 6),
        (5, 3),
        (5, 4),
        (5, 5),
        (5, 6),
        (5, 7),
        (6, 4),
        (6, 5),
        (6, 6),
        (7, 5),
    ]);
    assert_eq!(circle.points_inside(), expected);
}

#[test]
fn circle_points_inside_u8_edge() {
    let circle = Circle::new(Point::new(0, 0), 5);
    let expected = points(&[
        (0, 0),
        (0, 1),
        (0, 2),
        (0, 3),
        (0, 4),
        (0, 5),
        (1, 0),
        (1, 1),
        (1, 2),
        (1, 3),
        (1, 4),
        (2, 0),
        (2, 1),
        (2, 2),
        (2, 3),
        (2, 4),
        (3, 0),
        (3, 1),
        (3, 2),
        (3, 3),
        (3, 4),
        (4, 0),
        (4, 1),
        (4, 2),
        (4, 3),
        (5, 0),
    ]);
    assert_eq!(circle.points_inside(), expected);
}

#[test]
fn ellipse_points_inside_u8() {
    let ellipse = Ellipse::new(Point::new(5, 5), (2, 1));
    let expected = points(&[(3, 5), (4, 5), (5, 4), (5, 5), (5, 6), (6, 5), (7, 5)]);
    assert_eq!(ellipse.points_inside(), expected);
}

#[test]
fn rectangle_points_inside_u8() {
    let rectangle = Rectangle::new(Point::new(10, 10), Point::new(13, 14));
    let expected = points(&[
        (10, 10),
        (10, 11),
        (10, 12),
        (10, 13),
        (10, 14),
        (11, 10),
        (11, 11),
        (11, 12),
        (11, 13),
        (11, 14),
        (12, 10),
        (12, 11),
        (12, 12),
        (12, 13),
        (12, 14),
        (13, 10),
        (13, 11),
        (13, 12),
        (13, 13),
        (13, 14),
    ]);
    assert_eq!(rectangle.points_inside(), expected);
}

#[test]
fn triangle_points_inside_u8() {
    let triangle = Triangle::new(Point::new(0, 0), Point::new(2, 0), Point::new(0, 2));
    let expected = points(&[(0, 0), (0, 1), (0, 2), (1, 0), (1, 1), (2, 0)]);
    assert_eq!(triangle.points_inside(), expected);
}

#[test]
fn shape_collection_points_inside_u8() {
    let collection = ShapeCollection::new(vec![
        Shape::Rectangle(Rectangle::new(Point::new(0, 0), Point::new(2, 2))),
        Shape::Rectangle(Rectangle::new(Point::new(2, 2), Point::new(4, 4))),
    ]);

    let mut got = collection.points_inside();
    let mut expected = points(&[
        (0, 0),
        (0, 1),
        (0, 2),
        (1, 0),
        (1, 1),
        (1, 2),
        (2, 0),
        (2, 1),
        (2, 2),
        (2, 3),
        (2, 4),
        (3, 2),
        (3, 3),
        (3, 4),
        (4, 2),
        (4, 3),
        (4, 4),
    ]);
    got.sort();
    expected.sort();
    assert_eq!(got, expected);
}

#[test]
fn shape_collection_within_u8() {
    let collection = ShapeCollection::new(vec![
        Shape::Rectangle(Rectangle::new(Point::new(0, 0), Point::new(10, 10))),
        Shape::Circle(Circle::new(Point::new(10, 10), 5)),
    ]);

    assert!(collection.within(&Point::new(0, 0))); // top-left of rectangle
    assert!(collection.within(&Point::new(5, 5))); // center of rectangle
    assert!(collection.within(&Point::new(12, 12))); // inside circle

    assert!(!collection.within(&Point::new(20, 20))); // outside both
}

#[test]
fn shape_within_u8() {
    let rectangle = Shape::Rectangle(Rectangle::new(Point::new(0, 0), Point::new(10, 10)));
    assert!(rectangle.within(&Point::new(5, 5)));

    let circle = Shape::Circle(Circle::new(Point::new(10, 10), 5));
    assert!(circle.within(&Point::new(10, 10)));

    let ellipse = Shape::Ellipse(Ellipse::new(Point::new(10, 10), (5, 5)));
    assert!(ellipse.within(&Point::new(10, 10)));

    let triangle = Shape::Triangle(Triangle::new(
        Point::new(0, 0),
        Point::new(10, 0),
        Point::new(0, 10),
    ));
    assert!(triangle.within(&Point::new(5, 5)));

    let collection = Shape::Collection(ShapeCollection::new(vec![
        Shape::Rectangle(Rectangle::new(Point::new(0, 0), Point::new(10, 10))),
        Shape::Circle(Circle::new(Point::new(10, 10), 5)),
    ]));
    assert!(collection.within(&Point::new(5, 5)));
}

#[test]
fn shape_points_inside_dispatch() {
    let shape = Shape::Circle(Circle::new(Point::new(5, 5), 2));
    let direct = Circle::new(Point::new(5, 5), 2).points_inside();
    assert_eq!(shape.points_inside(), direct);

    let shape = Shape::Triangle(Triangle::new(Point::new(0, 0), Point::new(2, 0), Point::new(0, 2)));
    let direct = Triangle::new(Point::new(0, 0), Point::new(2, 0), Point::new(0, 2)).points_inside();
    assert_eq!(shape.points_inside(), direct);
}

#[test]
fn shape_dispatch_bbox_and_centroid() {
    let shape = Shape::Circle(Circle::new(Point::new(12, 12), 10));
    let bbox = shape.bbox();
    assert_eq!(*bbox.min(), Point::new(2, 2));
    assert_eq!(*bbox.max(), Point::new(22, 22));
    assert_eq!(shape.centroid(), Point::new(12, 12));

    let collection = Shape::Collection(ShapeCollection::new(vec![
        Shape::Rectangle(Rectangle::new(Point::new(0, 0), Point::new(10, 10))),
        Shape::Rectangle(Rectangle::new(Point::new(20, 20), Point::new(30, 30))),
    ]));
    let bbox = collection.bbox();
    assert_eq!(*bbox.min(), Point::new(0, 0));
    assert_eq!(*bbox.max(), Point::new(30, 30));
    // mean of the member centroids (5, 5) and (25, 25)
    assert_eq!(collection.centroid(), Point::new(15, 15));
}
