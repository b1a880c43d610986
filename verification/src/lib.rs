//! A 2D computational-geometry core on the 8-bit unsigned integer grid.
//!
//! The library offers a closed set of shape primitives (line segment,
//! axis-aligned rectangle, circle, ellipse, triangle, and heterogeneous
//! shape collections) together with a uniform capability model: every
//! shape answers what its bounding rectangle is, where its centroid lies,
//! which grid points it covers, and whether a given point lies within it.

mod circle;
mod collection;
mod ellipse;
mod line;
mod point;
mod rectangle;
mod shape;
mod traits;
mod triangle;

pub use circle::Circle;
pub use circle::circle_bbox;
pub use circle::circle_contains;
pub use circle::lemma_circle_within_in_bbox;
pub use collection::ShapeCollection;
pub use ellipse::Ellipse;
pub use ellipse::ellipse_bbox;
pub use ellipse::ellipse_contains;
pub use ellipse::lemma_ellipse_within_in_bbox;
pub use line::Line;
pub use line::lemma_line_new_normalizes;
pub use line::spec_line_new;
pub use point::Point;
pub use point::abs_diff;
pub use point::clamp_u8;
pub use point::dist_sq;
pub use point::distance_squared;
pub use point::lemma_distance_squared_symmetric;
pub use point::lex_le;
pub use rectangle::Rectangle;
pub use rectangle::grid_h;
pub use rectangle::grid_w;
pub use rectangle::lemma_rect_grid;
pub use rectangle::lemma_rectangle_new_normalizes;
pub use rectangle::rect_centroid;
pub use rectangle::rect_contains;
pub use rectangle::rect_grid;
pub use rectangle::rect_new_spec;
pub use rectangle::rect_wf;
pub use shape::Shape;
pub use shape::collection_bbox;
pub use shape::collection_centroid;
pub use shape::collection_centroid_defined;
pub use shape::collection_centroid_sum;
pub use shape::collection_corners;
pub use shape::collection_within;
pub use shape::lemma_shape_within_in_bbox;
pub use shape::shape_bbox;
pub use shape::shape_centroid;
pub use shape::shape_centroid_defined;
pub use shape::shape_within;
pub use traits::BoundingBox;
pub use traits::Centroid;
pub use traits::PointsInside;
pub use traits::Within;
pub use triangle::Triangle;
pub use triangle::abs_int;
pub use triangle::lemma_triangle_vertex_order_irrelevant;
pub use triangle::lemma_triangle_within_in_bbox;
pub use triangle::max3;
pub use triangle::min3;
pub use triangle::tri_area2;
pub use triangle::tri_bbox;
pub use triangle::tri_centroid;
pub use triangle::tri_contains;
