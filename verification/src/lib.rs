//! Euclidean geometry over an abstract scalar type: vectors and points of
//! fixed size, planes, rays, lines, and the tests and constructions built on
//! them (parallel and perpendicular directions, approximate equality,
//! intersections, projection matrices).
//!
//! Every scalar stands for a real number, and the contracts are stated over
//! those numbers: see `num` for scalars and `model` for the sequences of reals
//! that vectors and points are read as.

pub mod aabb;
pub mod angle;
pub mod approx;
pub mod intersect;
pub mod laws;
pub mod line;
pub mod matrix;
pub mod model;
pub mod num;
pub mod parallel;
pub mod plane;
pub mod point;
pub mod projection;
pub mod ray;
pub mod sphere;
pub mod vector;

pub use aabb::Aabb2;
pub use angle::{rad, Rad};
pub use approx::{epsilon, ApproxEq, Epsilon};
pub use intersect::{Intersect, IntersectPoint};
pub use line::{Line, Line2, Line3};
pub use matrix::{Mat4, ToMat4};
pub use num::{BaseFloat, BaseNum};
pub use parallel::Parallel;
pub use plane::Plane;
pub use point::{Point, Point2, Point3};
pub use projection::{frustum, ortho, perspective, Ortho, Perspective, PerspectiveFov, Projection};
pub use ray::{Ray, Ray2, Ray3};
pub use sphere::Sphere;
pub use vector::{dot, EuclideanVector, Vector, Vector2, Vector3, Vector4};
