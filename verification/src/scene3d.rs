//! The declarative 3D scene of a `Scene3D` node: camera, lights, materials,
//! geometry, sprites and the entity graph.

use vstd::prelude::*;
use crate::facet::{DeepValue, Facet};
use crate::float::F32;
use crate::canvas::{Point};
use crate::style::{Color};

verus! {

#[derive(Debug, Clone, Copy, PartialEq)]
pub struct Transform3D {
    pub position: [F32; 3],
    pub rotation: [F32; 3],
    pub scale: [F32; 3],
}

impl Facet for Transform3D {
    open spec fn deep(&self) -> DeepValue {
        crate::facet::dpair(self.position.deep(), crate::facet::dpair(self.rotation.deep(), self.scale.deep()))
    }

    fn equals(&self, other: &Self) -> (r: bool) {
        let e0 = self.position.equals(&other.position);
        let e1 = self.rotation.equals(&other.rotation);
        let e2 = self.scale.equals(&other.scale);
        proof {
            assert(crate::facet::deep_eq(crate::facet::dpair(self.rotation.deep(), self.scale.deep()), crate::facet::dpair(other.rotation.deep(), other.scale.deep())) == (e1 && e2));
            assert(crate::facet::deep_eq(crate::facet::dpair(self.position.deep(), crate::facet::dpair(self.rotation.deep(), self.scale.deep())), crate::facet::dpair(other.position.deep(), crate::facet::dpair(other.rotation.deep(), other.scale.deep()))) == (e0 && e1 && e2));
        }
        e0 && e1 && e2
    }

    fn duplicate(&self) -> (r: Self) {
        Transform3D { position: self.position.duplicate(), rotation: self.rotation.duplicate(), scale: self.scale.duplicate() }
    }
}

#[derive(Debug, Clone, Copy, PartialEq)]
pub enum Camera {
    Perspective { position: [F32; 3], look_at: [F32; 3], fov: F32, near: F32, far: F32 },
    Orthographic { position: [F32; 3], look_at: [F32; 3], scale: F32 },
}

impl Camera {
    /// The position of the variant in the declaration.
    pub open spec fn variant(&self) -> nat {
        match self {
            Camera::Perspective { .. } => 0,
            Camera::Orthographic { .. } => 1,
        }
    }
}

impl Facet for Camera {
    open spec fn deep(&self) -> DeepValue {
        match self {
            Camera::Perspective { position: position, look_at: look_at, fov: fov, near: near, far: far } => crate::facet::dvariant(0, crate::facet::dpair(position.deep(), crate::facet::dpair(look_at.deep(), crate::facet::dpair(fov.deep(), crate::facet::dpair(near.deep(), far.deep()))))),
            Camera::Orthographic { position: position, look_at: look_at, scale: scale } => crate::facet::dvariant(1, crate::facet::dpair(position.deep(), crate::facet::dpair(look_at.deep(), scale.deep()))),
        }
    }

    fn equals(&self, other: &Self) -> (r: bool) {
        match (self, other) {
            (Camera::Perspective { position: a_position, look_at: a_look_at, fov: a_fov, near: a_near, far: a_far }, Camera::Perspective { position: b_position, look_at: b_look_at, fov: b_fov, near: b_near, far: b_far }) => {
                let e0 = a_position.equals(b_position);
                let e1 = a_look_at.equals(b_look_at);
                let e2 = a_fov.equals(b_fov);
                let e3 = a_near.equals(b_near);
                let e4 = a_far.equals(b_far);
                proof {
                    assert(crate::facet::deep_eq(crate::facet::dpair(a_near.deep(), a_far.deep()), crate::facet::dpair(b_near.deep(), b_far.deep())) == (e3 && e4));
                    assert(crate::facet::deep_eq(crate::facet::dpair(a_fov.deep(), crate::facet::dpair(a_near.deep(), a_far.deep())), crate::facet::dpair(b_fov.deep(), crate::facet::dpair(b_near.deep(), b_far.deep()))) == (e2 && e3 && e4));
                    assert(crate::facet::deep_eq(crate::facet::dpair(a_look_at.deep(), crate::facet::dpair(a_fov.deep(), crate::facet::dpair(a_near.deep(), a_far.deep()))), crate::facet::dpair(b_look_at.deep(), crate::facet::dpair(b_fov.deep(), crate::facet::dpair(b_near.deep(), b_far.deep())))) == (e1 && e2 && e3 && e4));
                    assert(crate::facet::deep_eq(crate::facet::dpair(a_position.deep(), crate::facet::dpair(a_look_at.deep(), crate::facet::dpair(a_fov.deep(), crate::facet::dpair(a_near.deep(), a_far.deep())))), crate::facet::dpair(b_position.deep(), crate::facet::dpair(b_look_at.deep(), crate::facet::dpair(b_fov.deep(), crate::facet::dpair(b_near.deep(), b_far.deep()))))) == (e0 && e1 && e2 && e3 && e4));
                    assert(crate::facet::deep_eq(DeepValue::Tag(0), DeepValue::Tag(0)));
                }
                e0 && e1 && e2 && e3 && e4
            },
            (Camera::Orthographic { position: a_position, look_at: a_look_at, scale: a_scale }, Camera::Orthographic { position: b_position, look_at: b_look_at, scale: b_scale }) => {
                let e0 = a_position.equals(b_position);
                let e1 = a_look_at.equals(b_look_at);
                let e2 = a_scale.equals(b_scale);
                proof {
                    assert(crate::facet::deep_eq(crate::facet::dpair(a_look_at.deep(), a_scale.deep()), crate::facet::dpair(b_look_at.deep(), b_scale.deep())) == (e1 && e2));
                    assert(crate::facet::deep_eq(crate::facet::dpair(a_position.deep(), crate::facet::dpair(a_look_at.deep(), a_scale.deep())), crate::facet::dpair(b_position.deep(), crate::facet::dpair(b_look_at.deep(), b_scale.deep()))) == (e0 && e1 && e2));
                    assert(crate::facet::deep_eq(DeepValue::Tag(1), DeepValue::Tag(1)));
                }
                e0 && e1 && e2
            },
            _ => {
                proof {
                    assert(self.variant() != other.variant());
                    assert(!crate::facet::deep_eq(DeepValue::Tag(self.variant()), DeepValue::Tag(other.variant())));
                }
                false
            },
        }
    }

    fn duplicate(&self) -> (r: Self) {
        match self {
            Camera::Perspective { position: x_position, look_at: x_look_at, fov: x_fov, near: x_near, far: x_far } => Camera::Perspective { position: x_position.duplicate(), look_at: x_look_at.duplicate(), fov: x_fov.duplicate(), near: x_near.duplicate(), far: x_far.duplicate() },
            Camera::Orthographic { position: x_position, look_at: x_look_at, scale: x_scale } => Camera::Orthographic { position: x_position.duplicate(), look_at: x_look_at.duplicate(), scale: x_scale.duplicate() },
        }
    }
}

#[derive(Debug, Clone, Copy, PartialEq)]
pub enum Light {
    Ambient { color: Color, intensity: F32 },
    Directional { direction: [F32; 3], color: Color, intensity: F32 },
    Point { position: [F32; 3], color: Color, intensity: F32, range: F32 },
    Spot { position: [F32; 3], direction: [F32; 3], color: Color, intensity: F32, angle: F32 },
}

impl Light {
    /// The position of the variant in the declaration.
    pub open spec fn variant(&self) -> nat {
        match self {
            Light::Ambient { .. } => 0,
            Light::Directional { .. } => 1,
            Light::Point { .. } => 2,
            Light::Spot { .. } => 3,
        }
    }
}

impl Facet for Light {
    open spec fn deep(&self) -> DeepValue {
        match self {
            Light::Ambient { color: color, intensity: intensity } => crate::facet::dvariant(0, crate::facet::dpair(color.deep(), intensity.deep())),
            Light::Directional { direction: direction, color: color, intensity: intensity } => crate::facet::dvariant(1, crate::facet::dpair(direction.deep(), crate::facet::dpair(color.deep(), intensity.deep()))),
            Light::Point { position: position, color: color, intensity: intensity, range: range } => crate::facet::dvariant(2, crate::facet::dpair(position.deep(), crate::facet::dpair(color.deep(), crate::facet::dpair(intensity.deep(), range.deep())))),
            Light::Spot { position: position, direction: direction, color: color, intensity: intensity, angle: angle } => crate::facet::dvariant(3, crate::facet::dpair(position.deep(), crate::facet::dpair(direction.deep(), crate::facet::dpair(color.deep(), crate::facet::dpair(intensity.deep(), angle.deep()))))),
        }
    }

    fn equals(&self, other: &Self) -> (r: bool) {
        match (self, other) {
            (Light::Ambient { color: a_color, intensity: a_intensity }, Light::Ambient { color: b_color, intensity: b_intensity }) => {
                let e0 = a_color.equals(b_color);
                let e1 = a_intensity.equals(b_intensity);
                proof {
                    assert(crate::facet::deep_eq(crate::facet::dpair(a_color.deep(), a_intensity.deep()), crate::facet::dpair(b_color.deep(), b_intensity.deep())) == (e0 && e1));
                    assert(crate::facet::deep_eq(DeepValue::Tag(0), DeepValue::Tag(0)));
                }
                e0 && e1
            },
            (Light::Directional { direction: a_direction, color: a_color, intensity: a_intensity }, Light::Directional { direction: b_direction, color: b_color, intensity: b_intensity }) => {
                let e0 = a_direction.equals(b_direction);
                let e1 = a_color.equals(b_color);
                let e2 = a_intensity.equals(b_intensity);
                proof {
                    assert(crate::facet::deep_eq(crate::facet::dpair(a_color.deep(), a_intensity.deep()), crate::facet::dpair(b_color.deep(), b_intensity.deep())) == (e1 && e2));
                    assert(crate::facet::deep_eq(crate::facet::dpair(a_direction.deep(), crate::facet::dpair(a_color.deep(), a_intensity.deep())), crate::facet::dpair(b_direction.deep(), crate::facet::dpair(b_color.deep(), b_intensity.deep()))) == (e0 && e1 && e2));
                    assert(crate::facet::deep_eq(DeepValue::Tag(1), DeepValue::Tag(1)));
                }
                e0 && e1 && e2
            },
            (Light::Point { position: a_position, color: a_color, intensity: a_intensity, range: a_range }, Light::Point { position: b_position, color: b_color, intensity: b_intensity, range: b_range }) => {
                let e0 = a_position.equals(b_position);
                let e1 = a_color.equals(b_color);
                let e2 = a_intensity.equals(b_intensity);
                let e3 = a_range.equals(b_range);
                proof {
                    assert(crate::facet::deep_eq(crate::facet::dpair(a_intensity.deep(), a_range.deep()), crate::facet::dpair(b_intensity.deep(), b_range.deep())) == (e2 && e3));
                    assert(crate::facet::deep_eq(crate::facet::dpair(a_color.deep(), crate::facet::dpair(a_intensity.deep(), a_range.deep())), crate::facet::dpair(b_color.deep(), crate::facet::dpair(b_intensity.deep(), b_range.deep()))) == (e1 && e2 && e3));
                    assert(crate::facet::deep_eq(crate::facet::dpair(a_position.deep(), crate::facet::dpair(a_color.deep(), crate::facet::dpair(a_intensity.deep(), a_range.deep()))), crate::facet::dpair(b_position.deep(), crate::facet::dpair(b_color.deep(), crate::facet::dpair(b_intensity.deep(), b_range.deep())))) == (e0 && e1 && e2 && e3));
                    assert(crate::facet::deep_eq(DeepValue::Tag(2), DeepValue::Tag(2)));
                }
                e0 && e1 && e2 && e3
            },
            (Light::Spot { position: a_position, direction: a_direction, color: a_color, intensity: a_intensity, angle: a_angle }, Light::Spot { position: b_position, direction: b_direction, color: b_color, intensity: b_intensity, angle: b_angle }) => {
                let e0 = a_position.equals(b_position);
                let e1 = a_direction.equals(b_direction);
                let e2 = a_color.equals(b_color);
                let e3 = a_intensity.equals(b_intensity);
                let e4 = a_angle.equals(b_angle);
                proof {
                    assert(crate::facet::deep_eq(crate::facet::dpair(a_intensity.deep(), a_angle.deep()), crate::facet::dpair(b_intensity.deep(), b_angle.deep())) == (e3 && e4));
                    assert(crate::facet::deep_eq(crate::facet::dpair(a_color.deep(), crate::facet::dpair(a_intensity.deep(), a_angle.deep())), crate::facet::dpair(b_color.deep(), crate::facet::dpair(b_intensity.deep(), b_angle.deep()))) == (e2 && e3 && e4));
                    assert(crate::facet::deep_eq(crate::facet::dpair(a_direction.deep(), crate::facet::dpair(a_color.deep(), crate::facet::dpair(a_intensity.deep(), a_angle.deep()))), crate::facet::dpair(b_direction.deep(), crate::facet::dpair(b_color.deep(), crate::facet::dpair(b_intensity.deep(), b_angle.deep())))) == (e1 && e2 && e3 && e4));
                    assert(crate::facet::deep_eq(crate::facet::dpair(a_position.deep(), crate::facet::dpair(a_direction.deep(), crate::facet::dpair(a_color.deep(), crate::facet::dpair(a_intensity.deep(), a_angle.deep())))), crate::facet::dpair(b_position.deep(), crate::facet::dpair(b_direction.deep(), crate::facet::dpair(b_color.deep(), crate::facet::dpair(b_intensity.deep(), b_angle.deep()))))) == (e0 && e1 && e2 && e3 && e4));
                    assert(crate::facet::deep_eq(DeepValue::Tag(3), DeepValue::Tag(3)));
                }
                e0 && e1 && e2 && e3 && e4
            },
            _ => {
                proof {
                    assert(self.variant() != other.variant());
                    assert(!crate::facet::deep_eq(DeepValue::Tag(self.variant()), DeepValue::Tag(other.variant())));
                }
                false
            },
        }
    }

    fn duplicate(&self) -> (r: Self) {
        match self {
            Light::Ambient { color: x_color, intensity: x_intensity } => Light::Ambient { color: x_color.duplicate(), intensity: x_intensity.duplicate() },
            Light::Directional { direction: x_direction, color: x_color, intensity: x_intensity } => Light::Directional { direction: x_direction.duplicate(), color: x_color.duplicate(), intensity: x_intensity.duplicate() },
            Light::Point { position: x_position, color: x_color, intensity: x_intensity, range: x_range } => Light::Point { position: x_position.duplicate(), color: x_color.duplicate(), intensity: x_intensity.duplicate(), range: x_range.duplicate() },
            Light::Spot { position: x_position, direction: x_direction, color: x_color, intensity: x_intensity, angle: x_angle } => Light::Spot { position: x_position.duplicate(), direction: x_direction.duplicate(), color: x_color.duplicate(), intensity: x_intensity.duplicate(), angle: x_angle.duplicate() },
        }
    }
}

#[derive(Debug, Clone, PartialEq)]
pub struct Material {
    pub base_color: Color,
    pub metallic: F32,
    pub roughness: F32,
    pub emissive: Option<Color>,
    pub texture: Option<String>,
    pub normal_map: Option<String>,
    pub opacity: F32,
}

impl Facet for Material {
    open spec fn deep(&self) -> DeepValue {
        crate::facet::dpair(self.base_color.deep(), crate::facet::dpair(self.metallic.deep(), crate::facet::dpair(self.roughness.deep(), crate::facet::dpair(self.emissive.deep(), crate::facet::dpair(self.texture.deep(), crate::facet::dpair(self.normal_map.deep(), self.opacity.deep()))))))
    }

    fn equals(&self, other: &Self) -> (r: bool) {
        let e0 = self.base_color.equals(&other.base_color);
        let e1 = self.metallic.equals(&other.metallic);
        let e2 = self.roughness.equals(&other.roughness);
        let e3 = self.emissive.equals(&other.emissive);
        let e4 = self.texture.equals(&other.texture);
        let e5 = self.normal_map.equals(&other.normal_map);
        let e6 = self.opacity.equals(&other.opacity);
        proof {
            assert(crate::facet::deep_eq(crate::facet::dpair(self.normal_map.deep(), self.opacity.deep()), crate::facet::dpair(other.normal_map.deep(), other.opacity.deep())) == (e5 && e6));
            assert(crate::facet::deep_eq(crate::facet::dpair(self.texture.deep(), crate::facet::dpair(self.normal_map.deep(), self.opacity.deep())), crate::facet::dpair(other.texture.deep(), crate::facet::dpair(other.normal_map.deep(), other.opacity.deep()))) == (e4 && e5 && e6));
            assert(crate::facet::deep_eq(crate::facet::dpair(self.emissive.deep(), crate::facet::dpair(self.texture.deep(), crate::facet::dpair(self.normal_map.deep(), self.opacity.deep()))), crate::facet::dpair(other.emissive.deep(), crate::facet::dpair(other.texture.deep(), crate::facet::dpair(other.normal_map.deep(), other.opacity.deep())))) == (e3 && e4 && e5 && e6));
            assert(crate::facet::deep_eq(crate::facet::dpair(self.roughness.deep(), crate::facet::dpair(self.emissive.deep(), crate::facet::dpair(self.texture.deep(), crate::facet::dpair(self.normal_map.deep(), self.opacity.deep())))), crate::facet::dpair(other.roughness.deep(), crate::facet::dpair(other.emissive.deep(), crate::facet::dpair(other.texture.deep(), crate::facet::dpair(other.normal_map.deep(), other.opacity.deep()))))) == (e2 && e3 && e4 && e5 && e6));
            assert(crate::facet::deep_eq(crate::facet::dpair(self.metallic.deep(), crate::facet::dpair(self.roughness.deep(), crate::facet::dpair(self.emissive.deep(), crate::facet::dpair(self.texture.deep(), crate::facet::dpair(self.normal_map.deep(), self.opacity.deep()))))), crate::facet::dpair(other.metallic.deep(), crate::facet::dpair(other.roughness.deep(), crate::facet::dpair(other.emissive.deep(), crate::facet::dpair(other.texture.deep(), crate::facet::dpair(other.normal_map.deep(), other.opacity.deep())))))) == (e1 && e2 && e3 && e4 && e5 && e6));
            assert(crate::facet::deep_eq(crate::facet::dpair(self.base_color.deep(), crate::facet::dpair(self.metallic.deep(), crate::facet::dpair(self.roughness.deep(), crate::facet::dpair(self.emissive.deep(), crate::facet::dpair(self.texture.deep(), crate::facet::dpair(self.normal_map.deep(), self.opacity.deep())))))), crate::facet::dpair(other.base_color.deep(), crate::facet::dpair(other.metallic.deep(), crate::facet::dpair(other.roughness.deep(), crate::facet::dpair(other.emissive.deep(), crate::facet::dpair(other.texture.deep(), crate::facet::dpair(other.normal_map.deep(), other.opacity.deep()))))))) == (e0 && e1 && e2 && e3 && e4 && e5 && e6));
        }
        e0 && e1 && e2 && e3 && e4 && e5 && e6
    }

    fn duplicate(&self) -> (r: Self) {
        Material { base_color: self.base_color.duplicate(), metallic: self.metallic.duplicate(), roughness: self.roughness.duplicate(), emissive: self.emissive.duplicate(), texture: self.texture.duplicate(), normal_map: self.normal_map.duplicate(), opacity: self.opacity.duplicate() }
    }
}

#[derive(Debug, Clone, PartialEq)]
pub enum Geometry {
    Cube { size: F32 },
    Sphere { radius: F32, segments: u32 },
    Plane { width: F32, height: F32 },
    Cylinder { radius: F32, height: F32 },
    Cone { radius: F32, height: F32 },
    Torus { radius: F32, tube: F32 },
    Model { src: String },
    Custom { vertices: Vec<F32>, indices: Vec<u32>, normals: Vec<F32>, uvs: Vec<F32> },
}

impl Geometry {
    /// The position of the variant in the declaration.
    pub open spec fn variant(&self) -> nat {
        match self {
            Geometry::Cube { .. } => 0,
            Geometry::Sphere { .. } => 1,
            Geometry::Plane { .. } => 2,
            Geometry::Cylinder { .. } => 3,
            Geometry::Cone { .. } => 4,
            Geometry::Torus { .. } => 5,
            Geometry::Model { .. } => 6,
            Geometry::Custom { .. } => 7,
        }
    }
}

impl Facet for Geometry {
    open spec fn deep(&self) -> DeepValue {
        match self {
            Geometry::Cube { size: size } => crate::facet::dvariant(0, size.deep()),
            Geometry::Sphere { radius: radius, segments: segments } => crate::facet::dvariant(1, crate::facet::dpair(radius.deep(), segments.deep())),
            Geometry::Plane { width: width, height: height } => crate::facet::dvariant(2, crate::facet::dpair(width.deep(), height.deep())),
            Geometry::Cylinder { radius: radius, height: height } => crate::facet::dvariant(3, crate::facet::dpair(radius.deep(), height.deep())),
            Geometry::Cone { radius: radius, height: height } => crate::facet::dvariant(4, crate::facet::dpair(radius.deep(), height.deep())),
            Geometry::Torus { radius: radius, tube: tube } => crate::facet::dvariant(5, crate::facet::dpair(radius.deep(), tube.deep())),
            Geometry::Model { src: src } => crate::facet::dvariant(6, src.deep()),
            Geometry::Custom { vertices: vertices, indices: indices, normals: normals, uvs: uvs } => crate::facet::dvariant(7, crate::facet::dpair(vertices.deep(), crate::facet::dpair(indices.deep(), crate::facet::dpair(normals.deep(), uvs.deep())))),
        }
    }

    fn equals(&self, other: &Self) -> (r: bool) {
        match (self, other) {
            (Geometry::Cube { size: a_size }, Geometry::Cube { size: b_size }) => {
                let e0 = a_size.equals(b_size);
                proof {
                    assert(crate::facet::deep_eq(DeepValue::Tag(0), DeepValue::Tag(0)));
                }
                e0
            },
            (Geometry::Sphere { radius: a_radius, segments: a_segments }, Geometry::Sphere { radius: b_radius, segments: b_segments }) => {
                let e0 = a_radius.equals(b_radius);
                let e1 = a_segments.equals(b_segments);
                proof {
                    assert(crate::facet::deep_eq(crate::facet::dpair(a_radius.deep(), a_segments.deep()), crate::facet::dpair(b_radius.deep(), b_segments.deep())) == (e0 && e1));
                    assert(crate::facet::deep_eq(DeepValue::Tag(1), DeepValue::Tag(1)));
                }
                e0 && e1
            },
            (Geometry::Plane { width: a_width, height: a_height }, Geometry::Plane { width: b_width, height: b_height }) => {
                let e0 = a_width.equals(b_width);
                let e1 = a_height.equals(b_height);
                proof {
                    assert(crate::facet::deep_eq(crate::facet::dpair(a_width.deep(), a_height.deep()), crate::facet::dpair(b_width.deep(), b_height.deep())) == (e0 && e1));
                    assert(crate::facet::deep_eq(DeepValue::Tag(2), DeepValue::Tag(2)));
                }
                e0 && e1
            },
            (Geometry::Cylinder { radius: a_radius, height: a_height }, Geometry::Cylinder { radius: b_radius, height: b_height }) => {
                let e0 = a_radius.equals(b_radius);
                let e1 = a_height.equals(b_height);
                proof {
                    assert(crate::facet::deep_eq(crate::facet::dpair(a_radius.deep(), a_height.deep()), crate::facet::dpair(b_radius.deep(), b_height.deep())) == (e0 && e1));
                    assert(crate::facet::deep_eq(DeepValue::Tag(3), DeepValue::Tag(3)));
                }
                e0 && e1
            },
            (Geometry::Cone { radius: a_radius, height: a_height }, Geometry::Cone { radius: b_radius, height: b_height }) => {
                let e0 = a_radius.equals(b_radius);
                let e1 = a_height.equals(b_height);
                proof {
                    assert(crate::facet::deep_eq(crate::facet::dpair(a_radius.deep(), a_height.deep()), crate::facet::dpair(b_radius.deep(), b_height.deep())) == (e0 && e1));
                    assert(crate::facet::deep_eq(DeepValue::Tag(4), DeepValue::Tag(4)));
                }
                e0 && e1
            },
            (Geometry::Torus { radius: a_radius, tube: a_tube }, Geometry::Torus { radius: b_radius, tube: b_tube }) => {
                let e0 = a_radius.equals(b_radius);
                let e1 = a_tube.equals(b_tube);
                proof {
                    assert(crate::facet::deep_eq(crate::facet::dpair(a_radius.deep(), a_tube.deep()), crate::facet::dpair(b_radius.deep(), b_tube.deep())) == (e0 && e1));
                    assert(crate::facet::deep_eq(DeepValue::Tag(5), DeepValue::Tag(5)));
                }
                e0 && e1
            },
            (Geometry::Model { src: a_src }, Geometry::Model { src: b_src }) => {
                let e0 = a_src.equals(b_src);
                proof {
                    assert(crate::facet::deep_eq(DeepValue::Tag(6), DeepValue::Tag(6)));
                }
                e0
            },
            (Geometry::Custom { vertices: a_vertices, indices: a_indices, normals: a_normals, uvs: a_uvs }, Geometry::Custom { vertices: b_vertices, indices: b_indices, normals: b_normals, uvs: b_uvs }) => {
                let e0 = a_vertices.equals(b_vertices);
                let e1 = a_indices.equals(b_indices);
                let e2 = a_normals.equals(b_normals);
                let e3 = a_uvs.equals(b_uvs);
                proof {
                    assert(crate::facet::deep_eq(crate::facet::dpair(a_normals.deep(), a_uvs.deep()), crate::facet::dpair(b_normals.deep(), b_uvs.deep())) == (e2 && e3));
                    assert(crate::facet::deep_eq(crate::facet::dpair(a_indices.deep(), crate::facet::dpair(a_normals.deep(), a_uvs.deep())), crate::facet::dpair(b_indices.deep(), crate::facet::dpair(b_normals.deep(), b_uvs.deep()))) == (e1 && e2 && e3));
                    assert(crate::facet::deep_eq(crate::facet::dpair(a_vertices.deep(), crate::facet::dpair(a_indices.deep(), crate::facet::dpair(a_normals.deep(), a_uvs.deep()))), crate::facet::dpair(b_vertices.deep(), crate::facet::dpair(b_indices.deep(), crate::facet::dpair(b_normals.deep(), b_uvs.deep())))) == (e0 && e1 && e2 && e3));
                    assert(crate::facet::deep_eq(DeepValue::Tag(7), DeepValue::Tag(7)));
                }
                e0 && e1 && e2 && e3
            },
            _ => {
                proof {
                    assert(self.variant() != other.variant());
                    assert(!crate::facet::deep_eq(DeepValue::Tag(self.variant()), DeepValue::Tag(other.variant())));
                }
                false
            },
        }
    }

    fn duplicate(&self) -> (r: Self) {
        match self {
            Geometry::Cube { size: x_size } => Geometry::Cube { size: x_size.duplicate() },
            Geometry::Sphere { radius: x_radius, segments: x_segments } => Geometry::Sphere { radius: x_radius.duplicate(), segments: x_segments.duplicate() },
            Geometry::Plane { width: x_width, height: x_height } => Geometry::Plane { width: x_width.duplicate(), height: x_height.duplicate() },
            Geometry::Cylinder { radius: x_radius, height: x_height } => Geometry::Cylinder { radius: x_radius.duplicate(), height: x_height.duplicate() },
            Geometry::Cone { radius: x_radius, height: x_height } => Geometry::Cone { radius: x_radius.duplicate(), height: x_height.duplicate() },
            Geometry::Torus { radius: x_radius, tube: x_tube } => Geometry::Torus { radius: x_radius.duplicate(), tube: x_tube.duplicate() },
            Geometry::Model { src: x_src } => Geometry::Model { src: x_src.duplicate() },
            Geometry::Custom { vertices: x_vertices, indices: x_indices, normals: x_normals, uvs: x_uvs } => Geometry::Custom { vertices: x_vertices.duplicate(), indices: x_indices.duplicate(), normals: x_normals.duplicate(), uvs: x_uvs.duplicate() },
        }
    }
}

#[derive(Debug, Clone, PartialEq)]
pub struct Sprite {
    pub texture: String,
    pub position: [F32; 3],
    pub scale: F32,
    pub frame: Option<[F32; 4]>,
}

impl Facet for Sprite {
    open spec fn deep(&self) -> DeepValue {
        crate::facet::dpair(self.texture.deep(), crate::facet::dpair(self.position.deep(), crate::facet::dpair(self.scale.deep(), self.frame.deep())))
    }

    fn equals(&self, other: &Self) -> (r: bool) {
        let e0 = self.texture.equals(&other.texture);
        let e1 = self.position.equals(&other.position);
        let e2 = self.scale.equals(&other.scale);
        let e3 = self.frame.equals(&other.frame);
        proof {
            assert(crate::facet::deep_eq(crate::facet::dpair(self.scale.deep(), self.frame.deep()), crate::facet::dpair(other.scale.deep(), other.frame.deep())) == (e2 && e3));
            assert(crate::facet::deep_eq(crate::facet::dpair(self.position.deep(), crate::facet::dpair(self.scale.deep(), self.frame.deep())), crate::facet::dpair(other.position.deep(), crate::facet::dpair(other.scale.deep(), other.frame.deep()))) == (e1 && e2 && e3));
            assert(crate::facet::deep_eq(crate::facet::dpair(self.texture.deep(), crate::facet::dpair(self.position.deep(), crate::facet::dpair(self.scale.deep(), self.frame.deep()))), crate::facet::dpair(other.texture.deep(), crate::facet::dpair(other.position.deep(), crate::facet::dpair(other.scale.deep(), other.frame.deep())))) == (e0 && e1 && e2 && e3));
        }
        e0 && e1 && e2 && e3
    }

    fn duplicate(&self) -> (r: Self) {
        Sprite { texture: self.texture.duplicate(), position: self.position.duplicate(), scale: self.scale.duplicate(), frame: self.frame.duplicate() }
    }
}

#[derive(Debug, PartialEq)]
pub struct Entity {
    pub id: Option<String>,
    pub transform: Transform3D,
    pub geometry: Option<Geometry>,
    pub material: Option<Material>,
    pub sprite: Option<Sprite>,
    pub children: Vec<Entity>,
    pub pickable: bool,
}

#[derive(Debug, Clone, PartialEq, Default)]
pub struct Scene3DSpec {
    pub camera: Camera,
    pub lights: Vec<Light>,
    pub entities: Vec<Entity>,
    pub background: Option<Color>,
    pub environment: Option<String>,
    pub animated: bool,
    pub physics: bool,
}

impl Facet for Scene3DSpec {
    open spec fn deep(&self) -> DeepValue {
        crate::facet::dpair(self.camera.deep(), crate::facet::dpair(self.lights.deep(), crate::facet::dpair(self.entities.deep(), crate::facet::dpair(self.background.deep(), crate::facet::dpair(self.environment.deep(), crate::facet::dpair(self.animated.deep(), self.physics.deep()))))))
    }

    fn equals(&self, other: &Self) -> (r: bool) {
        let e0 = self.camera.equals(&other.camera);
        let e1 = self.lights.equals(&other.lights);
        let e2 = self.entities.equals(&other.entities);
        let e3 = self.background.equals(&other.background);
        let e4 = self.environment.equals(&other.environment);
        let e5 = self.animated.equals(&other.animated);
        let e6 = self.physics.equals(&other.physics);
        proof {
            assert(crate::facet::deep_eq(crate::facet::dpair(self.animated.deep(), self.physics.deep()), crate::facet::dpair(other.animated.deep(), other.physics.deep())) == (e5 && e6));
            assert(crate::facet::deep_eq(crate::facet::dpair(self.environment.deep(), crate::facet::dpair(self.animated.deep(), self.physics.deep())), crate::facet::dpair(other.environment.deep(), crate::facet::dpair(other.animated.deep(), other.physics.deep()))) == (e4 && e5 && e6));
            assert(crate::facet::deep_eq(crate::facet::dpair(self.background.deep(), crate::facet::dpair(self.environment.deep(), crate::facet::dpair(self.animated.deep(), self.physics.deep()))), crate::facet::dpair(other.background.deep(), crate::facet::dpair(other.environment.deep(), crate::facet::dpair(other.animated.deep(), other.physics.deep())))) == (e3 && e4 && e5 && e6));
            assert(crate::facet::deep_eq(crate::facet::dpair(self.entities.deep(), crate::facet::dpair(self.background.deep(), crate::facet::dpair(self.environment.deep(), crate::facet::dpair(self.animated.deep(), self.physics.deep())))), crate::facet::dpair(other.entities.deep(), crate::facet::dpair(other.background.deep(), crate::facet::dpair(other.environment.deep(), crate::facet::dpair(other.animated.deep(), other.physics.deep()))))) == (e2 && e3 && e4 && e5 && e6));
            assert(crate::facet::deep_eq(crate::facet::dpair(self.lights.deep(), crate::facet::dpair(self.entities.deep(), crate::facet::dpair(self.background.deep(), crate::facet::dpair(self.environment.deep(), crate::facet::dpair(self.animated.deep(), self.physics.deep()))))), crate::facet::dpair(other.lights.deep(), crate::facet::dpair(other.entities.deep(), crate::facet::dpair(other.background.deep(), crate::facet::dpair(other.environment.deep(), crate::facet::dpair(other.animated.deep(), other.physics.deep())))))) == (e1 && e2 && e3 && e4 && e5 && e6));
            assert(crate::facet::deep_eq(crate::facet::dpair(self.camera.deep(), crate::facet::dpair(self.lights.deep(), crate::facet::dpair(self.entities.deep(), crate::facet::dpair(self.background.deep(), crate::facet::dpair(self.environment.deep(), crate::facet::dpair(self.animated.deep(), self.physics.deep())))))), crate::facet::dpair(other.camera.deep(), crate::facet::dpair(other.lights.deep(), crate::facet::dpair(other.entities.deep(), crate::facet::dpair(other.background.deep(), crate::facet::dpair(other.environment.deep(), crate::facet::dpair(other.animated.deep(), other.physics.deep()))))))) == (e0 && e1 && e2 && e3 && e4 && e5 && e6));
        }
        e0 && e1 && e2 && e3 && e4 && e5 && e6
    }

    fn duplicate(&self) -> (r: Self) {
        Scene3DSpec { camera: self.camera.duplicate(), lights: self.lights.duplicate(), entities: self.entities.duplicate(), background: self.background.duplicate(), environment: self.environment.duplicate(), animated: self.animated.duplicate(), physics: self.physics.duplicate() }
    }
}

impl Default for Transform3D {
    /// At the origin, unrotated, unit scale.
    fn default() -> (t: Transform3D)
        ensures
            t.position@[0].bits == 0 && t.position@[1].bits == 0 && t.position@[2].bits == 0,
            t.rotation@[0].bits == 0 && t.rotation@[1].bits == 0 && t.rotation@[2].bits == 0,
            t.scale@[0].bits == 0x3f80_0000u32 && t.scale@[1].bits == 0x3f80_0000u32 && t.scale@[2].bits == 0x3f80_0000u32,
    {
        let z = F32 { bits: 0 };
        let one = F32 { bits: 0x3f80_0000u32 };
        Transform3D { position: [z, z, z], rotation: [z, z, z], scale: [one, one, one] }
    }
}

impl Default for Camera {
    /// A perspective camera at `(0, 0, 5)` looking at the origin, 60 degree
    /// field of view, near plane 0.1, far plane 1000.
    fn default() -> (c: Camera)
        ensures
            c matches Camera::Perspective { position, look_at, fov, near, far }
                && position@[0].bits == 0 && position@[1].bits == 0 && position@[2].bits == 0x40a0_0000u32
                && look_at@[0].bits == 0 && look_at@[1].bits == 0 && look_at@[2].bits == 0
                && fov.bits == 0x4270_0000u32 && near.bits == 0x3dcc_cccdu32 && far.bits == 0x447a_0000u32,
    {
        let z = F32 { bits: 0 };
        Camera::Perspective {
            position: [z, z, F32 { bits: 0x40a0_0000u32 }],
            look_at: [z, z, z],
            fov: F32 { bits: 0x4270_0000u32 },
            near: F32 { bits: 0x3dcc_cccdu32 },
            far: F32 { bits: 0x447a_0000u32 },
        }
    }
}

impl Default for Material {
    /// Opaque white, not metallic, roughness 0.5, no emission or maps.
    fn default() -> (m: Material)
        ensures
            m.base_color.r.bits == 0x3f80_0000u32 && m.base_color.g.bits == 0x3f80_0000u32,
            m.base_color.b.bits == 0x3f80_0000u32 && m.base_color.a.bits == 0x3f80_0000u32,
            m.metallic.bits == 0,
            m.roughness.bits == 0x3f00_0000u32,
            m.emissive is None,
            m.texture is None,
            m.normal_map is None,
            m.opacity.bits == 0x3f80_0000u32,
    {
        Material {
            base_color: Color::white(),
            metallic: F32 { bits: 0 },
            roughness: F32 { bits: 0x3f00_0000u32 },
            emissive: None,
            texture: None,
            normal_map: None,
            opacity: F32 { bits: 0x3f80_0000u32 },
        }
    }
}

impl Entity {
    /// The deep value of an entity.
    pub open spec fn deep_of(e: Entity) -> DeepValue
        decreases e,
    {
        crate::facet::dpair(e.id.deep(), crate::facet::dpair(e.transform.deep(), crate::facet::dpair(e.geometry.deep(), crate::facet::dpair(e.material.deep(), crate::facet::dpair(e.sprite.deep(), crate::facet::dpair(DeepValue::List(Seq::new(e.children@.len(), |i: int| if 0 <= i < e.children@.len() { Entity::deep_of(e.children@[i]) } else { DeepValue::Tag(0) })), e.pickable.deep()))))))
    }

    /// The deep values of a list of entities.
    pub open spec fn children_deep(s: Seq<Entity>) -> Seq<DeepValue> {
        Seq::new(s.len(), |i: int| Entity::deep_of(s[i]))
    }

    /// The deep value of an entity, with its children's list spelled out.
    pub proof fn lemma_deep(e: Entity)
        ensures
            Entity::deep_of(e) == crate::facet::dpair(e.id.deep(), crate::facet::dpair(e.transform.deep(), crate::facet::dpair(e.geometry.deep(), crate::facet::dpair(e.material.deep(), crate::facet::dpair(e.sprite.deep(), crate::facet::dpair(DeepValue::List(Entity::children_deep(e.children@)), e.pickable.deep())))))),
    {
        let d = Entity::deep_of(e);
        assert(d matches DeepValue::Pair(_, a1) && (*a1 matches DeepValue::Pair(_, a2) && (*a2 matches DeepValue::Pair(_, a3)
            && (*a3 matches DeepValue::Pair(_, a4) && (*a4 matches DeepValue::Pair(_, a5) && (*a5 matches DeepValue::Pair(l, _)
            && (*l matches DeepValue::List(x) && x =~= Entity::children_deep(e.children@))))))));
    }

    fn eq_children(a: &Vec<Entity>, b: &Vec<Entity>) -> (r: bool)
        ensures
            r == crate::facet::deep_eq(DeepValue::List(Entity::children_deep(a@)), DeepValue::List(Entity::children_deep(b@))),
        decreases a, 0nat,
    {
        let ghost s = Entity::children_deep(a@);
        let ghost t = Entity::children_deep(b@);
        if a.len() != b.len() {
            return false;
        }
        let mut i: usize = 0;
        while i < a.len()
            invariant
                i <= a@.len(),
                a@.len() == b@.len(),
                s == Entity::children_deep(a@),
                t == Entity::children_deep(b@),
                crate::facet::deep_list_eq(s, t, i as int),
            decreases a@.len() - i,
        {
            proof {
                assert(decreases_to!(*a => a@[i as int]));
            }
            let e = Entity::eq_entity(&a[i], &b[i]);
            assert(crate::facet::deep_list_eq(s, t, i + 1) == (crate::facet::deep_list_eq(s, t, i as int)
                && crate::facet::deep_eq(s[i as int], t[i as int])));
            if !e {
                proof {
                    crate::facet::lemma_list_prefix_differs(s, t, i + 1, s.len() as int);
                }
                return false;
            }
            i += 1;
        }
        true
    }

    fn eq_entity(a: &Entity, b: &Entity) -> (r: bool)
        ensures
            r == crate::facet::deep_eq(Entity::deep_of(*a), Entity::deep_of(*b)),
        decreases a, 1nat,
    {
        proof {
            Entity::lemma_deep(*a);
            Entity::lemma_deep(*b);
        }
        let e0 = a.id.equals(&b.id);
        let e1 = a.transform.equals(&b.transform);
        let e2 = a.geometry.equals(&b.geometry);
        let e3 = a.material.equals(&b.material);
        let e4 = a.sprite.equals(&b.sprite);
        let e5 = Entity::eq_children(&a.children, &b.children);
        let e6 = a.pickable.equals(&b.pickable);
        proof {
            assert(crate::facet::deep_eq(crate::facet::dpair(DeepValue::List(Entity::children_deep(a.children@)), a.pickable.deep()), crate::facet::dpair(DeepValue::List(Entity::children_deep(b.children@)), b.pickable.deep())) == (e5 && e6));
            assert(crate::facet::deep_eq(crate::facet::dpair(a.sprite.deep(), crate::facet::dpair(DeepValue::List(Entity::children_deep(a.children@)), a.pickable.deep())), crate::facet::dpair(b.sprite.deep(), crate::facet::dpair(DeepValue::List(Entity::children_deep(b.children@)), b.pickable.deep()))) == (e4 && e5 && e6));
            assert(crate::facet::deep_eq(crate::facet::dpair(a.material.deep(), crate::facet::dpair(a.sprite.deep(), crate::facet::dpair(DeepValue::List(Entity::children_deep(a.children@)), a.pickable.deep()))), crate::facet::dpair(b.material.deep(), crate::facet::dpair(b.sprite.deep(), crate::facet::dpair(DeepValue::List(Entity::children_deep(b.children@)), b.pickable.deep())))) == (e3 && e4 && e5 && e6));
            assert(crate::facet::deep_eq(crate::facet::dpair(a.geometry.deep(), crate::facet::dpair(a.material.deep(), crate::facet::dpair(a.sprite.deep(), crate::facet::dpair(DeepValue::List(Entity::children_deep(a.children@)), a.pickable.deep())))), crate::facet::dpair(b.geometry.deep(), crate::facet::dpair(b.material.deep(), crate::facet::dpair(b.sprite.deep(), crate::facet::dpair(DeepValue::List(Entity::children_deep(b.children@)), b.pickable.deep()))))) == (e2 && e3 && e4 && e5 && e6));
            assert(crate::facet::deep_eq(crate::facet::dpair(a.transform.deep(), crate::facet::dpair(a.geometry.deep(), crate::facet::dpair(a.material.deep(), crate::facet::dpair(a.sprite.deep(), crate::facet::dpair(DeepValue::List(Entity::children_deep(a.children@)), a.pickable.deep()))))), crate::facet::dpair(b.transform.deep(), crate::facet::dpair(b.geometry.deep(), crate::facet::dpair(b.material.deep(), crate::facet::dpair(b.sprite.deep(), crate::facet::dpair(DeepValue::List(Entity::children_deep(b.children@)), b.pickable.deep())))))) == (e1 && e2 && e3 && e4 && e5 && e6));
            assert(crate::facet::deep_eq(crate::facet::dpair(a.id.deep(), crate::facet::dpair(a.transform.deep(), crate::facet::dpair(a.geometry.deep(), crate::facet::dpair(a.material.deep(), crate::facet::dpair(a.sprite.deep(), crate::facet::dpair(DeepValue::List(Entity::children_deep(a.children@)), a.pickable.deep())))))), crate::facet::dpair(b.id.deep(), crate::facet::dpair(b.transform.deep(), crate::facet::dpair(b.geometry.deep(), crate::facet::dpair(b.material.deep(), crate::facet::dpair(b.sprite.deep(), crate::facet::dpair(DeepValue::List(Entity::children_deep(b.children@)), b.pickable.deep()))))))) == (e0 && e1 && e2 && e3 && e4 && e5 && e6));
        }
        e0 && e1 && e2 && e3 && e4 && e5 && e6
    }

    fn copy_children(a: &Vec<Entity>) -> (r: Vec<Entity>)
        ensures
            Entity::children_deep(r@) == Entity::children_deep(a@),
        decreases a, 0nat,
    {
        let mut out: Vec<Entity> = Vec::new();
        let mut i: usize = 0;
        while i < a.len()
            invariant
                i <= a@.len(),
                out@.len() == i,
                forall|j: int| 0 <= j < i ==> Entity::deep_of(#[trigger] out@[j]) == Entity::deep_of(a@[j]),
            decreases a@.len() - i,
        {
            proof {
                assert(decreases_to!(*a => a@[i as int]));
            }
            out.push(Entity::copy_entity(&a[i]));
            i += 1;
        }
        assert(Entity::children_deep(out@) =~= Entity::children_deep(a@));
        out
    }

    fn copy_entity(e: &Entity) -> (r: Entity)
        ensures
            Entity::deep_of(r) == Entity::deep_of(*e),
        decreases e, 1nat,
    {
        let r = Entity { id: e.id.duplicate(), transform: e.transform.duplicate(), geometry: e.geometry.duplicate(), material: e.material.duplicate(), sprite: e.sprite.duplicate(), children: Entity::copy_children(&e.children), pickable: e.pickable.duplicate() };
        proof {
            Entity::lemma_deep(r);
            Entity::lemma_deep(*e);
        }
        r
    }
}

impl Facet for Entity {
    open spec fn deep(&self) -> DeepValue {
        Entity::deep_of(*self)
    }

    fn equals(&self, other: &Self) -> (r: bool) {
        Entity::eq_entity(self, other)
    }

    fn duplicate(&self) -> (r: Self) {
        Entity::copy_entity(self)
    }
}

impl Clone for Entity {
    fn clone(&self) -> (r: Self)
        ensures
            Entity::deep_of(r) == Entity::deep_of(*self),
    {
        Entity::copy_entity(self)
    }
}

/// The default number of segments of a round geometry.
pub fn default_segments() -> (r: u32)
    ensures
        r == 32,
{
    32
}

} // verus!
