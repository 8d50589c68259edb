use std::sync::Arc;
use vstd::prelude::*;

use crate::color::Color;
use crate::texture::{uv_to_texel, Texture};

verus! {

/// Number of faces of a box, and of texture slots of a surface. Slots follow
/// the faces in the order +X, -X, +Y, -Y, +Z, -Z.
pub const FACE_COUNT: usize = 6;

/// How a surface looks before it is lit: a flat diffuse colour and, where
/// `has_texture` is set, a texture for each face of a box (slots may share one
/// texture, or stay empty).
#[derive(Clone, Debug)]
pub struct Surface {
    pub diffuse: Color,
    pub textures: [Option<Arc<Texture>>; 6],
    pub has_texture: bool,
}

/// The colour that a surface shows on face `face` at fixed-point texture
/// coordinates `(u, v)`: the face's texture sampled there, or the flat diffuse
/// colour where the surface is untextured, the face has no texture, or its
/// texture is empty.
pub open spec fn spec_diffuse_color(s: Surface, face: int, u: int, v: int) -> Color {
    if s.has_texture && 0 <= face < FACE_COUNT && s.textures@[face] is Some {
        let t = s.textures@[face]->Some_0;
        if t@.width > 0 && t@.height > 0 {
            t@.texel(uv_to_texel(u, t@.width as int), uv_to_texel(v, t@.height as int))
        } else {
            s.diffuse
        }
    } else {
        s.diffuse
    }
}

impl Surface {
    /// A surface from its diffuse colour and face textures.
    pub fn new(diffuse: Color, textures: [Option<Arc<Texture>>; 6], has_texture: bool) -> (s: Surface)
        ensures
            s == (Surface { diffuse, textures, has_texture }),
    {
        Surface { diffuse, textures, has_texture }
    }

    /// A black surface without texture.
    pub fn black() -> (s: Surface)
        ensures
            !s.has_texture,
            s.diffuse == (Color { r: 0, g: 0, b: 0 }),
            forall|i: int| 0 <= i < FACE_COUNT ==> s.textures@[i] is None,
    {
        Surface { diffuse: Color::black(), textures: [None, None, None, None, None, None], has_texture: false }
    }

    /// The texture of face `face_index`, or `None` where that slot is empty or
    /// the index names no face.
    pub fn get_texture_for_face(&self, face_index: usize) -> (t: Option<Arc<Texture>>)
        ensures
            t == (if face_index < FACE_COUNT { self.textures@[face_index as int] } else { None }),
    {
        if face_index < FACE_COUNT {
            match &self.textures[face_index] {
                Some(t) => Some(Arc::clone(t)),
                None => None,
            }
        } else {
            None
        }
    }

    /// The unlit colour of face `face_index` at fixed-point texture coordinates
    /// `(u, v)` (see `UV_ONE`).
    pub fn get_diffuse_color(&self, face_index: usize, u: u32, v: u32) -> (c: Color)
        ensures
            c == spec_diffuse_color(*self, face_index as int, u as int, v as int),
    {
        if self.has_texture {
            match self.get_texture_for_face(face_index) {
                Some(texture) => match texture.sample(u, v) {
                    Some(c) => c,
                    None => self.diffuse,
                },
                None => self.diffuse,
            }
        } else {
            self.diffuse
        }
    }
}

} // verus!
