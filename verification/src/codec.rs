//! Primitive codec: a forward-only cursor over the input bytes.
//!
//! Each read consumes a fixed, type-determined number of bytes and is
//! verified to return exactly what the corresponding `spec_format`
//! parser computes, including the error on a short read.

use vstd::prelude::*;
use vstd::slice::{slice_subrange, slice_to_vec};

use crate::model::{Color8, Matrix44, Quaternion, Vec2, Vec3, Vec4, XacError};
use crate::spec_format::{
    le_val, lemma_le_val_bound, pow256, sp_bool, sp_color8, sp_i16, sp_i32, sp_matrix44,
    sp_quaternion, sp_skip, sp_string, sp_u32, sp_u8, sp_vec2, sp_vec3, sp_vec4,
};

verus! {

/// A copy of the elements of `v` in the range `[a, b)`.
pub fn subvec<T: Copy>(v: &Vec<T>, a: usize, b: usize) -> (out: Vec<T>)
    requires
        a <= b,
        b <= v@.len(),
    ensures
        out@ == v@.subrange(a as int, b as int),
{
    slice_to_vec(slice_subrange(v.as_slice(), a, b))
}

/// An element-for-element copy of a byte vector.
pub fn copy_bytes(v: &Vec<u8>) -> (out: Vec<u8>)
    ensures
        out@ == v@,
{
    let out = slice_to_vec(v.as_slice());
    proof {
        assert(out@ =~= v@);
    }
    out
}

/// A cursor over the input byte stream. It never seeks backward.
pub struct Reader<'a> {
    pub data: &'a [u8],
    pub pos: usize,
}

impl<'a> Reader<'a> {
    /// The cursor stands inside (or just past) the data.
    pub open spec fn wf(self) -> bool {
        self.pos <= self.data@.len()
    }

    /// The underlying byte sequence.
    pub open spec fn bytes(self) -> Seq<u8> {
        self.data@
    }

    pub fn new(data: &'a [u8]) -> (r: Reader<'a>)
        ensures
            r.wf(),
            r.bytes() == data@,
            r.pos == 0,
    {
        Reader { data, pos: 0 }
    }

    /// Bytes not yet consumed.
    pub fn remaining(&self) -> (r: usize)
        requires
            self.wf(),
        ensures
            r == self.bytes().len() - self.pos,
    {
        self.data.len() - self.pos
    }

    pub fn read_u8(&mut self) -> (r: Result<u8, XacError>)
        requires
            old(self).wf(),
        ensures
            final(self).wf(),
            final(self).data == old(self).data,
            (match r {
                Ok(v) => sp_u8(old(self).bytes(), old(self).pos as int) == Ok::<(u8, int), XacError>((
                    v,
                    final(self).pos as int,
                )),
                Err(e) => sp_u8(old(self).bytes(), old(self).pos as int) == Err::<(u8, int), XacError>(e),
            }),
    {
        if self.pos < self.data.len() {
            let b = self.data[self.pos];
            self.pos = self.pos + 1;
            Ok(b)
        } else {
            Err(XacError::ShortRead { offset: self.pos })
        }
    }

    pub fn read_u32(&mut self) -> (r: Result<u32, XacError>)
        requires
            old(self).wf(),
        ensures
            final(self).wf(),
            final(self).data == old(self).data,
            (match r {
                Ok(v) => sp_u32(old(self).bytes(), old(self).pos as int) == Ok::<(u32, int), XacError>((
                    v,
                    final(self).pos as int,
                )),
                Err(e) => sp_u32(old(self).bytes(), old(self).pos as int) == Err::<(u32, int), XacError>(e),
            }),
    {
        if self.data.len() - self.pos >= 4 {
            let b0 = self.data[self.pos] as u32;
            let b1 = self.data[self.pos + 1] as u32;
            let b2 = self.data[self.pos + 2] as u32;
            let b3 = self.data[self.pos + 3] as u32;
            let v = b0 + b1 * 0x100 + b2 * 0x1_0000 + b3 * 0x100_0000;
            proof {
                reveal_with_fuel(le_val, 5);
            }
            self.pos = self.pos + 4;
            Ok(v)
        } else {
            Err(XacError::ShortRead { offset: self.pos })
        }
    }

    pub fn read_i32(&mut self) -> (r: Result<i32, XacError>)
        requires
            old(self).wf(),
        ensures
            final(self).wf(),
            final(self).data == old(self).data,
            (match r {
                Ok(v) => sp_i32(old(self).bytes(), old(self).pos as int) == Ok::<(i32, int), XacError>((
                    v,
                    final(self).pos as int,
                )),
                Err(e) => sp_i32(old(self).bytes(), old(self).pos as int) == Err::<(i32, int), XacError>(e),
            }),
    {
        match self.read_u32() {
            Ok(u) => {
                proof {
                    lemma_le_val_bound(old(self).bytes(), old(self).pos as int, 4);
                    reveal_with_fuel(pow256, 5);
                }
                let v: i32 = if u >= 0x8000_0000 {
                    ((u - 0x8000_0000) as i32) - 0x7FFF_FFFF - 1
                } else {
                    u as i32
                };
                Ok(v)
            },
            Err(e) => Err(e),
        }
    }

    pub fn read_i16(&mut self) -> (r: Result<i16, XacError>)
        requires
            old(self).wf(),
        ensures
            final(self).wf(),
            final(self).data == old(self).data,
            (match r {
                Ok(v) => sp_i16(old(self).bytes(), old(self).pos as int) == Ok::<(i16, int), XacError>((
                    v,
                    final(self).pos as int,
                )),
                Err(e) => sp_i16(old(self).bytes(), old(self).pos as int) == Err::<(i16, int), XacError>(e),
            }),
    {
        if self.data.len() - self.pos >= 2 {
            let b0 = self.data[self.pos] as u16;
            let b1 = self.data[self.pos + 1] as u16;
            let u = b0 + b1 * 0x100;
            proof {
                reveal_with_fuel(le_val, 3);
            }
            let v: i16 = if u >= 0x8000 {
                ((u - 0x8000) as i16) - 0x7FFF - 1
            } else {
                u as i16
            };
            self.pos = self.pos + 2;
            Ok(v)
        } else {
            Err(XacError::ShortRead { offset: self.pos })
        }
    }

    pub fn read_bool(&mut self) -> (r: Result<bool, XacError>)
        requires
            old(self).wf(),
        ensures
            final(self).wf(),
            final(self).data == old(self).data,
            (match r {
                Ok(v) => sp_bool(old(self).bytes(), old(self).pos as int) == Ok::<(bool, int), XacError>((
                    v,
                    final(self).pos as int,
                )),
                Err(e) => sp_bool(old(self).bytes(), old(self).pos as int) == Err::<(bool, int), XacError>(e),
            }),
    {
        match self.read_u8() {
            Ok(b) => Ok(b != 0),
            Err(e) => Err(e),
        }
    }

    /// Advance the cursor `count` bytes without interpreting them.
    pub fn skip(&mut self, count: u64) -> (r: Result<(), XacError>)
        requires
            old(self).wf(),
        ensures
            final(self).wf(),
            final(self).data == old(self).data,
            (match r {
                Ok(_) => sp_skip(old(self).bytes(), old(self).pos as int, count as int) == Ok::<int, XacError>(
                    final(self).pos as int,
                ),
                Err(e) => sp_skip(old(self).bytes(), old(self).pos as int, count as int) == Err::<int, XacError>(e),
            }),
    {
        if count <= (self.data.len() - self.pos) as u64 {
            self.pos = self.pos + count as usize;
            Ok(())
        } else {
            Err(XacError::ShortRead { offset: self.pos })
        }
    }

    /// A length-prefixed string, returned as its exact on-disk bytes.
    pub fn read_string(&mut self) -> (r: Result<Vec<u8>, XacError>)
        requires
            old(self).wf(),
        ensures
            final(self).wf(),
            final(self).data == old(self).data,
            (match r {
                Ok(v) => sp_string(old(self).bytes(), old(self).pos as int) == Ok::<(Seq<u8>, int), XacError>((
                    v@,
                    final(self).pos as int,
                )),
                Err(e) => sp_string(old(self).bytes(), old(self).pos as int) == Err::<(Seq<u8>, int), XacError>(
                    e,
                ),
            }),
    {
        let n = match self.read_i32() {
            Ok(v) => v,
            Err(e) => {
                return Err(e);
            },
        };
        let count: usize = if n < 0 {
            0
        } else {
            n as usize
        };
        if count <= self.data.len() - self.pos {
            let out = slice_to_vec(slice_subrange(self.data, self.pos, self.pos + count));
            self.pos = self.pos + count;
            Ok(out)
        } else {
            Err(XacError::ShortRead { offset: self.pos })
        }
    }

    pub fn read_vec2(&mut self) -> (r: Result<Vec2, XacError>)
        requires
            old(self).wf(),
        ensures
            final(self).wf(),
            final(self).data == old(self).data,
            (match r {
                Ok(v) => sp_vec2(old(self).bytes(), old(self).pos as int) == Ok::<(Vec2, int), XacError>((
                    v,
                    final(self).pos as int,
                )),
                Err(e) => sp_vec2(old(self).bytes(), old(self).pos as int) == Err::<(Vec2, int), XacError>(e),
            }),
    {
        let x = match self.read_u32() {
            Ok(v) => v,
            Err(e) => {
                return Err(e);
            },
        };
        let y = match self.read_u32() {
            Ok(v) => v,
            Err(e) => {
                return Err(e);
            },
        };
        Ok(Vec2 { x, y })
    }

    pub fn read_vec3(&mut self) -> (r: Result<Vec3, XacError>)
        requires
            old(self).wf(),
        ensures
            final(self).wf(),
            final(self).data == old(self).data,
            (match r {
                Ok(v) => sp_vec3(old(self).bytes(), old(self).pos as int) == Ok::<(Vec3, int), XacError>((
                    v,
                    final(self).pos as int,
                )),
                Err(e) => sp_vec3(old(self).bytes(), old(self).pos as int) == Err::<(Vec3, int), XacError>(e),
            }),
    {
        let x = match self.read_u32() {
            Ok(v) => v,
            Err(e) => {
                return Err(e);
            },
        };
        let y = match self.read_u32() {
            Ok(v) => v,
            Err(e) => {
                return Err(e);
            },
        };
        let z = match self.read_u32() {
            Ok(v) => v,
            Err(e) => {
                return Err(e);
            },
        };
        Ok(Vec3 { x, y, z })
    }

    pub fn read_vec4(&mut self) -> (r: Result<Vec4, XacError>)
        requires
            old(self).wf(),
        ensures
            final(self).wf(),
            final(self).data == old(self).data,
            (match r {
                Ok(v) => sp_vec4(old(self).bytes(), old(self).pos as int) == Ok::<(Vec4, int), XacError>((
                    v,
                    final(self).pos as int,
                )),
                Err(e) => sp_vec4(old(self).bytes(), old(self).pos as int) == Err::<(Vec4, int), XacError>(e),
            }),
    {
        let x = match self.read_u32() {
            Ok(v) => v,
            Err(e) => {
                return Err(e);
            },
        };
        let y = match self.read_u32() {
            Ok(v) => v,
            Err(e) => {
                return Err(e);
            },
        };
        let z = match self.read_u32() {
            Ok(v) => v,
            Err(e) => {
                return Err(e);
            },
        };
        let w = match self.read_u32() {
            Ok(v) => v,
            Err(e) => {
                return Err(e);
            },
        };
        Ok(Vec4 { x, y, z, w })
    }

    pub fn read_quaternion(&mut self) -> (r: Result<Quaternion, XacError>)
        requires
            old(self).wf(),
        ensures
            final(self).wf(),
            final(self).data == old(self).data,
            (match r {
                Ok(v) => sp_quaternion(old(self).bytes(), old(self).pos as int) == Ok::<
                    (Quaternion, int),
                    XacError,
                >((v, final(self).pos as int)),
                Err(e) => sp_quaternion(old(self).bytes(), old(self).pos as int) == Err::<
                    (Quaternion, int),
                    XacError,
                >(e),
            }),
    {
        match self.read_vec4() {
            Ok(v) => Ok(Quaternion { x: v.x, y: v.y, z: v.z, w: v.w }),
            Err(e) => Err(e),
        }
    }

    pub fn read_color8(&mut self) -> (r: Result<Color8, XacError>)
        requires
            old(self).wf(),
        ensures
            final(self).wf(),
            final(self).data == old(self).data,
            (match r {
                Ok(v) => sp_color8(old(self).bytes(), old(self).pos as int) == Ok::<(Color8, int), XacError>((
                    v,
                    final(self).pos as int,
                )),
                Err(e) => sp_color8(old(self).bytes(), old(self).pos as int) == Err::<(Color8, int), XacError>(
                    e,
                ),
            }),
    {
        let x = match self.read_u8() {
            Ok(v) => v,
            Err(e) => {
                return Err(e);
            },
        };
        let y = match self.read_u8() {
            Ok(v) => v,
            Err(e) => {
                return Err(e);
            },
        };
        let z = match self.read_u8() {
            Ok(v) => v,
            Err(e) => {
                return Err(e);
            },
        };
        Ok(Color8 { x, y, z })
    }

    pub fn read_matrix44(&mut self) -> (r: Result<Matrix44, XacError>)
        requires
            old(self).wf(),
        ensures
            final(self).wf(),
            final(self).data == old(self).data,
            (match r {
                Ok(v) => sp_matrix44(old(self).bytes(), old(self).pos as int) == Ok::<
                    (Matrix44, int),
                    XacError,
                >((v, final(self).pos as int)),
                Err(e) => sp_matrix44(old(self).bytes(), old(self).pos as int) == Err::<
                    (Matrix44, int),
                    XacError,
                >(e),
            }),
    {
        let a1 = match self.read_vec4() {
            Ok(v) => v,
            Err(e) => {
                return Err(e);
            },
        };
        let a2 = match self.read_vec4() {
            Ok(v) => v,
            Err(e) => {
                return Err(e);
            },
        };
        let a3 = match self.read_vec4() {
            Ok(v) => v,
            Err(e) => {
                return Err(e);
            },
        };
        let a4 = match self.read_vec4() {
            Ok(v) => v,
            Err(e) => {
                return Err(e);
            },
        };
        Ok(Matrix44 { axis_1: a1, axis_2: a2, axis_3: a3, pos: a4 })
    }
}

} // verus!
