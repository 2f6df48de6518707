use vstd::prelude::*;

verus! {

/// Fixed-point scale of every transform value: a stored integer `n` stands
/// for the real number `n / ONE`, so four decimal places are exact.
pub const ONE: i32 = 10000;

/// A vector of three fixed-point values (see [`ONE`]).
#[derive(Clone, Copy, Debug, PartialEq, Eq, Structural)]
pub struct Vec3Fx {
    pub x: i32,
    pub y: i32,
    pub z: i32,
}

/// A vector of four fixed-point values (see [`ONE`]); one column of a
/// [`Mat4Fx`].
#[derive(Clone, Copy, Debug, PartialEq, Eq, Structural)]
pub struct Vec4Fx {
    pub x: i32,
    pub y: i32,
    pub z: i32,
    pub w: i32,
}

/// A 4x4 matrix of fixed-point values, stored as its four columns.
#[derive(Clone, Copy, Debug, PartialEq, Eq, Structural)]
pub struct Mat4Fx {
    pub x_axis: Vec4Fx,
    pub y_axis: Vec4Fx,
    pub z_axis: Vec4Fx,
    pub w_axis: Vec4Fx,
}

impl Vec4Fx {
    /// Component `i` (0 to 3) of the vector.
    pub open spec fn at(self, i: int) -> i32 {
        if i == 0 {
            self.x
        } else if i == 1 {
            self.y
        } else if i == 2 {
            self.z
        } else {
            self.w
        }
    }
}

/// Entry at `row`, `col` of the model matrix that scales by `scale`, applies
/// the identity rotation and then translates by `translation`.
pub open spec fn scale_translation_entry(scale: Vec3Fx, translation: Vec3Fx, row: int, col: int) -> int {
    if col == 3 {
        if row == 0 {
            translation.x as int
        } else if row == 1 {
            translation.y as int
        } else if row == 2 {
            translation.z as int
        } else {
            ONE as int
        }
    } else if row != col {
        0
    } else if row == 0 {
        scale.x as int
    } else if row == 1 {
        scale.y as int
    } else {
        scale.z as int
    }
}

impl Mat4Fx {
    /// Column `col` (0 to 3) of the matrix.
    pub open spec fn col(self, col: int) -> Vec4Fx {
        if col == 0 {
            self.x_axis
        } else if col == 1 {
            self.y_axis
        } else if col == 2 {
            self.z_axis
        } else {
            self.w_axis
        }
    }

    /// Entry at `row`, `col` (both 0 to 3).
    pub open spec fn entry(self, row: int, col: int) -> i32 {
        self.col(col).at(row)
    }

    /// The sixteen entries in column-major order.
    pub open spec fn cols_spec(self) -> Seq<i32> {
        Seq::new(16, |k: int| self.entry(k % 4, k / 4))
    }

    /// The matrix whose column-major entries are `a[0..16]`.
    pub open spec fn from_cols_spec(a: Seq<i32>) -> Mat4Fx {
        Mat4Fx {
            x_axis: Vec4Fx { x: a[0], y: a[1], z: a[2], w: a[3] },
            y_axis: Vec4Fx { x: a[4], y: a[5], z: a[6], w: a[7] },
            z_axis: Vec4Fx { x: a[8], y: a[9], z: a[10], w: a[11] },
            w_axis: Vec4Fx { x: a[12], y: a[13], z: a[14], w: a[15] },
        }
    }

    /// The model matrix for `scale`, the identity rotation and
    /// `translation`.
    pub fn from_scale_translation(scale: Vec3Fx, translation: Vec3Fx) -> (m: Mat4Fx)
        ensures
            forall|row: int, col: int|
                0 <= row < 4 && 0 <= col < 4 ==> #[trigger] m.entry(row, col)
                    == scale_translation_entry(scale, translation, row, col),
            m.cols_spec() == scale_translation_cols(scale, translation),
            m == scale_translation_matrix(scale, translation),
    {
        let m = Mat4Fx {
            x_axis: Vec4Fx { x: scale.x, y: 0, z: 0, w: 0 },
            y_axis: Vec4Fx { x: 0, y: scale.y, z: 0, w: 0 },
            z_axis: Vec4Fx { x: 0, y: 0, z: scale.z, w: 0 },
            w_axis: Vec4Fx { x: translation.x, y: translation.y, z: translation.z, w: ONE },
        };
        assert(m.cols_spec() =~= scale_translation_cols(scale, translation));
        m
    }

    /// The sixteen entries in column-major order, as they are written to
    /// the uniform buffer.
    pub fn to_cols_array(&self) -> (r: [i32; 16])
        ensures
            r@ == self.cols_spec(),
    {
        let r: [i32; 16] = [
            self.x_axis.x,
            self.x_axis.y,
            self.x_axis.z,
            self.x_axis.w,
            self.y_axis.x,
            self.y_axis.y,
            self.y_axis.z,
            self.y_axis.w,
            self.z_axis.x,
            self.z_axis.y,
            self.z_axis.z,
            self.z_axis.w,
            self.w_axis.x,
            self.w_axis.y,
            self.w_axis.z,
            self.w_axis.w,
        ];
        assert(r@ =~= self.cols_spec());
        r
    }

    /// The matrix whose column-major entries are `a`.
    pub fn from_cols_array(a: &[i32; 16]) -> (m: Mat4Fx)
        ensures
            m == Mat4Fx::from_cols_spec(a@),
    {
        Mat4Fx {
            x_axis: Vec4Fx { x: a[0], y: a[1], z: a[2], w: a[3] },
            y_axis: Vec4Fx { x: a[4], y: a[5], z: a[6], w: a[7] },
            z_axis: Vec4Fx { x: a[8], y: a[9], z: a[10], w: a[11] },
            w_axis: Vec4Fx { x: a[12], y: a[13], z: a[14], w: a[15] },
        }
    }
}

/// Flattening a matrix to its column-major entries and reading them back
/// gives the same matrix, for every matrix.
pub proof fn lemma_cols_round_trip(m: Mat4Fx)
    ensures
        Mat4Fx::from_cols_spec(m.cols_spec()) == m,
        m.cols_spec().len() == 16,
{
}

/// The model matrix for `scale`, the identity rotation and `translation`.
pub open spec fn scale_translation_matrix(scale: Vec3Fx, translation: Vec3Fx) -> Mat4Fx {
    Mat4Fx {
        x_axis: Vec4Fx { x: scale.x, y: 0, z: 0, w: 0 },
        y_axis: Vec4Fx { x: 0, y: scale.y, z: 0, w: 0 },
        z_axis: Vec4Fx { x: 0, y: 0, z: scale.z, w: 0 },
        w_axis: Vec4Fx { x: translation.x, y: translation.y, z: translation.z, w: ONE },
    }
}

/// The sixteen values written to the uniform buffer for a mesh with
/// `scale` and `translation`, in column-major order.
pub open spec fn scale_translation_cols(scale: Vec3Fx, translation: Vec3Fx) -> Seq<i32> {
    seq![
        scale.x, 0, 0, 0,
        0, scale.y, 0, 0,
        0, 0, scale.z, 0,
        translation.x, translation.y, translation.z, ONE,
    ]
}

/// The values written for a mesh's model matrix are the column-major
/// expansion of scale, identity rotation and translation: value
/// `4 * col + row` is the matrix entry at `row`, `col`.
pub proof fn lemma_upload_is_column_major(scale: Vec3Fx, translation: Vec3Fx)
    ensures
        scale_translation_cols(scale, translation).len() == 16,
        forall|row: int, col: int|
            0 <= row < 4 && 0 <= col < 4 ==> #[trigger] scale_translation_cols(scale, translation)[4
                * col + row] == scale_translation_entry(scale, translation, row, col),
{
    let a = scale_translation_cols(scale, translation);
    assert forall|row: int, col: int| 0 <= row < 4 && 0 <= col < 4 implies #[trigger] a[4 * col
        + row] == scale_translation_entry(scale, translation, row, col) by {
        if col == 0 {
        } else if col == 1 {
        } else if col == 2 {
        } else {
        }
    }
}

} // verus!
