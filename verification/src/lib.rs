//! The decision core of a point-cloud scene viewer: the camera poses
//! read from a JSON sidecar file and their mapping onto engine
//! transforms, the queue that sequences deferred asset loading, and
//! the lifecycle that gates the scene and cycles through the cameras
//! once per frame.
//!
//! Scalars that the pose file stores as binary32 values are carried
//! throughout as their IEEE 754 bit patterns: the library routes them
//! bit-exactly, and the thin engine layer around it converts them back
//! only where floating-point arithmetic is actually performed.

use vstd::prelude::*;

pub mod asset_tracking;
pub mod lifecycle;

verus! {

/// IEEE 754 binary32 bit pattern of the value one.
pub const ONE_BITS: u32 = 0x3F80_0000;

/// IEEE 754 binary32 bit pattern of positive zero.
pub const ZERO_BITS: u32 = 0;

/// A camera pose read from the camera JSON sidecar file.
///
/// Scalar fields that the file stores as binary32 values (the position,
/// the rotation matrix and the focal lengths) are held as their IEEE 754
/// bit patterns, so that every field is an exact plain value.
#[derive(Clone, Debug, PartialEq)]
pub struct CameraWithPose {
    pub id: u32,
    pub img_name: String,
    pub width: u32,
    pub height: u32,
    /// Bit patterns of the three position coordinates.
    pub position: [u32; 3],
    /// Bit patterns of the row-major camera-to-world rotation matrix:
    /// `rotation[r][c]` is the entry in row `r`, column `c`.
    pub rotation: [[u32; 3]; 3],
    /// Bit pattern of the horizontal focal length.
    pub fx: u32,
    /// Bit pattern of the vertical focal length.
    pub fy: u32,
}

/// An affine transform: a rotation matrix given by its basis columns, a
/// translation and a per-axis scale, each scalar held as an IEEE 754
/// binary32 bit pattern.
#[derive(Clone, Copy, Debug, PartialEq, Eq)]
pub struct Transform {
    /// `rotation[c]` is basis column `c` of the rotation matrix
    /// (column-major, the order the engine's matrix constructor takes).
    pub rotation: [[u32; 3]; 3],
    /// Bit patterns of the three translation coordinates.
    pub translation: [u32; 3],
    /// Bit patterns of the three scale factors.
    pub scale: [u32; 3],
}

/// What one frame of the camera-cycling system applies to the active
/// camera: the transform of the pose that was shown, and the pose's
/// stored image height and vertical focal length, from which the
/// caller computes the perspective field of view as
/// `2 * atan(0.5 * height / fy)`.
#[derive(Clone, Copy, Debug, PartialEq, Eq)]
pub struct CameraUpdate {
    pub transform: Transform,
    pub height: u32,
    /// Bit pattern of the vertical focal length.
    pub fy: u32,
}

/// The pattern `pat` occurs in `text` starting at position `k`.
pub open spec fn is_match_at(text: Seq<char>, pat: Seq<char>, k: int) -> bool {
    &&& 0 <= k
    &&& k + pat.len() <= text.len()
    &&& text.subrange(k, k + pat.len() as int) == pat
}

/// The pattern `pat` occurs somewhere in `text`.
pub open spec fn has_substring(text: Seq<char>, pat: Seq<char>) -> bool {
    exists|k: int| is_match_at(text, pat, k)
}

/// Does `pat` occur in `text` starting exactly at position `k`?
fn match_at(text: &str, pat: &str, k: usize) -> (r: bool)
    requires
        k + pat@.len() <= text@.len(),
    ensures
        r == is_match_at(text@, pat@, k as int),
{
    let n = text.unicode_len();
    let m = pat.unicode_len();
    let mut i: usize = 0;
    while i < m
        invariant
            i <= m,
            n == text@.len(),
            m == pat@.len(),
            k + m <= n,
            forall|j: int| 0 <= j < i ==> text@[k + j] == pat@[j],
        decreases m - i,
    {
        if text.get_char(k + i) != pat.get_char(i) {
            proof {
                let kk = k as int;
                let ii = i as int;
                if is_match_at(text@, pat@, kk) {
                    assert(text@.subrange(kk, kk + pat@.len() as int)[ii] == pat@[ii]);
                    assert(text@.subrange(kk, kk + pat@.len() as int)[ii] == text@[kk + ii]);
                }
            }
            return false;
        }
        i = i + 1;
    }
    proof {
        assert(text@.subrange(k as int, k + m as int) =~= pat@);
    }
    true
}

/// Case-sensitive substring search, character by character: whether
/// `pat` occurs anywhere in `text`.
pub fn contains_substring(text: &str, pat: &str) -> (r: bool)
    ensures
        r == has_substring(text@, pat@),
{
    let n = text.unicode_len();
    let m = pat.unicode_len();
    if m > n {
        return false;
    }
    if m == 0 {
        proof {
            assert(text@.subrange(0, 0) =~= pat@);
            assert(is_match_at(text@, pat@, 0));
        }
        return true;
    }
    let mut k: usize = 0;
    while k <= n - m
        invariant
            1 <= m <= n,
            n == text@.len(),
            m == pat@.len(),
            k <= n - m + 1,
            forall|j: int| 0 <= j < k ==> !is_match_at(text@, pat@, j),
        decreases n - m + 1 - k,
    {
        if match_at(text, pat, k) {
            return true;
        }
        k = k + 1;
    }
    proof {
        assert forall|j: int| !is_match_at(text@, pat@, j) by {
            if 0 <= j && j + pat@.len() <= text@.len() {
                assert(j < k);
            }
        }
    }
    false
}

/// `t` is the transform of the pose `c`: basis column `j` of `t` is
/// column `j` of the stored row-major rotation matrix (the matrix is
/// carried over entry for entry, only rearranged into column-major
/// order), the translation is the stored position, and the scale is one
/// on every axis. These conditions determine every field of `t`.
pub open spec fn is_transform_of(t: Transform, c: CameraWithPose) -> bool {
    &&& forall|i: int, j: int|
        0 <= i < 3 && 0 <= j < 3 ==> #[trigger] t.rotation[j][i] == c.rotation[i][j]
    &&& t.translation@ == c.position@
    &&& forall|i: int| 0 <= i < 3 ==> #[trigger] t.scale[i] == ONE_BITS
}

impl CameraWithPose {
    /// Map the stored pose onto a transform: basis column `c` of the
    /// result is column `c` of the stored row-major matrix (so the matrix
    /// is carried over entry for entry, only rearranged into column-major
    /// order), the translation is the stored position, and the scale is
    /// one on every axis.
    ///
    /// The stored matrix is deliberately read by columns, taking it as
    /// camera-to-world; reading it by rows instead would hand the
    /// engine the transposed (world-to-camera) rotation.
    pub fn get_transform(&self) -> (t: Transform)
        ensures
            is_transform_of(t, *self),
    {
        let rotation = [
            [self.rotation[0][0], self.rotation[1][0], self.rotation[2][0]],
            [self.rotation[0][1], self.rotation[1][1], self.rotation[2][1]],
            [self.rotation[0][2], self.rotation[1][2], self.rotation[2][2]],
        ];
        let translation = [self.position[0], self.position[1], self.position[2]];
        let scale = [ONE_BITS, ONE_BITS, ONE_BITS];
        let t = Transform { rotation, translation, scale };
        proof {
            assert forall|i: int, j: int|
                0 <= i < 3 && 0 <= j < 3 implies #[trigger] t.rotation[j][i]
                == self.rotation[i][j] by {
                assert(t.rotation[0] == rotation[0]);
                assert(t.rotation[1] == rotation[1]);
                assert(t.rotation[2] == rotation[2]);
            }
            assert(t.translation@ =~= self.position@);
        }
        t
    }

    /// Whether this pose's image name carries the debug-marker tag: a
    /// case-sensitive substring match on `FRONT`, the tag that selects
    /// the poses marked with a small debug cube when the scene is
    /// populated.
    pub fn is_front_tagged(&self) -> (r: bool)
        ensures
            r == has_substring(self.img_name@, "FRONT"@),
    {
        contains_substring(self.img_name.as_str(), "FRONT")
    }
}

} // verus!
