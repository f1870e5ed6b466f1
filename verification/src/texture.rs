use vstd::prelude::*;

verus! {

/// The number of faces of the cube texture.
pub const CUBE_FACES: usize = 6;

/// The colour of face `face` (0 to 5), component `ch` (0 to 3):
/// red, green, blue, yellow, magenta, cyan, each with a zero fourth byte.
pub open spec fn face_color(face: int, ch: int) -> u8 {
    let (r, g, b): (u8, u8, u8) = if face == 0 {
        (255, 0, 0)
    } else if face == 1 {
        (0, 255, 0)
    } else if face == 2 {
        (0, 0, 255)
    } else if face == 3 {
        (255, 255, 0)
    } else if face == 4 {
        (255, 0, 255)
    } else {
        (0, 255, 255)
    };
    if ch == 0 {
        r
    } else if ch == 1 {
        g
    } else if ch == 2 {
        b
    } else {
        0
    }
}

/// A cube map of 6 faces, each face 2 x 2 texels of RGBA bytes, stored face
/// after face.
#[derive(Clone, Copy, Debug)]
pub struct ColorCube(pub [[u8; 4]; 24]);

impl ColorCube {
    /// Every texel of face `f` has that face's colour.
    pub open spec fn is_face_colored(self) -> bool {
        forall|i: int, ch: int|
            0 <= i < 24 && 0 <= ch < 4 ==> #[trigger] self.0@[i]@[ch] == face_color(i / 4, ch)
    }

    /// The cube whose six faces are red, green, blue, yellow, magenta and
    /// cyan, in that order; the 4 texels of a face share its colour.
    pub fn new() -> (c: Self)
        ensures
            c.is_face_colored(),
    {
        let colors: [[u8; 4]; 6] = [
            [255, 0, 0, 0],
            [0, 255, 0, 0],
            [0, 0, 255, 0],
            [255, 255, 0, 0],
            [255, 0, 255, 0],
            [0, 255, 255, 0],
        ];
        assert(forall|f: int, ch: int|
            0 <= f < 6 && 0 <= ch < 4 ==> #[trigger] colors@[f]@[ch] == face_color(f, ch));
        let mut color_cube: [[u8; 4]; 24] = [[0u8; 4]; 24];
        for face in 0..CUBE_FACES
            invariant
                forall|f: int, ch: int|
                    0 <= f < 6 && 0 <= ch < 4 ==> #[trigger] colors@[f]@[ch] == face_color(f, ch),
                forall|i: int, ch: int|
                    0 <= i < 4 * face && 0 <= ch < 4 ==> #[trigger] color_cube@[i]@[ch] == face_color(
                        i / 4,
                        ch,
                    ),
        {
            for corner in 0..4usize
                invariant
                    face < 6,
                    forall|f: int, ch: int|
                        0 <= f < 6 && 0 <= ch < 4 ==> #[trigger] colors@[f]@[ch] == face_color(
                            f,
                            ch,
                        ),
                    forall|i: int, ch: int|
                        0 <= i < 4 * face + corner && 0 <= ch < 4 ==> #[trigger] color_cube@[i]@[ch]
                            == face_color(i / 4, ch),
            {
                color_cube[4 * face + corner] = colors[face];
                assert forall|i: int, ch: int|
                    0 <= i < 4 * face + corner + 1 && 0 <= ch < 4 implies #[trigger] color_cube@[i]@[ch]
                    == face_color(i / 4, ch) by {
                    if i == 4 * face + corner {
                        assert(i / 4 == face);
                        assert(colors@[face as int]@[ch] == face_color(face as int, ch));
                    }
                }
            }
        }
        ColorCube(color_cube)
    }

    /// The width, height and number of layers of the cube texture.
    pub fn extents(&self) -> (e: [u32; 3])
        ensures
            e@ == seq![2u32, 2u32, 6u32],
    {
        [2, 2, 6]
    }
}

/// The bytes of a run of RGBA texels, texel after texel.
pub open spec fn texel_bytes(texels: Seq<[u8; 4]>) -> Seq<u8> {
    Seq::new(4 * texels.len(), |i: int| texels[i / 4]@[i % 4])
}

/// `bytemuck::cast_slice` from `[u8; 4]` texels to bytes. Its contract: the
/// result views the same memory as bytes, so it holds four bytes per texel,
/// texel after texel. For these two types the cast never fails (the target
/// alignment is 1 and every length is a whole number of bytes), so it does
/// not panic.
#[verifier::external_body]
fn cast_texels_to_bytes(texels: &[[u8; 4]]) -> (bytes: &[u8])
    ensures
        bytes@ == texel_bytes(texels@),
{
    bytemuck::cast_slice(texels)
}

impl ColorCube {
    /// The texture data as it is uploaded: the 24 texels' bytes in order.
    pub fn bytes(&self) -> (b: &[u8])
        ensures
            b@ == texel_bytes(self.0@),
            b@.len() == 96,
    {
        cast_texels_to_bytes(vstd::array::array_as_slice(&self.0))
    }
}

/// The bytes uploaded for a cube whose faces have their colours: byte `i`
/// is component `i % 4` of the colour of face `i / 16`.
pub proof fn lemma_face_colored_bytes(cube: ColorCube)
    requires
        cube.is_face_colored(),
    ensures
        texel_bytes(cube.0@).len() == 96,
        forall|i: int| 0 <= i < 96 ==> #[trigger] texel_bytes(cube.0@)[i] == face_color(i / 16, i % 4),
{
    assert(cube.0@.len() == 24);
    assert forall|i: int| 0 <= i < 96 implies #[trigger] texel_bytes(cube.0@)[i] == face_color(i / 16, i % 4) by {
        assert((i / 4) / 4 == i / 16) by (nonlinear_arith)
            requires 0 <= i;
        assert(0 <= i / 4 < 24);
        assert(0 <= i % 4 < 4);
        assert(cube.0@[i / 4]@[i % 4] == face_color((i / 4) / 4, i % 4));
    }
}

/// The size of a texture: width, height and depth or number of layers.
#[derive(Clone, Copy, Debug, PartialEq, Eq, Structural)]
pub struct Extent3d {
    pub width: u32,
    pub height: u32,
    pub depth_or_array_layers: u32,
}

/// How the cube's bytes are laid out for the upload: the texture size, the
/// number of bytes of one row of texels and the number of rows of one layer.
#[derive(Clone, Copy, Debug, PartialEq, Eq, Structural)]
pub struct CubeUpload {
    pub size: Extent3d,
    pub bytes_per_row: u32,
    pub rows_per_image: u32,
}

/// The upload layout of a cube with the given extents.
pub open spec fn cube_upload_of(e: Seq<u32>) -> CubeUpload {
    CubeUpload {
        size: Extent3d { width: e[0], height: e[1], depth_or_array_layers: e[2] },
        bytes_per_row: (4 * e[0]) as u32,
        rows_per_image: e[1],
    }
}

/// The upload layout of the colour cube: a `2 x 2` texture of 6 layers, rows
/// of 4 bytes per texel, and as many rows per layer as the texture is high.
pub fn cube_upload(cube: &ColorCube) -> (u: CubeUpload)
    ensures
        u == cube_upload_of(seq![2u32, 2u32, 6u32]),
        u.size == (Extent3d { width: 2, height: 2, depth_or_array_layers: 6 }),
        u.bytes_per_row == 8,
        u.rows_per_image == 2,
{
    let dimensions = cube.extents();
    CubeUpload {
        size: Extent3d {
            width: dimensions[0],
            height: dimensions[1],
            depth_or_array_layers: dimensions[2],
        },
        bytes_per_row: 4 * dimensions[0],
        rows_per_image: dimensions[1],
    }
}

/// The upload layout covers the cube's data exactly: rows times rows per
/// layer times layers is the number of bytes uploaded, and a row holds the
/// bytes of one row of texels.
pub proof fn lemma_cube_upload_covers_data(cube: ColorCube)
    ensures
        ({
            let u = cube_upload_of(seq![2u32, 2u32, 6u32]);
            &&& u.bytes_per_row * u.rows_per_image * u.size.depth_or_array_layers == texel_bytes(
                cube.0@,
            ).len()
            &&& u.bytes_per_row == 4 * u.size.width
            &&& u.size.width * u.size.height * u.size.depth_or_array_layers == cube.0@.len()
        }),
{
    let e = seq![2u32, 2u32, 6u32];
    assert(e[0] == 2 && e[1] == 2 && e[2] == 6);
    assert(cube.0@.len() == 24);
    let u = cube_upload_of(e);
    assert(u.size.width == 2);
    assert(u.bytes_per_row == 8);
    assert(u.rows_per_image == 2);
    assert(u.size.depth_or_array_layers == 6);
    assert(texel_bytes(cube.0@).len() == 96);
}

/// The label of the bind group layout made for a texture labelled `label`.
pub fn bind_group_layout_label(label: &str) -> (l: String)
    ensures
        l@ == label@ + " bind_group_layout"@,
{
    let mut l = String::from_str(label);
    l.append(" bind_group_layout");
    l
}

/// The label of the bind group made for a texture labelled `label`.
pub fn bind_group_label(label: &str) -> (l: String)
    ensures
        l@ == label@ + " bind_group"@,
{
    let mut l = String::from_str(label);
    l.append(" bind_group");
    l
}

/// The size of a depth texture for a surface of the given size: one layer.
pub fn depth_extent(width: u32, height: u32) -> (e: Extent3d)
    ensures
        e == (Extent3d { width, height, depth_or_array_layers: 1 }),
{
    Extent3d { width, height, depth_or_array_layers: 1 }
}

} // verus!
