//! The field of instance placements: a grid in the X-Z plane, each placement
//! with a rotation that depends on where it stands, and the packed records
//! made of them for the instance buffer.
//!
//! Placements are exact: coordinates are whole world units, a rotation is a
//! whole number of degrees about an axis given by its direction.

use crate::layout::{packed, push_row, words_to_bytes};
use vstd::arithmetic::div_mod::{
    lemma_div_pos_is_pos, lemma_fundamental_div_mod, lemma_fundamental_div_mod_converse,
    lemma_mod_bound, lemma_multiply_divide_lt,
};
use vstd::arithmetic::mul::lemma_mul_is_commutative;
use vstd::prelude::*;

verus! {

/// The distance between neighbours on the grid, in world units.
pub const SPACE_BETWEEN: i64 = 4;

/// The angle, in degrees, by which a placement off the origin is turned.
pub const ROTATION_DEGREES: u32 = 45;

/// A vector of whole world units.
#[derive(Clone, Copy, Debug, PartialEq, Eq, Structural)]
pub struct Vector3 {
    pub x: i64,
    pub y: i64,
    pub z: i64,
}

impl Vector3 {
    /// All three coordinates are zero.
    pub open spec fn zero(self) -> bool {
        self.x == 0 && self.y == 0 && self.z == 0
    }

    /// Tells whether this is the zero vector.
    pub fn is_zero(&self) -> (r: bool)
        ensures
            r == self.zero(),
    {
        self.x == 0 && self.y == 0 && self.z == 0
    }
}

/// A rotation by `degrees` about `axis`. Of the axis only the direction
/// counts, so it may not be the zero vector.
#[derive(Clone, Copy, Debug, PartialEq, Eq, Structural)]
pub struct Rotation {
    pub axis: Vector3,
    pub degrees: u32,
}

/// One placement: a translation, a rotation and a scale that is the same
/// along all axes.
#[derive(Clone, Copy, Debug, PartialEq, Eq, Structural)]
pub struct Transform {
    pub translation: Vector3,
    pub rotation: Rotation,
    pub scale: u32,
}

impl Transform {
    /// The rotation has a direction to turn about.
    pub open spec fn wf(self) -> bool {
        !self.rotation.axis.zero()
    }
}

/// No rotation: zero degrees about the Z axis.
pub open spec fn identity_rotation() -> Rotation {
    Rotation { axis: Vector3 { x: 0, y: 0, z: 1 }, degrees: 0 }
}

/// The coordinate of grid index `index` out of `count`: the spacing times
/// the distance of the index from half the count.
pub open spec fn coordinate(index: int, count: int) -> int {
    SPACE_BETWEEN * index - (SPACE_BETWEEN / 2) * count
}

/// The placement at column `x` and row `z` of a grid of `rows` by `cols`.
/// At the origin it is not turned; elsewhere it is turned about the line
/// from the origin through it.
pub open spec fn placement(x: int, z: int, rows: int, cols: int) -> Transform {
    let translation = Vector3 {
        x: coordinate(x, cols) as i64,
        y: 0,
        z: coordinate(z, rows) as i64,
    };
    Transform {
        translation,
        rotation: if translation.zero() {
            identity_rotation()
        } else {
            Rotation { axis: translation, degrees: ROTATION_DEGREES }
        },
        scale: 1,
    }
}

/// The grid of `rows` by `cols` placements, row after row.
pub open spec fn grid(rows: nat, cols: nat) -> Seq<Transform> {
    Seq::new(
        rows * cols,
        |i: int| placement(i % (cols as int), i / (cols as int), rows as int, cols as int),
    )
}

/// The placement at one grid index.
fn place(x: u32, z: u32, rows: u32, cols: u32) -> (r: Transform)
    requires
        x < cols,
        z < rows,
    ensures
        r == placement(x as int, z as int, rows as int, cols as int),
        r.wf(),
{
    let translation = Vector3 {
        x: SPACE_BETWEEN * (x as i64) - (SPACE_BETWEEN / 2) * (cols as i64),
        y: 0,
        z: SPACE_BETWEEN * (z as i64) - (SPACE_BETWEEN / 2) * (rows as i64),
    };
    let rotation = if translation.is_zero() {
        Rotation { axis: Vector3 { x: 0, y: 0, z: 1 }, degrees: 0 }
    } else {
        Rotation { axis: translation, degrees: ROTATION_DEGREES }
    };
    Transform { translation, rotation, scale: 1 }
}

/// Generates the grid of `rows` by `cols` placements, row after row.
pub fn generate_transforms(rows: u32, cols: u32) -> (r: Vec<Transform>)
    ensures
        r@ == grid(rows as nat, cols as nat),
        r@.len() == rows * cols,
        forall|i: int| 0 <= i < r@.len() ==> (#[trigger] r@[i]).wf(),
{
    let mut transforms: Vec<Transform> = Vec::new();
    let mut z: u32 = 0;
    while z < rows
        invariant
            z <= rows,
            transforms@.len() == z * cols,
            forall|i: int|
                0 <= i < transforms@.len() ==> #[trigger] transforms@[i] == placement(
                    i % (cols as int),
                    i / (cols as int),
                    rows as int,
                    cols as int,
                ),
            forall|i: int| 0 <= i < transforms@.len() ==> (#[trigger] transforms@[i]).wf(),
        decreases rows - z,
    {
        let mut x: u32 = 0;
        while x < cols
            invariant
                z < rows,
                x <= cols,
                transforms@.len() == z * cols + x,
                forall|i: int|
                    0 <= i < transforms@.len() ==> #[trigger] transforms@[i] == placement(
                        i % (cols as int),
                        i / (cols as int),
                        rows as int,
                        cols as int,
                    ),
                forall|i: int| 0 <= i < transforms@.len() ==> (#[trigger] transforms@[i]).wf(),
            decreases cols - x,
        {
            proof {
                lemma_mul_is_commutative(z as int, cols as int);
                lemma_fundamental_div_mod_converse(z * cols + x, cols as int, z as int, x as int);
            }
            transforms.push(place(x, z, rows, cols));
            x += 1;
        }
        assert(z * cols + cols == (z + 1) * cols) by (nonlinear_arith);
        z += 1;
    }
    assert(transforms@.len() == rows * cols);
    assert(transforms@ =~= grid(rows as nat, cols as nat));
    transforms
}

/// The packed form of one placement: the model matrix in four rows of four
/// words and the normal matrix in three rows of three, as single-precision
/// bit patterns. It is 100 bytes long, without padding.
#[derive(Clone, Copy, Debug)]
pub struct FlatTransform {
    pub model_transform: [[u32; 4]; 4],
    pub normal_transform: [[u32; 3]; 3],
}

impl FlatTransform {
    /// The 25 words of the record in the order in which they are stored:
    /// the model matrix row by row, then the normal matrix row by row.
    pub open spec fn words(&self) -> Seq<u32> {
        self.model_transform[0]@ + self.model_transform[1]@ + self.model_transform[2]@
            + self.model_transform[3]@ + self.normal_transform[0]@ + self.normal_transform[1]@
            + self.normal_transform[2]@
    }

    /// Appends the words of the record to a buffer of words.
    pub(crate) fn push_words(&self, words: &mut Vec<u32>)
        ensures
            final(words)@ == old(words)@ + self.words(),
            self.words().len() == 25,
    {
        push_row(words, &self.model_transform[0]);
        push_row(words, &self.model_transform[1]);
        push_row(words, &self.model_transform[2]);
        push_row(words, &self.model_transform[3]);
        push_row(words, &self.normal_transform[0]);
        push_row(words, &self.normal_transform[1]);
        push_row(words, &self.normal_transform[2]);
        assert(words@ =~= old(words)@ + self.words());
    }

    /// The words of the record in storage order.
    pub fn to_words(&self) -> (r: Vec<u32>)
        ensures
            r@ == self.words(),
            r@.len() == 25,
    {
        let mut words: Vec<u32> = Vec::new();
        self.push_words(&mut words);
        assert(words@ =~= self.words());
        words
    }
}

/// The words of a run of records, 25 for each, in the order of the records.
pub open spec fn record_words(records: Seq<FlatTransform>) -> Seq<u32> {
    Seq::new(25 * records.len(), |i: int| records[i / 25].words()[i % 25])
}

/// Packs records into the bytes of an instance buffer: 100 bytes for each,
/// one after the other without padding.
pub fn pack_records(records: &Vec<FlatTransform>) -> (r: Vec<u8>)
    ensures
        packed(record_words(records@), r@),
        r@.len() == 100 * records@.len(),
{
    let mut words: Vec<u32> = Vec::new();
    let mut i: usize = 0;
    while i < records.len()
        invariant
            i <= records@.len(),
            words@.len() == 25 * i,
            forall|j: int|
                0 <= j < 25 * i ==> #[trigger] words@[j] == records@[j / 25].words()[j % 25],
        decreases records@.len() - i,
    {
        let ghost before = words@;
        records[i].push_words(&mut words);
        assert forall|j: int| 0 <= j < 25 * (i + 1) implies #[trigger] words@[j] == records@[j
            / 25].words()[j % 25] by {
            if j >= 25 * i {
                assert(j / 25 == i);
                assert(j % 25 == j - 25 * i);
                assert(words@[j] == records@[i as int].words()[j - 25 * i]);
            } else {
                assert(words@[j] == before[j]);
            }
        }
        i += 1;
    }
    assert(words@ =~= record_words(records@));
    words_to_bytes(&words)
}

/// The field of placements with the number of its instances.
#[derive(Debug)]
pub struct Transforms {
    transforms: Vec<Transform>,
    number: usize,
}

impl View for Transforms {
    type V = Seq<Transform>;

    /// The placements, in order.
    closed spec fn view(&self) -> Seq<Transform> {
        self.transforms@
    }
}

impl Transforms {
    #[verifier::type_invariant]
    spec fn inv(&self) -> bool {
        self.number == self.transforms@.len()
    }

    /// Starts a field of which the placements are not set yet.
    pub fn build() -> (r: TransformsBuilder<Option<Vec<Transform>>>)
        ensures
            r.transforms is None,
    {
        TransformsBuilder { transforms: None }
    }

    /// The placements, in order.
    pub fn transforms(&self) -> (r: &Vec<Transform>)
        ensures
            r@ == self@,
    {
        &self.transforms
    }

    /// The number of instances: one for each placement.
    pub fn instance_count(&self) -> (r: usize)
        ensures
            r == self@.len(),
    {
        proof {
            use_type_invariant(self);
        }
        self.number
    }

    /// The bytes of the instance buffer for the records made of the
    /// placements, or nothing where there is not one record for each
    /// placement.
    pub fn instance_bytes(&self, flattened: &Vec<FlatTransform>) -> (r: Option<Vec<u8>>)
        ensures
            r is Some <==> flattened@.len() == self@.len(),
            r matches Some(bytes) ==> packed(record_words(flattened@), bytes@) && bytes@.len()
                == 100 * self@.len(),
    {
        proof {
            use_type_invariant(self);
        }
        if flattened.len() == self.number {
            Some(pack_records(flattened))
        } else {
            None
        }
    }
}

/// A field in the making. The placements have the type of what was set for
/// them, so that only a builder with placements can be finished.
pub struct TransformsBuilder<T> {
    pub transforms: T,
}

impl<T> TransformsBuilder<T> {
    /// Sets the placements to the grid of `n` rows by `m` columns.
    pub fn transform_field(self, n: u32, m: u32) -> (r: TransformsBuilder<Vec<Transform>>)
        ensures
            r.transforms@ == grid(n as nat, m as nat),
    {
        let transforms = generate_transforms(n, m);
        TransformsBuilder { transforms }
    }
}

impl TransformsBuilder<Vec<Transform>> {
    /// The field of the placements that were set.
    pub fn finalize(self) -> (r: Transforms)
        ensures
            r@ == self.transforms@,
    {
        let number = self.transforms.len();
        Transforms { transforms: self.transforms, number }
    }
}

/// A grid of `rows` by `cols` has `rows * cols` placements, and so many
/// instances has the field that is built of it.
pub proof fn lemma_grid_cardinality(rows: u32, cols: u32, field: Transforms)
    requires
        field@ == grid(rows as nat, cols as nat),
    ensures
        grid(rows as nat, cols as nat).len() == rows * cols,
        field@.len() == rows * cols,
{
}

/// The index of column `x` in row `z` holds the placement of that column and
/// row.
pub proof fn lemma_grid_index(rows: u32, cols: u32, x: u32, z: u32)
    requires
        x < cols,
        z < rows,
    ensures
        0 <= z * cols + x < rows * cols,
        grid(rows as nat, cols as nat)[z * cols + x] == placement(
            x as int,
            z as int,
            rows as int,
            cols as int,
        ),
{
    lemma_mul_is_commutative(z as int, cols as int);
    lemma_fundamental_div_mod_converse(z * cols + x, cols as int, z as int, x as int);
    assert(z * cols + x < rows * cols) by (nonlinear_arith)
        requires
            x < cols,
            z < rows,
    ;
}

/// A placement is not turned exactly where its translation is zero, and its
/// translation is zero exactly where its column is half the columns and its
/// row half the rows.
pub proof fn lemma_identity_only_at_origin(rows: u32, cols: u32, x: u32, z: u32)
    requires
        x < cols,
        z < rows,
    ensures
        ({
            let p = placement(x as int, z as int, rows as int, cols as int);
            &&& p.rotation == identity_rotation() <==> p.translation.zero()
            &&& p.rotation.degrees == 0 <==> p.translation.zero()
            &&& !p.translation.zero() ==> p.rotation == (Rotation {
                axis: p.translation,
                degrees: ROTATION_DEGREES,
            })
            &&& p.translation.zero() <==> 2 * x == cols && 2 * z == rows
        }),
{
}

/// A grid holds a placement at the origin exactly when it has an even
/// number of rows and an even number of columns, neither being zero; with
/// an odd number of either, no placement has a zero translation and none is
/// left unturned.
pub proof fn lemma_origin_in_grid(rows: u32, cols: u32)
    ensures
        (exists|i: int|
            0 <= i < rows * cols && (#[trigger] grid(rows as nat, cols as nat)[i]).translation.zero())
            <==> rows > 0 && cols > 0 && rows % 2 == 0 && cols % 2 == 0,
        forall|i: int|
            0 <= i < rows * cols && (#[trigger] grid(rows as nat, cols as nat)[i]).translation.zero()
                ==> i == (rows / 2) * cols + cols / 2,
{
    let g = grid(rows as nat, cols as nat);
    assert forall|i: int| 0 <= i < rows * cols && (#[trigger] g[i]).translation.zero() implies cols
        > 0 && rows > 0 && rows % 2 == 0 && cols % 2 == 0 && i == (rows / 2) * cols + cols / 2 by {
        assert(cols > 0) by (nonlinear_arith)
            requires
                0 <= i < rows * cols,
        ;
        let x = i % (cols as int);
        let z = i / (cols as int);
        lemma_fundamental_div_mod(i, cols as int);
        lemma_mod_bound(i, cols as int);
        lemma_mul_is_commutative(z, cols as int);
        lemma_mul_is_commutative(rows as int, cols as int);
        lemma_multiply_divide_lt(i, cols as int, rows as int);
        lemma_div_pos_is_pos(i, cols as int);
        lemma_identity_only_at_origin(rows, cols, x as u32, z as u32);
        assert(2 * x == cols && 2 * z == rows);
        assert(i == (rows / 2) * cols + cols / 2) by (nonlinear_arith)
            requires
                i == z * cols + x,
                2 * x == cols,
                2 * z == rows,
        ;
    }
    if rows > 0 && cols > 0 && rows % 2 == 0 && cols % 2 == 0 {
        let x = (cols / 2) as u32;
        let z = (rows / 2) as u32;
        lemma_grid_index(rows, cols, x, z);
        lemma_identity_only_at_origin(rows, cols, x, z);
        assert(g[z * cols + x].translation.zero());
    }
}

} // verus!
