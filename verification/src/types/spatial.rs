//! Vectors, quaternions and poses.
//!
//! The components are double-precision numbers held as bit patterns. What can
//! be said of them without arithmetic is said here: the "unknown" values made
//! of not-a-numbers, conjugation, the embedding of a vector as a quaternion,
//! and which lengths and norms an operation accepts.
use vstd::prelude::*;
use crate::error::AlgebraError;
use crate::record::Record;
use crate::scalar::{lemma_neg_involution, Double};
use crate::schema::{
    fields_view, spec_field, FieldDescriptor, FieldType, FieldTypeView, FieldValue,
    FieldValueView, Schema, SchemaView,
};

verus! {

/// A vector of three numbers.
#[derive(Clone, Copy, Debug, PartialEq, Eq, Structural)]
pub struct Vector3r {
    /// The x component.
    pub x_val: Double,
    /// The y component.
    pub y_val: Double,
    /// The z component.
    pub z_val: Double,
}

impl View for Vector3r {
    type V = Vector3r;

    open spec fn view(&self) -> Vector3r {
        *self
    }
}

impl Vector3r {
    /// The vector whose components are all the canonical not-a-number.
    pub open spec fn spec_nan() -> Vector3r {
        Vector3r { x_val: Double::spec_nan(), y_val: Double::spec_nan(), z_val: Double::spec_nan() }
    }

    /// Whether some component is not-a-number, as in a vector that stands for
    /// "unknown".
    pub open spec fn spec_has_nan(&self) -> bool {
        self.x_val.spec_is_nan() || self.y_val.spec_is_nan() || self.z_val.spec_is_nan()
    }

    /// The "unknown" vector: every component is not-a-number, so that it
    /// differs from every measured vector, the zero vector included.
    #[verifier::when_used_as_spec(spec_nan)]
    pub fn nan_vector3r() -> (r: Vector3r)
        ensures
            r == Vector3r::spec_nan(),
            r.x_val.spec_is_nan() && r.y_val.spec_is_nan() && r.z_val.spec_is_nan(),
    {
        Vector3r { x_val: Double::nan(), y_val: Double::nan(), z_val: Double::nan() }
    }

    /// Whether some component is not-a-number.
    #[verifier::when_used_as_spec(spec_has_nan)]
    pub fn has_nan(&self) -> (r: bool)
        ensures
            r == self.spec_has_nan(),
    {
        self.x_val.is_nan() || self.y_val.is_nan() || self.z_val.is_nan()
    }
}

impl Default for Vector3r {
    /// The zero vector.
    fn default() -> (r: Vector3r)
        ensures
            r == (Vector3r {
                x_val: Double::spec_zero(),
                y_val: Double::spec_zero(),
                z_val: Double::spec_zero(),
            }),
    {
        Vector3r { x_val: Double::zero(), y_val: Double::zero(), z_val: Double::zero() }
    }
}

impl Record for Vector3r {
    open spec fn spec_schema() -> SchemaView {
        SchemaView {
            fields: seq![
                spec_field("x_val"@, FieldTypeView::Float),
                spec_field("y_val"@, FieldTypeView::Float),
                spec_field("z_val"@, FieldTypeView::Float),
            ],
        }
    }

    open spec fn spec_fields(record: Vector3r) -> Seq<FieldValueView> {
        seq![
            FieldValueView::Float(record.x_val),
            FieldValueView::Float(record.y_val),
            FieldValueView::Float(record.z_val),
        ]
    }

    open spec fn spec_assemble(fields: Seq<FieldValueView>) -> Vector3r {
        Vector3r {
            x_val: fields[0]->Float_0,
            y_val: fields[1]->Float_0,
            z_val: fields[2]->Float_0,
        }
    }

    fn schema() -> (r: Schema) {
        let mut fields: Vec<FieldDescriptor> = Vec::new();
        fields.push(FieldDescriptor::new("x_val", FieldType::Float));
        fields.push(FieldDescriptor::new("y_val", FieldType::Float));
        fields.push(FieldDescriptor::new("z_val", FieldType::Float));
        let r = Schema::new(fields);
        assert(r@.fields =~= Self::spec_schema().fields);
        r
    }

    fn to_fields(&self) -> (r: Vec<FieldValue>) {
        let mut fields: Vec<FieldValue> = Vec::new();
        fields.push(FieldValue::Float(self.x_val));
        fields.push(FieldValue::Float(self.y_val));
        fields.push(FieldValue::Float(self.z_val));
        assert(fields_view(fields@) =~= Self::spec_fields(self@));
        fields
    }

    fn from_fields(fields: &Vec<FieldValue>) -> (r: Vector3r) {
        proof {
            let given = fields_view(fields@);
            let schema = Self::spec_schema();
            assert(given[0].conforms(schema.fields[0].ty));
            assert(given[1].conforms(schema.fields[1].ty));
            assert(given[2].conforms(schema.fields[2].ty));
        }
        Vector3r {
            x_val: fields[0].as_float(),
            y_val: fields[1].as_float(),
            z_val: fields[2].as_float(),
        }
    }

    proof fn lemma_fields_conform(record: Vector3r) {
    }

    proof fn lemma_assemble_fields(record: Vector3r) {
    }

    proof fn lemma_schema_wf() {
        reveal_strlit("x_val");
        reveal_strlit("y_val");
        reveal_strlit("z_val");
        assert("x_val"@.len() == 5 && "x_val"@[0] == 'x');
        assert("y_val"@.len() == 5 && "y_val"@[0] == 'y');
        assert("z_val"@.len() == 5 && "z_val"@[0] == 'z');
    }
}

/// A quaternion: four numbers, the scalar part `w_val` first.
///
/// A quaternion of length one is a rotor and stands for a rotation.
#[derive(Clone, Copy, Debug, PartialEq, Eq, Structural)]
pub struct Quaternionr {
    /// The scalar part.
    pub w_val: Double,
    /// The first imaginary part.
    pub x_val: Double,
    /// The second imaginary part.
    pub y_val: Double,
    /// The third imaginary part.
    pub z_val: Double,
}

impl View for Quaternionr {
    type V = Quaternionr;

    open spec fn view(&self) -> Quaternionr {
        *self
    }
}

impl Quaternionr {
    /// The quaternion whose components are all the canonical not-a-number.
    pub open spec fn spec_nan() -> Quaternionr {
        Quaternionr {
            w_val: Double::spec_nan(),
            x_val: Double::spec_nan(),
            y_val: Double::spec_nan(),
            z_val: Double::spec_nan(),
        }
    }

    /// The quaternion with its imaginary parts negated.
    pub open spec fn spec_conjugate(&self) -> Quaternionr {
        Quaternionr {
            w_val: self.w_val,
            x_val: self.x_val.spec_neg(),
            y_val: self.y_val.spec_neg(),
            z_val: self.z_val.spec_neg(),
        }
    }

    /// The vector as a quaternion: scalar part zero, imaginary parts the
    /// components of the vector.
    pub open spec fn spec_from_vector(v: Vector3r) -> Quaternionr {
        Quaternionr { w_val: Double::spec_zero(), x_val: v.x_val, y_val: v.y_val, z_val: v.z_val }
    }

    /// Whether some component is not-a-number, as in a quaternion that stands
    /// for "unknown".
    pub open spec fn spec_has_nan(&self) -> bool {
        self.w_val.spec_is_nan() || self.x_val.spec_is_nan() || self.y_val.spec_is_nan()
            || self.z_val.spec_is_nan()
    }

    /// Whether some component is not-a-number.
    #[verifier::when_used_as_spec(spec_has_nan)]
    pub fn has_nan(&self) -> (r: bool)
        ensures
            r == self.spec_has_nan(),
    {
        self.w_val.is_nan() || self.x_val.is_nan() || self.y_val.is_nan() || self.z_val.is_nan()
    }

    /// The "unknown" quaternion: every component is not-a-number.
    #[verifier::when_used_as_spec(spec_nan)]
    pub fn nan_quaternionr() -> (r: Quaternionr)
        ensures
            r == Quaternionr::spec_nan(),
            r.w_val.spec_is_nan() && r.x_val.spec_is_nan() && r.y_val.spec_is_nan()
                && r.z_val.spec_is_nan(),
    {
        Quaternionr {
            w_val: Double::nan(),
            x_val: Double::nan(),
            y_val: Double::nan(),
            z_val: Double::nan(),
        }
    }

    /// The conjugate: the scalar part is kept, the imaginary parts change
    /// sign.
    #[verifier::when_used_as_spec(spec_conjugate)]
    pub fn conjugate(&self) -> (r: Quaternionr)
        ensures
            r == self.spec_conjugate(),
    {
        Quaternionr {
            w_val: self.w_val,
            x_val: self.x_val.neg(),
            y_val: self.y_val.neg(),
            z_val: self.z_val.neg(),
        }
    }

    /// Another name for the conjugate.
    pub fn star(&self) -> (r: Quaternionr)
        ensures
            r == self.spec_conjugate(),
    {
        self.conjugate()
    }

    /// Whether a quaternion of the given length may be used as a rotor.
    ///
    /// Only a length of exactly one is accepted: no tolerance is applied, so
    /// a rotor that is off by one rounding step is refused, and so is a
    /// length that is not-a-number.
    pub fn check_rotor_length(length: Double) -> (r: Result<(), AlgebraError>)
        ensures
            r == if length.spec_is_one() {
                Ok::<(), AlgebraError>(())
            } else {
                Err::<(), AlgebraError>(AlgebraError::QuaternionNotNormalized)
            },
    {
        if length.is_one() {
            Ok(())
        } else {
            Err(AlgebraError::QuaternionNotNormalized)
        }
    }

    /// Whether a quaternion may be divided by the given norm, as inversion
    /// and normalization do. A norm of zero, of either sign, is refused.
    pub fn check_divisor(norm: Double) -> (r: Result<(), AlgebraError>)
        ensures
            r == if norm.spec_is_zero() {
                Err::<(), AlgebraError>(AlgebraError::DivisionByZeroNorm)
            } else {
                Ok::<(), AlgebraError>(())
            },
    {
        if norm.is_zero() {
            Err(AlgebraError::DivisionByZeroNorm)
        } else {
            Ok(())
        }
    }
}

impl Default for Quaternionr {
    /// The zero quaternion.
    fn default() -> (r: Quaternionr)
        ensures
            r == (Quaternionr {
                w_val: Double::spec_zero(),
                x_val: Double::spec_zero(),
                y_val: Double::spec_zero(),
                z_val: Double::spec_zero(),
            }),
    {
        Quaternionr {
            w_val: Double::zero(),
            x_val: Double::zero(),
            y_val: Double::zero(),
            z_val: Double::zero(),
        }
    }
}

impl From<Vector3r> for Quaternionr {
    /// Embeds a vector as the imaginary part of a quaternion whose scalar
    /// part is zero.
    fn from(value: Vector3r) -> (r: Quaternionr) {
        Quaternionr {
            w_val: Double::zero(),
            x_val: value.x_val,
            y_val: value.y_val,
            z_val: value.z_val,
        }
    }
}

impl vstd::std_specs::convert::FromSpecImpl<Vector3r> for Quaternionr {
    open spec fn obeys_from_spec() -> bool {
        true
    }

    open spec fn from_spec(value: Vector3r) -> Quaternionr {
        Quaternionr::spec_from_vector(value)
    }
}

/// Conjugating twice gives the quaternion back, bit for bit.
pub proof fn lemma_conjugate_involution(q: Quaternionr)
    ensures
        q.spec_conjugate().spec_conjugate() == q,
{
    lemma_neg_involution(q.x_val);
    lemma_neg_involution(q.y_val);
    lemma_neg_involution(q.z_val);
}

/// The conjugate of an embedded vector is the embedding of the vector with
/// every component negated.
pub proof fn lemma_conjugate_of_vector(v: Vector3r)
    ensures
        Quaternionr::spec_from_vector(v).spec_conjugate() == Quaternionr::spec_from_vector(
            Vector3r {
                x_val: v.x_val.spec_neg(),
                y_val: v.y_val.spec_neg(),
                z_val: v.z_val.spec_neg(),
            },
        ),
{
}

impl Record for Quaternionr {
    open spec fn spec_schema() -> SchemaView {
        SchemaView {
            fields: seq![
                spec_field("w_val"@, FieldTypeView::Float),
                spec_field("x_val"@, FieldTypeView::Float),
                spec_field("y_val"@, FieldTypeView::Float),
                spec_field("z_val"@, FieldTypeView::Float),
            ],
        }
    }

    open spec fn spec_fields(record: Quaternionr) -> Seq<FieldValueView> {
        seq![
            FieldValueView::Float(record.w_val),
            FieldValueView::Float(record.x_val),
            FieldValueView::Float(record.y_val),
            FieldValueView::Float(record.z_val),
        ]
    }

    open spec fn spec_assemble(fields: Seq<FieldValueView>) -> Quaternionr {
        Quaternionr {
            w_val: fields[0]->Float_0,
            x_val: fields[1]->Float_0,
            y_val: fields[2]->Float_0,
            z_val: fields[3]->Float_0,
        }
    }

    fn schema() -> (r: Schema) {
        let mut fields: Vec<FieldDescriptor> = Vec::new();
        fields.push(FieldDescriptor::new("w_val", FieldType::Float));
        fields.push(FieldDescriptor::new("x_val", FieldType::Float));
        fields.push(FieldDescriptor::new("y_val", FieldType::Float));
        fields.push(FieldDescriptor::new("z_val", FieldType::Float));
        let r = Schema::new(fields);
        assert(r@.fields =~= Self::spec_schema().fields);
        r
    }

    fn to_fields(&self) -> (r: Vec<FieldValue>) {
        let mut fields: Vec<FieldValue> = Vec::new();
        fields.push(FieldValue::Float(self.w_val));
        fields.push(FieldValue::Float(self.x_val));
        fields.push(FieldValue::Float(self.y_val));
        fields.push(FieldValue::Float(self.z_val));
        assert(fields_view(fields@) =~= Self::spec_fields(self@));
        fields
    }

    fn from_fields(fields: &Vec<FieldValue>) -> (r: Quaternionr) {
        proof {
            let given = fields_view(fields@);
            let schema = Self::spec_schema();
            assert(given[0].conforms(schema.fields[0].ty));
            assert(given[1].conforms(schema.fields[1].ty));
            assert(given[2].conforms(schema.fields[2].ty));
            assert(given[3].conforms(schema.fields[3].ty));
        }
        Quaternionr {
            w_val: fields[0].as_float(),
            x_val: fields[1].as_float(),
            y_val: fields[2].as_float(),
            z_val: fields[3].as_float(),
        }
    }

    proof fn lemma_fields_conform(record: Quaternionr) {
    }

    proof fn lemma_assemble_fields(record: Quaternionr) {
    }

    proof fn lemma_schema_wf() {
        reveal_strlit("w_val");
        reveal_strlit("x_val");
        reveal_strlit("y_val");
        reveal_strlit("z_val");
        assert("w_val"@.len() == 5 && "w_val"@[0] == 'w');
        assert("x_val"@.len() == 5 && "x_val"@[0] == 'x');
        assert("y_val"@.len() == 5 && "y_val"@[0] == 'y');
        assert("z_val"@.len() == 5 && "z_val"@[0] == 'z');
    }
}

/// A position and an orientation.
///
/// Either may be "unknown": made of not-a-numbers.
#[derive(Clone, Copy, Debug, PartialEq, Eq, Structural)]
pub struct Pose {
    pub position: Vector3r,
    pub orientation: Quaternionr,
}

impl View for Pose {
    type V = Pose;

    open spec fn view(&self) -> Pose {
        *self
    }
}

impl Pose {
    /// The pose of which nothing is known.
    pub open spec fn spec_nan() -> Pose {
        Pose { position: Vector3r::spec_nan(), orientation: Quaternionr::spec_nan() }
    }

    /// The pose with the given position and orientation, each "unknown"
    /// where none is given.
    pub fn new(position_val: Option<Vector3r>, orientation_val: Option<Quaternionr>) -> (r: Pose)
        ensures
            r.position == match position_val {
                Some(p) => p,
                None => Vector3r::spec_nan(),
            },
            r.orientation == match orientation_val {
                Some(o) => o,
                None => Quaternionr::spec_nan(),
            },
    {
        let position = match position_val {
            Some(p) => p,
            None => Vector3r::nan_vector3r(),
        };
        let orientation = match orientation_val {
            Some(o) => o,
            None => Quaternionr::nan_quaternionr(),
        };
        Pose { position, orientation }
    }

    /// The pose of which nothing is known.
    #[verifier::when_used_as_spec(spec_nan)]
    pub fn nan_pose() -> (r: Pose)
        ensures
            r == Pose::spec_nan(),
    {
        Pose { position: Vector3r::nan_vector3r(), orientation: Quaternionr::nan_quaternionr() }
    }
}

impl Default for Pose {
    /// The pose of which nothing is known: "no data yet" is not "measured as
    /// zero".
    fn default() -> (r: Pose)
        ensures
            r == Pose::spec_nan(),
    {
        Pose::nan_pose()
    }
}

impl Record for Pose {
    open spec fn spec_schema() -> SchemaView {
        SchemaView {
            fields: seq![
                spec_field("position"@, FieldTypeView::Record(Vector3r::spec_schema())),
                spec_field("orientation"@, FieldTypeView::Record(Quaternionr::spec_schema())),
            ],
        }
    }

    open spec fn spec_fields(record: Pose) -> Seq<FieldValueView> {
        seq![
            FieldValueView::Record(Vector3r::spec_fields(record.position)),
            FieldValueView::Record(Quaternionr::spec_fields(record.orientation)),
        ]
    }

    open spec fn spec_assemble(fields: Seq<FieldValueView>) -> Pose {
        Pose {
            position: Vector3r::spec_assemble(fields[0]->Record_0),
            orientation: Quaternionr::spec_assemble(fields[1]->Record_0),
        }
    }

    fn schema() -> (r: Schema) {
        let mut fields: Vec<FieldDescriptor> = Vec::new();
        fields.push(FieldDescriptor::new("position", FieldType::Record(Vector3r::schema())));
        fields.push(FieldDescriptor::new("orientation", FieldType::Record(Quaternionr::schema())));
        let r = Schema::new(fields);
        assert(r@.fields =~= Self::spec_schema().fields);
        r
    }

    fn to_fields(&self) -> (r: Vec<FieldValue>) {
        let mut fields: Vec<FieldValue> = Vec::new();
        fields.push(FieldValue::Record(self.position.to_fields()));
        fields.push(FieldValue::Record(self.orientation.to_fields()));
        assert(fields_view(fields@) =~= Self::spec_fields(self@));
        fields
    }

    fn from_fields(fields: &Vec<FieldValue>) -> (r: Pose) {
        proof {
            let given = fields_view(fields@);
            let schema = Self::spec_schema();
            assert(given[0].conforms(schema.fields[0].ty));
            assert(given[1].conforms(schema.fields[1].ty));
        }
        Pose {
            position: Vector3r::from_fields(fields[0].as_record()),
            orientation: Quaternionr::from_fields(fields[1].as_record()),
        }
    }

    proof fn lemma_fields_conform(record: Pose) {
        Vector3r::lemma_fields_conform(record.position);
        Quaternionr::lemma_fields_conform(record.orientation);
    }

    proof fn lemma_assemble_fields(record: Pose) {
        Vector3r::lemma_assemble_fields(record.position);
        Quaternionr::lemma_assemble_fields(record.orientation);
    }

    proof fn lemma_schema_wf() {
        Vector3r::lemma_schema_wf();
        Quaternionr::lemma_schema_wf();
        reveal_strlit("position");
        reveal_strlit("orientation");
        assert("position"@.len() == 8 && "position"@[0] == 'p');
        assert("orientation"@.len() == 11 && "orientation"@[0] == 'o');
    }
}

/// A point in the plane of the map.
#[derive(Clone, Copy, Debug, PartialEq, Eq, Structural)]
pub struct Position2D {
    pub x_val: Double,
    pub y_val: Double,
}

impl View for Position2D {
    type V = Position2D;

    open spec fn view(&self) -> Position2D {
        *self
    }
}

impl Default for Position2D {
    /// The origin.
    fn default() -> (r: Position2D)
        ensures
            r == (Position2D { x_val: Double::spec_zero(), y_val: Double::spec_zero() }),
    {
        Position2D { x_val: Double::zero(), y_val: Double::zero() }
    }
}

impl Record for Position2D {
    open spec fn spec_schema() -> SchemaView {
        SchemaView {
            fields: seq![
                spec_field("x_val"@, FieldTypeView::Float),
                spec_field("y_val"@, FieldTypeView::Float),
            ],
        }
    }

    open spec fn spec_fields(record: Position2D) -> Seq<FieldValueView> {
        seq![
            FieldValueView::Float(record.x_val),
            FieldValueView::Float(record.y_val),
        ]
    }

    open spec fn spec_assemble(fields: Seq<FieldValueView>) -> Position2D {
        Position2D {
            x_val: fields[0]->Float_0,
            y_val: fields[1]->Float_0,
        }
    }

    fn schema() -> (r: Schema) {
        let mut fields: Vec<FieldDescriptor> = Vec::new();
        fields.push(FieldDescriptor::new("x_val", FieldType::Float));
        fields.push(FieldDescriptor::new("y_val", FieldType::Float));
        let r = Schema::new(fields);
        assert(r@.fields =~= Self::spec_schema().fields);
        r
    }

    fn to_fields(&self) -> (r: Vec<FieldValue>) {
        let mut fields: Vec<FieldValue> = Vec::new();
        fields.push(FieldValue::Float(self.x_val));
        fields.push(FieldValue::Float(self.y_val));
        assert(fields_view(fields@) =~= Self::spec_fields(self@));
        fields
    }

    fn from_fields(fields: &Vec<FieldValue>) -> (r: Position2D) {
        proof {
            let given = fields_view(fields@);
            let schema = Self::spec_schema();
            assert(given[0].conforms(schema.fields[0].ty));
            assert(given[1].conforms(schema.fields[1].ty));
        }
        Position2D {
            x_val: fields[0].as_float(),
            y_val: fields[1].as_float(),
        }
    }

    proof fn lemma_fields_conform(record: Position2D) {
    }

    proof fn lemma_assemble_fields(record: Position2D) {
    }

    proof fn lemma_schema_wf() {
        reveal_strlit("x_val");
        reveal_strlit("y_val");
        assert("x_val"@.len() == 5 && "x_val"@[0] == 'x');
        assert("y_val"@.len() == 5 && "y_val"@[0] == 'y');
    }
}

} // verus!
