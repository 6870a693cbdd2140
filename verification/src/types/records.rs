//! The record catalog: the shapes of the parameters and replies of the
//! simulator's calls.
//!
//! Each record is its fields and a schema that names them in order; how a
//! record is encoded and decoded follows from the schema alone.
use vstd::prelude::*;
use crate::record::Record;
use crate::scalar::Double;
use crate::schema::{
    fields_view, lemma_records_view_push, record_conforms, records_view, spec_field,
    FieldDescriptor, FieldType, FieldTypeView, FieldValue, FieldValueView, Schema, SchemaView,
};
use crate::types::image::{ImageType, IMAGE_TYPE_COUNT};
use crate::types::spatial::{Position2D, Quaternionr, Vector3r};

verus! {

/// A point on the globe.
#[derive(Clone, Copy, Debug, PartialEq, Eq, Structural)]
pub struct GeoPoint {
    pub latitude: Double,
    pub longitude: Double,
    pub altitude: Double,
}

impl View for GeoPoint {
    type V = GeoPoint;

    open spec fn view(&self) -> GeoPoint {
        *self
    }
}

impl Default for GeoPoint {
    /// Latitude, longitude and altitude zero.
    fn default() -> (r: GeoPoint)
        ensures
            r == (GeoPoint {
                latitude: Double::spec_zero(),
                longitude: Double::spec_zero(),
                altitude: Double::spec_zero(),
            }),
    {
        GeoPoint {
            latitude: Double::zero(),
            longitude: Double::zero(),
            altitude: Double::zero(),
        }
    }
}

impl Record for GeoPoint {
    open spec fn spec_schema() -> SchemaView {
        SchemaView {
            fields: seq![
                spec_field("latitude"@, FieldTypeView::Float),
                spec_field("longitude"@, FieldTypeView::Float),
                spec_field("altitude"@, FieldTypeView::Float),
            ],
        }
    }

    open spec fn spec_fields(record: GeoPoint) -> Seq<FieldValueView> {
        seq![
            FieldValueView::Float(record.latitude),
            FieldValueView::Float(record.longitude),
            FieldValueView::Float(record.altitude),
        ]
    }

    open spec fn spec_assemble(fields: Seq<FieldValueView>) -> GeoPoint {
        GeoPoint {
            latitude: fields[0]->Float_0,
            longitude: fields[1]->Float_0,
            altitude: fields[2]->Float_0,
        }
    }

    fn schema() -> (r: Schema) {
        let mut fields: Vec<FieldDescriptor> = Vec::new();
        fields.push(FieldDescriptor::new("latitude", FieldType::Float));
        fields.push(FieldDescriptor::new("longitude", FieldType::Float));
        fields.push(FieldDescriptor::new("altitude", FieldType::Float));
        let r = Schema::new(fields);
        assert(r@.fields =~= Self::spec_schema().fields);
        r
    }

    fn to_fields(&self) -> (r: Vec<FieldValue>) {
        let mut fields: Vec<FieldValue> = Vec::new();
        fields.push(FieldValue::Float(self.latitude));
        fields.push(FieldValue::Float(self.longitude));
        fields.push(FieldValue::Float(self.altitude));
        assert(fields_view(fields@) =~= Self::spec_fields(self@));
        fields
    }

    fn from_fields(fields: &Vec<FieldValue>) -> (r: GeoPoint) {
        proof {
            let given = fields_view(fields@);
            let schema = Self::spec_schema();
            assert(given[0].conforms(schema.fields[0].ty));
            assert(given[1].conforms(schema.fields[1].ty));
            assert(given[2].conforms(schema.fields[2].ty));
        }
        GeoPoint {
            latitude: fields[0].as_float(),
            longitude: fields[1].as_float(),
            altitude: fields[2].as_float(),
        }
    }

    proof fn lemma_fields_conform(record: GeoPoint) {
    }

    proof fn lemma_assemble_fields(record: GeoPoint) {
    }

    proof fn lemma_schema_wf() {
        reveal_strlit("latitude");
        reveal_strlit("longitude");
        reveal_strlit("altitude");
        assert("latitude"@.len() == 8 && "latitude"@[0] == 'l');
        assert("longitude"@.len() == 9 && "longitude"@[0] == 'l');
        assert("altitude"@.len() == 8 && "altitude"@[0] == 'a');
    }
}

/// What to ask of a camera.
#[derive(Debug, PartialEq, Eq)]
pub struct ImageRequest {
    /// The name of the camera.
    pub camera_name: String,
    /// The kind of image wanted.
    pub image_type: ImageType,
    /// Whether the pixels come as floating-point numbers.
    pub pixels_as_float: bool,
    /// Whether the image comes compressed.
    pub compress: bool,
}

/// Mathematical counterpart of [`ImageRequest`].
pub struct ImageRequestView {
    pub camera_name: Seq<char>,
    pub image_type: ImageType,
    pub pixels_as_float: bool,
    pub compress: bool,
}

impl View for ImageRequest {
    type V = ImageRequestView;

    open spec fn view(&self) -> ImageRequestView {
        ImageRequestView {
            camera_name: self.camera_name@,
            image_type: self.image_type,
            pixels_as_float: self.pixels_as_float,
            compress: self.compress,
        }
    }
}

impl Clone for ImageRequest {
    fn clone(&self) -> (r: ImageRequest)
        ensures
            r@ == self@,
    {
        ImageRequest {
            camera_name: self.camera_name.clone(),
            image_type: self.image_type,
            pixels_as_float: self.pixels_as_float,
            compress: self.compress,
        }
    }
}

impl Default for ImageRequest {
    /// A plain scene from camera "0": neither floating-point pixels nor
    /// compression.
    fn default() -> (r: ImageRequest)
        ensures
            r@ == (ImageRequestView {
                camera_name: "0"@,
                image_type: ImageType::Scene,
                pixels_as_float: false,
                compress: false,
            }),
    {
        ImageRequest {
            camera_name: "0".to_owned(),
            image_type: ImageType::Scene,
            pixels_as_float: false,
            compress: false,
        }
    }
}

impl Record for ImageRequest {
    open spec fn spec_schema() -> SchemaView {
        SchemaView {
            fields: seq![
                spec_field("camera_name"@, FieldTypeView::Text),
                spec_field("image_type"@, FieldTypeView::Enumeration(IMAGE_TYPE_COUNT)),
                spec_field("pixels_as_float"@, FieldTypeView::Boolean),
                spec_field("compress"@, FieldTypeView::Boolean),
            ],
        }
    }

    open spec fn spec_fields(record: ImageRequestView) -> Seq<FieldValueView> {
        seq![
            FieldValueView::Text(record.camera_name),
            FieldValueView::Enumeration(record.image_type.spec_discriminant()),
            FieldValueView::Boolean(record.pixels_as_float),
            FieldValueView::Boolean(record.compress),
        ]
    }

    open spec fn spec_assemble(fields: Seq<FieldValueView>) -> ImageRequestView {
        ImageRequestView {
            camera_name: fields[0]->Text_0,
            image_type: ImageType::spec_from_discriminant(fields[1]->Enumeration_0),
            pixels_as_float: fields[2]->Boolean_0,
            compress: fields[3]->Boolean_0,
        }
    }

    fn schema() -> (r: Schema) {
        let mut fields: Vec<FieldDescriptor> = Vec::new();
        fields.push(FieldDescriptor::new("camera_name", FieldType::Text));
        fields.push(FieldDescriptor::new("image_type", FieldType::Enumeration(IMAGE_TYPE_COUNT)));
        fields.push(FieldDescriptor::new("pixels_as_float", FieldType::Boolean));
        fields.push(FieldDescriptor::new("compress", FieldType::Boolean));
        let r = Schema::new(fields);
        assert(r@.fields =~= Self::spec_schema().fields);
        r
    }

    fn to_fields(&self) -> (r: Vec<FieldValue>) {
        let mut fields: Vec<FieldValue> = Vec::new();
        fields.push(FieldValue::Text(self.camera_name.clone()));
        fields.push(FieldValue::Enumeration(self.image_type.discriminant()));
        fields.push(FieldValue::Boolean(self.pixels_as_float));
        fields.push(FieldValue::Boolean(self.compress));
        assert(fields_view(fields@) =~= Self::spec_fields(self@));
        fields
    }

    fn from_fields(fields: &Vec<FieldValue>) -> (r: ImageRequest) {
        proof {
            let given = fields_view(fields@);
            let schema = Self::spec_schema();
            assert(given[0].conforms(schema.fields[0].ty));
            assert(given[1].conforms(schema.fields[1].ty));
            assert(given[2].conforms(schema.fields[2].ty));
            assert(given[3].conforms(schema.fields[3].ty));
        }
        ImageRequest {
            camera_name: fields[0].as_text().clone(),
            image_type: ImageType::variant(fields[1].as_enumeration()),
            pixels_as_float: fields[2].as_boolean(),
            compress: fields[3].as_boolean(),
        }
    }

    proof fn lemma_fields_conform(record: ImageRequestView) {
    }

    proof fn lemma_assemble_fields(record: ImageRequestView) {
    }

    proof fn lemma_schema_wf() {
        reveal_strlit("camera_name");
        reveal_strlit("image_type");
        reveal_strlit("pixels_as_float");
        reveal_strlit("compress");
        assert("camera_name"@.len() == 11 && "camera_name"@[0] == 'c');
        assert("image_type"@.len() == 10 && "image_type"@[0] == 'i');
        assert("pixels_as_float"@.len() == 15 && "pixels_as_float"@[0] == 'p');
        assert("compress"@.len() == 8 && "compress"@[0] == 'c');
    }
}

/// What a camera answers.
#[derive(Debug, PartialEq, Eq)]
pub struct ImageResponse {
    pub image_data_uint8: u64,
    pub image_data_float: Double,
    pub camera_position: Vector3r,
    pub camera_orientation: Quaternionr,
    pub timestamp: u64,
    pub message: String,
    pub pixels_as_float: Double,
    pub compress: bool,
    pub width: u64,
    pub height: u64,
    pub image_type: ImageType,
}

/// Mathematical counterpart of [`ImageResponse`].
pub struct ImageResponseView {
    pub image_data_uint8: u64,
    pub image_data_float: Double,
    pub camera_position: Vector3r,
    pub camera_orientation: Quaternionr,
    pub timestamp: u64,
    pub message: Seq<char>,
    pub pixels_as_float: Double,
    pub compress: bool,
    pub width: u64,
    pub height: u64,
    pub image_type: ImageType,
}

impl View for ImageResponse {
    type V = ImageResponseView;

    open spec fn view(&self) -> ImageResponseView {
        ImageResponseView {
            image_data_uint8: self.image_data_uint8,
            image_data_float: self.image_data_float,
            camera_position: self.camera_position,
            camera_orientation: self.camera_orientation,
            timestamp: self.timestamp,
            message: self.message@,
            pixels_as_float: self.pixels_as_float,
            compress: self.compress,
            width: self.width,
            height: self.height,
            image_type: self.image_type,
        }
    }
}

impl Clone for ImageResponse {
    fn clone(&self) -> (r: ImageResponse)
        ensures
            r@ == self@,
    {
        ImageResponse {
            image_data_uint8: self.image_data_uint8,
            image_data_float: self.image_data_float,
            camera_position: self.camera_position,
            camera_orientation: self.camera_orientation,
            timestamp: self.timestamp,
            message: self.message.clone(),
            pixels_as_float: self.pixels_as_float,
            compress: self.compress,
            width: self.width,
            height: self.height,
            image_type: self.image_type,
        }
    }
}

impl Default for ImageResponse {
    /// An empty, compressed scene: every number zero, the camera at the
    /// origin, no message.
    fn default() -> (r: ImageResponse)
        ensures
            r@ == (ImageResponseView {
                image_data_uint8: 0,
                image_data_float: Double::spec_zero(),
                camera_position: Vector3r {
                    x_val: Double::spec_zero(),
                    y_val: Double::spec_zero(),
                    z_val: Double::spec_zero(),
                },
                camera_orientation: Quaternionr {
                    w_val: Double::spec_zero(),
                    x_val: Double::spec_zero(),
                    y_val: Double::spec_zero(),
                    z_val: Double::spec_zero(),
                },
                timestamp: 0,
                message: Seq::<char>::empty(),
                pixels_as_float: Double::spec_zero(),
                compress: true,
                width: 0,
                height: 0,
                image_type: ImageType::Scene,
            }),
    {
        ImageResponse {
            image_data_uint8: 0,
            image_data_float: Double::zero(),
            camera_position: Vector3r::default(),
            camera_orientation: Quaternionr::default(),
            timestamp: 0,
            message: String::new(),
            pixels_as_float: Double::zero(),
            compress: true,
            width: 0,
            height: 0,
            image_type: ImageType::Scene,
        }
    }
}

impl Record for ImageResponse {
    open spec fn spec_schema() -> SchemaView {
        SchemaView {
            fields: seq![
                spec_field("image_data_uint8"@, FieldTypeView::Unsigned),
                spec_field("image_data_float"@, FieldTypeView::Float),
                spec_field("camera_position"@, FieldTypeView::Record(Vector3r::spec_schema())),
                spec_field(
                    "camera_orientation"@,
                    FieldTypeView::Record(Quaternionr::spec_schema()),
                ),
                spec_field("timestamp"@, FieldTypeView::Unsigned),
                spec_field("message"@, FieldTypeView::Text),
                spec_field("pixels_as_float"@, FieldTypeView::Float),
                spec_field("compress"@, FieldTypeView::Boolean),
                spec_field("width"@, FieldTypeView::Unsigned),
                spec_field("height"@, FieldTypeView::Unsigned),
                spec_field("image_type"@, FieldTypeView::Enumeration(IMAGE_TYPE_COUNT)),
            ],
        }
    }

    open spec fn spec_fields(record: ImageResponseView) -> Seq<FieldValueView> {
        seq![
            FieldValueView::Unsigned(record.image_data_uint8),
            FieldValueView::Float(record.image_data_float),
            FieldValueView::Record(Vector3r::spec_fields(record.camera_position)),
            FieldValueView::Record(Quaternionr::spec_fields(record.camera_orientation)),
            FieldValueView::Unsigned(record.timestamp),
            FieldValueView::Text(record.message),
            FieldValueView::Float(record.pixels_as_float),
            FieldValueView::Boolean(record.compress),
            FieldValueView::Unsigned(record.width),
            FieldValueView::Unsigned(record.height),
            FieldValueView::Enumeration(record.image_type.spec_discriminant()),
        ]
    }

    open spec fn spec_assemble(fields: Seq<FieldValueView>) -> ImageResponseView {
        ImageResponseView {
            image_data_uint8: fields[0]->Unsigned_0,
            image_data_float: fields[1]->Float_0,
            camera_position: Vector3r::spec_assemble(fields[2]->Record_0),
            camera_orientation: Quaternionr::spec_assemble(fields[3]->Record_0),
            timestamp: fields[4]->Unsigned_0,
            message: fields[5]->Text_0,
            pixels_as_float: fields[6]->Float_0,
            compress: fields[7]->Boolean_0,
            width: fields[8]->Unsigned_0,
            height: fields[9]->Unsigned_0,
            image_type: ImageType::spec_from_discriminant(fields[10]->Enumeration_0),
        }
    }

    fn schema() -> (r: Schema) {
        let mut fields: Vec<FieldDescriptor> = Vec::new();
        fields.push(FieldDescriptor::new("image_data_uint8", FieldType::Unsigned));
        fields.push(FieldDescriptor::new("image_data_float", FieldType::Float));
        fields.push(FieldDescriptor::new("camera_position", FieldType::Record(Vector3r::schema())));
        fields.push(
            FieldDescriptor::new("camera_orientation", FieldType::Record(Quaternionr::schema())),
        );
        fields.push(FieldDescriptor::new("timestamp", FieldType::Unsigned));
        fields.push(FieldDescriptor::new("message", FieldType::Text));
        fields.push(FieldDescriptor::new("pixels_as_float", FieldType::Float));
        fields.push(FieldDescriptor::new("compress", FieldType::Boolean));
        fields.push(FieldDescriptor::new("width", FieldType::Unsigned));
        fields.push(FieldDescriptor::new("height", FieldType::Unsigned));
        fields.push(FieldDescriptor::new("image_type", FieldType::Enumeration(IMAGE_TYPE_COUNT)));
        let r = Schema::new(fields);
        assert(r@.fields =~= Self::spec_schema().fields);
        r
    }

    fn to_fields(&self) -> (r: Vec<FieldValue>) {
        let mut fields: Vec<FieldValue> = Vec::new();
        fields.push(FieldValue::Unsigned(self.image_data_uint8));
        fields.push(FieldValue::Float(self.image_data_float));
        fields.push(FieldValue::Record(self.camera_position.to_fields()));
        fields.push(FieldValue::Record(self.camera_orientation.to_fields()));
        fields.push(FieldValue::Unsigned(self.timestamp));
        fields.push(FieldValue::Text(self.message.clone()));
        fields.push(FieldValue::Float(self.pixels_as_float));
        fields.push(FieldValue::Boolean(self.compress));
        fields.push(FieldValue::Unsigned(self.width));
        fields.push(FieldValue::Unsigned(self.height));
        fields.push(FieldValue::Enumeration(self.image_type.discriminant()));
        assert(fields_view(fields@) =~= Self::spec_fields(self@));
        fields
    }

    fn from_fields(fields: &Vec<FieldValue>) -> (r: ImageResponse) {
        proof {
            let given = fields_view(fields@);
            let schema = Self::spec_schema();
            assert(given[0].conforms(schema.fields[0].ty));
            assert(given[1].conforms(schema.fields[1].ty));
            assert(given[2].conforms(schema.fields[2].ty));
            assert(given[3].conforms(schema.fields[3].ty));
            assert(given[4].conforms(schema.fields[4].ty));
            assert(given[5].conforms(schema.fields[5].ty));
            assert(given[6].conforms(schema.fields[6].ty));
            assert(given[7].conforms(schema.fields[7].ty));
            assert(given[8].conforms(schema.fields[8].ty));
            assert(given[9].conforms(schema.fields[9].ty));
            assert(given[10].conforms(schema.fields[10].ty));
        }
        ImageResponse {
            image_data_uint8: fields[0].as_unsigned(),
            image_data_float: fields[1].as_float(),
            camera_position: Vector3r::from_fields(fields[2].as_record()),
            camera_orientation: Quaternionr::from_fields(fields[3].as_record()),
            timestamp: fields[4].as_unsigned(),
            message: fields[5].as_text().clone(),
            pixels_as_float: fields[6].as_float(),
            compress: fields[7].as_boolean(),
            width: fields[8].as_unsigned(),
            height: fields[9].as_unsigned(),
            image_type: ImageType::variant(fields[10].as_enumeration()),
        }
    }

    proof fn lemma_fields_conform(record: ImageResponseView) {
        Vector3r::lemma_fields_conform(record.camera_position);
        Quaternionr::lemma_fields_conform(record.camera_orientation);
    }

    proof fn lemma_assemble_fields(record: ImageResponseView) {
        Vector3r::lemma_assemble_fields(record.camera_position);
        Quaternionr::lemma_assemble_fields(record.camera_orientation);
    }

    proof fn lemma_schema_wf() {
        Vector3r::lemma_schema_wf();
        Quaternionr::lemma_schema_wf();
        reveal_strlit("image_data_uint8");
        reveal_strlit("image_data_float");
        reveal_strlit("camera_position");
        reveal_strlit("camera_orientation");
        reveal_strlit("timestamp");
        reveal_strlit("message");
        reveal_strlit("pixels_as_float");
        reveal_strlit("compress");
        reveal_strlit("width");
        reveal_strlit("height");
        reveal_strlit("image_type");
        assert("image_data_uint8"@.len() == 16 && "image_data_uint8"@[0] == 'i');
        assert("image_data_float"@.len() == 16 && "image_data_float"@[0] == 'i');
        assert("camera_position"@.len() == 15 && "camera_position"@[0] == 'c');
        assert("camera_orientation"@.len() == 18 && "camera_orientation"@[0] == 'c');
        assert("timestamp"@.len() == 9 && "timestamp"@[0] == 't');
        assert("message"@.len() == 7 && "message"@[0] == 'm');
        assert("pixels_as_float"@.len() == 15 && "pixels_as_float"@[0] == 'p');
        assert("compress"@.len() == 8 && "compress"@[0] == 'c');
        assert("width"@.len() == 5 && "width"@[0] == 'w');
        assert("height"@.len() == 6 && "height"@[0] == 'h');
        assert("image_type"@.len() == 10 && "image_type"@[0] == 'i');
        assert("image_data_uint8"@[11] == 'u');
        assert("image_data_float"@[11] == 'f');
    }
}

/// The controls of the car.
#[derive(Clone, Copy, Debug, PartialEq, Eq, Structural)]
pub struct CarControls {
    pub throttle: Double,
    pub steering: Double,
    pub brake: Double,
    pub handbrake: bool,
    pub is_manual_gear: bool,
    pub manual_gear: u64,
    pub gear_immediate: bool,
}

impl View for CarControls {
    type V = CarControls;

    open spec fn view(&self) -> CarControls {
        *self
    }
}

impl Default for CarControls {
    /// The car at rest: no throttle, steering or brake, handbrake off,
    /// automatic gear in neutral, gear changes taken at once.
    fn default() -> (r: CarControls)
        ensures
            r == (CarControls {
                throttle: Double::spec_zero(),
                steering: Double::spec_zero(),
                brake: Double::spec_zero(),
                handbrake: false,
                is_manual_gear: false,
                manual_gear: 0,
                gear_immediate: true,
            }),
    {
        CarControls {
            throttle: Double::zero(),
            steering: Double::zero(),
            brake: Double::zero(),
            handbrake: false,
            is_manual_gear: false,
            manual_gear: 0,
            gear_immediate: true,
        }
    }
}

impl Record for CarControls {
    open spec fn spec_schema() -> SchemaView {
        SchemaView {
            fields: seq![
                spec_field("throttle"@, FieldTypeView::Float),
                spec_field("steering"@, FieldTypeView::Float),
                spec_field("brake"@, FieldTypeView::Float),
                spec_field("handbrake"@, FieldTypeView::Boolean),
                spec_field("is_manual_gear"@, FieldTypeView::Boolean),
                spec_field("manual_gear"@, FieldTypeView::Unsigned),
                spec_field("gear_immediate"@, FieldTypeView::Boolean),
            ],
        }
    }

    open spec fn spec_fields(record: CarControls) -> Seq<FieldValueView> {
        seq![
            FieldValueView::Float(record.throttle),
            FieldValueView::Float(record.steering),
            FieldValueView::Float(record.brake),
            FieldValueView::Boolean(record.handbrake),
            FieldValueView::Boolean(record.is_manual_gear),
            FieldValueView::Unsigned(record.manual_gear),
            FieldValueView::Boolean(record.gear_immediate),
        ]
    }

    open spec fn spec_assemble(fields: Seq<FieldValueView>) -> CarControls {
        CarControls {
            throttle: fields[0]->Float_0,
            steering: fields[1]->Float_0,
            brake: fields[2]->Float_0,
            handbrake: fields[3]->Boolean_0,
            is_manual_gear: fields[4]->Boolean_0,
            manual_gear: fields[5]->Unsigned_0,
            gear_immediate: fields[6]->Boolean_0,
        }
    }

    fn schema() -> (r: Schema) {
        let mut fields: Vec<FieldDescriptor> = Vec::new();
        fields.push(FieldDescriptor::new("throttle", FieldType::Float));
        fields.push(FieldDescriptor::new("steering", FieldType::Float));
        fields.push(FieldDescriptor::new("brake", FieldType::Float));
        fields.push(FieldDescriptor::new("handbrake", FieldType::Boolean));
        fields.push(FieldDescriptor::new("is_manual_gear", FieldType::Boolean));
        fields.push(FieldDescriptor::new("manual_gear", FieldType::Unsigned));
        fields.push(FieldDescriptor::new("gear_immediate", FieldType::Boolean));
        let r = Schema::new(fields);
        assert(r@.fields =~= Self::spec_schema().fields);
        r
    }

    fn to_fields(&self) -> (r: Vec<FieldValue>) {
        let mut fields: Vec<FieldValue> = Vec::new();
        fields.push(FieldValue::Float(self.throttle));
        fields.push(FieldValue::Float(self.steering));
        fields.push(FieldValue::Float(self.brake));
        fields.push(FieldValue::Boolean(self.handbrake));
        fields.push(FieldValue::Boolean(self.is_manual_gear));
        fields.push(FieldValue::Unsigned(self.manual_gear));
        fields.push(FieldValue::Boolean(self.gear_immediate));
        assert(fields_view(fields@) =~= Self::spec_fields(self@));
        fields
    }

    fn from_fields(fields: &Vec<FieldValue>) -> (r: CarControls) {
        proof {
            let given = fields_view(fields@);
            let schema = Self::spec_schema();
            assert(given[0].conforms(schema.fields[0].ty));
            assert(given[1].conforms(schema.fields[1].ty));
            assert(given[2].conforms(schema.fields[2].ty));
            assert(given[3].conforms(schema.fields[3].ty));
            assert(given[4].conforms(schema.fields[4].ty));
            assert(given[5].conforms(schema.fields[5].ty));
            assert(given[6].conforms(schema.fields[6].ty));
        }
        CarControls {
            throttle: fields[0].as_float(),
            steering: fields[1].as_float(),
            brake: fields[2].as_float(),
            handbrake: fields[3].as_boolean(),
            is_manual_gear: fields[4].as_boolean(),
            manual_gear: fields[5].as_unsigned(),
            gear_immediate: fields[6].as_boolean(),
        }
    }

    proof fn lemma_fields_conform(record: CarControls) {
    }

    proof fn lemma_assemble_fields(record: CarControls) {
    }

    proof fn lemma_schema_wf() {
        reveal_strlit("throttle");
        reveal_strlit("steering");
        reveal_strlit("brake");
        reveal_strlit("handbrake");
        reveal_strlit("is_manual_gear");
        reveal_strlit("manual_gear");
        reveal_strlit("gear_immediate");
        assert("throttle"@.len() == 8 && "throttle"@[0] == 't');
        assert("steering"@.len() == 8 && "steering"@[0] == 's');
        assert("brake"@.len() == 5 && "brake"@[0] == 'b');
        assert("handbrake"@.len() == 9 && "handbrake"@[0] == 'h');
        assert("is_manual_gear"@.len() == 14 && "is_manual_gear"@[0] == 'i');
        assert("manual_gear"@.len() == 11 && "manual_gear"@[0] == 'm');
        assert("gear_immediate"@.len() == 14 && "gear_immediate"@[0] == 'g');
    }
}

/// Where the car is and how it moves.
#[derive(Clone, Copy, Debug, PartialEq, Eq, Structural)]
pub struct KinematicsState {
    pub position: Vector3r,
    pub orientation: Quaternionr,
    pub linear_velocity: Vector3r,
    pub angular_velocity: Vector3r,
    pub linear_acceleration: Vector3r,
    pub angular_acceleration: Vector3r,
}

impl View for KinematicsState {
    type V = KinematicsState;

    open spec fn view(&self) -> KinematicsState {
        *self
    }
}

impl Default for KinematicsState {
    /// At the origin and at rest: every component zero.
    fn default() -> (r: KinematicsState)
        ensures
            r == (KinematicsState {
                position: spec_zero_vector(),
                orientation: spec_zero_quaternion(),
                linear_velocity: spec_zero_vector(),
                angular_velocity: spec_zero_vector(),
                linear_acceleration: spec_zero_vector(),
                angular_acceleration: spec_zero_vector(),
            }),
    {
        KinematicsState {
            position: Vector3r::default(),
            orientation: Quaternionr::default(),
            linear_velocity: Vector3r::default(),
            angular_velocity: Vector3r::default(),
            linear_acceleration: Vector3r::default(),
            angular_acceleration: Vector3r::default(),
        }
    }
}

impl Record for KinematicsState {
    open spec fn spec_schema() -> SchemaView {
        SchemaView {
            fields: seq![
                spec_field("position"@, FieldTypeView::Record(Vector3r::spec_schema())),
                spec_field("orientation"@, FieldTypeView::Record(Quaternionr::spec_schema())),
                spec_field("linear_velocity"@, FieldTypeView::Record(Vector3r::spec_schema())),
                spec_field("angular_velocity"@, FieldTypeView::Record(Vector3r::spec_schema())),
                spec_field("linear_acceleration"@, FieldTypeView::Record(Vector3r::spec_schema())),
                spec_field("angular_acceleration"@, FieldTypeView::Record(Vector3r::spec_schema())),
            ],
        }
    }

    open spec fn spec_fields(record: KinematicsState) -> Seq<FieldValueView> {
        seq![
            FieldValueView::Record(Vector3r::spec_fields(record.position)),
            FieldValueView::Record(Quaternionr::spec_fields(record.orientation)),
            FieldValueView::Record(Vector3r::spec_fields(record.linear_velocity)),
            FieldValueView::Record(Vector3r::spec_fields(record.angular_velocity)),
            FieldValueView::Record(Vector3r::spec_fields(record.linear_acceleration)),
            FieldValueView::Record(Vector3r::spec_fields(record.angular_acceleration)),
        ]
    }

    open spec fn spec_assemble(fields: Seq<FieldValueView>) -> KinematicsState {
        KinematicsState {
            position: Vector3r::spec_assemble(fields[0]->Record_0),
            orientation: Quaternionr::spec_assemble(fields[1]->Record_0),
            linear_velocity: Vector3r::spec_assemble(fields[2]->Record_0),
            angular_velocity: Vector3r::spec_assemble(fields[3]->Record_0),
            linear_acceleration: Vector3r::spec_assemble(fields[4]->Record_0),
            angular_acceleration: Vector3r::spec_assemble(fields[5]->Record_0),
        }
    }

    fn schema() -> (r: Schema) {
        let mut fields: Vec<FieldDescriptor> = Vec::new();
        fields.push(FieldDescriptor::new("position", FieldType::Record(Vector3r::schema())));
        fields.push(FieldDescriptor::new("orientation", FieldType::Record(Quaternionr::schema())));
        fields.push(FieldDescriptor::new("linear_velocity", FieldType::Record(Vector3r::schema())));
        fields.push(
            FieldDescriptor::new("angular_velocity", FieldType::Record(Vector3r::schema())),
        );
        fields.push(
            FieldDescriptor::new("linear_acceleration", FieldType::Record(Vector3r::schema())),
        );
        fields.push(
            FieldDescriptor::new("angular_acceleration", FieldType::Record(Vector3r::schema())),
        );
        let r = Schema::new(fields);
        assert(r@.fields =~= Self::spec_schema().fields);
        r
    }

    fn to_fields(&self) -> (r: Vec<FieldValue>) {
        let mut fields: Vec<FieldValue> = Vec::new();
        fields.push(FieldValue::Record(self.position.to_fields()));
        fields.push(FieldValue::Record(self.orientation.to_fields()));
        fields.push(FieldValue::Record(self.linear_velocity.to_fields()));
        fields.push(FieldValue::Record(self.angular_velocity.to_fields()));
        fields.push(FieldValue::Record(self.linear_acceleration.to_fields()));
        fields.push(FieldValue::Record(self.angular_acceleration.to_fields()));
        assert(fields_view(fields@) =~= Self::spec_fields(self@));
        fields
    }

    fn from_fields(fields: &Vec<FieldValue>) -> (r: KinematicsState) {
        proof {
            let given = fields_view(fields@);
            let schema = Self::spec_schema();
            assert(given[0].conforms(schema.fields[0].ty));
            assert(given[1].conforms(schema.fields[1].ty));
            assert(given[2].conforms(schema.fields[2].ty));
            assert(given[3].conforms(schema.fields[3].ty));
            assert(given[4].conforms(schema.fields[4].ty));
            assert(given[5].conforms(schema.fields[5].ty));
        }
        KinematicsState {
            position: Vector3r::from_fields(fields[0].as_record()),
            orientation: Quaternionr::from_fields(fields[1].as_record()),
            linear_velocity: Vector3r::from_fields(fields[2].as_record()),
            angular_velocity: Vector3r::from_fields(fields[3].as_record()),
            linear_acceleration: Vector3r::from_fields(fields[4].as_record()),
            angular_acceleration: Vector3r::from_fields(fields[5].as_record()),
        }
    }

    proof fn lemma_fields_conform(record: KinematicsState) {
        Vector3r::lemma_fields_conform(record.position);
        Quaternionr::lemma_fields_conform(record.orientation);
        Vector3r::lemma_fields_conform(record.linear_velocity);
        Vector3r::lemma_fields_conform(record.angular_velocity);
        Vector3r::lemma_fields_conform(record.linear_acceleration);
        Vector3r::lemma_fields_conform(record.angular_acceleration);
    }

    proof fn lemma_assemble_fields(record: KinematicsState) {
        Vector3r::lemma_assemble_fields(record.position);
        Quaternionr::lemma_assemble_fields(record.orientation);
        Vector3r::lemma_assemble_fields(record.linear_velocity);
        Vector3r::lemma_assemble_fields(record.angular_velocity);
        Vector3r::lemma_assemble_fields(record.linear_acceleration);
        Vector3r::lemma_assemble_fields(record.angular_acceleration);
    }

    proof fn lemma_schema_wf() {
        Vector3r::lemma_schema_wf();
        Quaternionr::lemma_schema_wf();
        reveal_strlit("position");
        reveal_strlit("orientation");
        reveal_strlit("linear_velocity");
        reveal_strlit("angular_velocity");
        reveal_strlit("linear_acceleration");
        reveal_strlit("angular_acceleration");
        assert("position"@.len() == 8 && "position"@[0] == 'p');
        assert("orientation"@.len() == 11 && "orientation"@[0] == 'o');
        assert("linear_velocity"@.len() == 15 && "linear_velocity"@[0] == 'l');
        assert("angular_velocity"@.len() == 16 && "angular_velocity"@[0] == 'a');
        assert("linear_acceleration"@.len() == 19 && "linear_acceleration"@[0] == 'l');
        assert("angular_acceleration"@.len() == 20 && "angular_acceleration"@[0] == 'a');
    }
}

/// The surroundings of the car.
#[derive(Clone, Copy, Debug, PartialEq, Eq, Structural)]
pub struct EnvironmentState {
    pub position: Vector3r,
    pub geo_point: GeoPoint,
    pub gravity: Vector3r,
    pub air_pressure: Double,
    pub temperature: Double,
    pub air_density: Double,
}

impl View for EnvironmentState {
    type V = EnvironmentState;

    open spec fn view(&self) -> EnvironmentState {
        *self
    }
}

impl Default for EnvironmentState {
    /// Every number zero.
    fn default() -> (r: EnvironmentState)
        ensures
            r == (EnvironmentState {
                position: spec_zero_vector(),
                geo_point: GeoPoint {
                    latitude: Double::spec_zero(),
                    longitude: Double::spec_zero(),
                    altitude: Double::spec_zero(),
                },
                gravity: spec_zero_vector(),
                air_pressure: Double::spec_zero(),
                temperature: Double::spec_zero(),
                air_density: Double::spec_zero(),
            }),
    {
        EnvironmentState {
            position: Vector3r::default(),
            geo_point: GeoPoint::default(),
            gravity: Vector3r::default(),
            air_pressure: Double::zero(),
            temperature: Double::zero(),
            air_density: Double::zero(),
        }
    }
}

impl Record for EnvironmentState {
    open spec fn spec_schema() -> SchemaView {
        SchemaView {
            fields: seq![
                spec_field("position"@, FieldTypeView::Record(Vector3r::spec_schema())),
                spec_field("geo_point"@, FieldTypeView::Record(GeoPoint::spec_schema())),
                spec_field("gravity"@, FieldTypeView::Record(Vector3r::spec_schema())),
                spec_field("air_pressure"@, FieldTypeView::Float),
                spec_field("temperature"@, FieldTypeView::Float),
                spec_field("air_density"@, FieldTypeView::Float),
            ],
        }
    }

    open spec fn spec_fields(record: EnvironmentState) -> Seq<FieldValueView> {
        seq![
            FieldValueView::Record(Vector3r::spec_fields(record.position)),
            FieldValueView::Record(GeoPoint::spec_fields(record.geo_point)),
            FieldValueView::Record(Vector3r::spec_fields(record.gravity)),
            FieldValueView::Float(record.air_pressure),
            FieldValueView::Float(record.temperature),
            FieldValueView::Float(record.air_density),
        ]
    }

    open spec fn spec_assemble(fields: Seq<FieldValueView>) -> EnvironmentState {
        EnvironmentState {
            position: Vector3r::spec_assemble(fields[0]->Record_0),
            geo_point: GeoPoint::spec_assemble(fields[1]->Record_0),
            gravity: Vector3r::spec_assemble(fields[2]->Record_0),
            air_pressure: fields[3]->Float_0,
            temperature: fields[4]->Float_0,
            air_density: fields[5]->Float_0,
        }
    }

    fn schema() -> (r: Schema) {
        let mut fields: Vec<FieldDescriptor> = Vec::new();
        fields.push(FieldDescriptor::new("position", FieldType::Record(Vector3r::schema())));
        fields.push(FieldDescriptor::new("geo_point", FieldType::Record(GeoPoint::schema())));
        fields.push(FieldDescriptor::new("gravity", FieldType::Record(Vector3r::schema())));
        fields.push(FieldDescriptor::new("air_pressure", FieldType::Float));
        fields.push(FieldDescriptor::new("temperature", FieldType::Float));
        fields.push(FieldDescriptor::new("air_density", FieldType::Float));
        let r = Schema::new(fields);
        assert(r@.fields =~= Self::spec_schema().fields);
        r
    }

    fn to_fields(&self) -> (r: Vec<FieldValue>) {
        let mut fields: Vec<FieldValue> = Vec::new();
        fields.push(FieldValue::Record(self.position.to_fields()));
        fields.push(FieldValue::Record(self.geo_point.to_fields()));
        fields.push(FieldValue::Record(self.gravity.to_fields()));
        fields.push(FieldValue::Float(self.air_pressure));
        fields.push(FieldValue::Float(self.temperature));
        fields.push(FieldValue::Float(self.air_density));
        assert(fields_view(fields@) =~= Self::spec_fields(self@));
        fields
    }

    fn from_fields(fields: &Vec<FieldValue>) -> (r: EnvironmentState) {
        proof {
            let given = fields_view(fields@);
            let schema = Self::spec_schema();
            assert(given[0].conforms(schema.fields[0].ty));
            assert(given[1].conforms(schema.fields[1].ty));
            assert(given[2].conforms(schema.fields[2].ty));
            assert(given[3].conforms(schema.fields[3].ty));
            assert(given[4].conforms(schema.fields[4].ty));
            assert(given[5].conforms(schema.fields[5].ty));
        }
        EnvironmentState {
            position: Vector3r::from_fields(fields[0].as_record()),
            geo_point: GeoPoint::from_fields(fields[1].as_record()),
            gravity: Vector3r::from_fields(fields[2].as_record()),
            air_pressure: fields[3].as_float(),
            temperature: fields[4].as_float(),
            air_density: fields[5].as_float(),
        }
    }

    proof fn lemma_fields_conform(record: EnvironmentState) {
        Vector3r::lemma_fields_conform(record.position);
        GeoPoint::lemma_fields_conform(record.geo_point);
        Vector3r::lemma_fields_conform(record.gravity);
    }

    proof fn lemma_assemble_fields(record: EnvironmentState) {
        Vector3r::lemma_assemble_fields(record.position);
        GeoPoint::lemma_assemble_fields(record.geo_point);
        Vector3r::lemma_assemble_fields(record.gravity);
    }

    proof fn lemma_schema_wf() {
        Vector3r::lemma_schema_wf();
        GeoPoint::lemma_schema_wf();
        reveal_strlit("position");
        reveal_strlit("geo_point");
        reveal_strlit("gravity");
        reveal_strlit("air_pressure");
        reveal_strlit("temperature");
        reveal_strlit("air_density");
        assert("position"@.len() == 8 && "position"@[0] == 'p');
        assert("geo_point"@.len() == 9 && "geo_point"@[0] == 'g');
        assert("gravity"@.len() == 7 && "gravity"@[0] == 'g');
        assert("air_pressure"@.len() == 12 && "air_pressure"@[0] == 'a');
        assert("temperature"@.len() == 11 && "temperature"@[0] == 't');
        assert("air_density"@.len() == 11 && "air_density"@[0] == 'a');
    }
}

/// Whether and how the car has hit something.
#[derive(Debug, PartialEq, Eq)]
pub struct CollisionInfo {
    pub has_collided: bool,
    pub normal: Vector3r,
    pub impact_point: Vector3r,
    pub position: Vector3r,
    pub penetration_depth: Double,
    pub timestamp: Double,
    pub object_name: String,
    pub object_id: u64,
}

/// Mathematical counterpart of [`CollisionInfo`].
pub struct CollisionInfoView {
    pub has_collided: bool,
    pub normal: Vector3r,
    pub impact_point: Vector3r,
    pub position: Vector3r,
    pub penetration_depth: Double,
    pub timestamp: Double,
    pub object_name: Seq<char>,
    pub object_id: u64,
}

impl View for CollisionInfo {
    type V = CollisionInfoView;

    open spec fn view(&self) -> CollisionInfoView {
        CollisionInfoView {
            has_collided: self.has_collided,
            normal: self.normal,
            impact_point: self.impact_point,
            position: self.position,
            penetration_depth: self.penetration_depth,
            timestamp: self.timestamp,
            object_name: self.object_name@,
            object_id: self.object_id,
        }
    }
}

impl Clone for CollisionInfo {
    fn clone(&self) -> (r: CollisionInfo)
        ensures
            r@ == self@,
    {
        CollisionInfo {
            has_collided: self.has_collided,
            normal: self.normal,
            impact_point: self.impact_point,
            position: self.position,
            penetration_depth: self.penetration_depth,
            timestamp: self.timestamp,
            object_name: self.object_name.clone(),
            object_id: self.object_id,
        }
    }
}

impl Record for CollisionInfo {
    open spec fn spec_schema() -> SchemaView {
        SchemaView {
            fields: seq![
                spec_field("has_collided"@, FieldTypeView::Boolean),
                spec_field("normal"@, FieldTypeView::Record(Vector3r::spec_schema())),
                spec_field("impact_point"@, FieldTypeView::Record(Vector3r::spec_schema())),
                spec_field("position"@, FieldTypeView::Record(Vector3r::spec_schema())),
                spec_field("penetration_depth"@, FieldTypeView::Float),
                spec_field("timestamp"@, FieldTypeView::Float),
                spec_field("object_name"@, FieldTypeView::Text),
                spec_field("object_id"@, FieldTypeView::Unsigned),
            ],
        }
    }

    open spec fn spec_fields(record: CollisionInfoView) -> Seq<FieldValueView> {
        seq![
            FieldValueView::Boolean(record.has_collided),
            FieldValueView::Record(Vector3r::spec_fields(record.normal)),
            FieldValueView::Record(Vector3r::spec_fields(record.impact_point)),
            FieldValueView::Record(Vector3r::spec_fields(record.position)),
            FieldValueView::Float(record.penetration_depth),
            FieldValueView::Float(record.timestamp),
            FieldValueView::Text(record.object_name),
            FieldValueView::Unsigned(record.object_id),
        ]
    }

    open spec fn spec_assemble(fields: Seq<FieldValueView>) -> CollisionInfoView {
        CollisionInfoView {
            has_collided: fields[0]->Boolean_0,
            normal: Vector3r::spec_assemble(fields[1]->Record_0),
            impact_point: Vector3r::spec_assemble(fields[2]->Record_0),
            position: Vector3r::spec_assemble(fields[3]->Record_0),
            penetration_depth: fields[4]->Float_0,
            timestamp: fields[5]->Float_0,
            object_name: fields[6]->Text_0,
            object_id: fields[7]->Unsigned_0,
        }
    }

    fn schema() -> (r: Schema) {
        let mut fields: Vec<FieldDescriptor> = Vec::new();
        fields.push(FieldDescriptor::new("has_collided", FieldType::Boolean));
        fields.push(FieldDescriptor::new("normal", FieldType::Record(Vector3r::schema())));
        fields.push(FieldDescriptor::new("impact_point", FieldType::Record(Vector3r::schema())));
        fields.push(FieldDescriptor::new("position", FieldType::Record(Vector3r::schema())));
        fields.push(FieldDescriptor::new("penetration_depth", FieldType::Float));
        fields.push(FieldDescriptor::new("timestamp", FieldType::Float));
        fields.push(FieldDescriptor::new("object_name", FieldType::Text));
        fields.push(FieldDescriptor::new("object_id", FieldType::Unsigned));
        let r = Schema::new(fields);
        assert(r@.fields =~= Self::spec_schema().fields);
        r
    }

    fn to_fields(&self) -> (r: Vec<FieldValue>) {
        let mut fields: Vec<FieldValue> = Vec::new();
        fields.push(FieldValue::Boolean(self.has_collided));
        fields.push(FieldValue::Record(self.normal.to_fields()));
        fields.push(FieldValue::Record(self.impact_point.to_fields()));
        fields.push(FieldValue::Record(self.position.to_fields()));
        fields.push(FieldValue::Float(self.penetration_depth));
        fields.push(FieldValue::Float(self.timestamp));
        fields.push(FieldValue::Text(self.object_name.clone()));
        fields.push(FieldValue::Unsigned(self.object_id));
        assert(fields_view(fields@) =~= Self::spec_fields(self@));
        fields
    }

    fn from_fields(fields: &Vec<FieldValue>) -> (r: CollisionInfo) {
        proof {
            let given = fields_view(fields@);
            let schema = Self::spec_schema();
            assert(given[0].conforms(schema.fields[0].ty));
            assert(given[1].conforms(schema.fields[1].ty));
            assert(given[2].conforms(schema.fields[2].ty));
            assert(given[3].conforms(schema.fields[3].ty));
            assert(given[4].conforms(schema.fields[4].ty));
            assert(given[5].conforms(schema.fields[5].ty));
            assert(given[6].conforms(schema.fields[6].ty));
            assert(given[7].conforms(schema.fields[7].ty));
        }
        CollisionInfo {
            has_collided: fields[0].as_boolean(),
            normal: Vector3r::from_fields(fields[1].as_record()),
            impact_point: Vector3r::from_fields(fields[2].as_record()),
            position: Vector3r::from_fields(fields[3].as_record()),
            penetration_depth: fields[4].as_float(),
            timestamp: fields[5].as_float(),
            object_name: fields[6].as_text().clone(),
            object_id: fields[7].as_unsigned(),
        }
    }

    proof fn lemma_fields_conform(record: CollisionInfoView) {
        Vector3r::lemma_fields_conform(record.normal);
        Vector3r::lemma_fields_conform(record.impact_point);
        Vector3r::lemma_fields_conform(record.position);
    }

    proof fn lemma_assemble_fields(record: CollisionInfoView) {
        Vector3r::lemma_assemble_fields(record.normal);
        Vector3r::lemma_assemble_fields(record.impact_point);
        Vector3r::lemma_assemble_fields(record.position);
    }

    proof fn lemma_schema_wf() {
        Vector3r::lemma_schema_wf();
        reveal_strlit("has_collided");
        reveal_strlit("normal");
        reveal_strlit("impact_point");
        reveal_strlit("position");
        reveal_strlit("penetration_depth");
        reveal_strlit("timestamp");
        reveal_strlit("object_name");
        reveal_strlit("object_id");
        assert("has_collided"@.len() == 12 && "has_collided"@[0] == 'h');
        assert("normal"@.len() == 6 && "normal"@[0] == 'n');
        assert("impact_point"@.len() == 12 && "impact_point"@[0] == 'i');
        assert("position"@.len() == 8 && "position"@[0] == 'p');
        assert("penetration_depth"@.len() == 17 && "penetration_depth"@[0] == 'p');
        assert("timestamp"@.len() == 9 && "timestamp"@[0] == 't');
        assert("object_name"@.len() == 11 && "object_name"@[0] == 'o');
        assert("object_id"@.len() == 9 && "object_id"@[0] == 'o');
    }
}

/// The state of the car as the simulator estimates it.
#[derive(Clone, Copy, Debug, PartialEq, Eq, Structural)]
pub struct CarState {
    pub speed: Double,
    pub kinematics_estimated: KinematicsState,
    pub timestamp: u64,
}

impl View for CarState {
    type V = CarState;

    open spec fn view(&self) -> CarState {
        *self
    }
}

impl Record for CarState {
    open spec fn spec_schema() -> SchemaView {
        SchemaView {
            fields: seq![
                spec_field("speed"@, FieldTypeView::Float),
                spec_field(
                    "kinematics_estimated"@,
                    FieldTypeView::Record(KinematicsState::spec_schema()),
                ),
                spec_field("timestamp"@, FieldTypeView::Unsigned),
            ],
        }
    }

    open spec fn spec_fields(record: CarState) -> Seq<FieldValueView> {
        seq![
            FieldValueView::Float(record.speed),
            FieldValueView::Record(KinematicsState::spec_fields(record.kinematics_estimated)),
            FieldValueView::Unsigned(record.timestamp),
        ]
    }

    open spec fn spec_assemble(fields: Seq<FieldValueView>) -> CarState {
        CarState {
            speed: fields[0]->Float_0,
            kinematics_estimated: KinematicsState::spec_assemble(fields[1]->Record_0),
            timestamp: fields[2]->Unsigned_0,
        }
    }

    fn schema() -> (r: Schema) {
        let mut fields: Vec<FieldDescriptor> = Vec::new();
        fields.push(FieldDescriptor::new("speed", FieldType::Float));
        fields.push(
            FieldDescriptor::new(
                "kinematics_estimated",
                FieldType::Record(KinematicsState::schema()),
            ),
        );
        fields.push(FieldDescriptor::new("timestamp", FieldType::Unsigned));
        let r = Schema::new(fields);
        assert(r@.fields =~= Self::spec_schema().fields);
        r
    }

    fn to_fields(&self) -> (r: Vec<FieldValue>) {
        let mut fields: Vec<FieldValue> = Vec::new();
        fields.push(FieldValue::Float(self.speed));
        fields.push(FieldValue::Record(self.kinematics_estimated.to_fields()));
        fields.push(FieldValue::Unsigned(self.timestamp));
        assert(fields_view(fields@) =~= Self::spec_fields(self@));
        fields
    }

    fn from_fields(fields: &Vec<FieldValue>) -> (r: CarState) {
        proof {
            let given = fields_view(fields@);
            let schema = Self::spec_schema();
            assert(given[0].conforms(schema.fields[0].ty));
            assert(given[1].conforms(schema.fields[1].ty));
            assert(given[2].conforms(schema.fields[2].ty));
        }
        CarState {
            speed: fields[0].as_float(),
            kinematics_estimated: KinematicsState::from_fields(fields[1].as_record()),
            timestamp: fields[2].as_unsigned(),
        }
    }

    proof fn lemma_fields_conform(record: CarState) {
        KinematicsState::lemma_fields_conform(record.kinematics_estimated);
    }

    proof fn lemma_assemble_fields(record: CarState) {
        KinematicsState::lemma_assemble_fields(record.kinematics_estimated);
    }

    proof fn lemma_schema_wf() {
        KinematicsState::lemma_schema_wf();
        reveal_strlit("speed");
        reveal_strlit("kinematics_estimated");
        reveal_strlit("timestamp");
        assert("speed"@.len() == 5 && "speed"@[0] == 's');
        assert("kinematics_estimated"@.len() == 20 && "kinematics_estimated"@[0] == 'k');
        assert("timestamp"@.len() == 9 && "timestamp"@[0] == 't');
    }
}

/// The state of the race as the referee sees it.
#[derive(Debug, PartialEq, Eq)]
pub struct RefereeState {
    /// How many cones were knocked down or out.
    pub doo_counter: u64,
    pub laps: Double,
    pub initial_position: Position2D,
    /// Where the cones stand.
    pub cones: Vec<Position2D>,
}

/// Mathematical counterpart of [`RefereeState`].
pub struct RefereeStateView {
    pub doo_counter: u64,
    pub laps: Double,
    pub initial_position: Position2D,
    pub cones: Seq<Position2D>,
}

impl View for RefereeState {
    type V = RefereeStateView;

    open spec fn view(&self) -> RefereeStateView {
        RefereeStateView {
            doo_counter: self.doo_counter,
            laps: self.laps,
            initial_position: self.initial_position,
            cones: self.cones@,
        }
    }
}

impl Clone for RefereeState {
    fn clone(&self) -> (r: RefereeState)
        ensures
            r@ == self@,
    {
        let mut cones: Vec<Position2D> = Vec::new();
        let mut i: usize = 0;
        while i < self.cones.len()
            invariant
                i <= self.cones.len(),
                cones@ == self.cones@.subrange(0, i as int),
            decreases self.cones.len() - i,
        {
            cones.push(self.cones[i]);
            i += 1;
        }
        assert(self.cones@.subrange(0, self.cones@.len() as int) == self.cones@);
        RefereeState {
            doo_counter: self.doo_counter,
            laps: self.laps,
            initial_position: self.initial_position,
            cones,
        }
    }
}

impl Default for RefereeState {
    /// No cone down, no lap driven, the start at the origin, no cone known.
    fn default() -> (r: RefereeState)
        ensures
            r@ == (RefereeStateView {
                doo_counter: 0,
                laps: Double::spec_zero(),
                initial_position: Position2D {
                    x_val: Double::spec_zero(),
                    y_val: Double::spec_zero(),
                },
                cones: Seq::empty(),
            }),
    {
        RefereeState {
            doo_counter: 0,
            laps: Double::zero(),
            initial_position: Position2D::default(),
            cones: Vec::new(),
        }
    }
}

/// The field values of a list of points, point by point.
pub open spec fn spec_points_fields(points: Seq<Position2D>) -> Seq<Seq<FieldValueView>> {
    Seq::new(points.len(), |k: int| Position2D::spec_fields(points[k]))
}

/// The points with the given field values, point by point.
pub open spec fn spec_points_assemble(records: Seq<Seq<FieldValueView>>) -> Seq<Position2D> {
    Seq::new(records.len(), |k: int| Position2D::spec_assemble(records[k]))
}

impl Record for RefereeState {
    open spec fn spec_schema() -> SchemaView {
        SchemaView {
            fields: seq![
                spec_field("doo_counter"@, FieldTypeView::Unsigned),
                spec_field("laps"@, FieldTypeView::Float),
                spec_field("initial_position"@, FieldTypeView::Record(Position2D::spec_schema())),
                spec_field("cones"@, FieldTypeView::Repeated(Position2D::spec_schema())),
            ],
        }
    }

    open spec fn spec_fields(record: RefereeStateView) -> Seq<FieldValueView> {
        seq![
            FieldValueView::Unsigned(record.doo_counter),
            FieldValueView::Float(record.laps),
            FieldValueView::Record(Position2D::spec_fields(record.initial_position)),
            FieldValueView::Repeated(spec_points_fields(record.cones)),
        ]
    }

    open spec fn spec_assemble(fields: Seq<FieldValueView>) -> RefereeStateView {
        RefereeStateView {
            doo_counter: fields[0]->Unsigned_0,
            laps: fields[1]->Float_0,
            initial_position: Position2D::spec_assemble(fields[2]->Record_0),
            cones: spec_points_assemble(fields[3]->Repeated_0),
        }
    }

    fn schema() -> (r: Schema) {
        let mut fields: Vec<FieldDescriptor> = Vec::new();
        fields.push(FieldDescriptor::new("doo_counter", FieldType::Unsigned));
        fields.push(FieldDescriptor::new("laps", FieldType::Float));
        fields.push(
            FieldDescriptor::new("initial_position", FieldType::Record(Position2D::schema())),
        );
        fields.push(FieldDescriptor::new("cones", FieldType::Repeated(Position2D::schema())));
        let r = Schema::new(fields);
        assert(r@.fields =~= Self::spec_schema().fields);
        r
    }

    fn to_fields(&self) -> (r: Vec<FieldValue>) {
        let mut cones: Vec<Vec<FieldValue>> = Vec::new();
        let mut k: usize = 0;
        while k < self.cones.len()
            invariant
                k <= self.cones.len(),
                records_view(cones@) == spec_points_fields(self.cones@).subrange(0, k as int),
            decreases self.cones.len() - k,
        {
            let point = self.cones[k].to_fields();
            proof {
                lemma_records_view_push(cones@, point);
                let all = spec_points_fields(self.cones@);
                assert(all.subrange(0, k + 1) == all.subrange(0, k as int).push(all[k as int]));
            }
            cones.push(point);
            k += 1;
        }
        assert(spec_points_fields(self.cones@).subrange(0, self.cones@.len() as int)
            == spec_points_fields(self.cones@));
        let mut fields: Vec<FieldValue> = Vec::new();
        fields.push(FieldValue::Unsigned(self.doo_counter));
        fields.push(FieldValue::Float(self.laps));
        fields.push(FieldValue::Record(self.initial_position.to_fields()));
        fields.push(FieldValue::Repeated(cones));
        assert(fields_view(fields@) =~= Self::spec_fields(self@));
        fields
    }

    fn from_fields(fields: &Vec<FieldValue>) -> (r: RefereeState) {
        proof {
            let given = fields_view(fields@);
            let schema = Self::spec_schema();
            assert(given[0].conforms(schema.fields[0].ty));
            assert(given[1].conforms(schema.fields[1].ty));
            assert(given[2].conforms(schema.fields[2].ty));
            assert(given[3].conforms(schema.fields[3].ty));
        }
        let records = fields[3].as_repeated();
        proof {
            let given = fields_view(fields@)[3];
            assert(given == FieldValueView::Repeated(records_view(records@)));
            assert(given.conforms(FieldTypeView::Repeated(Position2D::spec_schema())));
            assert(forall|j: int|
                0 <= j < given->Repeated_0.len() ==> record_conforms(
                    #[trigger] given->Repeated_0[j],
                    Position2D::spec_schema(),
                ));
        }
        let mut cones: Vec<Position2D> = Vec::new();
        let mut k: usize = 0;
        while k < records.len()
            invariant
                k <= records.len(),
                forall|j: int|
                    0 <= j < records@.len() ==> record_conforms(
                        #[trigger] records_view(records@)[j],
                        Position2D::spec_schema(),
                    ),
                cones@ == spec_points_assemble(records_view(records@)).subrange(0, k as int),
            decreases records.len() - k,
        {
            assert(record_conforms(records_view(records@)[k as int], Position2D::spec_schema()));
            let point = Position2D::from_fields(&records[k]);
            proof {
                let all = spec_points_assemble(records_view(records@));
                assert(all.subrange(0, k + 1) == all.subrange(0, k as int).push(all[k as int]));
            }
            cones.push(point);
            k += 1;
        }
        assert(spec_points_assemble(records_view(records@)).subrange(0, records@.len() as int)
            == spec_points_assemble(records_view(records@)));
        RefereeState {
            doo_counter: fields[0].as_unsigned(),
            laps: fields[1].as_float(),
            initial_position: Position2D::from_fields(fields[2].as_record()),
            cones,
        }
    }

    proof fn lemma_fields_conform(record: RefereeStateView) {
        Position2D::lemma_fields_conform(record.initial_position);
        let records = spec_points_fields(record.cones);
        assert forall|k: int| 0 <= k < records.len() implies record_conforms(
            #[trigger] records[k],
            Position2D::spec_schema(),
        ) by {
            Position2D::lemma_fields_conform(record.cones[k]);
        }
    }

    proof fn lemma_assemble_fields(record: RefereeStateView) {
        Position2D::lemma_assemble_fields(record.initial_position);
        let records = spec_points_fields(record.cones);
        assert forall|k: int| 0 <= k < record.cones.len() implies Position2D::spec_assemble(
            #[trigger] records[k],
        ) == record.cones[k] by {
            Position2D::lemma_assemble_fields(record.cones[k]);
        }
        assert(spec_points_assemble(records) =~= record.cones);
    }

    proof fn lemma_schema_wf() {
        Position2D::lemma_schema_wf();
        reveal_strlit("doo_counter");
        reveal_strlit("laps");
        reveal_strlit("initial_position");
        reveal_strlit("cones");
        assert("doo_counter"@.len() == 11 && "doo_counter"@[0] == 'd');
        assert("laps"@.len() == 4 && "laps"@[0] == 'l');
        assert("initial_position"@.len() == 16 && "initial_position"@[0] == 'i');
        assert("cones"@.len() == 5 && "cones"@[0] == 'c');
    }
}

/// The zero vector.
pub open spec fn spec_zero_vector() -> Vector3r {
    Vector3r { x_val: Double::spec_zero(), y_val: Double::spec_zero(), z_val: Double::spec_zero() }
}

/// The zero quaternion.
pub open spec fn spec_zero_quaternion() -> Quaternionr {
    Quaternionr {
        w_val: Double::spec_zero(),
        x_val: Double::spec_zero(),
        y_val: Double::spec_zero(),
        z_val: Double::spec_zero(),
    }
}

} // verus!
