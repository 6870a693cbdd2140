use fsds_rs::codec::{decode, decode_field, encode, encode_field};
use fsds_rs::error::DecodeError;
use fsds_rs::record::{from_value, to_value};
use fsds_rs::scalar::Double;
use fsds_rs::schema::{FieldDescriptor, FieldType, FieldValue, Schema, TypeTag};
use fsds_rs::types::{
    CarControls, CarState, CollisionInfo, EnvironmentState, GeoPoint, ImageRequest, ImageResponse,
    ImageType, KinematicsState, Pose, Position2D, Quaternionr, Vector3r,
};
use fsds_rs::wire::{Integer, Value};

fn d(x: f64) -> Double {
    Double::from_bits(x.to_bits())
}

fn float(x: f64) -> Value {
    Value::Float(d(x))
}

fn unsigned(n: u64) -> Value {
    Value::Integer(Integer::from_u64(n))
}

fn entry(key: &str, value: Value) -> (String, Value) {
    (key.to_string(), value)
}

fn vector(x: f64, y: f64, z: f64) -> Vector3r {
    Vector3r { x_val: d(x), y_val: d(y), z_val: d(z) }
}

fn quaternion(w: f64, x: f64, y: f64, z: f64) -> Quaternionr {
    Quaternionr { w_val: d(w), x_val: d(x), y_val: d(y), z_val: d(z) }
}

fn controls() -> CarControls {
    CarControls {
        throttle: d(1.0),
        steering: d(0.0),
        brake: d(0.0),
        handbrake: false,
        is_manual_gear: false,
        manual_gear: 0,
        gear_immediate: true,
    }
}

fn controls_entries() -> Vec<(String, Value)> {
    vec![
        entry("throttle", float(1.0)),
        entry("steering", float(0.0)),
        entry("brake", float(0.0)),
        entry("handbrake", Value::Boolean(false)),
        entry("is_manual_gear", Value::Boolean(false)),
        entry("manual_gear", unsigned(0)),
        entry("gear_immediate", Value::Boolean(true)),
    ]
}

fn kinematics() -> KinematicsState {
    KinematicsState {
        position: vector(1.5, -2.25, 3.0),
        orientation: quaternion(1.0, 0.0, 0.0, 0.0),
        linear_velocity: vector(0.1, 0.2, 0.3),
        angular_velocity: vector(-0.0, f64::INFINITY, f64::MIN_POSITIVE),
        linear_acceleration: vector(9.81, 0.0, -9.81),
        angular_acceleration: vector(f64::MAX, f64::MIN, 1e-300),
    }
}

#[test]
fn controls_encode_to_seven_entries_in_field_order() {
    let encoded = to_value(&controls());
    assert_eq!(encoded, Value::Mapping(controls_entries()));
    match encoded {
        Value::Mapping(entries) => assert_eq!(entries.len(), 7),
        _ => panic!("a record encodes to a map"),
    }
}

#[test]
fn controls_decode_back_to_the_same_record() {
    let encoded = to_value(&controls());
    assert_eq!(from_value::<CarControls>(encoded), Ok(controls()));
}

#[test]
fn controls_round_trip_with_other_values() {
    let record = CarControls {
        throttle: d(0.25),
        steering: d(-1.0),
        brake: d(0.5),
        handbrake: true,
        is_manual_gear: true,
        manual_gear: u64::MAX,
        gear_immediate: false,
    };
    assert_eq!(from_value::<CarControls>(to_value(&record)), Ok(record));
}

#[test]
fn vector_round_trip() {
    let record = vector(1.0, -2.5, 1e100);
    let encoded = to_value(&record);
    assert_eq!(
        encoded,
        Value::Mapping(vec![
            entry("x_val", float(1.0)),
            entry("y_val", float(-2.5)),
            entry("z_val", float(1e100)),
        ])
    );
    assert_eq!(from_value::<Vector3r>(encoded), Ok(record));
}

#[test]
fn unknown_vector_round_trips_bit_for_bit() {
    let record = Vector3r::nan_vector3r();
    assert_eq!(from_value::<Vector3r>(to_value(&record)), Ok(record));
}

#[test]
fn quaternion_round_trip() {
    let record = quaternion(0.5, -0.5, 0.5, -0.5);
    let encoded = to_value(&record);
    assert_eq!(
        encoded,
        Value::Mapping(vec![
            entry("w_val", float(0.5)),
            entry("x_val", float(-0.5)),
            entry("y_val", float(0.5)),
            entry("z_val", float(-0.5)),
        ])
    );
    assert_eq!(from_value::<Quaternionr>(encoded), Ok(record));
}

#[test]
fn pose_round_trip_nests_its_parts() {
    let record = Pose::new(Some(vector(1.0, 2.0, 3.0)), Some(quaternion(1.0, 0.0, 0.0, 0.0)));
    let encoded = to_value(&record);
    assert_eq!(
        encoded,
        Value::Mapping(vec![
            entry("position", to_value(&vector(1.0, 2.0, 3.0))),
            entry("orientation", to_value(&quaternion(1.0, 0.0, 0.0, 0.0))),
        ])
    );
    assert_eq!(from_value::<Pose>(encoded), Ok(record));
}

#[test]
fn position_2d_round_trip() {
    let record = Position2D { x_val: d(12.5), y_val: d(-7.0) };
    assert_eq!(from_value::<Position2D>(to_value(&record)), Ok(record));
}

#[test]
fn geo_point_round_trip() {
    let record = GeoPoint { latitude: d(50.08), longitude: d(14.43), altitude: d(235.0) };
    let encoded = to_value(&record);
    assert_eq!(
        encoded,
        Value::Mapping(vec![
            entry("latitude", float(50.08)),
            entry("longitude", float(14.43)),
            entry("altitude", float(235.0)),
        ])
    );
    assert_eq!(from_value::<GeoPoint>(encoded), Ok(record));
}

#[test]
fn image_request_round_trip() {
    let record = ImageRequest {
        camera_name: "front".to_string(),
        image_type: ImageType::DepthVis,
        pixels_as_float: true,
        compress: false,
    };
    let encoded = to_value(&record);
    assert_eq!(
        encoded,
        Value::Mapping(vec![
            entry("camera_name", Value::String("front".to_string())),
            entry("image_type", unsigned(3)),
            entry("pixels_as_float", Value::Boolean(true)),
            entry("compress", Value::Boolean(false)),
        ])
    );
    assert_eq!(from_value::<ImageRequest>(encoded), Ok(record));
}

#[test]
fn image_response_round_trip() {
    let record = ImageResponse {
        image_data_uint8: 17,
        image_data_float: d(0.75),
        camera_position: vector(1.0, 2.0, 3.0),
        camera_orientation: quaternion(0.0, 1.0, 0.0, 0.0),
        timestamp: 1_700_000_000_000,
        message: "ok".to_string(),
        pixels_as_float: d(1.0),
        compress: false,
        width: 640,
        height: 480,
        image_type: ImageType::Infrared,
    };
    let encoded = to_value(&record);
    match &encoded {
        Value::Mapping(entries) => {
            let keys: Vec<&str> = entries.iter().map(|e| e.0.as_str()).collect();
            assert_eq!(
                keys,
                vec![
                    "image_data_uint8",
                    "image_data_float",
                    "camera_position",
                    "camera_orientation",
                    "timestamp",
                    "message",
                    "pixels_as_float",
                    "compress",
                    "width",
                    "height",
                    "image_type",
                ]
            );
            assert_eq!(entries[10].1, unsigned(7));
        },
        _ => panic!("a record encodes to a map"),
    }
    assert_eq!(from_value::<ImageResponse>(encoded), Ok(record));
}

#[test]
fn kinematics_round_trip() {
    let record = kinematics();
    assert_eq!(from_value::<KinematicsState>(to_value(&record)), Ok(record));
}

#[test]
fn environment_round_trip() {
    let record = EnvironmentState {
        position: vector(1.0, 2.0, 3.0),
        geo_point: GeoPoint { latitude: d(1.0), longitude: d(2.0), altitude: d(3.0) },
        gravity: vector(0.0, 0.0, -9.81),
        air_pressure: d(101325.0),
        temperature: d(293.15),
        air_density: d(1.204),
    };
    assert_eq!(from_value::<EnvironmentState>(to_value(&record)), Ok(record));
}

#[test]
fn collision_info_round_trip() {
    let record = CollisionInfo {
        has_collided: true,
        normal: vector(0.0, 1.0, 0.0),
        impact_point: vector(4.0, 5.0, 6.0),
        position: vector(7.0, 8.0, 9.0),
        penetration_depth: d(0.02),
        timestamp: d(12.5),
        object_name: "cone_17".to_string(),
        object_id: 17,
    };
    assert_eq!(from_value::<CollisionInfo>(to_value(&record)), Ok(record));
}

#[test]
fn car_state_round_trip() {
    let record = CarState { speed: d(13.9), kinematics_estimated: kinematics(), timestamp: 42 };
    let encoded = to_value(&record);
    assert_eq!(
        encoded,
        Value::Mapping(vec![
            entry("speed", float(13.9)),
            entry("kinematics_estimated", to_value(&kinematics())),
            entry("timestamp", unsigned(42)),
        ])
    );
    assert_eq!(from_value::<CarState>(encoded), Ok(record));
}

#[test]
fn fields_are_found_by_name_in_any_order() {
    let mut entries = controls_entries();
    entries.reverse();
    assert_eq!(from_value::<CarControls>(Value::Mapping(entries)), Ok(controls()));
    let mut entries = controls_entries();
    entries.swap(0, 6);
    entries.swap(2, 3);
    assert_eq!(from_value::<CarControls>(Value::Mapping(entries)), Ok(controls()));
}

#[test]
fn missing_field_is_named() {
    for k in 0..7 {
        let mut entries = controls_entries();
        let removed = entries.remove(k);
        assert_eq!(
            from_value::<CarControls>(Value::Mapping(entries)),
            Err(DecodeError::FieldMissing(removed.0))
        );
    }
}

#[test]
fn first_missing_field_in_schema_order_is_reported() {
    let entries = vec![entry("gear_immediate", Value::Boolean(true)), entry("brake", float(0.0))];
    assert_eq!(
        from_value::<CarControls>(Value::Mapping(entries)),
        Err(DecodeError::FieldMissing("throttle".to_string()))
    );
}

#[test]
fn empty_map_misses_the_first_field() {
    assert_eq!(
        from_value::<Vector3r>(Value::Mapping(vec![])),
        Err(DecodeError::FieldMissing("x_val".to_string()))
    );
}

#[test]
fn extra_key_turbo_is_reported() {
    let mut entries = controls_entries();
    entries.push(entry("turbo", Value::Boolean(true)));
    assert_eq!(
        from_value::<CarControls>(Value::Mapping(entries)),
        Err(DecodeError::ExtraFieldsPresent(vec!["turbo".to_string()]))
    );
}

#[test]
fn extra_key_is_reported_wherever_it_stands() {
    for q in 0..8 {
        let mut entries = controls_entries();
        entries.insert(q, entry("turbo", Value::Nil));
        assert_eq!(
            from_value::<CarControls>(Value::Mapping(entries)),
            Err(DecodeError::ExtraFieldsPresent(vec!["turbo".to_string()]))
        );
    }
}

#[test]
fn several_extra_keys_are_reported_in_map_order() {
    let mut entries = controls_entries();
    entries.insert(0, entry("zeta", Value::Nil));
    entries.insert(4, entry("alpha", Value::Nil));
    entries.push(entry("mid", Value::Nil));
    assert_eq!(
        from_value::<CarControls>(Value::Mapping(entries)),
        Err(DecodeError::ExtraFieldsPresent(vec![
            "zeta".to_string(),
            "alpha".to_string(),
            "mid".to_string(),
        ]))
    );
}

#[test]
fn second_entry_of_a_repeated_key_is_surplus() {
    let mut entries = controls_entries();
    entries.push(entry("brake", float(1.0)));
    assert_eq!(
        from_value::<CarControls>(Value::Mapping(entries)),
        Err(DecodeError::ExtraFieldsPresent(vec!["brake".to_string()]))
    );
}

#[test]
fn field_names_are_case_sensitive() {
    let mut entries = controls_entries();
    entries[0] = entry("Throttle", float(1.0));
    assert_eq!(
        from_value::<CarControls>(Value::Mapping(entries)),
        Err(DecodeError::FieldMissing("throttle".to_string()))
    );
}

#[test]
fn a_value_that_is_no_map_is_refused() {
    assert_eq!(from_value::<CarControls>(Value::Nil), Err(DecodeError::NotAMap));
    assert_eq!(from_value::<CarControls>(Value::Boolean(true)), Err(DecodeError::NotAMap));
    assert_eq!(from_value::<CarControls>(unsigned(3)), Err(DecodeError::NotAMap));
    assert_eq!(from_value::<CarControls>(float(1.0)), Err(DecodeError::NotAMap));
    assert_eq!(
        from_value::<CarControls>(Value::String("throttle".to_string())),
        Err(DecodeError::NotAMap)
    );
    assert_eq!(from_value::<CarControls>(Value::Binary(vec![1, 2])), Err(DecodeError::NotAMap));
    assert_eq!(
        from_value::<CarControls>(Value::Array(vec![float(1.0)])),
        Err(DecodeError::NotAMap)
    );
}

#[test]
fn an_integer_is_no_float() {
    let mut entries = controls_entries();
    entries[1] = entry("steering", unsigned(0));
    assert_eq!(
        from_value::<CarControls>(Value::Mapping(entries)),
        Err(DecodeError::FieldTypeMismatch("steering".to_string(), TypeTag::Float))
    );
}

#[test]
fn a_float_is_no_integer() {
    let mut entries = controls_entries();
    entries[5] = entry("manual_gear", float(0.0));
    assert_eq!(
        from_value::<CarControls>(Value::Mapping(entries)),
        Err(DecodeError::FieldTypeMismatch("manual_gear".to_string(), TypeTag::Unsigned))
    );
}

#[test]
fn a_negative_integer_is_no_unsigned() {
    let mut entries = controls_entries();
    entries[5] = entry("manual_gear", Value::Integer(Integer::from_i64(-1)));
    assert_eq!(
        from_value::<CarControls>(Value::Mapping(entries)),
        Err(DecodeError::FieldTypeMismatch("manual_gear".to_string(), TypeTag::Unsigned))
    );
}

#[test]
fn a_positive_signed_integer_is_an_unsigned() {
    let mut entries = controls_entries();
    entries[5] = entry("manual_gear", Value::Integer(Integer::from_i64(3)));
    let mut expected = controls();
    expected.manual_gear = 3;
    assert_eq!(from_value::<CarControls>(Value::Mapping(entries)), Ok(expected));
}

#[test]
fn nil_is_no_boolean() {
    let mut entries = controls_entries();
    entries[3] = entry("handbrake", Value::Nil);
    assert_eq!(
        from_value::<CarControls>(Value::Mapping(entries)),
        Err(DecodeError::FieldTypeMismatch("handbrake".to_string(), TypeTag::Boolean))
    );
}

#[test]
fn binary_is_no_text() {
    let entries = vec![
        entry("camera_name", Value::Binary(vec![48])),
        entry("image_type", unsigned(0)),
        entry("pixels_as_float", Value::Boolean(false)),
        entry("compress", Value::Boolean(false)),
    ];
    assert_eq!(
        from_value::<ImageRequest>(Value::Mapping(entries)),
        Err(DecodeError::FieldTypeMismatch("camera_name".to_string(), TypeTag::Text))
    );
}

#[test]
fn type_mismatch_comes_before_a_later_missing_field() {
    let entries = vec![entry("throttle", Value::Nil)];
    assert_eq!(
        from_value::<CarControls>(Value::Mapping(entries)),
        Err(DecodeError::FieldTypeMismatch("throttle".to_string(), TypeTag::Float))
    );
}

#[test]
fn a_broken_nested_record_is_a_mismatch_of_its_field() {
    let good = to_value(&quaternion(1.0, 0.0, 0.0, 0.0));
    let missing = Value::Mapping(vec![
        entry("position", Value::Mapping(vec![entry("x_val", float(1.0))])),
        entry("orientation", good),
    ]);
    assert_eq!(
        from_value::<Pose>(missing),
        Err(DecodeError::FieldTypeMismatch("position".to_string(), TypeTag::Record))
    );
    let not_a_map = Value::Mapping(vec![
        entry("position", float(1.0)),
        entry("orientation", to_value(&quaternion(1.0, 0.0, 0.0, 0.0))),
    ]);
    assert_eq!(
        from_value::<Pose>(not_a_map),
        Err(DecodeError::FieldTypeMismatch("position".to_string(), TypeTag::Record))
    );
}

#[test]
fn nested_fields_are_found_in_any_order_too() {
    let position = Value::Mapping(vec![
        entry("z_val", float(3.0)),
        entry("x_val", float(1.0)),
        entry("y_val", float(2.0)),
    ]);
    let value = Value::Mapping(vec![
        entry("orientation", to_value(&quaternion(1.0, 0.0, 0.0, 0.0))),
        entry("position", position),
    ]);
    assert_eq!(
        from_value::<Pose>(value),
        Ok(Pose::new(Some(vector(1.0, 2.0, 3.0)), Some(quaternion(1.0, 0.0, 0.0, 0.0))))
    );
}

fn request_entries(image_type: Value) -> Vec<(String, Value)> {
    vec![
        entry("camera_name", Value::String("0".to_string())),
        entry("image_type", image_type),
        entry("pixels_as_float", Value::Boolean(false)),
        entry("compress", Value::Boolean(false)),
    ]
}

#[test]
fn enumeration_field_out_of_range_is_an_invalid_tag() {
    assert_eq!(
        from_value::<ImageRequest>(Value::Mapping(request_entries(unsigned(9)))),
        Err(DecodeError::InvalidEnumTag(Integer::from_u64(9)))
    );
    assert_eq!(
        from_value::<ImageRequest>(Value::Mapping(request_entries(unsigned(8)))),
        Err(DecodeError::InvalidEnumTag(Integer::from_u64(8)))
    );
    assert_eq!(
        from_value::<ImageRequest>(Value::Mapping(request_entries(Value::Integer(
            Integer::from_i64(-1)
        )))),
        Err(DecodeError::InvalidEnumTag(Integer::from_i64(-1)))
    );
}

#[test]
fn enumeration_field_in_range_decodes() {
    assert_eq!(
        from_value::<ImageRequest>(Value::Mapping(request_entries(unsigned(0)))),
        Ok(ImageRequest::default())
    );
    let decoded = from_value::<ImageRequest>(Value::Mapping(request_entries(unsigned(7))));
    assert_eq!(decoded.map(|r| r.image_type), Ok(ImageType::Infrared));
}

#[test]
fn enumeration_field_of_another_type_is_a_mismatch() {
    assert_eq!(
        from_value::<ImageRequest>(Value::Mapping(request_entries(Value::String(
            "Scene".to_string()
        )))),
        Err(DecodeError::FieldTypeMismatch("image_type".to_string(), TypeTag::Enumeration))
    );
}

fn sample_schema() -> Schema {
    Schema::new(vec![
        FieldDescriptor::new("id", FieldType::Unsigned),
        FieldDescriptor::new("payload", FieldType::Binary),
        FieldDescriptor::new("mode", FieldType::Enumeration(3)),
        FieldDescriptor::new(
            "inner",
            FieldType::Record(Schema::new(vec![
                FieldDescriptor::new("label", FieldType::Text),
                FieldDescriptor::new("on", FieldType::Boolean),
            ])),
        ),
    ])
}

fn sample_fields() -> Vec<FieldValue> {
    vec![
        FieldValue::Unsigned(7),
        FieldValue::Binary(vec![0, 255, 16]),
        FieldValue::Enumeration(2),
        FieldValue::Record(vec![FieldValue::Text("x".to_string()), FieldValue::Boolean(true)]),
    ]
}

#[test]
fn generic_codec_encodes_by_schema() {
    let encoded = encode(&sample_fields(), &sample_schema());
    assert_eq!(
        encoded,
        Value::Mapping(vec![
            entry("id", unsigned(7)),
            entry("payload", Value::Binary(vec![0, 255, 16])),
            entry("mode", unsigned(2)),
            entry(
                "inner",
                Value::Mapping(vec![
                    entry("label", Value::String("x".to_string())),
                    entry("on", Value::Boolean(true)),
                ])
            ),
        ])
    );
}

#[test]
fn generic_codec_round_trip() {
    let encoded = encode(&sample_fields(), &sample_schema());
    assert_eq!(decode(&sample_schema(), encoded), Ok(sample_fields()));
}

#[test]
fn generic_codec_with_empty_schema() {
    let schema = Schema::new(vec![]);
    assert_eq!(encode(&vec![], &schema), Value::Mapping(vec![]));
    assert_eq!(decode(&schema, Value::Mapping(vec![])), Ok(vec![]));
    assert_eq!(
        decode(&schema, Value::Mapping(vec![entry("a", Value::Nil)])),
        Err(DecodeError::ExtraFieldsPresent(vec!["a".to_string()]))
    );
}

#[test]
fn generic_enumeration_bounds() {
    let field = FieldDescriptor::new("mode", FieldType::Enumeration(3));
    assert_eq!(decode_field(&field, unsigned(0)), Ok(FieldValue::Enumeration(0)));
    assert_eq!(decode_field(&field, unsigned(2)), Ok(FieldValue::Enumeration(2)));
    assert_eq!(
        decode_field(&field, unsigned(3)),
        Err(DecodeError::InvalidEnumTag(Integer::from_u64(3)))
    );
    assert_eq!(
        decode_field(&field, float(1.0)),
        Err(DecodeError::FieldTypeMismatch("mode".to_string(), TypeTag::Enumeration))
    );
}

#[test]
fn generic_field_encodings() {
    assert_eq!(encode_field(&FieldValue::Boolean(true), &FieldType::Boolean), Value::Boolean(true));
    assert_eq!(
        encode_field(&FieldValue::Unsigned(u64::MAX), &FieldType::Unsigned),
        unsigned(u64::MAX)
    );
    assert_eq!(encode_field(&FieldValue::Float(d(2.5)), &FieldType::Float), float(2.5));
    assert_eq!(
        encode_field(&FieldValue::Text("a".to_string()), &FieldType::Text),
        Value::String("a".to_string())
    );
    assert_eq!(
        encode_field(&FieldValue::Binary(vec![1, 2, 3]), &FieldType::Binary),
        Value::Binary(vec![1, 2, 3])
    );
    assert_eq!(encode_field(&FieldValue::Enumeration(1), &FieldType::Enumeration(2)), unsigned(1));
}

#[test]
fn generic_binary_field_refuses_text() {
    let field = FieldDescriptor::new("payload", FieldType::Binary);
    assert_eq!(decode_field(&field, Value::Binary(vec![9])), Ok(FieldValue::Binary(vec![9])));
    assert_eq!(
        decode_field(&field, Value::String("9".to_string())),
        Err(DecodeError::FieldTypeMismatch("payload".to_string(), TypeTag::Binary))
    );
}

fn referee() -> fsds_rs::types::RefereeState {
    fsds_rs::types::RefereeState {
        doo_counter: 2,
        laps: d(1.5),
        initial_position: Position2D { x_val: d(10.0), y_val: d(-4.0) },
        cones: vec![
            Position2D { x_val: d(1.0), y_val: d(2.0) },
            Position2D { x_val: d(3.0), y_val: d(4.0) },
            Position2D { x_val: d(5.0), y_val: d(6.0) },
        ],
    }
}

fn point(x: f64, y: f64) -> Value {
    Value::Mapping(vec![entry("x_val", float(x)), entry("y_val", float(y))])
}

#[test]
fn referee_state_encodes_its_cones_as_an_array_of_records() {
    let encoded = to_value(&referee());
    assert_eq!(
        encoded,
        Value::Mapping(vec![
            entry("doo_counter", unsigned(2)),
            entry("laps", float(1.5)),
            entry("initial_position", point(10.0, -4.0)),
            entry("cones", Value::Array(vec![point(1.0, 2.0), point(3.0, 4.0), point(5.0, 6.0)])),
        ])
    );
}

#[test]
fn referee_state_round_trip() {
    let record = referee();
    assert_eq!(from_value::<fsds_rs::types::RefereeState>(to_value(&record)), Ok(record));
    let empty = fsds_rs::types::RefereeState::default();
    let encoded = to_value(&empty);
    match &encoded {
        Value::Mapping(entries) => assert_eq!(entries[3].1, Value::Array(vec![])),
        _ => panic!("a record encodes to a map"),
    }
    assert_eq!(from_value::<fsds_rs::types::RefereeState>(encoded), Ok(empty));
}

#[test]
fn a_list_keeps_the_order_of_its_records() {
    let value = Value::Mapping(vec![
        entry("cones", Value::Array(vec![point(5.0, 6.0), point(1.0, 2.0)])),
        entry("initial_position", point(0.0, 0.0)),
        entry("laps", float(0.0)),
        entry("doo_counter", unsigned(0)),
    ]);
    let decoded = from_value::<fsds_rs::types::RefereeState>(value).map(|r| r.cones);
    assert_eq!(
        decoded,
        Ok(vec![
            Position2D { x_val: d(5.0), y_val: d(6.0) },
            Position2D { x_val: d(1.0), y_val: d(2.0) },
        ])
    );
}

fn referee_entries(cones: Value) -> Value {
    Value::Mapping(vec![
        entry("doo_counter", unsigned(0)),
        entry("laps", float(0.0)),
        entry("initial_position", point(0.0, 0.0)),
        entry("cones", cones),
    ])
}

#[test]
fn a_list_with_one_broken_record_is_a_mismatch_of_its_field() {
    let expected = Err(DecodeError::FieldTypeMismatch("cones".to_string(), TypeTag::Repeated));
    let missing = Value::Array(vec![
        point(1.0, 2.0),
        Value::Mapping(vec![entry("x_val", float(1.0))]),
        point(3.0, 4.0),
    ]);
    assert_eq!(from_value::<fsds_rs::types::RefereeState>(referee_entries(missing)), expected);
    let surplus = Value::Array(vec![Value::Mapping(vec![
        entry("x_val", float(1.0)),
        entry("y_val", float(2.0)),
        entry("z_val", float(3.0)),
    ])]);
    assert_eq!(from_value::<fsds_rs::types::RefereeState>(referee_entries(surplus)), expected);
    let no_record = Value::Array(vec![point(1.0, 2.0), float(3.0)]);
    assert_eq!(from_value::<fsds_rs::types::RefereeState>(referee_entries(no_record)), expected);
}

#[test]
fn a_list_field_refuses_what_is_no_array() {
    let expected = Err(DecodeError::FieldTypeMismatch("cones".to_string(), TypeTag::Repeated));
    assert_eq!(
        from_value::<fsds_rs::types::RefereeState>(referee_entries(point(1.0, 2.0))),
        expected
    );
    assert_eq!(from_value::<fsds_rs::types::RefereeState>(referee_entries(Value::Nil)), expected);
}

#[test]
fn generic_list_of_records() {
    let item_schema = || {
        Schema::new(vec![
            FieldDescriptor::new("tag", FieldType::Enumeration(2)),
            FieldDescriptor::new("name", FieldType::Text),
        ])
    };
    let field = FieldDescriptor::new("items", FieldType::Repeated(item_schema()));
    let value = FieldValue::Repeated(vec![
        vec![FieldValue::Enumeration(1), FieldValue::Text("a".to_string())],
        vec![FieldValue::Enumeration(0), FieldValue::Text("b".to_string())],
    ]);
    let encoded = encode_field(&value, &field.ty);
    assert_eq!(
        encoded,
        Value::Array(vec![
            Value::Mapping(vec![
                entry("tag", unsigned(1)),
                entry("name", Value::String("a".to_string())),
            ]),
            Value::Mapping(vec![
                entry("tag", unsigned(0)),
                entry("name", Value::String("b".to_string())),
            ]),
        ])
    );
    assert_eq!(decode_field(&field, encoded), Ok(value));
    assert_eq!(decode_field(&field, Value::Array(vec![])), Ok(FieldValue::Repeated(vec![])));
    let bad_tag = Value::Array(vec![Value::Mapping(vec![
        entry("tag", unsigned(2)),
        entry("name", Value::String("a".to_string())),
    ])]);
    assert_eq!(
        decode_field(&field, bad_tag),
        Err(DecodeError::FieldTypeMismatch("items".to_string(), TypeTag::Repeated))
    );
    assert_eq!(field.ty.tag(), TypeTag::Repeated);
}

#[test]
fn conformance_is_checked_field_by_field() {
    let schema = sample_schema();
    assert!(fsds_rs::schema::is_record_of(&sample_fields(), &schema));
    let mut short = sample_fields();
    short.pop();
    assert!(!fsds_rs::schema::is_record_of(&short, &schema));
    let mut long = sample_fields();
    long.push(FieldValue::Boolean(true));
    assert!(!fsds_rs::schema::is_record_of(&long, &schema));
    let mut wrong_type = sample_fields();
    wrong_type[0] = FieldValue::Float(d(7.0));
    assert!(!fsds_rs::schema::is_record_of(&wrong_type, &schema));
    let mut wrong_variant = sample_fields();
    wrong_variant[2] = FieldValue::Enumeration(3);
    assert!(!fsds_rs::schema::is_record_of(&wrong_variant, &schema));
    let mut wrong_inner = sample_fields();
    wrong_inner[3] = FieldValue::Record(vec![FieldValue::Text("x".to_string())]);
    assert!(!fsds_rs::schema::is_record_of(&wrong_inner, &schema));
}

#[test]
fn each_value_has_the_type_of_its_kind_only() {
    assert!(FieldValue::Boolean(true).has_type(&FieldType::Boolean));
    assert!(!FieldValue::Boolean(true).has_type(&FieldType::Unsigned));
    assert!(FieldValue::Unsigned(1).has_type(&FieldType::Unsigned));
    assert!(!FieldValue::Unsigned(1).has_type(&FieldType::Enumeration(2)));
    assert!(FieldValue::Float(d(1.0)).has_type(&FieldType::Float));
    assert!(!FieldValue::Float(d(1.0)).has_type(&FieldType::Unsigned));
    assert!(FieldValue::Text("a".to_string()).has_type(&FieldType::Text));
    assert!(!FieldValue::Text("a".to_string()).has_type(&FieldType::Binary));
    assert!(FieldValue::Binary(vec![1]).has_type(&FieldType::Binary));
    assert!(!FieldValue::Binary(vec![1]).has_type(&FieldType::Text));
    assert!(FieldValue::Enumeration(1).has_type(&FieldType::Enumeration(2)));
    assert!(!FieldValue::Enumeration(2).has_type(&FieldType::Enumeration(2)));
    assert!(!FieldValue::Enumeration(0).has_type(&FieldType::Enumeration(0)));
    let point = || Schema::new(vec![FieldDescriptor::new("x", FieldType::Float)]);
    let good = || vec![FieldValue::Float(d(1.0))];
    let bad = || vec![FieldValue::Boolean(false)];
    assert!(FieldValue::Record(good()).has_type(&FieldType::Record(point())));
    assert!(!FieldValue::Record(bad()).has_type(&FieldType::Record(point())));
    assert!(!FieldValue::Record(good()).has_type(&FieldType::Repeated(point())));
    assert!(FieldValue::Repeated(vec![]).has_type(&FieldType::Repeated(point())));
    assert!(FieldValue::Repeated(vec![good(), good()]).has_type(&FieldType::Repeated(point())));
    assert!(!FieldValue::Repeated(vec![good(), bad()]).has_type(&FieldType::Repeated(point())));
    assert!(!FieldValue::Repeated(vec![good()]).has_type(&FieldType::Record(point())));
}

#[test]
fn try_encode_encodes_records_of_the_schema_only() {
    let schema = sample_schema();
    assert_eq!(
        fsds_rs::codec::try_encode(&sample_fields(), &schema),
        Some(encode(&sample_fields(), &schema))
    );
    let mut wrong = sample_fields();
    wrong[1] = FieldValue::Text("payload".to_string());
    assert_eq!(fsds_rs::codec::try_encode(&wrong, &schema), None);
    assert_eq!(fsds_rs::codec::try_encode(&vec![], &schema), None);
}
