use fsds_rs::record::to_value;
use fsds_rs::request::{
    address_or_default, default_address, disable_api_control, enable_api_control, get_car_state,
    is_api_control_enabled, ping, reset, set_car_controls, sim_get_ground_truth_kinematics,
    sim_get_image, sim_get_images, Call,
};
use fsds_rs::types::{CarControls, ImageRequest, ImageType};
use fsds_rs::wire::{Integer, Value};

fn text(s: &str) -> Value {
    Value::String(s.to_string())
}

fn call(method: &str, params: Vec<Value>) -> Call {
    Call { method: method.to_string(), params }
}

#[test]
fn address_defaults_to_the_local_simulator() {
    assert_eq!(default_address(), "127.0.0.1:41451");
    assert_eq!(address_or_default(None), "127.0.0.1:41451");
    assert_eq!(address_or_default(Some("10.0.0.2:5000")), "10.0.0.2:5000");
}

#[test]
fn calls_without_parameters() {
    assert_eq!(reset(), call("reset", vec![]));
    assert_eq!(ping(), call("ping", vec![]));
}

#[test]
fn api_control_calls() {
    assert_eq!(
        enable_api_control("FSCar"),
        call("enableApiControl", vec![Value::Boolean(true), text("FSCar")])
    );
    assert_eq!(
        disable_api_control("FSCar"),
        call("enableApiControl", vec![Value::Boolean(false), text("FSCar")])
    );
    assert_eq!(
        is_api_control_enabled("FSCar"),
        call("isApiControlEnabled", vec![text("FSCar")])
    );
}

#[test]
fn state_calls() {
    assert_eq!(
        sim_get_ground_truth_kinematics("FSCar"),
        call("simGetGroundTruthKinematics", vec![text("FSCar")])
    );
    assert_eq!(get_car_state("car 2"), call("getCarState", vec![text("car 2")]));
}

#[test]
fn single_image_call() {
    assert_eq!(
        sim_get_image("cam1", ImageType::DepthPerspective, "FSCar"),
        call(
            "simGetImage",
            vec![text("cam1"), Value::Integer(Integer::from_u64(2)), text("FSCar")]
        )
    );
}

#[test]
fn several_images_call() {
    let first = ImageRequest::default();
    let second = ImageRequest {
        camera_name: "rear".to_string(),
        image_type: ImageType::Infrared,
        pixels_as_float: true,
        compress: true,
    };
    let requests = vec![first.clone(), second.clone()];
    assert_eq!(
        sim_get_images(&requests, "FSCar"),
        call(
            "simGetImages",
            vec![Value::Array(vec![to_value(&first), to_value(&second)]), text("FSCar")]
        )
    );
    assert_eq!(
        sim_get_images(&vec![], "FSCar"),
        call("simGetImages", vec![Value::Array(vec![]), text("FSCar")])
    );
}

#[test]
fn controls_call() {
    let controls = CarControls::default();
    assert_eq!(
        set_car_controls(&controls, "FSCar"),
        call("setCarControls", vec![to_value(&controls), text("FSCar")])
    );
}
