//! The calls that the simulator answers: for each, the name of its method and
//! its parameters as wire values, ready to be sent.
//!
//! Nothing here talks to the simulator. A call is built here and handed to
//! whatever transport carries it; the reply comes back as a wire value, to be
//! decoded by the codec.
use vstd::prelude::*;
use crate::record::{spec_to_value, to_value};
use crate::types::image::ImageType;
use crate::types::records::{CarControls, ImageRequest};
use crate::wire::{items_view, lemma_items_view_push, Integer, Value, ValueView};

verus! {

/// A call: the method to invoke and its parameters, in order.
#[derive(Debug, PartialEq)]
pub struct Call {
    pub method: String,
    pub params: Vec<Value>,
}

/// Mathematical counterpart of [`Call`].
pub struct CallView {
    pub method: Seq<char>,
    pub params: Seq<ValueView>,
}

impl View for Call {
    type V = CallView;

    open spec fn view(&self) -> CallView {
        CallView { method: self.method@, params: items_view(self.params@) }
    }
}

/// The encodings of a list of image requests, item by item.
pub open spec fn spec_encode_requests(requests: Seq<ImageRequest>) -> Seq<ValueView> {
    Seq::new(requests.len(), |i: int| spec_to_value::<ImageRequest>(requests[i]@))
}

/// The address at which a simulator on this machine listens.
pub fn default_address() -> (r: String)
    ensures
        r@ == "127.0.0.1:41451"@,
{
    "127.0.0.1:41451".to_owned()
}

/// The given address, or that of a simulator on this machine where none is
/// given.
pub fn address_or_default(addr: Option<&str>) -> (r: String)
    ensures
        r@ == match addr {
            Some(a) => a@,
            None => "127.0.0.1:41451"@,
        },
{
    match addr {
        Some(a) => a.to_owned(),
        None => default_address(),
    }
}

/// A call of the given method with the vehicle's name as its only parameter.
fn vehicle_call(method: &str, vehicle_name: &str) -> (r: Call)
    ensures
        r@ == (CallView { method: method@, params: seq![ValueView::String(vehicle_name@)] }),
{
    let mut params: Vec<Value> = Vec::new();
    params.push(Value::String(vehicle_name.to_owned()));
    let r = Call { method: method.to_owned(), params };
    assert(r@.params =~= seq![ValueView::String(vehicle_name@)]);
    r
}

/// Puts the vehicle back into its starting state. Control by calls has to be
/// enabled anew afterwards.
pub fn reset() -> (r: Call)
    ensures
        r@ == (CallView { method: "reset"@, params: Seq::empty() }),
{
    let r = Call { method: "reset".to_owned(), params: Vec::new() };
    assert(r@.params =~= Seq::<ValueView>::empty());
    r
}

/// Asks whether the simulator is there.
pub fn ping() -> (r: Call)
    ensures
        r@ == (CallView { method: "ping"@, params: Seq::empty() }),
{
    let r = Call { method: "ping".to_owned(), params: Vec::new() };
    assert(r@.params =~= Seq::<ValueView>::empty());
    r
}

/// Switches control by calls on or off for the named vehicle.
fn api_control(enabled: bool, vehicle_name: &str) -> (r: Call)
    ensures
        r@ == (CallView {
            method: "enableApiControl"@,
            params: seq![ValueView::Boolean(enabled), ValueView::String(vehicle_name@)],
        }),
{
    let mut params: Vec<Value> = Vec::new();
    params.push(Value::Boolean(enabled));
    params.push(Value::String(vehicle_name.to_owned()));
    let r = Call { method: "enableApiControl".to_owned(), params };
    assert(r@.params =~= seq![ValueView::Boolean(enabled), ValueView::String(vehicle_name@)]);
    r
}

/// Enables control by calls for the named vehicle.
pub fn enable_api_control(vehicle_name: &str) -> (r: Call)
    ensures
        r@ == (CallView {
            method: "enableApiControl"@,
            params: seq![ValueView::Boolean(true), ValueView::String(vehicle_name@)],
        }),
{
    api_control(true, vehicle_name)
}

/// Disables control by calls for the named vehicle: the same method as
/// enabling, with `false`.
pub fn disable_api_control(vehicle_name: &str) -> (r: Call)
    ensures
        r@ == (CallView {
            method: "enableApiControl"@,
            params: seq![ValueView::Boolean(false), ValueView::String(vehicle_name@)],
        }),
{
    api_control(false, vehicle_name)
}

/// Asks whether control by calls is enabled for the named vehicle.
pub fn is_api_control_enabled(vehicle_name: &str) -> (r: Call)
    ensures
        r@ == (CallView {
            method: "isApiControlEnabled"@,
            params: seq![ValueView::String(vehicle_name@)],
        }),
{
    vehicle_call("isApiControlEnabled", vehicle_name)
}

/// Asks the named camera of the named vehicle for one image of a kind.
pub fn sim_get_image(camera_name: &str, image_type: ImageType, vehicle_name: &str) -> (r: Call)
    ensures
        r@ == (CallView {
            method: "simGetImage"@,
            params: seq![
                ValueView::String(camera_name@),
                ValueView::Integer(image_type.spec_discriminant() as int),
                ValueView::String(vehicle_name@),
            ],
        }),
{
    let mut params: Vec<Value> = Vec::new();
    params.push(Value::String(camera_name.to_owned()));
    params.push(image_type.to_value());
    params.push(Value::String(vehicle_name.to_owned()));
    let r = Call { method: "simGetImage".to_owned(), params };
    assert(r@.params =~= seq![
        ValueView::String(camera_name@),
        ValueView::Integer(image_type.spec_discriminant() as int),
        ValueView::String(vehicle_name@),
    ]);
    r
}

/// Asks the named vehicle for several images at once: the requests travel as
/// one array, each encoded as a record, in the order given.
pub fn sim_get_images(requests: &Vec<ImageRequest>, vehicle_name: &str) -> (r: Call)
    ensures
        r@ == (CallView {
            method: "simGetImages"@,
            params: seq![
                ValueView::Array(spec_encode_requests(requests@)),
                ValueView::String(vehicle_name@),
            ],
        }),
{
    let mut encoded: Vec<Value> = Vec::new();
    let mut i: usize = 0;
    while i < requests.len()
        invariant
            i <= requests.len(),
            items_view(encoded@) == spec_encode_requests(requests@).subrange(0, i as int),
        decreases requests.len() - i,
    {
        let item = to_value(&requests[i]);
        proof {
            lemma_items_view_push(encoded@, item);
            let all = spec_encode_requests(requests@);
            assert(all.subrange(0, i + 1) == all.subrange(0, i as int).push(all[i as int]));
        }
        encoded.push(item);
        i += 1;
    }
    assert(spec_encode_requests(requests@).subrange(0, requests@.len() as int)
        == spec_encode_requests(requests@));
    let mut params: Vec<Value> = Vec::new();
    params.push(Value::Array(encoded));
    params.push(Value::String(vehicle_name.to_owned()));
    let r = Call { method: "simGetImages".to_owned(), params };
    assert(r@.params =~= seq![
        ValueView::Array(spec_encode_requests(requests@)),
        ValueView::String(vehicle_name@),
    ]);
    r
}

/// Asks for the true kinematics of the named vehicle.
pub fn sim_get_ground_truth_kinematics(vehicle_name: &str) -> (r: Call)
    ensures
        r@ == (CallView {
            method: "simGetGroundTruthKinematics"@,
            params: seq![ValueView::String(vehicle_name@)],
        }),
{
    vehicle_call("simGetGroundTruthKinematics", vehicle_name)
}

/// Sets the controls of the named vehicle.
pub fn set_car_controls(controls: &CarControls, vehicle_name: &str) -> (r: Call)
    ensures
        r@ == (CallView {
            method: "setCarControls"@,
            params: seq![
                spec_to_value::<CarControls>(controls@),
                ValueView::String(vehicle_name@),
            ],
        }),
{
    let mut params: Vec<Value> = Vec::new();
    params.push(to_value(controls));
    params.push(Value::String(vehicle_name.to_owned()));
    let r = Call { method: "setCarControls".to_owned(), params };
    assert(r@.params =~= seq![
        spec_to_value::<CarControls>(controls@),
        ValueView::String(vehicle_name@),
    ]);
    r
}

/// Asks for the state of the named vehicle.
pub fn get_car_state(vehicle_name: &str) -> (r: Call)
    ensures
        r@ == (CallView { method: "getCarState"@, params: seq![ValueView::String(vehicle_name@)] }),
{
    vehicle_call("getCarState", vehicle_name)
}

} // verus!
