//! The listing of backends: from the decoded answer of the service to the
//! names handed to the caller.

use vstd::prelude::*;
use crate::error::{failure, names_result, ApiError, Failure, Stage};
use crate::json::{member, model, models, parsed, Json};
use crate::operation::Operation;
use crate::reply::{accept, accepted, decode, decoding, Reply, ReplyModel};
use crate::text::texts;

verus! {

/// The cause given when a body is JSON but no list of named backends.
pub const UNEXPECTED_LISTING: &'static str = "the body does not list named backends";

/// One backend as the service lists it. Of a record, only the name is kept.
#[derive(Clone, Debug, PartialEq, Eq)]
pub struct Device {
    pub name: String,
}

/// What a `Device` stands for in contracts.
pub struct DeviceModel {
    pub name: Seq<char>,
}

impl View for Device {
    type V = DeviceModel;

    open spec fn view(&self) -> DeviceModel {
        DeviceModel { name: self.name@ }
    }
}

/// What each device of a list stands for.
pub open spec fn device_views(devices: Seq<Device>) -> Seq<DeviceModel> {
    Seq::new(devices.len(), |i: int| devices[i]@)
}

/// The name of each device, in the order of the devices.
pub open spec fn device_names(devices: Seq<DeviceModel>) -> Seq<Seq<char>> {
    Seq::new(devices.len(), |i: int| devices[i].name)
}

/// The outcome of reading devices, as contracts see it.
pub open spec fn devices_result(
    outcome: Result<Vec<Device>, ApiError>,
) -> Result<Seq<DeviceModel>, Failure> {
    match outcome {
        Ok(devices) => Ok(device_views(devices@)),
        Err(error) => Err(error@),
    }
}

/// The backend records that a decoded answer holds under `field`, in the order
/// received. The answer has to be an object. Where the field is not required,
/// an answer without it, or with `null` in its place, holds no records.
pub open spec fn records(response: Json, field: Seq<char>, required: bool) -> Option<Seq<Json>> {
    if response is Object {
        match member(response, field) {
            None => if required {
                None
            } else {
                Some(Seq::empty())
            },
            Some(Json::Array(list)) => Some(list),
            Some(Json::Null) => if required {
                None
            } else {
                Some(Seq::empty())
            },
            Some(_) => None,
        }
    } else {
        None
    }
}

/// The name of a backend record: the string under `name`.
pub open spec fn record_name(record: Json) -> Option<Seq<char>> {
    match member(record, "name"@) {
        Some(Json::String(name)) => Some(name),
        _ => None,
    }
}

/// Whether every record has a name.
pub open spec fn named(found: Seq<Json>) -> bool {
    forall|i: int| 0 <= i < found.len() ==> (#[trigger] record_name(found[i])) is Some
}

/// The device that each record describes, in the order of the records.
pub open spec fn described(found: Seq<Json>) -> Seq<DeviceModel> {
    Seq::new(found.len(), |i: int| DeviceModel { name: record_name(found[i])->0 })
}

/// The devices that a decoded answer lists, or the failure to find them: an
/// answer of another shape, or a record without a string under `name`, is a
/// deserialization failure.
pub open spec fn read(
    operation: Operation,
    field: Seq<char>,
    required: bool,
    response: Json,
) -> Result<Seq<DeviceModel>, Failure> {
    match records(response, field, required) {
        Some(found) => if named(found) {
            Ok(described(found))
        } else {
            Err(failure(operation, Stage::Deserialization, UNEXPECTED_LISTING@))
        },
        None => Err(failure(operation, Stage::Deserialization, UNEXPECTED_LISTING@)),
    }
}

/// What a call returns that lists backends: the reply is accepted, its body
/// decoded, the devices read and their names taken, and the first step that
/// fails decides the error.
pub open spec fn listed(
    operation: Operation,
    field: Seq<char>,
    required: bool,
    reply: ReplyModel,
) -> Result<Seq<Seq<char>>, Failure> {
    match accepted(operation, reply) {
        Err(rejection) => Err(rejection),
        Ok(body) => match decoding(operation, parsed(body)) {
            Err(malformed) => Err(malformed),
            Ok(response) => match read(operation, field, required, model(response)) {
                Err(misshapen) => Err(misshapen),
                Ok(devices) => Ok(device_names(devices)),
            },
        },
    }
}

/// A listing that succeeds has exactly one name for each record that the
/// service returned, each equal to the string under `name` of its record, in
/// the order received.
pub proof fn listing_follows_records(
    operation: Operation,
    field: Seq<char>,
    required: bool,
    reply: ReplyModel,
)
    requires
        listed(operation, field, required, reply) is Ok,
    ensures
        ({
            let list = listed(operation, field, required, reply)->Ok_0;
            &&& accepted(operation, reply) matches Ok(body)
            &&& parsed(body) matches Ok(response)
            &&& records(model(response), field, required) matches Some(found)
            &&& list.len() == found.len()
            &&& forall|i: int|
                0 <= i < found.len() ==> record_name(#[trigger] found[i]) == Some(list[i])
        }),
{
}

/// Reads the device of every record, or finds the first record without a name.
fn collect_devices(found: &Vec<serde_json::Value>) -> (devices: Option<Vec<Device>>)
    ensures
        match devices {
            Some(inner) => named(models(found@)) && device_views(inner@) == described(
                models(found@),
            ),
            None => !named(models(found@)),
        },
{
    let mut devices: Vec<Device> = Vec::new();
    let mut at: usize = 0;
    while at < found.len()
        invariant
            at <= found.len(),
            devices.len() == at,
            forall|i: int|
                #![trigger models(found@)[i]]
                #![trigger devices@[i]]
                0 <= i < at ==> record_name(models(found@)[i]) == Some(devices@[i].name@),
        decreases found.len() - at,
    {
        let name = match crate::json::get(&found[at], "name") {
            Some(inner) => crate::json::as_str(inner),
            None => None,
        };
        match name {
            Some(text) => devices.push(Device { name: text.to_owned() }),
            None => {
                assert(record_name(models(found@)[at as int]) is None);
                return None;
            },
        }
        at = at + 1;
    }
    assert(device_views(devices@) =~= described(models(found@)));
    Some(devices)
}

/// Reads the devices out of a decoded answer: one for each record that the
/// answer holds under `field`, in the order of the records.
pub fn read_devices(
    operation: Operation,
    field: &str,
    required: bool,
    response: &serde_json::Value,
) -> (outcome: Result<Vec<Device>, ApiError>)
    ensures
        devices_result(outcome) == read(operation, field@, required, model(*response)),
{
    if !crate::json::is_object(response) {
        return Err(ApiError::new(operation, Stage::Deserialization, UNEXPECTED_LISTING));
    }
    let devices = match crate::json::get(response, field) {
        None => if required {
            None
        } else {
            Some(Vec::new())
        },
        Some(inner) => if !required && crate::json::is_null(inner) {
            Some(Vec::new())
        } else {
            match crate::json::as_array(inner) {
                Some(found) => collect_devices(found),
                None => None,
            }
        },
    };
    match devices {
        Some(inner) => {
            assert(device_views(inner@) =~= described(
                records(model(*response), field@, required)->0,
            ));
            Ok(inner)
        },
        None => Err(ApiError::new(operation, Stage::Deserialization, UNEXPECTED_LISTING)),
    }
}

/// Takes the name of every device. The result is as long as the list of
/// devices, and each of its elements is the name of the device at the same
/// place.
pub fn names_of(devices: &Vec<Device>) -> (list: Vec<String>)
    ensures
        texts(list@) == device_names(device_views(devices@)),
        list.len() == devices.len(),
        forall|i: int| 0 <= i < devices.len() ==> (#[trigger] list[i])@ == devices[i].name@,
{
    let mut list: Vec<String> = Vec::new();
    let mut at: usize = 0;
    while at < devices.len()
        invariant
            at <= devices.len(),
            list.len() == at,
            forall|i: int| 0 <= i < at ==> (#[trigger] list[i])@ == devices[i].name@,
        decreases devices.len() - at,
    {
        list.push(devices[at].name.clone());
        at = at + 1;
    }
    assert(texts(list@) =~= device_names(device_views(devices@)));
    list
}

/// Lists backends from a reply: accepts it, decodes its body, reads the
/// devices and takes their names.
pub fn list_names(
    operation: Operation,
    field: &str,
    required: bool,
    reply: Reply,
) -> (outcome: Result<Vec<String>, ApiError>)
    ensures
        names_result(outcome) == listed(operation, field@, required, reply@),
{
    match accept(operation, reply) {
        Err(rejection) => Err(rejection),
        Ok(body) => match decode(operation, body.as_str()) {
            Err(malformed) => Err(malformed),
            Ok(response) => match read_devices(operation, field, required, &response) {
                Err(misshapen) => Err(misshapen),
                Ok(devices) => Ok(names_of(&devices)),
            },
        },
    }
}

} // verus!
