use vstd::prelude::*;

verus! {

/// Whether the bytes parse as a JSON object, the shape every sensor reading
/// is carried in.
pub uninterp spec fn sensor_json_ok(data: Seq<u8>) -> bool;

/// Relies on serde_json::from_slice::<serde_json::Map<String, Value>>:
/// parsing is a function of the bytes alone, and succeeds exactly when they
/// hold one JSON object.
#[verifier::external_body]
fn parse_sensor_json(data: &Vec<u8>) -> (r: Result<(), String>)
    ensures
        r is Ok <==> sensor_json_ok(data@),
        r matches Err(e) ==> e@.len() > 0,
{
    match serde_json::from_slice::<serde_json::Map<String, serde_json::Value>>(data.as_slice()) {
        Ok(_) => Ok(()),
        Err(e) => Err(format!("SensorData deserialization error: {}", e)),
    }
}

/// One structured measurement payload, held as its validated encoding.
pub struct SensorData {
    bytes: Vec<u8>,
}

impl View for SensorData {
    type V = Seq<u8>;

    closed spec fn view(&self) -> Seq<u8> {
        self.bytes@
    }
}

impl SensorData {
    /// A payload is well formed when its bytes hold one JSON object.
    pub open spec fn wf(&self) -> bool {
        sensor_json_ok(self@)
    }

    /// Validates raw bytes as a sensor payload; malformed bytes are rejected
    /// with a human-readable message and no value is built from them.
    pub fn from_bytes(data: Vec<u8>) -> (r: Result<SensorData, String>)
        ensures
            r is Ok <==> sensor_json_ok(data@),
            r matches Ok(s) ==> s@ == data@ && s.wf(),
            r matches Err(e) ==> e@.len() > 0,
    {
        match parse_sensor_json(&data) {
            Ok(()) => Ok(SensorData { bytes: data }),
            Err(e) => Err(e),
        }
    }

    /// The validated payload bytes.
    pub fn bytes(&self) -> (r: &Vec<u8>)
        ensures
            r@ == self@,
    {
        &self.bytes
    }
}

} // verus!
