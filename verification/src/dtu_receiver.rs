use vstd::prelude::*;

verus! {

/// Why a DTU payload is refused before its readings are range-checked.
#[derive(Debug, Clone, Copy, PartialEq, Eq, Structural)]
pub enum PayloadHeaderError {
    /// The payload names no bridge.
    EmptyBridgeId,
    /// The payload carries no reading at all.
    NoSensorData,
}

impl PayloadHeaderError {
    pub open spec fn text(self) -> Seq<char> {
        match self {
            PayloadHeaderError::EmptyBridgeId => "bridge_id cannot be empty"@,
            PayloadHeaderError::NoSensorData => "payload has no sensor data"@,
        }
    }

    /// The message reported for this refusal.
    pub fn message(&self) -> (s: &'static str)
        ensures
            s@ == self.text(),
    {
        match self {
            PayloadHeaderError::EmptyBridgeId => "bridge_id cannot be empty",
            PayloadHeaderError::NoSensorData => "payload has no sensor data",
        }
    }
}

/// First checks of a DTU payload: it must name a bridge, and carry at least
/// one cable-force, acceleration or wind reading (`wind_readings` counts the
/// list of wind readings and the single optional one together). The name is
/// checked first.
pub fn validate_payload_header(
    bridge_id: &str,
    cable_force_readings: usize,
    acceleration_readings: usize,
    wind_readings: usize,
) -> (r: Result<(), PayloadHeaderError>)
    ensures
        bridge_id@.len() == 0 ==> r == Err::<(), PayloadHeaderError>(PayloadHeaderError::EmptyBridgeId),
        bridge_id@.len() != 0 && cable_force_readings == 0 && acceleration_readings == 0 && wind_readings == 0
            ==> r == Err::<(), PayloadHeaderError>(PayloadHeaderError::NoSensorData),
        r is Ok <==> bridge_id@.len() != 0 && (cable_force_readings > 0 || acceleration_readings > 0 || wind_readings > 0),
{
    if bridge_id.is_empty() {
        return Err(PayloadHeaderError::EmptyBridgeId);
    }
    if cable_force_readings == 0 && acceleration_readings == 0 && wind_readings == 0 {
        return Err(PayloadHeaderError::NoSensorData);
    }
    Ok(())
}

} // verus!
