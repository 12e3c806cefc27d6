use vstd::prelude::*;

verus! {

/// The topic on which clock control messages arrive.
pub const TIME_TOPIC: &'static str = "simulation_time_mgmt";

/// Why a record could not be turned into a typed message.
#[derive(Debug, Clone, Copy, PartialEq, Eq, Structural)]
pub enum DecodeError {
    /// The schema id embedded in the record is unknown to the registry.
    SchemaResolution,
    /// The record's body does not conform to its schema.
    MalformedPayload,
    /// The decoded value does not fit the target message type.
    Projection,
}

/// What the consumer does with one received record. In either case the
/// record's offset is committed afterwards, so that a record that cannot be
/// decoded is not delivered again and again.
pub enum RecordAction<T> {
    /// Hand the typed message to the sink, then commit.
    Forward(T),
    /// Report the error, drop the record, then commit.
    Skip(DecodeError),
}

/// The action for a record whose decoding gave `decoded`: a typed message is
/// forwarded, a failure is skipped.
pub fn handle_record<T>(decoded: Result<T, DecodeError>) -> (r: RecordAction<T>)
    ensures
        match decoded {
            Ok(m) => r == RecordAction::<T>::Forward(m),
            Err(e) => r == RecordAction::<T>::Skip(e),
        },
{
    match decoded {
        Ok(m) => RecordAction::Forward(m),
        Err(e) => RecordAction::Skip(e),
    }
}

/// The fixed consumer configuration for a group `group_id` on brokers
/// `brokers`, as key and value pairs: session timeout 6000 ms, no automatic
/// commit, and a fresh group starts at the latest offset.
pub fn consumer_config(group_id: &str, brokers: &str) -> (r: Vec<(String, String)>)
    ensures
        r@.len() == 5,
        r@[0].0@ == "group.id"@ && r@[0].1@ == group_id@,
        r@[1].0@ == "bootstrap.servers"@ && r@[1].1@ == brokers@,
        r@[2].0@ == "session.timeout.ms"@ && r@[2].1@ == "6000"@,
        r@[3].0@ == "enable.auto.commit"@ && r@[3].1@ == "false"@,
        r@[4].0@ == "auto.offset.reset"@ && r@[4].1@ == "latest"@,
{
    let mut r: Vec<(String, String)> = Vec::new();
    r.push(("group.id".to_owned(), group_id.to_owned()));
    r.push(("bootstrap.servers".to_owned(), brokers.to_owned()));
    r.push(("session.timeout.ms".to_owned(), "6000".to_owned()));
    r.push(("enable.auto.commit".to_owned(), "false".to_owned()));
    r.push(("auto.offset.reset".to_owned(), "latest".to_owned()));
    r
}

} // verus!
