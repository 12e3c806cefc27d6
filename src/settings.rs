use vstd::prelude::*;

verus! {

/// Broker list used when neither a flag nor the environment gives one.
pub const DEFAULT_BROKER: &'static str = "localhost:3501";

/// Schema registry URL used when neither a flag nor the environment gives one.
pub const DEFAULT_SCHEMA_REGISTRY: &'static str = "http://localhost:3502";

/// Consumer group id used when neither a flag nor the environment gives one.
pub const DEFAULT_GROUP_ID: &'static str = "traffic_sim_svc";

/// Connection settings: broker list, schema registry URL and consumer group.
pub struct Variables {
    pub broker: String,
    pub schema: String,
    pub group_id: String,
}

/// The text of `value` when it is given, else `fallback`.
pub open spec fn setting_text(value: Option<String>, fallback: Seq<char>) -> Seq<char> {
    match value {
        Some(v) => v@,
        None => fallback,
    }
}

/// `value` when it is given, else a copy of `fallback`.
pub fn setting_or(value: Option<String>, fallback: &str) -> (r: String)
    ensures
        r@ == setting_text(value, fallback@),
{
    match value {
        Some(v) => v,
        None => fallback.to_owned(),
    }
}

impl Variables {
    /// Settings from the values of the environment variables `KAFKA_HOST`,
    /// `SCHEMA_REGISTRY` and `GROUP_ID` (`None` where one is unset), each
    /// falling back to its default.
    pub fn from_env_values(
        kafka_host: Option<String>,
        schema_registry: Option<String>,
        group_id: Option<String>,
    ) -> (r: Variables)
        ensures
            r.broker@ == setting_text(kafka_host, DEFAULT_BROKER@),
            r.schema@ == setting_text(schema_registry, DEFAULT_SCHEMA_REGISTRY@),
            r.group_id@ == setting_text(group_id, DEFAULT_GROUP_ID@),
    {
        Variables {
            broker: setting_or(kafka_host, DEFAULT_BROKER),
            schema: setting_or(schema_registry, DEFAULT_SCHEMA_REGISTRY),
            group_id: setting_or(group_id, DEFAULT_GROUP_ID),
        }
    }

    /// These settings with each one that a command-line flag gives replaced
    /// by the flag's value.
    pub fn with_flags(
        self,
        brokers: Option<String>,
        schema: Option<String>,
        id: Option<String>,
    ) -> (r: Variables)
        ensures
            r.broker@ == setting_text(brokers, self.broker@),
            r.schema@ == setting_text(schema, self.schema@),
            r.group_id@ == setting_text(id, self.group_id@),
    {
        Variables {
            broker: match brokers {
                Some(b) => b,
                None => self.broker,
            },
            schema: match schema {
                Some(s) => s,
                None => self.schema,
            },
            group_id: match id {
                Some(i) => i,
                None => self.group_id,
            },
        }
    }
}

} // verus!
