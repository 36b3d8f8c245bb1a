//! The settings that gateway and worker must share.

use vstd::prelude::*;
use vstd::string::StringExecFns;

verus! {

/// Where the broker and the engine are, and how the queue is named. Both
/// ends of the queue must be built from equal settings.
#[derive(Clone, Debug, PartialEq, Eq)]
pub struct Settings {
    pub broker_host: String,
    pub broker_port: u16,
    pub broker_user: String,
    pub broker_password: String,
    pub queue_name: String,
    pub exchange_name: String,
    pub routing_key: String,
    pub engine_base_url: String,
    pub listen_address: String,
}

impl Settings {
    /// Whether these are the settings of a local installation: broker and
    /// engine on this host, the queue `submission` on the topic exchange.
    pub open spec fn is_local(&self) -> bool {
        &&& self.broker_host@ == "localhost"@
        &&& self.broker_port == 5672
        &&& self.broker_user@ == "guest"@
        &&& self.broker_password@ == "guest"@
        &&& self.queue_name@ == "submission"@
        &&& self.exchange_name@ == "amq.topic"@
        &&& self.routing_key@ == "amqprs.example"@
        &&& self.engine_base_url@ == "http://localhost:2000/api/v2"@
        &&& self.listen_address@ == "0.0.0.0:3000"@
    }

    /// The settings of a local installation.
    pub fn local() -> (settings: Settings)
        ensures
            settings.is_local(),
    {
        Settings {
            broker_host: String::from_str("localhost"),
            broker_port: 5672,
            broker_user: String::from_str("guest"),
            broker_password: String::from_str("guest"),
            queue_name: String::from_str("submission"),
            exchange_name: String::from_str("amq.topic"),
            routing_key: String::from_str("amqprs.example"),
            engine_base_url: String::from_str("http://localhost:2000/api/v2"),
            listen_address: String::from_str("0.0.0.0:3000"),
        }
    }

    /// Whether gateway and worker, set up like this, meet on one queue:
    /// same exchange, same routing key, same queue name.
    pub open spec fn spec_agrees_with(&self, other: &Settings) -> bool {
        &&& self.queue_name@ == other.queue_name@
        &&& self.exchange_name@ == other.exchange_name@
        &&& self.routing_key@ == other.routing_key@
    }

    /// Whether gateway and worker, set up like this, meet on one queue.
    #[verifier::when_used_as_spec(spec_agrees_with)]
    pub fn agrees_with(&self, other: &Settings) -> (same: bool)
        ensures
            same == self.spec_agrees_with(other),
    {
        self.queue_name == other.queue_name && self.exchange_name == other.exchange_name
            && self.routing_key == other.routing_key
    }
}

} // verus!
