use vstd::prelude::*;

verus! {

/// The broker endpoint and binding of one trigger; fixed once the trigger exists.
#[derive(Clone, Debug)]
pub struct AMQPSubscriberInfo {
    pub amqp_addr: String,
    pub routing_key: String,
    pub exchange: String,
    pub durable: bool,
    pub exclusive: bool,
    pub auto_delete: bool,
    pub no_wait: bool,
    /// `false` consumes with automatic acknowledgment.
    pub with_ack: bool,
}

pub ghost struct SubscriberView {
    pub amqp_addr: Seq<char>,
    pub routing_key: Seq<char>,
    pub exchange: Seq<char>,
    pub durable: bool,
    pub exclusive: bool,
    pub auto_delete: bool,
    pub no_wait: bool,
    pub with_ack: bool,
}

impl View for AMQPSubscriberInfo {
    type V = SubscriberView;

    open spec fn view(&self) -> SubscriberView {
        SubscriberView {
            amqp_addr: self.amqp_addr@,
            routing_key: self.routing_key@,
            exchange: self.exchange@,
            durable: self.durable,
            exclusive: self.exclusive,
            auto_delete: self.auto_delete,
            no_wait: self.no_wait,
            with_ack: self.with_ack,
        }
    }
}

/// An optional boolean field of a creation request, as found there.
#[derive(Clone, Copy, Debug, PartialEq, Eq, Structural)]
pub enum FlagField {
    Absent,
    Value(bool),
    /// Present, but not a boolean.
    Malformed,
}

/// The fields of `trigger_info` in a creation request that the trigger reads, as plain values.
/// A text field holds the field's value rendered as text.
#[derive(Clone, Debug)]
pub struct TriggerInfoFields {
    pub amqp_addr: Option<String>,
    pub routing_key: Option<String>,
    pub exchange: Option<String>,
    pub durable: FlagField,
    pub exclusive: FlagField,
    pub auto_delete: FlagField,
    pub no_wait: FlagField,
    pub with_ack: FlagField,
}

/// Why a creation request was rejected.
#[derive(Clone, Copy, Debug, PartialEq, Eq, Structural)]
pub enum ConfigError {
    /// `amqp_addr` or `routing_key` is missing.
    MissingRequired,
    MalformedDurable,
    MalformedExclusive,
    MalformedAutoDelete,
    MalformedNoWait,
    MalformedWithAck,
}

pub open spec fn default_exchange() -> Seq<char> {
    "egress_exchange"@
}

pub open spec fn flag_value(f: FlagField, default: bool) -> bool {
    match f {
        FlagField::Value(b) => b,
        _ => default,
    }
}

/// The error that a set of fields is rejected with, if any; the first rule broken wins.
pub open spec fn config_error(f: TriggerInfoFields) -> Option<ConfigError> {
    if f.amqp_addr is None || f.routing_key is None {
        Some(ConfigError::MissingRequired)
    } else if f.durable == FlagField::Malformed {
        Some(ConfigError::MalformedDurable)
    } else if f.exclusive == FlagField::Malformed {
        Some(ConfigError::MalformedExclusive)
    } else if f.auto_delete == FlagField::Malformed {
        Some(ConfigError::MalformedAutoDelete)
    } else if f.no_wait == FlagField::Malformed {
        Some(ConfigError::MalformedNoWait)
    } else if f.with_ack == FlagField::Malformed {
        Some(ConfigError::MalformedWithAck)
    } else {
        None
    }
}

/// The configuration that valid fields describe, with the documented defaults.
pub open spec fn config_of(f: TriggerInfoFields) -> SubscriberView {
    SubscriberView {
        amqp_addr: f.amqp_addr->0@,
        routing_key: f.routing_key->0@,
        exchange: match f.exchange {
            Some(e) => e@,
            None => default_exchange(),
        },
        durable: flag_value(f.durable, false),
        exclusive: flag_value(f.exclusive, false),
        auto_delete: flag_value(f.auto_delete, true),
        no_wait: flag_value(f.no_wait, true),
        with_ack: flag_value(f.with_ack, false),
    }
}

fn read_flag(f: FlagField, default: bool, err: ConfigError) -> (r: Result<bool, ConfigError>)
    ensures
        f == FlagField::Malformed ==> r == Err::<bool, ConfigError>(err),
        f != FlagField::Malformed ==> r == Ok::<bool, ConfigError>(flag_value(f, default)),
{
    match f {
        FlagField::Absent => Ok(default),
        FlagField::Value(b) => Ok(b),
        FlagField::Malformed => Err(err),
    }
}

impl AMQPSubscriberInfo {
    /// Validates the fields of a creation request and fills in the defaults.
    pub fn from_fields(fields: TriggerInfoFields) -> (r: Result<AMQPSubscriberInfo, ConfigError>)
        ensures
            r is Ok <==> config_error(fields) is None,
            r matches Ok(info) ==> info@ == config_of(fields),
            r matches Err(e) ==> config_error(fields) == Some(e),
    {
        let ghost f = fields;
        let TriggerInfoFields {
            amqp_addr,
            routing_key,
            exchange,
            durable,
            exclusive,
            auto_delete,
            no_wait,
            with_ack,
        } = fields;
        let (amqp_addr, routing_key) = match (amqp_addr, routing_key) {
            (Some(a), Some(k)) => (a, k),
            _ => {
                return Err(ConfigError::MissingRequired);
            },
        };
        let durable = match read_flag(durable, false, ConfigError::MalformedDurable) {
            Ok(b) => b,
            Err(e) => {
                return Err(e);
            },
        };
        let exclusive = match read_flag(exclusive, false, ConfigError::MalformedExclusive) {
            Ok(b) => b,
            Err(e) => {
                return Err(e);
            },
        };
        let auto_delete = match read_flag(auto_delete, true, ConfigError::MalformedAutoDelete) {
            Ok(b) => b,
            Err(e) => {
                return Err(e);
            },
        };
        let no_wait = match read_flag(no_wait, true, ConfigError::MalformedNoWait) {
            Ok(b) => b,
            Err(e) => {
                return Err(e);
            },
        };
        let with_ack = match read_flag(with_ack, false, ConfigError::MalformedWithAck) {
            Ok(b) => b,
            Err(e) => {
                return Err(e);
            },
        };
        let exchange = match exchange {
            Some(e) => e,
            None => "egress_exchange".to_owned(),
        };
        Ok(AMQPSubscriberInfo {
            amqp_addr,
            routing_key,
            exchange,
            durable,
            exclusive,
            auto_delete,
            no_wait,
            with_ack,
        })
    }

    pub fn duplicate(&self) -> (r: AMQPSubscriberInfo)
        ensures
            r@ == self@,
    {
        AMQPSubscriberInfo {
            amqp_addr: self.amqp_addr.clone(),
            routing_key: self.routing_key.clone(),
            exchange: self.exchange.clone(),
            durable: self.durable,
            exclusive: self.exclusive,
            auto_delete: self.auto_delete,
            no_wait: self.no_wait,
            with_ack: self.with_ack,
        }
    }

    /// The acknowledgment mode that consuming uses: automatic unless manual acknowledgment was
    /// asked for.
    pub fn no_ack(&self) -> (r: bool)
        ensures
            r == !self.with_ack,
    {
        !self.with_ack
    }
}

/// The text a creation caller is given for each error.
pub open spec fn error_text(e: ConfigError) -> Seq<char> {
    match e {
        ConfigError::MissingRequired => "One of the required fields, 'amqp_addr' or 'routing_key' is missing"@,
        ConfigError::MalformedDurable => "The field 'durable' must be a boolean"@,
        ConfigError::MalformedExclusive => "The field 'exclusive' must be a boolean"@,
        ConfigError::MalformedAutoDelete => "The field 'auto_delete' must be a boolean"@,
        ConfigError::MalformedNoWait => "The field 'no_wait' must be a boolean"@,
        ConfigError::MalformedWithAck => "The field 'with_ack' must be a boolean"@,
    }
}

impl ConfigError {
    /// The text a creation caller is given for this error.
    pub fn message(&self) -> (r: String)
        ensures
            r@ == error_text(*self),
    {
        match self {
            ConfigError::MissingRequired => {
                "One of the required fields, 'amqp_addr' or 'routing_key' is missing".to_owned()
            },
            ConfigError::MalformedDurable => "The field 'durable' must be a boolean".to_owned(),
            ConfigError::MalformedExclusive => "The field 'exclusive' must be a boolean".to_owned(),
            ConfigError::MalformedAutoDelete => "The field 'auto_delete' must be a boolean".to_owned(),
            ConfigError::MalformedNoWait => "The field 'no_wait' must be a boolean".to_owned(),
            ConfigError::MalformedWithAck => "The field 'with_ack' must be a boolean".to_owned(),
        }
    }
}

} // verus!
