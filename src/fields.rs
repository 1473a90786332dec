//! The fixed-vocabulary and two-token fields of a subject.

use vstd::prelude::*;
use vstd::string::*;
use crate::error::{ErrorView, Field, SubjectError};
use crate::text::{join, no_dot, same_text, split, split_tokens, has_no_dot, views};

verus! {

/// A token of a composite field: non-empty, and without separator.
pub open spec fn valid_part(t: Seq<char>) -> bool {
    t.len() > 0 && no_dot(t)
}

/// The deployment environment.
#[derive(Debug, Clone, Copy, PartialEq, Eq, Structural)]
pub enum Environment {
    Production,
    Staging,
    Dev,
}

/// The wire token of each environment.
pub open spec fn environment_token(e: Environment) -> Seq<char> {
    match e {
        Environment::Production => "prod"@,
        Environment::Staging => "staging"@,
        Environment::Dev => "dev"@,
    }
}

/// The environment whose token is `t`, if any.
pub open spec fn environment_of(t: Seq<char>) -> Option<Environment> {
    if t == environment_token(Environment::Production) {
        Some(Environment::Production)
    } else if t == environment_token(Environment::Staging) {
        Some(Environment::Staging)
    } else if t == environment_token(Environment::Dev) {
        Some(Environment::Dev)
    } else {
        None
    }
}

impl Environment {
    /// The wire token: the one table that both directions read.
    pub fn token(&self) -> (r: &'static str)
        ensures
            r@ == environment_token(*self),
    {
        match self {
            Environment::Production => "prod",
            Environment::Staging => "staging",
            Environment::Dev => "dev",
        }
    }

    pub fn to_string(&self) -> (r: String)
        ensures
            r@ == environment_token(*self),
    {
        self.token().to_owned()
    }

    /// Reads an environment from its exact, case-sensitive token.
    pub fn from_str(s: &str) -> (r: Result<Environment, SubjectError>)
        ensures
            match r {
                Ok(e) => environment_of(s@) == Some(e),
                Err(err) => environment_of(s@) is None && err@ == (ErrorView::InvalidEnumToken {
                    field: Field::Environment,
                    value: s@,
                }),
            },
    {
        if same_text(s, Environment::Production.token()) {
            Ok(Environment::Production)
        } else if same_text(s, Environment::Staging.token()) {
            Ok(Environment::Staging)
        } else if same_text(s, Environment::Dev.token()) {
            Ok(Environment::Dev)
        } else {
            Err(SubjectError::InvalidEnumToken { field: Field::Environment, value: s.to_owned() })
        }
    }
}

/// The kind of payload a subject carries.
#[derive(Debug, Clone, Copy, PartialEq, Eq, Structural)]
pub enum PayloadType {
    Heartbeat,
    Data,
    Diagnostics,
    Command,
    Event,
    Custom,
}

/// The wire token of each payload type.
pub open spec fn payload_type_token(p: PayloadType) -> Seq<char> {
    match p {
        PayloadType::Heartbeat => "heartbeat"@,
        PayloadType::Data => "data"@,
        PayloadType::Diagnostics => "diagnostics"@,
        PayloadType::Command => "command"@,
        PayloadType::Event => "event"@,
        PayloadType::Custom => "custom"@,
    }
}

/// The payload type whose token is `t`, if any.
pub open spec fn payload_type_of(t: Seq<char>) -> Option<PayloadType> {
    if t == payload_type_token(PayloadType::Heartbeat) {
        Some(PayloadType::Heartbeat)
    } else if t == payload_type_token(PayloadType::Data) {
        Some(PayloadType::Data)
    } else if t == payload_type_token(PayloadType::Diagnostics) {
        Some(PayloadType::Diagnostics)
    } else if t == payload_type_token(PayloadType::Command) {
        Some(PayloadType::Command)
    } else if t == payload_type_token(PayloadType::Event) {
        Some(PayloadType::Event)
    } else if t == payload_type_token(PayloadType::Custom) {
        Some(PayloadType::Custom)
    } else {
        None
    }
}

impl PayloadType {
    /// The wire token: the one table that both directions read.
    pub fn token(&self) -> (r: &'static str)
        ensures
            r@ == payload_type_token(*self),
    {
        match self {
            PayloadType::Heartbeat => "heartbeat",
            PayloadType::Data => "data",
            PayloadType::Diagnostics => "diagnostics",
            PayloadType::Command => "command",
            PayloadType::Event => "event",
            PayloadType::Custom => "custom",
        }
    }

    pub fn to_string(&self) -> (r: String)
        ensures
            r@ == payload_type_token(*self),
    {
        self.token().to_owned()
    }

    /// Reads a payload type from its exact, case-sensitive token.
    pub fn from_str(s: &str) -> (r: Result<PayloadType, SubjectError>)
        ensures
            match r {
                Ok(p) => payload_type_of(s@) == Some(p),
                Err(err) => payload_type_of(s@) is None && err@ == (ErrorView::InvalidEnumToken {
                    field: Field::PayloadType,
                    value: s@,
                }),
            },
    {
        if same_text(s, PayloadType::Heartbeat.token()) {
            Ok(PayloadType::Heartbeat)
        } else if same_text(s, PayloadType::Data.token()) {
            Ok(PayloadType::Data)
        } else if same_text(s, PayloadType::Diagnostics.token()) {
            Ok(PayloadType::Diagnostics)
        } else if same_text(s, PayloadType::Command.token()) {
            Ok(PayloadType::Command)
        } else if same_text(s, PayloadType::Event.token()) {
            Ok(PayloadType::Event)
        } else if same_text(s, PayloadType::Custom.token()) {
            Ok(PayloadType::Custom)
        } else {
            Err(SubjectError::InvalidEnumToken { field: Field::PayloadType, value: s.to_owned() })
        }
    }
}

/// The two tokens of a composite field, if both are valid parts.
pub open spec fn pair_of(a: Seq<char>, b: Seq<char>) -> Option<(Seq<char>, Seq<char>)> {
    if valid_part(a) && valid_part(b) {
        Some((a, b))
    } else {
        None
    }
}

/// What the text form of a two-token field reads as.
pub open spec fn pair_from_text(s: Seq<char>) -> Option<(Seq<char>, Seq<char>)> {
    let ts = split(s);
    if ts.len() == 2 {
        pair_of(ts[0], ts[1])
    } else {
        None
    }
}

/// The organisation that owns a subject: enterprise, then operating group.
#[derive(Debug, PartialEq, Eq)]
pub struct OwnershipGroup {
    enterprise: String,
    op_group: String,
}

impl View for OwnershipGroup {
    type V = (Seq<char>, Seq<char>);

    closed spec fn view(&self) -> (Seq<char>, Seq<char>) {
        (self.enterprise@, self.op_group@)
    }
}

impl Clone for OwnershipGroup {
    fn clone(&self) -> (r: Self)
        ensures
            r@ == self@,
    {
        proof {
            use_type_invariant(self);
        }
        OwnershipGroup { enterprise: self.enterprise.clone(), op_group: self.op_group.clone() }
    }
}

impl OwnershipGroup {
    /// Both tokens are valid parts.
    #[verifier::type_invariant]
    pub open spec fn inv(&self) -> bool {
        valid_part(self@.0) && valid_part(self@.1)
    }

    /// Builds the group from its two tokens, each non-empty and without `.`.
    pub fn new(enterprise: &str, op_group: &str) -> (r: Result<OwnershipGroup, SubjectError>)
        ensures
            match r {
                Ok(g) => pair_of(enterprise@, op_group@) == Some(g@),
                Err(err) => pair_of(enterprise@, op_group@) is None && err@ == (
                ErrorView::InvalidArity { field: Field::OwnershipGroup }),
            },
    {
        if enterprise.unicode_len() > 0 && has_no_dot(enterprise) && op_group.unicode_len() > 0
            && has_no_dot(op_group) {
            Ok(OwnershipGroup { enterprise: enterprise.to_owned(), op_group: op_group.to_owned() })
        } else {
            Err(SubjectError::InvalidArity { field: Field::OwnershipGroup })
        }
    }

    /// Reads the group from `enterprise.op_group`.
    pub fn from_str(s: &str) -> (r: Result<OwnershipGroup, SubjectError>)
        ensures
            match r {
                Ok(g) => pair_from_text(s@) == Some(g@),
                Err(err) => pair_from_text(s@) is None && err@ == (ErrorView::InvalidArity {
                    field: Field::OwnershipGroup,
                }),
            },
    {
        let parts = split_tokens(s);
        if parts.len() == 2 {
            OwnershipGroup::new(parts[0].as_str(), parts[1].as_str())
        } else {
            Err(SubjectError::InvalidArity { field: Field::OwnershipGroup })
        }
    }

    pub fn enterprise(&self) -> (r: &str)
        ensures
            r@ == self@.0,
    {
        self.enterprise.as_str()
    }

    pub fn op_group(&self) -> (r: &str)
        ensures
            r@ == self@.1,
    {
        self.op_group.as_str()
    }

    /// The two wire tokens, in order.
    pub fn to_tokens(&self) -> (r: Vec<String>)
        ensures
            views(r@) == seq![self@.0, self@.1],
    {
        let r = vec![self.enterprise.clone(), self.op_group.clone()];
        assert(views(r@) =~= seq![self@.0, self@.1]);
        r
    }

    pub fn to_string(&self) -> (r: String)
        ensures
            r@ == join(seq![self@.0, self@.1]),
    {
        crate::text::join_tokens(&self.to_tokens())
    }
}

/// The service instance that emits a subject: service name, then instance id.
#[derive(Debug, PartialEq, Eq)]
pub struct ServiceIdentifier {
    service_name: String,
    instance_id: String,
}

impl View for ServiceIdentifier {
    type V = (Seq<char>, Seq<char>);

    closed spec fn view(&self) -> (Seq<char>, Seq<char>) {
        (self.service_name@, self.instance_id@)
    }
}

impl Clone for ServiceIdentifier {
    fn clone(&self) -> (r: Self)
        ensures
            r@ == self@,
    {
        proof {
            use_type_invariant(self);
        }
        ServiceIdentifier { service_name: self.service_name.clone(), instance_id: self.instance_id.clone() }
    }
}

impl ServiceIdentifier {
    /// Both tokens are valid parts.
    #[verifier::type_invariant]
    pub open spec fn inv(&self) -> bool {
        valid_part(self@.0) && valid_part(self@.1)
    }

    /// Builds the identifier from its two tokens, each non-empty and without `.`.
    pub fn new(service_name: &str, instance_id: &str) -> (r: Result<ServiceIdentifier, SubjectError>)
        ensures
            match r {
                Ok(v) => pair_of(service_name@, instance_id@) == Some(v@),
                Err(err) => pair_of(service_name@, instance_id@) is None && err@ == (
                ErrorView::InvalidArity { field: Field::ServiceIdentifier }),
            },
    {
        if service_name.unicode_len() > 0 && has_no_dot(service_name) && instance_id.unicode_len()
            > 0 && has_no_dot(instance_id) {
            Ok(
                ServiceIdentifier {
                    service_name: service_name.to_owned(),
                    instance_id: instance_id.to_owned(),
                },
            )
        } else {
            Err(SubjectError::InvalidArity { field: Field::ServiceIdentifier })
        }
    }

    /// Reads the identifier from `service_name.instance_id`.
    pub fn from_str(s: &str) -> (r: Result<ServiceIdentifier, SubjectError>)
        ensures
            match r {
                Ok(v) => pair_from_text(s@) == Some(v@),
                Err(err) => pair_from_text(s@) is None && err@ == (ErrorView::InvalidArity {
                    field: Field::ServiceIdentifier,
                }),
            },
    {
        let parts = split_tokens(s);
        if parts.len() == 2 {
            ServiceIdentifier::new(parts[0].as_str(), parts[1].as_str())
        } else {
            Err(SubjectError::InvalidArity { field: Field::ServiceIdentifier })
        }
    }

    pub fn service_name(&self) -> (r: &str)
        ensures
            r@ == self@.0,
    {
        self.service_name.as_str()
    }

    pub fn instance_id(&self) -> (r: &str)
        ensures
            r@ == self@.1,
    {
        self.instance_id.as_str()
    }

    /// The two wire tokens, in order.
    pub fn to_tokens(&self) -> (r: Vec<String>)
        ensures
            views(r@) == seq![self@.0, self@.1],
    {
        let r = vec![self.service_name.clone(), self.instance_id.clone()];
        assert(views(r@) =~= seq![self@.0, self@.1]);
        r
    }

    pub fn to_string(&self) -> (r: String)
        ensures
            r@ == join(seq![self@.0, self@.1]),
    {
        crate::text::join_tokens(&self.to_tokens())
    }
}

} // verus!
