//! Dotted, hierarchical subjects for publish/subscribe messaging: a typed model
//! of each subject, its canonical wire string, and the codec between the two.
//!
//! Wire form: `environment.enterprise.op_group.geo.service_name.instance_id.payload_type`
//! followed by zero or more payload path tokens, where `geo` is `local`, `global`
//! or `region_code.op_region.op_identifier`.

pub mod builder;
pub mod error;
pub mod fields;
pub mod geo;
pub mod laws;
pub mod subject;
pub mod text;

pub use builder::SubjectBuilder;
pub use error::{Field, SubjectError};
pub use fields::{Environment, OwnershipGroup, PayloadType, ServiceIdentifier};
pub use geo::{is_valid_region_code, GeoLocator, Locator};
pub use subject::MyceliumSubject;
