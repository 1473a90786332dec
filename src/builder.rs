//! Staged construction of a subject: one slot per field, validated on `build`.

use vstd::prelude::*;
use crate::error::{ErrorView, Field, SubjectError};
use crate::fields::{Environment, OwnershipGroup, PayloadType, ServiceIdentifier};
use crate::geo::{is_region_code, is_valid_region_code, GeoLocator, GeoView};
use crate::subject::{MyceliumSubject, SubjectView};
use crate::text::{all_dot_free, dot_free, views};

verus! {

/// The mathematical value of a `SubjectBuilder`: which fields are staged, and to what.
pub struct BuilderView {
    pub environment: Option<Environment>,
    pub ownership_group: Option<(Seq<char>, Seq<char>)>,
    pub geo_locator: Option<GeoView>,
    pub service_identifier: Option<(Seq<char>, Seq<char>)>,
    pub payload_type: Option<PayloadType>,
    pub payload_identifier: Option<Seq<Seq<char>>>,
}

/// What building from the staged fields gives: the first field never set, in
/// field order; else an explicit locator's unrecognised region code; else a
/// payload token that holds a separator; else the subject.
pub open spec fn build_spec(b: BuilderView) -> Result<SubjectView, ErrorView> {
    if b.environment is None {
        Err(ErrorView::MissingField { field: Field::Environment })
    } else if b.ownership_group is None {
        Err(ErrorView::MissingField { field: Field::OwnershipGroup })
    } else if b.geo_locator is None {
        Err(ErrorView::MissingField { field: Field::GeoLocator })
    } else if b.service_identifier is None {
        Err(ErrorView::MissingField { field: Field::ServiceIdentifier })
    } else if b.payload_type is None {
        Err(ErrorView::MissingField { field: Field::PayloadType })
    } else if b.payload_identifier is None {
        Err(ErrorView::MissingField { field: Field::PayloadIdentifier })
    } else if b.geo_locator->Some_0 is Locator && !is_region_code(
        b.geo_locator->Some_0->Locator_0,
    ) {
        Err(ErrorView::InvalidGeoCode { code: b.geo_locator->Some_0->Locator_0 })
    } else if !dot_free(b.payload_identifier->Some_0) {
        Err(ErrorView::InvalidArity { field: Field::PayloadIdentifier })
    } else {
        Ok(
            SubjectView {
                environment: b.environment->Some_0,
                ownership_group: b.ownership_group->Some_0,
                geo_locator: b.geo_locator->Some_0,
                service_identifier: b.service_identifier->Some_0,
                payload_type: b.payload_type->Some_0,
                payload_identifier: b.payload_identifier->Some_0,
            },
        )
    }
}

/// Collects the fields of a subject; each setter replaces what was staged before.
pub struct SubjectBuilder {
    environment: Option<Environment>,
    ownership_group: Option<OwnershipGroup>,
    geo_locator: Option<GeoLocator>,
    service_identifier: Option<ServiceIdentifier>,
    payload_type: Option<PayloadType>,
    payload_identifier: Option<Vec<String>>,
}

impl View for SubjectBuilder {
    type V = BuilderView;

    closed spec fn view(&self) -> BuilderView {
        BuilderView {
            environment: self.environment,
            ownership_group: match self.ownership_group {
                Some(g) => Some(g@),
                None => None,
            },
            geo_locator: match self.geo_locator {
                Some(g) => Some(g@),
                None => None,
            },
            service_identifier: match self.service_identifier {
                Some(v) => Some(v@),
                None => None,
            },
            payload_type: self.payload_type,
            payload_identifier: match self.payload_identifier {
                Some(p) => Some(views(p@)),
                None => None,
            },
        }
    }
}

impl SubjectBuilder {
    /// A builder with no field staged.
    pub fn new() -> (r: SubjectBuilder)
        ensures
            r@ == (BuilderView {
                environment: None,
                ownership_group: None,
                geo_locator: None,
                service_identifier: None,
                payload_type: None,
                payload_identifier: None,
            }),
    {
        SubjectBuilder {
            environment: None,
            ownership_group: None,
            geo_locator: None,
            service_identifier: None,
            payload_type: None,
            payload_identifier: None,
        }
    }

    pub fn set_environment(&mut self, environment: Environment)
        ensures
            final(self)@ == (BuilderView { environment: Some(environment), ..old(self)@ }),
    {
        self.environment = Some(environment);
    }

    pub fn set_ownership_group(&mut self, ownership_group: OwnershipGroup)
        ensures
            final(self)@ == (BuilderView { ownership_group: Some(ownership_group@), ..old(self)@ }),
    {
        self.ownership_group = Some(ownership_group);
    }

    pub fn set_geo_locator(&mut self, geo_locator: GeoLocator)
        ensures
            final(self)@ == (BuilderView { geo_locator: Some(geo_locator@), ..old(self)@ }),
    {
        self.geo_locator = Some(geo_locator);
    }

    pub fn set_service_identifier(&mut self, service_identifier: ServiceIdentifier)
        ensures
            final(self)@ == (BuilderView {
                service_identifier: Some(service_identifier@),
                ..old(self)@
            }),
    {
        self.service_identifier = Some(service_identifier);
    }

    pub fn set_payload_type(&mut self, payload_type: PayloadType)
        ensures
            final(self)@ == (BuilderView { payload_type: Some(payload_type), ..old(self)@ }),
    {
        self.payload_type = Some(payload_type);
    }

    /// Stages the payload path; an empty one counts as set.
    pub fn set_payload_identifier(&mut self, payload_identifier: Vec<String>)
        ensures
            final(self)@ == (BuilderView {
                payload_identifier: Some(views(payload_identifier@)),
                ..old(self)@
            }),
    {
        self.payload_identifier = Some(payload_identifier);
    }

    /// Builds the subject from the staged fields; the builder is used up either way.
    pub fn build(self) -> (r: Result<MyceliumSubject, SubjectError>)
        ensures
            match r {
                Ok(s) => build_spec(self@) == Ok::<_, ErrorView>(s@) && s@.wf(),
                Err(err) => build_spec(self@) == Err::<SubjectView, _>(err@),
            },
    {
        let ghost b = self@;
        let environment = match self.environment {
            Some(e) => e,
            None => return Err(SubjectError::MissingField { field: Field::Environment }),
        };
        let ownership_group = match self.ownership_group {
            Some(g) => g,
            None => return Err(SubjectError::MissingField { field: Field::OwnershipGroup }),
        };
        let geo_locator = match self.geo_locator {
            Some(g) => g,
            None => return Err(SubjectError::MissingField { field: Field::GeoLocator }),
        };
        let service_identifier = match self.service_identifier {
            Some(v) => v,
            None => return Err(SubjectError::MissingField { field: Field::ServiceIdentifier }),
        };
        let payload_type = match self.payload_type {
            Some(p) => p,
            None => return Err(SubjectError::MissingField { field: Field::PayloadType }),
        };
        let payload_identifier = match self.payload_identifier {
            Some(p) => p,
            None => return Err(SubjectError::MissingField { field: Field::PayloadIdentifier }),
        };
        if let GeoLocator::Locator(l) = &geo_locator {
            proof {
                use_type_invariant(l);
            }
            if !is_valid_region_code(l.iso_3166_2()) {
                return Err(SubjectError::InvalidGeoCode { code: l.iso_3166_2().to_owned() });
            }
        }
        if !all_dot_free(&payload_identifier) {
            return Err(SubjectError::InvalidArity { field: Field::PayloadIdentifier });
        }
        proof {
            use_type_invariant(&ownership_group);
            use_type_invariant(&service_identifier);
        }
        Ok(
            MyceliumSubject {
                environment,
                ownership_group,
                geo_locator,
                service_identifier,
                payload_type,
                payload_identifier,
            },
        )
    }
}

} // verus!
