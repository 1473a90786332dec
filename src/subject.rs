//! The subject aggregate and its codec with the dotted wire form.

use vstd::prelude::*;
use crate::error::{ErrorView, Field, SubjectError};
use crate::fields::{
    environment_of, environment_token, pair_of, payload_type_of, payload_type_token, valid_part,
    Environment, OwnershipGroup, PayloadType, ServiceIdentifier,
};
use crate::geo::{
    geo_tokens, is_region_code, locator_shape, parse_geo_spec, GeoLocator, GeoView,
};
use crate::text::{dot_free, join, join_tokens, split, split_tokens, views};

verus! {

/// The fewest tokens a subject can have: environment, two of ownership, one of
/// a sentinel geo locator, two of service, one of payload type.
pub const MIN_TOKENS: usize = 7;

/// The mathematical value of a subject.
pub struct SubjectView {
    pub environment: Environment,
    pub ownership_group: (Seq<char>, Seq<char>),
    pub geo_locator: GeoView,
    pub service_identifier: (Seq<char>, Seq<char>),
    pub payload_type: PayloadType,
    pub payload_identifier: Seq<Seq<char>>,
}

/// A geo locator that a subject may hold: an explicit one has a recognised code.
pub open spec fn geo_valid(g: GeoView) -> bool {
    match g {
        GeoView::Locator(c, r, i) => locator_shape(c, r, i) && is_region_code(c),
        _ => true,
    }
}

impl SubjectView {
    /// Every field is legal: what parsing and building produce.
    pub open spec fn wf(self) -> bool {
        &&& valid_part(self.ownership_group.0)
        &&& valid_part(self.ownership_group.1)
        &&& geo_valid(self.geo_locator)
        &&& valid_part(self.service_identifier.0)
        &&& valid_part(self.service_identifier.1)
        &&& dot_free(self.payload_identifier)
    }

    /// The wire tokens, field by field in the fixed order.
    pub open spec fn tokens(self) -> Seq<Seq<char>> {
        seq![environment_token(self.environment), self.ownership_group.0, self.ownership_group.1]
            + geo_tokens(self.geo_locator) + seq![
            self.service_identifier.0,
            self.service_identifier.1,
            payload_type_token(self.payload_type),
        ] + self.payload_identifier
    }

    /// The canonical wire string.
    pub open spec fn format(self) -> Seq<char> {
        join(self.tokens())
    }
}

/// Reads a subject from its tokens. The geo locator decides, by token 3 alone,
/// whether it takes one token or three; every later field sits after it, and
/// too few tokens left for them is `TooShort`.
pub open spec fn parse_spec(ts: Seq<Seq<char>>) -> Result<SubjectView, ErrorView> {
    if ts.len() < MIN_TOKENS {
        Err(ErrorView::TooShort)
    } else if environment_of(ts[0]) is None {
        Err(ErrorView::InvalidEnumToken { field: Field::Environment, value: ts[0] })
    } else if pair_of(ts[1], ts[2]) is None {
        Err(ErrorView::InvalidArity { field: Field::OwnershipGroup })
    } else {
        match parse_geo_spec(ts, 3) {
            Err(e) => Err(e),
            Ok((g, n)) => {
                let k = 3 + n;
                if ts.len() < k + 3 {
                    Err(ErrorView::TooShort)
                } else if pair_of(ts[k], ts[k + 1]) is None {
                    Err(ErrorView::InvalidArity { field: Field::ServiceIdentifier })
                } else if payload_type_of(ts[k + 2]) is None {
                    Err(ErrorView::InvalidEnumToken { field: Field::PayloadType, value: ts[k + 2] })
                } else {
                    Ok(
                        SubjectView {
                            environment: environment_of(ts[0])->Some_0,
                            ownership_group: (ts[1], ts[2]),
                            geo_locator: g,
                            service_identifier: (ts[k], ts[k + 1]),
                            payload_type: payload_type_of(ts[k + 2])->Some_0,
                            payload_identifier: ts.skip(k + 3),
                        },
                    )
                }
            },
        }
    }
}

/// What a wire string reads as.
pub open spec fn parse_text(s: Seq<char>) -> Result<SubjectView, ErrorView> {
    parse_spec(split(s))
}

/// A complete, typed subject.
#[derive(Debug, Clone, PartialEq, Eq)]
pub struct MyceliumSubject {
    pub environment: Environment,
    pub ownership_group: OwnershipGroup,
    pub geo_locator: GeoLocator,
    pub service_identifier: ServiceIdentifier,
    pub payload_type: PayloadType,
    pub payload_identifier: Vec<String>,
}

impl View for MyceliumSubject {
    type V = SubjectView;

    open spec fn view(&self) -> SubjectView {
        SubjectView {
            environment: self.environment,
            ownership_group: self.ownership_group@,
            geo_locator: self.geo_locator@,
            service_identifier: self.service_identifier@,
            payload_type: self.payload_type,
            payload_identifier: views(self.payload_identifier@),
        }
    }
}

/// Copies of the strings in `v[from..]`.
fn copy_tail(v: &Vec<String>, from: usize) -> (r: Vec<String>)
    requires
        from <= v@.len(),
    ensures
        views(r@) == views(v@).skip(from as int),
{
    let mut out: Vec<String> = Vec::new();
    let mut i: usize = from;
    while i < v.len()
        invariant
            from <= i <= v@.len(),
            views(out@) == views(v@).subrange(from as int, i as int),
        decreases v@.len() - i,
    {
        let ghost before = views(out@);
        out.push(v[i].clone());
        assert(views(out@) =~= before.push(v@[i as int]@));
        assert(views(v@).subrange(from as int, i as int + 1) =~= views(v@).subrange(
            from as int,
            i as int,
        ).push(v@[i as int]@));
        i = i + 1;
    }
    assert(views(v@).subrange(from as int, v@.len() as int) =~= views(v@).skip(from as int));
    out
}

impl MyceliumSubject {
    /// Reads a subject from its tokens.
    pub fn from_tokens(tokens: &Vec<String>) -> (r: Result<MyceliumSubject, SubjectError>)
        ensures
            match r {
                Ok(s) => parse_spec(views(tokens@)) == Ok::<_, ErrorView>(s@),
                Err(err) => parse_spec(views(tokens@)) == Err::<SubjectView, _>(err@),
            },
    {
        let ghost ts = views(tokens@);
        if tokens.len() < MIN_TOKENS {
            return Err(SubjectError::TooShort);
        }
        let environment = match Environment::from_str(tokens[0].as_str()) {
            Ok(e) => e,
            Err(e) => return Err(e),
        };
        let ownership_group = match OwnershipGroup::new(tokens[1].as_str(), tokens[2].as_str()) {
            Ok(g) => g,
            Err(e) => return Err(e),
        };
        let (geo_locator, n) = match GeoLocator::parse_at(tokens, 3) {
            Ok(p) => p,
            Err(e) => return Err(e),
        };
        let k = 3 + n;
        if tokens.len() - k < 3 {
            return Err(SubjectError::TooShort);
        }
        let service_identifier = match ServiceIdentifier::new(
            tokens[k].as_str(),
            tokens[k + 1].as_str(),
        ) {
            Ok(v) => v,
            Err(e) => return Err(e),
        };
        let payload_type = match PayloadType::from_str(tokens[k + 2].as_str()) {
            Ok(p) => p,
            Err(e) => return Err(e),
        };
        let payload_identifier = copy_tail(tokens, k + 3);
        Ok(
            MyceliumSubject {
                environment,
                ownership_group,
                geo_locator,
                service_identifier,
                payload_type,
                payload_identifier,
            },
        )
    }

    /// Reads a subject from its dotted wire form.
    pub fn from_str(s: &str) -> (r: Result<MyceliumSubject, SubjectError>)
        ensures
            match r {
                Ok(v) => parse_text(s@) == Ok::<_, ErrorView>(v@),
                Err(err) => parse_text(s@) == Err::<SubjectView, _>(err@),
            },
    {
        let tokens = split_tokens(s);
        MyceliumSubject::from_tokens(&tokens)
    }

    /// The wire tokens, field by field in the fixed order.
    pub fn to_tokens(&self) -> (r: Vec<String>)
        ensures
            views(r@) == self@.tokens(),
    {
        let mut out: Vec<String> = Vec::new();
        out.push(self.environment.to_string());
        assert(views(out@) =~= seq![environment_token(self.environment)]);
        let mut parts = self.ownership_group.to_tokens();
        let ghost a = views(out@);
        let ghost b = views(parts@);
        out.append(&mut parts);
        assert(views(out@) =~= a + b);
        let mut parts = self.geo_locator.to_tokens();
        let ghost a = views(out@);
        let ghost b = views(parts@);
        out.append(&mut parts);
        assert(views(out@) =~= a + b);
        let mut parts = self.service_identifier.to_tokens();
        let ghost a = views(out@);
        let ghost b = views(parts@);
        out.append(&mut parts);
        assert(views(out@) =~= a + b);
        let ghost a = views(out@);
        let pt = self.payload_type.to_string();
        out.push(pt);
        assert(views(out@) =~= a.push(pt@));
        let mut tail = copy_tail(&self.payload_identifier, 0);
        let ghost a = views(out@);
        let ghost b = views(tail@);
        out.append(&mut tail);
        assert(views(out@) =~= a + b);
        assert(views(self.payload_identifier@).skip(0) =~= views(self.payload_identifier@));
        assert(views(out@) =~= self@.tokens());
        out
    }

    /// The canonical wire string; it never fails.
    pub fn to_string(&self) -> (r: String)
        ensures
            r@ == self@.format(),
    {
        join_tokens(&self.to_tokens())
    }
}

} // verus!
