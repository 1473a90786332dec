//! Where a subject comes from: a sentinel (`local`, `global`) or an explicit
//! locator whose region code is an ISO 3166-2 subdivision code.

use vstd::prelude::*;
use vstd::string::*;
use crate::error::{ErrorView, Field, SubjectError};
use crate::text::{join, no_dot, same_text, split, split_tokens, has_no_dot, views};

verus! {

/// Whether `code` is in the table of recognised ISO 3166-2 subdivision codes.
pub uninterp spec fn is_region_code(code: Seq<char>) -> bool;

/// Relies on `rust_iso3166::iso3166_2::from_code`: a lookup of the code in the
/// crate's fixed table of subdivisions, whose answer depends on the code alone.
#[verifier::external_body]
fn lookup_region_code(code: &str) -> (r: bool)
    ensures
        r == is_region_code(code@),
{
    rust_iso3166::iso3166_2::from_code(code).is_some()
}

/// The geo validator: whether `code` is a recognised subdivision code.
pub fn is_valid_region_code(code: &str) -> (r: bool)
    ensures
        r == is_region_code(code@),
{
    lookup_region_code(code)
}

/// The reserved one-token forms.
pub open spec fn is_sentinel(t: Seq<char>) -> bool {
    t == "local"@ || t == "global"@
}

/// The shape of an explicit locator: three tokens without separator, the
/// first no sentinel.
pub open spec fn locator_shape(code: Seq<char>, region: Seq<char>, id: Seq<char>) -> bool {
    no_dot(code) && !is_sentinel(code) && no_dot(region) && no_dot(id)
}

/// An explicit locator: region code, operating region, operating identifier.
#[derive(Debug, PartialEq, Eq)]
pub struct Locator {
    iso_3166_2: String,
    op_region: String,
    op_identifier: String,
}

impl View for Locator {
    type V = (Seq<char>, Seq<char>, Seq<char>);

    closed spec fn view(&self) -> (Seq<char>, Seq<char>, Seq<char>) {
        (self.iso_3166_2@, self.op_region@, self.op_identifier@)
    }
}

impl Clone for Locator {
    fn clone(&self) -> (r: Self)
        ensures
            r@ == self@,
    {
        proof {
            use_type_invariant(self);
        }
        Locator {
            iso_3166_2: self.iso_3166_2.clone(),
            op_region: self.op_region.clone(),
            op_identifier: self.op_identifier.clone(),
        }
    }
}

/// What the text form of a locator reads as.
pub open spec fn locator_from_text(s: Seq<char>) -> Result<
    (Seq<char>, Seq<char>, Seq<char>),
    ErrorView,
> {
    let ts = split(s);
    if ts.len() != 3 {
        Err(ErrorView::InvalidArity { field: Field::GeoLocator })
    } else if !is_region_code(ts[0]) {
        Err(ErrorView::InvalidGeoCode { code: ts[0] })
    } else if !locator_shape(ts[0], ts[1], ts[2]) {
        Err(ErrorView::InvalidArity { field: Field::GeoLocator })
    } else {
        Ok((ts[0], ts[1], ts[2]))
    }
}

impl Locator {
    /// The shape holds of every locator.
    #[verifier::type_invariant]
    pub open spec fn inv(&self) -> bool {
        locator_shape(self@.0, self@.1, self@.2)
    }

    /// Builds a locator from its three tokens. The region code is checked
    /// against the geo validator when a subject is parsed or built.
    pub fn new(iso_3166_2: &str, op_region: &str, op_identifier: &str) -> (r: Result<
        Locator,
        SubjectError,
    >)
        ensures
            match r {
                Ok(l) => locator_shape(iso_3166_2@, op_region@, op_identifier@) && l@ == (
                iso_3166_2@,
                op_region@,
                op_identifier@,
                ),
                Err(err) => !locator_shape(iso_3166_2@, op_region@, op_identifier@) && err@ == (
                ErrorView::InvalidArity { field: Field::GeoLocator }),
            },
    {
        if has_no_dot(iso_3166_2) && !same_text(iso_3166_2, "local") && !same_text(
            iso_3166_2,
            "global",
        ) && has_no_dot(op_region) && has_no_dot(op_identifier) {
            Ok(
                Locator {
                    iso_3166_2: iso_3166_2.to_owned(),
                    op_region: op_region.to_owned(),
                    op_identifier: op_identifier.to_owned(),
                },
            )
        } else {
            Err(SubjectError::InvalidArity { field: Field::GeoLocator })
        }
    }

    /// Reads a locator from `code.region.id`, checking the code.
    pub fn from_str(s: &str) -> (r: Result<Locator, SubjectError>)
        ensures
            match r {
                Ok(l) => locator_from_text(s@) == Ok::<_, ErrorView>(l@),
                Err(err) => locator_from_text(s@) == Err::<(Seq<char>, Seq<char>, Seq<char>), _>(
                    err@,
                ),
            },
    {
        let parts = split_tokens(s);
        if parts.len() != 3 {
            Err(SubjectError::InvalidArity { field: Field::GeoLocator })
        } else if !is_valid_region_code(parts[0].as_str()) {
            Err(SubjectError::InvalidGeoCode { code: parts[0].clone() })
        } else {
            Locator::new(parts[0].as_str(), parts[1].as_str(), parts[2].as_str())
        }
    }

    pub fn iso_3166_2(&self) -> (r: &str)
        ensures
            r@ == self@.0,
    {
        self.iso_3166_2.as_str()
    }

    pub fn op_region(&self) -> (r: &str)
        ensures
            r@ == self@.1,
    {
        self.op_region.as_str()
    }

    pub fn op_identifier(&self) -> (r: &str)
        ensures
            r@ == self@.2,
    {
        self.op_identifier.as_str()
    }

    /// The three wire tokens, in order.
    pub fn to_tokens(&self) -> (r: Vec<String>)
        ensures
            views(r@) == seq![self@.0, self@.1, self@.2],
    {
        let r = vec![self.iso_3166_2.clone(), self.op_region.clone(), self.op_identifier.clone()];
        assert(views(r@) =~= seq![self@.0, self@.1, self@.2]);
        r
    }

    pub fn to_string(&self) -> (r: String)
        ensures
            r@ == join(seq![self@.0, self@.1, self@.2]),
    {
        crate::text::join_tokens(&self.to_tokens())
    }
}

/// The geographic qualifier of a subject.
#[derive(Debug, Clone, PartialEq, Eq)]
pub enum GeoLocator {
    Local,
    Global,
    Locator(Locator),
}

/// The mathematical value of a `GeoLocator`.
pub enum GeoView {
    Local,
    Global,
    Locator(Seq<char>, Seq<char>, Seq<char>),
}

impl View for GeoLocator {
    type V = GeoView;

    open spec fn view(&self) -> GeoView {
        match self {
            GeoLocator::Local => GeoView::Local,
            GeoLocator::Global => GeoView::Global,
            GeoLocator::Locator(l) => GeoView::Locator(l@.0, l@.1, l@.2),
        }
    }
}

/// The wire tokens of a geo locator.
pub open spec fn geo_tokens(g: GeoView) -> Seq<Seq<char>> {
    match g {
        GeoView::Local => seq!["local"@],
        GeoView::Global => seq!["global"@],
        GeoView::Locator(c, r, i) => seq![c, r, i],
    }
}

/// Reads a geo locator from the tokens at `i` onward, with how many it took:
/// a sentinel takes one token and is never read as a region code; anything
/// else takes three, the first of which must be a recognised region code.
pub open spec fn parse_geo_spec(ts: Seq<Seq<char>>, i: int) -> Result<(GeoView, int), ErrorView> {
    if ts[i] == "local"@ {
        Ok((GeoView::Local, 1))
    } else if ts[i] == "global"@ {
        Ok((GeoView::Global, 1))
    } else if ts.len() < i + 3 {
        Err(ErrorView::TooShort)
    } else if !is_region_code(ts[i]) {
        Err(ErrorView::InvalidGeoCode { code: ts[i] })
    } else if !locator_shape(ts[i], ts[i + 1], ts[i + 2]) {
        Err(ErrorView::InvalidArity { field: Field::GeoLocator })
    } else {
        Ok((GeoView::Locator(ts[i], ts[i + 1], ts[i + 2]), 3))
    }
}

/// What the text form of a geo locator reads as: all of its tokens must be used.
pub open spec fn geo_from_text(s: Seq<char>) -> Result<GeoView, ErrorView> {
    let ts = split(s);
    match parse_geo_spec(ts, 0) {
        Ok((g, n)) => if n == ts.len() {
            Ok(g)
        } else {
            Err(ErrorView::InvalidArity { field: Field::GeoLocator })
        },
        Err(e) => Err(e),
    }
}

impl GeoLocator {
    /// Reads the geo locator that starts at token `i`, and how many tokens it took.
    pub fn parse_at(tokens: &Vec<String>, i: usize) -> (r: Result<(GeoLocator, usize), SubjectError>)
        requires
            i < tokens@.len(),
        ensures
            match r {
                Ok((g, n)) => parse_geo_spec(views(tokens@), i as int) == Ok::<_, ErrorView>(
                    (g@, n as int),
                ),
                Err(err) => parse_geo_spec(views(tokens@), i as int) == Err::<(GeoView, int), _>(
                    err@,
                ),
            },
    {
        let ghost ts = views(tokens@);
        let t = tokens[i].as_str();
        if same_text(t, "local") {
            Ok((GeoLocator::Local, 1))
        } else if same_text(t, "global") {
            Ok((GeoLocator::Global, 1))
        } else if tokens.len() - i < 3 {
            Err(SubjectError::TooShort)
        } else if !is_valid_region_code(t) {
            Err(SubjectError::InvalidGeoCode { code: tokens[i].clone() })
        } else {
            match Locator::new(t, tokens[i + 1].as_str(), tokens[i + 2].as_str()) {
                Ok(l) => Ok((GeoLocator::Locator(l), 3)),
                Err(e) => Err(e),
            }
        }
    }

    /// Reads a geo locator from `local`, `global` or `code.region.id`.
    pub fn from_str(s: &str) -> (r: Result<GeoLocator, SubjectError>)
        ensures
            match r {
                Ok(g) => geo_from_text(s@) == Ok::<_, ErrorView>(g@),
                Err(err) => geo_from_text(s@) == Err::<GeoView, _>(err@),
            },
    {
        let parts = split_tokens(s);
        proof {
            crate::text::lemma_split_len(s@);
        }
        match GeoLocator::parse_at(&parts, 0) {
            Ok((g, n)) => if n == parts.len() {
                Ok(g)
            } else {
                Err(SubjectError::InvalidArity { field: Field::GeoLocator })
            },
            Err(e) => Err(e),
        }
    }

    /// The wire tokens: one for a sentinel, three for a locator.
    pub fn to_tokens(&self) -> (r: Vec<String>)
        ensures
            views(r@) == geo_tokens(self@),
    {
        match self {
            GeoLocator::Local => {
                let r = vec!["local".to_owned()];
                assert(views(r@) =~= geo_tokens(self@));
                r
            },
            GeoLocator::Global => {
                let r = vec!["global".to_owned()];
                assert(views(r@) =~= geo_tokens(self@));
                r
            },
            GeoLocator::Locator(l) => l.to_tokens(),
        }
    }

    pub fn to_string(&self) -> (r: String)
        ensures
            r@ == join(geo_tokens(self@)),
    {
        crate::text::join_tokens(&self.to_tokens())
    }
}

} // verus!
