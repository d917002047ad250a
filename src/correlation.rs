//! The identity of one inbound request: a random identifier and the
//! request's attributes, fixed when the request arrives.

use vstd::prelude::*;
use crate::attributes::{Attribute, attrs_view};
use crate::sources::fresh_identifier;

verus! {

pub struct CorrelationContext {
    request_id: u128,
    attributes: Vec<Attribute>,
}

impl View for CorrelationContext {
    type V = (u128, Seq<(Seq<char>, Seq<char>)>);

    closed spec fn view(&self) -> (u128, Seq<(Seq<char>, Seq<char>)>) {
        (self.request_id, attrs_view(self.attributes@))
    }
}

impl CorrelationContext {
    /// A context with a fresh random identifier, a version-4 UUID; the
    /// attributes are kept as given.
    pub fn new_for_request(attributes: Vec<Attribute>) -> (r: Self)
        ensures
            (r@.0 >> 76u128) & 0xfu128 == 4,
            r@.1 == attrs_view(attributes@),
    {
        let request_id = fresh_identifier();
        CorrelationContext { request_id, attributes }
    }

    /// A context with a given identifier.
    pub fn with_identifier(request_id: u128, attributes: Vec<Attribute>) -> (r: Self)
        ensures
            r@ == (request_id, attrs_view(attributes@)),
    {
        CorrelationContext { request_id, attributes }
    }

    pub fn request_id(&self) -> (r: u128)
        ensures
            r == self@.0,
    {
        self.request_id
    }

    pub fn attributes(&self) -> (r: &Vec<Attribute>)
        ensures
            attrs_view(r@) == self@.1,
    {
        &self.attributes
    }
}

} // verus!
