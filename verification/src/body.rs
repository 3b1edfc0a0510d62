use vstd::prelude::*;

verus! {

/// The ICAP mode a body payload was produced for.
#[derive(Clone, Copy, PartialEq, Eq, Hash, Debug)]
pub enum BodyKind {
    Request,
    Response,
    Options,
}

/// A message payload tagged with the ICAP mode it was built for.
///
/// The tag is fixed once at construction and is never inspected by the
/// accessors: it only lets the owning message remember which production
/// path created the body. A body always holds a payload; absence of a body
/// is expressed one level up, by the owner holding `Option<Body<T>>`.
#[derive(Debug)]
pub struct Body<T> {
    kind: BodyKind,
    payload: T,
}

/// A body with the given tag around the given payload.
pub closed spec fn spec_body<T>(kind: BodyKind, payload: T) -> Body<T> {
    Body { kind, payload }
}

impl<T> Body<T> {
    /// The mode tag this body was built with.
    pub closed spec fn spec_kind(self) -> BodyKind {
        self.kind
    }

    /// The payload this body holds.
    pub closed spec fn spec_payload(self) -> T {
        self.payload
    }

    /// A payload tagged as produced for REQMOD.
    pub fn request(body: T) -> (r: Body<T>)
        ensures
            r == spec_body(BodyKind::Request, body),
            r.spec_kind() == BodyKind::Request,
            r.spec_payload() == body,
    {
        Body { kind: BodyKind::Request, payload: body }
    }

    /// A payload tagged as produced for RESPMOD.
    pub fn response(body: T) -> (r: Body<T>)
        ensures
            r == spec_body(BodyKind::Response, body),
            r.spec_kind() == BodyKind::Response,
            r.spec_payload() == body,
    {
        Body { kind: BodyKind::Response, payload: body }
    }

    /// A payload tagged as produced for OPTIONS.
    pub fn options(body: T) -> (r: Body<T>)
        ensures
            r == spec_body(BodyKind::Options, body),
            r.spec_kind() == BodyKind::Options,
            r.spec_payload() == body,
    {
        Body { kind: BodyKind::Options, payload: body }
    }

    /// Consume the container and return the payload; the tag is discarded.
    pub fn into_inner(self) -> (r: T)
        ensures
            r == self.spec_payload(),
    {
        self.payload
    }

    /// Read the payload by reference, without exposing the tag.
    pub fn as_ref(&self) -> (r: &T)
        ensures
            *r == self.spec_payload(),
    {
        &self.payload
    }

    /// Write the payload by reference, without exposing the tag; the tag
    /// itself cannot be changed this way.
    pub fn as_mut(&mut self) -> (r: &mut T)
        ensures
            *r == old(self).spec_payload(),
            final(self).spec_payload() == *final(r),
            final(self).spec_kind() == old(self).spec_kind(),
    {
        &mut self.payload
    }
}

/// Law: payload retrieval is independent of the mode tag. Bodies built with
/// any two tags around the same payload hold the same payload.
pub proof fn lemma_payload_tag_independent<T>(k1: BodyKind, k2: BodyKind, t: T)
    ensures
        spec_body(k1, t).spec_payload() == spec_body(k2, t).spec_payload(),
        spec_body(k1, t).spec_payload() == t,
{
}

} // verus!
