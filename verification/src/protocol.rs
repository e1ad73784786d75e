//! Protocol identifiers: the tokens exchanged during negotiation.
//!
//! A protocol name is a UTF-8 string that begins with `/` and whose encoding
//! is at most [`MAX_PROTOCOL_LEN`] bytes long. [`Protocol`] values always
//! carry the leading slash; the byte-length bound is additionally guaranteed
//! for every value built through [`Protocol::try_from_owned`].

use vstd::prelude::*;
use vstd::string::*;

verus! {

/// Longest admissible protocol name, counted in bytes of its UTF-8 encoding.
pub const MAX_PROTOCOL_LEN: usize = 140;

/// A name has the mandatory leading slash.
pub open spec fn slash_prefixed(name: Seq<char>) -> bool {
    name.len() > 0 && name[0] == '/'
}

/// A name is admissible as a negotiation token: leading slash and a UTF-8
/// encoding of at most [`MAX_PROTOCOL_LEN`] bytes.
pub open spec fn valid_protocol_name(name: Seq<char>) -> bool {
    slash_prefixed(name) && vstd::utf8::encode_utf8(name).len() <= MAX_PROTOCOL_LEN
}

/// What validation does to a name: a valid one is kept unchanged, an invalid
/// one is rejected.
pub open spec fn parse_protocol(name: Seq<char>) -> Option<Seq<char>> {
    if valid_protocol_name(name) {
        Some(name)
    } else {
        None
    }
}

/// Rejection of a name that fails the format rules of [`valid_protocol_name`].
#[derive(Clone, Copy, Debug, PartialEq, Eq, Structural)]
pub struct InvalidProtocol {}

/// A validated protocol identifier.
///
/// Equality is equality of the name. The view of a `Protocol` is its name as
/// a sequence of characters.
#[derive(Debug, Eq, Hash)]
pub struct Protocol {
    name: String,
}

/// The names of a sequence of protocols, in the same order.
pub open spec fn names_of(ps: Seq<Protocol>) -> Seq<Seq<char>> {
    ps.map_values(|p: Protocol| p@)
}

impl View for Protocol {
    type V = Seq<char>;

    closed spec fn view(&self) -> Seq<char> {
        self.name@
    }
}

impl Protocol {
    /// Every `Protocol` carries the leading slash; ones built by
    /// [`Protocol::try_from_owned`] moreover satisfy [`valid_protocol_name`].
    pub open spec fn wf(&self) -> bool {
        slash_prefixed(self@)
    }

    /// Construct a protocol from a static string slice, which must carry the
    /// leading slash. Intended for compile-time literals.
    pub fn from_static(s: &'static str) -> (p: Protocol)
        requires
            slash_prefixed(s@),
        ensures
            p@ == s@,
            p.wf(),
    {
        Protocol { name: s.to_owned() }
    }

    /// Construct a protocol from an owned string, rejecting exactly the names
    /// that [`valid_protocol_name`] refuses.
    pub fn try_from_owned(protocol: String) -> (r: Result<Protocol, InvalidProtocol>)
        ensures
            r is Ok <==> parse_protocol(protocol@) is Some,
            r matches Ok(p) ==> parse_protocol(protocol@) == Some(p@) && p.wf(),
    {
        let s = protocol.as_str();
        if s.is_empty() {
            return Err(InvalidProtocol {});
        }
        if s.get_char(0) != '/' {
            return Err(InvalidProtocol {});
        }
        if s.as_bytes().len() > MAX_PROTOCOL_LEN {
            return Err(InvalidProtocol {});
        }
        Ok(Protocol { name: protocol })
    }

    /// View the protocol as a string slice.
    pub fn as_str(&self) -> (s: &str)
        ensures
            s@ == self@,
    {
        self.name.as_str()
    }

    /// Byte equality of this protocol's name with a raw string.
    pub fn eq_str(&self, other: &str) -> (r: bool)
        ensures
            r == (self@ == other@),
    {
        self.name == other.to_owned()
    }
}

impl Clone for Protocol {
    fn clone(&self) -> (r: Protocol)
        ensures
            r@ == self@,
    {
        Protocol { name: self.name.clone() }
    }
}

impl PartialEq for Protocol {
    fn eq(&self, other: &Protocol) -> (r: bool) {
        self.name == other.name
    }
}

impl vstd::std_specs::cmp::PartialEqSpecImpl for Protocol {
    open spec fn obeys_eq_spec() -> bool {
        true
    }

    open spec fn eq_spec(&self, other: &Protocol) -> bool {
        self@ == other@
    }
}

/// Validation round-trips: re-validating the name of a protocol that was
/// built from a valid name yields that same name again.
pub proof fn lemma_protocol_round_trip(p: Protocol)
    requires
        valid_protocol_name(p@),
    ensures
        parse_protocol(p@) == Some(p@),
{
}

} // verus!
