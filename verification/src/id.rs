//! Identifiers for homes, rooms and devices: random ones for fresh entities,
//! name-derived ones for devices looked up by name.

use vstd::prelude::*;

verus! {

use vstd::string::StringExecFns;

/// The text of the version-5 UUID derived from a name under the DNS
/// namespace.  It is a pure digest of the name: the same name gives the same
/// text on every machine.
pub uninterp spec fn uuid_v5_dns_text(name: Seq<char>) -> Seq<char>;

/// Relies on uuid's `Uuid::new_v4` and its hyphenated `Display` form: a
/// random version-4 UUID as text.  The value is random; only the documented
/// 36-character hyphenated length is promised.
#[verifier::external_body]
fn uuid_v4_string() -> (r: String)
    ensures
        r@.len() == 36,
{
    uuid::Uuid::new_v4().to_string()
}

/// Relies on uuid's `Uuid::new_v5` over `NAMESPACE_DNS` and its hyphenated
/// `Display` form: a name-based UUID, a deterministic digest of the name.
#[verifier::external_body]
fn uuid_v5_dns_string(name: &str) -> (r: String)
    ensures
        r@ == uuid_v5_dns_text(name@),
{
    uuid::Uuid::new_v5(&uuid::Uuid::NAMESPACE_DNS, name.as_bytes()).to_string()
}

fn gen_id(name: &str) -> (r: String)
    ensures
        r@ == uuid_v5_dns_text(name@),
{
    uuid_v5_dns_string(name)
}

/// One entity's identifier.
#[derive(Debug, Clone, Hash, Eq, PartialEq)]
pub struct Id {
    _inner: String,
}

impl Id {
    /// The identifier's text.
    pub closed spec fn spec_inner(&self) -> Seq<char> {
        self._inner@
    }

    /// A fresh random identifier.
    pub fn new() -> (id: Id)
        ensures
            id.spec_inner().len() == 36,
    {
        Id { _inner: uuid_v4_string() }
    }

    /// An identifier with exactly the given text.
    pub fn with_inner(inner_value: String) -> (id: Id)
        ensures
            id.spec_inner() == inner_value@,
    {
        Id { _inner: inner_value }
    }

    /// The identifier a name derives to, the same on every machine.
    pub fn from_string(name: String) -> (id: Id)
        ensures
            id.spec_inner() == uuid_v5_dns_text(name@),
    {
        Id { _inner: gen_id(name.as_str()) }
    }

    /// The identifier's text.
    pub fn as_string(&self) -> (r: String)
        ensures
            r@ == self.spec_inner(),
    {
        self._inner.as_str().to_owned()
    }
}

impl Default for Id {
    /// A fresh random identifier.
    fn default() -> (id: Id)
        ensures
            id.spec_inner().len() == 36,
    {
        Id::new()
    }
}

} // verus!
