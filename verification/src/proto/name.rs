//! Names of clients and services, and how they stand on the wire.

use crate::asn1::der::{is_ia5, spec_is_ia5};
use crate::asn1::principal_name::{PrincipalName, PrincipalNameView};
use crate::error::KrbError;
use vstd::prelude::*;
use vstd::string::StringSliceAdditionalSpecFns;
use vstd::utf8::{decode_utf8, encode_utf8};

verus! {

/// Name type of a principal.
pub const NT_PRINCIPAL: i32 = 1;

/// Name type of a service and an instance, such as the ticket-granting service
/// of a realm.
pub const NT_SRV_INST: i32 = 2;

/// Name type of a service on a host.
pub const NT_SRV_HST: i32 = 3;

/// The name of a client or of a service.
#[derive(Debug, Clone, PartialEq, Eq)]
pub enum Name {
    /// A user or another principal of a realm.
    Principal { name: String, realm: String },
    /// A service without a host, such as the ticket-granting service.
    SrvInst { service: String, realm: String },
    /// A service on a host.
    SrvHst { service: String, host: String, realm: String },
}

/// A name as sequences of characters.
pub enum NameView {
    Principal { name: Seq<char>, realm: Seq<char> },
    SrvInst { service: Seq<char>, realm: Seq<char> },
    SrvHst { service: Seq<char>, host: Seq<char>, realm: Seq<char> },
}

impl View for Name {
    type V = NameView;

    open spec fn view(&self) -> NameView {
        match self {
            Name::Principal { name, realm } => NameView::Principal { name: name@, realm: realm@ },
            Name::SrvInst { service, realm } => NameView::SrvInst {
                service: service@,
                realm: realm@,
            },
            Name::SrvHst { service, host, realm } => NameView::SrvHst {
                service: service@,
                host: host@,
                realm: realm@,
            },
        }
    }
}

/// The characters of the service name "krbtgt".
pub open spec fn spec_krbtgt() -> Seq<char> {
    "krbtgt"@
}

/// Whether the wire can carry these characters: all of them are of the
/// seven-bit alphabet.
pub open spec fn spec_representable(chars: Seq<char>) -> bool {
    spec_is_ia5(encode_utf8(chars))
}

impl NameView {
    /// The realm of the name.
    pub open spec fn realm(self) -> Seq<char> {
        match self {
            NameView::Principal { realm, .. } => realm,
            NameView::SrvInst { realm, .. } => realm,
            NameView::SrvHst { realm, .. } => realm,
        }
    }

    /// The number of the name's type.
    pub open spec fn name_type(self) -> i32 {
        match self {
            NameView::Principal { .. } => NT_PRINCIPAL,
            NameView::SrvInst { .. } => NT_SRV_INST,
            NameView::SrvHst { .. } => NT_SRV_HST,
        }
    }

    /// The components of the name, without the realm.
    pub open spec fn components(self) -> Seq<Seq<char>> {
        match self {
            NameView::Principal { name, .. } => seq![name],
            NameView::SrvInst { service, .. } => seq![service],
            NameView::SrvHst { service, host, .. } => seq![service, host],
        }
    }

    /// Whether the wire can carry the name.
    pub open spec fn representable(self) -> bool {
        &&& spec_representable(self.realm())
        &&& forall|i: int|
            0 <= i < self.components().len() ==> spec_representable(#[trigger] self.components()[i])
    }

    /// The name on the wire, where the realm travels beside the name.
    pub open spec fn wire_name(self) -> PrincipalNameView {
        PrincipalNameView {
            name_type: self.name_type(),
            name_string: Seq::new(
                self.components().len(),
                |i: int| encode_utf8(self.components()[i]),
            ),
        }
    }

    /// The name on the wire, where the realm travels as the last component.
    pub open spec fn wire_name_with_realm(self) -> PrincipalNameView {
        PrincipalNameView {
            name_type: self.name_type(),
            name_string: self.wire_name().name_string.push(encode_utf8(self.realm())),
        }
    }
}

/// The name that a wire name and a realm stand for. The first components are
/// taken, as many as the type of the name calls for.
pub open spec fn spec_name_from_wire(princ: PrincipalNameView, realm: Seq<u8>) -> Result<
    NameView,
    KrbError,
> {
    let parts = princ.name_string;
    if princ.name_type == NT_PRINCIPAL {
        if parts.len() < 1 {
            Err(KrbError::NameComponentsMissing)
        } else if !spec_is_ia5(parts[0]) || !spec_is_ia5(realm) {
            Err(KrbError::NameNotRepresentable)
        } else {
            Ok(NameView::Principal { name: decode_utf8(parts[0]), realm: decode_utf8(realm) })
        }
    } else if princ.name_type == NT_SRV_INST {
        if parts.len() < 1 {
            Err(KrbError::NameComponentsMissing)
        } else if !spec_is_ia5(parts[0]) || !spec_is_ia5(realm) {
            Err(KrbError::NameNotRepresentable)
        } else {
            Ok(NameView::SrvInst { service: decode_utf8(parts[0]), realm: decode_utf8(realm) })
        }
    } else if princ.name_type == NT_SRV_HST {
        if parts.len() < 2 {
            Err(KrbError::NameComponentsMissing)
        } else if !spec_is_ia5(parts[0]) || !spec_is_ia5(parts[1]) || !spec_is_ia5(realm) {
            Err(KrbError::NameNotRepresentable)
        } else {
            Ok(
                NameView::SrvHst {
                    service: decode_utf8(parts[0]),
                    host: decode_utf8(parts[1]),
                    realm: decode_utf8(realm),
                },
            )
        }
    } else {
        Err(KrbError::NameTypeUnsupported(princ.name_type))
    }
}

/// The name that a wire name stands for whose last component is the realm.
pub open spec fn spec_name_from_wire_with_realm(princ: PrincipalNameView) -> Result<
    NameView,
    KrbError,
> {
    let parts = princ.name_string;
    let needed: int = if princ.name_type == NT_SRV_HST {
        3
    } else {
        2
    };
    if princ.name_type != NT_PRINCIPAL && princ.name_type != NT_SRV_INST && princ.name_type
        != NT_SRV_HST {
        Err(KrbError::NameTypeUnsupported(princ.name_type))
    } else if parts.len() < needed {
        Err(KrbError::NameComponentsMissing)
    } else {
        spec_name_from_wire(princ, parts[needed - 1])
    }
}

/// `String::from_utf8`: the string whose bytes are `bytes`. Bytes of the
/// seven-bit alphabet always are a string, one character for each byte.
#[verifier::external_body]
fn string_from_utf8(bytes: Vec<u8>) -> (r: Option<String>)
    ensures
        r matches Some(s) ==> encode_utf8(s@) == bytes@,
        spec_is_ia5(bytes@) ==> r is Some,
{
    String::from_utf8(bytes).ok()
}

/// The string that bytes of the seven-bit alphabet spell.
pub fn wire_to_string(bytes: &[u8]) -> (r: Option<String>)
    ensures
        match r {
            Some(s) => spec_is_ia5(bytes@) && s@ == decode_utf8(bytes@) && encode_utf8(s@)
                == bytes@,
            None => !spec_is_ia5(bytes@),
        },
{
    if !is_ia5(bytes) {
        return None;
    }
    match string_from_utf8(vstd::slice::slice_to_vec(bytes)) {
        Some(s) => {
            proof {
                vstd::utf8::encode_utf8_decode_utf8(s@);
            }
            Some(s)
        },
        None => None,
    }
}

/// The bytes that carry a string on the wire, if all its characters are of the
/// seven-bit alphabet.
pub fn string_to_wire(s: &str) -> (r: Option<Vec<u8>>)
    ensures
        match r {
            Some(bytes) => spec_representable(s@) && bytes@ == encode_utf8(s@),
            None => !spec_representable(s@),
        },
{
    let bytes = s.as_bytes();
    if is_ia5(bytes) {
        Some(vstd::slice::slice_to_vec(bytes))
    } else {
        None
    }
}

impl Name {
    /// The name of the principal `name` of `realm`.
    pub fn principal(name: &str, realm: &str) -> (r: Self)
        ensures
            r@ == (NameView::Principal { name: name@, realm: realm@ }),
    {
        Name::Principal { name: name.to_owned(), realm: realm.to_owned() }
    }

    /// The name of the ticket-granting service of `realm`.
    pub fn service_krbtgt(realm: &str) -> (r: Self)
        ensures
            r@ == (NameView::SrvInst { service: spec_krbtgt(), realm: realm@ }),
    {
        Name::SrvInst { service: "krbtgt".to_owned(), realm: realm.to_owned() }
    }

    /// Whether this is the name of the ticket-granting service of
    /// `check_realm`.
    pub fn is_service_krbtgt(&self, check_realm: &str) -> (r: bool)
        ensures
            r == (self@ == (NameView::SrvInst { service: spec_krbtgt(), realm: check_realm@ })),
    {
        match self {
            Name::SrvInst { service, realm } => {
                let krbtgt = "krbtgt".to_owned();
                let wanted = check_realm.to_owned();
                *service == krbtgt && wanted == *realm
            },
            _ => false,
        }
    }

    /// The name and the realm of a principal, and an error for the name of a
    /// service.
    pub fn principal_name(&self) -> (r: Result<(&str, &str), KrbError>)
        ensures
            match r {
                Ok((name, realm)) => self@ == (NameView::Principal { name: name@, realm: realm@ }),
                Err(e) => e == KrbError::NameNotPrincipal && !(self@ is Principal),
            },
    {
        match self {
            Name::Principal { name, realm } => Ok((name.as_str(), realm.as_str())),
            _ => Err(KrbError::NameNotPrincipal),
        }
    }

    /// The realm as the wire carries it, unless it holds a character outside
    /// the seven-bit alphabet.
    pub fn try_into_realm(&self) -> (r: Result<Vec<u8>, KrbError>)
        ensures
            match r {
                Ok(realm) => spec_representable(self@.realm()) && realm@ == encode_utf8(
                    self@.realm(),
                ),
                Err(e) => e == KrbError::NameNotRepresentable && !spec_representable(
                    self@.realm(),
                ),
            },
    {
        let realm = match self {
            Name::Principal { realm, .. } => realm,
            Name::SrvInst { realm, .. } => realm,
            Name::SrvHst { realm, .. } => realm,
        };
        match string_to_wire(realm.as_str()) {
            Some(bytes) => Ok(bytes),
            None => Err(KrbError::NameNotRepresentable),
        }
    }

    /// The name and the realm as the wire carries them side by side, unless
    /// one of them holds a character outside the seven-bit alphabet.
    pub fn try_into(&self) -> (r: Result<(PrincipalName, Vec<u8>), KrbError>)
        ensures
            match r {
                Ok((princ, realm)) => {
                    &&& self@.representable()
                    &&& princ.deep_view() == self@.wire_name()
                    &&& realm@ == encode_utf8(self@.realm())
                },
                Err(e) => e == KrbError::NameNotRepresentable && !self@.representable(),
            },
    {
        let realm = match self.try_into_realm() {
            Ok(realm) => realm,
            Err(e) => {
                return Err(e);
            },
        };
        let mut name_string: Vec<Vec<u8>> = Vec::new();
        let name_type = match self {
            Name::Principal { name, .. } => {
                match string_to_wire(name.as_str()) {
                    Some(bytes) => name_string.push(bytes),
                    None => {
                        assert(!spec_representable(self@.components()[0]));
                        return Err(KrbError::NameNotRepresentable);
                    },
                }
                NT_PRINCIPAL
            },
            Name::SrvInst { service, .. } => {
                match string_to_wire(service.as_str()) {
                    Some(bytes) => name_string.push(bytes),
                    None => {
                        assert(!spec_representable(self@.components()[0]));
                        return Err(KrbError::NameNotRepresentable);
                    },
                }
                NT_SRV_INST
            },
            Name::SrvHst { service, host, .. } => {
                match string_to_wire(service.as_str()) {
                    Some(bytes) => name_string.push(bytes),
                    None => {
                        assert(!spec_representable(self@.components()[0]));
                        return Err(KrbError::NameNotRepresentable);
                    },
                }
                match string_to_wire(host.as_str()) {
                    Some(bytes) => name_string.push(bytes),
                    None => {
                        assert(!spec_representable(self@.components()[1]));
                        return Err(KrbError::NameNotRepresentable);
                    },
                }
                NT_SRV_HST
            },
        };
        let princ = PrincipalName { name_type, name_string };
        assert(princ.deep_view().name_string =~= self@.wire_name().name_string);
        Ok((princ, realm))
    }

    /// The name as the wire carries it where the realm is its last component.
    pub fn try_into_principal_name(&self) -> (r: Result<PrincipalName, KrbError>)
        ensures
            match r {
                Ok(princ) => self@.representable() && princ.deep_view()
                    == self@.wire_name_with_realm(),
                Err(e) => e == KrbError::NameNotRepresentable && !self@.representable(),
            },
    {
        match self.try_into() {
            Ok((princ, realm)) => {
                let PrincipalName { name_type, name_string } = princ;
                let mut name_string = name_string;
                name_string.push(realm);
                let with_realm = PrincipalName { name_type, name_string };
                assert(with_realm.deep_view().name_string
                    =~= self@.wire_name_with_realm().name_string);
                Ok(with_realm)
            },
            Err(e) => Err(e),
        }
    }

    /// The name that a wire name and the realm beside it stand for.
    pub fn try_from(princ: &PrincipalName, realm: &[u8]) -> (r: Result<Name, KrbError>)
        ensures
            match r {
                Ok(name) => spec_name_from_wire(princ.deep_view(), realm@) == Ok::<
                    NameView,
                    KrbError,
                >(name@),
                Err(e) => spec_name_from_wire(princ.deep_view(), realm@) == Err::<
                    NameView,
                    KrbError,
                >(e),
            },
    {
        let parts = &princ.name_string;
        let needed: usize = if princ.name_type == NT_SRV_HST {
            2
        } else {
            1
        };
        if princ.name_type != NT_PRINCIPAL && princ.name_type != NT_SRV_INST && princ.name_type
            != NT_SRV_HST {
            return Err(KrbError::NameTypeUnsupported(princ.name_type));
        }
        if parts.len() < needed {
            return Err(KrbError::NameComponentsMissing);
        }
        assert(princ.deep_view().name_string[0] == parts@[0]@);
        let first = match wire_to_string(parts[0].as_slice()) {
            Some(s) => s,
            None => {
                return Err(KrbError::NameNotRepresentable);
            },
        };
        if princ.name_type == NT_SRV_HST {
            assert(princ.deep_view().name_string[1] == parts@[1]@);
            let host = match wire_to_string(parts[1].as_slice()) {
                Some(s) => s,
                None => {
                    return Err(KrbError::NameNotRepresentable);
                },
            };
            let realm = match wire_to_string(realm) {
                Some(s) => s,
                None => {
                    return Err(KrbError::NameNotRepresentable);
                },
            };
            Ok(Name::SrvHst { service: first, host, realm })
        } else {
            let realm = match wire_to_string(realm) {
                Some(s) => s,
                None => {
                    return Err(KrbError::NameNotRepresentable);
                },
            };
            if princ.name_type == NT_PRINCIPAL {
                Ok(Name::Principal { name: first, realm })
            } else {
                Ok(Name::SrvInst { service: first, realm })
            }
        }
    }

    /// The name that a wire name stands for whose last component is the
    /// realm.
    pub fn try_from_principal_name(princ: &PrincipalName) -> (r: Result<Name, KrbError>)
        ensures
            match r {
                Ok(name) => spec_name_from_wire_with_realm(princ.deep_view()) == Ok::<
                    NameView,
                    KrbError,
                >(name@),
                Err(e) => spec_name_from_wire_with_realm(princ.deep_view()) == Err::<
                    NameView,
                    KrbError,
                >(e),
            },
    {
        let needed: usize = if princ.name_type == NT_SRV_HST {
            3
        } else {
            2
        };
        if princ.name_type != NT_PRINCIPAL && princ.name_type != NT_SRV_INST && princ.name_type
            != NT_SRV_HST {
            return Err(KrbError::NameTypeUnsupported(princ.name_type));
        }
        if princ.name_string.len() < needed {
            return Err(KrbError::NameComponentsMissing);
        }
        assert(princ.deep_view().name_string[needed - 1] == princ.name_string@[needed - 1]@);
        Name::try_from(princ, princ.name_string[needed - 1].as_slice())
    }
}

/// A name that the wire can carry is read back from the wire as it was
/// written.
pub proof fn lemma_name_roundtrip(name: NameView)
    requires
        name.representable(),
    ensures
        spec_name_from_wire(name.wire_name(), encode_utf8(name.realm())) == Ok::<
            NameView,
            KrbError,
        >(name),
        spec_name_from_wire_with_realm(name.wire_name_with_realm()) == Ok::<NameView, KrbError>(
            name,
        ),
{
    vstd::utf8::encode_utf8_decode_utf8(name.realm());
    assert(spec_representable(name.components()[0]));
    vstd::utf8::encode_utf8_decode_utf8(name.components()[0]);
    if name is SrvHst {
        assert(spec_representable(name.components()[1]));
        vstd::utf8::encode_utf8_decode_utf8(name.components()[1]);
    }
}

} // verus!
