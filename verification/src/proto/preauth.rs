//! Pre-authentication: what a server asks of a client before it answers, and
//! what the client sends to meet it.

use crate::asn1::encrypted_data::KdcEncryptedData;
use crate::asn1::pa_data::{
    ETypeInfo2Entry, ETypeInfo2EntryView, PreAuthData, PreAuthDataView,
};
use crate::constants::{EncryptionType, PaDataType};
use crate::error::KrbError;
use crate::proto::keys::{
    spec_for_challenge, spec_hint_views, DerivedKey, DerivedKeyView, EncryptedData, EtypeInfo2,
    EtypeInfo2View,
};
use crate::proto::name::wire_to_string;
use crate::proto::strength::{
    spec_strength, strength, STRENGTH_AES128, STRENGTH_AES256, STRENGTH_OTHER,
};
use crate::asn1::der::spec_is_ia5;
use vstd::prelude::*;
use vstd::utf8::decode_utf8;

verus! {

/// What a server says about the pre-authentication that it accepts.
#[derive(Debug, Clone, PartialEq, Eq)]
pub struct PreauthData {
    pa_fx_fast: bool,
    enc_timestamp: bool,
    pa_fx_cookie: Option<Vec<u8>>,
    etype_info2: Vec<EtypeInfo2>,
}

/// The pre-authentication that a server asks for in answer to a request.
#[derive(Debug, Clone, PartialEq, Eq)]
pub struct KerberosPaRep {
    pa_fx_fast: bool,
    enc_timestamp: bool,
    pa_fx_cookie: Option<Vec<u8>>,
    etype_info2: Vec<EtypeInfo2>,
}

/// The pre-authentication that a request carries.
#[derive(Debug, Clone, PartialEq, Eq)]
pub struct Preauth {
    enc_timestamp: Option<EncryptedData>,
    pa_fx_cookie: Option<Vec<u8>>,
}

/// What a server says about pre-authentication, as plain values.
pub struct PreauthDataView {
    /// Whether the server offers the armoured tunnel.
    pub pa_fx_fast: bool,
    /// Whether the server accepts an encrypted timestamp.
    pub enc_timestamp: bool,
    /// State that the client has to send back as it is.
    pub pa_fx_cookie: Option<Seq<u8>>,
    /// The hints that the client can use, the strongest first.
    pub etype_info2: Seq<EtypeInfo2View>,
}

/// The pre-authentication of a request, as plain values.
pub struct PreauthView {
    /// The encrypted timestamp: the version of its key and its ciphertext.
    pub enc_timestamp: Option<(Option<u32>, Seq<u8>)>,
    /// State that the server handed out.
    pub pa_fx_cookie: Option<Seq<u8>>,
}

impl View for PreauthData {
    type V = PreauthDataView;

    closed spec fn view(&self) -> PreauthDataView {
        PreauthDataView {
            pa_fx_fast: self.pa_fx_fast,
            enc_timestamp: self.enc_timestamp,
            pa_fx_cookie: match self.pa_fx_cookie {
                Some(c) => Some(c@),
                None => None,
            },
            etype_info2: spec_hint_views(self.etype_info2@),
        }
    }
}

impl View for KerberosPaRep {
    type V = PreauthDataView;

    closed spec fn view(&self) -> PreauthDataView {
        PreauthDataView {
            pa_fx_fast: self.pa_fx_fast,
            enc_timestamp: self.enc_timestamp,
            pa_fx_cookie: match self.pa_fx_cookie {
                Some(c) => Some(c@),
                None => None,
            },
            etype_info2: spec_hint_views(self.etype_info2@),
        }
    }
}

impl View for Preauth {
    type V = PreauthView;

    closed spec fn view(&self) -> PreauthView {
        PreauthView {
            enc_timestamp: match self.enc_timestamp {
                Some(EncryptedData::Aes256CtsHmacSha196 { kvno, data }) => Some((kvno, data@)),
                None => None,
            },
            pa_fx_cookie: match self.pa_fx_cookie {
                Some(c) => Some(c@),
                None => None,
            },
        }
    }
}

/// The hints of rank `rank`, in the order in which they stand.
pub open spec fn spec_of_strength(hints: Seq<EtypeInfo2View>, rank: u8) -> Seq<EtypeInfo2View> {
    hints.filter(|h: EtypeInfo2View| spec_strength(h.etype) == rank)
}

/// The hints ordered by strength, the strongest first. Hints of the same rank
/// keep the order in which they stood.
pub open spec fn spec_sort_by_strength(hints: Seq<EtypeInfo2View>) -> Seq<EtypeInfo2View> {
    spec_of_strength(hints, STRENGTH_AES256) + spec_of_strength(hints, STRENGTH_AES128)
        + spec_of_strength(hints, STRENGTH_OTHER)
}

/// Whether no hint stands before a stronger one.
pub open spec fn spec_strongest_first(hints: Seq<EtypeInfo2View>) -> bool {
    forall|i: int, j: int|
        0 <= i < j < hints.len() ==> spec_strength(#[trigger] hints[i].etype) >= spec_strength(
            #[trigger] hints[j].etype,
        )
}

/// The hints that a run of wire hints gives: those for the encryption type
/// that this library implements. A salt outside the seven-bit alphabet and
/// parameters that are not four bytes are errors.
pub open spec fn spec_hints_from_entries(entries: Seq<ETypeInfo2EntryView>) -> Result<
    Seq<EtypeInfo2View>,
    KrbError,
>
    decreases entries.len(),
{
    if entries.len() == 0 {
        Ok(Seq::empty())
    } else {
        match spec_hints_from_entries(entries.drop_last()) {
            Err(e) => Err(e),
            Ok(front) => {
                let entry = entries.last();
                if entry.etype != EncryptionType::AES256_CTS_HMAC_SHA1_96.code() {
                    Ok(front)
                } else if entry.salt matches Some(s) && !spec_is_ia5(s) {
                    Err(KrbError::DerDecodeEtypeInfo2)
                } else if entry.s2kparams matches Some(p) && p.len() != 4 {
                    Err(KrbError::PreauthInvalidS2KParams)
                } else {
                    Ok(
                        front.push(
                            EtypeInfo2View {
                                etype: EncryptionType::AES256_CTS_HMAC_SHA1_96,
                                salt: match entry.salt {
                                    Some(s) => Some(decode_utf8(s)),
                                    None => None,
                                },
                                s2kparams: entry.s2kparams,
                            },
                        ),
                    )
                }
            },
        }
    }
}

/// What one item adds to what is known so far. Items of a type that is not
/// known, or not used here, add nothing.
pub open spec fn spec_apply(state: PreauthDataView, item: PreAuthDataView) -> Result<
    PreauthDataView,
    KrbError,
> {
    if item.pa_type == PaDataType::PaEncTimestamp.code() {
        Ok(PreauthDataView { enc_timestamp: true, ..state })
    } else if item.pa_type == PaDataType::PaEtypeInfo2.code() {
        match ETypeInfo2Entry::spec_decode_list(item.pa_value) {
            None => Err(KrbError::DerDecodeEtypeInfo2),
            Some(entries) => match spec_hints_from_entries(entries) {
                Err(e) => Err(e),
                Ok(hints) => Ok(
                    PreauthDataView { etype_info2: state.etype_info2 + hints, ..state },
                ),
            },
        }
    } else if item.pa_type == PaDataType::PaFxFast.code() {
        Ok(PreauthDataView { pa_fx_fast: true, ..state })
    } else if item.pa_type == PaDataType::PaFxCookie.code() {
        Ok(PreauthDataView { pa_fx_cookie: Some(item.pa_value), ..state })
    } else {
        Ok(state)
    }
}

/// What a run of items says, before the hints are ordered.
pub open spec fn spec_collect(items: Seq<PreAuthDataView>) -> Result<PreauthDataView, KrbError>
    decreases items.len(),
{
    if items.len() == 0 {
        Ok(
            PreauthDataView {
                pa_fx_fast: false,
                enc_timestamp: false,
                pa_fx_cookie: None,
                etype_info2: Seq::empty(),
            },
        )
    } else {
        match spec_collect(items.drop_last()) {
            Err(e) => Err(e),
            Ok(state) => spec_apply(state, items.last()),
        }
    }
}

/// What a run of items says, with the hints ordered by strength.
pub open spec fn spec_parse(items: Seq<PreAuthDataView>) -> Result<PreauthDataView, KrbError> {
    match spec_collect(items) {
        Err(e) => Err(e),
        Ok(state) => Ok(
            PreauthDataView { etype_info2: spec_sort_by_strength(state.etype_info2), ..state },
        ),
    }
}

/// What one item adds to the pre-authentication of a request.
pub open spec fn spec_apply_request(state: PreauthView, item: PreAuthDataView) -> Result<
    PreauthView,
    KrbError,
> {
    if item.pa_type == PaDataType::PaEncTimestamp.code() {
        match KdcEncryptedData::spec_decode(item.pa_value) {
            None => Err(KrbError::DerDecodePaData),
            Some(wire) => if wire.etype != EncryptionType::AES256_CTS_HMAC_SHA1_96.code() {
                Err(KrbError::UnsupportedEncryption)
            } else {
                Ok(PreauthView { enc_timestamp: Some((wire.kvno, wire.cipher)), ..state })
            },
        }
    } else if item.pa_type == PaDataType::PaFxCookie.code() {
        Ok(PreauthView { pa_fx_cookie: Some(item.pa_value), ..state })
    } else {
        Ok(state)
    }
}

/// The pre-authentication that a run of items carries.
pub open spec fn spec_collect_request(items: Seq<PreAuthDataView>) -> Result<PreauthView, KrbError>
    decreases items.len(),
{
    if items.len() == 0 {
        Ok(PreauthView { enc_timestamp: None, pa_fx_cookie: None })
    } else {
        match spec_collect_request(items.drop_last()) {
            Err(e) => Err(e),
            Ok(state) => spec_apply_request(state, items.last()),
        }
    }
}

/// The hints of one rank have that rank, and a hint of that rank is among
/// them.
proof fn lemma_of_strength(hints: Seq<EtypeInfo2View>, rank: u8)
    ensures
        forall|i: int|
            0 <= i < spec_of_strength(hints, rank).len() ==> spec_strength(
                #[trigger] spec_of_strength(hints, rank)[i].etype,
            ) == rank,
        forall|i: int|
            0 <= i < hints.len() && spec_strength(hints[i].etype) == rank ==> spec_of_strength(
                hints,
                rank,
            ).contains(#[trigger] hints[i]),
{
    let pred = |h: EtypeInfo2View| spec_strength(h.etype) == rank;
    hints.filter_lemma(pred);
}

/// Ordered hints stand strongest first, and where any hint is for the
/// strongest encryption type, such a hint stands first, whatever the order
/// was.
pub proof fn lemma_sorted_strongest_first(hints: Seq<EtypeInfo2View>)
    ensures
        spec_strongest_first(spec_sort_by_strength(hints)),
        (exists|i: int|
            0 <= i < hints.len() && hints[i].etype == EncryptionType::AES256_CTS_HMAC_SHA1_96)
            ==> spec_sort_by_strength(hints).len() > 0 && spec_sort_by_strength(hints)[0].etype
            == EncryptionType::AES256_CTS_HMAC_SHA1_96,
{
    lemma_of_strength(hints, STRENGTH_AES256);
    lemma_of_strength(hints, STRENGTH_AES128);
    lemma_of_strength(hints, STRENGTH_OTHER);
    let a = spec_of_strength(hints, STRENGTH_AES256);
    let b = spec_of_strength(hints, STRENGTH_AES128);
    let c = spec_of_strength(hints, STRENGTH_OTHER);
    let sorted = spec_sort_by_strength(hints);
    assert forall|i: int, j: int| 0 <= i < j < sorted.len() implies spec_strength(
        #[trigger] sorted[i].etype,
    ) >= spec_strength(#[trigger] sorted[j].etype) by {
        if i < a.len() {
            assert(sorted[i] == a[i]);
        } else if i < a.len() + b.len() {
            assert(sorted[i] == b[i - a.len()]);
        } else {
            assert(sorted[i] == c[i - a.len() - b.len()]);
        }
        if j < a.len() {
            assert(sorted[j] == a[j]);
        } else if j < a.len() + b.len() {
            assert(sorted[j] == b[j - a.len()]);
        } else {
            assert(sorted[j] == c[j - a.len() - b.len()]);
        }
    }
    if exists|i: int|
        0 <= i < hints.len() && hints[i].etype == EncryptionType::AES256_CTS_HMAC_SHA1_96 {
        let i = choose|i: int|
            0 <= i < hints.len() && hints[i].etype == EncryptionType::AES256_CTS_HMAC_SHA1_96;
        assert(a.contains(hints[i]));
        assert(sorted[0] == a[0]);
    }
}

/// A copy of a hint.
fn copy_hint(hint: &EtypeInfo2) -> (copy: EtypeInfo2)
    ensures
        copy@ == hint@,
{
    let salt = match hint.salt() {
        Some(s) => Some(s.to_owned()),
        None => None,
    };
    let s2kparams = match hint.s2kparams() {
        Some(p) => Some(vstd::slice::slice_to_vec(p)),
        None => None,
    };
    EtypeInfo2::new(hint.etype(), salt, s2kparams)
}

/// Appends to `out` the hints of rank `rank`, in the order in which they
/// stand.
fn append_of_strength(out: &mut Vec<EtypeInfo2>, hints: &Vec<EtypeInfo2>, rank: u8)
    ensures
        spec_hint_views(final(out)@) == spec_hint_views(old(out)@) + spec_of_strength(
            spec_hint_views(hints@),
            rank,
        ),
{
    let ghost views = spec_hint_views(hints@);
    let ghost front = spec_hint_views(out@);
    let ghost pred = |h: EtypeInfo2View| spec_strength(h.etype) == rank;
    let mut i: usize = 0;
    proof {
        reveal(Seq::filter);
        assert(views.take(0).filter(pred) =~= Seq::<EtypeInfo2View>::empty());
        assert(front + Seq::<EtypeInfo2View>::empty() =~= front);
    }
    while i < hints.len()
        invariant
            i <= hints.len(),
            views == spec_hint_views(hints@),
            pred == |h: EtypeInfo2View| spec_strength(h.etype) == rank,
            spec_hint_views(out@) == front + views.take(i as int).filter(pred),
        decreases hints.len() - i,
    {
        proof {
            reveal(Seq::filter);
            assert(views.take(i + 1).drop_last() =~= views.take(i as int));
            assert(views.take(i + 1).last() == hints@[i as int]@);
        }
        if strength(hints[i].etype()) == rank {
            let ghost before = spec_hint_views(out@);
            let copy = copy_hint(&hints[i]);
            out.push(copy);
            assert(spec_hint_views(out@) =~= before.push(hints@[i as int]@));
            assert(front + views.take(i as int).filter(pred).push(hints@[i as int]@) =~= (front
                + views.take(i as int).filter(pred)).push(hints@[i as int]@));
        }
        i = i + 1;
    }
    assert(views.take(hints.len() as int) =~= views);
}

/// Orders hints by strength, the strongest first. Hints of the same rank keep
/// the order in which they stood.
pub fn sort_by_strength(hints: &Vec<EtypeInfo2>) -> (sorted: Vec<EtypeInfo2>)
    ensures
        spec_hint_views(sorted@) == spec_sort_by_strength(spec_hint_views(hints@)),
        spec_strongest_first(spec_hint_views(sorted@)),
{
    let mut sorted: Vec<EtypeInfo2> = Vec::new();
    assert(spec_hint_views(sorted@) =~= Seq::<EtypeInfo2View>::empty());
    append_of_strength(&mut sorted, hints, STRENGTH_AES256);
    append_of_strength(&mut sorted, hints, STRENGTH_AES128);
    append_of_strength(&mut sorted, hints, STRENGTH_OTHER);
    proof {
        let views = spec_hint_views(hints@);
        assert(Seq::<EtypeInfo2View>::empty() + spec_of_strength(views, STRENGTH_AES256)
            =~= spec_of_strength(views, STRENGTH_AES256));
        lemma_sorted_strongest_first(views);
    }
    sorted
}

/// Appends to `hints` the hints that a run of wire hints gives.
fn append_hints(hints: &mut Vec<EtypeInfo2>, entries: &Vec<ETypeInfo2Entry>) -> (r: Result<
    (),
    KrbError,
>)
    ensures
        match r {
            Ok(()) => spec_hints_from_entries(entries.deep_view()) matches Ok(added)
                && spec_hint_views(final(hints)@) == spec_hint_views(old(hints)@) + added,
            Err(e) => spec_hints_from_entries(entries.deep_view()) == Err::<
                Seq<EtypeInfo2View>,
                KrbError,
            >(e),
        },
{
    let ghost all = entries.deep_view();
    let ghost front = spec_hint_views(hints@);
    let mut i: usize = 0;
    assert(front + Seq::<EtypeInfo2View>::empty() =~= front);
    while i < entries.len()
        invariant
            i <= entries.len(),
            all == entries.deep_view(),
            all.len() == entries.len(),
            spec_hints_from_entries(all.take(i as int)) matches Ok(added) && spec_hint_views(
                hints@,
            ) == front + added,
        decreases entries.len() - i,
    {
        let entry = &entries[i];
        proof {
            assert(all.take(i + 1).drop_last() =~= all.take(i as int));
            assert(all.take(i + 1).last() == entry.deep_view());
        }
        let ghost added = spec_hints_from_entries(all.take(i as int))->Ok_0;
        if entry.etype == EncryptionType::AES256_CTS_HMAC_SHA1_96.to_code() {
            let salt = match &entry.salt {
                Some(bytes) => match wire_to_string(bytes.as_slice()) {
                    Some(s) => Some(s),
                    None => {
                        proof {
                            lemma_hints_fail(all, i as int + 1);
                        }
                        return Err(KrbError::DerDecodeEtypeInfo2);
                    },
                },
                None => None,
            };
            let s2kparams = match &entry.s2kparams {
                Some(p) => {
                    if p.len() != 4 {
                        proof {
                            lemma_hints_fail(all, i as int + 1);
                        }
                        return Err(KrbError::PreauthInvalidS2KParams);
                    }
                    Some(vstd::slice::slice_to_vec(p.as_slice()))
                },
                None => None,
            };
            let ghost before = spec_hint_views(hints@);
            let hint = EtypeInfo2::new(EncryptionType::AES256_CTS_HMAC_SHA1_96, salt, s2kparams);
            hints.push(hint);
            assert(spec_hint_views(hints@) =~= before.push(hint@));
            assert(front + added.push(hint@) =~= (front + added).push(hint@));
        }
        i = i + 1;
    }
    assert(all.take(entries.len() as int) =~= all);
    Ok(())
}

/// Where the first `upto` wire hints fail, all of them fail alike.
proof fn lemma_hints_fail(entries: Seq<ETypeInfo2EntryView>, upto: int)
    requires
        0 <= upto <= entries.len(),
        spec_hints_from_entries(entries.take(upto)) is Err,
    ensures
        spec_hints_from_entries(entries) == spec_hints_from_entries(entries.take(upto)),
    decreases entries.len() - upto,
{
    if upto < entries.len() {
        assert(entries.take(upto + 1).drop_last() =~= entries.take(upto));
        lemma_hints_fail(entries, upto + 1);
    } else {
        assert(entries.take(upto) =~= entries);
    }
}

/// Where the first `upto` items fail, all of them fail alike.
proof fn lemma_collect_fails(items: Seq<PreAuthDataView>, upto: int)
    requires
        0 <= upto <= items.len(),
        spec_collect(items.take(upto)) is Err,
    ensures
        spec_collect(items) == spec_collect(items.take(upto)),
    decreases items.len() - upto,
{
    if upto < items.len() {
        assert(items.take(upto + 1).drop_last() =~= items.take(upto));
        lemma_collect_fails(items, upto + 1);
    } else {
        assert(items.take(upto) =~= items);
    }
}

/// Where the first `upto` items of a request fail, all of them fail alike.
proof fn lemma_collect_request_fails(items: Seq<PreAuthDataView>, upto: int)
    requires
        0 <= upto <= items.len(),
        spec_collect_request(items.take(upto)) is Err,
    ensures
        spec_collect_request(items) == spec_collect_request(items.take(upto)),
    decreases items.len() - upto,
{
    if upto < items.len() {
        assert(items.take(upto + 1).drop_last() =~= items.take(upto));
        lemma_collect_request_fails(items, upto + 1);
    } else {
        assert(items.take(upto) =~= items);
    }
}

impl PreauthData {
    /// Reads what a server says about pre-authentication from the items that
    /// it sent.
    ///
    /// Items of unknown type are passed over. Of the hints, those for an
    /// encryption type that this library does not implement are dropped;
    /// hints that cannot be read, and hints whose parameters are not four
    /// bytes, are errors. The hints that remain are ordered by strength.
    pub fn try_from(pavec: Vec<PreAuthData>) -> (r: Result<Self, KrbError>)
        ensures
            match r {
                Ok(data) => spec_parse(pavec.deep_view()) == Ok::<PreauthDataView, KrbError>(
                    data@,
                ) && spec_strongest_first(data@.etype_info2),
                Err(e) => spec_parse(pavec.deep_view()) == Err::<PreauthDataView, KrbError>(e),
            },
    {
        let ghost items = pavec.deep_view();
        let mut pa_fx_fast = false;
        let mut enc_timestamp = false;
        let mut pa_fx_cookie: Option<Vec<u8>> = None;
        let mut etype_info2: Vec<EtypeInfo2> = Vec::new();
        let mut i: usize = 0;
        assert(spec_hint_views(etype_info2@) =~= Seq::<EtypeInfo2View>::empty());
        while i < pavec.len()
            invariant
                i <= pavec.len(),
                items == pavec.deep_view(),
                items.len() == pavec.len(),
                spec_collect(items.take(i as int)) == Ok::<PreauthDataView, KrbError>(
                    PreauthDataView {
                        pa_fx_fast,
                        enc_timestamp,
                        pa_fx_cookie: match pa_fx_cookie {
                            Some(c) => Some(c@),
                            None => None,
                        },
                        etype_info2: spec_hint_views(etype_info2@),
                    },
                ),
            decreases pavec.len() - i,
        {
            let item = &pavec[i];
            proof {
                assert(items.take(i + 1).drop_last() =~= items.take(i as int));
                assert(items.take(i + 1).last() == item.deep_view());
            }
            if item.pa_type == PaDataType::PaEncTimestamp.to_code() {
                enc_timestamp = true;
            } else if item.pa_type == PaDataType::PaEtypeInfo2.to_code() {
                let entries = match ETypeInfo2Entry::decode_list(item.pa_value.as_slice()) {
                    Some(entries) => entries,
                    None => {
                        proof {
                            lemma_collect_fails(items, i as int + 1);
                        }
                        return Err(KrbError::DerDecodeEtypeInfo2);
                    },
                };
                match append_hints(&mut etype_info2, &entries) {
                    Ok(()) => {},
                    Err(e) => {
                        proof {
                            lemma_collect_fails(items, i as int + 1);
                        }
                        return Err(e);
                    },
                }
            } else if item.pa_type == PaDataType::PaFxFast.to_code() {
                pa_fx_fast = true;
            } else if item.pa_type == PaDataType::PaFxCookie.to_code() {
                pa_fx_cookie = Some(vstd::slice::slice_to_vec(item.pa_value.as_slice()));
            }
            i = i + 1;
        }
        assert(items.take(pavec.len() as int) =~= items);
        let sorted = sort_by_strength(&etype_info2);
        Ok(PreauthData { pa_fx_fast, enc_timestamp, pa_fx_cookie, etype_info2: sorted })
    }

    /// Whether the server offers the armoured tunnel.
    pub fn pa_fx_fast(&self) -> (r: bool)
        ensures
            r == self@.pa_fx_fast,
    {
        self.pa_fx_fast
    }

    /// Whether the server accepts an encrypted timestamp.
    pub fn enc_timestamp(&self) -> (r: bool)
        ensures
            r == self@.enc_timestamp,
    {
        self.enc_timestamp
    }

    /// State that the client has to send back as it is in its next request.
    pub fn pa_fx_cookie(&self) -> (r: Option<&[u8]>)
        ensures
            match r {
                Some(c) => self@.pa_fx_cookie == Some(c@),
                None => self@.pa_fx_cookie is None,
            },
    {
        match &self.pa_fx_cookie {
            Some(c) => Some(c.as_slice()),
            None => None,
        }
    }

    /// The hints that the client can use, the strongest first.
    pub fn etype_info2(&self) -> (r: &[EtypeInfo2])
        ensures
            spec_hint_views(r@) == self@.etype_info2,
    {
        self.etype_info2.as_slice()
    }

    /// The key with which to answer: derived as the first hint asks, which is
    /// the strongest, and from the default salt and iteration count where the
    /// server sent no hint that can be used. A hint whose parameters are not
    /// four bytes is an error, never a reason to fall back.
    pub fn derive_key_for_challenge(&self, realm: &str, username: &str, passphrase: &str) -> (r:
        Result<DerivedKey, KrbError>)
        ensures
            match r {
                Ok(key) => Ok::<DerivedKeyView, KrbError>(key@) == spec_for_challenge(
                    Some(self@.etype_info2),
                    realm@,
                    username@,
                    passphrase@,
                ),
                Err(e) => Err::<DerivedKeyView, KrbError>(e) == spec_for_challenge(
                    Some(self@.etype_info2),
                    realm@,
                    username@,
                    passphrase@,
                ),
            },
    {
        let payload = EncryptedData::Aes256CtsHmacSha196 { kvno: None, data: Vec::new() };
        DerivedKey::from_encrypted_reply(
            &payload,
            Some(self.etype_info2.as_slice()),
            realm,
            username,
            passphrase,
        )
    }
}

impl KerberosPaRep {
    /// Reads the pre-authentication that a server asks for, as
    /// `PreauthData::try_from` does.
    pub fn try_from(pavec: Vec<PreAuthData>) -> (r: Result<Self, KrbError>)
        ensures
            match r {
                Ok(rep) => spec_parse(pavec.deep_view()) == Ok::<PreauthDataView, KrbError>(rep@)
                    && spec_strongest_first(rep@.etype_info2),
                Err(e) => spec_parse(pavec.deep_view()) == Err::<PreauthDataView, KrbError>(e),
            },
    {
        match PreauthData::try_from(pavec) {
            Ok(data) => {
                let PreauthData { pa_fx_fast, enc_timestamp, pa_fx_cookie, etype_info2 } = data;
                Ok(KerberosPaRep { pa_fx_fast, enc_timestamp, pa_fx_cookie, etype_info2 })
            },
            Err(e) => Err(e),
        }
    }

    /// Whether the server offers the armoured tunnel.
    pub fn pa_fx_fast(&self) -> (r: bool)
        ensures
            r == self@.pa_fx_fast,
    {
        self.pa_fx_fast
    }

    /// Whether the server accepts an encrypted timestamp.
    pub fn enc_timestamp(&self) -> (r: bool)
        ensures
            r == self@.enc_timestamp,
    {
        self.enc_timestamp
    }

    /// State that the client has to send back as it is in its next request.
    pub fn pa_fx_cookie(&self) -> (r: Option<&[u8]>)
        ensures
            match r {
                Some(c) => self@.pa_fx_cookie == Some(c@),
                None => self@.pa_fx_cookie is None,
            },
    {
        match &self.pa_fx_cookie {
            Some(c) => Some(c.as_slice()),
            None => None,
        }
    }

    /// The hints that the client can use, the strongest first.
    pub fn etype_info2(&self) -> (r: &[EtypeInfo2])
        ensures
            spec_hint_views(r@) == self@.etype_info2,
    {
        self.etype_info2.as_slice()
    }

    /// The key with which to answer: derived as the first hint asks, which is
    /// the strongest, and from the default salt and iteration count where the
    /// server sent no hint that can be used. A hint whose parameters are not
    /// four bytes is an error, never a reason to fall back.
    pub fn derive_key_for_challenge(&self, realm: &str, username: &str, passphrase: &str) -> (r:
        Result<DerivedKey, KrbError>)
        ensures
            match r {
                Ok(key) => Ok::<DerivedKeyView, KrbError>(key@) == spec_for_challenge(
                    Some(self@.etype_info2),
                    realm@,
                    username@,
                    passphrase@,
                ),
                Err(e) => Err::<DerivedKeyView, KrbError>(e) == spec_for_challenge(
                    Some(self@.etype_info2),
                    realm@,
                    username@,
                    passphrase@,
                ),
            },
    {
        let payload = EncryptedData::Aes256CtsHmacSha196 { kvno: None, data: Vec::new() };
        DerivedKey::from_encrypted_reply(
            &payload,
            Some(self.etype_info2.as_slice()),
            realm,
            username,
            passphrase,
        )
    }
}

impl Default for Preauth {
    /// No pre-authentication.
    fn default() -> (r: Self)
        ensures
            r@ == (PreauthView { enc_timestamp: None, pa_fx_cookie: None }),
    {
        Preauth { enc_timestamp: None, pa_fx_cookie: None }
    }
}

impl Preauth {
    /// Reads the pre-authentication of a request from its items. Items of
    /// other types are passed over. An encrypted timestamp that cannot be
    /// read, or that is of an encryption type that this library does not
    /// implement, is an error.
    pub fn try_from(pavec: Vec<PreAuthData>) -> (r: Result<Self, KrbError>)
        ensures
            match r {
                Ok(preauth) => spec_collect_request(pavec.deep_view()) == Ok::<
                    PreauthView,
                    KrbError,
                >(preauth@),
                Err(e) => spec_collect_request(pavec.deep_view()) == Err::<PreauthView, KrbError>(
                    e,
                ),
            },
    {
        let ghost items = pavec.deep_view();
        let mut enc_timestamp: Option<EncryptedData> = None;
        let mut pa_fx_cookie: Option<Vec<u8>> = None;
        let mut i: usize = 0;
        while i < pavec.len()
            invariant
                i <= pavec.len(),
                items == pavec.deep_view(),
                items.len() == pavec.len(),
                spec_collect_request(items.take(i as int)) == Ok::<PreauthView, KrbError>(
                    (Preauth { enc_timestamp, pa_fx_cookie })@,
                ),
            decreases pavec.len() - i,
        {
            let item = &pavec[i];
            proof {
                assert(items.take(i + 1).drop_last() =~= items.take(i as int));
                assert(items.take(i + 1).last() == item.deep_view());
            }
            if item.pa_type == PaDataType::PaEncTimestamp.to_code() {
                let wire = match KdcEncryptedData::decode(item.pa_value.as_slice()) {
                    Some(wire) => wire,
                    None => {
                        proof {
                            lemma_collect_request_fails(items, i as int + 1);
                        }
                        return Err(KrbError::DerDecodePaData);
                    },
                };
                match EncryptedData::try_from(wire) {
                    Ok(data) => {
                        enc_timestamp = Some(data);
                    },
                    Err(e) => {
                        proof {
                            lemma_collect_request_fails(items, i as int + 1);
                        }
                        return Err(e);
                    },
                }
            } else if item.pa_type == PaDataType::PaFxCookie.to_code() {
                pa_fx_cookie = Some(vstd::slice::slice_to_vec(item.pa_value.as_slice()));
            }
            i = i + 1;
        }
        assert(items.take(pavec.len() as int) =~= items);
        Ok(Preauth { enc_timestamp, pa_fx_cookie })
    }

    /// The encrypted timestamp of the request.
    pub fn enc_timestamp(&self) -> (r: Option<&EncryptedData>)
        ensures
            match r {
                Some(EncryptedData::Aes256CtsHmacSha196 { kvno, data }) => self@.enc_timestamp
                    == Some((*kvno, data@)),
                None => self@.enc_timestamp is None,
            },
    {
        self.enc_timestamp.as_ref()
    }

    /// State that the server handed out, sent back as it was.
    pub fn pa_fx_cookie(&self) -> (r: Option<&[u8]>)
        ensures
            match r {
                Some(c) => self@.pa_fx_cookie == Some(c@),
                None => self@.pa_fx_cookie is None,
            },
    {
        match &self.pa_fx_cookie {
            Some(c) => Some(c.as_slice()),
            None => None,
        }
    }
}

/// The item that carries an encrypted timestamp in a request.
pub fn pa_enc_timestamp(enc_timestamp: EncryptedData) -> (r: Result<PreAuthData, KrbError>)
    ensures
        match r {
            Ok(item) => {
                &&& item.pa_type == PaDataType::PaEncTimestamp.code()
                &&& enc_timestamp matches EncryptedData::Aes256CtsHmacSha196 { kvno, data }
                &&& KdcEncryptedData::spec_encode(
                    crate::asn1::encrypted_data::KdcEncryptedDataView {
                        etype: EncryptionType::AES256_CTS_HMAC_SHA1_96.code() as i32,
                        kvno,
                        cipher: data@,
                    },
                ) == Some(item.pa_value@)
            },
            Err(e) => {
                &&& e == KrbError::DerEncodeEncryptedData
                &&& enc_timestamp matches EncryptedData::Aes256CtsHmacSha196 { kvno, data }
                &&& KdcEncryptedData::spec_encode(
                    crate::asn1::encrypted_data::KdcEncryptedDataView {
                        etype: EncryptionType::AES256_CTS_HMAC_SHA1_96.code() as i32,
                        kvno,
                        cipher: data@,
                    },
                ) is None
            },
        },
{
    let wire = match enc_timestamp.try_into() {
        Ok(wire) => wire,
        Err(e) => {
            return Err(e);
        },
    };
    match wire.encode() {
        Some(pa_value) => Ok(PreAuthData { pa_type: PaDataType::PaEncTimestamp.to_code(),
            pa_value }),
        None => Err(KrbError::DerEncodeEncryptedData),
    }
}

/// The item that hands a server's state back to it.
pub fn pa_fx_cookie(cookie: Vec<u8>) -> (item: PreAuthData)
    ensures
        item.pa_type == PaDataType::PaFxCookie.code(),
        item.pa_value@ == cookie@,
{
    PreAuthData { pa_type: PaDataType::PaFxCookie.to_code(), pa_value: cookie }
}

} // verus!
