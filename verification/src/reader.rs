use vstd::prelude::*;
use crate::error::Error;
use crate::pdu::{
    AbortRQContainer, AbortRQServiceProviderReason, AbortRQSource, AssociateACContainer,
    AssociateRJContainer, AssociateRQContainer, AssociationRJResult, AssociationRJSource,
    AssociationRJServiceProviderASCEReason, AssociationRJServiceProviderPresentationReason,
    AssociationRJServiceUserReason, PDataContainer, PDataValue, PDataValueType, PDataValueView,
    PresentationContextProposed, PresentationContextResult, PresentationContextResultReason,
    PDUView, UnknownContainer, UserVariableItem, PDU,
};
use crate::pdu::{
    PresentationContextProposedView, PresentationContextResultView, UserVariableItemView,
};
use crate::wire::{
    be16, be32, dec16, dec32, enc_abort_payload, enc_item16, enc_pdu, enc_pdu_payload, enc_pdv,
    enc_abstract_syntax, enc_app_context, enc_pc_proposed, enc_pc_proposed_body, enc_pc_result,
    enc_pc_result_body, enc_pcs_proposed_from, enc_pcs_result_from, enc_pdvs_from,
    enc_user_info,
    enc_rj_payload, enc_transfer_syntax, enc_transfer_syntaxes_from, enc_user_item,
    enc_user_items_from, mch_byte, pdu_type_byte, reason_byte, wf_pc_proposed, wf_pc_result,
    wf_pdu, wf_pdv, wf_rj, wf_user_item,
};

verus! {

broadcast use crate::pdu::lemma_bytes_deep_view;

/// The default maximum PDU size in bytes (16 KiB).
pub const DEFAULT_MAX_PDU: u32 = 16384;

/// Four big-endian bytes carry their value back.
pub proof fn lemma_dec32_be32(x: u32)
    ensures
        dec32(be32(x)) == x,
{
}

/// A copy of the byte range `[a, b)`.
fn copy_range(v: &Vec<u8>, a: usize, b: usize) -> (r: Vec<u8>)
    requires
        a <= b <= v@.len(),
    ensures
        r@ == v@.subrange(a as int, b as int),
{
    let mut r: Vec<u8> = Vec::new();
    let mut i: usize = a;
    while i < b
        invariant
            a <= i <= b <= v@.len(),
            r@ == v@.subrange(a as int, i as int),
        decreases b - i,
    {
        r.push(v[i]);
        proof {
            assert(r@ =~= v@.subrange(a as int, i + 1));
        }
        i += 1;
    }
    r
}

/// The value of the two big-endian bytes at `pos`.
fn read_u16_at(v: &Vec<u8>, pos: usize) -> (r: u16)
    requires
        pos + 2 <= v@.len(),
    ensures
        r == dec16(v@.subrange(pos as int, pos + 2)),
{
    // Calling len binds the vector's length to a usize, which bounds the
    // index arithmetic below.
    let _n = v.len();
    let r: u16 = (v[pos] as u16) * 256 + (v[pos + 1] as u16);
    proof {
        assert(v@.subrange(pos as int, pos + 2)[0] == v@[pos as int]);
        assert(v@.subrange(pos as int, pos + 2)[1] == v@[pos + 1]);
    }
    r
}

/// The value of the four big-endian bytes at `pos`.
fn read_u32_at(v: &Vec<u8>, pos: usize) -> (r: u32)
    requires
        pos + 4 <= v@.len(),
    ensures
        r == dec32(v@.subrange(pos as int, pos + 4)),
{
    // Calling len binds the vector's length to a usize, which bounds the
    // index arithmetic below.
    let _n = v.len();
    let r: u32 = (v[pos] as u32) * 0x1000000 + (v[pos + 1] as u32) * 0x10000 + (v[pos + 2] as u32)
        * 256 + (v[pos + 3] as u32);
    proof {
        assert(v@.subrange(pos as int, pos + 4)[0] == v@[pos as int]);
        assert(v@.subrange(pos as int, pos + 4)[1] == v@[pos + 1]);
        assert(v@.subrange(pos as int, pos + 4)[2] == v@[pos + 2]);
        assert(v@.subrange(pos as int, pos + 4)[3] == v@[pos + 3]);
    }
    r
}

/// Examine the six header bytes of a PDU: the type byte and the declared
/// payload length. A declared length above the given maximum is
/// `PDUTooLarge`; a header of any other size is `InvalidPDU`.
pub fn read_pdu_header(header: &Vec<u8>, max_pdu_length: u32) -> (r: Result<(u8, u32), Error>)
    ensures
        header@.len() != 6 ==> r == Err::<(u8, u32), Error>(Error::InvalidPDU),
        header@.len() == 6 && dec32(header@.subrange(2, 6)) > max_pdu_length ==> r == Err::<
            (u8, u32),
            Error,
        >(Error::PDUTooLarge),
        header@.len() == 6 && dec32(header@.subrange(2, 6)) <= max_pdu_length ==> r == Ok::<
            (u8, u32),
            Error,
        >((header@[0], dec32(header@.subrange(2, 6)) as u32)),
{
    if header.len() != 6 {
        return Err(Error::InvalidPDU);
    }
    let length = read_u32_at(header, 2);
    if length > max_pdu_length {
        return Err(Error::PDUTooLarge);
    }
    Ok((header[0], length))
}

/// The PDVs a P-DATA payload decodes to, or nothing where the framing is
/// broken: each PDV is its item length, the context identifier, the
/// message control header, and the payload the length covers.
pub open spec fn dec_pdvs(b: Seq<u8>) -> Option<Seq<PDataValueView>>
    decreases b.len(),
{
    if b.len() == 0 {
        Some(Seq::empty())
    } else if b.len() < 6 {
        None
    } else {
        let l = dec32(b.subrange(0, 4));
        if l < 2 || b.len() < 4 + l {
            None
        } else {
            let v = PDataValueView {
                presentation_context_id: b[4],
                value_type: if b[5] % 2 == 1 {
                    PDataValueType::Command
                } else {
                    PDataValueType::Data
                },
                is_last: (b[5] / 2) % 2 == 1,
                data: b.subrange(6, 4 + l),
            };
            match dec_pdvs(b.skip(4 + l)) {
                Some(rest) => Some(seq![v] + rest),
                None => None,
            }
        }
    }
}

/// Decoding inverts encoding for a PDV stream: the canonical bytes of a
/// list of well-formed PDVs decode to exactly that list.
pub proof fn lemma_dec_enc_pdvs(l: Seq<PDataValueView>, i: int)
    requires
        0 <= i <= l.len(),
        forall|k: int| 0 <= k < l.len() ==> wf_pdv(#[trigger] l[k]),
    ensures
        dec_pdvs(enc_pdvs_from(l, i)) == Some(l.skip(i)),
    decreases l.len() - i,
{
    if i == l.len() {
        assert(enc_pdvs_from(l, i) =~= Seq::<u8>::empty());
        assert(l.skip(i) =~= Seq::<PDataValueView>::empty());
    } else {
        lemma_dec_enc_pdvs(l, i + 1);
        let b = enc_pdvs_from(l, i);
        let v = l[i];
        let e = enc_pdv(v);
        assert(b == e + enc_pdvs_from(l, i + 1));
        assert(e.len() == 6 + v.data.len());
        lemma_dec32_be32((v.data.len() + 2) as u32);
        assert(b.subrange(0, 4) =~= be32((v.data.len() + 2) as u32));
        let l32 = dec32(b.subrange(0, 4));
        assert(l32 == v.data.len() + 2);
        assert(b[4] == v.presentation_context_id);
        assert(b[5] == mch_byte(v));
        assert(b.subrange(6, 4 + l32) =~= v.data);
        assert(b.skip(4 + l32) =~= enc_pdvs_from(l, i + 1));
        let d = PDataValueView {
            presentation_context_id: b[4],
            value_type: if b[5] % 2 == 1 {
                PDataValueType::Command
            } else {
                PDataValueType::Data
            },
            is_last: (b[5] / 2) % 2 == 1,
            data: b.subrange(6, 4 + l32),
        };
        assert(d =~= v);
        assert(seq![v] + l.skip(i + 1) =~= l.skip(i));
    }
}

/// Parse the payload of a P-DATA PDU into its PDVs, exactly as
/// `dec_pdvs` reads them.
#[verifier::loop_isolation(false)]
fn parse_pdvs(payload: &Vec<u8>) -> (r: Result<Vec<PDataValue>, Error>)
    ensures
        match dec_pdvs(payload@) {
            Some(l) => r matches Ok(v) && v.deep_view() == l,
            None => r == Err::<Vec<PDataValue>, Error>(Error::InvalidPDU),
        },
{
    let mut out: Vec<PDataValue> = Vec::new();
    let mut pos: usize = 0;
    proof {
        assert(payload@.skip(0) =~= payload@);
        assert(out.deep_view() =~= Seq::<PDataValueView>::empty());
        match dec_pdvs(payload@) {
            Some(all) => {
                assert(out.deep_view() + all =~= all);
            },
            None => {},
        }
    }
    while pos < payload.len()
        invariant
            pos <= payload.len(),
            match dec_pdvs(payload@.skip(pos as int)) {
                Some(rest) => dec_pdvs(payload@) matches Some(all) && all == out.deep_view()
                    + rest,
                None => dec_pdvs(payload@) is None,
            },
        decreases payload.len() - pos,
    {
        let ghost tail = payload@.skip(pos as int);
        if payload.len() - pos < 6 {
            proof {
                assert(dec_pdvs(tail) is None);
            }
            return Err(Error::InvalidPDU);
        }
        let item_len = read_u32_at(payload, pos);
        proof {
            assert(tail.subrange(0, 4) =~= payload@.subrange(pos as int, pos + 4));
        }
        if item_len < 2 || (payload.len() - pos - 4) < (item_len as usize) {
            proof {
                assert(dec_pdvs(tail) is None);
            }
            return Err(Error::InvalidPDU);
        }
        let data_len: usize = (item_len as usize) - 2;
        let cid = payload[pos + 4];
        let mch = payload[pos + 5];
        let data = copy_range(payload, pos + 6, pos + 6 + data_len);
        let value = PDataValue {
            presentation_context_id: cid,
            value_type: if mch % 2 == 1 {
                PDataValueType::Command
            } else {
                PDataValueType::Data
            },
            is_last: (mch / 2) % 2 == 1,
            data,
        };
        let ghost pre = out.deep_view();
        proof {
            assert(tail[4] == payload@[pos + 4]);
            assert(tail[5] == payload@[pos + 5]);
            assert(tail.subrange(6, 4 + item_len as int) =~= payload@.subrange(
                pos + 6,
                pos + 6 + data_len,
            ));
            assert(value@ =~= (match dec_pdvs(tail) {
                Some(_) => PDataValueView {
                    presentation_context_id: tail[4],
                    value_type: if tail[5] % 2 == 1 {
                        PDataValueType::Command
                    } else {
                        PDataValueType::Data
                    },
                    is_last: (tail[5] / 2) % 2 == 1,
                    data: tail.subrange(6, 4 + dec32(tail.subrange(0, 4))),
                },
                None => value@,
            }));
        }
        out.push(value);
        proof {
            assert(out.deep_view() =~= pre.push(value@));
            assert(payload@.skip(pos + 6 + data_len) =~= tail.skip(4 + item_len as int));
            match dec_pdvs(tail) {
                Some(rest) => {
                    match dec_pdvs(tail.skip(4 + item_len as int)) {
                        Some(rest2) => {
                            assert(rest == seq![value@] + rest2);
                            assert(out.deep_view() + rest2 =~= pre + rest);
                        },
                        None => {},
                    }
                },
                None => {},
            }
        }
        pos = pos + 6 + data_len;
    }
    proof {
        assert(payload@.skip(payload.len() as int) =~= Seq::<u8>::empty());
        assert(out.deep_view() + Seq::<PDataValueView>::empty() =~= out.deep_view());
    }
    Ok(out)
}

/// Parse the payload of an A-ASSOCIATE-RJ PDU. Every well-formed
/// rejection's encoding parses back to the same rejection.
fn parse_rj_payload(payload: &Vec<u8>) -> (r: Result<AssociateRJContainer, Error>)
    ensures
        forall|q: AssociateRJContainer|
            wf_rj(q) && payload@ == enc_rj_payload(q) ==> r == Ok::<AssociateRJContainer, Error>(
                q,
            ),
{
    if payload.len() != 4 {
        return Err(Error::InvalidPDU);
    }
    let result = match payload[1] {
        1 => AssociationRJResult::Permanent,
        2 => AssociationRJResult::Transient,
        _ => {
            return Err(Error::InvalidPDU);
        },
    };
    let reason = payload[3];
    let source = match payload[2] {
        1 => AssociationRJSource::ServiceUser(
            match reason {
                1 => AssociationRJServiceUserReason::NoReasonGiven,
                2 => AssociationRJServiceUserReason::ApplicationContextNameNotSupported,
                3 => AssociationRJServiceUserReason::CallingAETitleNotRecognized,
                7 => AssociationRJServiceUserReason::CalledAETitleNotRecognized,
                b => AssociationRJServiceUserReason::Reserved(b),
            },
        ),
        2 => AssociationRJSource::ServiceProviderASCE(
            match reason {
                1 => AssociationRJServiceProviderASCEReason::NoReasonGiven,
                2 => AssociationRJServiceProviderASCEReason::ProtocolVersionNotSupported,
                _ => {
                    return Err(Error::InvalidPDU);
                },
            },
        ),
        3 => AssociationRJSource::ServiceProviderPresentation(
            match reason {
                1 => AssociationRJServiceProviderPresentationReason::TemporaryCongestion,
                2 => AssociationRJServiceProviderPresentationReason::LocalLimitExceeded,
                b => AssociationRJServiceProviderPresentationReason::Reserved(b),
            },
        ),
        _ => {
            return Err(Error::InvalidPDU);
        },
    };
    Ok(AssociateRJContainer { result, source })
}

/// Parse the payload of an A-ABORT PDU. Every abort's encoding parses
/// back to the same abort.
fn parse_abort_payload(payload: &Vec<u8>) -> (r: Result<AbortRQContainer, Error>)
    ensures
        forall|q: AbortRQContainer|
            payload@ == enc_abort_payload(q) ==> r == Ok::<AbortRQContainer, Error>(q),
{
    if payload.len() != 4 {
        return Err(Error::InvalidPDU);
    }
    let source = match payload[2] {
        0 => AbortRQSource::ServiceUser,
        1 => AbortRQSource::Reserved,
        2 => AbortRQSource::ServiceProvider(
            match payload[3] {
                0 => AbortRQServiceProviderReason::ReasonNotSpecifiedUnrecognizedPDU,
                1 => AbortRQServiceProviderReason::UnexpectedPDU,
                2 => AbortRQServiceProviderReason::Reserved,
                3 => AbortRQServiceProviderReason::UnrecognizedPDUParameter,
                4 => AbortRQServiceProviderReason::UnexpectedPDUParameter,
                5 => AbortRQServiceProviderReason::InvalidPDUParameter,
                _ => {
                    return Err(Error::InvalidPDU);
                },
            },
        ),
        _ => {
            return Err(Error::InvalidPDU);
        },
    };
    Ok(AbortRQContainer { source })
}

/// The byte string without its trailing spaces.
pub open spec fn trim_spaces(s: Seq<u8>) -> Seq<u8>
    decreases s.len(),
{
    if s.len() > 0 && s[s.len() - 1] == 32 {
        trim_spaces(s.drop_last())
    } else {
        s
    }
}

/// Drop trailing spaces from a byte string.
fn trim_trailing_spaces(input: Vec<u8>) -> (r: Vec<u8>)
    ensures
        r@ == trim_spaces(input@),
{
    let ghost orig = input@;
    let mut v = input;
    loop
        invariant
            trim_spaces(v@) == trim_spaces(orig),
        ensures
            v@.len() == 0 || v@[v@.len() - 1] != 32,
            trim_spaces(v@) == trim_spaces(orig),
        decreases v@.len(),
    {
        let n = v.len();
        if n == 0 {
            break;
        }
        if v[n - 1] != 32 {
            break;
        }
        let ghost pre = v@;
        v.pop();
        proof {
            assert(v@ =~= pre.drop_last());
        }
    }
    proof {
        assert(trim_spaces(v@) == v@);
    }
    v
}


/// The abstract syntax and transfer syntaxes the sub-items of a proposed
/// presentation context decode to, the last abstract syntax winning, or
/// nothing where the framing is broken or no abstract syntax appears.
pub open spec fn dec_pc_subitems(
    b: Seq<u8>,
    cur: Option<Seq<u8>>,
    ts: Seq<Seq<u8>>,
) -> Option<(Seq<u8>, Seq<Seq<u8>>)>
    decreases b.len(),
{
    if b.len() == 0 {
        match cur {
            Some(a) => Some((a, ts)),
            None => None,
        }
    } else if b.len() < 4 {
        None
    } else {
        let t = b[0];
        let l = dec16(b.subrange(2, 4));
        if b.len() < 4 + l {
            None
        } else if t == 0x30 {
            dec_pc_subitems(b.skip(4 + l), Some(b.subrange(4, 4 + l)), ts)
        } else if t == 0x40 {
            dec_pc_subitems(b.skip(4 + l), cur, ts.push(b.subrange(4, 4 + l)))
        } else {
            None
        }
    }
}

/// The proposed presentation context a context item body decodes to.
pub open spec fn dec_pc_body(b: Seq<u8>) -> Option<PresentationContextProposedView> {
    if b.len() < 4 {
        None
    } else {
        match dec_pc_subitems(b.skip(4), None, Seq::empty()) {
            Some(p) => Some(
                PresentationContextProposedView {
                    id: b[0],
                    abstract_syntax: p.0,
                    transfer_syntaxes: p.1,
                },
            ),
            None => None,
        }
    }
}

/// Decoding inverts encoding for the transfer syntax sub-items, whatever
/// abstract syntax and transfer syntaxes have been taken in so far.
pub proof fn lemma_dec_enc_pc_subitems(a: Seq<u8>, l: Seq<Seq<u8>>, i: int, acc: Seq<Seq<u8>>)
    requires
        0 <= i <= l.len(),
        forall|k: int| 0 <= k < l.len() ==> (#[trigger] l[k]).len() <= 0xFFFF,
    ensures
        dec_pc_subitems(enc_transfer_syntaxes_from(l, i), Some(a), acc) == Some(
            (a, acc + l.skip(i)),
        ),
    decreases l.len() - i,
{
    if i == l.len() {
        assert(enc_transfer_syntaxes_from(l, i) =~= Seq::<u8>::empty());
        assert(acc + l.skip(i) =~= acc);
    } else {
        lemma_dec_enc_pc_subitems(a, l, i + 1, acc.push(l[i]));
        let b = enc_transfer_syntaxes_from(l, i);
        let e = enc_transfer_syntax(l[i]);
        assert(b == e + enc_transfer_syntaxes_from(l, i + 1));
        assert(e.len() == 4 + l[i].len());
        lemma_dec16_be16(l[i].len() as u16);
        assert(b.subrange(2, 4) =~= be16(l[i].len() as u16));
        assert(b[0] == 0x40);
        assert(b.subrange(4, 4 + l[i].len() as int) =~= l[i]);
        assert(b.skip(4 + l[i].len() as int) =~= enc_transfer_syntaxes_from(l, i + 1));
        assert(acc.push(l[i]) + l.skip(i + 1) =~= acc + l.skip(i));
    }
}

/// Decoding inverts encoding for a proposed presentation context body.
pub proof fn lemma_dec_enc_pc_body(p: PresentationContextProposedView)
    requires
        wf_pc_proposed(p),
    ensures
        dec_pc_body(enc_pc_proposed_body(p)) == Some(p),
{
    let b = enc_pc_proposed_body(p);
    let a = p.abstract_syntax;
    let rest = b.skip(4);
    assert(rest =~= enc_abstract_syntax(a) + enc_transfer_syntaxes_from(p.transfer_syntaxes, 0));
    assert(b[0] == p.id);
    lemma_dec16_be16(a.len() as u16);
    assert(rest.subrange(2, 4) =~= be16(a.len() as u16));
    assert(rest[0] == 0x30);
    assert(rest.subrange(4, 4 + a.len() as int) =~= a);
    assert(rest.skip(4 + a.len() as int) =~= enc_transfer_syntaxes_from(p.transfer_syntaxes, 0));
    lemma_dec_enc_pc_subitems(a, p.transfer_syntaxes, 0, Seq::empty());
    assert(Seq::<Seq<u8>>::empty() + p.transfer_syntaxes.skip(0) =~= p.transfer_syntaxes);
}

/// The reason a result byte stands for, where it names one.
pub open spec fn dec_reason_byte(b: u8) -> Option<PresentationContextResultReason> {
    if b == 0 {
        Some(PresentationContextResultReason::Acceptance)
    } else if b == 1 {
        Some(PresentationContextResultReason::UserRejection)
    } else if b == 2 {
        Some(PresentationContextResultReason::NoReason)
    } else if b == 3 {
        Some(PresentationContextResultReason::AbstractSyntaxNotSupported)
    } else if b == 4 {
        Some(PresentationContextResultReason::TransferSyntaxesNotSupported)
    } else {
        None
    }
}

/// The transfer syntax the sub-items of a result context decode to, the
/// last one winning; an empty body leaves it empty.
pub open spec fn dec_pcr_subitems(b: Seq<u8>, ts: Seq<u8>) -> Option<Seq<u8>>
    decreases b.len(),
{
    if b.len() == 0 {
        Some(ts)
    } else if b.len() < 4 {
        None
    } else {
        let t = b[0];
        let l = dec16(b.subrange(2, 4));
        if b.len() < 4 + l {
            None
        } else if t == 0x40 {
            dec_pcr_subitems(b.skip(4 + l), b.subrange(4, 4 + l))
        } else {
            None
        }
    }
}

/// The result context a result item body decodes to.
pub open spec fn dec_pcr_body(b: Seq<u8>) -> Option<PresentationContextResultView> {
    if b.len() < 4 {
        None
    } else {
        match (dec_reason_byte(b[2]), dec_pcr_subitems(b.skip(4), Seq::empty())) {
            (Some(reason), Some(ts)) => Some(
                PresentationContextResultView { id: b[0], reason, transfer_syntax: ts },
            ),
            _ => None,
        }
    }
}

/// Decoding inverts encoding for a result context body.
pub proof fn lemma_dec_enc_pcr_body(p: PresentationContextResultView)
    requires
        wf_pc_result(p),
    ensures
        dec_pcr_body(enc_pc_result_body(p)) == Some(p),
{
    let b = enc_pc_result_body(p);
    let t = p.transfer_syntax;
    let rest = b.skip(4);
    assert(rest =~= enc_transfer_syntax(t));
    assert(b[0] == p.id);
    assert(b[2] == reason_byte(p.reason));
    assert(dec_reason_byte(reason_byte(p.reason)) == Some(p.reason));
    lemma_dec16_be16(t.len() as u16);
    assert(rest.subrange(2, 4) =~= be16(t.len() as u16));
    assert(rest[0] == 0x40);
    assert(rest.subrange(4, 4 + t.len() as int) =~= t);
    assert(rest.skip(4 + t.len() as int) =~= Seq::<u8>::empty());
    assert(dec_pcr_subitems(rest.skip(4 + t.len() as int), rest.subrange(4, 4 + t.len() as int))
        == Some(t));
    assert(dec_pcr_subitems(rest, Seq::empty()) == Some(t));
    assert(dec_pcr_body(b) matches Some(q) && q =~= p);
}

/// Parse the body of a proposed presentation context item: the context
/// identifier, the abstract syntax sub-item, and the transfer syntax
/// sub-items in order.
#[verifier::loop_isolation(false)]
fn parse_pc_proposed_body(body: &Vec<u8>) -> (r: Result<PresentationContextProposed, Error>)
    ensures
        match dec_pc_body(body@) {
            Some(p) => r matches Ok(c) && c@ == p,
            None => r == Err::<PresentationContextProposed, Error>(Error::InvalidPDU),
        },
{
    if body.len() < 4 {
        return Err(Error::InvalidPDU);
    }
    let id = body[0];
    let mut abstract_syntax: Vec<u8> = Vec::new();
    let mut seen_abstract = false;
    let mut transfer_syntaxes: Vec<Vec<u8>> = Vec::new();
    let mut pos: usize = 4;
    proof {
        assert(transfer_syntaxes.deep_view() =~= Seq::<Seq<u8>>::empty());
    }
    while pos < body.len()
        invariant
            4 <= pos <= body@.len(),
            dec_pc_subitems(
                body@.skip(pos as int),
                if seen_abstract {
                    Some(abstract_syntax@)
                } else {
                    None
                },
                transfer_syntaxes.deep_view(),
            ) == dec_pc_subitems(body@.skip(4), None, Seq::empty()),
        decreases body@.len() - pos,
    {
        let ghost tail = body@.skip(pos as int);
        if body.len() - pos < 4 {
            proof {
                assert(dec_pc_subitems(
                    tail,
                    if seen_abstract {
                        Some(abstract_syntax@)
                    } else {
                        None
                    },
                    transfer_syntaxes.deep_view(),
                ) is None);
            }
            return Err(Error::InvalidPDU);
        }
        let t = body[pos];
        let l16 = read_u16_at(body, pos + 2) as usize;
        proof {
            assert(tail[0] == body@[pos as int]);
            assert(tail.subrange(2, 4) =~= body@.subrange(pos + 2, pos + 4));
        }
        if body.len() - pos - 4 < l16 {
            return Err(Error::InvalidPDU);
        }
        let sub = copy_range(body, pos + 4, pos + 4 + l16);
        proof {
            assert(tail.subrange(4, 4 + l16 as int) =~= body@.subrange(pos + 4, pos + 4 + l16));
            assert(body@.skip(pos + 4 + l16) =~= tail.skip(4 + l16 as int));
        }
        let ghost pre_ts = transfer_syntaxes.deep_view();
        match t {
            0x30 => {
                abstract_syntax = sub;
                seen_abstract = true;
            },
            0x40 => {
                transfer_syntaxes.push(sub);
                proof {
                    assert(transfer_syntaxes.deep_view() =~= pre_ts.push(
                        tail.subrange(4, 4 + l16 as int),
                    ));
                }
            },
            _ => {
                return Err(Error::InvalidPDU);
            },
        }
        pos = pos + 4 + l16;
    }
    proof {
        assert(body@.skip(body.len() as int) =~= Seq::<u8>::empty());
    }
    if !seen_abstract {
        return Err(Error::InvalidPDU);
    }
    Ok(PresentationContextProposed { id, abstract_syntax, transfer_syntaxes })
}

/// Parse the body of a presentation context result item: the context
/// identifier, the result byte, and the chosen transfer syntax sub-item.
#[verifier::loop_isolation(false)]
fn parse_pc_result_body(body: &Vec<u8>) -> (r: Result<PresentationContextResult, Error>)
    ensures
        match dec_pcr_body(body@) {
            Some(p) => r matches Ok(c) && c@ == p,
            None => r == Err::<PresentationContextResult, Error>(Error::InvalidPDU),
        },
{
    if body.len() < 4 {
        return Err(Error::InvalidPDU);
    }
    let id = body[0];
    let reason = match body[2] {
        0 => PresentationContextResultReason::Acceptance,
        1 => PresentationContextResultReason::UserRejection,
        2 => PresentationContextResultReason::NoReason,
        3 => PresentationContextResultReason::AbstractSyntaxNotSupported,
        4 => PresentationContextResultReason::TransferSyntaxesNotSupported,
        _ => {
            return Err(Error::InvalidPDU);
        },
    };
    let mut transfer_syntax: Vec<u8> = Vec::new();
    let mut pos: usize = 4;
    proof {
        assert(transfer_syntax@ =~= Seq::<u8>::empty());
    }
    while pos < body.len()
        invariant
            4 <= pos <= body@.len(),
            dec_pcr_subitems(body@.skip(pos as int), transfer_syntax@) == dec_pcr_subitems(
                body@.skip(4),
                Seq::empty(),
            ),
        decreases body@.len() - pos,
    {
        let ghost tail = body@.skip(pos as int);
        if body.len() - pos < 4 {
            return Err(Error::InvalidPDU);
        }
        let t = body[pos];
        let l16 = read_u16_at(body, pos + 2) as usize;
        proof {
            assert(tail[0] == body@[pos as int]);
            assert(tail.subrange(2, 4) =~= body@.subrange(pos + 2, pos + 4));
        }
        if body.len() - pos - 4 < l16 {
            return Err(Error::InvalidPDU);
        }
        let sub = copy_range(body, pos + 4, pos + 4 + l16);
        proof {
            assert(tail.subrange(4, 4 + l16 as int) =~= body@.subrange(pos + 4, pos + 4 + l16));
            assert(body@.skip(pos + 4 + l16) =~= tail.skip(4 + l16 as int));
        }
        match t {
            0x40 => {
                transfer_syntax = sub;
            },
            _ => {
                return Err(Error::InvalidPDU);
            },
        }
        pos = pos + 4 + l16;
    }
    proof {
        assert(body@.skip(body.len() as int) =~= Seq::<u8>::empty());
    }
    Ok(PresentationContextResult { id, reason, transfer_syntax })
}


/// The user information sub-items a byte string decodes to, or nothing
/// where the framing is broken; a sub-item of an unknown type keeps only
/// its type byte, and a maximum-length sub-item must carry four bytes.
pub open spec fn dec_user_items(b: Seq<u8>) -> Option<Seq<UserVariableItemView>>
    decreases b.len(),
{
    if b.len() == 0 {
        Some(Seq::empty())
    } else if b.len() < 4 {
        None
    } else {
        let t = b[0];
        let l = dec16(b.subrange(2, 4));
        if b.len() < 4 + l {
            None
        } else if t == 0x51 && l != 4 {
            None
        } else {
            let item = if t == 0x51 {
                UserVariableItemView::MaxLength(dec32(b.subrange(4, 8)) as u32)
            } else if t == 0x52 {
                UserVariableItemView::ImplementationClassUID(b.subrange(4, 4 + l))
            } else if t == 0x55 {
                UserVariableItemView::ImplementationVersionName(b.subrange(4, 4 + l))
            } else {
                UserVariableItemView::Unknown(t)
            };
            match dec_user_items(b.skip(4 + l)) {
                Some(rest) => Some(seq![item] + rest),
                None => None,
            }
        }
    }
}

/// Two big-endian bytes carry their value back.
pub proof fn lemma_dec16_be16(x: u16)
    ensures
        dec16(be16(x)) == x,
{
}

/// Decoding inverts encoding for the user information sub-items.
pub proof fn lemma_dec_enc_user_items(l: Seq<UserVariableItemView>, i: int)
    requires
        0 <= i <= l.len(),
        forall|k: int| 0 <= k < l.len() ==> wf_user_item(#[trigger] l[k]),
    ensures
        dec_user_items(enc_user_items_from(l, i)) == Some(l.skip(i)),
    decreases l.len() - i,
{
    if i == l.len() {
        assert(enc_user_items_from(l, i) =~= Seq::<u8>::empty());
        assert(l.skip(i) =~= Seq::<UserVariableItemView>::empty());
    } else {
        lemma_dec_enc_user_items(l, i + 1);
        let b = enc_user_items_from(l, i);
        let v = l[i];
        let e = enc_user_item(v);
        let body_len: int = match v {
            UserVariableItemView::Unknown(_) => 0,
            UserVariableItemView::MaxLength(_) => 4,
            UserVariableItemView::ImplementationClassUID(u) => u.len() as int,
            UserVariableItemView::ImplementationVersionName(n) => n.len() as int,
        };
        assert(b == e + enc_user_items_from(l, i + 1));
        assert(e.len() == 4 + body_len) by {
            match v {
                UserVariableItemView::Unknown(t) => {
                    assert(e =~= enc_item16(t, Seq::empty()));
                },
                _ => {},
            }
        }
        lemma_dec16_be16(body_len as u16);
        assert(b.subrange(2, 4) =~= be16(body_len as u16));
        assert(dec16(b.subrange(2, 4)) == body_len);
        match v {
            UserVariableItemView::Unknown(t) => {
                assert(b[0] == t);
                assert(t != 0x51 && t != 0x52 && t != 0x55);
            },
            UserVariableItemView::MaxLength(m) => {
                lemma_dec32_be32(m);
                assert(b.subrange(4, 8) =~= be32(m));
            },
            UserVariableItemView::ImplementationClassUID(u) => {
                assert(b.subrange(4, 4 + body_len) =~= u);
            },
            UserVariableItemView::ImplementationVersionName(n) => {
                assert(b.subrange(4, 4 + body_len) =~= n);
            },
        }
        assert(b.skip(4 + body_len) =~= enc_user_items_from(l, i + 1));
        assert(seq![v] + l.skip(i + 1) =~= l.skip(i));
    }
}

/// Parse the body of a user information item into its sub-items; a
/// sub-item of an unknown type keeps only its type byte.
#[verifier::loop_isolation(false)]
fn parse_user_items(body: &Vec<u8>) -> (r: Result<Vec<UserVariableItem>, Error>)
    ensures
        match dec_user_items(body@) {
            Some(l) => r matches Ok(v) && v.deep_view() == l,
            None => r == Err::<Vec<UserVariableItem>, Error>(Error::InvalidPDU),
        },
{
    let mut items: Vec<UserVariableItem> = Vec::new();
    let mut pos: usize = 0;
    proof {
        assert(body@.skip(0) =~= body@);
        assert(items.deep_view() =~= Seq::<UserVariableItemView>::empty());
        match dec_user_items(body@) {
            Some(all) => {
                assert(items.deep_view() + all =~= all);
            },
            None => {},
        }
    }
    while pos < body.len()
        invariant
            pos <= body@.len(),
            match dec_user_items(body@.skip(pos as int)) {
                Some(rest) => dec_user_items(body@) matches Some(all) && all == items.deep_view()
                    + rest,
                None => dec_user_items(body@) is None,
            },
        decreases body@.len() - pos,
    {
        let ghost tail = body@.skip(pos as int);
        if body.len() - pos < 4 {
            proof {
                assert(dec_user_items(tail) is None);
            }
            return Err(Error::InvalidPDU);
        }
        let t = body[pos];
        let l16 = read_u16_at(body, pos + 2) as usize;
        proof {
            assert(tail[0] == body@[pos as int]);
            assert(tail.subrange(2, 4) =~= body@.subrange(pos + 2, pos + 4));
        }
        if body.len() - pos - 4 < l16 {
            proof {
                assert(dec_user_items(tail) is None);
            }
            return Err(Error::InvalidPDU);
        }
        let ghost pre = items.deep_view();
        match t {
            0x51 => {
                if l16 != 4 {
                    proof {
                        assert(dec_user_items(tail) is None);
                    }
                    return Err(Error::InvalidPDU);
                }
                items.push(UserVariableItem::MaxLength(read_u32_at(body, pos + 4)));
                proof {
                    assert(tail.subrange(4, 8) =~= body@.subrange(pos + 4, pos + 8));
                }
            },
            0x52 => {
                items.push(
                    UserVariableItem::ImplementationClassUID(
                        copy_range(body, pos + 4, pos + 4 + l16),
                    ),
                );
                proof {
                    assert(tail.subrange(4, 4 + l16 as int) =~= body@.subrange(
                        pos + 4,
                        pos + 4 + l16,
                    ));
                }
            },
            0x55 => {
                items.push(
                    UserVariableItem::ImplementationVersionName(
                        copy_range(body, pos + 4, pos + 4 + l16),
                    ),
                );
                proof {
                    assert(tail.subrange(4, 4 + l16 as int) =~= body@.subrange(
                        pos + 4,
                        pos + 4 + l16,
                    ));
                }
            },
            _ => {
                items.push(UserVariableItem::Unknown(t));
            },
        }
        proof {
            assert(items.deep_view() =~= pre.push(items@[items@.len() - 1]@));
            assert(body@.skip(pos + 4 + l16) =~= tail.skip(4 + l16 as int));
            match dec_user_items(tail) {
                Some(rest) => {
                    match dec_user_items(tail.skip(4 + l16 as int)) {
                        Some(rest2) => {
                            assert(items.deep_view() + rest2 =~= pre + rest);
                        },
                        None => {},
                    }
                },
                None => {},
            }
        }
        pos = pos + 4 + l16;
    }
    proof {
        assert(body@.skip(body.len() as int) =~= Seq::<u8>::empty());
        assert(items.deep_view() + Seq::<UserVariableItemView>::empty() =~= items.deep_view());
    }
    Ok(items)
}


/// The application context name, proposed contexts and user variables the
/// variable items of an A-ASSOCIATE-RQ payload decode to, later items of
/// the same kind winning, or nothing where an item is broken or unknown.
pub open spec fn dec_rq_items(
    b: Seq<u8>,
    acn: Seq<u8>,
    pcs: Seq<PresentationContextProposedView>,
    uvs: Seq<UserVariableItemView>,
) -> Option<(Seq<u8>, Seq<PresentationContextProposedView>, Seq<UserVariableItemView>)>
    decreases b.len(),
{
    if b.len() == 0 {
        Some((acn, pcs, uvs))
    } else if b.len() < 4 {
        None
    } else {
        let t = b[0];
        let l = dec16(b.subrange(2, 4));
        if b.len() < 4 + l {
            None
        } else {
            let sub = b.subrange(4, 4 + l);
            if t == 0x10 {
                dec_rq_items(b.skip(4 + l), sub, pcs, uvs)
            } else if t == 0x20 {
                match dec_pc_body(sub) {
                    Some(p) => dec_rq_items(b.skip(4 + l), acn, pcs.push(p), uvs),
                    None => None,
                }
            } else if t == 0x50 {
                match dec_user_items(sub) {
                    Some(l2) => dec_rq_items(b.skip(4 + l), acn, pcs, l2),
                    None => None,
                }
            } else {
                None
            }
        }
    }
}

/// The application context name, result contexts and user variables the
/// variable items of an A-ASSOCIATE-AC payload decode to.
pub open spec fn dec_ac_items(
    b: Seq<u8>,
    acn: Seq<u8>,
    pcs: Seq<PresentationContextResultView>,
    uvs: Seq<UserVariableItemView>,
) -> Option<(Seq<u8>, Seq<PresentationContextResultView>, Seq<UserVariableItemView>)>
    decreases b.len(),
{
    if b.len() == 0 {
        Some((acn, pcs, uvs))
    } else if b.len() < 4 {
        None
    } else {
        let t = b[0];
        let l = dec16(b.subrange(2, 4));
        if b.len() < 4 + l {
            None
        } else {
            let sub = b.subrange(4, 4 + l);
            if t == 0x10 {
                dec_ac_items(b.skip(4 + l), sub, pcs, uvs)
            } else if t == 0x21 {
                match dec_pcr_body(sub) {
                    Some(p) => dec_ac_items(b.skip(4 + l), acn, pcs.push(p), uvs),
                    None => None,
                }
            } else if t == 0x50 {
                match dec_user_items(sub) {
                    Some(l2) => dec_ac_items(b.skip(4 + l), acn, pcs, l2),
                    None => None,
                }
            } else {
                None
            }
        }
    }
}

/// Decoding inverts encoding for the canonical tail of an RQ item stream:
/// the proposed context items from `i` on followed by the user
/// information item.
#[verifier::rlimit(50)]
pub proof fn lemma_dec_enc_rq_items(
    l: Seq<PresentationContextProposedView>,
    i: int,
    uv: Seq<UserVariableItemView>,
    acn: Seq<u8>,
    pcs: Seq<PresentationContextProposedView>,
    uvs: Seq<UserVariableItemView>,
)
    requires
        0 <= i <= l.len(),
        forall|k: int| 0 <= k < l.len() ==> wf_pc_proposed(#[trigger] l[k]),
        forall|k: int| 0 <= k < uv.len() ==> wf_user_item(#[trigger] uv[k]),
        enc_user_items_from(uv, 0).len() <= 0xFFFF,
    ensures
        dec_rq_items(enc_pcs_proposed_from(l, i) + enc_user_info(uv), acn, pcs, uvs) == Some(
            (acn, pcs + l.skip(i), uv),
        ),
    decreases l.len() - i,
{
    if i == l.len() {
        let b = enc_pcs_proposed_from(l, i) + enc_user_info(uv);
        assert(b =~= enc_user_info(uv));
        let items = enc_user_items_from(uv, 0);
        lemma_dec16_be16(items.len() as u16);
        assert(b.subrange(2, 4) =~= be16(items.len() as u16));
        assert(b[0] == 0x50);
        assert(b.subrange(4, 4 + items.len() as int) =~= items);
        lemma_dec_enc_user_items(uv, 0);
        assert(uv.skip(0) =~= uv);
        assert(b.skip(4 + items.len() as int) =~= Seq::<u8>::empty());
        assert(dec_rq_items(b.skip(4 + items.len() as int), acn, pcs, uv) == Some(
            (acn, pcs, uv),
        ));
        assert(pcs + l.skip(i) =~= pcs);
    } else {
        lemma_dec_enc_rq_items(l, i + 1, uv, acn, pcs.push(l[i]), uvs);
        let b = enc_pcs_proposed_from(l, i) + enc_user_info(uv);
        let body = enc_pc_proposed_body(l[i]);
        assert(b =~= enc_pc_proposed(l[i]) + (enc_pcs_proposed_from(l, i + 1) + enc_user_info(
            uv,
        )));
        lemma_dec16_be16(body.len() as u16);
        assert(b.subrange(2, 4) =~= be16(body.len() as u16));
        assert(b[0] == 0x20);
        assert(b.subrange(4, 4 + body.len() as int) =~= body);
        lemma_dec_enc_pc_body(l[i]);
        assert(b.skip(4 + body.len() as int) =~= enc_pcs_proposed_from(l, i + 1) + enc_user_info(
            uv,
        ));
        assert(pcs.push(l[i]) + l.skip(i + 1) =~= pcs + l.skip(i));
    }
}

/// Decoding inverts encoding for the canonical tail of an AC item stream.
#[verifier::rlimit(50)]
pub proof fn lemma_dec_enc_ac_items(
    l: Seq<PresentationContextResultView>,
    i: int,
    uv: Seq<UserVariableItemView>,
    acn: Seq<u8>,
    pcs: Seq<PresentationContextResultView>,
    uvs: Seq<UserVariableItemView>,
)
    requires
        0 <= i <= l.len(),
        forall|k: int| 0 <= k < l.len() ==> wf_pc_result(#[trigger] l[k]),
        forall|k: int| 0 <= k < uv.len() ==> wf_user_item(#[trigger] uv[k]),
        enc_user_items_from(uv, 0).len() <= 0xFFFF,
    ensures
        dec_ac_items(enc_pcs_result_from(l, i) + enc_user_info(uv), acn, pcs, uvs) == Some(
            (acn, pcs + l.skip(i), uv),
        ),
    decreases l.len() - i,
{
    if i == l.len() {
        let b = enc_pcs_result_from(l, i) + enc_user_info(uv);
        assert(b =~= enc_user_info(uv));
        let items = enc_user_items_from(uv, 0);
        lemma_dec16_be16(items.len() as u16);
        assert(b.subrange(2, 4) =~= be16(items.len() as u16));
        assert(b[0] == 0x50);
        assert(b.subrange(4, 4 + items.len() as int) =~= items);
        lemma_dec_enc_user_items(uv, 0);
        assert(uv.skip(0) =~= uv);
        assert(b.skip(4 + items.len() as int) =~= Seq::<u8>::empty());
        assert(dec_ac_items(b.skip(4 + items.len() as int), acn, pcs, uv) == Some(
            (acn, pcs, uv),
        ));
        assert(pcs + l.skip(i) =~= pcs);
    } else {
        lemma_dec_enc_ac_items(l, i + 1, uv, acn, pcs.push(l[i]), uvs);
        let b = enc_pcs_result_from(l, i) + enc_user_info(uv);
        let body = enc_pc_result_body(l[i]);
        assert(b =~= enc_pc_result(l[i]) + (enc_pcs_result_from(l, i + 1) + enc_user_info(uv)));
        lemma_dec16_be16(body.len() as u16);
        assert(b.subrange(2, 4) =~= be16(body.len() as u16));
        assert(b[0] == 0x21);
        assert(b.subrange(4, 4 + body.len() as int) =~= body);
        lemma_dec_enc_pcr_body(l[i]);
        assert(b.skip(4 + body.len() as int) =~= enc_pcs_result_from(l, i + 1) + enc_user_info(
            uv,
        ));
        assert(pcs.push(l[i]) + l.skip(i + 1) =~= pcs + l.skip(i));
    }
}

/// Trimming undoes any amount of appended space padding as long as the
/// string itself does not end in a space.
pub proof fn lemma_trim_append_spaces(s: Seq<u8>, k: nat)
    requires
        s.len() == 0 || s[s.len() - 1] != 32,
    ensures
        trim_spaces(s + Seq::new(k, |j: int| 32u8)) == s,
    decreases k,
{
    if k == 0 {
        assert(s + Seq::new(0, |j: int| 32u8) =~= s);
    } else {
        let t = s + Seq::new(k, |j: int| 32u8);
        assert(t[t.len() - 1] == 32);
        assert(t.drop_last() =~= s + Seq::new((k - 1) as nat, |j: int| 32u8));
        lemma_trim_append_spaces(s, (k - 1) as nat);
    }
}

/// Trimming undoes the padding of a well-formed application entity title.
pub proof fn lemma_trim_pad(s: Seq<u8>)
    requires
        crate::wire::wf_ae_title(s),
    ensures
        trim_spaces(crate::wire::pad_ae(s)) == s,
{
    lemma_trim_append_spaces(s, (16 - s.len()) as nat);
}

/// Parse the payload of an A-ASSOCIATE-RQ PDU: the protocol version, the
/// two application entity titles with their padding dropped, then the
/// variable items.
#[verifier::loop_isolation(false)]
fn parse_rq_payload(payload: &Vec<u8>) -> (r: Result<AssociateRQContainer, Error>)
    ensures
        payload@.len() < 68 ==> r == Err::<AssociateRQContainer, Error>(Error::InvalidPDU),
        payload@.len() >= 68 ==> (match dec_rq_items(
            payload@.skip(68),
            Seq::empty(),
            Seq::empty(),
            Seq::empty(),
        ) {
            Some(t) => (r matches Ok(c) && {
                &&& c@.protocol_version == dec16(payload@.subrange(0, 2))
                &&& c@.called_ae_title == trim_spaces(payload@.subrange(4, 20))
                &&& c@.calling_ae_title == trim_spaces(payload@.subrange(20, 36))
                &&& c@.application_context_name == t.0
                &&& c@.presentation_contexts == t.1
                &&& c@.user_variables == t.2
            }),
            None => r == Err::<AssociateRQContainer, Error>(Error::InvalidPDU),
        }),
{
    if payload.len() < 68 {
        return Err(Error::InvalidPDU);
    }
    let protocol_version = read_u16_at(payload, 0);
    let called_ae_title = trim_trailing_spaces(copy_range(payload, 4, 20));
    let calling_ae_title = trim_trailing_spaces(copy_range(payload, 20, 36));
    let mut application_context_name: Vec<u8> = Vec::new();
    let mut presentation_contexts: Vec<PresentationContextProposed> = Vec::new();
    let mut user_variables: Vec<UserVariableItem> = Vec::new();
    let mut pos: usize = 68;
    proof {
        assert(application_context_name@ =~= Seq::<u8>::empty());
        assert(presentation_contexts.deep_view() =~= Seq::<
            PresentationContextProposedView,
        >::empty());
        assert(user_variables.deep_view() =~= Seq::<UserVariableItemView>::empty());
    }
    while pos < payload.len()
        invariant
            68 <= pos <= payload@.len(),
            dec_rq_items(
                payload@.skip(pos as int),
                application_context_name@,
                presentation_contexts.deep_view(),
                user_variables.deep_view(),
            ) == dec_rq_items(payload@.skip(68), Seq::empty(), Seq::empty(), Seq::empty()),
        decreases payload@.len() - pos,
    {
        let ghost tail = payload@.skip(pos as int);
        if payload.len() - pos < 4 {
            return Err(Error::InvalidPDU);
        }
        let t = payload[pos];
        let l16 = read_u16_at(payload, pos + 2) as usize;
        proof {
            assert(tail[0] == payload@[pos as int]);
            assert(tail.subrange(2, 4) =~= payload@.subrange(pos + 2, pos + 4));
        }
        if payload.len() - pos - 4 < l16 {
            return Err(Error::InvalidPDU);
        }
        let body = copy_range(payload, pos + 4, pos + 4 + l16);
        proof {
            assert(tail.subrange(4, 4 + l16 as int) =~= payload@.subrange(
                pos + 4,
                pos + 4 + l16,
            ));
            assert(payload@.skip(pos + 4 + l16) =~= tail.skip(4 + l16 as int));
        }
        let ghost pre_pcs = presentation_contexts.deep_view();
        match t {
            0x10 => {
                application_context_name = body;
            },
            0x20 => {
                let pc = parse_pc_proposed_body(&body)?;
                presentation_contexts.push(pc);
                proof {
                    assert(presentation_contexts.deep_view() =~= pre_pcs.push(
                        presentation_contexts@[presentation_contexts@.len() - 1]@,
                    ));
                }
            },
            0x50 => {
                let items = parse_user_items(&body)?;
                user_variables = items;
            },
            _ => {
                return Err(Error::InvalidPDU);
            },
        }
        pos = pos + 4 + l16;
    }
    proof {
        assert(payload@.skip(payload.len() as int) =~= Seq::<u8>::empty());
        assert(payload@.subrange(0, 2) =~= payload@.subrange(0int, 2int));
        assert(payload@.subrange(4, 20) =~= payload@.subrange(4int, 20int));
        assert(payload@.subrange(20, 36) =~= payload@.subrange(20int, 36int));
    }
    Ok(
        AssociateRQContainer {
            protocol_version,
            calling_ae_title,
            called_ae_title,
            application_context_name,
            presentation_contexts,
            user_variables,
        },
    )
}

/// Parse the payload of an A-ASSOCIATE-AC PDU: the protocol version,
/// then the variable items with the presentation context results.
#[verifier::loop_isolation(false)]
fn parse_ac_payload(payload: &Vec<u8>) -> (r: Result<AssociateACContainer, Error>)
    ensures
        payload@.len() < 68 ==> r == Err::<AssociateACContainer, Error>(Error::InvalidPDU),
        payload@.len() >= 68 ==> (match dec_ac_items(
            payload@.skip(68),
            Seq::empty(),
            Seq::empty(),
            Seq::empty(),
        ) {
            Some(t) => (r matches Ok(c) && {
                &&& c@.protocol_version == dec16(payload@.subrange(0, 2))
                &&& c@.application_context_name == t.0
                &&& c@.presentation_contexts == t.1
                &&& c@.user_variables == t.2
            }),
            None => r == Err::<AssociateACContainer, Error>(Error::InvalidPDU),
        }),
{
    if payload.len() < 68 {
        return Err(Error::InvalidPDU);
    }
    let protocol_version = read_u16_at(payload, 0);
    let mut application_context_name: Vec<u8> = Vec::new();
    let mut presentation_contexts: Vec<PresentationContextResult> = Vec::new();
    let mut user_variables: Vec<UserVariableItem> = Vec::new();
    let mut pos: usize = 68;
    proof {
        assert(application_context_name@ =~= Seq::<u8>::empty());
        assert(presentation_contexts.deep_view() =~= Seq::<
            PresentationContextResultView,
        >::empty());
        assert(user_variables.deep_view() =~= Seq::<UserVariableItemView>::empty());
    }
    while pos < payload.len()
        invariant
            68 <= pos <= payload@.len(),
            dec_ac_items(
                payload@.skip(pos as int),
                application_context_name@,
                presentation_contexts.deep_view(),
                user_variables.deep_view(),
            ) == dec_ac_items(payload@.skip(68), Seq::empty(), Seq::empty(), Seq::empty()),
        decreases payload@.len() - pos,
    {
        let ghost tail = payload@.skip(pos as int);
        if payload.len() - pos < 4 {
            return Err(Error::InvalidPDU);
        }
        let t = payload[pos];
        let l16 = read_u16_at(payload, pos + 2) as usize;
        proof {
            assert(tail[0] == payload@[pos as int]);
            assert(tail.subrange(2, 4) =~= payload@.subrange(pos + 2, pos + 4));
        }
        if payload.len() - pos - 4 < l16 {
            return Err(Error::InvalidPDU);
        }
        let body = copy_range(payload, pos + 4, pos + 4 + l16);
        proof {
            assert(tail.subrange(4, 4 + l16 as int) =~= payload@.subrange(
                pos + 4,
                pos + 4 + l16,
            ));
            assert(payload@.skip(pos + 4 + l16) =~= tail.skip(4 + l16 as int));
        }
        let ghost pre_pcs = presentation_contexts.deep_view();
        match t {
            0x10 => {
                application_context_name = body;
            },
            0x21 => {
                let pc = parse_pc_result_body(&body)?;
                presentation_contexts.push(pc);
                proof {
                    assert(presentation_contexts.deep_view() =~= pre_pcs.push(
                        presentation_contexts@[presentation_contexts@.len() - 1]@,
                    ));
                }
            },
            0x50 => {
                let items = parse_user_items(&body)?;
                user_variables = items;
            },
            _ => {
                return Err(Error::InvalidPDU);
            },
        }
        pos = pos + 4 + l16;
    }
    proof {
        assert(payload@.skip(payload.len() as int) =~= Seq::<u8>::empty());
        assert(payload@.subrange(0, 2) =~= payload@.subrange(0int, 2int));
    }
    Ok(
        AssociateACContainer {
            protocol_version,
            application_context_name,
            presentation_contexts,
            user_variables,
        },
    )
}


/// What the payload of a well-formed A-ASSOCIATE-RQ encoding decodes to:
/// the fixed fields come back through their subranges and the items come
/// back exactly.
pub proof fn lemma_rq_payload_facts(q: PDUView, payload: Seq<u8>)
    requires
        wf_pdu(q),
        q is AssociationRQ,
        payload == enc_pdu_payload(q),
    ensures
        payload.len() >= 68,
        dec_rq_items(payload.skip(68), Seq::empty(), Seq::empty(), Seq::empty()) == Some(
            (
                q->AssociationRQ_0.application_context_name,
                q->AssociationRQ_0.presentation_contexts,
                q->AssociationRQ_0.user_variables,
            ),
        ),
        dec16(payload.subrange(0, 2)) == q->AssociationRQ_0.protocol_version,
        trim_spaces(payload.subrange(4, 20)) == q->AssociationRQ_0.called_ae_title,
        trim_spaces(payload.subrange(20, 36)) == q->AssociationRQ_0.calling_ae_title,
{
    let c = q->AssociationRQ_0;
    let items = crate::wire::enc_app_context(c.application_context_name)
        + (enc_pcs_proposed_from(c.presentation_contexts, 0) + enc_user_info(c.user_variables));
    assert(payload.skip(68) =~= items);
    lemma_dec16_be16(c.application_context_name.len() as u16);
    assert(items.subrange(2, 4) =~= be16(c.application_context_name.len() as u16));
    assert(items[0] == 0x10);
    assert(items.subrange(4, 4 + c.application_context_name.len() as int)
        =~= c.application_context_name);
    assert(items.skip(4 + c.application_context_name.len() as int) =~= enc_pcs_proposed_from(
        c.presentation_contexts,
        0,
    ) + enc_user_info(c.user_variables));
    lemma_dec_enc_rq_items(
        c.presentation_contexts,
        0,
        c.user_variables,
        c.application_context_name,
        Seq::empty(),
        Seq::empty(),
    );
    assert(Seq::<PresentationContextProposedView>::empty() + c.presentation_contexts.skip(0)
        =~= c.presentation_contexts);
    lemma_dec16_be16(c.protocol_version);
    assert(payload.subrange(0, 2) =~= be16(c.protocol_version));
    assert(payload.subrange(4, 20) =~= crate::wire::pad_ae(c.called_ae_title));
    assert(payload.subrange(20, 36) =~= crate::wire::pad_ae(c.calling_ae_title));
    lemma_trim_pad(c.called_ae_title);
    lemma_trim_pad(c.calling_ae_title);
}

/// What the payload of a well-formed A-ASSOCIATE-AC encoding decodes to.
pub proof fn lemma_ac_payload_facts(q: PDUView, payload: Seq<u8>)
    requires
        wf_pdu(q),
        q is AssociationAC,
        payload == enc_pdu_payload(q),
    ensures
        payload.len() >= 68,
        dec_ac_items(payload.skip(68), Seq::empty(), Seq::empty(), Seq::empty()) == Some(
            (
                q->AssociationAC_0.application_context_name,
                q->AssociationAC_0.presentation_contexts,
                q->AssociationAC_0.user_variables,
            ),
        ),
        dec16(payload.subrange(0, 2)) == q->AssociationAC_0.protocol_version,
{
    let c = q->AssociationAC_0;
    let items = crate::wire::enc_app_context(c.application_context_name)
        + (enc_pcs_result_from(c.presentation_contexts, 0) + enc_user_info(c.user_variables));
    assert(payload.skip(68) =~= items);
    lemma_dec16_be16(c.application_context_name.len() as u16);
    assert(items.subrange(2, 4) =~= be16(c.application_context_name.len() as u16));
    assert(items[0] == 0x10);
    assert(items.subrange(4, 4 + c.application_context_name.len() as int)
        =~= c.application_context_name);
    assert(items.skip(4 + c.application_context_name.len() as int) =~= enc_pcs_result_from(
        c.presentation_contexts,
        0,
    ) + enc_user_info(c.user_variables));
    lemma_dec_enc_ac_items(
        c.presentation_contexts,
        0,
        c.user_variables,
        c.application_context_name,
        Seq::empty(),
        Seq::empty(),
    );
    assert(Seq::<PresentationContextResultView>::empty() + c.presentation_contexts.skip(0)
        =~= c.presentation_contexts);
    lemma_dec16_be16(c.protocol_version);
    assert(payload.subrange(0, 2) =~= be16(c.protocol_version));
}

/// Whether a byte string is one exactly framed PDU: the six header bytes
/// are present, the declared length fits the maximum, and the buffer
/// holds exactly the declared payload.
pub open spec fn well_framed(bytes: Seq<u8>, max_pdu_length: u32) -> bool {
    &&& bytes.len() >= 6
    &&& dec32(bytes.subrange(2, 6)) <= max_pdu_length
    &&& bytes.len() - 6 == dec32(bytes.subrange(2, 6))
}

/// The payload of an exactly framed PDU: everything after the header.
pub open spec fn framed_payload(bytes: Seq<u8>) -> Seq<u8> {
    bytes.subrange(6, bytes.len() as int)
}

/// Parse one complete PDU from its wire bytes, header included.
///
/// A declared payload length above `max_pdu_length` is `PDUTooLarge`;
/// other framing faults are `InvalidPDU`. Parsing inverts serialisation:
/// for every well-formed PDU other than the two association PDUs whose
/// payload fits the maximum, the encoding parses back to that very PDU.
#[verifier::loop_isolation(false)]
#[verifier::rlimit(60)]
pub fn read_pdu(bytes: &Vec<u8>, max_pdu_length: u32) -> (r: Result<PDU, Error>)
    ensures
        bytes@.len() < 6 ==> r == Err::<PDU, Error>(Error::InvalidPDU),
        bytes@.len() >= 6 && dec32(bytes@.subrange(2, 6)) > max_pdu_length ==> r == Err::<
            PDU,
            Error,
        >(Error::PDUTooLarge),
        bytes@.len() >= 6 && dec32(bytes@.subrange(2, 6)) <= max_pdu_length && bytes@.len() - 6
            != dec32(bytes@.subrange(2, 6)) ==> r == Err::<PDU, Error>(Error::InvalidPDU),
        well_framed(bytes@, max_pdu_length) && bytes@[0] == 0x01 && (framed_payload(
            bytes@,
        ).len() < 68 || dec_rq_items(
            framed_payload(bytes@).skip(68),
            Seq::empty(),
            Seq::empty(),
            Seq::empty(),
        ) is None) ==> r == Err::<PDU, Error>(Error::InvalidPDU),
        well_framed(bytes@, max_pdu_length) && bytes@[0] == 0x02 && (framed_payload(
            bytes@,
        ).len() < 68 || dec_ac_items(
            framed_payload(bytes@).skip(68),
            Seq::empty(),
            Seq::empty(),
            Seq::empty(),
        ) is None) ==> r == Err::<PDU, Error>(Error::InvalidPDU),
        well_framed(bytes@, max_pdu_length) && bytes@[0] == 0x04 && dec_pdvs(framed_payload(
            bytes@,
        )) is None ==> r == Err::<PDU, Error>(Error::InvalidPDU),
        forall|q: PDUView|
            wf_pdu(q) && enc_pdu_payload(q).len() <= max_pdu_length && bytes@ == enc_pdu(q)
                ==> (r matches Ok(p) && p@ == q),
{
    if bytes.len() < 6 {
        return Err(Error::InvalidPDU);
    }
    let t = bytes[0];
    let declared = read_u32_at(bytes, 2);
    proof {
        assert(bytes@.subrange(2int, 6int) =~= bytes@.subrange(2int, 2 + 4int));
    }
    if declared > max_pdu_length {
        return Err(Error::PDUTooLarge);
    }
    if (bytes.len() - 6) as u64 != declared as u64 {
        return Err(Error::InvalidPDU);
    }
    let payload = copy_range(bytes, 6, bytes.len());
    proof {
        assert forall|q: PDUView| wf_pdu(q) && bytes@ == enc_pdu(q) implies payload@
            == enc_pdu_payload(q) && t == pdu_type_byte(q) by {
            assert(payload@ =~= enc_pdu_payload(q));
        }
    }
    match t {
        0x01 => {
            proof {
                assert forall|q: PDUView|
                    wf_pdu(q) && bytes@ == enc_pdu(q) && q is AssociationRQ implies {
                    &&& payload@.len() >= 68
                    &&& dec_rq_items(
                        payload@.skip(68),
                        Seq::empty(),
                        Seq::empty(),
                        Seq::empty(),
                    ) == Some(
                        (
                            q->AssociationRQ_0.application_context_name,
                            q->AssociationRQ_0.presentation_contexts,
                            q->AssociationRQ_0.user_variables,
                        ),
                    )
                    &&& dec16(payload@.subrange(0, 2)) == q->AssociationRQ_0.protocol_version
                    &&& trim_spaces(payload@.subrange(4, 20)) == q->AssociationRQ_0.called_ae_title
                    &&& trim_spaces(payload@.subrange(20, 36))
                        == q->AssociationRQ_0.calling_ae_title
                } by {
                    lemma_rq_payload_facts(q, payload@);
                }
            }
            let parsed = parse_rq_payload(&payload)?;
            proof {
                assert forall|q: PDUView|
                    wf_pdu(q) && bytes@ == enc_pdu(q) && q is AssociationRQ implies parsed@
                    == q->AssociationRQ_0 by {
                    assert(parsed@ =~= q->AssociationRQ_0);
                }
            }
            Ok(PDU::AssociationRQ(parsed))
        },
        0x02 => {
            proof {
                assert forall|q: PDUView|
                    wf_pdu(q) && bytes@ == enc_pdu(q) && q is AssociationAC implies {
                    &&& payload@.len() >= 68
                    &&& dec_ac_items(
                        payload@.skip(68),
                        Seq::empty(),
                        Seq::empty(),
                        Seq::empty(),
                    ) == Some(
                        (
                            q->AssociationAC_0.application_context_name,
                            q->AssociationAC_0.presentation_contexts,
                            q->AssociationAC_0.user_variables,
                        ),
                    )
                    &&& dec16(payload@.subrange(0, 2)) == q->AssociationAC_0.protocol_version
                } by {
                    lemma_ac_payload_facts(q, payload@);
                }
            }
            let parsed = parse_ac_payload(&payload)?;
            proof {
                assert forall|q: PDUView|
                    wf_pdu(q) && bytes@ == enc_pdu(q) && q is AssociationAC implies parsed@
                    == q->AssociationAC_0 by {
                    assert(parsed@ =~= q->AssociationAC_0);
                }
            }
            Ok(PDU::AssociationAC(parsed))
        },
        0x03 => {
            let rj = parse_rj_payload(&payload)?;
            Ok(PDU::AssociationRJ(rj))
        },
        0x04 => {
            proof {
                assert forall|q: PDUView|
                    wf_pdu(q) && bytes@ == enc_pdu(q) && q is PData implies dec_pdvs(payload@)
                    == Some(q->PData_0.data) by {
                    lemma_dec_enc_pdvs(q->PData_0.data, 0);
                    assert(q->PData_0.data.skip(0) =~= q->PData_0.data);
                }
            }
            let v = parse_pdvs(&payload)?;
            Ok(PDU::PData(PDataContainer { data: v }))
        },
        0x05 => {
            Ok(PDU::ReleaseRQ)
        },
        0x06 => {
            Ok(PDU::ReleaseRP)
        },
        0x07 => {
            let a = parse_abort_payload(&payload)?;
            Ok(PDU::AbortRQ(a))
        },
        _ => {
            Ok(PDU::Unknown(UnknownContainer { pdu_type: t, data: payload }))
        },
    }
}

} // verus!
