use vstd::prelude::*;
use crate::error::Error;
use crate::pdu::{
    AssociateACContainer, AssociateRQContainer, PDataValue, PresentationContextProposed,
    PresentationContextResult, UserVariableItem, PDU,
};
use crate::wire::{
    abort_reason_byte, be16, be32, enc_abort_payload, enc_ac_payload, enc_item16,
    enc_pc_proposed, enc_pc_proposed_body, enc_pc_result, enc_pc_result_body,
    enc_pcs_proposed_from, enc_pcs_result_from, enc_pdu, enc_pdv, enc_pdvs_from, enc_rj_payload,
    enc_rq_payload, enc_transfer_syntax, enc_transfer_syntaxes_from, enc_user_info,
    enc_user_item, enc_user_items_from, mch_byte, pad_ae, reason_byte, rj_reason_byte,
    wf_pc_proposed, wf_pc_result, wf_pdu, wf_user_item, zeros,
};

verus! {

broadcast use crate::pdu::lemma_bytes_deep_view;

/// Append a 16-bit integer, big-endian.
pub fn push_u16_be(out: &mut Vec<u8>, x: u16)
    ensures
        final(out)@ == old(out)@ + be16(x),
{
    out.push((x / 256) as u8);
    out.push((x % 256) as u8);
    proof {
        assert(out@ =~= old(out)@ + be16(x));
    }
}

/// Append a 32-bit integer, big-endian.
pub fn push_u32_be(out: &mut Vec<u8>, x: u32)
    ensures
        final(out)@ == old(out)@ + be32(x),
{
    out.push((x / 0x1000000) as u8);
    out.push(((x / 0x10000) % 256) as u8);
    out.push(((x / 256) % 256) as u8);
    out.push((x % 256) as u8);
    proof {
        assert(out@ =~= old(out)@ + be32(x));
    }
}

/// Append a chunk with its length ahead of it as two big-endian bytes:
/// the first two appended bytes, read big-endian, equal the byte length
/// of the body.
pub fn write_chunk_u16(out: &mut Vec<u8>, body: &Vec<u8>) -> (r: Result<(), Error>)
    ensures
        body@.len() <= 0xFFFF ==> r is Ok && final(out)@ == old(out)@ + be16(
            body@.len() as u16,
        ) + body@,
        body@.len() > 0xFFFF ==> r == Err::<(), Error>(Error::InvalidPDU) && final(out)@ == old(
            out,
        )@,
{
    if body.len() > 0xFFFF {
        return Err(Error::InvalidPDU);
    }
    push_u16_be(out, body.len() as u16);
    out.extend_from_slice(body.as_slice());
    Ok(())
}

/// Append a chunk with its length ahead of it as four big-endian bytes:
/// the first four appended bytes, read big-endian, equal the byte length
/// of the body.
pub fn write_chunk_u32(out: &mut Vec<u8>, body: &Vec<u8>) -> (r: Result<(), Error>)
    ensures
        body@.len() <= 0xFFFF_FFFF ==> r is Ok && final(out)@ == old(out)@ + be32(
            body@.len() as u32,
        ) + body@,
        body@.len() > 0xFFFF_FFFF ==> r == Err::<(), Error>(Error::InvalidPDU) && final(out)@
            == old(out)@,
{
    if body.len() as u64 > 0xFFFF_FFFFu64 {
        return Err(Error::InvalidPDU);
    }
    push_u32_be(out, body.len() as u32);
    out.extend_from_slice(body.as_slice());
    Ok(())
}

/// Append a sub-item: type byte, reserved byte, length, body.
fn write_item16(out: &mut Vec<u8>, t: u8, body: &Vec<u8>)
    requires
        body@.len() <= 0xFFFF,
    ensures
        final(out)@ == old(out)@ + enc_item16(t, body@),
{
    out.push(t);
    out.push(0);
    push_u16_be(out, body.len() as u16);
    out.extend_from_slice(body.as_slice());
    proof {
        assert(out@ =~= old(out)@ + enc_item16(t, body@));
    }
}

/// Append an application entity title padded with spaces to sixteen bytes.
fn write_ae_padded(out: &mut Vec<u8>, s: &Vec<u8>)
    requires
        s@.len() <= 16,
    ensures
        final(out)@ == old(out)@ + pad_ae(s@),
{
    out.extend_from_slice(s.as_slice());
    let mut j: usize = s.len();
    while j < 16
        invariant
            s@.len() <= j <= 16,
            out@ == old(out)@ + s@ + Seq::new((j - s@.len()) as nat, |k: int| 32u8),
        decreases 16 - j,
    {
        out.push(32);
        proof {
            assert(out@ =~= old(out)@ + s@ + Seq::new((j + 1 - s@.len()) as nat, |k: int| 32u8));
        }
        j += 1;
    }
    proof {
        assert(out@ =~= old(out)@ + pad_ae(s@));
    }
}

/// Append a run of zero bytes.
fn write_zeros(out: &mut Vec<u8>, n: usize)
    ensures
        final(out)@ == old(out)@ + zeros(n as nat),
{
    let mut j: usize = 0;
    while j < n
        invariant
            j <= n,
            out@ == old(out)@ + zeros(j as nat),
        decreases n - j,
    {
        out.push(0);
        proof {
            assert(out@ =~= old(out)@ + zeros((j + 1) as nat));
        }
        j += 1;
    }
}

/// Append the transfer syntax sub-items in order.
fn write_transfer_syntaxes(out: &mut Vec<u8>, l: &Vec<Vec<u8>>)
    requires
        forall|i: int| 0 <= i < l@.len() ==> (#[trigger] l@[i])@.len() <= 0xFFFF,
    ensures
        final(out)@ == old(out)@ + enc_transfer_syntaxes_from(l.deep_view(), 0),
{
    let ghost dv = l.deep_view();
    let mut i: usize = 0;
    while i < l.len()
        invariant
            i <= l.len(),
            dv == l.deep_view(),
            forall|k: int| 0 <= k < l@.len() ==> (#[trigger] l@[k])@.len() <= 0xFFFF,
            out@ + enc_transfer_syntaxes_from(dv, i as int) == old(out)@
                + enc_transfer_syntaxes_from(dv, 0),
        decreases l.len() - i,
    {
        let ghost pre = out@;
        write_item16(out, 0x40, &l[i]);
        proof {
            assert(dv[i as int] == l@[i as int]@);
            assert(out@ =~= pre + enc_transfer_syntax(dv[i as int]));
            assert(out@ + enc_transfer_syntaxes_from(dv, i + 1) =~= pre
                + enc_transfer_syntaxes_from(dv, i as int));
        }
        i += 1;
    }
    proof {
        assert(out@ =~= out@ + enc_transfer_syntaxes_from(dv, l@.len() as int));
    }
}

/// The body of one proposed presentation context item.
fn build_pc_proposed_body(p: &PresentationContextProposed) -> (r: Result<Vec<u8>, Error>)
    ensures
        wf_pc_proposed(p@) ==> r is Ok,
        r matches Ok(b) ==> b@ == enc_pc_proposed_body(p@),
{
    if p.abstract_syntax.len() > 0xFFFF {
        return Err(Error::InvalidPDU);
    }
    let mut i: usize = 0;
    while i < p.transfer_syntaxes.len()
        invariant
            i <= p.transfer_syntaxes.len(),
            forall|k: int|
                0 <= k < i ==> (#[trigger] p.transfer_syntaxes@[k])@.len() <= 0xFFFF,
        decreases p.transfer_syntaxes.len() - i,
    {
        proof {
            assert(p@.transfer_syntaxes[i as int] == p.transfer_syntaxes@[i as int]@);
        }
        if p.transfer_syntaxes[i].len() > 0xFFFF {
            return Err(Error::InvalidPDU);
        }
        i += 1;
    }
    let mut body: Vec<u8> = Vec::new();
    body.push(p.id);
    body.push(0);
    body.push(0);
    body.push(0);
    proof {
        assert(body@ =~= seq![p.id, 0u8, 0u8, 0u8]);
    }
    write_item16(&mut body, 0x30, &p.abstract_syntax);
    write_transfer_syntaxes(&mut body, &p.transfer_syntaxes);
    proof {
        assert(body@ =~= enc_pc_proposed_body(p@));
    }
    Ok(body)
}

/// Append the proposed presentation context items in order.
fn write_pcs_proposed(out: &mut Vec<u8>, l: &Vec<PresentationContextProposed>) -> (r: Result<
    (),
    Error,
>)
    ensures
        (forall|i: int| 0 <= i < l.deep_view().len() ==> wf_pc_proposed(#[trigger] l.deep_view()[i]))
            ==> r is Ok,
        r is Ok ==> final(out)@ == old(out)@ + enc_pcs_proposed_from(l.deep_view(), 0),
{
    let ghost dv = l.deep_view();
    let mut i: usize = 0;
    while i < l.len()
        invariant
            i <= l.len(),
            dv == l.deep_view(),
            out@ + enc_pcs_proposed_from(dv, i as int) == old(out)@ + enc_pcs_proposed_from(
                dv,
                0,
            ),
        decreases l.len() - i,
    {
        let ghost pre = out@;
        let body = match build_pc_proposed_body(&l[i]) {
            Ok(b) => b,
            Err(e) => {
                return Err(e);
            },
        };
        if body.len() > 0xFFFF {
            return Err(Error::InvalidPDU);
        }
        write_item16(out, 0x20, &body);
        proof {
            assert(dv[i as int] == l@[i as int]@);
            assert(out@ =~= pre + enc_pc_proposed(dv[i as int]));
            assert(out@ + enc_pcs_proposed_from(dv, i + 1) =~= pre + enc_pcs_proposed_from(
                dv,
                i as int,
            ));
        }
        i += 1;
    }
    proof {
        assert(out@ =~= out@ + enc_pcs_proposed_from(dv, l@.len() as int));
    }
    Ok(())
}

/// Append the presentation context result items in order.
fn write_pcs_result(out: &mut Vec<u8>, l: &Vec<PresentationContextResult>) -> (r: Result<
    (),
    Error,
>)
    ensures
        (forall|i: int| 0 <= i < l.deep_view().len() ==> wf_pc_result(#[trigger] l.deep_view()[i]))
            ==> r is Ok,
        r is Ok ==> final(out)@ == old(out)@ + enc_pcs_result_from(l.deep_view(), 0),
{
    let ghost dv = l.deep_view();
    let mut i: usize = 0;
    while i < l.len()
        invariant
            i <= l.len(),
            dv == l.deep_view(),
            out@ + enc_pcs_result_from(dv, i as int) == old(out)@ + enc_pcs_result_from(dv, 0),
        decreases l.len() - i,
    {
        let ghost pre = out@;
        let pc = &l[i];
        if pc.transfer_syntax.len() > 0xFFFF {
            return Err(Error::InvalidPDU);
        }
        let mut body: Vec<u8> = Vec::new();
        body.push(pc.id);
        body.push(0);
        body.push(
            match pc.reason {
                crate::pdu::PresentationContextResultReason::Acceptance => 0,
                crate::pdu::PresentationContextResultReason::UserRejection => 1,
                crate::pdu::PresentationContextResultReason::NoReason => 2,
                crate::pdu::PresentationContextResultReason::AbstractSyntaxNotSupported => 3,
                crate::pdu::PresentationContextResultReason::TransferSyntaxesNotSupported => 4,
            },
        );
        body.push(0);
        proof {
            assert(body@ =~= seq![pc.id, 0u8, reason_byte(pc@.reason), 0u8]);
        }
        write_item16(&mut body, 0x40, &pc.transfer_syntax);
        proof {
            assert(body@ =~= enc_pc_result_body(dv[i as int]));
        }
        if body.len() > 0xFFFF {
            return Err(Error::InvalidPDU);
        }
        write_item16(out, 0x21, &body);
        proof {
            assert(out@ =~= pre + enc_pc_result(dv[i as int]));
            assert(out@ + enc_pcs_result_from(dv, i + 1) =~= pre + enc_pcs_result_from(
                dv,
                i as int,
            ));
        }
        i += 1;
    }
    proof {
        assert(out@ =~= out@ + enc_pcs_result_from(dv, l@.len() as int));
    }
    Ok(())
}

/// Append the user information item with its sub-items in order.
fn write_user_info(out: &mut Vec<u8>, l: &Vec<UserVariableItem>) -> (r: Result<(), Error>)
    ensures
        ((forall|i: int|
            0 <= i < l.deep_view().len() ==> wf_user_item(#[trigger] l.deep_view()[i]))
            && enc_user_items_from(l.deep_view(), 0).len() <= 0xFFFF) ==> r is Ok,
        r is Ok ==> final(out)@ == old(out)@ + enc_user_info(l.deep_view()),
{
    let ghost dv = l.deep_view();
    let mut body: Vec<u8> = Vec::new();
    let mut i: usize = 0;
    while i < l.len()
        invariant
            i <= l.len(),
            dv == l.deep_view(),
            body@ + enc_user_items_from(dv, i as int) == enc_user_items_from(dv, 0),
        decreases l.len() - i,
    {
        let ghost pre = body@;
        match &l[i] {
            UserVariableItem::Unknown(t) => {
                let empty: Vec<u8> = Vec::new();
                write_item16(&mut body, *t, &empty);
            },
            UserVariableItem::MaxLength(m) => {
                let mut mbody: Vec<u8> = Vec::new();
                push_u32_be(&mut mbody, *m);
                proof {
                    assert(mbody@ =~= be32(*m));
                }
                write_item16(&mut body, 0x51, &mbody);
            },
            UserVariableItem::ImplementationClassUID(s) => {
                if s.len() > 0xFFFF {
                    return Err(Error::InvalidPDU);
                }
                write_item16(&mut body, 0x52, s);
            },
            UserVariableItem::ImplementationVersionName(s) => {
                if s.len() > 0xFFFF {
                    return Err(Error::InvalidPDU);
                }
                write_item16(&mut body, 0x55, s);
            },
        }
        proof {
            assert(dv[i as int] == l@[i as int]@);
            assert(body@ =~= pre + enc_user_item(dv[i as int]));
            assert(body@ + enc_user_items_from(dv, i + 1) =~= pre + enc_user_items_from(
                dv,
                i as int,
            ));
        }
        i += 1;
    }
    proof {
        assert(body@ =~= body@ + enc_user_items_from(dv, l@.len() as int));
        assert(body@ =~= enc_user_items_from(dv, 0));
    }
    if body.len() > 0xFFFF {
        return Err(Error::InvalidPDU);
    }
    write_item16(out, 0x50, &body);
    Ok(())
}

/// Serialise one PDU into its wire form: the six header bytes followed by
/// the payload. A PDU whose strings or items cannot fit the wire's length
/// fields is `InvalidPDU`; a well-formed PDU always serialises, and the
/// output is exactly its encoding.
#[verifier::loop_isolation(false)]
pub fn write_pdu(pdu: &PDU) -> (r: Result<Vec<u8>, Error>)
    ensures
        wf_pdu(pdu@) ==> r is Ok,
        r matches Ok(b) ==> b@ == enc_pdu(pdu@),
{
    let mut payload: Vec<u8> = Vec::new();
    let type_byte: u8;
    match pdu {
        PDU::AssociationRQ(rq) => {
            type_byte = 0x01;
            if rq.calling_ae_title.len() > 16 || rq.called_ae_title.len() > 16 {
                return Err(Error::InvalidPDU);
            }
            if rq.application_context_name.len() > 0xFFFF {
                return Err(Error::InvalidPDU);
            }
            push_u16_be(&mut payload, rq.protocol_version);
            write_zeros(&mut payload, 2);
            write_ae_padded(&mut payload, &rq.called_ae_title);
            write_ae_padded(&mut payload, &rq.calling_ae_title);
            write_zeros(&mut payload, 32);
            write_item16(&mut payload, 0x10, &rq.application_context_name);
            write_pcs_proposed(&mut payload, &rq.presentation_contexts)?;
            write_user_info(&mut payload, &rq.user_variables)?;
            proof {
                assert(payload@ =~= enc_rq_payload(rq@));
            }
        },
        PDU::AssociationAC(ac) => {
            type_byte = 0x02;
            if ac.application_context_name.len() > 0xFFFF {
                return Err(Error::InvalidPDU);
            }
            push_u16_be(&mut payload, ac.protocol_version);
            write_zeros(&mut payload, 2);
            write_zeros(&mut payload, 64);
            write_item16(&mut payload, 0x10, &ac.application_context_name);
            write_pcs_result(&mut payload, &ac.presentation_contexts)?;
            write_user_info(&mut payload, &ac.user_variables)?;
            proof {
                assert(payload@ =~= enc_ac_payload(ac@));
            }
        },
        PDU::AssociationRJ(rj) => {
            type_byte = 0x03;
            payload.push(0);
            payload.push(
                match rj.result {
                    crate::pdu::AssociationRJResult::Permanent => 1,
                    crate::pdu::AssociationRJResult::Transient => 2,
                },
            );
            payload.push(
                match rj.source {
                    crate::pdu::AssociationRJSource::ServiceUser(_) => 1,
                    crate::pdu::AssociationRJSource::ServiceProviderASCE(_) => 2,
                    crate::pdu::AssociationRJSource::ServiceProviderPresentation(_) => 3,
                },
            );
            payload.push(rj_reason_byte_exec(rj.source));
            proof {
                assert(payload@ =~= enc_rj_payload(*rj));
            }
        },
        PDU::PData(d) => {
            type_byte = 0x04;
            let ghost dv = d.data.deep_view();
            let mut i: usize = 0;
            while i < d.data.len()
                invariant
                    i <= d.data.len(),
                    dv == d.data.deep_view(),
                    payload@ + enc_pdvs_from(dv, i as int) == enc_pdvs_from(dv, 0),
                decreases d.data.len() - i,
            {
                let ghost pre = payload@;
                let v = &d.data[i];
                proof {
                    assert(dv[i as int] == d.data@[i as int]@);
                }
                if v.data.len() as u64 > 0xFFFF_FFFDu64 {
                    return Err(Error::InvalidPDU);
                }
                push_u32_be(&mut payload, (v.data.len() as u32) + 2);
                payload.push(v.presentation_context_id);
                payload.push(mch_byte_exec(v));
                payload.extend_from_slice(v.data.as_slice());
                proof {
                    assert(dv[i as int] == d.data@[i as int]@);
                    assert(payload@ =~= pre + enc_pdv(dv[i as int]));
                    assert(payload@ + enc_pdvs_from(dv, i + 1) =~= pre + enc_pdvs_from(
                        dv,
                        i as int,
                    ));
                }
                i += 1;
            }
            proof {
                assert(payload@ =~= payload@ + enc_pdvs_from(dv, d.data@.len() as int));
                assert(payload@ =~= enc_pdvs_from(dv, 0));
            }
        },
        PDU::ReleaseRQ => {
            type_byte = 0x05;
            write_zeros(&mut payload, 4);
        },
        PDU::ReleaseRP => {
            type_byte = 0x06;
            write_zeros(&mut payload, 4);
        },
        PDU::AbortRQ(a) => {
            type_byte = 0x07;
            payload.push(0);
            payload.push(0);
            payload.push(
                match a.source {
                    crate::pdu::AbortRQSource::ServiceUser => 0,
                    crate::pdu::AbortRQSource::Reserved => 1,
                    crate::pdu::AbortRQSource::ServiceProvider(_) => 2,
                },
            );
            payload.push(abort_reason_byte_exec(a.source));
            proof {
                assert(payload@ =~= enc_abort_payload(*a));
            }
        },
        PDU::Unknown(u) => {
            type_byte = u.pdu_type;
            payload.extend_from_slice(u.data.as_slice());
            proof {
                assert(payload@ =~= u.data@);
            }
        },
    }
    if payload.len() as u64 > 0xFFFF_FFFFu64 {
        return Err(Error::InvalidPDU);
    }
    let mut out: Vec<u8> = Vec::new();
    out.push(type_byte);
    out.push(0);
    push_u32_be(&mut out, payload.len() as u32);
    out.extend_from_slice(payload.as_slice());
    proof {
        assert(out@ =~= enc_pdu(pdu@));
    }
    Ok(out)
}

/// The reason byte of a rejection, as `rj_reason_byte` gives it.
fn rj_reason_byte_exec(s: crate::pdu::AssociationRJSource) -> (r: u8)
    ensures
        r == rj_reason_byte(s),
{
    match s {
        crate::pdu::AssociationRJSource::ServiceUser(reason) => match reason {
            crate::pdu::AssociationRJServiceUserReason::NoReasonGiven => 1,
            crate::pdu::AssociationRJServiceUserReason::ApplicationContextNameNotSupported => 2,
            crate::pdu::AssociationRJServiceUserReason::CallingAETitleNotRecognized => 3,
            crate::pdu::AssociationRJServiceUserReason::CalledAETitleNotRecognized => 7,
            crate::pdu::AssociationRJServiceUserReason::Reserved(b) => b,
        },
        crate::pdu::AssociationRJSource::ServiceProviderASCE(reason) => match reason {
            crate::pdu::AssociationRJServiceProviderASCEReason::NoReasonGiven => 1,
            crate::pdu::AssociationRJServiceProviderASCEReason::ProtocolVersionNotSupported => 2,
        },
        crate::pdu::AssociationRJSource::ServiceProviderPresentation(reason) => match reason {
            crate::pdu::AssociationRJServiceProviderPresentationReason::TemporaryCongestion => 1,
            crate::pdu::AssociationRJServiceProviderPresentationReason::LocalLimitExceeded => 2,
            crate::pdu::AssociationRJServiceProviderPresentationReason::Reserved(b) => b,
        },
    }
}

/// The message control header byte of a PDV, as `mch_byte` gives it.
fn mch_byte_exec(v: &PDataValue) -> (r: u8)
    ensures
        r == mch_byte(v@),
{
    match (v.value_type, v.is_last) {
        (crate::pdu::PDataValueType::Data, false) => 0,
        (crate::pdu::PDataValueType::Command, false) => 1,
        (crate::pdu::PDataValueType::Data, true) => 2,
        (crate::pdu::PDataValueType::Command, true) => 3,
    }
}

/// The reason byte of an abort, as `abort_reason_byte` gives it.
fn abort_reason_byte_exec(s: crate::pdu::AbortRQSource) -> (r: u8)
    ensures
        r == abort_reason_byte(s),
{
    match s {
        crate::pdu::AbortRQSource::ServiceProvider(reason) => match reason {
            crate::pdu::AbortRQServiceProviderReason::ReasonNotSpecifiedUnrecognizedPDU => 0,
            crate::pdu::AbortRQServiceProviderReason::UnexpectedPDU => 1,
            crate::pdu::AbortRQServiceProviderReason::Reserved => 2,
            crate::pdu::AbortRQServiceProviderReason::UnrecognizedPDUParameter => 3,
            crate::pdu::AbortRQServiceProviderReason::UnexpectedPDUParameter => 4,
            crate::pdu::AbortRQServiceProviderReason::InvalidPDUParameter => 5,
        },
        _ => 0,
    }
}

} // verus!
