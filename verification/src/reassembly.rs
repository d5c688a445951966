use vstd::prelude::*;
use crate::error::Error;
use crate::pdu::{PDataContainer, PDataValue, PDataValueType, PDataValueView};

verus! {

/// A command or data set being put back together from the presentation
/// data values of one application message. Every PDV must name the same
/// presentation context and carry the same value type; the one marked
/// `is_last` ends the message, and nothing may follow it.
#[derive(Debug)]
pub struct DataSetAssembly {
    pub expected_type: Option<PDataValueType>,
    pub bytes: Vec<u8>,
    pub value_type: Option<PDataValueType>,
    pub presentation_context_id: Option<u8>,
    pub seen_last: bool,
}

/// Mathematical model of an assembly in progress.
#[verifier::ext_equal]
pub ghost struct DataSetAssemblyView {
    pub expected_type: Option<PDataValueType>,
    pub bytes: Seq<u8>,
    pub value_type: Option<PDataValueType>,
    pub presentation_context_id: Option<u8>,
    pub seen_last: bool,
}

impl View for DataSetAssembly {
    type V = DataSetAssemblyView;

    open spec fn view(&self) -> DataSetAssemblyView {
        DataSetAssemblyView {
            expected_type: self.expected_type,
            bytes: self.bytes@,
            value_type: self.value_type,
            presentation_context_id: self.presentation_context_id,
            seen_last: self.seen_last,
        }
    }
}

/// One PDV applied to an assembly: the fragmentation rules, exactly.
/// A PDV after the last one is `InvalidPData`; a value type other than the
/// one the caller asked for is `UnexpectedPdvType`; a change of value type
/// or of presentation context within the message is `InvalidPData`.
/// Otherwise the payload is appended and the PDV's end mark is kept.
pub open spec fn pdv_step(st: DataSetAssemblyView, pdv: PDataValueView) -> Result<
    DataSetAssemblyView,
    Error,
> {
    if st.seen_last {
        Err(Error::InvalidPData)
    } else if st.expected_type matches Some(t) && pdv.value_type != t {
        Err(Error::UnexpectedPdvType)
    } else if st.value_type matches Some(t) && pdv.value_type != t {
        Err(Error::InvalidPData)
    } else if st.presentation_context_id matches Some(c) && pdv.presentation_context_id != c {
        Err(Error::InvalidPData)
    } else {
        Ok(
            DataSetAssemblyView {
                expected_type: st.expected_type,
                bytes: st.bytes + pdv.data,
                value_type: Some(pdv.value_type),
                presentation_context_id: Some(pdv.presentation_context_id),
                seen_last: pdv.is_last,
            },
        )
    }
}

/// The PDVs from position `i` on applied in order, stopping at the first
/// rule violation.
pub open spec fn pdvs_run(
    st: DataSetAssemblyView,
    pdvs: Seq<PDataValueView>,
    i: int,
) -> Result<DataSetAssemblyView, Error>
    decreases pdvs.len() - i,
{
    if i < 0 || i >= pdvs.len() {
        Ok(st)
    } else {
        match pdv_step(st, pdvs[i]) {
            Ok(st2) => pdvs_run(st2, pdvs, i + 1),
            Err(e) => Err(e),
        }
    }
}

impl DataSetAssembly {
    /// An empty assembly, optionally fixed to one value type.
    pub fn new(expected_type: Option<PDataValueType>) -> (r: DataSetAssembly)
        ensures
            r@ == (DataSetAssemblyView {
                expected_type: expected_type,
                bytes: Seq::<u8>::empty(),
                value_type: None,
                presentation_context_id: None,
                seen_last: false,
            }),
    {
        let r = DataSetAssembly {
            expected_type,
            bytes: Vec::new(),
            value_type: None,
            presentation_context_id: None,
            seen_last: false,
        };
        proof {
            assert(r@.bytes =~= Seq::<u8>::empty());
        }
        r
    }

    /// Whether the final PDV of the message has been taken in.
    pub fn is_complete(&self) -> (r: bool)
        ensures
            r == self@.seen_last,
    {
        self.seen_last
    }

    /// Take in every PDV of one P-DATA PDU, in order, applying `pdv_step`
    /// to each. On the first violation the error comes back and the
    /// assembly is not to be used further.
    #[verifier::loop_isolation(false)]
    pub fn push_pdata(&mut self, pdata: &PDataContainer) -> (r: Result<(), Error>)
        ensures
            match pdvs_run(old(self)@, pdata@.data, 0) {
                Ok(st) => r is Ok && final(self)@ == st,
                Err(e) => r == Err::<(), Error>(e),
            },
    {
        let mut i: usize = 0;
        while i < pdata.data.len()
            invariant
                i <= pdata.data.len(),
                self@.expected_type == old(self)@.expected_type,
                pdvs_run(old(self)@, pdata@.data, 0) == pdvs_run(self@, pdata@.data, i as int),
            decreases pdata.data.len() - i,
        {
            let ghost prev = self@;
            let pdv = &pdata.data[i];
            proof {
                assert(pdata@.data[i as int] == pdv@);
            }
            if self.seen_last {
                return Err(Error::InvalidPData);
            }
            match self.expected_type {
                Some(t) => {
                    if pdv.value_type != t {
                        return Err(Error::UnexpectedPdvType);
                    }
                },
                None => {},
            }
            match self.value_type {
                Some(t) => {
                    if pdv.value_type != t {
                        return Err(Error::InvalidPData);
                    }
                },
                None => {},
            }
            match self.presentation_context_id {
                Some(c) => {
                    if pdv.presentation_context_id != c {
                        return Err(Error::InvalidPData);
                    }
                },
                None => {},
            }
            self.bytes.extend_from_slice(pdv.data.as_slice());
            self.value_type = Some(pdv.value_type);
            self.presentation_context_id = Some(pdv.presentation_context_id);
            self.seen_last = pdv.is_last;
            proof {
                assert(pdv_step(prev, pdata@.data[i as int]) is Ok);
                assert(self@ =~= pdv_step(prev, pdata@.data[i as int]).unwrap());
            }
            i += 1;
        }
        Ok(())
    }

    /// Close the assembly: the presentation context identifier, the value
    /// type and the accumulated bytes of the complete message. A message
    /// that never carried a PDV, or whose end mark never arrived, is
    /// `InvalidPData`.
    pub fn finish(self) -> (r: Result<(u8, PDataValueType, Vec<u8>), Error>)
        ensures
            self@.seen_last && self@.value_type is Some && self@.presentation_context_id is Some
                ==> (match r {
                Ok(out) => out.0 == self@.presentation_context_id.unwrap() && out.1
                    == self@.value_type.unwrap() && out.2@ == self@.bytes,
                Err(_) => false,
            }),
            !(self@.seen_last && self@.value_type is Some
                && self@.presentation_context_id is Some) ==> r == Err::<
                (u8, PDataValueType, Vec<u8>),
                Error,
            >(Error::InvalidPData),
    {
        if !self.seen_last {
            return Err(Error::InvalidPData);
        }
        let vt = match self.value_type {
            Some(t) => t,
            None => {
                return Err(Error::InvalidPData);
            },
        };
        let cid = match self.presentation_context_id {
            Some(c) => c,
            None => {
                return Err(Error::InvalidPData);
            },
        };
        Ok((cid, vt, self.bytes))
    }
}


/// The payload bytes of a PDV list from position `i` on, concatenated.
pub open spec fn pdvs_payload(l: Seq<PDataValueView>, i: int) -> Seq<u8>
    decreases l.len() - i,
{
    if i < 0 || i >= l.len() {
        Seq::empty()
    } else {
        l[i].data + pdvs_payload(l, i + 1)
    }
}

/// Split one encoded command or data set into the PDVs that carry it:
/// every fragment is at most `max_fragment` bytes, every PDV names the
/// given presentation context and value type, and only the last one
/// carries the end mark. The fragments concatenate back to the input. A
/// fragment budget of zero is unusable (`InvalidMaxPDU`).
pub fn fragment_data_set(
    presentation_context_id: u8,
    value_type: PDataValueType,
    data: &Vec<u8>,
    max_fragment: usize,
) -> (r: Result<Vec<PDataValue>, Error>)
    ensures
        max_fragment == 0 ==> r == Err::<Vec<PDataValue>, Error>(Error::InvalidMaxPDU),
        max_fragment >= 1 ==> (r matches Ok(v) && {
            &&& v@.len() >= 1
            &&& pdvs_payload(v.deep_view(), 0) == data@
            &&& forall|i: int|
                0 <= i < v.deep_view().len() ==> {
                    &&& (#[trigger] v.deep_view()[i]).presentation_context_id
                        == presentation_context_id
                    &&& v.deep_view()[i].value_type == value_type
                    &&& v.deep_view()[i].data.len() <= max_fragment
                    &&& v.deep_view()[i].is_last == (i == v.deep_view().len() - 1)
                }
        }),
{
    if max_fragment == 0 {
        return Err(Error::InvalidMaxPDU);
    }
    let mut out: Vec<PDataValue> = Vec::new();
    let mut pos: usize = 0;
    proof {
        assert(out.deep_view() =~= Seq::<PDataValueView>::empty());
    }
    loop
        invariant_except_break
            forall|i: int|
                0 <= i < out.deep_view().len() ==> {
                    &&& (#[trigger] out.deep_view()[i]).presentation_context_id
                        == presentation_context_id
                    &&& out.deep_view()[i].value_type == value_type
                    &&& out.deep_view()[i].data.len() <= max_fragment
                    &&& !out.deep_view()[i].is_last
                },
        invariant
            pos <= data@.len(),
            max_fragment >= 1,
            pdvs_payload(out.deep_view(), 0) == data@.subrange(0, pos as int),
        ensures
            pos == data@.len(),
            out.deep_view().len() >= 1,
            pdvs_payload(out.deep_view(), 0) == data@.subrange(0, pos as int),
            forall|i: int|
                0 <= i < out.deep_view().len() ==> {
                    &&& (#[trigger] out.deep_view()[i]).presentation_context_id
                        == presentation_context_id
                    &&& out.deep_view()[i].value_type == value_type
                    &&& out.deep_view()[i].data.len() <= max_fragment
                    &&& out.deep_view()[i].is_last == (i == out.deep_view().len() - 1)
                },
        decreases data@.len() - pos + 1,
    {
        let remaining = data.len() - pos;
        let chunk = if remaining < max_fragment {
            remaining
        } else {
            max_fragment
        };
        let is_last = remaining <= max_fragment;
        let end = pos + chunk;
        let mut fragment: Vec<u8> = Vec::new();
        let mut j: usize = pos;
        while j < end
            invariant
                pos <= j <= end,
                end <= data@.len(),
                fragment@ == data@.subrange(pos as int, j as int),
            decreases end - j,
        {
            fragment.push(data[j]);
            proof {
                assert(fragment@ =~= data@.subrange(pos as int, j + 1));
            }
            j += 1;
        }
        let ghost pre = out.deep_view();
        out.push(
            PDataValue {
                presentation_context_id,
                value_type,
                is_last,
                data: fragment,
            },
        );
        proof {
            assert(out.deep_view() =~= pre.push(out@[out@.len() - 1]@));
            lemma_pdvs_payload_push(pre, out.deep_view()[out.deep_view().len() - 1]);
            assert(pdvs_payload(out.deep_view(), 0) =~= data@.subrange(0, (pos + chunk) as int));
        }
        pos = pos + chunk;
        if is_last {
            break;
        }
    }
    proof {
        assert(data@.subrange(0, data@.len() as int) =~= data@);
    }
    Ok(out)
}

/// Appending one PDV appends its payload.
pub proof fn lemma_pdvs_payload_push(l: Seq<PDataValueView>, v: PDataValueView)
    ensures
        pdvs_payload(l.push(v), 0) == pdvs_payload(l, 0) + v.data,
    decreases l.len(),
{
    if l.len() == 0 {
        assert(l.push(v) =~= seq![v]);
        assert(pdvs_payload(seq![v], 1) =~= Seq::<u8>::empty());
        assert(pdvs_payload(l, 0) =~= Seq::<u8>::empty());
        assert(pdvs_payload(seq![v], 0) =~= pdvs_payload(l, 0) + v.data);
    } else {
        lemma_pdvs_payload_push(l.skip(1), v);
        assert(l.push(v).skip(1) =~= l.skip(1).push(v));
        assert(pdvs_payload(l.push(v), 1) =~= pdvs_payload(l.push(v).skip(1), 0)) by {
            lemma_pdvs_payload_shift(l.push(v), 1);
        }
        assert(pdvs_payload(l, 1) =~= pdvs_payload(l.skip(1), 0)) by {
            lemma_pdvs_payload_shift(l, 1);
        }
        assert(pdvs_payload(l.push(v), 0) =~= pdvs_payload(l, 0) + v.data);
    }
}

/// Reading the concatenation from position `i` is reading it from the
/// front of the suffix.
pub proof fn lemma_pdvs_payload_shift(l: Seq<PDataValueView>, i: int)
    requires
        0 <= i <= l.len(),
    ensures
        pdvs_payload(l, i) == pdvs_payload(l.skip(i), 0),
    decreases l.len() - i,
{
    if i < l.len() {
        lemma_pdvs_payload_shift(l, i + 1);
        assert(l.skip(i + 1) =~= l.skip(i).skip(1));
        lemma_pdvs_payload_shift(l.skip(i), 1);
        assert(pdvs_payload(l, i) =~= pdvs_payload(l.skip(i), 0));
    } else {
        assert(l.skip(i) =~= Seq::<PDataValueView>::empty());
    }
}

} // verus!
