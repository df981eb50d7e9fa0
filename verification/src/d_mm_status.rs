use vstd::prelude::*;
use crate::bit_buffer::{BitBuffer, PduParseErr, field_value, value_bits, splice_bits, lemma_value_bits_roundtrip, lemma_splice_concat, lemma_splice_span, lemma_splice_reads_back};
use crate::energy_saving_information::{EnergySavingInformation, lemma_esi_write_then_read, lemma_esi_parse_fields, lemma_esi_fields_written};
use crate::mm_enums::{StatusDownlink, D_MM_STATUS_PDU_TYPE, lemma_status_downlink_raw};
use vstd::arithmetic::power2::lemma2_to64;

verus! {

/// Representation of the D-MM STATUS PDU.
/// The infrastructure sends this message to the MS to request or indicate/reject a change of an operation mode.
/// Response expected: -/U-MM STATUS
/// Response to: -/U-MM STATUS
#[derive(Debug, Clone, Copy, PartialEq, Eq, Structural)]
pub struct DMmStatus {
    /// Type1, 6 bits: the sub-type of this PDU
    pub status_downlink: StatusDownlink,
    /// Energy saving information, present for ChangeOfEnergySavingModeRequest/Response
    pub energy_saving_information: Option<EnergySavingInformation>,
}

/// Whether the PDU at `pos` of `b` carries a sub-type whose contents are not handled:
/// one that is neither a change of energy saving mode request nor its response.
pub open spec fn d_mm_status_unhandled(b: Seq<bool>, pos: int) -> bool {
    &&& pos + 10 <= b.len()
    &&& field_value(b, pos, 4) == D_MM_STATUS_PDU_TYPE
    &&& StatusDownlink::spec_from_raw(field_value(b, pos + 4, 6)) matches Some(s)
    &&& !s.spec_carries_energy_saving()
}

impl DMmStatus {
    /// The bits that encode this PDU: its type, its sub-type, then the energy saving
    /// information where it is present.
    pub open spec fn spec_bits(self) -> Seq<bool> {
        value_bits(D_MM_STATUS_PDU_TYPE as nat, 4) + value_bits(self.status_downlink.spec_raw(), 6)
            + match self.energy_saving_information {
            Some(e) => e.spec_bits(),
            None => Seq::<bool>::empty(),
        }
    }

    /// What reading the PDU at `pos` of `b` gives, and where the cursor ends.
    pub open spec fn spec_parse(b: Seq<bool>, pos: int) -> (Result<DMmStatus, PduParseErr>, int) {
        if pos + 4 > b.len() {
            (Err(PduParseErr::BufferEnded { field: Some("pdu_type") }), pos)
        } else if field_value(b, pos, 4) != D_MM_STATUS_PDU_TYPE {
            (
                Err(
                    PduParseErr::InvalidPduType {
                        expected: D_MM_STATUS_PDU_TYPE,
                        found: field_value(b, pos, 4) as u64,
                    },
                ),
                pos + 4,
            )
        } else if pos + 10 > b.len() {
            (Err(PduParseErr::BufferEnded { field: Some("status_downlink") }), pos + 4)
        } else {
            match StatusDownlink::spec_from_raw(field_value(b, pos + 4, 6)) {
                None => (
                    Err(
                        PduParseErr::InvalidValue {
                            field: "status_downlink",
                            value: field_value(b, pos + 4, 6) as u64,
                        },
                    ),
                    pos + 10,
                ),
                Some(s) => match EnergySavingInformation::spec_parse(b, pos + 10) {
                    (Ok(e), q) => (
                        Ok(DMmStatus { status_downlink: s, energy_saving_information: Some(e) }),
                        q,
                    ),
                    (Err(err), q) => (Err(err), q),
                },
            }
        }
    }

    /// Parses the PDU at the cursor.
    pub fn from_bitbuf(buffer: &mut BitBuffer) -> (r: Result<Self, PduParseErr>)
        requires
            !d_mm_status_unhandled(old(buffer).bits(), old(buffer).pos()),
        ensures
            final(buffer).bits() == old(buffer).bits(),
            (r, final(buffer).pos()) == Self::spec_parse(old(buffer).bits(), old(buffer).pos()),
            r matches Ok(m) ==> {
                &&& field_value(old(buffer).bits(), old(buffer).pos(), 4) == D_MM_STATUS_PDU_TYPE
                &&& StatusDownlink::spec_from_raw(
                    field_value(old(buffer).bits(), old(buffer).pos() + 4, 6),
                ) == Some(m.status_downlink)
            },
    {
        let pdu_type: u64 = buffer.read_field(4, "pdu_type")?;
        proof {
            lemma2_to64();
            lemma_d_mm_status_parse_fields(old(buffer).bits(), old(buffer).pos());
        }
        if pdu_type != D_MM_STATUS_PDU_TYPE {
            return Err(PduParseErr::InvalidPduType { expected: D_MM_STATUS_PDU_TYPE, found: pdu_type });
        }
        // Type1

        let val: u64 = buffer.read_field(6, "status_downlink")?;
        let status_downlink = match StatusDownlink::try_from_raw(val) {
            Some(s) => s,
            None => {
                return Err(PduParseErr::InvalidValue { field: "status_downlink", value: val });
            },
        };
        let energy_saving_information = match status_downlink {
            StatusDownlink::ChangeOfEnergySavingModeRequest
            | StatusDownlink::ChangeOfEnergySavingModeResponse => {
                Some(EnergySavingInformation::from_bitbuf(buffer)?)
            },
            _ => unreached(),
        };
        Ok(DMmStatus { status_downlink, energy_saving_information })
    }

    /// Serializes this PDU at the cursor; fails, after the type and sub-type, where the
    /// energy saving information is absent.
    pub fn to_bitbuf(&self, buffer: &mut BitBuffer) -> (r: Result<(), PduParseErr>)
        requires
            self.status_downlink.spec_carries_energy_saving(),
            old(buffer).bits().len() + 24 <= usize::MAX,
        ensures
            final(buffer).bits() == splice_bits(old(buffer).bits(), old(buffer).pos(), self.spec_bits()),
            final(buffer).pos() == old(buffer).pos() + self.spec_bits().len(),
            field_value(final(buffer).bits(), old(buffer).pos(), 4) == D_MM_STATUS_PDU_TYPE,
            field_value(final(buffer).bits(), old(buffer).pos() + 4, 6)
                == self.status_downlink.spec_raw(),
            self.energy_saving_information is Some ==> r is Ok,
            self.energy_saving_information is None ==> r == Err::<(), PduParseErr>(
                PduParseErr::FieldNotPresent { field: Some("energy_saving_information") },
            ),
    {
        let ghost b0 = buffer.bits();
        let ghost p0 = buffer.pos();
        let ghost w1 = value_bits(D_MM_STATUS_PDU_TYPE as nat, 4);
        let ghost w2 = value_bits(self.status_downlink.spec_raw(), 6);
        proof {
            lemma_value_bits_roundtrip(D_MM_STATUS_PDU_TYPE as nat, 4);
            lemma_value_bits_roundtrip(self.status_downlink.spec_raw(), 6);
        }
        // PDU Type
        buffer.write_bits(D_MM_STATUS_PDU_TYPE, 4);
        // Type1
        buffer.write_bits(self.status_downlink.into_raw(), 6);
        proof {
            lemma_splice_concat(b0, p0, w1, w2);
            lemma_d_mm_status_fields_written(*self, b0, p0);
        }
        match self.status_downlink {
            StatusDownlink::ChangeOfEnergySavingModeRequest
            | StatusDownlink::ChangeOfEnergySavingModeResponse => {
                if let Some(ref esi) = self.energy_saving_information {
                    esi.to_bitbuf(buffer)?;
                    proof {
                        lemma_splice_concat(b0, p0, w1 + w2, esi.spec_bits());
                        assert(w1 + w2 + esi.spec_bits() =~= self.spec_bits());
                    }
                } else {
                    assert(w1 + w2 =~= self.spec_bits());
                    return Err(PduParseErr::FieldNotPresent { field: Some("energy_saving_information") });
                }
            },
            _ => {
                unreached::<()>();
            },
        }
        Ok(())
    }
}

/// Reading a PDU written at the cursor gives it back, where it carries energy saving
/// information whose numbers fit their fields.
pub proof fn lemma_d_mm_status_write_then_read(m: DMmStatus, b: Seq<bool>, pos: int)
    requires
        0 <= pos <= b.len(),
        m.status_downlink.spec_carries_energy_saving(),
        m.energy_saving_information matches Some(e) && e.fits(),
    ensures
        DMmStatus::spec_parse(splice_bits(b, pos, m.spec_bits()), pos) == (
            Ok::<DMmStatus, PduParseErr>(m),
            pos + 24,
        ),
{
    let e = m.energy_saving_information.unwrap();
    let w1 = value_bits(D_MM_STATUS_PDU_TYPE as nat, 4);
    let w2 = value_bits(m.status_downlink.spec_raw(), 6);
    let w = m.spec_bits();
    let s = splice_bits(b, pos, w);
    lemma_value_bits_roundtrip(D_MM_STATUS_PDU_TYPE as nat, 4);
    lemma_value_bits_roundtrip(m.status_downlink.spec_raw(), 6);
    lemma_status_downlink_raw(m.status_downlink, m.status_downlink.spec_raw());
    lemma2_to64();
    lemma_splice_span(b, pos, w, 0, 4);
    lemma_splice_span(b, pos, w, 4, 6);
    assert(w.subrange(0, 4) =~= w1);
    assert(w.subrange(4, 10) =~= w2);
    // The rest of the buffer is what writing the energy saving information after the
    // header gives.
    lemma_splice_concat(b, pos, w1 + w2, e.spec_bits());
    assert(w1 + w2 + e.spec_bits() =~= w);
    let t = splice_bits(b, pos, w1 + w2);
    lemma_splice_reads_back(b, pos, w1 + w2);
    lemma_esi_write_then_read(e, t, pos + 10);
    assert(s =~= splice_bits(t, pos + 10, e.spec_bits()));
}

/// A PDU is read only from bits that hold the D-MM STATUS type, and its sub-type is the
/// one whose own value fills the six bits after the type; its energy saving information
/// is read from the fourteen bits after those, and the cursor ends past them.
pub proof fn lemma_d_mm_status_parse_fields(b: Seq<bool>, pos: int)
    requires
        0 <= pos,
    ensures
        DMmStatus::spec_parse(b, pos).0 is Ok <==> {
            &&& pos + 24 <= b.len()
            &&& field_value(b, pos, 4) == D_MM_STATUS_PDU_TYPE
            &&& StatusDownlink::spec_from_raw(field_value(b, pos + 4, 6)) is Some
        },
        pos + 4 <= b.len() && field_value(b, pos, 4) != D_MM_STATUS_PDU_TYPE ==> DMmStatus::spec_parse(
            b,
            pos,
        ).0 == Err::<DMmStatus, PduParseErr>(
            PduParseErr::InvalidPduType {
                expected: D_MM_STATUS_PDU_TYPE,
                found: field_value(b, pos, 4) as u64,
            },
        ),
        DMmStatus::spec_parse(b, pos).0 matches Ok(m) ==> {
            &&& field_value(b, pos, 4) == D_MM_STATUS_PDU_TYPE
            &&& StatusDownlink::spec_from_raw(field_value(b, pos + 4, 6)) == Some(m.status_downlink)
            &&& m.status_downlink.spec_raw() == field_value(b, pos + 4, 6)
            &&& m.energy_saving_information matches Some(e)
            &&& e.energy_saving_mode.spec_raw() == field_value(b, pos + 10, 3)
            &&& e.frame_number as nat == field_value(b, pos + 13, 5)
            &&& e.multiframe_number as nat == field_value(b, pos + 18, 6)
            &&& DMmStatus::spec_parse(b, pos).1 == pos + 24
        },
{
    if pos + 10 <= b.len() && field_value(b, pos, 4) == D_MM_STATUS_PDU_TYPE {
        if let Some(s) = StatusDownlink::spec_from_raw(field_value(b, pos + 4, 6)) {
            lemma_status_downlink_raw(s, field_value(b, pos + 4, 6));
            lemma_esi_parse_fields(b, pos + 10);
        }
    }
}

/// Writing a PDU puts the D-MM STATUS type in its first four bits and the sub-type's own
/// value in the next six; where the energy saving information is present, its mode,
/// frame number and multiframe number follow in the next three, five and six bits.
pub proof fn lemma_d_mm_status_fields_written(m: DMmStatus, b: Seq<bool>, pos: int)
    requires
        0 <= pos <= b.len(),
    ensures
        field_value(splice_bits(b, pos, m.spec_bits()), pos, 4) == D_MM_STATUS_PDU_TYPE,
        field_value(splice_bits(b, pos, m.spec_bits()), pos + 4, 6) == m.status_downlink.spec_raw(),
        m.energy_saving_information matches Some(e) ==> {
            &&& m.spec_bits().len() == 24
            &&& field_value(splice_bits(b, pos, m.spec_bits()), pos + 10, 3)
                == e.energy_saving_mode.spec_raw()
            &&& field_value(splice_bits(b, pos, m.spec_bits()), pos + 13, 5) == e.frame_number as nat
                % 32
            &&& field_value(splice_bits(b, pos, m.spec_bits()), pos + 18, 6)
                == e.multiframe_number as nat % 64
        },
        m.energy_saving_information is None ==> m.spec_bits().len() == 10,
{
    let w1 = value_bits(D_MM_STATUS_PDU_TYPE as nat, 4);
    let w2 = value_bits(m.status_downlink.spec_raw(), 6);
    let w = m.spec_bits();
    lemma_value_bits_roundtrip(D_MM_STATUS_PDU_TYPE as nat, 4);
    lemma_value_bits_roundtrip(m.status_downlink.spec_raw(), 6);
    lemma_status_downlink_raw(m.status_downlink, m.status_downlink.spec_raw());
    lemma2_to64();
    lemma_splice_span(b, pos, w, 0, 4);
    lemma_splice_span(b, pos, w, 4, 6);
    assert(w.subrange(0, 4) =~= w1);
    assert(w.subrange(4, 10) =~= w2);
    match m.energy_saving_information {
        Some(e) => {
            lemma_splice_concat(b, pos, w1 + w2, e.spec_bits());
            assert(w1 + w2 + e.spec_bits() =~= w);
            let t = splice_bits(b, pos, w1 + w2);
            lemma_splice_reads_back(b, pos, w1 + w2);
            lemma_esi_fields_written(e, t, pos + 10);
            assert(splice_bits(b, pos, w) =~= splice_bits(t, pos + 10, e.spec_bits()));
        },
        None => {
            assert(w =~= w1 + w2);
        },
    }
}

} // verus!
