use vstd::prelude::*;
use crate::bit_buffer::{BitBuffer, PduParseErr, field_value, value_bits, splice_bits, lemma_value_bits_roundtrip, lemma_splice_concat, lemma_splice_span, lemma_bits_value_bound};
use crate::mm_enums::{EnergySavingMode, lemma_energy_saving_mode_raw};
use vstd::arithmetic::power2::{pow2, lemma2_to64};

verus! {

/// Energy saving information element (14 bits): the energy saving mode, and the frame
/// and multiframe at which energy economy starts.
#[derive(Debug, Clone, Copy, PartialEq, Eq, Structural)]
pub struct EnergySavingInformation {
    /// 3 bits
    pub energy_saving_mode: EnergySavingMode,
    /// 5 bits
    pub frame_number: u8,
    /// 6 bits
    pub multiframe_number: u8,
}

impl EnergySavingInformation {
    /// Whether each number fits in its field.
    pub open spec fn fits(self) -> bool {
        self.frame_number < 32 && self.multiframe_number < 64
    }

    /// The bits that encode this element.
    pub open spec fn spec_bits(self) -> Seq<bool> {
        value_bits(self.energy_saving_mode.spec_raw(), 3) + value_bits(self.frame_number as nat, 5)
            + value_bits(self.multiframe_number as nat, 6)
    }

    /// What reading the element at `pos` of `b` gives, and where the cursor ends.
    pub open spec fn spec_parse(b: Seq<bool>, pos: int) -> (Result<EnergySavingInformation, PduParseErr>, int) {
        if pos + 3 > b.len() {
            (Err(PduParseErr::BufferEnded { field: Some("energy_saving_mode") }), pos)
        } else if pos + 8 > b.len() {
            (Err(PduParseErr::BufferEnded { field: Some("frame_number") }), pos + 3)
        } else if pos + 14 > b.len() {
            (Err(PduParseErr::BufferEnded { field: Some("multiframe_number") }), pos + 8)
        } else {
            match EnergySavingMode::spec_from_raw(field_value(b, pos, 3)) {
                Some(m) => (
                    Ok(
                        EnergySavingInformation {
                            energy_saving_mode: m,
                            frame_number: field_value(b, pos + 3, 5) as u8,
                            multiframe_number: field_value(b, pos + 8, 6) as u8,
                        },
                    ),
                    pos + 14,
                ),
                None => (
                    Err(
                        PduParseErr::InvalidValue {
                            field: "energy_saving_mode",
                            value: field_value(b, pos, 3) as u64,
                        },
                    ),
                    pos + 14,
                ),
            }
        }
    }

    /// Reads the element at the cursor.
    pub fn from_bitbuf(buffer: &mut BitBuffer) -> (r: Result<EnergySavingInformation, PduParseErr>)
        ensures
            final(buffer).bits() == old(buffer).bits(),
            (r, final(buffer).pos()) == Self::spec_parse(old(buffer).bits(), old(buffer).pos()),
    {
        let mode_raw: u64 = buffer.read_field(3, "energy_saving_mode")?;
        let frame: u64 = buffer.read_field(5, "frame_number")?;
        let multiframe: u64 = buffer.read_field(6, "multiframe_number")?;
        proof {
            lemma2_to64();
        }
        match EnergySavingMode::try_from_raw(mode_raw) {
            Some(m) => Ok(
                EnergySavingInformation {
                    energy_saving_mode: m,
                    frame_number: frame as u8,
                    multiframe_number: multiframe as u8,
                },
            ),
            None => Err(PduParseErr::InvalidValue { field: "energy_saving_mode", value: mode_raw }),
        }
    }

    /// Writes the element at the cursor; each number goes in by its low-order bits.
    pub fn to_bitbuf(&self, buffer: &mut BitBuffer) -> (r: Result<(), PduParseErr>)
        requires
            old(buffer).bits().len() + 14 <= usize::MAX,
        ensures
            r is Ok,
            final(buffer).bits() == splice_bits(old(buffer).bits(), old(buffer).pos(), self.spec_bits()),
            final(buffer).pos() == old(buffer).pos() + 14,
    {
        let ghost b0 = buffer.bits();
        let ghost p0 = buffer.pos();
        buffer.write_bits(self.energy_saving_mode.into_raw(), 3);
        buffer.write_bits(self.frame_number as u64, 5);
        buffer.write_bits(self.multiframe_number as u64, 6);
        proof {
            let w1 = value_bits(self.energy_saving_mode.spec_raw(), 3);
            let w2 = value_bits(self.frame_number as nat, 5);
            let w3 = value_bits(self.multiframe_number as nat, 6);
            lemma_value_bits_roundtrip(self.energy_saving_mode.spec_raw(), 3);
            lemma_value_bits_roundtrip(self.frame_number as nat, 5);
            lemma_splice_concat(b0, p0, w1, w2);
            lemma_splice_concat(b0, p0, w1 + w2, w3);
        }
        Ok(())
    }
}

/// Reading an element written at the cursor gives it back, where its numbers fit
/// their fields.
pub proof fn lemma_esi_write_then_read(e: EnergySavingInformation, b: Seq<bool>, pos: int)
    requires
        0 <= pos <= b.len(),
        e.fits(),
    ensures
        EnergySavingInformation::spec_parse(splice_bits(b, pos, e.spec_bits()), pos) == (
            Ok::<EnergySavingInformation, PduParseErr>(e),
            pos + 14,
        ),
{
    let m = e.energy_saving_mode.spec_raw();
    let w1 = value_bits(m, 3);
    let w2 = value_bits(e.frame_number as nat, 5);
    let w3 = value_bits(e.multiframe_number as nat, 6);
    let w = e.spec_bits();
    lemma_value_bits_roundtrip(m, 3);
    lemma_value_bits_roundtrip(e.frame_number as nat, 5);
    lemma_value_bits_roundtrip(e.multiframe_number as nat, 6);
    lemma2_to64();
    lemma_energy_saving_mode_raw(e.energy_saving_mode, m);
    let s = splice_bits(b, pos, w);
    lemma_splice_span(b, pos, w, 0, 3);
    lemma_splice_span(b, pos, w, 3, 5);
    lemma_splice_span(b, pos, w, 8, 6);
    assert(w.subrange(0, 3) =~= w1);
    assert(w.subrange(3, 8) =~= w2);
    assert(w.subrange(8, 14) =~= w3);
    assert(s.len() >= pos + 14);
}

/// Bits of a field are below 2 to the power of the field's width.
proof fn lemma_field_bound(b: Seq<bool>, pos: int, n: nat)
    requires
        0 <= pos,
        pos + n <= b.len(),
    ensures
        field_value(b, pos, n) < pow2(n),
{
    lemma_bits_value_bound(b.subrange(pos, pos + n));
}

/// Reading an element succeeds exactly where fourteen bits are left; it takes the mode
/// from the first three bits, the frame number from the next five and the multiframe
/// number from the six after them, and moves the cursor past all fourteen.
pub proof fn lemma_esi_parse_fields(b: Seq<bool>, pos: int)
    requires
        0 <= pos,
    ensures
        EnergySavingInformation::spec_parse(b, pos).0 is Ok <==> pos + 14 <= b.len(),
        EnergySavingInformation::spec_parse(b, pos).0 matches Ok(e) ==> {
            &&& e.energy_saving_mode.spec_raw() == field_value(b, pos, 3)
            &&& e.frame_number as nat == field_value(b, pos + 3, 5)
            &&& e.multiframe_number as nat == field_value(b, pos + 8, 6)
            &&& EnergySavingInformation::spec_parse(b, pos).1 == pos + 14
        },
{
    if pos + 14 <= b.len() {
        lemma2_to64();
        lemma_field_bound(b, pos, 3);
        lemma_field_bound(b, pos + 3, 5);
        lemma_field_bound(b, pos + 8, 6);
        let v = field_value(b, pos, 3);
        lemma_energy_saving_mode_raw(EnergySavingMode::StayAlive, v);
        if let Some(m) = EnergySavingMode::spec_from_raw(v) {
            lemma_energy_saving_mode_raw(m, v);
        }
    }
}

/// Writing an element puts its mode in the first three bits, the low five bits of its
/// frame number in the next five and the low six bits of its multiframe number in the
/// six after them: fourteen bits in all.
pub proof fn lemma_esi_fields_written(e: EnergySavingInformation, b: Seq<bool>, pos: int)
    requires
        0 <= pos <= b.len(),
    ensures
        e.spec_bits().len() == 14,
        field_value(splice_bits(b, pos, e.spec_bits()), pos, 3) == e.energy_saving_mode.spec_raw(),
        field_value(splice_bits(b, pos, e.spec_bits()), pos + 3, 5) == e.frame_number as nat % 32,
        field_value(splice_bits(b, pos, e.spec_bits()), pos + 8, 6) == e.multiframe_number as nat % 64,
{
    let m = e.energy_saving_mode.spec_raw();
    let w1 = value_bits(m, 3);
    let w2 = value_bits(e.frame_number as nat, 5);
    let w3 = value_bits(e.multiframe_number as nat, 6);
    let w = e.spec_bits();
    lemma_value_bits_roundtrip(m, 3);
    lemma_value_bits_roundtrip(e.frame_number as nat, 5);
    lemma_value_bits_roundtrip(e.multiframe_number as nat, 6);
    lemma2_to64();
    lemma_energy_saving_mode_raw(e.energy_saving_mode, m);
    lemma_splice_span(b, pos, w, 0, 3);
    lemma_splice_span(b, pos, w, 3, 5);
    lemma_splice_span(b, pos, w, 8, 6);
    assert(w.subrange(0, 3) =~= w1);
    assert(w.subrange(3, 8) =~= w2);
    assert(w.subrange(8, 14) =~= w3);
}

} // verus!
