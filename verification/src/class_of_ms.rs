use vstd::prelude::*;
use vstd::string::StringExecFns;
use crate::bit_buffer::{flag_value, lemma_flag_value, lemma_flag_cast, BitBuffer, PduParseErr, field_value, value_bits, splice_bits, lemma_write_then_read, lemma_splice_reads_back, lemma_value_bits_roundtrip};
use vstd::arithmetic::power2::{pow2, lemma2_to64};

verus! {

/// Class of MS element (24 bits, most significant bit first): the capabilities of a
/// mobile station.
#[derive(Debug, Clone, Copy, PartialEq, Eq, Structural)]
pub struct ClassOfMs {
    /// Bit 1: 0=simplex only, 1=duplex+simplex
    pub freq_simplex_duplex: bool,
    /// Bit 2: Multislot phase modulation capability
    pub multislot_phase_mod: bool,
    /// Bit 3: Concurrent multicarrier capability
    pub concurrent_multicarrier: bool,
    /// Bit 4: Voice capability
    pub voice: bool,
    /// Bit 5: 0=E2E encryption supported, 1=not supported (reversed polarity)
    pub e2e_encryption_not_supported: bool,
    /// Bit 6: Circuit mode data capability
    pub circuit_mode_data: bool,
    /// Bit 7: TETRA packet data capability
    pub tetra_packet_data: bool,
    /// Bit 8: Fast switching capability
    pub fast_switching: bool,
    /// Bit 9: DCK encryption capability
    pub dck_encryption: bool,
    /// Bit 10: CLCH needed
    pub clch_needed: bool,
    /// Bit 11: Concurrent circuit mode capability
    pub concurrent_circuit_mode: bool,
    /// Bit 12: Original advanced link capability
    pub original_advanced_link: bool,
    /// Bit 13: Minimum mode
    pub minimum_mode: bool,
    /// Bit 14: Carrier specific signalling capability
    pub carrier_specific_signalling: bool,
    /// Bit 15: Authentication capability
    pub authentication: bool,
    /// Bit 16: SCK encryption capability
    pub sck_encryption: bool,
    /// Bits 17-19: Air interface version (3 bits)
    pub air_interface_version: u8,
    /// Bit 20: Common SCCH capability
    pub common_scch: bool,
    /// Bit 21: Reserved
    pub reserved_21: bool,
    /// Bit 22: MAC-D-BLCK capability
    pub mac_d_blck: bool,
    /// Bit 23: Extended advanced link capability
    pub extended_advanced_link: bool,
    /// Bit 24: D8PSK capability
    pub d8psk: bool,
}

/// Whether bit `k` (counted from the least significant) of `val` is set.
pub open spec fn bit_set(val: u32, k: u32) -> bool {
    (val >> k) & 1 != 0
}

/// How a flag is written in text.
#[verifier::opaque]
pub open spec fn bool_text(b: bool) -> Seq<char> {
    if b {
        "true"@
    } else {
        "false"@
    }
}

/// How a decimal digit is written in text.
pub open spec fn digit_text(d: u8) -> Seq<char> {
    if d == 0 {
        "0"@
    } else if d == 1 {
        "1"@
    } else if d == 2 {
        "2"@
    } else if d == 3 {
        "3"@
    } else if d == 4 {
        "4"@
    } else if d == 5 {
        "5"@
    } else if d == 6 {
        "6"@
    } else if d == 7 {
        "7"@
    } else if d == 8 {
        "8"@
    } else {
        "9"@
    }
}

/// How a byte is written in decimal, without leading zeros.
#[verifier::opaque]
pub open spec fn decimal_text(n: u8) -> Seq<char> {
    if n < 10 {
        digit_text(n)
    } else if n < 100 {
        digit_text(n / 10) + digit_text(n % 10)
    } else {
        digit_text(n / 100) + digit_text((n / 10) % 10) + digit_text(n % 10)
    }
}

/// Appends the text of digit `d`.
fn append_digit(s: &mut String, d: u8)
    requires
        d < 10,
    ensures
        final(s)@ == old(s)@ + digit_text(d),
{
    s.append(
        if d == 0 {
            "0"
        } else if d == 1 {
            "1"
        } else if d == 2 {
            "2"
        } else if d == 3 {
            "3"
        } else if d == 4 {
            "4"
        } else if d == 5 {
            "5"
        } else if d == 6 {
            "6"
        } else if d == 7 {
            "7"
        } else if d == 8 {
            "8"
        } else {
            "9"
        },
    );
}

/// The text of a flag.
fn bool_str(b: bool) -> (r: &'static str)
    ensures
        r@ == bool_text(b),
{
    proof {
        reveal(bool_text);
    }
    if b {
        "true"
    } else {
        "false"
    }
}

/// Appends `label` and the text of flag `b`.
fn append_flag(s: &mut String, label: &str, b: bool)
    ensures
        final(s)@ == old(s)@ + label@ + bool_text(b),
{
    s.append(label);
    s.append(bool_str(b));
}

/// Appends the decimal text of `n`.
fn append_decimal(s: &mut String, n: u8)
    ensures
        final(s)@ == old(s)@ + decimal_text(n),
{
    proof {
        reveal(decimal_text);
    }
    if n < 10 {
        append_digit(s, n);
    } else if n < 100 {
        append_digit(s, n / 10);
        append_digit(s, n % 10);
        assert(final(s)@ =~= old(s)@ + decimal_text(n));
    } else {
        append_digit(s, n / 100);
        append_digit(s, (n / 10) % 10);
        append_digit(s, n % 10);
        assert(final(s)@ =~= old(s)@ + decimal_text(n));
    }
}

impl ClassOfMs {
    /// The element that a 24-bit field value encodes.
    pub open spec fn spec_from_raw(val: u32) -> ClassOfMs {
        ClassOfMs {
            freq_simplex_duplex: bit_set(val, 23),
            multislot_phase_mod: bit_set(val, 22),
            concurrent_multicarrier: bit_set(val, 21),
            voice: bit_set(val, 20),
            e2e_encryption_not_supported: bit_set(val, 19),
            circuit_mode_data: bit_set(val, 18),
            tetra_packet_data: bit_set(val, 17),
            fast_switching: bit_set(val, 16),
            dck_encryption: bit_set(val, 15),
            clch_needed: bit_set(val, 14),
            concurrent_circuit_mode: bit_set(val, 13),
            original_advanced_link: bit_set(val, 12),
            minimum_mode: bit_set(val, 11),
            carrier_specific_signalling: bit_set(val, 10),
            authentication: bit_set(val, 9),
            sck_encryption: bit_set(val, 8),
            air_interface_version: ((val >> 5) & 7) as u8,
            common_scch: bit_set(val, 4),
            reserved_21: bit_set(val, 3),
            mac_d_blck: bit_set(val, 2),
            extended_advanced_link: bit_set(val, 1),
            d8psk: val & 1 != 0,
        }
    }

    /// The first byte of the encoded value: eight flags, the first field highest.
    #[verifier::opaque]
    pub open spec fn high_byte(self) -> u32 {
        (flag_value(self.freq_simplex_duplex) << 7u32)
            | (flag_value(self.multislot_phase_mod) << 6u32)
            | (flag_value(self.concurrent_multicarrier) << 5u32)
            | (flag_value(self.voice) << 4u32)
            | (flag_value(self.e2e_encryption_not_supported) << 3u32)
            | (flag_value(self.circuit_mode_data) << 2u32)
            | (flag_value(self.tetra_packet_data) << 1u32)
            | flag_value(self.fast_switching)
    }

    /// The second byte of the encoded value: eight flags, the first field highest.
    #[verifier::opaque]
    pub open spec fn middle_byte(self) -> u32 {
        (flag_value(self.dck_encryption) << 7u32)
            | (flag_value(self.clch_needed) << 6u32)
            | (flag_value(self.concurrent_circuit_mode) << 5u32)
            | (flag_value(self.original_advanced_link) << 4u32)
            | (flag_value(self.minimum_mode) << 3u32)
            | (flag_value(self.carrier_specific_signalling) << 2u32)
            | (flag_value(self.authentication) << 1u32)
            | flag_value(self.sck_encryption)
    }

    /// The last byte of the encoded value: the air interface version's low three bits
    /// above five flags.
    #[verifier::opaque]
    pub open spec fn low_byte(self) -> u32 {
        (((self.air_interface_version as u32) & 0b111) << 5u32)
            | (flag_value(self.common_scch) << 4u32)
            | (flag_value(self.reserved_21) << 3u32)
            | (flag_value(self.mac_d_blck) << 2u32)
            | (flag_value(self.extended_advanced_link) << 1u32)
            | flag_value(self.d8psk)
    }

    /// The 24-bit field value that encodes this element, its first field in the most
    /// significant bit; of the air interface version only the low three bits go in.
    pub open spec fn spec_to_raw(self) -> u32 {
        (self.high_byte() << 16u32) | (self.middle_byte() << 8u32) | self.low_byte()
    }

    /// This element with its air interface version cut to the three bits that are sent.
    pub open spec fn sent_form(self) -> ClassOfMs {
        ClassOfMs { air_interface_version: self.air_interface_version & 7, ..self }
    }

    /// What reading the element at `pos` of `b` gives, and where the cursor ends.
    pub open spec fn spec_parse(b: Seq<bool>, pos: int) -> (Result<ClassOfMs, PduParseErr>, int) {
        if pos + 24 > b.len() {
            (Err(PduParseErr::BufferEnded { field: Some("class_of_ms") }), pos)
        } else {
            (Ok(ClassOfMs::spec_from_raw(field_value(b, pos, 24) as u32)), pos + 24)
        }
    }

    /// The element that a 24-bit field value encodes.
    pub fn from_raw(val: u32) -> (r: ClassOfMs)
        ensures
            r == Self::spec_from_raw(val),
    {
        ClassOfMs {
            freq_simplex_duplex: (val >> 23) & 1 != 0,
            multislot_phase_mod: (val >> 22) & 1 != 0,
            concurrent_multicarrier: (val >> 21) & 1 != 0,
            voice: (val >> 20) & 1 != 0,
            e2e_encryption_not_supported: (val >> 19) & 1 != 0,
            circuit_mode_data: (val >> 18) & 1 != 0,
            tetra_packet_data: (val >> 17) & 1 != 0,
            fast_switching: (val >> 16) & 1 != 0,
            dck_encryption: (val >> 15) & 1 != 0,
            clch_needed: (val >> 14) & 1 != 0,
            concurrent_circuit_mode: (val >> 13) & 1 != 0,
            original_advanced_link: (val >> 12) & 1 != 0,
            minimum_mode: (val >> 11) & 1 != 0,
            carrier_specific_signalling: (val >> 10) & 1 != 0,
            authentication: (val >> 9) & 1 != 0,
            sck_encryption: (val >> 8) & 1 != 0,
            air_interface_version: ((val >> 5) & 0b111) as u8,
            common_scch: (val >> 4) & 1 != 0,
            reserved_21: (val >> 3) & 1 != 0,
            mac_d_blck: (val >> 2) & 1 != 0,
            extended_advanced_link: (val >> 1) & 1 != 0,
            d8psk: val & 1 != 0,
        }
    }

    /// The 24-bit field value that encodes this element.
    pub fn to_raw(&self) -> (r: u32)
        ensures
            r == self.spec_to_raw(),
    {
        proof {
            reveal(ClassOfMs::high_byte);
            reveal(ClassOfMs::middle_byte);
            reveal(ClassOfMs::low_byte);
            lemma_flag_cast(self.freq_simplex_duplex);
            lemma_flag_cast(self.multislot_phase_mod);
            lemma_flag_cast(self.concurrent_multicarrier);
            lemma_flag_cast(self.voice);
            lemma_flag_cast(self.e2e_encryption_not_supported);
            lemma_flag_cast(self.circuit_mode_data);
            lemma_flag_cast(self.tetra_packet_data);
            lemma_flag_cast(self.fast_switching);
            lemma_flag_cast(self.dck_encryption);
            lemma_flag_cast(self.clch_needed);
            lemma_flag_cast(self.concurrent_circuit_mode);
            lemma_flag_cast(self.original_advanced_link);
            lemma_flag_cast(self.minimum_mode);
            lemma_flag_cast(self.carrier_specific_signalling);
            lemma_flag_cast(self.authentication);
            lemma_flag_cast(self.sck_encryption);
            lemma_flag_cast(self.common_scch);
            lemma_flag_cast(self.reserved_21);
            lemma_flag_cast(self.mac_d_blck);
            lemma_flag_cast(self.extended_advanced_link);
            lemma_flag_cast(self.d8psk);
        }
        let high: u32 = ((self.freq_simplex_duplex as u32) << 7)
            | ((self.multislot_phase_mod as u32) << 6)
            | ((self.concurrent_multicarrier as u32) << 5)
            | ((self.voice as u32) << 4)
            | ((self.e2e_encryption_not_supported as u32) << 3)
            | ((self.circuit_mode_data as u32) << 2)
            | ((self.tetra_packet_data as u32) << 1)
            | (self.fast_switching as u32);
        let middle: u32 = ((self.dck_encryption as u32) << 7)
            | ((self.clch_needed as u32) << 6)
            | ((self.concurrent_circuit_mode as u32) << 5)
            | ((self.original_advanced_link as u32) << 4)
            | ((self.minimum_mode as u32) << 3)
            | ((self.carrier_specific_signalling as u32) << 2)
            | ((self.authentication as u32) << 1)
            | (self.sck_encryption as u32);
        let low: u32 = ((self.air_interface_version as u32 & 0b111) << 5)
            | ((self.common_scch as u32) << 4)
            | ((self.reserved_21 as u32) << 3)
            | ((self.mac_d_blck as u32) << 2)
            | ((self.extended_advanced_link as u32) << 1)
            | (self.d8psk as u32);
        (high << 16) | (middle << 8) | low
    }

    /// The first part of the text of this element: the first eight capabilities.
    #[verifier::opaque]
    pub open spec fn display_first(self) -> Seq<char> {
        "ClassOfMs { duplex:"@
            + bool_text(self.freq_simplex_duplex)
            + " multislot_pm:"@
            + bool_text(self.multislot_phase_mod)
            + " concurrent_mc:"@
            + bool_text(self.concurrent_multicarrier)
            + " voice:"@
            + bool_text(self.voice)
            + " e2e_enc:"@
            + bool_text(!self.e2e_encryption_not_supported)
            + " circ_data:"@
            + bool_text(self.circuit_mode_data)
            + " pkt_data:"@
            + bool_text(self.tetra_packet_data)
            + " fast_sw:"@
            + bool_text(self.fast_switching)
    }

    /// The second part of the text of this element: the next eight capabilities.
    #[verifier::opaque]
    pub open spec fn display_second(self) -> Seq<char> {
        " dck:"@
            + bool_text(self.dck_encryption)
            + " clch:"@
            + bool_text(self.clch_needed)
            + " concurrent_cm:"@
            + bool_text(self.concurrent_circuit_mode)
            + " orig_adv_link:"@
            + bool_text(self.original_advanced_link)
            + " min_mode:"@
            + bool_text(self.minimum_mode)
            + " carrier_sig:"@
            + bool_text(self.carrier_specific_signalling)
            + " auth:"@
            + bool_text(self.authentication)
            + " sck:"@
            + bool_text(self.sck_encryption)
    }

    /// The last part of the text of this element: the air interface version and the
    /// remaining capabilities.
    #[verifier::opaque]
    pub open spec fn display_last(self) -> Seq<char> {
        " aiv:"@
            + decimal_text(self.air_interface_version)
            + " common_scch:"@
            + bool_text(self.common_scch)
            + " rsvd21:"@
            + bool_text(self.reserved_21)
            + " mac_d_blck:"@
            + bool_text(self.mac_d_blck)
            + " ext_adv_link:"@
            + bool_text(self.extended_advanced_link)
            + " d8psk:"@
            + bool_text(self.d8psk)
            + " }"@
    }

    /// The one-line text of this element, each capability named and valued; the
    /// end-to-end encryption entry tells whether it is supported.
    pub open spec fn spec_display(self) -> Seq<char> {
        self.display_first() + self.display_second() + self.display_last()
    }

    fn first_text(&self) -> (r: String)
        ensures
            r@ == self.display_first(),
    {
        proof {
            reveal(ClassOfMs::display_first);
        }
        let mut s: String = String::from_str("ClassOfMs { duplex:");
        s.append(bool_str(self.freq_simplex_duplex));
        append_flag(&mut s, " multislot_pm:", self.multislot_phase_mod);
        append_flag(&mut s, " concurrent_mc:", self.concurrent_multicarrier);
        append_flag(&mut s, " voice:", self.voice);
        append_flag(&mut s, " e2e_enc:", !self.e2e_encryption_not_supported);
        append_flag(&mut s, " circ_data:", self.circuit_mode_data);
        append_flag(&mut s, " pkt_data:", self.tetra_packet_data);
        append_flag(&mut s, " fast_sw:", self.fast_switching);
        s
    }

    fn second_text(&self) -> (r: String)
        ensures
            r@ == self.display_second(),
    {
        proof {
            reveal(ClassOfMs::display_second);
        }
        let mut s: String = String::from_str(" dck:");
        s.append(bool_str(self.dck_encryption));
        append_flag(&mut s, " clch:", self.clch_needed);
        append_flag(&mut s, " concurrent_cm:", self.concurrent_circuit_mode);
        append_flag(&mut s, " orig_adv_link:", self.original_advanced_link);
        append_flag(&mut s, " min_mode:", self.minimum_mode);
        append_flag(&mut s, " carrier_sig:", self.carrier_specific_signalling);
        append_flag(&mut s, " auth:", self.authentication);
        append_flag(&mut s, " sck:", self.sck_encryption);
        s
    }

    fn last_text(&self) -> (r: String)
        ensures
            r@ == self.display_last(),
    {
        proof {
            reveal(ClassOfMs::display_last);
        }
        let mut s: String = String::from_str(" aiv:");
        append_decimal(&mut s, self.air_interface_version);
        append_flag(&mut s, " common_scch:", self.common_scch);
        append_flag(&mut s, " rsvd21:", self.reserved_21);
        append_flag(&mut s, " mac_d_blck:", self.mac_d_blck);
        append_flag(&mut s, " ext_adv_link:", self.extended_advanced_link);
        append_flag(&mut s, " d8psk:", self.d8psk);
        s.append(" }");
        s
    }

    /// The one-line text of this element.
    pub fn to_display_string(&self) -> (r: String)
        ensures
            r@ == self.spec_display(),
    {
        let mut s: String = self.first_text();
        let second: String = self.second_text();
        let last: String = self.last_text();
        s.append(second.as_str());
        s.append(last.as_str());
        s
    }

    /// Reads the element at the cursor.
    pub fn from_bitbuf(buffer: &mut BitBuffer) -> (r: Result<Self, PduParseErr>)
        ensures
            final(buffer).bits() == old(buffer).bits(),
            (r, final(buffer).pos()) == Self::spec_parse(old(buffer).bits(), old(buffer).pos()),
    {
        let raw: u64 = buffer.read_field(24, "class_of_ms")?;
        proof {
            lemma2_to64();
        }
        Ok(Self::from_raw(raw as u32))
    }

    /// Writes the element at the cursor.
    pub fn to_bitbuf(&self, buf: &mut BitBuffer) -> (r: Result<(), PduParseErr>)
        requires
            old(buf).bits().len() + 24 <= usize::MAX,
        ensures
            r is Ok,
            final(buf).bits() == splice_bits(
                old(buf).bits(),
                old(buf).pos(),
                value_bits(self.spec_to_raw() as nat, 24),
            ),
            final(buf).pos() == old(buf).pos() + 24,
    {
        let val: u32 = self.to_raw();
        buf.write_bits(val as u64, 24);
        Ok(())
    }
}

/// Bit-level fact: eight one-bit values packed into a byte are found again at their places.
proof fn lemma_pack8(x7: u32, x6: u32, x5: u32, x4: u32, x3: u32, x2: u32, x1: u32, x0: u32, w: u32)
    by (bit_vector)
    requires
        x7 <= 1u32,
        x6 <= 1u32,
        x5 <= 1u32,
        x4 <= 1u32,
        x3 <= 1u32,
        x2 <= 1u32,
        x1 <= 1u32,
        x0 <= 1u32,
        w == (x7 << 7u32)
            | (x6 << 6u32)
            | (x5 << 5u32)
            | (x4 << 4u32)
            | (x3 << 3u32)
            | (x2 << 2u32)
            | (x1 << 1u32)
            | x0,
    ensures
        w < 256u32,
        (w >> 7u32) & 1u32 == x7,
        (w >> 6u32) & 1u32 == x6,
        (w >> 5u32) & 1u32 == x5,
        (w >> 4u32) & 1u32 == x4,
        (w >> 3u32) & 1u32 == x3,
        (w >> 2u32) & 1u32 == x2,
        (w >> 1u32) & 1u32 == x1,
        w & 1u32 == x0,
{
}

/// Bit-level fact: packing the eight bits of a byte gives the byte back.
proof fn lemma_unpack8(x7: u32, x6: u32, x5: u32, x4: u32, x3: u32, x2: u32, x1: u32, x0: u32, w: u32)
    by (bit_vector)
    requires
        w < 256u32,
        x7 <= 1u32,
        x6 <= 1u32,
        x5 <= 1u32,
        x4 <= 1u32,
        x3 <= 1u32,
        x2 <= 1u32,
        x1 <= 1u32,
        x0 <= 1u32,
        (x7 != 0u32) == ((w >> 7u32) & 1u32 != 0u32),
        (x6 != 0u32) == ((w >> 6u32) & 1u32 != 0u32),
        (x5 != 0u32) == ((w >> 5u32) & 1u32 != 0u32),
        (x4 != 0u32) == ((w >> 4u32) & 1u32 != 0u32),
        (x3 != 0u32) == ((w >> 3u32) & 1u32 != 0u32),
        (x2 != 0u32) == ((w >> 2u32) & 1u32 != 0u32),
        (x1 != 0u32) == ((w >> 1u32) & 1u32 != 0u32),
        (x0 != 0u32) == (w & 1u32 != 0u32),
    ensures
        (x7 << 7u32)
            | (x6 << 6u32)
            | (x5 << 5u32)
            | (x4 << 4u32)
            | (x3 << 3u32)
            | (x2 << 2u32)
            | (x1 << 1u32)
            | x0 == w,
{
}

/// Bit-level fact: a three-bit version and five one-bit values packed into a byte are
/// found again at their places.
proof fn lemma_pack_version(v: u8, x4: u32, x3: u32, x2: u32, x1: u32, x0: u32, w: u32)
    by (bit_vector)
    requires
        x4 <= 1u32,
        x3 <= 1u32,
        x2 <= 1u32,
        x1 <= 1u32,
        x0 <= 1u32,
        w == (((v as u32) & 7u32) << 5u32)
            | (x4 << 4u32)
            | (x3 << 3u32)
            | (x2 << 2u32)
            | (x1 << 1u32)
            | x0,
    ensures
        w < 256u32,
        ((w >> 5u32) & 7u32) as u8 == v & 7u8,
        (w >> 4u32) & 1u32 == x4,
        (w >> 3u32) & 1u32 == x3,
        (w >> 2u32) & 1u32 == x2,
        (w >> 1u32) & 1u32 == x1,
        w & 1u32 == x0,
{
}

/// Bit-level fact: packing the version bits and low five bits of a byte gives it back.
proof fn lemma_unpack_version(v: u8, x4: u32, x3: u32, x2: u32, x1: u32, x0: u32, w: u32)
    by (bit_vector)
    requires
        w < 256u32,
        v == ((w >> 5u32) & 7u32) as u8,
        x4 <= 1u32,
        x3 <= 1u32,
        x2 <= 1u32,
        x1 <= 1u32,
        x0 <= 1u32,
        (x4 != 0u32) == ((w >> 4u32) & 1u32 != 0u32),
        (x3 != 0u32) == ((w >> 3u32) & 1u32 != 0u32),
        (x2 != 0u32) == ((w >> 2u32) & 1u32 != 0u32),
        (x1 != 0u32) == ((w >> 1u32) & 1u32 != 0u32),
        (x0 != 0u32) == (w & 1u32 != 0u32),
    ensures
        (((v as u32) & 7u32) << 5u32)
            | (x4 << 4u32)
            | (x3 << 3u32)
            | (x2 << 2u32)
            | (x1 << 1u32)
            | x0 == w,
{
}

/// Bit-level fact: three bytes joined into a word are found again at their places.
proof fn lemma_join_bytes(h: u32, m: u32, l: u32, raw: u32)
    by (bit_vector)
    requires
        h < 256u32,
        m < 256u32,
        l < 256u32,
        raw == (h << 16u32) | (m << 8u32) | l,
    ensures
        raw < 0x1000000u32,
        (raw >> 23u32) & 1u32 == (h >> 7u32) & 1u32,
        (raw >> 22u32) & 1u32 == (h >> 6u32) & 1u32,
        (raw >> 21u32) & 1u32 == (h >> 5u32) & 1u32,
        (raw >> 20u32) & 1u32 == (h >> 4u32) & 1u32,
        (raw >> 19u32) & 1u32 == (h >> 3u32) & 1u32,
        (raw >> 18u32) & 1u32 == (h >> 2u32) & 1u32,
        (raw >> 17u32) & 1u32 == (h >> 1u32) & 1u32,
        (raw >> 16u32) & 1u32 == h & 1u32,
        (raw >> 15u32) & 1u32 == (m >> 7u32) & 1u32,
        (raw >> 14u32) & 1u32 == (m >> 6u32) & 1u32,
        (raw >> 13u32) & 1u32 == (m >> 5u32) & 1u32,
        (raw >> 12u32) & 1u32 == (m >> 4u32) & 1u32,
        (raw >> 11u32) & 1u32 == (m >> 3u32) & 1u32,
        (raw >> 10u32) & 1u32 == (m >> 2u32) & 1u32,
        (raw >> 9u32) & 1u32 == (m >> 1u32) & 1u32,
        (raw >> 8u32) & 1u32 == m & 1u32,
        (raw >> 5u32) & 7u32 == (l >> 5u32) & 7u32,
        (raw >> 4u32) & 1u32 == (l >> 4u32) & 1u32,
        (raw >> 3u32) & 1u32 == (l >> 3u32) & 1u32,
        (raw >> 2u32) & 1u32 == (l >> 2u32) & 1u32,
        (raw >> 1u32) & 1u32 == (l >> 1u32) & 1u32,
        raw & 1u32 == l & 1u32,
{
}

/// Bit-level fact: a 24-bit word is the join of its three bytes, bit for bit.
proof fn lemma_split_bytes(v: u32)
    by (bit_vector)
    requires
        v < 0x1000000u32,
    ensures
        v == (((v >> 16u32) & 0xffu32) << 16u32) | (((v >> 8u32) & 0xffu32) << 8u32) | (v & 0xffu32),
        (v >> 16u32) & 0xffu32 < 256u32,
        (v >> 8u32) & 0xffu32 < 256u32,
        v & 0xffu32 < 256u32,
        (v >> 23u32) & 1u32 == (((v >> 16u32) & 0xffu32) >> 7u32) & 1u32,
        (v >> 22u32) & 1u32 == (((v >> 16u32) & 0xffu32) >> 6u32) & 1u32,
        (v >> 21u32) & 1u32 == (((v >> 16u32) & 0xffu32) >> 5u32) & 1u32,
        (v >> 20u32) & 1u32 == (((v >> 16u32) & 0xffu32) >> 4u32) & 1u32,
        (v >> 19u32) & 1u32 == (((v >> 16u32) & 0xffu32) >> 3u32) & 1u32,
        (v >> 18u32) & 1u32 == (((v >> 16u32) & 0xffu32) >> 2u32) & 1u32,
        (v >> 17u32) & 1u32 == (((v >> 16u32) & 0xffu32) >> 1u32) & 1u32,
        (v >> 16u32) & 1u32 == ((v >> 16u32) & 0xffu32) & 1u32,
        (v >> 15u32) & 1u32 == (((v >> 8u32) & 0xffu32) >> 7u32) & 1u32,
        (v >> 14u32) & 1u32 == (((v >> 8u32) & 0xffu32) >> 6u32) & 1u32,
        (v >> 13u32) & 1u32 == (((v >> 8u32) & 0xffu32) >> 5u32) & 1u32,
        (v >> 12u32) & 1u32 == (((v >> 8u32) & 0xffu32) >> 4u32) & 1u32,
        (v >> 11u32) & 1u32 == (((v >> 8u32) & 0xffu32) >> 3u32) & 1u32,
        (v >> 10u32) & 1u32 == (((v >> 8u32) & 0xffu32) >> 2u32) & 1u32,
        (v >> 9u32) & 1u32 == (((v >> 8u32) & 0xffu32) >> 1u32) & 1u32,
        (v >> 8u32) & 1u32 == ((v >> 8u32) & 0xffu32) & 1u32,
        (v >> 5u32) & 7u32 == ((v & 0xffu32) >> 5u32) & 7u32,
        (v >> 4u32) & 1u32 == ((v & 0xffu32) >> 4u32) & 1u32,
        (v >> 3u32) & 1u32 == ((v & 0xffu32) >> 3u32) & 1u32,
        (v >> 2u32) & 1u32 == ((v & 0xffu32) >> 2u32) & 1u32,
        (v >> 1u32) & 1u32 == ((v & 0xffu32) >> 1u32) & 1u32,
        v & 1u32 == (v & 0xffu32) & 1u32,
{
}

/// The first byte is below 256 and holds each of its flags at its place.
proof fn lemma_high_byte(c: ClassOfMs)
    ensures
        c.high_byte() < 256u32,
        ((c.high_byte() >> 7u32) & 1u32 != 0u32) == c.freq_simplex_duplex,
        ((c.high_byte() >> 6u32) & 1u32 != 0u32) == c.multislot_phase_mod,
        ((c.high_byte() >> 5u32) & 1u32 != 0u32) == c.concurrent_multicarrier,
        ((c.high_byte() >> 4u32) & 1u32 != 0u32) == c.voice,
        ((c.high_byte() >> 3u32) & 1u32 != 0u32) == c.e2e_encryption_not_supported,
        ((c.high_byte() >> 2u32) & 1u32 != 0u32) == c.circuit_mode_data,
        ((c.high_byte() >> 1u32) & 1u32 != 0u32) == c.tetra_packet_data,
        (c.high_byte() & 1u32 != 0u32) == c.fast_switching,
{
    reveal(ClassOfMs::high_byte);
    lemma_flag_value(c.freq_simplex_duplex);
    lemma_flag_value(c.multislot_phase_mod);
    lemma_flag_value(c.concurrent_multicarrier);
    lemma_flag_value(c.voice);
    lemma_flag_value(c.e2e_encryption_not_supported);
    lemma_flag_value(c.circuit_mode_data);
    lemma_flag_value(c.tetra_packet_data);
    lemma_flag_value(c.fast_switching);
    lemma_pack8(flag_value(c.freq_simplex_duplex), flag_value(c.multislot_phase_mod), flag_value(c.concurrent_multicarrier), flag_value(c.voice), flag_value(c.e2e_encryption_not_supported), flag_value(c.circuit_mode_data), flag_value(c.tetra_packet_data), flag_value(c.fast_switching), c.high_byte());
}

/// The high byte is below 256.
proof fn lemma_high_byte_bound(c: ClassOfMs)
    ensures
        c.high_byte() < 256u32,
{
    lemma_high_byte(c);
}

/// The second byte is below 256 and holds each of its flags at its place.
proof fn lemma_middle_byte(c: ClassOfMs)
    ensures
        c.middle_byte() < 256u32,
        ((c.middle_byte() >> 7u32) & 1u32 != 0u32) == c.dck_encryption,
        ((c.middle_byte() >> 6u32) & 1u32 != 0u32) == c.clch_needed,
        ((c.middle_byte() >> 5u32) & 1u32 != 0u32) == c.concurrent_circuit_mode,
        ((c.middle_byte() >> 4u32) & 1u32 != 0u32) == c.original_advanced_link,
        ((c.middle_byte() >> 3u32) & 1u32 != 0u32) == c.minimum_mode,
        ((c.middle_byte() >> 2u32) & 1u32 != 0u32) == c.carrier_specific_signalling,
        ((c.middle_byte() >> 1u32) & 1u32 != 0u32) == c.authentication,
        (c.middle_byte() & 1u32 != 0u32) == c.sck_encryption,
{
    reveal(ClassOfMs::middle_byte);
    lemma_flag_value(c.dck_encryption);
    lemma_flag_value(c.clch_needed);
    lemma_flag_value(c.concurrent_circuit_mode);
    lemma_flag_value(c.original_advanced_link);
    lemma_flag_value(c.minimum_mode);
    lemma_flag_value(c.carrier_specific_signalling);
    lemma_flag_value(c.authentication);
    lemma_flag_value(c.sck_encryption);
    lemma_pack8(flag_value(c.dck_encryption), flag_value(c.clch_needed), flag_value(c.concurrent_circuit_mode), flag_value(c.original_advanced_link), flag_value(c.minimum_mode), flag_value(c.carrier_specific_signalling), flag_value(c.authentication), flag_value(c.sck_encryption), c.middle_byte());
}

/// The middle byte is below 256.
proof fn lemma_middle_byte_bound(c: ClassOfMs)
    ensures
        c.middle_byte() < 256u32,
{
    lemma_middle_byte(c);
}

/// The last byte is below 256 and holds the version's low bits and each flag at their places.
proof fn lemma_low_byte(c: ClassOfMs)
    ensures
        c.low_byte() < 256u32,
        ((c.low_byte() >> 5u32) & 7u32) as u8 == c.air_interface_version & 7u8,
        ((c.low_byte() >> 4u32) & 1u32 != 0u32) == c.common_scch,
        ((c.low_byte() >> 3u32) & 1u32 != 0u32) == c.reserved_21,
        ((c.low_byte() >> 2u32) & 1u32 != 0u32) == c.mac_d_blck,
        ((c.low_byte() >> 1u32) & 1u32 != 0u32) == c.extended_advanced_link,
        (c.low_byte() & 1u32 != 0u32) == c.d8psk,
{
    reveal(ClassOfMs::low_byte);
    lemma_flag_value(c.common_scch);
    lemma_flag_value(c.reserved_21);
    lemma_flag_value(c.mac_d_blck);
    lemma_flag_value(c.extended_advanced_link);
    lemma_flag_value(c.d8psk);
    lemma_pack_version(c.air_interface_version, flag_value(c.common_scch), flag_value(c.reserved_21), flag_value(c.mac_d_blck), flag_value(c.extended_advanced_link), flag_value(c.d8psk), c.low_byte());
}

/// The low byte is below 256.
proof fn lemma_low_byte_bound(c: ClassOfMs)
    ensures
        c.low_byte() < 256u32,
{
    lemma_low_byte(c);
}

/// The first byte of the element a value stands for is that value's first byte.
proof fn lemma_high_byte_of(v: u32)
    requires
        v < 0x1000000,
    ensures
        ClassOfMs::spec_from_raw(v).high_byte() == (v >> 16u32) & 0xffu32,
{
    reveal(ClassOfMs::high_byte);
    let c = ClassOfMs::spec_from_raw(v);
    lemma_split_bytes(v);
    lemma_flag_value(c.freq_simplex_duplex);
    lemma_flag_value(c.multislot_phase_mod);
    lemma_flag_value(c.concurrent_multicarrier);
    lemma_flag_value(c.voice);
    lemma_flag_value(c.e2e_encryption_not_supported);
    lemma_flag_value(c.circuit_mode_data);
    lemma_flag_value(c.tetra_packet_data);
    lemma_flag_value(c.fast_switching);
    lemma_unpack8(flag_value(c.freq_simplex_duplex), flag_value(c.multislot_phase_mod), flag_value(c.concurrent_multicarrier), flag_value(c.voice), flag_value(c.e2e_encryption_not_supported), flag_value(c.circuit_mode_data), flag_value(c.tetra_packet_data), flag_value(c.fast_switching), (v >> 16u32) & 0xffu32);
}

/// The second byte of the element a value stands for is that value's second byte.
proof fn lemma_middle_byte_of(v: u32)
    requires
        v < 0x1000000,
    ensures
        ClassOfMs::spec_from_raw(v).middle_byte() == (v >> 8u32) & 0xffu32,
{
    reveal(ClassOfMs::middle_byte);
    let c = ClassOfMs::spec_from_raw(v);
    lemma_split_bytes(v);
    lemma_flag_value(c.dck_encryption);
    lemma_flag_value(c.clch_needed);
    lemma_flag_value(c.concurrent_circuit_mode);
    lemma_flag_value(c.original_advanced_link);
    lemma_flag_value(c.minimum_mode);
    lemma_flag_value(c.carrier_specific_signalling);
    lemma_flag_value(c.authentication);
    lemma_flag_value(c.sck_encryption);
    lemma_unpack8(flag_value(c.dck_encryption), flag_value(c.clch_needed), flag_value(c.concurrent_circuit_mode), flag_value(c.original_advanced_link), flag_value(c.minimum_mode), flag_value(c.carrier_specific_signalling), flag_value(c.authentication), flag_value(c.sck_encryption), (v >> 8u32) & 0xffu32);
}

/// The last byte of the element a value stands for is that value's last byte.
proof fn lemma_low_byte_of(v: u32)
    requires
        v < 0x1000000,
    ensures
        ClassOfMs::spec_from_raw(v).low_byte() == v & 0xffu32,
{
    reveal(ClassOfMs::low_byte);
    let c = ClassOfMs::spec_from_raw(v);
    lemma_split_bytes(v);
    lemma_flag_value(c.common_scch);
    lemma_flag_value(c.reserved_21);
    lemma_flag_value(c.mac_d_blck);
    lemma_flag_value(c.extended_advanced_link);
    lemma_flag_value(c.d8psk);
    lemma_unpack_version(c.air_interface_version, flag_value(c.common_scch), flag_value(c.reserved_21), flag_value(c.mac_d_blck), flag_value(c.extended_advanced_link), flag_value(c.d8psk), v & 0xffu32);
}

/// Each capability of the first byte is sent at its own bit of the encoded value: duplex
/// highest (bit 23), then multislot, concurrent multicarrier, voice, end-to-end
/// encryption not supported, circuit mode data, packet data and fast switching (bit 16).
pub proof fn lemma_high_flags_read_back(c: ClassOfMs)
    ensures
        bit_set(c.spec_to_raw(), 23) == c.freq_simplex_duplex,
        bit_set(c.spec_to_raw(), 22) == c.multislot_phase_mod,
        bit_set(c.spec_to_raw(), 21) == c.concurrent_multicarrier,
        bit_set(c.spec_to_raw(), 20) == c.voice,
        bit_set(c.spec_to_raw(), 19) == c.e2e_encryption_not_supported,
        bit_set(c.spec_to_raw(), 18) == c.circuit_mode_data,
        bit_set(c.spec_to_raw(), 17) == c.tetra_packet_data,
        bit_set(c.spec_to_raw(), 16) == c.fast_switching,
{
    lemma_high_byte(c);
    lemma_middle_byte_bound(c);
    lemma_low_byte_bound(c);
    lemma_join_bytes(c.high_byte(), c.middle_byte(), c.low_byte(), c.spec_to_raw());
}

/// Each capability of the second byte is sent at its own bit of the encoded value: DCK
/// encryption at bit 15, then CLCH, concurrent circuit mode, original advanced link,
/// minimum mode, carrier specific signalling, authentication (bit 9) and SCK encryption
/// (bit 8).
pub proof fn lemma_middle_flags_read_back(c: ClassOfMs)
    ensures
        bit_set(c.spec_to_raw(), 15) == c.dck_encryption,
        bit_set(c.spec_to_raw(), 14) == c.clch_needed,
        bit_set(c.spec_to_raw(), 13) == c.concurrent_circuit_mode,
        bit_set(c.spec_to_raw(), 12) == c.original_advanced_link,
        bit_set(c.spec_to_raw(), 11) == c.minimum_mode,
        bit_set(c.spec_to_raw(), 10) == c.carrier_specific_signalling,
        bit_set(c.spec_to_raw(), 9) == c.authentication,
        bit_set(c.spec_to_raw(), 8) == c.sck_encryption,
{
    lemma_high_byte_bound(c);
    lemma_middle_byte(c);
    lemma_low_byte_bound(c);
    lemma_join_bytes(c.high_byte(), c.middle_byte(), c.low_byte(), c.spec_to_raw());
}

/// The low three bits of the air interface version are sent at bits 7 to 5 of the encoded
/// value, then common SCCH, reserved, MAC-D-BLCK, extended advanced link and D8PSK (bit 0);
/// the value fits in 24 bits.
pub proof fn lemma_low_fields_read_back(c: ClassOfMs)
    ensures
        bit_set(c.spec_to_raw(), 4) == c.common_scch,
        bit_set(c.spec_to_raw(), 3) == c.reserved_21,
        bit_set(c.spec_to_raw(), 2) == c.mac_d_blck,
        bit_set(c.spec_to_raw(), 1) == c.extended_advanced_link,
        (c.spec_to_raw() & 1 != 0) == c.d8psk,
        ((c.spec_to_raw() >> 5) & 7) as u8 == c.air_interface_version & 7,
        c.spec_to_raw() < 0x1000000,
{
    lemma_high_byte_bound(c);
    lemma_middle_byte_bound(c);
    lemma_low_byte(c);
    lemma_join_bytes(c.high_byte(), c.middle_byte(), c.low_byte(), c.spec_to_raw());
}

/// An element whose fields are all found at their places in `raw` is what `raw` encodes,
/// up to the bits of the version that are not sent.
proof fn lemma_fields_found(c: ClassOfMs, raw: u32)
    requires
        bit_set(raw, 23) == c.freq_simplex_duplex,
        bit_set(raw, 22) == c.multislot_phase_mod,
        bit_set(raw, 21) == c.concurrent_multicarrier,
        bit_set(raw, 20) == c.voice,
        bit_set(raw, 19) == c.e2e_encryption_not_supported,
        bit_set(raw, 18) == c.circuit_mode_data,
        bit_set(raw, 17) == c.tetra_packet_data,
        bit_set(raw, 16) == c.fast_switching,
        bit_set(raw, 15) == c.dck_encryption,
        bit_set(raw, 14) == c.clch_needed,
        bit_set(raw, 13) == c.concurrent_circuit_mode,
        bit_set(raw, 12) == c.original_advanced_link,
        bit_set(raw, 11) == c.minimum_mode,
        bit_set(raw, 10) == c.carrier_specific_signalling,
        bit_set(raw, 9) == c.authentication,
        bit_set(raw, 8) == c.sck_encryption,
        bit_set(raw, 4) == c.common_scch,
        bit_set(raw, 3) == c.reserved_21,
        bit_set(raw, 2) == c.mac_d_blck,
        bit_set(raw, 1) == c.extended_advanced_link,
        (raw & 1 != 0) == c.d8psk,
        ((raw >> 5) & 7) as u8 == c.air_interface_version & 7,
    ensures
        ClassOfMs::spec_from_raw(raw) == c.sent_form(),
{
}

/// Reading back the field value of an element gives the element, with its air interface
/// version cut to the three bits that are sent; and that value fits in 24 bits.
pub proof fn lemma_class_of_ms_raw_roundtrip(c: ClassOfMs)
    ensures
        ClassOfMs::spec_from_raw(c.spec_to_raw()) == c.sent_form(),
        c.spec_to_raw() < 0x1000000,
{
    lemma_high_flags_read_back(c);
    lemma_middle_flags_read_back(c);
    lemma_low_fields_read_back(c);
    lemma_fields_found(c, c.spec_to_raw());
}

/// Encoding the element that a 24-bit value stands for gives the value back.
pub proof fn lemma_class_of_ms_value_roundtrip(v: u32)
    requires
        v < 0x1000000,
    ensures
        ClassOfMs::spec_from_raw(v).spec_to_raw() == v,
{
    lemma_split_bytes(v);
    lemma_high_byte_of(v);
    lemma_middle_byte_of(v);
    lemma_low_byte_of(v);
}

/// Reading an element written at the cursor gives it back, with its air interface version
/// cut to the three bits that are sent.
pub proof fn lemma_class_of_ms_write_then_read(c: ClassOfMs, b: Seq<bool>, pos: int)
    requires
        0 <= pos <= b.len(),
    ensures
        ClassOfMs::spec_parse(splice_bits(b, pos, value_bits(c.spec_to_raw() as nat, 24)), pos) == (
            Ok::<ClassOfMs, PduParseErr>(c.sent_form()),
            pos + 24,
        ),
{
    lemma_class_of_ms_raw_roundtrip(c);
    lemma_write_then_read(b, pos, c.spec_to_raw() as nat, 24);
    lemma_splice_reads_back(b, pos, value_bits(c.spec_to_raw() as nat, 24));
    lemma_value_bits_roundtrip(c.spec_to_raw() as nat, 24);
    lemma2_to64();
}

/// Whether `s` holds `label` immediately followed by `value`.
#[verifier::opaque]
pub open spec fn shows(s: Seq<char>, label: Seq<char>, value: Seq<char>) -> bool {
    exists|x: Seq<char>, y: Seq<char>| #[trigger] (x + label + value + y) == s
}

/// A text that ends in a label and its value shows them.
broadcast proof fn lemma_shows_end(x: Seq<char>, label: Seq<char>, value: Seq<char>)
    ensures
        #[trigger] shows(x + label + value, label, value),
{
    reveal(shows);
    assert(x + label + value + Seq::<char>::empty() =~= x + label + value);
}

/// A label with its value shows them.
broadcast proof fn lemma_shows_start(label: Seq<char>, value: Seq<char>)
    ensures
        #[trigger] shows(label + value, label, value),
{
    reveal(shows);
    assert(Seq::<char>::empty() + label + value + Seq::<char>::empty() =~= label + value);
}

/// What a text shows, it still shows with more text after it.
broadcast proof fn lemma_shows_append(m: Seq<char>, p: Seq<char>, label: Seq<char>, value: Seq<char>)
    requires
        shows(m, label, value),
    ensures
        #[trigger] shows(m + p, label, value),
{
    reveal(shows);
    let (x, y) = choose|x: Seq<char>, y: Seq<char>| #[trigger] (x + label + value + y) == m;
    assert(x + label + value + (y + p) =~= m + p);
}

/// What a text shows, it still shows with more text before it.
proof fn lemma_shows_prepend(a: Seq<char>, m: Seq<char>, label: Seq<char>, value: Seq<char>)
    requires
        shows(m, label, value),
    ensures
        shows(a + m, label, value),
{
    reveal(shows);
    let (x, y) = choose|x: Seq<char>, y: Seq<char>| #[trigger] (x + label + value + y) == m;
    assert((a + x) + label + value + y =~= a + m);
}

/// The first part of the text shows each of its entries.
proof fn lemma_first_shows(c: ClassOfMs)
    ensures
        shows(c.display_first(), "ClassOfMs { duplex:"@, bool_text(c.freq_simplex_duplex)),
        shows(c.display_first(), " multislot_pm:"@, bool_text(c.multislot_phase_mod)),
        shows(c.display_first(), " concurrent_mc:"@, bool_text(c.concurrent_multicarrier)),
        shows(c.display_first(), " voice:"@, bool_text(c.voice)),
        shows(c.display_first(), " e2e_enc:"@, bool_text(!c.e2e_encryption_not_supported)),
        shows(c.display_first(), " circ_data:"@, bool_text(c.circuit_mode_data)),
        shows(c.display_first(), " pkt_data:"@, bool_text(c.tetra_packet_data)),
        shows(c.display_first(), " fast_sw:"@, bool_text(c.fast_switching)),
{
    reveal(ClassOfMs::display_first);
    broadcast use lemma_shows_start, lemma_shows_end, lemma_shows_append;
}

/// The second part of the text shows each of its entries.
proof fn lemma_second_shows(c: ClassOfMs)
    ensures
        shows(c.display_second(), " dck:"@, bool_text(c.dck_encryption)),
        shows(c.display_second(), " clch:"@, bool_text(c.clch_needed)),
        shows(c.display_second(), " concurrent_cm:"@, bool_text(c.concurrent_circuit_mode)),
        shows(c.display_second(), " orig_adv_link:"@, bool_text(c.original_advanced_link)),
        shows(c.display_second(), " min_mode:"@, bool_text(c.minimum_mode)),
        shows(c.display_second(), " carrier_sig:"@, bool_text(c.carrier_specific_signalling)),
        shows(c.display_second(), " auth:"@, bool_text(c.authentication)),
        shows(c.display_second(), " sck:"@, bool_text(c.sck_encryption)),
{
    reveal(ClassOfMs::display_second);
    broadcast use lemma_shows_start, lemma_shows_end, lemma_shows_append;
}

/// The last part of the text shows each of its entries.
proof fn lemma_last_shows(c: ClassOfMs)
    ensures
        shows(c.display_last(), " aiv:"@, decimal_text(c.air_interface_version)),
        shows(c.display_last(), " common_scch:"@, bool_text(c.common_scch)),
        shows(c.display_last(), " rsvd21:"@, bool_text(c.reserved_21)),
        shows(c.display_last(), " mac_d_blck:"@, bool_text(c.mac_d_blck)),
        shows(c.display_last(), " ext_adv_link:"@, bool_text(c.extended_advanced_link)),
        shows(c.display_last(), " d8psk:"@, bool_text(c.d8psk)),
{
    reveal(ClassOfMs::display_last);
    broadcast use lemma_shows_start, lemma_shows_end, lemma_shows_append;
}

/// The whole text shows each entry of its first part.
proof fn lemma_whole_shows_first(c: ClassOfMs)
    ensures
        shows(c.spec_display(), "ClassOfMs { duplex:"@, bool_text(c.freq_simplex_duplex)),
        shows(c.spec_display(), " multislot_pm:"@, bool_text(c.multislot_phase_mod)),
        shows(c.spec_display(), " concurrent_mc:"@, bool_text(c.concurrent_multicarrier)),
        shows(c.spec_display(), " voice:"@, bool_text(c.voice)),
        shows(c.spec_display(), " e2e_enc:"@, bool_text(!c.e2e_encryption_not_supported)),
        shows(c.spec_display(), " circ_data:"@, bool_text(c.circuit_mode_data)),
        shows(c.spec_display(), " pkt_data:"@, bool_text(c.tetra_packet_data)),
        shows(c.spec_display(), " fast_sw:"@, bool_text(c.fast_switching)),
{
    let df = c.display_first();
    let ds = c.display_second();
    let dl = c.display_last();
    lemma_first_shows(c);
    lemma_shows_append(df, ds, "ClassOfMs { duplex:"@, bool_text(c.freq_simplex_duplex));
    lemma_shows_append(df + ds, dl, "ClassOfMs { duplex:"@, bool_text(c.freq_simplex_duplex));
    lemma_shows_append(df, ds, " multislot_pm:"@, bool_text(c.multislot_phase_mod));
    lemma_shows_append(df + ds, dl, " multislot_pm:"@, bool_text(c.multislot_phase_mod));
    lemma_shows_append(df, ds, " concurrent_mc:"@, bool_text(c.concurrent_multicarrier));
    lemma_shows_append(df + ds, dl, " concurrent_mc:"@, bool_text(c.concurrent_multicarrier));
    lemma_shows_append(df, ds, " voice:"@, bool_text(c.voice));
    lemma_shows_append(df + ds, dl, " voice:"@, bool_text(c.voice));
    lemma_shows_append(df, ds, " e2e_enc:"@, bool_text(!c.e2e_encryption_not_supported));
    lemma_shows_append(df + ds, dl, " e2e_enc:"@, bool_text(!c.e2e_encryption_not_supported));
    lemma_shows_append(df, ds, " circ_data:"@, bool_text(c.circuit_mode_data));
    lemma_shows_append(df + ds, dl, " circ_data:"@, bool_text(c.circuit_mode_data));
    lemma_shows_append(df, ds, " pkt_data:"@, bool_text(c.tetra_packet_data));
    lemma_shows_append(df + ds, dl, " pkt_data:"@, bool_text(c.tetra_packet_data));
    lemma_shows_append(df, ds, " fast_sw:"@, bool_text(c.fast_switching));
    lemma_shows_append(df + ds, dl, " fast_sw:"@, bool_text(c.fast_switching));
}

/// The whole text shows each entry of its second part.
proof fn lemma_whole_shows_second(c: ClassOfMs)
    ensures
        shows(c.spec_display(), " dck:"@, bool_text(c.dck_encryption)),
        shows(c.spec_display(), " clch:"@, bool_text(c.clch_needed)),
        shows(c.spec_display(), " concurrent_cm:"@, bool_text(c.concurrent_circuit_mode)),
        shows(c.spec_display(), " orig_adv_link:"@, bool_text(c.original_advanced_link)),
        shows(c.spec_display(), " min_mode:"@, bool_text(c.minimum_mode)),
        shows(c.spec_display(), " carrier_sig:"@, bool_text(c.carrier_specific_signalling)),
        shows(c.spec_display(), " auth:"@, bool_text(c.authentication)),
        shows(c.spec_display(), " sck:"@, bool_text(c.sck_encryption)),
{
    let df = c.display_first();
    let ds = c.display_second();
    let dl = c.display_last();
    lemma_second_shows(c);
    lemma_shows_prepend(df, ds, " dck:"@, bool_text(c.dck_encryption));
    lemma_shows_append(df + ds, dl, " dck:"@, bool_text(c.dck_encryption));
    lemma_shows_prepend(df, ds, " clch:"@, bool_text(c.clch_needed));
    lemma_shows_append(df + ds, dl, " clch:"@, bool_text(c.clch_needed));
    lemma_shows_prepend(df, ds, " concurrent_cm:"@, bool_text(c.concurrent_circuit_mode));
    lemma_shows_append(df + ds, dl, " concurrent_cm:"@, bool_text(c.concurrent_circuit_mode));
    lemma_shows_prepend(df, ds, " orig_adv_link:"@, bool_text(c.original_advanced_link));
    lemma_shows_append(df + ds, dl, " orig_adv_link:"@, bool_text(c.original_advanced_link));
    lemma_shows_prepend(df, ds, " min_mode:"@, bool_text(c.minimum_mode));
    lemma_shows_append(df + ds, dl, " min_mode:"@, bool_text(c.minimum_mode));
    lemma_shows_prepend(df, ds, " carrier_sig:"@, bool_text(c.carrier_specific_signalling));
    lemma_shows_append(df + ds, dl, " carrier_sig:"@, bool_text(c.carrier_specific_signalling));
    lemma_shows_prepend(df, ds, " auth:"@, bool_text(c.authentication));
    lemma_shows_append(df + ds, dl, " auth:"@, bool_text(c.authentication));
    lemma_shows_prepend(df, ds, " sck:"@, bool_text(c.sck_encryption));
    lemma_shows_append(df + ds, dl, " sck:"@, bool_text(c.sck_encryption));
}

/// The whole text shows each entry of its last part.
proof fn lemma_whole_shows_last(c: ClassOfMs)
    ensures
        shows(c.spec_display(), " aiv:"@, decimal_text(c.air_interface_version)),
        shows(c.spec_display(), " common_scch:"@, bool_text(c.common_scch)),
        shows(c.spec_display(), " rsvd21:"@, bool_text(c.reserved_21)),
        shows(c.spec_display(), " mac_d_blck:"@, bool_text(c.mac_d_blck)),
        shows(c.spec_display(), " ext_adv_link:"@, bool_text(c.extended_advanced_link)),
        shows(c.spec_display(), " d8psk:"@, bool_text(c.d8psk)),
{
    let df = c.display_first();
    let ds = c.display_second();
    let dl = c.display_last();
    lemma_last_shows(c);
    lemma_shows_prepend(df + ds, dl, " aiv:"@, decimal_text(c.air_interface_version));
    lemma_shows_prepend(df + ds, dl, " common_scch:"@, bool_text(c.common_scch));
    lemma_shows_prepend(df + ds, dl, " rsvd21:"@, bool_text(c.reserved_21));
    lemma_shows_prepend(df + ds, dl, " mac_d_blck:"@, bool_text(c.mac_d_blck));
    lemma_shows_prepend(df + ds, dl, " ext_adv_link:"@, bool_text(c.extended_advanced_link));
    lemma_shows_prepend(df + ds, dl, " d8psk:"@, bool_text(c.d8psk));
}

/// The text of an element names each capability and puts right after the name the text
/// of that very field: the flags as `true` or `false`, end-to-end encryption as whether
/// it is supported, and the air interface version in decimal.
pub proof fn lemma_display_shows_each_field(c: ClassOfMs)
    ensures
        shows(c.spec_display(), "ClassOfMs { duplex:"@, bool_text(c.freq_simplex_duplex)),
        shows(c.spec_display(), " multislot_pm:"@, bool_text(c.multislot_phase_mod)),
        shows(c.spec_display(), " concurrent_mc:"@, bool_text(c.concurrent_multicarrier)),
        shows(c.spec_display(), " voice:"@, bool_text(c.voice)),
        shows(c.spec_display(), " e2e_enc:"@, bool_text(!c.e2e_encryption_not_supported)),
        shows(c.spec_display(), " circ_data:"@, bool_text(c.circuit_mode_data)),
        shows(c.spec_display(), " pkt_data:"@, bool_text(c.tetra_packet_data)),
        shows(c.spec_display(), " fast_sw:"@, bool_text(c.fast_switching)),
        shows(c.spec_display(), " dck:"@, bool_text(c.dck_encryption)),
        shows(c.spec_display(), " clch:"@, bool_text(c.clch_needed)),
        shows(c.spec_display(), " concurrent_cm:"@, bool_text(c.concurrent_circuit_mode)),
        shows(c.spec_display(), " orig_adv_link:"@, bool_text(c.original_advanced_link)),
        shows(c.spec_display(), " min_mode:"@, bool_text(c.minimum_mode)),
        shows(c.spec_display(), " carrier_sig:"@, bool_text(c.carrier_specific_signalling)),
        shows(c.spec_display(), " auth:"@, bool_text(c.authentication)),
        shows(c.spec_display(), " sck:"@, bool_text(c.sck_encryption)),
        shows(c.spec_display(), " aiv:"@, decimal_text(c.air_interface_version)),
        shows(c.spec_display(), " common_scch:"@, bool_text(c.common_scch)),
        shows(c.spec_display(), " rsvd21:"@, bool_text(c.reserved_21)),
        shows(c.spec_display(), " mac_d_blck:"@, bool_text(c.mac_d_blck)),
        shows(c.spec_display(), " ext_adv_link:"@, bool_text(c.extended_advanced_link)),
        shows(c.spec_display(), " d8psk:"@, bool_text(c.d8psk)),
{
    lemma_whole_shows_first(c);
    lemma_whole_shows_second(c);
    lemma_whole_shows_last(c);
}

/// The number that a text of decimal digits stands for, the last digit lowest.
pub open spec fn decimal_value(s: Seq<char>) -> int
    decreases s.len(),
{
    if s.len() == 0 {
        0
    } else {
        10 * decimal_value(s.drop_last()) + (s.last() as int - '0' as int)
    }
}

/// Whether every character of `s` is a decimal digit.
pub open spec fn all_digits(s: Seq<char>) -> bool {
    forall|i: int| 0 <= i < s.len() ==> '0' <= #[trigger] s[i] <= '9'
}

/// A flag is written `true` when set and `false` when clear.
pub proof fn lemma_bool_text_values()
    ensures
        bool_text(true) == "true"@,
        bool_text(false) == "false"@,
{
    reveal(bool_text);
}

/// The text of a digit is that one digit.
proof fn lemma_digit_text(d: u8)
    requires
        d < 10,
    ensures
        digit_text(d).len() == 1,
        digit_text(d)[0] as int == '0' as int + d,
{
    reveal_strlit("0");
    reveal_strlit("1");
    reveal_strlit("2");
    reveal_strlit("3");
    reveal_strlit("4");
    reveal_strlit("5");
    reveal_strlit("6");
    reveal_strlit("7");
    reveal_strlit("8");
    reveal_strlit("9");
}

/// A byte is written in decimal: one to three digits that stand for its value, with no
/// leading zero.
pub proof fn lemma_decimal_text_value(n: u8)
    ensures
        1 <= decimal_text(n).len() <= 3,
        all_digits(decimal_text(n)),
        decimal_value(decimal_text(n)) == n,
        decimal_text(n).len() > 1 ==> decimal_text(n)[0] != '0',
{
    reveal(decimal_text);
    reveal_with_fuel(decimal_value, 4);
    if n < 10 {
        lemma_digit_text(n);
        assert(digit_text(n).drop_last() =~= Seq::<char>::empty());
    } else if n < 100 {
        let a = digit_text(n / 10);
        let b = digit_text(n % 10);
        lemma_digit_text(n / 10);
        lemma_digit_text(n % 10);
        assert((a + b).drop_last() =~= a);
        assert(a.drop_last() =~= Seq::<char>::empty());
        assert((a + b).last() == b[0]);
        assert((a + b)[0] == a[0]);
        assert(n == 10 * (n / 10) + n % 10);
    } else {
        let a = digit_text(n / 100);
        let b = digit_text((n / 10) % 10);
        let c = digit_text(n % 10);
        lemma_digit_text(n / 100);
        lemma_digit_text((n / 10) % 10);
        lemma_digit_text(n % 10);
        assert((a + b + c).drop_last() =~= a + b);
        assert((a + b).drop_last() =~= a);
        assert(a.drop_last() =~= Seq::<char>::empty());
        assert((a + b + c).last() == c[0]);
        assert((a + b).last() == b[0]);
        assert((a + b + c)[0] == a[0]);
        assert(n == 100 * (n / 100) + 10 * ((n / 10) % 10) + n % 10);
    }
}

/// Reading an element succeeds exactly where 24 bits are left, and then moves the cursor
/// past them.
pub proof fn lemma_class_of_ms_parse_succeeds(b: Seq<bool>, pos: int)
    ensures
        ClassOfMs::spec_parse(b, pos).0 is Ok <==> pos + 24 <= b.len(),
        ClassOfMs::spec_parse(b, pos).0 is Ok ==> ClassOfMs::spec_parse(b, pos).1 == pos + 24,
{
}

} // verus!
