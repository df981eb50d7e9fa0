use tetra_mm::bit_buffer::{BitBuffer, PduParseErr};
use tetra_mm::class_of_ms::ClassOfMs;

fn sample() -> ClassOfMs {
    ClassOfMs {
        freq_simplex_duplex: true,
        multislot_phase_mod: false,
        concurrent_multicarrier: true,
        voice: false,
        e2e_encryption_not_supported: false,
        circuit_mode_data: true,
        tetra_packet_data: false,
        fast_switching: true,
        dck_encryption: true,
        clch_needed: true,
        concurrent_circuit_mode: false,
        original_advanced_link: false,
        minimum_mode: false,
        carrier_specific_signalling: false,
        authentication: true,
        sck_encryption: true,
        air_interface_version: 5,
        common_scch: true,
        reserved_21: false,
        mac_d_blck: true,
        extended_advanced_link: true,
        d8psk: false,
    }
}

#[test]
fn from_raw_splits_the_fields() {
    assert_eq!(ClassOfMs::from_raw(0xA5C3B6), sample());
}

#[test]
fn to_raw_packs_the_fields() {
    assert_eq!(sample().to_raw(), 0xA5C3B6);
}

#[test]
fn single_bits_land_in_their_fields() {
    let top = ClassOfMs::from_raw(0x80_0000);
    assert!(top.freq_simplex_duplex);
    assert!(!top.d8psk);
    assert_eq!(top.air_interface_version, 0);
    let bottom = ClassOfMs::from_raw(0x00_0001);
    assert!(bottom.d8psk);
    assert!(!bottom.freq_simplex_duplex);
    assert_eq!(ClassOfMs::from_raw(0x00_00E0).air_interface_version, 7);
    assert_eq!(ClassOfMs::from_raw(0).to_raw(), 0);
    assert_eq!(ClassOfMs::from_raw(0xFF_FFFF).to_raw(), 0xFF_FFFF);
}

#[test]
fn raw_value_round_trips() {
    for v in [0u32, 1, 0x123456, 0xFEDCBA, 0xFF_FFFF, 0x55_5555] {
        assert_eq!(ClassOfMs::from_raw(v).to_raw(), v);
    }
}

#[test]
fn air_interface_version_is_cut_to_three_bits() {
    let mut c = sample();
    c.air_interface_version = 13;
    assert_eq!(c.to_raw(), 0xA5C3B6);
    assert_eq!(ClassOfMs::from_raw(c.to_raw()).air_interface_version, 5);
}

#[test]
fn bitbuf_round_trip() {
    let mut buf = BitBuffer::new();
    sample().to_bitbuf(&mut buf).unwrap();
    assert_eq!(buf.get_len(), 24);
    assert_eq!(buf.get_pos(), 24);
    buf.seek(0);
    assert_eq!(buf.read_field(24, "raw").unwrap(), 0xA5C3B6);
    buf.seek(0);
    assert_eq!(ClassOfMs::from_bitbuf(&mut buf).unwrap(), sample());
    assert_eq!(buf.get_pos(), 24);
}

#[test]
fn from_bitbuf_reads_at_the_cursor() {
    let mut buf = BitBuffer::from_bytes(&[0xFF, 0xA5, 0xC3, 0xB6]);
    buf.seek(8);
    assert_eq!(ClassOfMs::from_bitbuf(&mut buf).unwrap(), sample());
}

#[test]
fn from_bitbuf_short_buffer() {
    let mut buf = BitBuffer::from_bytes(&[0xA5, 0xC3]);
    let r = ClassOfMs::from_bitbuf(&mut buf);
    assert!(matches!(r, Err(PduParseErr::BufferEnded { field: Some("class_of_ms") })));
    assert_eq!(buf.get_pos(), 0);
}

#[test]
fn display_text() {
    assert_eq!(
        sample().to_display_string(),
        "ClassOfMs { duplex:true multislot_pm:false concurrent_mc:true voice:false e2e_enc:true circ_data:true pkt_data:false fast_sw:true dck:true clch:true concurrent_cm:false orig_adv_link:false min_mode:false carrier_sig:false auth:true sck:true aiv:5 common_scch:true rsvd21:false mac_d_blck:true ext_adv_link:true d8psk:false }"
    );
}

#[test]
fn display_text_of_large_version_and_no_e2e() {
    let mut c = ClassOfMs::from_raw(0);
    c.e2e_encryption_not_supported = true;
    c.air_interface_version = 200;
    let s = c.to_display_string();
    assert!(s.contains(" e2e_enc:false "));
    assert!(s.contains(" aiv:200 "));
    assert!(s.starts_with("ClassOfMs { duplex:false "));
    assert!(s.ends_with(" d8psk:false }"));
}
