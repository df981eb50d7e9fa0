use tetra_mm::bit_buffer::{BitBuffer, PduParseErr};
use tetra_mm::d_mm_status::DMmStatus;
use tetra_mm::energy_saving_information::EnergySavingInformation;
use tetra_mm::mm_enums::{EnergySavingMode, StatusDownlink};

fn sample() -> DMmStatus {
    DMmStatus {
        status_downlink: StatusDownlink::ChangeOfEnergySavingModeRequest,
        energy_saving_information: Some(EnergySavingInformation {
            energy_saving_mode: EnergySavingMode::Eg3,
            frame_number: 5,
            multiframe_number: 10,
        }),
    }
}

#[test]
fn encodes_to_known_bits() {
    let mut buf = BitBuffer::new();
    sample().to_bitbuf(&mut buf).unwrap();
    assert_eq!(buf.get_len(), 24);
    assert_eq!(buf.get_pos(), 24);
    buf.seek(0);
    assert_eq!(buf.read_field(24, "all").unwrap(), 0xC0594A);
}

#[test]
fn decodes_known_bits() {
    let mut buf = BitBuffer::from_bytes(&[0xC0, 0x59, 0x4A]);
    assert_eq!(DMmStatus::from_bitbuf(&mut buf).unwrap(), sample());
    assert_eq!(buf.get_pos(), 24);
}

#[test]
fn response_round_trips() {
    let pdu = DMmStatus {
        status_downlink: StatusDownlink::ChangeOfEnergySavingModeResponse,
        energy_saving_information: Some(EnergySavingInformation {
            energy_saving_mode: EnergySavingMode::StayAlive,
            frame_number: 31,
            multiframe_number: 63,
        }),
    };
    let mut buf = BitBuffer::from_bytes(&[0x00]);
    buf.seek(8);
    pdu.to_bitbuf(&mut buf).unwrap();
    assert_eq!(buf.get_len(), 32);
    buf.seek(8);
    assert_eq!(DMmStatus::from_bitbuf(&mut buf).unwrap(), pdu);
}

#[test]
fn missing_energy_saving_information_is_refused() {
    let pdu = DMmStatus {
        status_downlink: StatusDownlink::ChangeOfEnergySavingModeRequest,
        energy_saving_information: None,
    };
    let mut buf = BitBuffer::new();
    let r = pdu.to_bitbuf(&mut buf);
    assert!(matches!(
        r,
        Err(PduParseErr::FieldNotPresent { field: Some("energy_saving_information") })
    ));
    // Type and sub-type were written before the refusal.
    assert_eq!(buf.get_len(), 10);
    buf.seek(0);
    assert_eq!(buf.read_field(10, "head").unwrap(), 0b1100_000001);
}

#[test]
fn empty_buffer_ends_at_pdu_type() {
    let mut buf = BitBuffer::new();
    let r = DMmStatus::from_bitbuf(&mut buf);
    assert!(matches!(r, Err(PduParseErr::BufferEnded { field: Some("pdu_type") })));
}

#[test]
fn other_pdu_type_is_refused() {
    let mut buf = BitBuffer::from_bytes(&[0xA0, 0x59, 0x4A]);
    let r = DMmStatus::from_bitbuf(&mut buf);
    assert!(matches!(r, Err(PduParseErr::InvalidPduType { expected: 12, found: 10 })));
    assert_eq!(buf.get_pos(), 4);
}

#[test]
fn short_buffer_ends_at_status_downlink() {
    let mut buf = BitBuffer::from_bytes(&[0xC0]);
    let r = DMmStatus::from_bitbuf(&mut buf);
    assert!(matches!(r, Err(PduParseErr::BufferEnded { field: Some("status_downlink") })));
}

#[test]
fn unknown_status_downlink_is_refused() {
    // Sub-type 0 stands for nothing.
    let mut buf = BitBuffer::from_bytes(&[0xC0, 0x19, 0x4A]);
    let r = DMmStatus::from_bitbuf(&mut buf);
    assert!(matches!(r, Err(PduParseErr::InvalidValue { field: "status_downlink", value: 0 })));
    // Sub-type 63 neither.
    let mut buf = BitBuffer::from_bytes(&[0xCF, 0xC0, 0x00]);
    let r = DMmStatus::from_bitbuf(&mut buf);
    assert!(matches!(r, Err(PduParseErr::InvalidValue { field: "status_downlink", value: 63 })));
}

#[test]
fn truncated_energy_saving_information() {
    let mut buf = BitBuffer::from_bytes(&[0xC0, 0x59]);
    let r = DMmStatus::from_bitbuf(&mut buf);
    assert!(matches!(r, Err(PduParseErr::BufferEnded { field: Some("frame_number") })));
}

#[test]
fn energy_saving_information_alone() {
    let esi = EnergySavingInformation {
        energy_saving_mode: EnergySavingMode::Eg7,
        frame_number: 1,
        multiframe_number: 2,
    };
    let mut buf = BitBuffer::new();
    esi.to_bitbuf(&mut buf).unwrap();
    assert_eq!(buf.get_len(), 14);
    buf.seek(0);
    assert_eq!(buf.read_field(14, "esi").unwrap(), 0b111_00001_000010);
    buf.seek(0);
    assert_eq!(EnergySavingInformation::from_bitbuf(&mut buf).unwrap(), esi);
    let mut short = BitBuffer::from_bytes(&[0xFF]);
    short.seek(6);
    assert!(matches!(
        EnergySavingInformation::from_bitbuf(&mut short),
        Err(PduParseErr::BufferEnded { field: Some("energy_saving_mode") })
    ));
    let mut short = BitBuffer::from_bytes(&[0xFF, 0xFF]);
    short.seek(4);
    assert!(matches!(
        EnergySavingInformation::from_bitbuf(&mut short),
        Err(PduParseErr::BufferEnded { field: Some("multiframe_number") })
    ));
}
