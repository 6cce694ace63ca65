use hyperion::tls::compression_methods::CompressionMethods;
use hyperion::tls::{HandshakeHeader, HandshakeType, RecordHeader, RecordType, TLSVersion};

#[test]
fn compression_methods_are_read_from_their_byte() {
    assert_eq!(CompressionMethods::from(0), CompressionMethods::Null);
    assert_eq!(CompressionMethods::from(1), CompressionMethods::Deflate);
    assert_eq!(CompressionMethods::from(64), CompressionMethods::Lzs);
    assert_eq!(CompressionMethods::from(2), CompressionMethods::Unassigned(2));
    assert_eq!(CompressionMethods::from(63), CompressionMethods::Unassigned(63));
    assert_eq!(CompressionMethods::from(65), CompressionMethods::Unassigned(65));
    assert_eq!(CompressionMethods::from(223), CompressionMethods::Unassigned(223));
    assert_eq!(CompressionMethods::from(224), CompressionMethods::Reserved(224));
    assert_eq!(CompressionMethods::from(255), CompressionMethods::Reserved(255));
}

#[test]
fn versions_are_read_most_significant_byte_first() {
    assert_eq!(TLSVersion::from_bytes([3, 1]), Some(TLSVersion::TLS1));
    assert_eq!(TLSVersion::from_bytes([3, 2]), Some(TLSVersion::TLS1_1));
    assert_eq!(TLSVersion::from_bytes([3, 3]), Some(TLSVersion::TLS1_2));
    assert_eq!(TLSVersion::from_bytes([1, 3]), None);
    assert_eq!(TLSVersion::from_bytes([3, 4]), None);
    assert_eq!(TLSVersion::from_bytes([0, 0]), None);
}

#[test]
fn record_header_is_decoded() {
    assert_eq!(
        RecordHeader::from_bytes(&[22, 3, 1, 0x01, 0x02, 99]),
        Some(RecordHeader {
            record_type: RecordType::Handshake,
            tls_version: TLSVersion::TLS1,
            record_length: 258,
        })
    );
    assert_eq!(
        RecordHeader::from_bytes(&[23, 3, 3, 0xff, 0xff]),
        Some(RecordHeader {
            record_type: RecordType::ApplicationData,
            tls_version: TLSVersion::TLS1_2,
            record_length: 65535,
        })
    );
    assert_eq!(RecordType::from_byte(20), Some(RecordType::ChangeCipherSpec));
    assert_eq!(RecordType::from_byte(21), Some(RecordType::Alert));
    assert_eq!(RecordType::from_byte(24), Some(RecordType::Heartbeat));
}

#[test]
fn malformed_record_header_is_refused() {
    assert_eq!(RecordHeader::from_bytes(&[]), None);
    assert_eq!(RecordHeader::from_bytes(&[22, 3, 1, 0]), None);
    assert_eq!(RecordHeader::from_bytes(&[19, 3, 1, 0, 0]), None);
    assert_eq!(RecordHeader::from_bytes(&[25, 3, 1, 0, 0]), None);
    assert_eq!(RecordHeader::from_bytes(&[22, 3, 0, 0, 0]), None);
    assert_eq!(RecordHeader::from_bytes(&[22, 2, 1, 0, 0]), None);
}

#[test]
fn handshake_header_is_decoded() {
    assert_eq!(
        HandshakeHeader::from_bytes(&[1, 0x01, 0x02, 0x03]),
        Some(HandshakeHeader { handshake_type: HandshakeType::ClientHello, data_length: 66051 })
    );
    assert_eq!(
        HandshakeHeader::from_bytes(&[20, 0xff, 0xff, 0xff, 7]),
        Some(HandshakeHeader { handshake_type: HandshakeType::Finished, data_length: 16777215 })
    );
    let kinds = [
        (0, HandshakeType::HelloRequest),
        (1, HandshakeType::ClientHello),
        (2, HandshakeType::ServerHello),
        (4, HandshakeType::NewSessionTicket),
        (11, HandshakeType::Certificate),
        (12, HandshakeType::ServerKeyExchange),
        (13, HandshakeType::CertificateRequest),
        (14, HandshakeType::ServerDone),
        (15, HandshakeType::CertificateVerify),
        (16, HandshakeType::ClientKeyExchange),
        (20, HandshakeType::Finished),
    ];
    for (byte, kind) in kinds {
        assert_eq!(HandshakeType::from_byte(byte), Some(kind));
    }
}

#[test]
fn malformed_handshake_header_is_refused() {
    assert_eq!(HandshakeHeader::from_bytes(&[1, 0, 0]), None);
    assert_eq!(HandshakeHeader::from_bytes(&[3, 0, 0, 0]), None);
    assert_eq!(HandshakeHeader::from_bytes(&[17, 0, 0, 0]), None);
    assert_eq!(HandshakeType::from_byte(255), None);
}
