/// The compression methods of a hello message.
pub mod compression_methods;

use vstd::prelude::*;

verus! {

/// The content types of TLS records.
#[derive(Debug, Clone, Copy, PartialEq, Eq, Structural)]
pub enum RecordType {
    /// `change_cipher_spec` (20).
    ChangeCipherSpec,
    /// `alert` (21).
    Alert,
    /// `handshake` (22).
    Handshake,
    /// `application_data` (23).
    ApplicationData,
    /// `heartbeat` (24).
    Heartbeat,
}

impl RecordType {
    /// The content type that the byte `value` names, if it names one.
    pub open spec fn of_byte(value: u8) -> Option<RecordType> {
        match value {
            20 => Some(RecordType::ChangeCipherSpec),
            21 => Some(RecordType::Alert),
            22 => Some(RecordType::Handshake),
            23 => Some(RecordType::ApplicationData),
            24 => Some(RecordType::Heartbeat),
            _ => None,
        }
    }

    /// Reads a content type.
    pub fn from_byte(value: u8) -> (r: Option<RecordType>)
        ensures
            r == RecordType::of_byte(value),
    {
        match value {
            20 => Some(RecordType::ChangeCipherSpec),
            21 => Some(RecordType::Alert),
            22 => Some(RecordType::Handshake),
            23 => Some(RecordType::ApplicationData),
            24 => Some(RecordType::Heartbeat),
            _ => None,
        }
    }
}

/// The protocol versions that a record can carry.
#[allow(non_camel_case_types)]
#[derive(Debug, Clone, Copy, PartialEq, Eq, Structural)]
pub enum TLSVersion {
    /// TLS 1.0 (`03 01`).
    TLS1,
    /// TLS 1.1 (`03 02`).
    TLS1_1,
    /// TLS 1.2 (`03 03`).
    TLS1_2,
}

impl TLSVersion {
    /// The version that the two bytes name, most significant first, if they
    /// name one.
    pub open spec fn of_bytes(msb: u8, lsb: u8) -> Option<TLSVersion> {
        if msb == 3 && lsb == 1 {
            Some(TLSVersion::TLS1)
        } else if msb == 3 && lsb == 2 {
            Some(TLSVersion::TLS1_1)
        } else if msb == 3 && lsb == 3 {
            Some(TLSVersion::TLS1_2)
        } else {
            None
        }
    }

    /// Reads a version from its two bytes, most significant first.
    pub fn from_bytes(bytes: [u8; 2]) -> (r: Option<TLSVersion>)
        ensures
            r == TLSVersion::of_bytes(bytes@[0], bytes@[1]),
    {
        let version: u16 = (bytes[0] as u16) * 256 + bytes[1] as u16;
        match version {
            0x301 => Some(TLSVersion::TLS1),
            0x302 => Some(TLSVersion::TLS1_1),
            0x303 => Some(TLSVersion::TLS1_2),
            _ => None,
        }
    }
}

/// The five bytes that begin every TLS record.
#[derive(Debug, Clone, Copy, PartialEq, Eq, Structural)]
pub struct RecordHeader {
    /// The content type of the record.
    pub record_type: RecordType,
    /// The protocol version of the record.
    pub tls_version: TLSVersion,
    /// The number of bytes that follow the header.
    pub record_length: u16,
}

impl RecordHeader {
    /// The header that `bytes` begins with: a content type, a version and a
    /// length, the length most significant byte first. There is none where
    /// fewer than five bytes are given, or the type or the version is unknown.
    pub open spec fn decode(bytes: Seq<u8>) -> Option<RecordHeader> {
        if bytes.len() < 5 {
            None
        } else {
            match (RecordType::of_byte(bytes[0]), TLSVersion::of_bytes(bytes[1], bytes[2])) {
                (Some(record_type), Some(tls_version)) => Some(
                    RecordHeader {
                        record_type,
                        tls_version,
                        record_length: (bytes[3] * 256 + bytes[4]) as u16,
                    },
                ),
                _ => None,
            }
        }
    }

    /// Reads the header of a record.
    pub fn from_bytes(value: &[u8]) -> (r: Option<RecordHeader>)
        ensures
            r == RecordHeader::decode(value@),
    {
        if value.len() < 5 {
            return None;
        }
        let record_type = match RecordType::from_byte(value[0]) {
            Some(record_type) => record_type,
            None => {
                return None;
            },
        };
        let tls_version = match TLSVersion::from_bytes([value[1], value[2]]) {
            Some(tls_version) => tls_version,
            None => {
                return None;
            },
        };
        let record_length: u16 = (value[3] as u16) * 256 + value[4] as u16;
        Some(RecordHeader { record_type, tls_version, record_length })
    }
}

/// The kinds of handshake messages.
#[derive(Debug, Clone, Copy, PartialEq, Eq, Structural)]
pub enum HandshakeType {
    /// `hello_request` (0).
    HelloRequest,
    /// `client_hello` (1).
    ClientHello,
    /// `server_hello` (2).
    ServerHello,
    /// `new_session_ticket` (4).
    NewSessionTicket,
    /// `certificate` (11).
    Certificate,
    /// `server_key_exchange` (12).
    ServerKeyExchange,
    /// `certificate_request` (13).
    CertificateRequest,
    /// `server_hello_done` (14).
    ServerDone,
    /// `certificate_verify` (15).
    CertificateVerify,
    /// `client_key_exchange` (16).
    ClientKeyExchange,
    /// `finished` (20).
    Finished,
}

impl HandshakeType {
    /// The kind of handshake message that the byte `value` names, if it names
    /// one.
    pub open spec fn of_byte(value: u8) -> Option<HandshakeType> {
        match value {
            0 => Some(HandshakeType::HelloRequest),
            1 => Some(HandshakeType::ClientHello),
            2 => Some(HandshakeType::ServerHello),
            4 => Some(HandshakeType::NewSessionTicket),
            11 => Some(HandshakeType::Certificate),
            12 => Some(HandshakeType::ServerKeyExchange),
            13 => Some(HandshakeType::CertificateRequest),
            14 => Some(HandshakeType::ServerDone),
            15 => Some(HandshakeType::CertificateVerify),
            16 => Some(HandshakeType::ClientKeyExchange),
            20 => Some(HandshakeType::Finished),
            _ => None,
        }
    }

    /// Reads the kind of a handshake message.
    pub fn from_byte(value: u8) -> (r: Option<HandshakeType>)
        ensures
            r == HandshakeType::of_byte(value),
    {
        match value {
            0 => Some(HandshakeType::HelloRequest),
            1 => Some(HandshakeType::ClientHello),
            2 => Some(HandshakeType::ServerHello),
            4 => Some(HandshakeType::NewSessionTicket),
            11 => Some(HandshakeType::Certificate),
            12 => Some(HandshakeType::ServerKeyExchange),
            13 => Some(HandshakeType::CertificateRequest),
            14 => Some(HandshakeType::ServerDone),
            15 => Some(HandshakeType::CertificateVerify),
            16 => Some(HandshakeType::ClientKeyExchange),
            20 => Some(HandshakeType::Finished),
            _ => None,
        }
    }
}

/// The four bytes that begin every handshake message.
#[derive(Debug, Clone, Copy, PartialEq, Eq, Structural)]
pub struct HandshakeHeader {
    /// The kind of the message.
    pub handshake_type: HandshakeType,
    /// The number of bytes that follow the header.
    pub data_length: u32,
}

impl HandshakeHeader {
    /// The header that `bytes` begins with: a kind and a length of three
    /// bytes, most significant first. There is none where fewer than four
    /// bytes are given or the kind is unknown.
    pub open spec fn decode(bytes: Seq<u8>) -> Option<HandshakeHeader> {
        if bytes.len() < 4 {
            None
        } else {
            match HandshakeType::of_byte(bytes[0]) {
                Some(handshake_type) => Some(
                    HandshakeHeader {
                        handshake_type,
                        data_length: (bytes[1] * 65536 + bytes[2] * 256 + bytes[3]) as u32,
                    },
                ),
                None => None,
            }
        }
    }

    /// Reads the header of a handshake message.
    pub fn from_bytes(value: &[u8]) -> (r: Option<HandshakeHeader>)
        ensures
            r == HandshakeHeader::decode(value@),
    {
        if value.len() < 4 {
            return None;
        }
        match HandshakeType::from_byte(value[0]) {
            Some(handshake_type) => {
                let data_length: u32 = (value[1] as u32) * 65536 + (value[2] as u32) * 256
                    + value[3] as u32;
                Some(HandshakeHeader { handshake_type, data_length })
            },
            None => None,
        }
    }
}

} // verus!
