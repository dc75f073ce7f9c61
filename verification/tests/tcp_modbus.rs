use modbus_core::protocols::tcp_modbus::{
    TcpModbus, TcpModbusHeader, EXCLUDED_LENGTH, MBAP_LENGTH,
};
use modbus_core::protocols::ModbusProtocol;
use modbus_core::ModbusError::{BadLength, NotEnoughData};

const ADU1_ADU_LENGTH: usize = 209;
const ADU1_LENGTH: u16 = 203;
const ADU1_TRANS_ID: u16 = 1;
const ADU1_PROTO_ID: u16 = 0;
const ADU1_UNIT_ID: u8 = 0x11;

const ADU2_ADU_LENGTH: usize = 12;
const ADU2_LENGTH: u16 = 6;
const ADU2_TRANS_ID: u16 = 2;
const ADU2_PROTO_ID: u16 = 0;
const ADU2_UNIT_ID: u8 = 0x22;

/// A 209-byte TCP ADU: 7-byte MBAP with declared length 203, then a 202-byte
/// PDU
fn adu1_tcp() -> Vec<u8> {
    let mut v = vec![0x00, 0x01, 0x00, 0x00, 0x00, 0xCB, 0x11];
    for i in 0..202usize {
        v.push((i % 251) as u8);
    }
    v
}

fn adu1_pdu() -> Vec<u8> {
    adu1_tcp()[MBAP_LENGTH..].to_vec()
}

/// A 12-byte TCP ADU: 7-byte MBAP with declared length 6, then a 5-byte PDU
fn adu2_tcp() -> Vec<u8> {
    vec![
        0x00, 0x02, 0x00, 0x00, 0x00, 0x06, 0x22, 0x05, 0xDE, 0xAD, 0xBE, 0xEF,
    ]
}

fn adu2_pdu() -> Vec<u8> {
    adu2_tcp()[MBAP_LENGTH..].to_vec()
}

#[test]
fn tcp_adu_length() {
    let adu1 = adu1_tcp();
    for i in 0..=adu1.len() {
        let len = TcpModbus::adu_length(&adu1[..i]);

        if i < EXCLUDED_LENGTH {
            assert_eq!(len, Err(NotEnoughData));
        } else {
            assert_eq!(len, Ok(ADU1_ADU_LENGTH));
        }
    }

    let adu2 = adu2_tcp();
    for i in 0..=adu2.len() {
        let len = TcpModbus::adu_length(&adu2[..i]);

        if i < EXCLUDED_LENGTH {
            assert_eq!(len, Err(NotEnoughData));
        } else {
            assert_eq!(len, Ok(ADU2_ADU_LENGTH));
        }
    }
}

#[test]
fn tcp_adu_header() {
    let adu1 = adu1_tcp();
    for i in 0..=adu1.len() {
        let header = TcpModbus::adu_header(&adu1[..i]);

        if i < MBAP_LENGTH {
            assert_eq!(header, Err(NotEnoughData));
        } else {
            assert_eq!(
                header,
                Ok(TcpModbusHeader {
                    length: ADU1_LENGTH,
                    protocol_id: ADU1_PROTO_ID,
                    transaction_id: ADU1_TRANS_ID,
                    unit_id: ADU1_UNIT_ID,
                })
            );
        }
    }

    let adu2 = adu2_tcp();
    for i in 0..=adu2.len() {
        let header = TcpModbus::adu_header(&adu2[..i]);

        if i < MBAP_LENGTH {
            assert_eq!(header, Err(NotEnoughData));
        } else {
            assert_eq!(
                header,
                Ok(TcpModbusHeader {
                    length: ADU2_LENGTH,
                    protocol_id: ADU2_PROTO_ID,
                    transaction_id: ADU2_TRANS_ID,
                    unit_id: ADU2_UNIT_ID,
                })
            );
        }
    }
}

#[test]
fn tcp_adu_check() {
    let adu1 = adu1_tcp();
    for i in 0..=adu1.len() {
        let result = TcpModbus::adu_check(&adu1[..i]);

        if i < ADU1_ADU_LENGTH {
            assert_eq!(result, Err(NotEnoughData));
        } else {
            assert_eq!(result, Ok(()));
        }
    }

    let adu2 = adu2_tcp();
    for i in 0..=adu2.len() {
        let result = TcpModbus::adu_check(&adu2[..i]);

        if i < ADU2_ADU_LENGTH {
            assert_eq!(result, Err(NotEnoughData));
        } else {
            assert_eq!(result, Ok(()));
        }
    }
}

#[test]
fn pdu_body() {
    let adu1 = adu1_tcp();
    for i in 0..=adu1.len() {
        let result = TcpModbus::pdu_body(&adu1[..i]);

        if i < ADU1_ADU_LENGTH {
            assert_eq!(result, Err(NotEnoughData));
        } else {
            assert_eq!(result, Ok(&adu1_pdu()[..]));
        }
    }

    let adu2 = adu2_tcp();
    for i in 0..=adu2.len() {
        let result = TcpModbus::pdu_body(&adu2[..i]);

        if i < ADU2_ADU_LENGTH {
            assert_eq!(result, Err(NotEnoughData));
        } else {
            assert_eq!(result, Ok(&adu2_pdu()[..]));
        }
    }
}

#[test]
fn tcp_adu_bad_length() {
    let one_shorter: &[u8] = &[0, 0, 0, 0, 0, 253]; // ADU length 259
    let max_len: &[u8] = &[0, 0, 0, 0, 0, 254]; // ADU length 260
    let too_long: &[u8] = &[0, 0, 0, 0, 0, 255]; // ADU length 261
    let one_more: &[u8] = &[0, 0, 0, 0, 1, 0]; // ADU length 262

    assert_eq!(TcpModbus::adu_length(one_shorter), Ok(259));
    assert_eq!(TcpModbus::adu_length(max_len), Ok(260));
    assert_eq!(TcpModbus::adu_length(too_long), Err(BadLength));
    assert_eq!(TcpModbus::adu_length(one_more), Err(BadLength));
}
