use adafruit_scd30::bus::Transaction;
use adafruit_scd30::_get_command_bytes;
use adafruit_scd30::command::DATA_READY_COMMAND;
use adafruit_scd30::command::READ_COMMAND;
use adafruit_scd30::command::RESET_COMMAND;
use adafruit_scd30::command::STOP_COMMAND;

#[test]
fn reset_command_is_sent_high_byte_first() {
    assert_eq!(_get_command_bytes(RESET_COMMAND), [0xD3, 0x04]);
}

#[test]
fn read_command_is_sent_high_byte_first() {
    assert_eq!(_get_command_bytes(READ_COMMAND), [0x03, 0x00]);
}

#[test]
fn data_ready_command_is_sent_high_byte_first() {
    assert_eq!(_get_command_bytes(DATA_READY_COMMAND), [0x02, 0x02]);
}

#[test]
fn stop_command_is_sent_high_byte_first() {
    assert_eq!(_get_command_bytes(STOP_COMMAND), [0x01, 0x04]);
}

#[test]
fn command_words_are_distinct() {
    let words = [RESET_COMMAND, READ_COMMAND, DATA_READY_COMMAND, STOP_COMMAND];
    for i in 0..words.len() {
        for j in 0..words.len() {
            if i != j {
                assert_ne!(words[i], words[j]);
                assert_ne!(_get_command_bytes(words[i]), _get_command_bytes(words[j]));
            }
        }
    }
}

#[test]
fn extreme_command_words_encode() {
    assert_eq!(_get_command_bytes(0x0000), [0x00, 0x00]);
    assert_eq!(_get_command_bytes(0xFFFF), [0xFF, 0xFF]);
    assert_eq!(_get_command_bytes(0x00FF), [0x00, 0xFF]);
    assert_eq!(_get_command_bytes(0xFF00), [0xFF, 0x00]);
    assert_eq!(_get_command_bytes(0x0100), [0x01, 0x00]);
}

#[test]
fn every_command_word_survives_the_round_trip() {
    for command in 0..=u16::MAX {
        let bytes = _get_command_bytes(command);
        assert_eq!(u16::from_be_bytes(bytes), command);
        assert_eq!(u16::from(bytes[0]) * 256 + u16::from(bytes[1]), command);
    }
}

#[test]
fn a_write_carries_the_encoded_command() {
    assert_eq!(
        Transaction::write(0x61, RESET_COMMAND),
        Transaction::Write { address: 0x61, bytes: [0xD3, 0x04] }
    );
}

#[test]
fn an_exchange_carries_the_encoded_command_and_the_length() {
    assert_eq!(
        Transaction::write_then_read(0x29, READ_COMMAND, 18),
        Transaction::WriteThenRead { address: 0x29, bytes: [0x03, 0x00], read_len: 18 }
    );
}
