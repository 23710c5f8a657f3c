use bitvec::order::Msb0;
use bitvec::view::BitView;
use dcc_rs::packets::baseline::{BroadcastStop, Direction, Idle, Reset, SpeedAndDirection};
use dcc_rs::packets::{Packet, Result, SerializeBuffer};
use dcc_rs::Error;

/// The first `len` bits of a buffer.
fn bits_of(buf: &SerializeBuffer, len: usize) -> Vec<bool> {
    (0..len).map(|i| buf.get(i).unwrap()).collect()
}

/// The bits of a byte, most significant bit first, as `bitvec` reads them.
fn byte(b: u8) -> Vec<bool> {
    b.view_bits::<Msb0>().iter().by_vals().collect()
}

/// The frame of a payload, put together bit by bit.
fn frame_of(payload: &[u8]) -> Vec<bool> {
    let mut bits = vec![true; 15];
    for b in payload {
        bits.push(false);
        bits.extend(byte(*b));
    }
    bits.push(true);
    bits
}

#[test]
fn every_speed_and_direction_packet_takes_43_bits() -> Result<()> {
    for address in 1..=127u8 {
        for speed in 0..=28u8 {
            for direction in [Direction::Forward, Direction::Backward] {
                let pkt = SpeedAndDirection::builder()
                    .address(address)?
                    .speed(speed)?
                    .direction(direction)
                    .build();
                let mut buf = SerializeBuffer::default();
                let len = pkt.serialize(&mut buf)?;
                assert_eq!(len, 43);
                let bits = bits_of(&buf, 56);
                assert_eq!(&bits[16..24], &byte(address)[..]);
                assert_eq!(&bits[25..33], &byte(pkt.instruction())[..]);
                assert_eq!(&bits[34..42], &byte(address ^ pkt.instruction())[..]);
                let payload = [pkt.address(), pkt.instruction(), pkt.address() ^ pkt.instruction()];
                assert_eq!(&bits[..43], &frame_of(&payload)[..]);
                assert!(bits[43..].iter().all(|b| !*b));
            }
        }
    }
    Ok(())
}

#[test]
fn address_bounds() {
    let mut builder = SpeedAndDirection::builder();
    assert!(matches!(builder.address(0), Err(Error::InvalidAddress)));
    assert!(matches!(builder.address(128), Err(Error::InvalidAddress)));
    assert!(matches!(builder.address(255), Err(Error::InvalidAddress)));
    assert!(builder.address(1).is_ok());
    assert_eq!(builder.build().address(), 1);
    assert!(builder.address(127).is_ok());
    assert_eq!(builder.build().address(), 127);
}

#[test]
fn speed_bounds() {
    let mut builder = SpeedAndDirection::builder();
    assert!(matches!(builder.speed(29), Err(Error::InvalidSpeed)));
    assert!(matches!(builder.speed(255), Err(Error::InvalidSpeed)));
    assert!(builder.speed(28).is_ok());
    assert_eq!(builder.build().instruction(), 0b0111_1111);
    assert!(builder.speed(0).is_ok());
    assert_eq!(builder.build().instruction(), 0b0110_0000);
}

#[test]
fn a_refused_value_leaves_the_builder_as_it_was() -> Result<()> {
    let mut builder = SpeedAndDirection::builder();
    builder.address(35)?.speed(14)?;
    assert!(builder.address(0).is_err());
    assert!(builder.speed(29).is_err());
    let pkt = builder.build();
    assert_eq!(pkt.address(), 35);
    assert_eq!(pkt.instruction(), 0b0111_1000);
    Ok(())
}

#[test]
fn defaults_of_an_empty_builder() {
    let pkt = SpeedAndDirection::builder().build();
    assert_eq!(pkt.address(), 3);
    assert_eq!(pkt.instruction(), 0b0110_0000);
}

#[test]
fn speed_is_shifted_past_the_stop_codes() -> Result<()> {
    let mut builder = SpeedAndDirection::builder();
    // speed 1 is code 4: 0b00100, lowest bit on top
    assert_eq!(builder.speed(1)?.build().instruction(), 0b0110_0010);
    // speed 2 is code 5: 0b00101
    assert_eq!(builder.speed(2)?.build().instruction(), 0b0111_0010);
    // speed 14 is code 17: 0b10001
    assert_eq!(builder.speed(14)?.build().instruction(), 0b0111_1000);
    // speed 27 is code 30: 0b11110
    assert_eq!(builder.speed(27)?.build().instruction(), 0b0110_1111);
    // speed 28 is code 31: 0b11111
    assert_eq!(builder.speed(28)?.build().instruction(), 0b0111_1111);
    for speed in 1..=28u8 {
        let field = speed + 3;
        let expected = 0b0110_0000 | ((field & 1) << 4) | (field >> 1);
        assert_eq!(builder.speed(speed)?.build().instruction(), expected);
    }
    Ok(())
}

#[test]
fn direction_is_bit_five() -> Result<()> {
    let mut builder = SpeedAndDirection::builder();
    builder.speed(14)?;
    assert_eq!(builder.direction(Direction::Backward).build().instruction(), 0b0101_1000);
    assert_eq!(builder.direction(Direction::Forward).build().instruction(), 0b0111_1000);
    Ok(())
}

#[test]
fn e_stop_overrides_any_speed() -> Result<()> {
    for speed in 0..=28u8 {
        for direction in [Direction::Forward, Direction::Backward] {
            let mut builder = SpeedAndDirection::builder();
            let pkt = builder.speed(speed)?.direction(direction).e_stop(true).build();
            assert_eq!(pkt.instruction() & 0b0000_1111, 0b0001);
            assert_eq!(pkt.instruction() & 0b0001_0000, 0);
            assert_eq!(pkt.instruction() & 0b1100_0000, 0b0100_0000);
            let expected = if direction == Direction::Forward { 0b0110_0001 } else { 0b0100_0001 };
            assert_eq!(pkt.instruction(), expected);
            // taking the stop back brings the speed back
            let again = builder.e_stop(false).build();
            assert_eq!(again.instruction() & 0b0100_0000, 0b0100_0000);
            let plain = SpeedAndDirection::builder().speed(speed)?.direction(direction).build();
            assert_eq!(again.instruction(), plain.instruction());
        }
    }
    Ok(())
}

#[test]
fn build_twice_gives_the_same_packet() -> Result<()> {
    let mut builder = SpeedAndDirection::builder();
    builder.address(99)?.speed(7)?.direction(Direction::Backward);
    let first = builder.build();
    let second = builder.build();
    assert_eq!(first.address(), second.address());
    assert_eq!(first.instruction(), second.instruction());
    assert_eq!(first.address(), 99);
    assert_eq!(first.instruction(), 0b0100_0101);
    Ok(())
}

#[test]
fn speed_and_direction_checksum() -> Result<()> {
    let pkt = SpeedAndDirection::builder()
        .address(35)?
        .speed(14)?
        .direction(Direction::Forward)
        .e_stop(false)
        .build();
    assert_eq!(pkt.instruction(), 0x78);
    let mut buf = SerializeBuffer::default();
    assert_eq!(pkt.serialize(&mut buf), Ok(43));
    let bits = bits_of(&buf, 43);
    assert_eq!(&bits[..16], &[byte(0xff), byte(0xfe)].concat()[..]);
    assert_eq!(&bits[16..24], &byte(35)[..]);
    assert_eq!(35 ^ 0x78, 0x5b);
    assert_eq!(&bits[25..33], &byte(0x78)[..]);
    assert_eq!(&bits[34..42], &byte(0x5b)[..]);
    assert_eq!(bits, frame_of(&[35, 0x78, 0x5b]));
    Ok(())
}

#[test]
fn reset_payload() {
    let mut buf = SerializeBuffer::default();
    assert_eq!(Reset.serialize(&mut buf), Ok(43));
    assert_eq!(bits_of(&buf, 43), frame_of(&[0x00, 0x00, 0x00]));
}

#[test]
fn idle_payload() {
    let mut buf = SerializeBuffer::default();
    assert_eq!(Idle.serialize(&mut buf), Ok(43));
    assert_eq!(bits_of(&buf, 43), frame_of(&[0xff, 0x00, 0xff]));
}

#[test]
fn broadcast_stop_payloads() {
    let mut buf = SerializeBuffer::default();
    assert_eq!(BroadcastStop::float().serialize(&mut buf), Ok(43));
    assert_eq!(bits_of(&buf, 43), frame_of(&[0x00, 0x50, 0x50]));

    let mut buf = SerializeBuffer::default();
    assert_eq!(BroadcastStop::immediate().serialize(&mut buf), Ok(43));
    assert_eq!(bits_of(&buf, 43), frame_of(&[0x00, 0x40, 0x40]));
}

#[test]
fn five_bytes_are_too_long_and_nothing_is_written() {
    let mut buf = SerializeBuffer::default();
    let r = <Reset as Packet>::serialize(&[1, 2, 3, 4, 5], &mut buf);
    assert_eq!(r, Err(Error::TooLong));
    assert_eq!(buf, SerializeBuffer::default());
    assert!(bits_of(&buf, 56).iter().all(|b| !*b));

    // a buffer that holds a packet keeps it
    assert_eq!(Idle.serialize(&mut buf), Ok(43));
    let before = bits_of(&buf, 56);
    let r = <Idle as Packet>::serialize(&[0xaa; 6], &mut buf);
    assert_eq!(r, Err(Error::TooLong));
    assert_eq!(bits_of(&buf, 56), before);
}

#[test]
fn four_bytes_fill_the_buffer() {
    let mut buf = SerializeBuffer::default();
    let payload = [0x12, 0x34, 0x56, 0x78];
    let r = <Reset as Packet>::serialize(&payload, &mut buf);
    assert_eq!(r, Ok(52));
    let bits = bits_of(&buf, 56);
    assert_eq!(&bits[..52], &frame_of(&payload)[..]);
    assert_eq!(&bits[52..], &[false; 4][..]);
}

#[test]
fn one_and_two_byte_frames() {
    let mut buf = SerializeBuffer::default();
    assert_eq!(<Reset as Packet>::serialize(&[0xa5], &mut buf), Ok(25));
    assert_eq!(bits_of(&buf, 25), frame_of(&[0xa5]));
    assert_eq!(
        bits_of(&buf, 25),
        [byte(0xff), byte(0xfe), byte(0xa5), vec![true]].concat()
    );

    let mut buf = SerializeBuffer::default();
    assert_eq!(<Reset as Packet>::serialize(&[0xa5, 0x3c], &mut buf), Ok(34));
    assert_eq!(bits_of(&buf, 34), frame_of(&[0xa5, 0x3c]));
}

#[test]
fn an_empty_payload_is_preamble_and_stop_bit() {
    let mut buf = SerializeBuffer::default();
    assert_eq!(<Reset as Packet>::serialize(&[], &mut buf), Ok(16));
    let bits = bits_of(&buf, 56);
    assert_eq!(&bits[..16], &[true; 16][..]);
    assert_eq!(&bits[16..], &[false; 40][..]);
}

#[test]
fn bits_behind_the_frame_stay() {
    let mut buf = SerializeBuffer::default();
    let long = [0xff, 0xff, 0xff, 0xff];
    assert_eq!(<Reset as Packet>::serialize(&long, &mut buf), Ok(52));
    let before = bits_of(&buf, 56);
    assert!(before[43..52].iter().all(|b| *b));

    assert_eq!(Reset.serialize(&mut buf), Ok(43));
    let after = bits_of(&buf, 56);
    assert_eq!(&after[..43], &frame_of(&[0, 0, 0])[..]);
    assert_eq!(&after[43..], &before[43..]);
}

#[test]
fn a_new_buffer_is_all_zero() {
    let buf = SerializeBuffer::default();
    for i in 0..56 {
        assert_eq!(buf.get(i), Some(false));
    }
    assert_eq!(buf.get(56), None);
    assert_eq!(buf.get(usize::MAX), None);
}

#[test]
fn get_reads_the_bit_that_was_written() {
    let mut buf = SerializeBuffer::default();
    assert_eq!(<Reset as Packet>::serialize(&[0b1000_0001], &mut buf), Ok(25));
    assert_eq!(buf.get(14), Some(true));
    assert_eq!(buf.get(15), Some(false));
    assert_eq!(buf.get(16), Some(true));
    assert_eq!(buf.get(17), Some(false));
    assert_eq!(buf.get(22), Some(false));
    assert_eq!(buf.get(23), Some(true));
    assert_eq!(buf.get(24), Some(true));
    assert_eq!(buf.get(25), Some(false));
}

#[test]
fn direction_inverts() {
    assert_eq!(!Direction::Forward, Direction::Backward);
    assert_eq!(!Direction::Backward, Direction::Forward);
    assert_eq!(!!Direction::Forward, Direction::Forward);
    assert_eq!(Direction::default(), Direction::Forward);
}
