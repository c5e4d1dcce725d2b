use rboy::printer::GbPrinter;
use rboy::serial::SerialCallback;

/// The bytes of a packet: magic, command, compression, length, data, checksum, and the two
/// bytes during which the printer answers.
fn packet(command: u8, compressed: bool, data: &[u8]) -> Vec<u8> {
    let mut p = vec![0x88, 0x33, command, if compressed { 1 } else { 0 }, (data.len() & 0xFF) as u8, (data.len() >> 8) as u8];
    p.extend_from_slice(data);
    let mut crc: u16 = 0;
    for b in &p[2..] {
        crc = crc.wrapping_add(*b as u16);
    }
    p.push((crc & 0xFF) as u8);
    p.push((crc >> 8) as u8);
    p.push(0);
    p.push(0);
    p
}

fn send_all(printer: &mut GbPrinter, bytes: &[u8]) -> Vec<u8> {
    bytes.iter().map(|b| printer.send(*b)).collect()
}

#[test]
fn answers_a_packet_with_alive_and_status() {
    let mut printer = GbPrinter::new();
    let answers = send_all(&mut printer, &packet(0x0F, false, &[]));
    assert_eq!(answers.len(), 10);
    assert_eq!(answers[8], 0x81);
    assert_eq!(answers[9], 0x00);
    assert_eq!(printer.state, 0);
    assert_eq!(printer.count, 0);
}

#[test]
fn wrong_magic_byte_resets() {
    let mut printer = GbPrinter::new();
    printer.send(0x88);
    assert_eq!(printer.state, 1);
    printer.send(0x12);
    assert_eq!(printer.state, 0);
    assert_eq!(printer.count, 0);
}

#[test]
fn stores_plain_and_compressed_data() {
    let mut printer = GbPrinter::new();
    send_all(&mut printer, &packet(0x04, false, &[1, 2, 3]));
    assert_eq!(printer.datacount, 3);
    assert_eq!(&printer.data[0..3], &[1, 2, 3]);
    // a run of 4 bytes 9, then 2 bytes taken as they are
    send_all(&mut printer, &packet(0x04, true, &[0x82, 9, 0x01, 7, 8]));
    assert_eq!(printer.datacount, 9);
    assert_eq!(&printer.data[3..9], &[9, 9, 9, 9, 7, 8]);
    // a wrong checksum leaves the data alone
    let mut bad = packet(0x04, false, &[5]);
    bad[7] ^= 0xFF;
    send_all(&mut printer, &bad);
    assert_eq!(printer.datacount, 9);
    // initialise drops the data
    send_all(&mut printer, &packet(0x01, false, &[]));
    assert_eq!(printer.datacount, 0);
}

#[test]
fn prints_the_data_received() {
    let mut printer = GbPrinter::new();
    let mut band = vec![0u8; 0x280];
    // first tile, first row: the eight pixels have colour 1
    band[0] = 0xFF;
    band[1] = 0x00;
    // second tile, first row: colour 3
    band[16] = 0xFF;
    band[17] = 0xFF;
    send_all(&mut printer, &packet(0x04, false, &band));
    assert_eq!(printer.datacount, 0x280);
    send_all(&mut printer, &packet(0x02, false, &[1, 0x13, 0xE4, 0x40]));
    let print = printer.print.as_ref().unwrap();
    assert_eq!(print.number, 0);
    assert_eq!(print.height, 16);
    assert_eq!(print.pixels.len(), 16 * 160);
    assert_eq!(print.pixels[0], 2);
    assert_eq!(print.pixels[7], 2);
    assert_eq!(print.pixels[8], 0);
    assert_eq!(print.pixels[16], 3);
    assert_eq!(print.pixels[160], 3);
    assert_eq!(printer.printcount, 1);
}

#[test]
fn empty_print_has_no_rows() {
    let mut printer = GbPrinter::new();
    send_all(&mut printer, &packet(0x02, false, &[1, 0x13, 0xE4, 0x40]));
    let print = printer.print.as_ref().unwrap();
    assert_eq!(print.height, 0);
    assert!(print.pixels.is_empty());
}

#[test]
fn link_cable_answers_every_byte() {
    let mut printer = GbPrinter::new();
    let bytes = packet(0x0F, false, &[]);
    let answers: Vec<Option<u8>> = bytes.iter().map(|b| printer.call(*b)).collect();
    assert_eq!(answers[8], Some(0x81));
    assert_eq!(answers[9], Some(0x00));
}

#[test]
fn oversized_packet_is_dropped_by_the_link_cable() {
    let mut printer = GbPrinter::new();
    // a header announcing more data than the packet buffer holds
    for b in [0x88u8, 0x33, 0x04, 0x00, 0xFF, 0xFF] {
        printer.call(b);
    }
    assert_eq!(printer.state, 3);
    for _ in 0..0x400 {
        assert!(printer.call(0).is_some());
    }
    assert_eq!(printer.state, 0);
}

#[test]
fn answers_are_zero_except_after_the_checksum() {
    let mut printer = GbPrinter::new();
    let mut bytes = packet(0x01, false, &[]);
    bytes.extend(packet(0x04, false, &[1, 2, 3, 4]));
    bytes.extend(packet(0x0F, false, &[]));
    let mut state_before = Vec::new();
    let mut answers = Vec::new();
    for b in &bytes {
        state_before.push(printer.state);
        answers.push(printer.send(*b));
        assert_eq!(printer.status, 0);
        assert!(printer.state <= 7);
    }
    for (s, a) in state_before.iter().zip(answers.iter()) {
        assert!(*a == 0 || *a == 0x81);
        assert_eq!(*a == 0x81, *s == 6);
    }
}
