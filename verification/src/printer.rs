use vstd::prelude::*;
use crate::serial::SerialCallback;

verus! {

/// Bytes of print data the printer holds: nine bands of 0x280 bytes.
pub const PRINT_DATA_SIZE: usize = 5760;
/// Bytes of the packet buffer.
pub const PACKET_SIZE: usize = 0x400;

/// A finished print: its number, its height in pixels, and its grey levels (0 to 3, 3 the
/// lightest), 160 per row.
pub struct PrintImage {
    pub number: u8,
    pub height: usize,
    pub pixels: Vec<u8>,
}

/// The Game Boy Printer at the other end of the link cable. It receives packets of the form
/// 0x88 0x33, command, compression flag, length (2 bytes), data, checksum (2 bytes), and
/// answers the two bytes after them with 0x81 and its status.
pub struct GbPrinter {
    pub status: u8,
    pub state: u32,
    pub data: Vec<u8>,
    pub packet: Vec<u8>,
    pub count: usize,
    pub datacount: usize,
    pub datasize: usize,
    pub result: u8,
    pub printcount: u8,
    /// The print that the last print command produced.
    pub print: Option<PrintImage>,
}

/// The printer as a mathematical value.
pub struct PrinterView {
    pub status: u8,
    pub state: u32,
    pub data: Seq<u8>,
    pub packet: Seq<u8>,
    pub count: usize,
    pub datacount: usize,
    pub datasize: usize,
    pub result: u8,
    pub printcount: u8,
    pub print: Option<(u8, usize, Seq<u8>)>,
}

impl View for GbPrinter {
    type V = PrinterView;

    open spec fn view(&self) -> PrinterView {
        PrinterView {
            status: self.status,
            state: self.state,
            data: self.data@,
            packet: self.packet@,
            count: self.count,
            datacount: self.datacount,
            datasize: self.datasize,
            result: self.result,
            printcount: self.printcount,
            print: match self.print {
                Some(p) => Some((p.number, p.height, p.pixels@)),
                None => None,
            },
        }
    }
}

/// `d` with the bytes `b` written from position `off` on.
pub open spec fn splice(d: Seq<u8>, off: int, b: Seq<u8>) -> Seq<u8> {
    Seq::new(d.len(), |i: int| if off <= i < off + b.len() { b[i - off] } else { d[i] })
}

/// The bytes that the run-length coded data from `i` to `end` of the packet stand for: a
/// control byte with bit 7 set is followed by one byte repeated (control & 0x7F) + 2 times;
/// otherwise by control + 1 bytes taken as they are.
pub open spec fn rle_decode(p: Seq<u8>, i: int, end: int) -> Seq<u8>
    decreases if i < end { end - i } else { 0 },
{
    if i >= end {
        Seq::empty()
    } else {
        let control = p[i];
        if control & 0x80 != 0 {
            let len = (control & 0x7F) + 2;
            Seq::new(len as nat, |k: int| p[i + 1]) + rle_decode(p, i + 2, end)
        } else {
            let len = control + 1;
            p.subrange(i + 1, i + 1 + len) + rle_decode(p, i + 1 + len, end)
        }
    }
}

/// Whether decoding the run-length coded data from `i` to `end` reads within the packet.
pub open spec fn rle_in_packet(p: Seq<u8>, i: int, end: int) -> bool
    decreases if i < end { end - i } else { 0 },
{
    if i >= end {
        true
    } else {
        let control = p[i];
        if control & 0x80 != 0 {
            i + 1 < p.len() && rle_in_packet(p, i + 2, end)
        } else {
            let len = control + 1;
            i + 1 + len <= p.len() && rle_in_packet(p, i + 1 + len, end)
        }
    }
}

/// The 16-bit sum of the packet bytes from position 2 up to (not including) `n`.
pub open spec fn crc_sum(p: Seq<u8>, n: int) -> u16
    decreases n,
{
    if n <= 2 {
        0
    } else {
        ((crc_sum(p, n - 1) + p[n - 1]) % 65536) as u16
    }
}

/// Whether the packet's checksum, the two bytes after its data, equals the sum of its
/// command, compression flag, length and data bytes.
pub open spec fn crc_ok(s: PrinterView) -> bool {
    let ds = s.datasize as int;
    crc_sum(s.packet, 6 + ds) == s.packet[6 + ds] + s.packet[7 + ds] * 256
}

/// The grey level of colour `c` under the palette byte.
pub open spec fn print_shade(palbyte: u8, c: u8) -> u8 {
    (3 - ((palbyte >> (2 * c) as u8) & 3)) as u8
}

/// The grey level at row `y` and column `x` of a print: the data holds tiles of 8x8 pixels,
/// 20 to a row, two bytes per tile row (low bits first, the leftmost pixel in bit 7).
pub open spec fn print_pixel(data: Seq<u8>, palbyte: u8, y: int, x: int) -> u8 {
    let tileoffset = ((y / 8) * 20 + x / 8) * 16 + (y % 8) * 2;
    let bx = (7 - x % 8) as u8;
    let ci = ((data[tileoffset] >> bx) & 1) | (((data[tileoffset + 1] >> bx) << 1u8) & 2);
    print_shade(palbyte, ci)
}

/// The grey levels of a print of `height` rows, row after row.
pub open spec fn print_pixels(data: Seq<u8>, palbyte: u8, height: int) -> Seq<u8> {
    Seq::new((height * 160) as nat, |i: int| print_pixel(data, palbyte, i / 160, i % 160))
}

/// The printer after a protocol error: waiting for a new packet, no data held.
pub open spec fn reset_spec(s: PrinterView) -> PrinterView {
    PrinterView { state: 0, datasize: 0, datacount: 0, count: 0, status: 0, result: 0, ..s }
}

/// The printer after it stored the data of a data packet after what it holds.
pub open spec fn receive_spec(s: PrinterView) -> PrinterView {
    let end = 6 + s.datasize as int;
    let bytes = if s.packet[3] != 0 {
        rle_decode(s.packet, 6, end)
    } else {
        s.packet.subrange(6, end)
    };
    PrinterView {
        data: splice(s.data, s.datacount as int, bytes),
        datacount: (s.datacount + bytes.len()) as usize,
        ..s
    }
}

/// Whether storing the data of a data packet stays within the packet and the print data.
pub open spec fn receive_ok(s: PrinterView) -> bool {
    let end = 6 + s.datasize as int;
    if s.packet[3] != 0 {
        rle_in_packet(s.packet, 6, end) && s.datacount + rle_decode(s.packet, 6, end).len()
            <= PRINT_DATA_SIZE
    } else {
        end <= PACKET_SIZE && s.datacount + s.datasize <= PRINT_DATA_SIZE
    }
}

/// The printer after a print command: the print, numbered by the print counter, holds
/// the whole bands of data received (40 bytes a row), under the palette of the command.
pub open spec fn show_spec(s: PrinterView) -> PrinterView {
    let height = s.datacount / 40;
    PrinterView {
        printcount: ((s.printcount + 1) % 256) as u8,
        print: Some((s.printcount, height, print_pixels(s.data, s.packet[8], height as int))),
        ..s
    }
}

/// The printer after it carried out the command of a packet whose checksum was right:
/// 1 initialises, 2 prints, 4 receives data; others are ignored.
pub open spec fn command_spec(s: PrinterView) -> PrinterView {
    if s.packet[2] == 0x01 {
        PrinterView { datacount: 0, status: 0, ..s }
    } else if s.packet[2] == 0x02 {
        show_spec(s)
    } else if s.packet[2] == 0x04 {
        receive_spec(s)
    } else {
        s
    }
}

/// The printer after the step that follows a byte `v` stored in its packet: the state
/// machine waits for the two magic bytes, the header, the data, the checksum, and then
/// answers 0x81 and its status; a wrong magic byte or state is a protocol error.
pub open spec fn advance_spec(s1: PrinterView, v: u8) -> PrinterView {
    if s1.state == 0 {
        if v == 0x88 {
            PrinterView { state: 1, ..s1 }
        } else {
            reset_spec(s1)
        }
    } else if s1.state == 1 {
        if v == 0x33 {
            PrinterView { state: 2, ..s1 }
        } else {
            reset_spec(s1)
        }
    } else if s1.state == 2 {
        if s1.count == 6 {
            let ds = (s1.packet[4] + s1.packet[5] * 256) as usize;
            PrinterView { datasize: ds, state: if ds > 0 { 3 } else { 4 }, ..s1 }
        } else {
            s1
        }
    } else if s1.state == 3 {
        if s1.count == s1.datasize + 6 {
            PrinterView { state: 4, ..s1 }
        } else {
            s1
        }
    } else if s1.state == 4 {
        PrinterView { state: 5, ..s1 }
    } else if s1.state == 5 {
        let s2 = if crc_ok(s1) { command_spec(s1) } else { s1 };
        PrinterView { state: 6, ..s2 }
    } else if s1.state == 6 {
        PrinterView { result: 0x81, state: 7, ..s1 }
    } else if s1.state == 7 {
        PrinterView { result: s1.status, state: 0, count: 0, ..s1 }
    } else {
        reset_spec(s1)
    }
}

/// The printer after it received byte `v`; its answer is the `result` of the new state.
pub open spec fn send_spec(s: PrinterView, v: u8) -> PrinterView {
    advance_spec(stored(s, v), v)
}

/// The printer with byte `v` stored in its packet.
pub open spec fn stored(s: PrinterView, v: u8) -> PrinterView {
    PrinterView { packet: s.packet.update(s.count as int, v), count: (s.count + 1) as usize, ..s }
}

/// Whether the step that follows a stored byte stays within the printer's buffers: the
/// checksum of a complete packet lies within the packet, and the command it carries stays
/// within the print data.
pub open spec fn advance_ok(s: PrinterView) -> bool {
    &&& s.state == 3 ==> s.datasize + 6 <= usize::MAX
    &&& s.state == 5 ==> {
        &&& 8 + s.datasize <= PACKET_SIZE
        &&& crc_ok(s) && s.packet[2] == 0x02 ==> s.datacount / 40 <= 144
        &&& crc_ok(s) && s.packet[2] == 0x04 ==> receive_ok(s)
    }
}

/// Whether receiving byte `v` stays within the printer's buffers.
pub open spec fn send_ok(s: PrinterView, v: u8) -> bool {
    s.count < PACKET_SIZE && advance_ok(stored(s, v))
}

/// What holds of every printer that `new` made and bytes were sent to: the status stays 0,
/// the state is one of the eight protocol states, and the answer is 0x81 exactly in the
/// state that follows the checksum.
pub open spec fn protocol_inv(s: PrinterView) -> bool {
    &&& s.status == 0
    &&& s.state <= 7
    &&& s.result == (if s.state == 7 { 0x81u8 } else { 0u8 })
}

/// Every byte sent keeps the protocol invariant. The answer is 0 or 0x81, and 0x81 exactly
/// for the byte after the two checksum bytes; the byte after that answer ends the packet;
/// a wrong magic byte drops the packet.
pub proof fn lemma_send_keeps_protocol(s: PrinterView, v: u8)
    requires
        protocol_inv(s),
    ensures
        protocol_inv(send_spec(s, v)),
        protocol_inv(reset_spec(stored(s, v))),
        send_spec(s, v).result == 0 || send_spec(s, v).result == 0x81,
        (send_spec(s, v).result == 0x81) == (s.state == 6),
        s.state == 7 ==> send_spec(s, v).result == 0 && send_spec(s, v).state == 0 && send_spec(s, v).count == 0,
        (s.state == 0 && v != 0x88) || (s.state == 1 && v != 0x33) ==> send_spec(s, v) == reset_spec(stored(s, v)),
{
}

/// Writing `b1` and then `b2` after it is writing `b1 + b2`.
pub proof fn lemma_splice_concat(d: Seq<u8>, off: int, b1: Seq<u8>, b2: Seq<u8>)
    ensures
        splice(splice(d, off, b1), off + b1.len(), b2) == splice(d, off, b1 + b2),
{
    assert(splice(splice(d, off, b1), off + b1.len(), b2) =~= splice(d, off, b1 + b2));
}

impl GbPrinter {
    pub open spec fn wf(&self) -> bool {
        &&& self.data@.len() == PRINT_DATA_SIZE
        &&& self.packet@.len() == PACKET_SIZE
    }

    /// A printer as `new` makes it: waiting for a packet, buffers cleared, nothing printed.
    pub open spec fn fresh_view() -> PrinterView {
        PrinterView {
            status: 0,
            state: 0,
            data: Seq::new(PRINT_DATA_SIZE as nat, |i: int| 0u8),
            packet: Seq::new(PACKET_SIZE as nat, |i: int| 0u8),
            count: 0,
            datacount: 0,
            datasize: 0,
            result: 0,
            printcount: 0,
            print: None,
        }
    }

    /// A printer waiting for a packet, with nothing printed.
    pub fn new() -> (r: GbPrinter)
        ensures
            r.wf(),
            r@ == GbPrinter::fresh_view(),
            protocol_inv(r@),
    {
        let r = GbPrinter {
            status: 0,
            state: 0,
            data: vec![0u8; PRINT_DATA_SIZE],
            packet: vec![0u8; PACKET_SIZE],
            count: 0,
            datacount: 0,
            datasize: 0,
            result: 0,
            printcount: 0,
            print: None,
        };
        assert(r.data@ =~= Seq::new(PRINT_DATA_SIZE as nat, |i: int| 0u8));
        assert(r.packet@ =~= Seq::new(PACKET_SIZE as nat, |i: int| 0u8));
        r
    }

    /// Whether the checksum of the packet received is right; see `crc_ok`.
    fn check_crc(&self) -> (r: bool)
        requires
            self.wf(),
            8 + self.datasize <= PACKET_SIZE,
        ensures
            r == crc_ok(self@),
    {
        let mut crc: u16 = 0;
        let end = 6 + self.datasize;
        let mut i: usize = 2;
        while i < end
            invariant
                2 <= i <= end,
                end == 6 + self.datasize,
                end + 2 <= PACKET_SIZE,
                self.wf(),
                crc == crc_sum(self.packet@, i as int),
            decreases end - i,
        {
            crc = crc.wrapping_add(self.packet[i] as u16);
            i = i + 1;
        }
        let lo = self.packet[6 + self.datasize];
        let hi = self.packet[7 + self.datasize];
        proof {
            crate::bits::lemma_u8_bits(hi);
        }
        let msgcrc = (lo as u16).wrapping_add((hi as u16) << 8u16);
        crc == msgcrc
    }

    /// Drops the packet and the data held, as after a protocol error.
    fn reset(&mut self)
        ensures
            final(self)@ == reset_spec(old(self)@),
            final(self).data == old(self).data,
            final(self).packet == old(self).packet,
    {
        self.state = 0;
        self.datasize = 0;
        self.datacount = 0;
        self.count = 0;
        self.status = 0;
        self.result = 0;
    }

    /// Writes `b` `len` times from position `dest` of the print data.
    fn fill_run(&mut self, dest: usize, b: u8, len: usize)
        requires
            old(self).wf(),
            dest + len <= PRINT_DATA_SIZE,
        ensures
            final(self).wf(),
            final(self)@ == (PrinterView {
                data: splice(old(self)@.data, dest as int, Seq::new(len as nat, |k: int| b)),
                ..old(self)@
            }),
    {
        let ghost d0 = self.data@;
        let mut i: usize = 0;
        while i < len
            invariant
                i <= len,
                dest + len <= PRINT_DATA_SIZE,
                self.wf(),
                self@ == (PrinterView { data: self.data@, ..old(self)@ }),
                d0 == old(self).data@,
                self.data@ == splice(d0, dest as int, Seq::new(i as nat, |k: int| b)),
            decreases len - i,
        {
            self.data.set(dest + i, b);
            i = i + 1;
            assert(self.data@ =~= splice(d0, dest as int, Seq::new(i as nat, |k: int| b)));
        }
    }

    /// Copies the `len` packet bytes from position `src` to position `dest` of the print data.
    fn copy_raw(&mut self, dest: usize, src: usize, len: usize)
        requires
            old(self).wf(),
            dest + len <= PRINT_DATA_SIZE,
            src + len <= PACKET_SIZE,
        ensures
            final(self).wf(),
            final(self)@ == (PrinterView {
                data: splice(old(self)@.data, dest as int, old(self)@.packet.subrange(src as int, src + len)),
                ..old(self)@
            }),
    {
        let ghost d0 = self.data@;
        let ghost p = self.packet@;
        let mut i: usize = 0;
        while i < len
            invariant
                i <= len,
                dest + len <= PRINT_DATA_SIZE,
                src + len <= PACKET_SIZE,
                self.wf(),
                self@ == (PrinterView { data: self.data@, ..old(self)@ }),
                d0 == old(self).data@,
                p == old(self).packet@,
                self.data@ == splice(d0, dest as int, p.subrange(src as int, src + i)),
            decreases len - i,
        {
            let b = self.packet[src + i];
            self.data.set(dest + i, b);
            i = i + 1;
            assert(self.data@ =~= splice(d0, dest as int, p.subrange(src as int, src + i)));
        }
    }

    /// Stores the data of a data packet after the data held; see `receive_spec`.
    fn receive(&mut self)
        requires
            old(self).wf(),
            8 + old(self).datasize <= PACKET_SIZE,
            receive_ok(old(self)@),
        ensures
            final(self).wf(),
            final(self)@ == receive_spec(old(self)@),
    {
        let ghost s0 = self@;
        let end = 6 + self.datasize;
        if self.packet[3] != 0 {
            let mut dataidx: usize = 6;
            let mut destidx = self.datacount;
            let ghost mut done: Seq<u8> = Seq::empty();
            while dataidx < end
                invariant
                    self.wf(),
                    self@ == (PrinterView { data: self.data@, ..s0 }),
                    s0.packet[3] != 0,
                    end == 6 + s0.datasize,
                    end + 2 <= PACKET_SIZE,
                    rle_decode(s0.packet, 6, end as int) == done + rle_decode(s0.packet, dataidx as int, end as int),
                    rle_in_packet(s0.packet, dataidx as int, end as int),
                    destidx == s0.datacount + done.len(),
                    s0.datacount + done.len() + rle_decode(s0.packet, dataidx as int, end as int).len()
                        <= PRINT_DATA_SIZE,
                    self.data@ == splice(s0.data, s0.datacount as int, done),
                    6 <= dataidx <= PACKET_SIZE,
                decreases PACKET_SIZE - dataidx,
            {
                let ghost i0 = dataidx as int;
                let control = self.packet[dataidx];
                dataidx = dataidx + 1;
                let ghost chunk: Seq<u8>;
                if control & 0x80 != 0 {
                    proof {
                        crate::bits::lemma_u8_bits(control);
                    }
                    let curlen = ((control & 0x7F) + 2) as usize;
                    let b = self.packet[dataidx];
                    proof {
                        chunk = Seq::new(curlen as nat, |k: int| b);
                        assert(rle_decode(s0.packet, i0, end as int) == chunk + rle_decode(s0.packet, i0 + 2, end as int));
                    }
                    self.fill_run(destidx, b, curlen);
                    dataidx = dataidx + 1;
                    destidx = destidx + curlen;
                } else {
                    proof {
                        crate::bits::lemma_u8_bits(control);
                    }
                    let curlen = (control + 1) as usize;
                    proof {
                        chunk = s0.packet.subrange(i0 + 1, i0 + 1 + curlen);
                    }
                    self.copy_raw(destidx, dataidx, curlen);
                    destidx = destidx + curlen;
                    dataidx = dataidx + curlen;
                }
                proof {
                    lemma_splice_concat(s0.data, s0.datacount as int, done, chunk);
                    assert(done + rle_decode(s0.packet, i0, end as int) == (done + chunk) + rle_decode(
                        s0.packet,
                        dataidx as int,
                        end as int,
                    ));
                    done = done + chunk;
                }
            }
            assert(done + rle_decode(s0.packet, dataidx as int, end as int) =~= done);
            self.datacount = destidx;
        } else {
            let dc = self.datacount;
            let ds = self.datasize;
            self.copy_raw(dc, 6, ds);
            self.datacount = dc + ds;
        }
    }

    /// The grey level of colour `c` under the palette byte.
    fn shade(palbyte: u8, c: u8) -> (r: u8)
        requires
            c <= 3,
        ensures
            r == print_shade(palbyte, c),
    {
        proof {
            crate::bits::lemma_u8_bits(palbyte >> (2 * c));
        }
        3 - ((palbyte >> (2 * c)) & 3)
    }

    /// Turns the data received into a print; see `show_spec`.
    fn show(&mut self)
        requires
            old(self).wf(),
            old(self).datacount / 40 <= 144,
        ensures
            final(self).wf(),
            final(self)@ == show_spec(old(self)@),
    {
        let number = self.printcount;
        self.printcount = self.printcount.wrapping_add(1);
        let image_height = self.datacount / 40;
        let palbyte = self.packet[8];
        let total = image_height * 160;
        let mut pixels: Vec<u8> = Vec::new();
        let mut i: usize = 0;
        while i < total
            invariant
                i <= total,
                total == image_height * 160,
                image_height <= 144,
                self.wf(),
                palbyte == self.packet@[8],
                pixels@ == Seq::new(i as nat, |k: int| print_pixel(self.data@, palbyte, k / 160, k % 160)),
            decreases total - i,
        {
            let y = i / 160;
            let x = i % 160;
            proof {
                assert(y < 144) by (nonlinear_arith)
                    requires
                        y == i / 160,
                        i < total,
                        total == image_height * 160,
                        image_height <= 144,
                ;
            }
            let tileoffset = ((y / 8) * 20 + x / 8) * 16 + (y % 8) * 2;
            let bx = (7 - x % 8) as u8;
            let b0 = self.data[tileoffset];
            let b1 = self.data[tileoffset + 1];
            let ci = ((b0 >> bx) & 1) | (((b1 >> bx) << 1u8) & 2);
            assert(((b0 >> bx) & 1) | (((b1 >> bx) << 1u8) & 2) <= 3) by (bit_vector);
            pixels.push(GbPrinter::shade(palbyte, ci));
            i = i + 1;
            assert(pixels@ =~= Seq::new(i as nat, |k: int| print_pixel(self.data@, palbyte, k / 160, k % 160)));
        }
        self.print = Some(PrintImage { number, height: image_height, pixels });
    }

    /// Carries out the command of a packet whose checksum was right; see `command_spec`.
    fn command(&mut self)
        requires
            old(self).wf(),
            8 + old(self).datasize <= PACKET_SIZE,
            old(self)@.packet[2] == 0x02 ==> old(self).datacount / 40 <= 144,
            old(self)@.packet[2] == 0x04 ==> receive_ok(old(self)@),
        ensures
            final(self).wf(),
            final(self)@ == command_spec(old(self)@),
    {
        match self.packet[2] {
            0x01 => {
                self.datacount = 0;
                self.status = 0;
            },
            0x02 => {
                self.show();
            },
            0x04 => {
                self.receive();
            },
            _ => {},
        }
    }

    /// Whether the data of the packet fits; see `receive_ok`.
    fn receive_fits(&self) -> (r: bool)
        requires
            self.wf(),
            8 + self.datasize <= PACKET_SIZE,
        ensures
            r == receive_ok(self@),
    {
        let end = 6 + self.datasize;
        let dc = self.datacount;
        if self.packet[3] == 0 {
            return dc <= PRINT_DATA_SIZE && self.datasize <= PRINT_DATA_SIZE - dc;
        }
        if dc > PRINT_DATA_SIZE {
            return false;
        }
        let ghost p = self.packet@;
        let mut i: usize = 6;
        let mut total: usize = dc;
        while i < end
            invariant
                self.wf(),
                p == self.packet@,
                p[3] != 0,
                end == 6 + self.datasize,
                end + 2 <= PACKET_SIZE,
                6 <= i <= PACKET_SIZE,
                dc == self.datacount,
                dc <= total <= PRINT_DATA_SIZE,
                rle_in_packet(p, 6, end as int) == rle_in_packet(p, i as int, end as int),
                rle_decode(p, 6, end as int).len() == (total - dc) + rle_decode(p, i as int, end as int).len(),
            decreases PACKET_SIZE - i,
        {
            let control = self.packet[i];
            if control & 0x80 != 0 {
                if i + 1 >= PACKET_SIZE {
                    return false;
                }
                proof {
                    crate::bits::lemma_u8_bits(control);
                }
                total = total + ((control & 0x7F) + 2) as usize;
                i = i + 2;
            } else {
                proof {
                    crate::bits::lemma_u8_bits(control);
                }
                let len = (control + 1) as usize;
                if i + 1 + len > PACKET_SIZE {
                    return false;
                }
                total = total + len;
                i = i + 1 + len;
            }
            if total > PRINT_DATA_SIZE {
                return false;
            }
        }
        true
    }

    /// Whether the step after the byte just stored stays within the buffers; see `advance_ok`.
    pub fn can_advance(&self) -> (r: bool)
        requires
            self.wf(),
        ensures
            r == advance_ok(self@),
    {
        if self.state == 3 {
            return self.datasize <= usize::MAX - 6;
        }
        if self.state == 5 {
            if self.datasize > PACKET_SIZE - 8 {
                return false;
            }
            if !self.check_crc() {
                return true;
            }
            if self.packet[2] == 0x02 {
                return self.datacount / 40 <= 144;
            }
            if self.packet[2] == 0x04 {
                return self.receive_fits();
            }
        }
        true
    }

    /// Stores a received byte in the packet.
    fn store(&mut self, v: u8)
        requires
            old(self).wf(),
            old(self).count < PACKET_SIZE,
        ensures
            final(self).wf(),
            final(self)@ == stored(old(self)@, v),
    {
        self.packet.set(self.count, v);
        self.count = self.count + 1;
    }

    /// The step of the state machine after a byte `v` was stored; see `advance_spec`.
    fn advance(&mut self, v: u8) -> (r: u8)
        requires
            old(self).wf(),
            advance_ok(old(self)@),
        ensures
            final(self).wf(),
            final(self)@ == advance_spec(old(self)@, v),
            r == final(self)@.result,
    {
        match self.state {
            0 => {
                if v == 0x88 {
                    self.state = 1;
                } else {
                    self.reset();
                }
            },
            1 => {
                if v == 0x33 {
                    self.state = 2;
                } else {
                    self.reset();
                }
            },
            2 => {
                if self.count == 6 {
                    let lo = self.packet[4];
                    let hi = self.packet[5];
                    proof {
                        crate::bits::lemma_u8_bits(hi);
                    }
                    self.datasize = (lo as usize) + ((hi as usize) << 8usize);
                    if self.datasize > 0 {
                        self.state = 3;
                    } else {
                        self.state = 4;
                    }
                }
            },
            3 => {
                if self.count == self.datasize + 6 {
                    self.state = 4;
                }
            },
            4 => {
                self.state = 5;
            },
            5 => {
                if self.check_crc() {
                    self.command();
                }
                self.state = 6;
            },
            6 => {
                self.result = 0x81;
                self.state = 7;
            },
            7 => {
                self.result = self.status;
                self.state = 0;
                self.count = 0;
            },
            _ => {
                self.reset();
            },
        }
        self.result
    }

    /// Receives byte `v` from the link cable and returns the byte shifted back; see
    /// `send_spec`.
    pub fn send(&mut self, v: u8) -> (r: u8)
        requires
            old(self).wf(),
            send_ok(old(self)@, v),
        ensures
            final(self).wf(),
            final(self)@ == send_spec(old(self)@, v),
            r == final(self)@.result,
    {
        self.store(v);
        self.advance(v)
    }
}

impl SerialCallback for GbPrinter {
    /// Receives the byte shifted out and answers with the printer's byte (see `send`). A byte
    /// that would overflow the printer's buffers drops the packet, as a protocol error does.
    fn call(&mut self, value: u8) -> (r: Option<u8>)
        ensures
            old(self).wf() && send_ok(old(self)@, value) ==> final(self)@ == send_spec(old(self)@, value)
                && r == Some(final(self)@.result),
            old(self).wf() && old(self).count < PACKET_SIZE && !advance_ok(stored(old(self)@, value))
                ==> final(self)@ == reset_spec(stored(old(self)@, value)) && r == Some(0u8),
            !(old(self).wf() && old(self).count < PACKET_SIZE)
                ==> final(self)@ == reset_spec(old(self)@) && r == Some(0u8),
    {
        if self.data.len() != PRINT_DATA_SIZE || self.packet.len() != PACKET_SIZE || self.count
            >= PACKET_SIZE {
            self.reset();
            return Some(self.result);
        }
        self.store(value);
        if !self.can_advance() {
            self.reset();
            return Some(self.result);
        }
        Some(self.advance(value))
    }
}

} // verus!
