use vstd::prelude::*;

verus! {

broadcast use vstd::array::group_array_axioms;

/// Number of bytes of a report on the wire.
pub const REPORT_LEN: usize = 90;

/// Number of bytes of the effect-specific argument block.
pub const ARGUMENTS_LEN: usize = 80;

/// First wire offset covered by the checksum (`remaining_packets`).
pub const CRC_START: usize = 2;

/// One past the last wire offset covered by the checksum (end of `arguments`).
pub const CRC_END: usize = 88;

/// Session identifier carried by every command.
pub const TRANSACTION_ID: u8 = 0x1F;

/// "Extended matrix" command family.
pub const EXTENDED_MATRIX_CLASS: u8 = 0x0F;

/// "Set effect" command within the extended matrix family.
pub const SET_EFFECT_COMMAND: u8 = 0x02;

/// Persistent (non-volatile) storage selector for a lighting setting.
pub const VARSTORE: u8 = 0x01;

/// Logical LED group of the whole keyboard backlight matrix.
pub const BACKLIGHT_LED: u8 = 0x05;

/// Effect identifiers (argument byte 2), as the keyboard answers to them.
pub const EXT_EFFECT_STATIC: u8 = 0x01;

pub const EXT_EFFECT_BREATHING: u8 = 0x02;

pub const EXT_EFFECT_SPECTRUM: u8 = 0x03;

pub const EXT_EFFECT_WAVE: u8 = 0x04;

/// A lighting effect the keyboard understands.
#[derive(Debug, Clone, Copy, PartialEq, Eq, Structural)]
pub enum Effect {
    Static { red: u8, green: u8, blue: u8 },
    Breathing { red: u8, green: u8, blue: u8 },
    Spectrum,
    Wave { direction: u8, speed: u8 },
}

/// Why a byte buffer could not be read as a report.
#[derive(Debug, Clone, Copy, PartialEq, Eq, Structural)]
pub enum ParseError {
    ResponseTooShort,
}

/// Fixed 90-byte feature report exchanged with the keyboard.
#[derive(Debug, Clone, Copy)]
pub struct RazerReport {
    pub status: u8,
    pub transaction_id: u8,
    pub remaining_packets: u16,
    pub protocol_type: u8,
    pub data_size: u8,
    pub command_class: u8,
    pub command_id: u8,
    pub arguments: [u8; 80],
    pub crc: u8,
    pub reserved: u8,
}

/// Running XOR of `s[lo..hi]`.
pub open spec fn xor_range(s: Seq<u8>, lo: int, hi: int) -> u8
    decreases hi - lo,
{
    if hi <= lo {
        0
    } else {
        xor_range(s, lo, hi - 1) ^ s[hi - 1]
    }
}

/// The checksum of a wire image: XOR of offsets 2 through 87.
pub open spec fn checksum_of(bytes: Seq<u8>) -> u8 {
    xor_range(bytes, CRC_START as int, CRC_END as int)
}

/// The meaningful prefix of the argument block of an effect.
pub open spec fn effect_prefix(effect: Effect) -> Seq<u8> {
    match effect {
        Effect::Static { red, green, blue } => seq![
            VARSTORE,
            BACKLIGHT_LED,
            EXT_EFFECT_STATIC,
            0u8,
            0u8,
            1u8,
            red,
            green,
            blue,
        ],
        Effect::Breathing { red, green, blue } => seq![
            VARSTORE,
            BACKLIGHT_LED,
            EXT_EFFECT_BREATHING,
            1u8,
            0u8,
            1u8,
            red,
            green,
            blue,
        ],
        Effect::Spectrum => seq![VARSTORE, BACKLIGHT_LED, EXT_EFFECT_SPECTRUM],
        Effect::Wave { direction, speed } => seq![
            VARSTORE,
            BACKLIGHT_LED,
            EXT_EFFECT_WAVE,
            direction,
            speed,
        ],
    }
}

/// The full 80-byte argument block of an effect: its prefix, then zeros.
pub open spec fn effect_arguments(effect: Effect) -> Seq<u8> {
    let p = effect_prefix(effect);
    Seq::new(80, |i: int| if i < p.len() { p[i] } else { 0u8 })
}

/// The `data_size` header value of an effect.
pub open spec fn effect_data_size(effect: Effect) -> u8 {
    match effect {
        Effect::Static { .. } | Effect::Breathing { .. } => 0x09,
        Effect::Spectrum | Effect::Wave { .. } => 0x06,
    }
}

/// Whether `bytes` starts with the wire image of `r`.
pub open spec fn decodes_to(bytes: Seq<u8>, r: RazerReport) -> bool {
    bytes.len() >= REPORT_LEN && r.wire() == bytes.subrange(0, REPORT_LEN as int)
}

/// The running XOR over `lo..hi` reads only the bytes in `lo..hi`.
pub proof fn lemma_xor_range_depends_on_range(a: Seq<u8>, b: Seq<u8>, lo: int, hi: int)
    requires
        0 <= lo,
        hi <= a.len(),
        hi <= b.len(),
        forall|i: int| lo <= i < hi ==> a[i] == b[i],
    ensures
        xor_range(a, lo, hi) == xor_range(b, lo, hi),
    decreases hi - lo,
{
    if hi > lo {
        lemma_xor_range_depends_on_range(a, b, lo, hi - 1);
    }
}

/// Round trip: a report read back from the wire image of `r` is `r`,
/// field for field.
pub proof fn lemma_round_trip(r: RazerReport, parsed: RazerReport)
    requires
        decodes_to(r.wire(), parsed),
    ensures
        parsed == r,
{
    let w = r.wire();
    let v = parsed.wire();
    assert(v =~= w.subrange(0, REPORT_LEN as int));
    assert(v[0] == w[0] && v[1] == w[1] && v[2] == w[2] && v[3] == w[3]);
    assert(v[4] == w[4] && v[5] == w[5] && v[6] == w[6] && v[7] == w[7]);
    assert(v[88] == w[88] && v[89] == w[89]);
    assert(parsed.remaining_packets == r.remaining_packets);
    assert forall|i: int| 0 <= i < 80 implies parsed.arguments[i] == r.arguments[i] by {
        assert(v[8 + i] == w[8 + i]);
    }
    assert(parsed.arguments =~= r.arguments);
}

/// Every report, whatever its effect, has a wire image of exactly 90 bytes.
pub proof fn lemma_wire_len(r: RazerReport)
    ensures
        r.wire().len() == REPORT_LEN,
{
}

/// In every command built for an effect, the byte at offset 88 of the wire
/// image is the XOR of the bytes at offsets 2 through 87.
pub proof fn lemma_command_checksum(effect: Effect, r: RazerReport)
    requires
        r.is_command_for(effect),
    ensures
        r.wire()[CRC_END as int] == xor_range(r.wire(), CRC_START as int, CRC_END as int),
{
}

/// XOR of bytes 2 through 87 of a wire image.
pub fn checksum(bytes: &[u8; 90]) -> (r: u8)
    ensures
        r == checksum_of(bytes@),
{
    let mut acc: u8 = 0;
    let mut i: usize = CRC_START;
    while i < CRC_END
        invariant
            CRC_START <= i <= CRC_END,
            bytes@.len() == REPORT_LEN,
            acc == xor_range(bytes@, CRC_START as int, i as int),
        decreases CRC_END - i,
    {
        acc = acc ^ bytes[i];
        i = i + 1;
    }
    acc
}

impl RazerReport {
    /// The wire image: each field at its offset, `remaining_packets` big-endian.
    pub open spec fn wire(self) -> Seq<u8> {
        seq![
            self.status,
            self.transaction_id,
            (self.remaining_packets / 256) as u8,
            (self.remaining_packets % 256) as u8,
            self.protocol_type,
            self.data_size,
            self.command_class,
            self.command_id,
        ] + self.arguments@ + seq![self.crc, self.reserved]
    }

    /// The stored checksum matches the wire image.
    pub open spec fn checksum_valid(self) -> bool {
        self.crc == checksum_of(self.wire())
    }

    /// `self` is exactly the command that selects `effect`, checksum included.
    pub open spec fn is_command_for(self, effect: Effect) -> bool {
        &&& self.status == 0
        &&& self.transaction_id == TRANSACTION_ID
        &&& self.remaining_packets == 0
        &&& self.protocol_type == 0
        &&& self.data_size == effect_data_size(effect)
        &&& self.command_class == EXTENDED_MATRIX_CLASS
        &&& self.command_id == SET_EFFECT_COMMAND
        &&& self.arguments@ == effect_arguments(effect)
        &&& self.reserved == 0
        &&& self.checksum_valid()
    }

    /// An empty command: every field zero but the transaction id.
    pub fn new() -> (r: Self)
        ensures
            r.status == 0,
            r.transaction_id == TRANSACTION_ID,
            r.remaining_packets == 0,
            r.protocol_type == 0,
            r.data_size == 0,
            r.command_class == 0,
            r.command_id == 0,
            r.arguments@ == Seq::new(80, |i: int| 0u8),
            r.crc == 0,
            r.reserved == 0,
    {
        let r = RazerReport {
            status: 0x00,
            transaction_id: TRANSACTION_ID,
            remaining_packets: 0x0000,
            protocol_type: 0x00,
            data_size: 0x00,
            command_class: 0x00,
            command_id: 0x00,
            arguments: [0u8; 80],
            crc: 0x00,
            reserved: 0x00,
        };
        assert(r.arguments@ =~= Seq::new(80, |i: int| 0u8));
        r
    }

    /// Writes each field at its wire offset.
    pub fn to_bytes(&self) -> (r: [u8; 90])
        ensures
            r@ == self.wire(),
            r@.len() == REPORT_LEN,
    {
        let mut b = [0u8; 90];
        let mut i: usize = 0;
        while i < ARGUMENTS_LEN
            invariant
                i <= ARGUMENTS_LEN,
                b@.len() == REPORT_LEN,
                forall|j: int| 0 <= j < i ==> b@[8 + j] == self.arguments@[j],
            decreases ARGUMENTS_LEN - i,
        {
            b[8 + i] = self.arguments[i];
            i = i + 1;
        }
        b[0] = self.status;
        b[1] = self.transaction_id;
        b[2] = (self.remaining_packets / 256) as u8;
        b[3] = (self.remaining_packets % 256) as u8;
        b[4] = self.protocol_type;
        b[5] = self.data_size;
        b[6] = self.command_class;
        b[7] = self.command_id;
        b[88] = self.crc;
        b[89] = self.reserved;
        assert(b@ =~= self.wire());
        b
    }

    /// Static colour command.
    pub fn static_rgb(red: u8, green: u8, blue: u8) -> (r: Self)
        ensures
            r.is_command_for(Effect::Static { red, green, blue }),
            r.command_class == 0x0F,
            r.command_id == 0x02,
            r.data_size == 0x09,
            r.arguments[2] == EXT_EFFECT_STATIC,
            r.arguments[6] == red,
            r.arguments[7] == green,
            r.arguments[8] == blue,
    {
        let mut report = Self::new();
        report.command_class = EXTENDED_MATRIX_CLASS;
        report.command_id = SET_EFFECT_COMMAND;
        report.data_size = 0x09;
        report.arguments[0] = VARSTORE;
        report.arguments[1] = BACKLIGHT_LED;
        report.arguments[2] = EXT_EFFECT_STATIC;
        report.arguments[5] = 0x01;
        report.arguments[6] = red;
        report.arguments[7] = green;
        report.arguments[8] = blue;
        assert(report.arguments@ =~= effect_arguments(Effect::Static { red, green, blue }));
        report.calculate_crc();
        report
    }

    /// Spectrum cycling command.
    pub fn spectrum() -> (r: Self)
        ensures
            r.is_command_for(Effect::Spectrum),
    {
        let mut report = Self::new();
        report.command_class = EXTENDED_MATRIX_CLASS;
        report.command_id = SET_EFFECT_COMMAND;
        report.data_size = 0x06;
        report.arguments[0] = VARSTORE;
        report.arguments[1] = BACKLIGHT_LED;
        report.arguments[2] = EXT_EFFECT_SPECTRUM;
        assert(report.arguments@ =~= effect_arguments(Effect::Spectrum));
        report.calculate_crc();
        report
    }

    /// Single-colour breathing command.
    pub fn breathing(red: u8, green: u8, blue: u8) -> (r: Self)
        ensures
            r.is_command_for(Effect::Breathing { red, green, blue }),
    {
        let mut report = Self::new();
        report.command_class = EXTENDED_MATRIX_CLASS;
        report.command_id = SET_EFFECT_COMMAND;
        report.data_size = 0x09;
        report.arguments[0] = VARSTORE;
        report.arguments[1] = BACKLIGHT_LED;
        report.arguments[2] = EXT_EFFECT_BREATHING;
        report.arguments[3] = 0x01;
        report.arguments[5] = 0x01;
        report.arguments[6] = red;
        report.arguments[7] = green;
        report.arguments[8] = blue;
        assert(report.arguments@ =~= effect_arguments(Effect::Breathing { red, green, blue }));
        report.calculate_crc();
        report
    }

    /// Wave command with the given direction and speed.
    pub fn wave(direction: u8, speed: u8) -> (r: Self)
        ensures
            r.is_command_for(Effect::Wave { direction, speed }),
    {
        let mut report = Self::new();
        report.command_class = EXTENDED_MATRIX_CLASS;
        report.command_id = SET_EFFECT_COMMAND;
        report.data_size = 0x06;
        report.arguments[0] = VARSTORE;
        report.arguments[1] = BACKLIGHT_LED;
        report.arguments[2] = EXT_EFFECT_WAVE;
        report.arguments[3] = direction;
        report.arguments[4] = speed;
        assert(report.arguments@ =~= effect_arguments(Effect::Wave { direction, speed }));
        report.calculate_crc();
        report
    }

    /// The command that selects `effect`.
    pub fn for_effect(effect: Effect) -> (r: Self)
        ensures
            r.is_command_for(effect),
    {
        match effect {
            Effect::Static { red, green, blue } => Self::static_rgb(red, green, blue),
            Effect::Breathing { red, green, blue } => Self::breathing(red, green, blue),
            Effect::Spectrum => Self::spectrum(),
            Effect::Wave { direction, speed } => Self::wave(direction, speed),
        }
    }

    /// Reads the fields of a report from the first 90 bytes of `buf`.
    /// Neither `crc` nor `reserved` is checked.
    pub fn from_bytes(buf: &[u8]) -> (res: Result<Self, ParseError>)
        ensures
            buf@.len() < REPORT_LEN <==> res is Err,
            res matches Err(e) ==> e == ParseError::ResponseTooShort,
            res matches Ok(r) ==> decodes_to(buf@, r),
    {
        if buf.len() < REPORT_LEN {
            return Err(ParseError::ResponseTooShort);
        }
        let mut arguments = [0u8; 80];
        let mut i: usize = 0;
        while i < ARGUMENTS_LEN
            invariant
                i <= ARGUMENTS_LEN,
                buf@.len() >= REPORT_LEN,
                arguments@.len() == ARGUMENTS_LEN,
                forall|j: int| 0 <= j < i ==> arguments@[j] == buf@[8 + j],
            decreases ARGUMENTS_LEN - i,
        {
            arguments[i] = buf[8 + i];
            i = i + 1;
        }
        let hi = buf[2];
        let lo = buf[3];
        let remaining_packets: u16 = (hi as u16) * 256 + (lo as u16);
        let r = RazerReport {
            status: buf[0],
            transaction_id: buf[1],
            remaining_packets,
            protocol_type: buf[4],
            data_size: buf[5],
            command_class: buf[6],
            command_id: buf[7],
            arguments,
            crc: buf[88],
            reserved: buf[89],
        };
        assert(r.wire() =~= buf@.subrange(0, REPORT_LEN as int));
        Ok(r)
    }

    /// Stores the checksum of the other fields into `crc`.
    pub fn calculate_crc(&mut self)
        ensures
            final(self).checksum_valid(),
            final(self).crc == checksum_of(old(self).wire()),
            final(self).status == old(self).status,
            final(self).transaction_id == old(self).transaction_id,
            final(self).remaining_packets == old(self).remaining_packets,
            final(self).protocol_type == old(self).protocol_type,
            final(self).data_size == old(self).data_size,
            final(self).command_class == old(self).command_class,
            final(self).command_id == old(self).command_id,
            final(self).arguments == old(self).arguments,
            final(self).reserved == old(self).reserved,
    {
        let bytes = self.to_bytes();
        let crc = checksum(&bytes);
        let ghost before = self.wire();
        self.crc = crc;
        proof {
            lemma_xor_range_depends_on_range(
                before,
                self.wire(),
                CRC_START as int,
                CRC_END as int,
            );
        }
    }
}

} // verus!
