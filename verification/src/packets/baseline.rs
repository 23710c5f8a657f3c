//! Types and serializers for each "baseline" packet type defined by the
//! NMRA standard.
//!
//! <https://www.nmra.org/sites/default/files/s-92-2004-07.pdf>

use vstd::prelude::*;

use crate::packets::buffer::{byte_bits, SerializeBuffer, STORAGE_BITS};
use crate::packets::{frame, lemma_frame_byte, Address, Packet, Result};
use crate::Error;

verus! {

/// Number of bits in the frame of every baseline packet: an address, an
/// instruction and a checksum.
pub const BASELINE_BITS: usize = 43;

/// The payload of a baseline packet: the address, the instruction, and their
/// exclusive-or as the checksum.
pub open spec fn baseline_payload(address: u8, instruction: u8) -> Seq<u8> {
    seq![address, instruction, address ^ instruction]
}

/// What `serialize` of a baseline packet with the given payload does: it
/// always succeeds with [`BASELINE_BITS`], the buffer starts with the frame of
/// the payload, and the bits behind the frame stay.
pub open spec fn renders(
    payload: Seq<u8>,
    before: SerializeBuffer,
    after: SerializeBuffer,
    r: Result<usize>,
) -> bool {
    &&& r == Ok::<usize, Error>(BASELINE_BITS)
    &&& after@ == frame(payload) + before@.subrange(
        BASELINE_BITS as int,
        STORAGE_BITS as int,
    )
}

/// Possible directions, usually referenced to the "forward" direction
/// of a loco
#[derive(Debug, Copy, Clone, PartialEq, Eq, Structural)]
pub enum Direction {
    /// Forward
    Forward,
    /// Backward
    Backward,
}

impl Direction {
    /// The other direction.
    pub open spec fn opposite(self) -> Direction {
        match self {
            Direction::Forward => Direction::Backward,
            Direction::Backward => Direction::Forward,
        }
    }
}

impl Default for Direction {
    fn default() -> (r: Self)
        ensures
            r == Direction::Forward,
    {
        Direction::Forward
    }
}

impl core::ops::Not for Direction {
    type Output = Self;

    fn not(self) -> (r: Self) {
        match self {
            Direction::Forward => Direction::Backward,
            Direction::Backward => Direction::Forward,
        }
    }
}

impl vstd::std_specs::ops::NotSpecImpl for Direction {
    open spec fn obeys_not_spec() -> bool {
        true
    }

    open spec fn not_req(self) -> bool {
        true
    }

    open spec fn not_spec(self) -> Self {
        self.opposite()
    }
}

/// What a [`SpeedAndDirectionBuilder`] has been told so far.
pub ghost struct Settings {
    /// The address, where one was set.
    pub address: Option<Address>,
    /// The speed step, where one was set.
    pub speed: Option<u8>,
    /// Whether an emergency stop is asked for.
    pub e_stop: bool,
    /// The direction, where one was set.
    pub direction: Option<Direction>,
}

impl Settings {
    /// Nothing set: what a new builder holds.
    pub open spec fn empty() -> Settings {
        Settings { address: None, speed: None, e_stop: false, direction: None }
    }

    /// Only values that the setters accept: a short address from 1 to 127,
    /// a speed step up to 28.
    pub open spec fn valid(self) -> bool {
        &&& self.address matches Some(a) ==> 1 <= a <= 127
        &&& self.speed matches Some(s) ==> s <= 28
    }

    /// The address of the packet: the one set, or 3.
    pub open spec fn packet_address(self) -> Address {
        match self.address {
            Some(a) => a,
            None => 3,
        }
    }

    /// The direction of the packet: the one set, or forward.
    pub open spec fn packet_direction(self) -> Direction {
        match self.direction {
            Some(d) => d,
            None => Direction::Forward,
        }
    }

    /// The five-bit speed field. Speed 0, or none, is code 0; the speed
    /// steps 1 to 28 are the codes 4 to 31.
    pub open spec fn speed_field(self) -> int {
        match self.speed {
            Some(s) => if s == 0 {
                0
            } else {
                s + 3
            },
            None => 0,
        }
    }

    /// The instruction byte of the packet: 64 for the kind of packet, 32
    /// where the direction is forward, and in the low five bits either 1 for
    /// an emergency stop, or the speed field turned round by one bit, its
    /// lowest bit on top.
    pub open spec fn instruction(self) -> int {
        64 + (if self.packet_direction() == Direction::Forward {
            32int
        } else {
            0int
        }) + (if self.e_stop {
            1
        } else {
            16 * (self.speed_field() % 2) + self.speed_field() / 2
        })
    }
}

/// Speed and Direction packet. Used to command a loco to move in the
/// given direction at the given speed.
///
/// The speed part of the instruction is five bits wide, with the bits
/// ordered `04321`, where `0` is LSB and `4` is MSB. The speed
/// instructions are defined by the following list:
/// ```ignore
///  0 4321 | meaning
///  ---------------------------------------------
///  0 0000 | stop
///  1 0000 | also stop
///  0 0001 | e-stop
///  1 0001 | also e-stop
///  0 0010 | speed 1 (0x04)
///   ...   |   ...
///  1 1111 | speed 28 (0x1f)
/// ```
pub struct SpeedAndDirection {
    address: Address,
    instruction: u8,
}

impl Packet for SpeedAndDirection {
}

impl SpeedAndDirection {
    /// Every packet holds a short address and an instruction of the speed
    /// and direction kind.
    #[verifier::type_invariant]
    spec fn well_formed(self) -> bool {
        &&& 1 <= self.address <= 127
        &&& 64 <= self.instruction <= 127
    }

    /// The address that the packet goes to.
    pub closed spec fn spec_address(&self) -> Address {
        self.address
    }

    /// The instruction byte of the packet.
    pub closed spec fn spec_instruction(&self) -> u8 {
        self.instruction
    }

    /// The bytes that the packet is rendered from.
    pub open spec fn payload(&self) -> Seq<u8> {
        baseline_payload(self.spec_address(), self.spec_instruction())
    }

    /// Builder interface for `SpeedAndDirection`. Use of the Builder
    /// pattern ensures that only valid packets are produced.
    pub fn builder() -> (b: SpeedAndDirectionBuilder)
        ensures
            b@ == Settings::empty(),
    {
        SpeedAndDirectionBuilder::default()
    }

    /// The address that the packet goes to.
    #[verifier::when_used_as_spec(spec_address)]
    pub fn address(&self) -> (a: Address)
        ensures
            a == self.spec_address(),
            1 <= a <= 127,
    {
        proof {
            use_type_invariant(self);
        }
        self.address
    }

    /// The instruction byte of the packet.
    #[verifier::when_used_as_spec(spec_instruction)]
    pub fn instruction(&self) -> (i: u8)
        ensures
            i == self.spec_instruction(),
            64 <= i <= 127,
    {
        proof {
            use_type_invariant(self);
        }
        self.instruction
    }

    /// Serialize the packed into the provided buffer
    pub fn serialize(&self, buf: &mut SerializeBuffer) -> (r: Result<usize>)
        ensures
            renders(self.payload(), *old(buf), *final(buf), r),
    {
        <Self as Packet>::serialize(
            &[self.address, self.instruction, self.address ^ self.instruction],
            buf,
        )
    }
}

/// Builder used to construct a SpeedAndDirection packet
pub struct SpeedAndDirectionBuilder {
    address: Option<Address>,
    speed: Option<u8>,
    e_stop: bool,
    direction: Option<Direction>,
}

impl View for SpeedAndDirectionBuilder {
    type V = Settings;

    closed spec fn view(&self) -> Settings {
        Settings {
            address: self.address,
            speed: self.speed,
            e_stop: self.e_stop,
            direction: self.direction,
        }
    }
}

impl Default for SpeedAndDirectionBuilder {
    fn default() -> (b: Self)
        ensures
            b@ == Settings::empty(),
    {
        SpeedAndDirectionBuilder { address: None, speed: None, e_stop: false, direction: None }
    }
}

impl SpeedAndDirectionBuilder {
    /// A builder only ever holds what its setters accepted.
    #[verifier::type_invariant]
    spec fn well_formed(self) -> bool {
        self@.valid()
    }

    /// What one call of `build` does: the builder, which holds nothing that
    /// a setter would refuse, is left as it was, and the packet holds the
    /// address and the instruction that the settings give.
    pub open spec fn builds(self, left: Self, pkt: SpeedAndDirection) -> bool {
        &&& self@.valid()
        &&& left == self
        &&& pkt.address() == self@.packet_address()
        &&& pkt.instruction() == self@.instruction()
    }

    /// Sets the address. In short mode, this must be between 1
    /// and 127. Returns [`Error::InvalidAddress`] if the provided address
    /// is outside of this range.
    pub fn address(&mut self, address: Address) -> (r: Result<&mut Self>)
        ensures
            match r {
                Ok(b) => {
                    &&& 1 <= address <= 127
                    &&& b@ == (Settings { address: Some(address), ..old(self)@ })
                    &&& *final(self) == *final(b)
                },
                Err(e) => {
                    &&& address == 0 || address > 127
                    &&& e == Error::InvalidAddress
                    &&& *final(self) == *old(self)
                },
            },
    {
        proof {
            use_type_invariant(&*self);
        }
        if address == 0 || address > 0x7f {
            Err(Error::InvalidAddress)
        } else {
            self.address = Some(address);
            Ok(self)
        }
    }

    /// Sets the speed. The speed has to be between 0 and 28. Returns
    /// [`Error::InvalidSpeed`] if the provided speed is outside this range.
    pub fn speed(&mut self, speed: u8) -> (r: Result<&mut Self>)
        ensures
            match r {
                Ok(b) => {
                    &&& speed <= 28
                    &&& b@ == (Settings { speed: Some(speed), ..old(self)@ })
                    &&& *final(self) == *final(b)
                },
                Err(e) => {
                    &&& speed > 28
                    &&& e == Error::InvalidSpeed
                    &&& *final(self) == *old(self)
                },
            },
    {
        proof {
            use_type_invariant(&*self);
        }
        if speed > 28 {
            Err(Error::InvalidSpeed)
        } else {
            self.speed = Some(speed);
            Ok(self)
        }
    }

    /// Sets the direction
    pub fn direction(&mut self, direction: Direction) -> (b: &mut Self)
        ensures
            b@ == (Settings { direction: Some(direction), ..old(self)@ }),
            *final(self) == *final(b),
    {
        proof {
            use_type_invariant(&*self);
        }
        self.direction = Some(direction);
        self
    }

    /// Sends the e-stop signal. Overrides any other set speed value
    pub fn e_stop(&mut self, e_stop: bool) -> (b: &mut Self)
        ensures
            b@ == (Settings { e_stop, ..old(self)@ }),
            *final(self) == *final(b),
    {
        proof {
            use_type_invariant(&*self);
        }
        self.e_stop = e_stop;
        self
    }

    /// Build a [`SpeedAndDirection`] packet using the provided values,
    /// falling back to sensible defaults if not all fields have been
    /// provided.
    ///
    /// # Defaults
    ///
    /// * `speed = 0`
    /// * `direction = Forward`
    /// * `address = 3`
    /// * `e_stop = false`
    pub fn build(&mut self) -> (pkt: SpeedAndDirection)
        ensures
            old(self).builds(*final(self), pkt),
            old(self)@.e_stop ==> pkt.instruction() & 0x0f == 0x01,
    {
        proof {
            use_type_invariant(&*self);
        }
        let address: Address = self.address.unwrap_or(3);
        // add the weird offset to the speed
        let speed: u8 = match self.speed {
            Some(0) | None => 0,
            Some(speed) => speed + 3,
        };
        let mut instruction: u8 = 0b0100_0000;  // packet type
        if let Direction::Forward = self.direction.unwrap_or_default() {
            instruction |= 0b0010_0000;
            assert(0x40u8 | 0x20u8 == 0x60u8) by (bit_vector);
        }
        let ghost marked = instruction;

        // e-stop overrides other speed setting
        if self.e_stop {
            instruction |= 0x01;
            assert(instruction == marked + 1 && instruction & 0x0f == 0x01) by (bit_vector)
                requires
                    instruction == marked | 0x01,
                    marked == 0x40 || marked == 0x60,
            ;
        } else {
            // upper four bits of speed
            instruction |= (speed >> 1) & 0x0f;

            // LSB of speed
            instruction |= (speed & 0x01) << 4;
            assert(instruction == marked + 16 * (speed % 2) + speed / 2) by (bit_vector)
                requires
                    instruction == marked | ((speed >> 1) & 0x0f) | ((speed & 0x01) << 4),
                    marked == 0x40 || marked == 0x60,
                    speed <= 31,
            ;
        }

        SpeedAndDirection { address, instruction }
    }
}

/// The layout of the instruction byte, most significant bit first: `01` for
/// the kind of packet; the direction, set for forward; the lowest bit of the
/// speed field; then its bits 4 to 1. With an emergency stop the low five bits
/// are `00001` instead.
pub proof fn lemma_instruction_layout(settings: Settings)
    requires
        settings.valid(),
    ensures
        0 <= settings.speed_field() <= 31,
        64 <= settings.instruction() <= 127,
        byte_bits(settings.instruction() as u8) == if settings.e_stop {
            seq![
                false,
                true,
                settings.packet_direction() == Direction::Forward,
                false,
                false,
                false,
                false,
                true,
            ]
        } else {
            seq![
                false,
                true,
                settings.packet_direction() == Direction::Forward,
                settings.speed_field() % 2 == 1,
                settings.speed_field() / 16 % 2 == 1,
                settings.speed_field() / 8 % 2 == 1,
                settings.speed_field() / 4 % 2 == 1,
                settings.speed_field() / 2 % 2 == 1,
            ]
        },
{
    let field = settings.speed_field() as u8;
    let forward = settings.packet_direction() == Direction::Forward;
    let instruction = settings.instruction() as u8;
    if settings.e_stop {
        assert(instruction & 0x80 == 0 && instruction & 0x40 != 0 && (instruction & 0x20 != 0
            <==> forward) && instruction & 0x10 == 0 && instruction & 0x08 == 0 && instruction
            & 0x04 == 0 && instruction & 0x02 == 0 && instruction & 0x01 != 0) by (bit_vector)
            requires
                instruction == if forward {
                    97u8
                } else {
                    65u8
                },
        ;
    } else {
        assert(instruction & 0x80 == 0 && instruction & 0x40 != 0 && (instruction & 0x20 != 0
            <==> forward) && (instruction & 0x10 != 0 <==> field % 2 == 1) && (instruction & 0x08
            != 0 <==> field / 16 % 2 == 1) && (instruction & 0x04 != 0 <==> field / 8 % 2 == 1)
            && (instruction & 0x02 != 0 <==> field / 4 % 2 == 1) && (instruction & 0x01 != 0
            <==> field / 2 % 2 == 1)) by (bit_vector)
            requires
                field <= 31,
                instruction == (if forward {
                    96u8
                } else {
                    64u8
                }) + 16 * (field % 2) + field / 2,
        ;
    }
}

/// An emergency stop overrides the speed: bits 3 to 0 of the instruction are
/// `0001` and bit 4 is clear, whatever speed was set before.
pub proof fn lemma_e_stop_overrides_speed(settings: Settings)
    requires
        settings.e_stop,
    ensures
        settings.instruction() == (Settings { speed: None, ..settings }).instruction(),
        (settings.instruction() as u8) & 0x1f == 0x01,
{
    let instruction = settings.instruction() as u8;
    assert(instruction & 0x1f == 0x01) by (bit_vector)
        requires
            instruction == 97 || instruction == 65,
    ;
}

/// Building twice gives the same packet: the first `build` leaves the builder
/// as it was, so the second one sees the same settings.
pub proof fn lemma_build_idempotent(
    builder: SpeedAndDirectionBuilder,
    between: SpeedAndDirectionBuilder,
    first: SpeedAndDirection,
    after: SpeedAndDirectionBuilder,
    second: SpeedAndDirection,
)
    requires
        builder.builds(between, first),
        between.builds(after, second),
    ensures
        first == second,
        after == builder,
{
}

/// For every address from 1 to 127, every speed up to 28 and either
/// direction, the packet that the builder makes is rendered into 43 bits, and
/// the third byte on the wire is the exclusive-or of the first two.
pub proof fn lemma_speed_and_direction_frame(
    address: Address,
    speed: u8,
    direction: Direction,
    e_stop: bool,
)
    requires
        1 <= address <= 127,
        speed <= 28,
    ensures
        ({
            let settings = Settings {
                address: Some(address),
                speed: Some(speed),
                e_stop,
                direction: Some(direction),
            };
            let payload = baseline_payload(address, settings.instruction() as u8);
            let bits = frame(payload);
            &&& settings.valid()
            &&& settings.packet_address() == address
            &&& payload.len() == 3
            &&& payload[2] == payload[0] ^ payload[1]
            &&& bits.len() == BASELINE_BITS
            &&& bits.subrange(16, 24) == byte_bits(payload[0])
            &&& bits.subrange(25, 33) == byte_bits(payload[1])
            &&& bits.subrange(34, 42) == byte_bits(payload[0] ^ payload[1])
        }),
{
    let settings = Settings {
        address: Some(address),
        speed: Some(speed),
        e_stop,
        direction: Some(direction),
    };
    let instruction = settings.instruction() as u8;
    let payload = baseline_payload(address, instruction);
    assert(payload[0] == address && payload[1] == instruction && payload[2] == address
        ^ instruction);
    lemma_baseline_frame(address, instruction);
}

/// The frame of a baseline payload has 43 bits, and holds the address, the
/// instruction and their exclusive-or, each byte behind its start bit.
pub proof fn lemma_baseline_frame(address: u8, instruction: u8)
    ensures
        ({
            let bits = frame(baseline_payload(address, instruction));
            &&& bits.len() == BASELINE_BITS
            &&& bits.subrange(16, 24) == byte_bits(address)
            &&& bits.subrange(25, 33) == byte_bits(instruction)
            &&& bits.subrange(34, 42) == byte_bits(address ^ instruction)
        }),
{
    let payload = baseline_payload(address, instruction);
    let bits = frame(payload);
    lemma_frame_byte(payload, 0);
    lemma_frame_byte(payload, 1);
    lemma_frame_byte(payload, 2);
}

/// A Reset packet is one in which the address, instruction, and ECC are
/// all zero. All decoders will, upon receiving this packet, reset to their
/// normal power-up state. Any speed or direction will be cleared and
/// locomotives stopped.
pub struct Reset;

impl Packet for Reset {
}

impl Reset {
    /// The bytes that the packet is rendered from.
    pub open spec fn payload(&self) -> Seq<u8> {
        seq![0x00, 0x00, 0x00]
    }

    /// Serialize the packed into the provided buffer
    pub fn serialize(&self, buf: &mut SerializeBuffer) -> (r: Result<usize>)
        ensures
            renders(self.payload(), *old(buf), *final(buf), r),
    {
        <Self as Packet>::serialize(&[0x00, 0x00, 0x00], buf)
    }
}

/// An Idle packet is one in which the address is 0xff and instruction 0x00.
/// Upon receiving this, a decoder performs no new action.
pub struct Idle;

impl Packet for Idle {
}

impl Idle {
    /// The bytes that the packet is rendered from.
    pub open spec fn payload(&self) -> Seq<u8> {
        seq![0xff, 0x00, 0xff]
    }

    /// Serialize the packed into the provided buffer
    pub fn serialize(&self, buf: &mut SerializeBuffer) -> (r: Result<usize>)
        ensures
            renders(self.payload(), *old(buf), *final(buf), r),
    {
        <Self as Packet>::serialize(&[0xff, 0x00, 0xff], buf)
    }
}

/// Instruct all decoders to stop, either immediately or by simply
/// removing motor power ("float"). The NMRA standard allows a direction
/// field, but that is not implemented here because in situations where
/// a BroadcastStop is being sent it is unlikely that direction settings
/// will be important. (whereas a regular stop might wish to retain
/// headlight states)
pub struct BroadcastStop {
    float: bool,
}

impl Packet for BroadcastStop {
}

impl BroadcastStop {
    /// Whether the stop only removes motor power.
    pub closed spec fn is_float(&self) -> bool {
        self.float
    }

    /// The instruction byte: a stop, with one more bit set for a floating
    /// stop.
    pub open spec fn instruction(&self) -> u8 {
        if self.is_float() {
            0b0101_0000
        } else {
            0b0100_0000
        }
    }

    /// The bytes that the packet is rendered from. The checksum is the
    /// instruction, as the broadcast address is zero.
    pub open spec fn payload(&self) -> Seq<u8> {
        seq![0x00, self.instruction(), self.instruction()]
    }

    /// Bring all locomotives to an immediate stop
    pub fn immediate() -> (pkt: Self)
        ensures
            !pkt.is_float(),
    {
        Self { float: false }
    }

    /// Bring all locomotives to a gently/floating stop
    pub fn float() -> (pkt: Self)
        ensures
            pkt.is_float(),
    {
        Self { float: true }
    }

    /// Serialize the packed into the provided buffer
    pub fn serialize(&self, buf: &mut SerializeBuffer) -> (r: Result<usize>)
        ensures
            renders(self.payload(), *old(buf), *final(buf), r),
    {
        let instr: u8 = if self.float {
            0b0101_0000
        } else {
            0b0100_0000
        };

        <Self as Packet>::serialize(&[0x00, instr, instr], buf)
    }
}

/// Every baseline packet ends in its checksum: the payloads of the packets
/// without a builder are the address, the instruction and their exclusive-or,
/// as that of a speed and direction packet is.
pub proof fn lemma_baseline_checksums(stop: BroadcastStop)
    ensures
        Reset.payload() == baseline_payload(0x00, 0x00),
        Idle.payload() == baseline_payload(0xff, 0x00),
        stop.payload() == baseline_payload(0x00, stop.instruction()),
{
    let instruction = stop.instruction();
    assert(0x00u8 ^ 0x00u8 == 0x00u8 && 0xffu8 ^ 0x00u8 == 0xffu8 && 0x00u8 ^ instruction
        == instruction) by (bit_vector);
}

} // verus!
