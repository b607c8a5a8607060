//! Composite-device assembly.
//!
//! The descriptor builder models the one-time registration of logical
//! functions against the shared USB controller: each registration consumes
//! descriptor scratch space, bounded at build time by the fixed scratch
//! cells, and receives its interface number in the order given; endpoint
//! numbers are handed out once each. The HID function's endpoint pair is
//! split exactly once into its writer and reader capabilities, so exactly
//! one transmitting owner of the input endpoint can ever exist.

use crate::arena::after_claim;
use crate::arena::claim_free;
use crate::arena::Arena;
use vstd::prelude::*;

verus! {

/// Size of the configuration-descriptor scratch cell. A build that needs
/// more fails at build time, before enumeration begins.
pub const CONFIG_DESCRIPTOR_CAPACITY: usize = 256;

/// Size of the BOS-descriptor scratch cell.
pub const BOS_DESCRIPTOR_CAPACITY: usize = 256;

/// Size of the control-transfer buffer.
pub const CONTROL_BUF_CAPACITY: usize = 64;

/// Descriptor space the joystick function consumes: its interface
/// descriptor, its HID descriptor and its two endpoint descriptors.
pub const HID_FUNCTION_DESCRIPTOR_LEN: usize = 32;

/// Highest endpoint number the controller offers per direction.
pub const MAX_ENDPOINT_NUMBER: u8 = 15;

/// Identity fields the device enumerates with.
#[derive(Clone, Copy, PartialEq, Eq, Structural, Debug)]
pub struct DeviceIdentity {
    pub vendor_id: u16,
    pub product_id: u16,
    pub device_class: u8,
    pub device_sub_class: u8,
    pub device_protocol: u8,
    pub composite_with_iads: bool,
    pub max_power_ma: u16,
    pub max_packet_size_0: u8,
}

/// Whether an identity declares the class triad hosts expect of a
/// multi-function device: miscellaneous class 0xEF, common subclass 0x02,
/// interface-association protocol 0x01, with association descriptors on.
pub open spec fn is_composite(d: DeviceIdentity) -> bool {
    &&& d.device_class == 0xEF
    &&& d.device_sub_class == 0x02
    &&& d.device_protocol == 0x01
    &&& d.composite_with_iads
}

impl DeviceIdentity {
    /// The identity this device enumerates with.
    pub fn this_device() -> (d: DeviceIdentity)
        ensures
            d.vendor_id == 0xc0de,
            d.product_id == 0xcafe,
            d.max_power_ma == 100,
            d.max_packet_size_0 == 64,
            is_composite(d),
    {
        DeviceIdentity {
            vendor_id: 0xc0de,
            product_id: 0xcafe,
            device_class: 0xEF,
            device_sub_class: 0x02,
            device_protocol: 0x01,
            composite_with_iads: true,
            max_power_ma: 100,
            max_packet_size_0: 64,
        }
    }
}

/// The string fields of the device's identity, shown to the host at
/// enumeration.
pub struct DeviceStrings {
    pub manufacturer: &'static str,
    pub product: &'static str,
    pub serial_number: &'static str,
}

/// The strings this device enumerates with.
pub fn device_strings() -> (s: DeviceStrings)
    ensures
        s.manufacturer@ == "Kaze"@,
        s.product@ == "Custom Joystick"@,
        s.serial_number@ == "12345678"@,
{
    DeviceStrings {
        manufacturer: "Kaze",
        product: "Custom Joystick",
        serial_number: "12345678",
    }
}

/// Direction of an endpoint, seen from the host.
#[derive(Clone, Copy, PartialEq, Eq, Structural, Debug)]
pub enum Direction {
    In,
    Out,
}

/// One endpoint of a logical function: number, direction and the largest
/// packet it takes. Immutable once allocated.
#[derive(Clone, Copy, PartialEq, Eq, Structural, Debug)]
pub struct EndpointInfo {
    pub number: u8,
    pub direction: Direction,
    pub max_packet_size: u16,
}

/// Two endpoints name disjoint channels unless both number and direction
/// coincide.
pub open spec fn endpoints_disjoint(a: EndpointInfo, b: EndpointInfo) -> bool {
    a.number != b.number || a.direction != b.direction
}

/// Why a build step was refused. Each is a wiring defect of the firmware
/// image, caught at build time and treated as fatal by the caller; none is
/// a recoverable runtime condition.
#[derive(Clone, Copy, PartialEq, Eq, Structural, Debug)]
pub enum BuildError {
    /// The fixed descriptor scratch bound would be exceeded.
    DescriptorSpace,
    /// No endpoint of the needed direction is left.
    EndpointsExhausted,
    /// The function's state cell was already claimed by an earlier build.
    StateCellClaimed,
}

/// One logical function registered against the controller.
#[derive(Clone, Copy, PartialEq, Eq, Structural, Debug)]
pub struct RegisteredFunction {
    pub interface_number: u8,
    pub descriptor_len: usize,
}

/// Descriptor scratch consumed by a sequence of registrations.
pub open spec fn space_used(fs: Seq<RegisteredFunction>) -> int
    decreases fs.len(),
{
    if fs.len() == 0 {
        0
    } else {
        space_used(fs.drop_last()) + fs.last().descriptor_len
    }
}

/// The composite-device builder: the registration order of logical
/// functions, the descriptor scratch they consumed, and the next free
/// endpoint number of each direction.
pub struct DescriptorBuilder {
    pub identity: DeviceIdentity,
    pub functions: Vec<RegisteredFunction>,
    pub used: usize,
    pub next_in: u8,
    pub next_out: u8,
}

impl DescriptorBuilder {
    /// Builder well-formedness: the space tally matches the registrations,
    /// stays within the scratch cell, interface numbers count up from zero
    /// in registration order, every registration consumed space, and the
    /// endpoint counters stay in range.
    pub open spec fn wf(&self) -> bool {
        &&& self.used == space_used(self.functions@)
        &&& self.used <= CONFIG_DESCRIPTOR_CAPACITY
        &&& self.functions@.len() <= self.used
        &&& forall|i: int|
            0 <= i < self.functions@.len() ==> (#[trigger] self.functions@[i]).interface_number
                == i && self.functions@[i].descriptor_len >= 1
        &&& 1 <= self.next_in <= MAX_ENDPOINT_NUMBER + 1
        &&& 1 <= self.next_out <= MAX_ENDPOINT_NUMBER + 1
    }

    /// A fresh builder for the given identity: nothing registered, all
    /// endpoints free.
    pub fn new(identity: DeviceIdentity) -> (b: DescriptorBuilder)
        ensures
            b.wf(),
            b.identity == identity,
            b.functions@.len() == 0,
            b.used == 0,
            b.next_in == 1,
            b.next_out == 1,
    {
        DescriptorBuilder {
            identity,
            functions: Vec::new(),
            used: 0,
            next_in: 1,
            next_out: 1,
        }
    }

    /// Registers the next logical function, consuming `descriptor_len`
    /// bytes of descriptor scratch. Functions are numbered in the order
    /// given: the new function's interface number is the count of those
    /// before it. Fails exactly when the fixed scratch bound would be
    /// exceeded, and then changes nothing.
    pub fn register(&mut self, descriptor_len: usize) -> (r: Result<u8, BuildError>)
        requires
            old(self).wf(),
            1 <= descriptor_len,
        ensures
            final(self).wf(),
            final(self).identity == old(self).identity,
            final(self).next_in == old(self).next_in,
            final(self).next_out == old(self).next_out,
            r is Ok <==> old(self).used + descriptor_len <= CONFIG_DESCRIPTOR_CAPACITY,
            r is Err ==> *final(self) == *old(self) && r == Err::<u8, BuildError>(
                BuildError::DescriptorSpace,
            ),
            r matches Ok(n) ==> n == old(self).functions@.len() && final(self).functions@ == old(
                self,
            ).functions@.push(
                (RegisteredFunction {
                    interface_number: n,
                    descriptor_len,
                }),
            ) && final(self).used == old(self).used + descriptor_len,
    {
        if descriptor_len <= CONFIG_DESCRIPTOR_CAPACITY - self.used {
            let n = self.functions.len();
            let f = RegisteredFunction { interface_number: n as u8, descriptor_len };
            proof {
                assert(self.functions@.push(f).drop_last() =~= self.functions@);
            }
            self.functions.push(f);
            self.used = self.used + descriptor_len;
            Ok(n as u8)
        } else {
            Err(BuildError::DescriptorSpace)
        }
    }

    /// Hands out the next IN (device-to-host) endpoint. Numbers count up,
    /// so every endpoint is allocated at most once; the call fails exactly
    /// when the controller has no IN endpoint left, and then changes
    /// nothing.
    pub fn alloc_in_endpoint(&mut self, max_packet_size: u16) -> (r: Result<
        EndpointInfo,
        BuildError,
    >)
        requires
            old(self).wf(),
        ensures
            final(self).wf(),
            final(self).identity == old(self).identity,
            final(self).functions@ == old(self).functions@,
            final(self).used == old(self).used,
            final(self).next_out == old(self).next_out,
            r is Ok <==> old(self).next_in <= MAX_ENDPOINT_NUMBER,
            r is Err ==> *final(self) == *old(self) && r == Err::<EndpointInfo, BuildError>(
                BuildError::EndpointsExhausted,
            ),
            r matches Ok(e) ==> e == (EndpointInfo {
                number: old(self).next_in,
                direction: Direction::In,
                max_packet_size,
            }) && final(self).next_in == old(self).next_in + 1,
    {
        if self.next_in <= MAX_ENDPOINT_NUMBER {
            let e = EndpointInfo {
                number: self.next_in,
                direction: Direction::In,
                max_packet_size,
            };
            self.next_in = self.next_in + 1;
            Ok(e)
        } else {
            Err(BuildError::EndpointsExhausted)
        }
    }

    /// Hands out the next OUT (host-to-device) endpoint; the mirror of the
    /// IN allocation.
    pub fn alloc_out_endpoint(&mut self, max_packet_size: u16) -> (r: Result<
        EndpointInfo,
        BuildError,
    >)
        requires
            old(self).wf(),
        ensures
            final(self).wf(),
            final(self).identity == old(self).identity,
            final(self).functions@ == old(self).functions@,
            final(self).used == old(self).used,
            final(self).next_in == old(self).next_in,
            r is Ok <==> old(self).next_out <= MAX_ENDPOINT_NUMBER,
            r is Err ==> *final(self) == *old(self) && r == Err::<EndpointInfo, BuildError>(
                BuildError::EndpointsExhausted,
            ),
            r matches Ok(e) ==> e == (EndpointInfo {
                number: old(self).next_out,
                direction: Direction::Out,
                max_packet_size,
            }) && final(self).next_out == old(self).next_out + 1,
    {
        if self.next_out <= MAX_ENDPOINT_NUMBER {
            let e = EndpointInfo {
                number: self.next_out,
                direction: Direction::Out,
                max_packet_size,
            };
            self.next_out = self.next_out + 1;
            Ok(e)
        } else {
            Err(BuildError::EndpointsExhausted)
        }
    }
}

/// The fixed report descriptor fits the configuration scratch cell: the
/// descriptor-size bound is established at build time, never discovered
/// after enumeration begins.
pub proof fn lemma_report_descriptor_fits()
    ensures
        crate::descriptor::report_descriptor_spec().len() <= CONFIG_DESCRIPTOR_CAPACITY,
{
}

/// The write capability over the HID input endpoint: the one transmitting
/// owner. Exactly one is produced per build, by the split.
pub struct ReportWriter {
    pub endpoint: EndpointInfo,
}

/// The read-and-respond capability over the HID control path.
pub struct RequestReader {
    pub endpoint: EndpointInfo,
}

/// The endpoint pair of the HID function before the split.
pub struct HidEndpoints {
    pub input: EndpointInfo,
    pub control: EndpointInfo,
}

/// The pair is well-formed when the report path leads to the host and the
/// control path away from it; the two then name disjoint channels.
pub open spec fn hid_endpoints_wf(h: HidEndpoints) -> bool {
    h.input.direction is In && h.control.direction is Out
}

impl HidEndpoints {
    /// Splits the function's endpoints into the writer and reader
    /// capabilities, consuming the pair. The split happens exactly once:
    /// a second writer over the same input endpoint cannot be constructed,
    /// because the pair is gone — the defect would be a missing value at
    /// build time, never a race at run time.
    pub fn split(self) -> (r: (ReportWriter, RequestReader))
        ensures
            r.0.endpoint == self.input,
            r.1.endpoint == self.control,
    {
        (ReportWriter { endpoint: self.input }, RequestReader { endpoint: self.control })
    }
}

/// Poll interval and packet bound the HID function is registered with.
pub struct HidConfig {
    pub poll_ms: u8,
    pub max_packet_size: u16,
}

/// The joystick function's configuration.
pub fn hid_config() -> (c: HidConfig)
    ensures
        c.poll_ms == 60,
        c.max_packet_size == 64,
{
    HidConfig { poll_ms: 60, max_packet_size: 64 }
}

/// Whether a HID build can succeed from the given builder and arena state:
/// the state cell is unclaimed, the descriptor scratch has room, and both
/// directions still have an endpoint.
pub open spec fn hid_build_ok(b: DescriptorBuilder, cells: Seq<bool>, state_cell: int) -> bool {
    &&& claim_free(cells, state_cell)
    &&& b.used + HID_FUNCTION_DESCRIPTOR_LEN <= CONFIG_DESCRIPTOR_CAPACITY
    &&& b.next_in <= MAX_ENDPOINT_NUMBER
    &&& b.next_out <= MAX_ENDPOINT_NUMBER
}

/// Builds the joystick HID function against the shared controller: claims
/// its state cell from the arena (the first build wins; a second build of
/// the same function fails at build time), registers its descriptors,
/// allocates its input and control endpoints, and splits them once into
/// the writer and reader capabilities.
pub fn build_hid_function(
    builder: &mut DescriptorBuilder,
    arena: &mut Arena,
    state_cell: usize,
    max_packet_size: u16,
) -> (r: Result<(ReportWriter, RequestReader), BuildError>)
    requires
        old(builder).wf(),
        state_cell < old(arena)@.len(),
    ensures
        final(builder).wf(),
        final(builder).identity == old(builder).identity,
        final(arena)@.len() == old(arena)@.len(),
        r is Ok <==> hid_build_ok(*old(builder), old(arena)@, state_cell as int),
        !claim_free(old(arena)@, state_cell as int) ==> r == Err::<
            (ReportWriter, RequestReader),
            BuildError,
        >(BuildError::StateCellClaimed) && *final(arena) == *old(arena) && *final(builder) == *old(
            builder,
        ),
        claim_free(old(arena)@, state_cell as int) ==> final(arena)@ == after_claim(
            old(arena)@,
            state_cell as int,
        ),
        r matches Ok(p) ==> {
            &&& p.0.endpoint == (EndpointInfo {
                number: old(builder).next_in,
                direction: Direction::In,
                max_packet_size,
            })
            &&& p.1.endpoint == (EndpointInfo {
                number: old(builder).next_out,
                direction: Direction::Out,
                max_packet_size,
            })
            &&& endpoints_disjoint(p.0.endpoint, p.1.endpoint)
            &&& final(builder).functions@ == old(builder).functions@.push(
                (RegisteredFunction {
                    interface_number: old(builder).functions@.len() as u8,
                    descriptor_len: HID_FUNCTION_DESCRIPTOR_LEN,
                }),
            )
            &&& final(builder).next_in == old(builder).next_in + 1
            &&& final(builder).next_out == old(builder).next_out + 1
        },
{
    match arena.claim(state_cell) {
        Err(_) => {
            return Err(BuildError::StateCellClaimed);
        },
        Ok(()) => {},
    }
    match builder.register(HID_FUNCTION_DESCRIPTOR_LEN) {
        Err(e) => {
            return Err(e);
        },
        Ok(_interface_number) => {},
    }
    let input = match builder.alloc_in_endpoint(max_packet_size) {
        Err(e) => {
            return Err(e);
        },
        Ok(e) => e,
    };
    let control = match builder.alloc_out_endpoint(max_packet_size) {
        Err(e) => {
            return Err(e);
        },
        Ok(e) => e,
    };
    let pair = HidEndpoints { input, control };
    Ok(pair.split())
}

/// The opaque handle set of the virtual-Ethernet function. The network
/// collaborator's wire format is outside the core: only its endpoint
/// bookkeeping is modelled here.
pub struct NetworkFunction {
    pub data_in: EndpointInfo,
    pub data_out: EndpointInfo,
    pub notify: EndpointInfo,
}

/// Whether a network-function build can succeed from the given builder and
/// arena state.
pub open spec fn network_build_ok(
    b: DescriptorBuilder,
    cells: Seq<bool>,
    state_cell: int,
    descriptor_len: int,
) -> bool {
    &&& claim_free(cells, state_cell)
    &&& b.used + descriptor_len <= CONFIG_DESCRIPTOR_CAPACITY
    &&& b.next_in + 1 <= MAX_ENDPOINT_NUMBER
    &&& b.next_out <= MAX_ENDPOINT_NUMBER
}

/// Builds the virtual-Ethernet function: claims its state cell, registers
/// the collaborator's descriptors (their size comes from the collaborator,
/// not from the core), and allocates its data pair and its notification
/// endpoint.
pub fn build_network_function(
    builder: &mut DescriptorBuilder,
    arena: &mut Arena,
    state_cell: usize,
    descriptor_len: usize,
    max_packet_size: u16,
) -> (r: Result<NetworkFunction, BuildError>)
    requires
        old(builder).wf(),
        state_cell < old(arena)@.len(),
        1 <= descriptor_len,
    ensures
        final(builder).wf(),
        final(builder).identity == old(builder).identity,
        final(arena)@.len() == old(arena)@.len(),
        r is Ok <==> network_build_ok(
            *old(builder),
            old(arena)@,
            state_cell as int,
            descriptor_len as int,
        ),
        !claim_free(old(arena)@, state_cell as int) ==> r == Err::<NetworkFunction, BuildError>(
            BuildError::StateCellClaimed,
        ) && *final(arena) == *old(arena) && *final(builder) == *old(builder),
        claim_free(old(arena)@, state_cell as int) ==> final(arena)@ == after_claim(
            old(arena)@,
            state_cell as int,
        ),
        r matches Ok(f) ==> {
            &&& f.data_in == (EndpointInfo {
                number: old(builder).next_in,
                direction: Direction::In,
                max_packet_size,
            })
            &&& f.notify == (EndpointInfo {
                number: (old(builder).next_in + 1) as u8,
                direction: Direction::In,
                max_packet_size,
            })
            &&& f.data_out == (EndpointInfo {
                number: old(builder).next_out,
                direction: Direction::Out,
                max_packet_size,
            })
            &&& endpoints_disjoint(f.data_in, f.data_out)
            &&& endpoints_disjoint(f.data_in, f.notify)
            &&& endpoints_disjoint(f.data_out, f.notify)
            &&& final(builder).functions@ == old(builder).functions@.push(
                (RegisteredFunction {
                    interface_number: old(builder).functions@.len() as u8,
                    descriptor_len,
                }),
            )
            &&& final(builder).next_in == old(builder).next_in + 2
            &&& final(builder).next_out == old(builder).next_out + 1
        },
{
    match arena.claim(state_cell) {
        Err(_) => {
            return Err(BuildError::StateCellClaimed);
        },
        Ok(()) => {},
    }
    match builder.register(descriptor_len) {
        Err(e) => {
            return Err(e);
        },
        Ok(_interface_number) => {},
    }
    let data_in = match builder.alloc_in_endpoint(max_packet_size) {
        Err(e) => {
            return Err(e);
        },
        Ok(e) => e,
    };
    let notify = match builder.alloc_in_endpoint(max_packet_size) {
        Err(e) => {
            return Err(e);
        },
        Ok(e) => e,
    };
    let data_out = match builder.alloc_out_endpoint(max_packet_size) {
        Err(e) => {
            return Err(e);
        },
        Ok(e) => e,
    };
    Ok(NetworkFunction { data_in, data_out, notify })
}

} // verus!
